//! Decomposition of one round trip into execution and waiting time, and the
//! record line that a zone's log holds for it.

use vstd::prelude::*;
use crate::decimal::{decimal, decimal_bytes, parse_u64, parse_u64_spec};
use crate::server::ServiceError;

verus! {

/// Why a response cannot be turned into a latency record.
#[derive(Clone, Copy, Debug, PartialEq, Eq, Structural)]
pub enum ProtocolError {
    /// The response metadata holds no execution time.
    MissingExecutionTime,
    /// The execution time in the metadata is not an unsigned integer.
    UnparsableExecutionTime,
    /// The server reports more execution time than the whole round trip took.
    ExecutionExceedsTurnaround,
}

/// Why a request's round trip gives no log record.
#[derive(Clone, Copy, Debug, PartialEq, Eq, Structural)]
pub enum ClientError {
    /// The server could not be reached.
    Connection,
    /// The server answered with an error of this class.
    Rpc(ServiceError),
    /// The answer breaks the timing protocol.
    Protocol(ProtocolError),
    /// The record could not be written to the zone's log.
    LogWrite,
}

/// The timing of one successful request, in milliseconds.
#[derive(Clone, Copy, Debug, PartialEq, Eq, Structural)]
pub struct LatencyRecord {
    pub turnaround_ms: u128,
    pub execution_ms: u64,
    pub waiting_ms: u128,
    pub client_zone: i32,
}

impl LatencyRecord {
    /// Waiting time is turnaround less execution, and execution lies within
    /// the round trip.
    pub open spec fn is_consistent(&self) -> bool {
        &&& self.execution_ms <= self.turnaround_ms
        &&& self.waiting_ms == self.turnaround_ms - self.execution_ms
    }

    /// Decomposes a round trip of `turnaround_ms` of which the server spent
    /// `execution_ms` executing.
    pub fn decompose(turnaround_ms: u128, execution_ms: u64, client_zone: i32) -> (r: Result<
        LatencyRecord,
        ProtocolError,
    >)
        ensures
            execution_ms > turnaround_ms ==> r == Err::<LatencyRecord, ProtocolError>(
                ProtocolError::ExecutionExceedsTurnaround,
            ),
            execution_ms <= turnaround_ms ==> r == Ok::<LatencyRecord, ProtocolError>(
                (LatencyRecord {
                    turnaround_ms,
                    execution_ms,
                    waiting_ms: (turnaround_ms - execution_ms) as u128,
                    client_zone,
                }),
            ),
            r matches Ok(rec) ==> rec.is_consistent(),
    {
        if execution_ms as u128 > turnaround_ms {
            Err(ProtocolError::ExecutionExceedsTurnaround)
        } else {
            Ok(LatencyRecord {
                turnaround_ms,
                execution_ms,
                waiting_ms: turnaround_ms - execution_ms as u128,
                client_zone,
            })
        }
    }

    /// Builds the record of a round trip from its measured turnaround and the
    /// execution-time value found in the response metadata, if any.
    pub fn from_round_trip(turnaround_ms: u128, execution: Option<&str>, client_zone: i32) -> (r:
        Result<LatencyRecord, ProtocolError>)
        ensures
            r == round_trip_spec(turnaround_ms, execution_view(execution), client_zone),
            r matches Ok(rec) ==> rec.is_consistent(),
    {
        let execution_ms = execution_ms_from_metadata(execution)?;
        LatencyRecord::decompose(turnaround_ms, execution_ms, client_zone)
    }

    /// Builds the record of a finished call: `response` is the execution-time
    /// metadata value of the reply, or the error class that the server
    /// answered with.
    pub fn from_response(
        turnaround_ms: u128,
        response: Result<Option<&str>, ServiceError>,
        client_zone: i32,
    ) -> (r: Result<LatencyRecord, ClientError>)
        ensures
            response matches Err(e) ==> r == Err::<LatencyRecord, ClientError>(ClientError::Rpc(e)),
            response matches Ok(execution) ==> match round_trip_spec(
                turnaround_ms,
                execution_view(execution),
                client_zone,
            ) {
                Ok(rec) => r == Ok::<LatencyRecord, ClientError>(rec),
                Err(p) => r == Err::<LatencyRecord, ClientError>(ClientError::Protocol(p)),
            },
            r matches Ok(rec) ==> rec.is_consistent(),
    {
        match response {
            Err(e) => Err(ClientError::Rpc(e)),
            Ok(execution) => match LatencyRecord::from_round_trip(turnaround_ms, execution, client_zone) {
                Ok(rec) => Ok(rec),
                Err(p) => Err(ClientError::Protocol(p)),
            },
        }
    }

    /// The record as one log line: turnaround, execution and waiting time.
    pub fn csv_line(&self) -> (r: Vec<u8>)
        ensures
            r@ == record_line(*self),
    {
        let mut fields: Vec<Vec<u8>> = Vec::new();
        fields.push(decimal(self.turnaround_ms));
        fields.push(decimal(self.execution_ms as u128));
        fields.push(decimal(self.waiting_ms));
        proof {
            let v = fields@.map_values(|f: Vec<u8>| f@);
            assert(v =~= seq![
                decimal_bytes(self.turnaround_ms as nat),
                decimal_bytes(self.execution_ms as nat),
                decimal_bytes(self.waiting_ms as nat),
            ]);
            lemma_decimal_plain(self.turnaround_ms as nat);
            lemma_decimal_plain(self.execution_ms as nat);
            lemma_decimal_plain(self.waiting_ms as nat);
            assert(v.drop_last() =~= seq![v[0], v[1]]);
            assert(v.drop_last().drop_last() =~= seq![v[0]]);
            assert(joined_fields(seq![v[0]]) == v[0]);
            assert(joined_fields(seq![v[0], v[1]]) == v[0] + seq![44u8] + v[1]);
            assert(joined_fields(v) == v[0] + seq![44u8] + v[1] + seq![44u8] + v[2]);
            assert(all_plain_fields(fields@));
            assert(csv_record(fields@) =~= record_line(*self));
        }
        match write_csv_record(&fields) {
            Some(line) => line,
            None => {
                assert(false);
                Vec::new()
            },
        }
    }
}

/// The execution-time metadata value as characters.
pub open spec fn execution_view(execution: Option<&str>) -> Option<Seq<char>> {
    match execution {
        Some(s) => Some(s@),
        None => None,
    }
}

/// The execution time that a metadata value states.
pub open spec fn execution_spec(execution: Option<Seq<char>>) -> Result<u64, ProtocolError> {
    match execution {
        None => Err(ProtocolError::MissingExecutionTime),
        Some(s) => match parse_u64_spec(s) {
            Some(v) => Ok(v),
            None => Err(ProtocolError::UnparsableExecutionTime),
        },
    }
}

/// The record of a round trip, or the protocol violation that prevents it.
pub open spec fn round_trip_spec(
    turnaround_ms: u128,
    execution: Option<Seq<char>>,
    client_zone: i32,
) -> Result<LatencyRecord, ProtocolError> {
    match execution_spec(execution) {
        Err(e) => Err(e),
        Ok(execution_ms) => if execution_ms > turnaround_ms {
            Err(ProtocolError::ExecutionExceedsTurnaround)
        } else {
            Ok(
                LatencyRecord {
                    turnaround_ms,
                    execution_ms,
                    waiting_ms: (turnaround_ms - execution_ms) as u128,
                    client_zone,
                },
            )
        },
    }
}

/// Reads the server-reported execution time from a response's metadata value.
pub fn execution_ms_from_metadata(execution: Option<&str>) -> (r: Result<u64, ProtocolError>)
    ensures
        r == execution_spec(execution_view(execution)),
{
    match execution {
        None => Err(ProtocolError::MissingExecutionTime),
        Some(s) => match parse_u64(s) {
            Some(v) => Ok(v),
            None => Err(ProtocolError::UnparsableExecutionTime),
        },
    }
}

/// A field that a CSV writer copies as it is: one or more ASCII digits.
pub open spec fn is_plain_field(f: Seq<u8>) -> bool {
    f.len() > 0 && forall|i: int| 0 <= i < f.len() ==> 48 <= #[trigger] f[i] <= 57
}

/// Fields separated by commas.
pub open spec fn joined_fields(fields: Seq<Seq<u8>>) -> Seq<u8>
    decreases fields.len(),
{
    if fields.len() == 0 {
        Seq::empty()
    } else if fields.len() == 1 {
        fields[0]
    } else {
        joined_fields(fields.drop_last()) + seq![44u8] + fields.last()
    }
}

/// The line that a zone's log holds for one record.
pub open spec fn record_line(r: LatencyRecord) -> Seq<u8> {
    decimal_bytes(r.turnaround_ms as nat) + seq![44u8] + decimal_bytes(r.execution_ms as nat) + seq![
        44u8,
    ] + decimal_bytes(r.waiting_ms as nat) + seq![10u8]
}

proof fn lemma_decimal_plain(n: nat)
    ensures
        is_plain_field(decimal_bytes(n)),
    decreases n,
{
    if n >= 10 {
        lemma_decimal_plain(n / 10);
    }
}

/// Fields that a CSV writer copies as they are, at least one of them.
pub open spec fn all_plain_fields(fields: Seq<Vec<u8>>) -> bool {
    fields.len() > 0 && forall|i: int| 0 <= i < fields.len() ==> is_plain_field(#[trigger] fields[i]@)
}

/// One CSV record: the fields separated by commas, ended by `\n`.
pub open spec fn csv_record(fields: Seq<Vec<u8>>) -> Seq<u8> {
    joined_fields(fields.map_values(|f: Vec<u8>| f@)) + seq![10u8]
}

/// Relies on csv::WriterBuilder (headers off) with Writer::write_record and
/// Writer::into_inner over an in-memory buffer: with the default comma
/// delimiter, `\n` terminator and quoting only where needed, fields of digits
/// are copied as they are, separated by commas, and the record ends in `\n`.
#[verifier::external_body]
fn write_csv_record(fields: &Vec<Vec<u8>>) -> (r: Option<Vec<u8>>)
    ensures
        all_plain_fields(fields@) ==> r.is_some() && r.unwrap()@ == csv_record(fields@),
{
    let mut writer = csv::WriterBuilder::new().has_headers(false).from_writer(Vec::new());
    match writer.write_record(fields) {
        Ok(()) => writer.into_inner().ok(),
        Err(_) => None,
    }
}

} // verus!
