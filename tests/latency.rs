use stat_bench::latency::{ClientError, LatencyRecord, ProtocolError};
use stat_bench::server::ServiceError;

#[test]
fn population_round_trip_decomposes() {
    let rec = LatencyRecord::from_round_trip(120, Some("5"), 1).unwrap();
    assert_eq!(rec.turnaround_ms, 120);
    assert_eq!(rec.execution_ms, 5);
    assert_eq!(rec.waiting_ms, 115);
    assert_eq!(rec.client_zone, 1);
    assert_eq!(rec.csv_line(), b"120,5,115\n".to_vec());
}

#[test]
fn waiting_is_turnaround_less_execution() {
    for (t, e) in [(0u128, 0u64), (10, 10), (1000, 1), (u64::MAX as u128 + 5, u64::MAX)] {
        let rec = LatencyRecord::decompose(t, e, 3).unwrap();
        assert_eq!(rec.waiting_ms, t - e as u128);
        assert!(rec.execution_ms as u128 <= rec.turnaround_ms);
    }
}

#[test]
fn execution_over_turnaround_is_protocol_error() {
    assert_eq!(
        LatencyRecord::decompose(4, 5, 1),
        Err(ProtocolError::ExecutionExceedsTurnaround)
    );
}

#[test]
fn missing_execution_is_protocol_error() {
    assert_eq!(
        LatencyRecord::from_round_trip(10, None, 1),
        Err(ProtocolError::MissingExecutionTime)
    );
}

#[test]
fn unparsable_execution_is_protocol_error() {
    assert_eq!(
        LatencyRecord::from_round_trip(10, Some("fast"), 1),
        Err(ProtocolError::UnparsableExecutionTime)
    );
    assert_eq!(
        LatencyRecord::from_round_trip(10, Some("-1"), 1),
        Err(ProtocolError::UnparsableExecutionTime)
    );
}

#[test]
fn rpc_error_passes_through() {
    assert_eq!(
        LatencyRecord::from_response(10, Err(ServiceError::InvalidArgument), 1),
        Err(ClientError::Rpc(ServiceError::InvalidArgument))
    );
    assert_eq!(
        LatencyRecord::from_response(3, Ok(Some("9")), 1),
        Err(ClientError::Protocol(ProtocolError::ExecutionExceedsTurnaround))
    );
    let rec = LatencyRecord::from_response(9, Ok(Some("3")), 2).unwrap();
    assert_eq!(rec.waiting_ms, 6);
}

#[test]
fn csv_line_has_three_fields() {
    let rec = LatencyRecord::decompose(0, 0, 1).unwrap();
    assert_eq!(rec.csv_line(), b"0,0,0\n".to_vec());
    let big = LatencyRecord::decompose(20000000000000000000, 18446744073709551615, 1).unwrap();
    assert_eq!(
        big.csv_line(),
        b"20000000000000000000,18446744073709551615,1553255926290448385\n".to_vec()
    );
}

#[test]
fn clean_then_append_holds_one_record() {
    let rec = LatencyRecord::decompose(120, 5, 1).unwrap();
    let mut stream: Vec<u8> = b"1,1,0\n2,1,1\n".to_vec();
    stream.clear();
    stream.extend(rec.csv_line());
    assert_eq!(stream, b"120,5,115\n".to_vec());
    assert_eq!(stream.iter().filter(|b| **b == b'\n').count(), 1);
}

#[test]
fn serialized_appends_give_one_line_each() {
    let mut stream: Vec<u8> = Vec::new();
    let n = 25u128;
    for i in 0..n {
        let rec = LatencyRecord::decompose(100 + i, (i % 7) as u64, 4).unwrap();
        stream.extend(rec.csv_line());
    }
    let text = String::from_utf8(stream).unwrap();
    let lines: Vec<&str> = text.lines().collect();
    assert_eq!(lines.len(), n as usize);
    for (i, line) in lines.iter().enumerate() {
        let fields: Vec<u128> = line.split(',').map(|f| f.parse().unwrap()).collect();
        assert_eq!(fields.len(), 3);
        assert_eq!(fields[0], 100 + i as u128);
        assert_eq!(fields[0] - fields[1], fields[2]);
    }
}
