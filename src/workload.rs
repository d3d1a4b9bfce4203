//! Workload scripts: one typed request per line.

use vstd::prelude::*;
use vstd::string::*;
use crate::decimal::{is_digit, digit_value, parse_i32, parse_i32_spec};

verus! {

/// The query kinds that a workload line can name.
#[derive(Clone, Copy, Debug, PartialEq, Eq, Structural)]
pub enum Method {
    PopulationOfCountry,
    NumberOfCities,
    NumberOfCountries,
    NumberOfCountriesMax,
}

/// Why a workload line gives no request.
#[derive(Clone, Copy, Debug, PartialEq, Eq, Structural)]
pub enum ParseError {
    /// Fewer than three tokens, or not as many as the method takes.
    Malformed,
    /// The first token names no method.
    UnknownMethod,
    /// A numeric argument is not a 32-bit integer.
    InvalidNumber,
    /// The zone token does not end in a decimal digit.
    InvalidZone,
}

/// One query of a workload, with the zone that the request is meant for.
#[derive(Clone, Debug)]
pub enum Request {
    PopulationOfCountry { country: String, request_zone: u32 },
    NumberOfCities { country: String, min: i32, request_zone: u32 },
    NumberOfCountries { city_count: i32, min: i32, request_zone: u32 },
    NumberOfCountriesMax { city_count: i32, min: i32, max: i32, request_zone: u32 },
}

/// A request with its country name as characters.
pub enum RequestView {
    PopulationOfCountry { country: Seq<char>, request_zone: u32 },
    NumberOfCities { country: Seq<char>, min: i32, request_zone: u32 },
    NumberOfCountries { city_count: i32, min: i32, request_zone: u32 },
    NumberOfCountriesMax { city_count: i32, min: i32, max: i32, request_zone: u32 },
}

impl View for Request {
    type V = RequestView;

    open spec fn view(&self) -> RequestView {
        match self {
            Request::PopulationOfCountry { country, request_zone } => {
                RequestView::PopulationOfCountry { country: country@, request_zone: *request_zone }
            },
            Request::NumberOfCities { country, min, request_zone } => RequestView::NumberOfCities {
                country: country@,
                min: *min,
                request_zone: *request_zone,
            },
            Request::NumberOfCountries { city_count, min, request_zone } => {
                RequestView::NumberOfCountries {
                    city_count: *city_count,
                    min: *min,
                    request_zone: *request_zone,
                }
            },
            Request::NumberOfCountriesMax { city_count, min, max, request_zone } => {
                RequestView::NumberOfCountriesMax {
                    city_count: *city_count,
                    min: *min,
                    max: *max,
                    request_zone: *request_zone,
                }
            },
        }
    }
}

impl Method {
    /// How many tokens a line of this method has, the method name included.
    pub open spec fn token_count_spec(&self) -> nat {
        match self {
            Method::PopulationOfCountry => 3,
            Method::NumberOfCities => 4,
            Method::NumberOfCountries => 4,
            Method::NumberOfCountriesMax => 5,
        }
    }

    /// How many tokens a line of this method has, the method name included.
    pub fn token_count(&self) -> (r: usize)
        ensures
            r == self.token_count_spec(),
    {
        match self {
            Method::PopulationOfCountry => 3,
            Method::NumberOfCities => 4,
            Method::NumberOfCountries => 4,
            Method::NumberOfCountriesMax => 5,
        }
    }
}

impl Request {
    /// The query kind of this request.
    pub fn method(&self) -> (r: Method)
        ensures
            r == method_of_view(self@),
    {
        match self {
            Request::PopulationOfCountry { .. } => Method::PopulationOfCountry,
            Request::NumberOfCities { .. } => Method::NumberOfCities,
            Request::NumberOfCountries { .. } => Method::NumberOfCountries,
            Request::NumberOfCountriesMax { .. } => Method::NumberOfCountriesMax,
        }
    }

    /// The zone that the request is meant for.
    pub fn request_zone(&self) -> (r: u32)
        ensures
            r == request_zone_of_view(self@),
    {
        match self {
            Request::PopulationOfCountry { request_zone, .. } => *request_zone,
            Request::NumberOfCities { request_zone, .. } => *request_zone,
            Request::NumberOfCountries { request_zone, .. } => *request_zone,
            Request::NumberOfCountriesMax { request_zone, .. } => *request_zone,
        }
    }
}

pub open spec fn method_of_view(r: RequestView) -> Method {
    match r {
        RequestView::PopulationOfCountry { .. } => Method::PopulationOfCountry,
        RequestView::NumberOfCities { .. } => Method::NumberOfCities,
        RequestView::NumberOfCountries { .. } => Method::NumberOfCountries,
        RequestView::NumberOfCountriesMax { .. } => Method::NumberOfCountriesMax,
    }
}

pub open spec fn request_zone_of_view(r: RequestView) -> u32 {
    match r {
        RequestView::PopulationOfCountry { request_zone, .. } => request_zone,
        RequestView::NumberOfCities { request_zone, .. } => request_zone,
        RequestView::NumberOfCountries { request_zone, .. } => request_zone,
        RequestView::NumberOfCountriesMax { request_zone, .. } => request_zone,
    }
}

/// The method that a workload line's first token names.
pub open spec fn method_named(name: Seq<char>) -> Option<Method> {
    if name == "getPopulationofCountry"@ {
        Some(Method::PopulationOfCountry)
    } else if name == "getNumberofCities"@ {
        Some(Method::NumberOfCities)
    } else if name == "getNumberofCountries"@ {
        Some(Method::NumberOfCountries)
    } else if name == "getNumberofCountriesMax"@ {
        Some(Method::NumberOfCountriesMax)
    } else {
        None
    }
}

/// The zone of a zone token: its last character read as one decimal digit.
pub open spec fn zone_spec(token: Seq<char>) -> Option<u32> {
    if token.len() > 0 && is_digit(token.last()) {
        Some(digit_value(token.last()) as u32)
    } else {
        None
    }
}

/// The request that a line's tokens describe, or why they describe none.
pub open spec fn parse_tokens_spec(t: Seq<Seq<char>>) -> Result<RequestView, ParseError> {
    if t.len() < 3 {
        Err(ParseError::Malformed)
    } else {
        match method_named(t[0]) {
            None => Err(ParseError::UnknownMethod),
            Some(m) => if t.len() != m.token_count_spec() {
                Err(ParseError::Malformed)
            } else {
                match m {
                    Method::PopulationOfCountry => match zone_spec(t[2]) {
                        None => Err(ParseError::InvalidZone),
                        Some(z) => Ok(
                            RequestView::PopulationOfCountry { country: t[1], request_zone: z },
                        ),
                    },
                    Method::NumberOfCities => match parse_i32_spec(t[2]) {
                        None => Err(ParseError::InvalidNumber),
                        Some(min) => match zone_spec(t[3]) {
                            None => Err(ParseError::InvalidZone),
                            Some(z) => Ok(
                                RequestView::NumberOfCities { country: t[1], min, request_zone: z },
                            ),
                        },
                    },
                    Method::NumberOfCountries => match parse_i32_spec(t[1]) {
                        None => Err(ParseError::InvalidNumber),
                        Some(city_count) => match parse_i32_spec(t[2]) {
                            None => Err(ParseError::InvalidNumber),
                            Some(min) => match zone_spec(t[3]) {
                                None => Err(ParseError::InvalidZone),
                                Some(z) => Ok(
                                    RequestView::NumberOfCountries {
                                        city_count,
                                        min,
                                        request_zone: z,
                                    },
                                ),
                            },
                        },
                    },
                    Method::NumberOfCountriesMax => match parse_i32_spec(t[1]) {
                        None => Err(ParseError::InvalidNumber),
                        Some(city_count) => match parse_i32_spec(t[2]) {
                            None => Err(ParseError::InvalidNumber),
                            Some(min) => match parse_i32_spec(t[3]) {
                                None => Err(ParseError::InvalidNumber),
                                Some(max) => match zone_spec(t[4]) {
                                    None => Err(ParseError::InvalidZone),
                                    Some(z) => Ok(
                                        RequestView::NumberOfCountriesMax {
                                            city_count,
                                            min,
                                            max,
                                            request_zone: z,
                                        },
                                    ),
                                },
                            },
                        },
                    },
                }
            },
        }
    }
}

/// The tokens of a workload line, split at whitespace.
pub uninterp spec fn whitespace_tokens(s: Seq<char>) -> Seq<Seq<char>>;

/// The lines of a workload text.
pub uninterp spec fn text_lines(s: Seq<char>) -> Seq<Seq<char>>;

/// The request that a workload line describes, or why it describes none.
pub open spec fn parse_line_spec(line: Seq<char>) -> Result<RequestView, ParseError> {
    parse_tokens_spec(whitespace_tokens(line))
}

pub open spec fn string_views(v: Seq<String>) -> Seq<Seq<char>> {
    v.map_values(|t: String| t@)
}

pub open spec fn parsed_view(r: Result<Request, ParseError>) -> Result<RequestView, ParseError> {
    match r {
        Ok(q) => Ok(q@),
        Err(e) => Err(e),
    }
}

/// Relies on str::split_whitespace: the tokens depend on the characters alone.
#[verifier::external_body]
fn split_tokens(line: &str) -> (r: Vec<String>)
    ensures
        string_views(r@) == whitespace_tokens(line@),
{
    line.split_whitespace().map(String::from).collect()
}

/// Relies on str::lines: the lines depend on the characters alone.
#[verifier::external_body]
fn split_lines(text: &str) -> (r: Vec<String>)
    ensures
        string_views(r@) == text_lines(text@),
{
    text.lines().map(String::from).collect()
}

/// Whether two strings hold the same characters.
fn same_text(a: &str, b: &str) -> (r: bool)
    ensures
        r == (a@ == b@),
{
    let n = a.unicode_len();
    if n != b.unicode_len() {
        return false;
    }
    let mut i: usize = 0;
    while i < n
        invariant
            n == a@.len(),
            n == b@.len(),
            0 <= i <= n,
            forall|j: int| 0 <= j < i ==> a@[j] == b@[j],
        decreases n - i,
    {
        if a.get_char(i) != b.get_char(i) {
            return false;
        }
        i = i + 1;
    }
    assert(a@ =~= b@);
    true
}

/// The method that a workload line's first token names, if any.
pub fn method_named_by(name: &str) -> (r: Option<Method>)
    ensures
        r == method_named(name@),
{
    if same_text(name, "getPopulationofCountry") {
        Some(Method::PopulationOfCountry)
    } else if same_text(name, "getNumberofCities") {
        Some(Method::NumberOfCities)
    } else if same_text(name, "getNumberofCountries") {
        Some(Method::NumberOfCountries)
    } else if same_text(name, "getNumberofCountriesMax") {
        Some(Method::NumberOfCountriesMax)
    } else {
        None
    }
}

/// The zone of a zone token: only its last character counts, read as one
/// decimal digit (`"z12"` is zone 2).
pub fn zone_of_token(token: &str) -> (r: Option<u32>)
    ensures
        r == zone_spec(token@),
{
    let n = token.unicode_len();
    if n == 0 {
        return None;
    }
    let c = token.get_char(n - 1);
    if '0' <= c && c <= '9' {
        Some(c as u32 - '0' as u32)
    } else {
        None
    }
}

/// Reads a request from the whitespace-separated tokens of one workload line.
pub fn parse_tokens(tokens: &Vec<String>) -> (r: Result<Request, ParseError>)
    ensures
        parsed_view(r) == parse_tokens_spec(string_views(tokens@)),
{
    let ghost t = string_views(tokens@);
    if tokens.len() < 3 {
        return Err(ParseError::Malformed);
    }
    assert(t[0] == tokens@[0]@ && t[1] == tokens@[1]@ && t[2] == tokens@[2]@);
    let m = match method_named_by(tokens[0].as_str()) {
        None => return Err(ParseError::UnknownMethod),
        Some(m) => m,
    };
    if tokens.len() != m.token_count() {
        return Err(ParseError::Malformed);
    }
    match m {
        Method::PopulationOfCountry => {
            let request_zone = match zone_of_token(tokens[2].as_str()) {
                None => return Err(ParseError::InvalidZone),
                Some(z) => z,
            };
            Ok(Request::PopulationOfCountry { country: tokens[1].clone(), request_zone })
        },
        Method::NumberOfCities => {
            assert(t[3] == tokens@[3]@);
            let min = match parse_i32(tokens[2].as_str()) {
                None => return Err(ParseError::InvalidNumber),
                Some(v) => v,
            };
            let request_zone = match zone_of_token(tokens[3].as_str()) {
                None => return Err(ParseError::InvalidZone),
                Some(z) => z,
            };
            Ok(Request::NumberOfCities { country: tokens[1].clone(), min, request_zone })
        },
        Method::NumberOfCountries => {
            assert(t[3] == tokens@[3]@);
            let city_count = match parse_i32(tokens[1].as_str()) {
                None => return Err(ParseError::InvalidNumber),
                Some(v) => v,
            };
            let min = match parse_i32(tokens[2].as_str()) {
                None => return Err(ParseError::InvalidNumber),
                Some(v) => v,
            };
            let request_zone = match zone_of_token(tokens[3].as_str()) {
                None => return Err(ParseError::InvalidZone),
                Some(z) => z,
            };
            Ok(Request::NumberOfCountries { city_count, min, request_zone })
        },
        Method::NumberOfCountriesMax => {
            assert(t[3] == tokens@[3]@ && t[4] == tokens@[4]@);
            let city_count = match parse_i32(tokens[1].as_str()) {
                None => return Err(ParseError::InvalidNumber),
                Some(v) => v,
            };
            let min = match parse_i32(tokens[2].as_str()) {
                None => return Err(ParseError::InvalidNumber),
                Some(v) => v,
            };
            let max = match parse_i32(tokens[3].as_str()) {
                None => return Err(ParseError::InvalidNumber),
                Some(v) => v,
            };
            let request_zone = match zone_of_token(tokens[4].as_str()) {
                None => return Err(ParseError::InvalidZone),
                Some(z) => z,
            };
            Ok(Request::NumberOfCountriesMax { city_count, min, max, request_zone })
        },
    }
}

/// Reads a request from one workload line.
pub fn parse_line(line: &str) -> (r: Result<Request, ParseError>)
    ensures
        parsed_view(r) == parse_line_spec(line@),
{
    let tokens = split_tokens(line);
    parse_tokens(&tokens)
}

/// Reads every line of a workload text; a bad line gives its error in place
/// and does not stop the reading of the lines after it.
pub fn parse_workload(text: &str) -> (r: Vec<Result<Request, ParseError>>)
    ensures
        r@.len() == text_lines(text@).len(),
        forall|i: int|
            0 <= i < r@.len() ==> parsed_view(#[trigger] r@[i]) == parse_line_spec(
                text_lines(text@)[i],
            ),
{
    let lines = split_lines(text);
    let ghost ls = text_lines(text@);
    let mut out: Vec<Result<Request, ParseError>> = Vec::new();
    let mut i: usize = 0;
    while i < lines.len()
        invariant
            0 <= i <= lines@.len(),
            string_views(lines@) == ls,
            out@.len() == i,
            forall|j: int|
                0 <= j < i ==> parsed_view(#[trigger] out@[j]) == parse_line_spec(ls[j]),
        decreases lines@.len() - i,
    {
        assert(ls[i as int] == lines@[i as int]@);
        let parsed = parse_line(lines[i].as_str());
        out.push(parsed);
        i = i + 1;
    }
    out
}

} // verus!
