use stat_bench::decimal::{decimal, parse_i32, parse_u64};
use stat_bench::workload::{
    method_named_by, parse_line, parse_tokens, parse_workload, zone_of_token, Method, ParseError,
    Request,
};

#[test]
fn population_line_parses() {
    match parse_line("getPopulationofCountry France z1") {
        Ok(Request::PopulationOfCountry { country, request_zone }) => {
            assert_eq!(country, "France");
            assert_eq!(request_zone, 1);
        }
        other => panic!("unexpected {:?}", other),
    }
}

#[test]
fn cities_line_parses() {
    match parse_line("getNumberofCities France 100000 z2") {
        Ok(Request::NumberOfCities { country, min, request_zone }) => {
            assert_eq!(country, "France");
            assert_eq!(min, 100000);
            assert_eq!(request_zone, 2);
        }
        other => panic!("unexpected {:?}", other),
    }
}

#[test]
fn countries_line_parses() {
    match parse_line("getNumberofCountries 5 1000 z3") {
        Ok(Request::NumberOfCountries { city_count, min, request_zone }) => {
            assert_eq!((city_count, min, request_zone), (5, 1000, 3));
        }
        other => panic!("unexpected {:?}", other),
    }
}

#[test]
fn countries_max_line_parses() {
    match parse_line("getNumberofCountriesMax 5 1000 2000000 z1") {
        Ok(Request::NumberOfCountriesMax { city_count, min, max, request_zone }) => {
            assert_eq!((city_count, min, max, request_zone), (5, 1000, 2000000, 1));
        }
        other => panic!("unexpected {:?}", other),
    }
}

#[test]
fn negative_bound_parses_and_is_left_to_the_server() {
    match parse_line("getNumberofCountriesMax -1 1000 2000000 z1") {
        Ok(Request::NumberOfCountriesMax { city_count, .. }) => assert_eq!(city_count, -1),
        other => panic!("unexpected {:?}", other),
    }
}

#[test]
fn zone_is_last_character_only() {
    assert_eq!(zone_of_token("z12"), Some(2));
    assert_eq!(zone_of_token("7"), Some(7));
    assert_eq!(zone_of_token("z"), None);
    assert_eq!(zone_of_token(""), None);
    match parse_line("getPopulationofCountry Spain z12") {
        Ok(req) => assert_eq!(req.request_zone(), 2),
        other => panic!("unexpected {:?}", other),
    }
}

#[test]
fn short_line_is_malformed() {
    assert_eq!(parse_line("getPopulationofCountry France").unwrap_err(), ParseError::Malformed);
    assert_eq!(parse_line("").unwrap_err(), ParseError::Malformed);
    assert_eq!(parse_line("   \t ").unwrap_err(), ParseError::Malformed);
}

#[test]
fn wrong_token_count_is_malformed() {
    assert_eq!(
        parse_line("getPopulationofCountry France 10 z1").unwrap_err(),
        ParseError::Malformed
    );
    assert_eq!(parse_line("getNumberofCountriesMax 5 10 z1").unwrap_err(), ParseError::Malformed);
}

#[test]
fn unknown_method_is_reported() {
    assert_eq!(parse_line("getEverything France z1").unwrap_err(), ParseError::UnknownMethod);
    assert_eq!(method_named_by("getnumberofcities"), None);
    assert_eq!(method_named_by("getNumberofCities"), Some(Method::NumberOfCities));
}

#[test]
fn bad_number_is_invalid_number() {
    assert_eq!(
        parse_line("getNumberofCities France lots z1").unwrap_err(),
        ParseError::InvalidNumber
    );
    assert_eq!(
        parse_line("getNumberofCountries 5 3000000000 z1").unwrap_err(),
        ParseError::InvalidNumber
    );
}

#[test]
fn bad_zone_is_invalid_zone() {
    assert_eq!(parse_line("getPopulationofCountry France zone").unwrap_err(), ParseError::InvalidZone);
}

#[test]
fn tokens_parse_like_lines() {
    let tokens: Vec<String> = vec!["getNumberofCities".to_string(), "Chile".to_string(), "5".to_string(), "z4".to_string()];
    match parse_tokens(&tokens) {
        Ok(req) => {
            assert_eq!(req.method(), Method::NumberOfCities);
            assert_eq!(req.request_zone(), 4);
        }
        other => panic!("unexpected {:?}", other),
    }
}

#[test]
fn workload_keeps_going_past_bad_lines() {
    let text = "getPopulationofCountry France z1\nbad\ngetNumberofCities France 100000 z2\nnope x\ngetNumberofCountries 2 3 z3\n";
    let parsed = parse_workload(text);
    assert_eq!(parsed.len(), 5);
    assert_eq!(parsed.iter().filter(|r| r.is_ok()).count(), 3);
    assert_eq!(parsed.iter().filter(|r| r.is_err()).count(), 2);
    assert!(parsed[1].is_err());
    assert!(parsed[3].is_err());
}

#[test]
fn signed_integers_read_as_std_does() {
    assert_eq!(parse_i32("42"), Some(42));
    assert_eq!(parse_i32("+42"), Some(42));
    assert_eq!(parse_i32("-42"), Some(-42));
    assert_eq!(parse_i32("007"), Some(7));
    assert_eq!(parse_i32("2147483647"), Some(i32::MAX));
    assert_eq!(parse_i32("-2147483648"), Some(i32::MIN));
    assert_eq!(parse_i32("2147483648"), None);
    assert_eq!(parse_i32("-2147483649"), None);
    assert_eq!(parse_i32(""), None);
    assert_eq!(parse_i32("-"), None);
    assert_eq!(parse_i32("+"), None);
    assert_eq!(parse_i32("1x"), None);
    assert_eq!(parse_i32(" 1"), None);
}

#[test]
fn unsigned_integers_read_as_std_does() {
    assert_eq!(parse_u64("5"), Some(5));
    assert_eq!(parse_u64("+5"), Some(5));
    assert_eq!(parse_u64("18446744073709551615"), Some(u64::MAX));
    assert_eq!(parse_u64("18446744073709551616"), None);
    assert_eq!(parse_u64("-0"), None);
    assert_eq!(parse_u64(""), None);
    assert_eq!(parse_u64("1.5"), None);
}

#[test]
fn decimal_form_has_no_leading_zeros() {
    assert_eq!(decimal(0), b"0".to_vec());
    assert_eq!(decimal(7), b"7".to_vec());
    assert_eq!(decimal(120), b"120".to_vec());
    assert_eq!(decimal(u64::MAX as u128), b"18446744073709551615".to_vec());
}
