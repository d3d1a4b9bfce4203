use stat_bench::server::{Reply, ServiceError, StatServer, StoreFailure, StoreQuery};

#[test]
fn empty_country_is_rejected_before_the_store() {
    let server = StatServer::default();
    assert_eq!(server.population_of_country("").unwrap_err(), ServiceError::InvalidArgument);
    assert_eq!(server.number_of_cities("", 5).unwrap_err(), ServiceError::InvalidArgument);
}

#[test]
fn population_request_runs_one_query() {
    let server = StatServer::default();
    let q = server.population_of_country("France").unwrap();
    match &q {
        StoreQuery::PopulationOfCountry { country } => assert_eq!(country, "France"),
        other => panic!("unexpected {:?}", other),
    }
    assert_eq!(q.sql(), "SELECT SUM(Population) FROM cities WHERE [Country name EN] = ?1");
    assert_eq!(
        server.reply(Ok(67000000), 5),
        Ok(Reply { value: 67000000, execution_ms: 5 })
    );
}

#[test]
fn cities_request_validates_floor() {
    let server = StatServer::default();
    match server.number_of_cities("France", 100000).unwrap() {
        StoreQuery::NumberOfCities { country, min } => {
            assert_eq!(country, "France");
            assert_eq!(min, 100000);
        }
        other => panic!("unexpected {:?}", other),
    }
    assert_eq!(server.number_of_cities("France", 0).unwrap_err(), ServiceError::InvalidArgument);
    assert_eq!(server.reply(Ok(42), 3), Ok(Reply { value: 42, execution_ms: 3 }));
}

#[test]
fn non_positive_bounds_are_rejected() {
    let server = StatServer::default();
    assert_eq!(
        server.number_of_countries_max(-1, 1000, 2000000).unwrap_err(),
        ServiceError::InvalidArgument
    );
    assert_eq!(
        server.number_of_countries_max(5, 1000, 0).unwrap_err(),
        ServiceError::InvalidArgument
    );
    assert!(server.number_of_countries_max(5, 1000, 2000000).is_ok());
    assert_eq!(server.number_of_countries(0, 10).unwrap_err(), ServiceError::InvalidArgument);
    assert_eq!(server.number_of_countries(3, -10).unwrap_err(), ServiceError::InvalidArgument);
    assert!(server.number_of_countries(3, 10).is_ok());
}

#[test]
fn store_failure_is_internal() {
    let server = StatServer::default();
    assert_eq!(server.reply(Err(StoreFailure::Unavailable), 1), Err(ServiceError::Internal));
    assert_eq!(server.reply(Err(StoreFailure::QueryFailed), 9), Err(ServiceError::Internal));
}

#[test]
fn records_count_query() {
    let server = StatServer::default();
    let q = server.records_count();
    assert!(matches!(q, StoreQuery::RecordsCount));
    assert_eq!(q.sql(), "SELECT COUNT(*) FROM cities");
}
