//! The statistics service: request validation, the store query that each
//! method runs, and the reply that carries the measured execution time.

use vstd::prelude::*;

verus! {

/// An error class that the service answers with.
#[derive(Clone, Copy, Debug, PartialEq, Eq, Structural)]
pub enum ServiceError {
    /// A field is missing or out of its domain; nothing was run.
    InvalidArgument,
    /// The backing store could not be opened or the query failed.
    Internal,
}

/// Why the backing store gave no result.
#[derive(Clone, Copy, Debug, PartialEq, Eq, Structural)]
pub enum StoreFailure {
    /// The store could not be opened.
    Unavailable,
    /// The query could not be run or its result read.
    QueryFailed,
}

/// The one aggregate query that a validated request runs on the store.
#[derive(Clone, Debug)]
pub enum StoreQuery {
    RecordsCount,
    PopulationOfCountry { country: String },
    NumberOfCities { country: String, min: i32 },
    NumberOfCountries { city_count: i32, min: i32 },
    NumberOfCountriesMax { city_count: i32, min: i32, max: i32 },
}

/// A store query with its country name as characters.
pub enum StoreQueryView {
    RecordsCount,
    PopulationOfCountry { country: Seq<char> },
    NumberOfCities { country: Seq<char>, min: i32 },
    NumberOfCountries { city_count: i32, min: i32 },
    NumberOfCountriesMax { city_count: i32, min: i32, max: i32 },
}

impl View for StoreQuery {
    type V = StoreQueryView;

    open spec fn view(&self) -> StoreQueryView {
        match self {
            StoreQuery::RecordsCount => StoreQueryView::RecordsCount,
            StoreQuery::PopulationOfCountry { country } => StoreQueryView::PopulationOfCountry {
                country: country@,
            },
            StoreQuery::NumberOfCities { country, min } => StoreQueryView::NumberOfCities {
                country: country@,
                min: *min,
            },
            StoreQuery::NumberOfCountries { city_count, min } => StoreQueryView::NumberOfCountries {
                city_count: *city_count,
                min: *min,
            },
            StoreQuery::NumberOfCountriesMax { city_count, min, max } => {
                StoreQueryView::NumberOfCountriesMax {
                    city_count: *city_count,
                    min: *min,
                    max: *max,
                }
            },
        }
    }
}

pub open spec fn query_view(r: Result<StoreQuery, ServiceError>) -> Result<
    StoreQueryView,
    ServiceError,
> {
    match r {
        Ok(q) => Ok(q@),
        Err(e) => Err(e),
    }
}

impl StoreQuery {
    /// The SQL statement of the query; its parameters are the query's fields
    /// in the order they are declared.
    pub fn sql(&self) -> (r: &'static str)
        ensures
            self is RecordsCount ==> r@ == "SELECT COUNT(*) FROM cities"@,
            self is PopulationOfCountry ==> r@
                == "SELECT SUM(Population) FROM cities WHERE [Country name EN] = ?1"@,
            self is NumberOfCities ==> r@
                == "SELECT COUNT(*) FROM cities WHERE [Country name EN] = ?1 AND [Population] > ?2"@,
            self is NumberOfCountries ==> r@
                == "SELECT COUNT(*) FROM (SELECT COUNT(*) as citycount, MIN([Population]) as min FROM cities GROUP BY [Country name EN] HAVING citycount > ?1 and min > ?2)"@,
            self is NumberOfCountriesMax ==> r@
                == "SELECT COUNT(*) FROM (SELECT COUNT(*) as citycount, MIN([Population]) as min, MAX([Population]) as max FROM cities GROUP BY [Country name EN] HAVING citycount > ?1 and min > ?2 and max < ?3)"@,
    {
        match self {
            StoreQuery::RecordsCount => "SELECT COUNT(*) FROM cities",
            StoreQuery::PopulationOfCountry { .. } => {
                "SELECT SUM(Population) FROM cities WHERE [Country name EN] = ?1"
            },
            StoreQuery::NumberOfCities { .. } => {
                "SELECT COUNT(*) FROM cities WHERE [Country name EN] = ?1 AND [Population] > ?2"
            },
            StoreQuery::NumberOfCountries { .. } => {
                "SELECT COUNT(*) FROM (SELECT COUNT(*) as citycount, MIN([Population]) as min FROM cities GROUP BY [Country name EN] HAVING citycount > ?1 and min > ?2)"
            },
            StoreQuery::NumberOfCountriesMax { .. } => {
                "SELECT COUNT(*) FROM (SELECT COUNT(*) as citycount, MIN([Population]) as min, MAX([Population]) as max FROM cities GROUP BY [Country name EN] HAVING citycount > ?1 and min > ?2 and max < ?3)"
            },
        }
    }
}

/// The answer to one request: the statistic and the time the store took.
#[derive(Clone, Copy, Debug, PartialEq, Eq, Structural)]
pub struct Reply {
    pub value: i32,
    pub execution_ms: u64,
}

/// The query for a population request.
pub open spec fn population_spec(country: Seq<char>) -> Result<StoreQueryView, ServiceError> {
    if country.len() == 0 {
        Err(ServiceError::InvalidArgument)
    } else {
        Ok(StoreQueryView::PopulationOfCountry { country })
    }
}

/// The query for a request for the number of cities over a population floor.
pub open spec fn cities_spec(country: Seq<char>, min: i32) -> Result<StoreQueryView, ServiceError> {
    if country.len() == 0 || min <= 0 {
        Err(ServiceError::InvalidArgument)
    } else {
        Ok(StoreQueryView::NumberOfCities { country, min })
    }
}

/// The query for a request for the number of countries by city count and
/// population floor.
pub open spec fn countries_spec(city_count: i32, min: i32) -> Result<StoreQueryView, ServiceError> {
    if city_count <= 0 || min <= 0 {
        Err(ServiceError::InvalidArgument)
    } else {
        Ok(StoreQueryView::NumberOfCountries { city_count, min })
    }
}

/// The same with a population ceiling.
pub open spec fn countries_max_spec(city_count: i32, min: i32, max: i32) -> Result<
    StoreQueryView,
    ServiceError,
> {
    if city_count <= 0 || min <= 0 || max <= 0 {
        Err(ServiceError::InvalidArgument)
    } else {
        Ok(StoreQueryView::NumberOfCountriesMax { city_count, min, max })
    }
}

/// The statistics service. It holds no state: each request opens the store
/// afresh.
#[derive(Debug, Default)]
pub struct StatServer {}

impl StatServer {
    /// The query that counts every record of the store.
    pub fn records_count(&self) -> (r: StoreQuery)
        ensures
            r@ == StoreQueryView::RecordsCount,
    {
        StoreQuery::RecordsCount
    }

    /// Validates a population request: the country must not be empty.
    pub fn population_of_country(&self, country: &str) -> (r: Result<StoreQuery, ServiceError>)
        ensures
            query_view(r) == population_spec(country@),
    {
        if country.unicode_len() == 0 {
            Err(ServiceError::InvalidArgument)
        } else {
            Ok(StoreQuery::PopulationOfCountry { country: country.to_owned() })
        }
    }

    /// Validates a request for the number of cities of a country whose
    /// population exceeds `min`: the country must not be empty and `min`
    /// must be positive.
    pub fn number_of_cities(&self, country: &str, min: i32) -> (r: Result<StoreQuery, ServiceError>)
        ensures
            query_view(r) == cities_spec(country@, min),
    {
        if country.unicode_len() == 0 || min <= 0 {
            Err(ServiceError::InvalidArgument)
        } else {
            Ok(StoreQuery::NumberOfCities { country: country.to_owned(), min })
        }
    }

    /// Validates a request for the number of countries with more than
    /// `city_count` cities, all over `min` population: both must be positive.
    pub fn number_of_countries(&self, city_count: i32, min: i32) -> (r: Result<
        StoreQuery,
        ServiceError,
    >)
        ensures
            query_view(r) == countries_spec(city_count, min),
    {
        if city_count <= 0 || min <= 0 {
            Err(ServiceError::InvalidArgument)
        } else {
            Ok(StoreQuery::NumberOfCountries { city_count, min })
        }
    }

    /// Validates the same request with a population ceiling `max`: all three
    /// bounds must be positive.
    pub fn number_of_countries_max(&self, city_count: i32, min: i32, max: i32) -> (r: Result<
        StoreQuery,
        ServiceError,
    >)
        ensures
            query_view(r) == countries_max_spec(city_count, min, max),
    {
        if city_count <= 0 || min <= 0 || max <= 0 {
            Err(ServiceError::InvalidArgument)
        } else {
            Ok(StoreQuery::NumberOfCountriesMax { city_count, min, max })
        }
    }

    /// The answer to a query that the store ran in `execution_ms`: its value
    /// with that time, or an internal error where the store failed.
    pub fn reply(&self, outcome: Result<i32, StoreFailure>, execution_ms: u64) -> (r: Result<
        Reply,
        ServiceError,
    >)
        ensures
            outcome is Err ==> r == Err::<Reply, ServiceError>(ServiceError::Internal),
            outcome matches Ok(v) ==> r == Ok::<Reply, ServiceError>(
                (Reply { value: v, execution_ms }),
            ),
    {
        match outcome {
            Ok(value) => Ok(Reply { value, execution_ms }),
            Err(_) => Err(ServiceError::Internal),
        }
    }
}

} // verus!
