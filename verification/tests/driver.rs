use sqlx_any::driver::{driver_for_scheme, driver_for_url, AnyDriver};
use sqlx_any::error::Error;

fn drivers() -> Vec<AnyDriver> {
    vec![
        AnyDriver {
            name: "PostgreSQL".to_string(),
            url_schemes: vec!["postgres".to_string(), "postgresql".to_string()],
        },
        AnyDriver { name: "SQLite".to_string(), url_schemes: vec!["sqlite".to_string()] },
        AnyDriver { name: "Other".to_string(), url_schemes: vec!["sqlite".to_string()] },
        AnyDriver { name: "None".to_string(), url_schemes: vec![] },
    ]
}

#[test]
fn a_driver_serves_its_schemes() {
    let drivers = drivers();
    assert!(drivers[0].serves("postgres"));
    assert!(drivers[0].serves("postgresql"));
    assert!(!drivers[0].serves("postgre"));
    assert!(!drivers[0].serves("sqlite"));
    assert!(!drivers[3].serves(""));
}

#[test]
fn a_scheme_leads_to_the_first_driver_that_serves_it() {
    let drivers = drivers();
    assert_eq!(driver_for_scheme(&drivers, "postgresql"), Some(0));
    assert_eq!(driver_for_scheme(&drivers, "sqlite"), Some(1));
    assert_eq!(driver_for_scheme(&drivers, "mysql"), None);
    assert_eq!(driver_for_scheme(&[], "postgres"), None);
}

#[test]
fn an_address_leads_to_a_driver_by_its_scheme() {
    let drivers = drivers();
    assert!(matches!(driver_for_url(&drivers, "postgres://postgres@localhost/test"), Ok(0)));
    assert!(matches!(driver_for_url(&drivers, "postgresql://localhost:5432/db?sslmode=disable"), Ok(0)));
    assert!(matches!(driver_for_url(&drivers, "sqlite://a.sqlite"), Ok(1)));
}

#[test]
fn the_scheme_is_read_in_lower_case() {
    let drivers = drivers();
    assert!(matches!(driver_for_url(&drivers, "POSTGRES://localhost/test"), Ok(0)));
}

#[test]
fn a_scheme_without_a_driver_is_a_configuration_error() {
    let drivers = drivers();
    assert!(matches!(
        driver_for_url(&drivers, "mysql://root@localhost/test"),
        Err(Error::Configuration(scheme)) if scheme == "mysql"
    ));
}

#[test]
fn a_text_that_is_no_address_is_a_configuration_error() {
    let drivers = drivers();
    assert!(matches!(
        driver_for_url(&drivers, "not an address"),
        Err(Error::Configuration(text)) if text == "not an address"
    ));
    assert!(matches!(driver_for_url(&drivers, ""), Err(Error::Configuration(text)) if text.is_empty()));
}
