use stratisd_core::error::StratisError;
use stratisd_core::types::{BlockDevTier, Name, Redundancy, ReportType, UnlockMethod};

#[test]
fn unlock_method_names() {
    assert!(matches!(UnlockMethod::try_from("keyring"), Ok(UnlockMethod::Keyring)));
    assert!(matches!(UnlockMethod::try_from("clevis"), Ok(UnlockMethod::Clevis)));
    match UnlockMethod::try_from("tpm") {
        Err(StratisError::InvalidUnlockMethod(n)) => assert_eq!(n, "tpm"),
        _ => panic!("tpm is not an unlock method"),
    }
    assert!(UnlockMethod::try_from("Keyring").is_err());
}

#[test]
fn report_type_names() {
    assert!(matches!(
        ReportType::try_from("errored_pool_report"),
        Ok(ReportType::ErroredPoolDevices)
    ));
    match ReportType::try_from("engine_state_report") {
        Err(StratisError::UnknownReport(n)) => assert_eq!(n, "engine_state_report"),
        _ => panic!("not a report type"),
    }
}

#[test]
fn tier_and_redundancy_codes() {
    assert_eq!(BlockDevTier::Data.code(), 0);
    assert_eq!(BlockDevTier::Cache.code(), 1);
    assert_eq!(Redundancy::NONE.code(), 0);
}

#[test]
fn names_compare_by_content() {
    let a = Name::new("pool".to_string());
    let b = Name::new(String::from("pool"));
    let c = Name::new("other".to_string());
    assert!(a == b);
    assert!(a != c);
    assert_eq!(a.to_owned(), "pool");
    assert_eq!(&*a, "pool");
    assert_eq!(a.as_str(), "pool");
    assert_eq!(a.to_string(), "pool");
    assert_eq!(Name::new(String::new()).to_owned(), "");
}
