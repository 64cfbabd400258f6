use bank_scraper::gocardless::accounts::AccountStatus;
use bank_scraper::gocardless::config::{
    HttpListenerConfig, NamedProvider, ProviderConfig, RetryConfig, RetryPlan, ScraperConfig,
    DEFAULT_HISTORY_DAYS,
};
use bank_scraper::gocardless::connect::RequisitionStatus;
use bank_scraper::gocardless::files::write_json_lines;
use bank_scraper::gocardless::institutions::Cmd;
use bank_scraper::gocardless::config::ConfigArg;

#[test]
fn requisition_status_codes_round_trip() {
    let codes = ["CR", "GC", "UA", "RJ", "SA", "GA", "LN", "EX", "XX", "", "cr", "LNX"];
    for code in codes {
        assert_eq!(RequisitionStatus::from_code(code).code(), code);
    }
    assert!(matches!(RequisitionStatus::from_code("CR"), RequisitionStatus::Created));
    assert!(matches!(RequisitionStatus::from_code("GC"), RequisitionStatus::GivingConsent));
    assert!(matches!(RequisitionStatus::from_code("UA"), RequisitionStatus::UndergoingAuthentication));
    assert!(matches!(RequisitionStatus::from_code("RJ"), RequisitionStatus::Rejected));
    assert!(matches!(RequisitionStatus::from_code("SA"), RequisitionStatus::SelectingAccounts));
    assert!(matches!(RequisitionStatus::from_code("GA"), RequisitionStatus::GrantingAccess));
    assert!(matches!(RequisitionStatus::from_code("LN"), RequisitionStatus::Linked));
    assert!(matches!(RequisitionStatus::from_code("EX"), RequisitionStatus::Expired));
    assert!(matches!(RequisitionStatus::from_code("cr"), RequisitionStatus::Other(s) if s == "cr"));
    assert!(matches!(RequisitionStatus::from_code(""), RequisitionStatus::Other(s) if s.is_empty()));
}

#[test]
fn requisition_status_names() {
    assert_eq!(RequisitionStatus::Created.name(), "Created");
    assert_eq!(RequisitionStatus::GivingConsent.name(), "GivingConsent");
    assert_eq!(RequisitionStatus::UndergoingAuthentication.name(), "UndergoingAuthentication");
    assert_eq!(RequisitionStatus::Rejected.name(), "Rejected");
    assert_eq!(RequisitionStatus::SelectingAccounts.name(), "SelectingAccounts");
    assert_eq!(RequisitionStatus::GrantingAccess.name(), "GrantingAccess");
    assert_eq!(RequisitionStatus::Linked.name(), "Linked");
    assert_eq!(RequisitionStatus::Expired.name(), "Expired");
    assert_eq!(RequisitionStatus::Other("QQ".to_owned()).name(), "QQ");
}

#[test]
fn requisition_status_classes() {
    assert!(RequisitionStatus::Linked.is_linked());
    assert!(!RequisitionStatus::Linked.is_in_progress());
    assert!(RequisitionStatus::Created.is_in_progress());
    assert!(RequisitionStatus::GivingConsent.is_in_progress());
    assert!(RequisitionStatus::UndergoingAuthentication.is_in_progress());
    assert!(RequisitionStatus::SelectingAccounts.is_in_progress());
    assert!(RequisitionStatus::GrantingAccess.is_in_progress());
    assert!(!RequisitionStatus::Rejected.is_in_progress());
    assert!(!RequisitionStatus::Expired.is_in_progress());
    assert!(!RequisitionStatus::Other("CR2".to_owned()).is_in_progress());
    assert!(!RequisitionStatus::Rejected.is_linked());
    assert!(!RequisitionStatus::Other("LN".to_owned()).is_linked());
}

#[test]
fn account_status_codes_round_trip() {
    let codes = ["READY", "EXPIRED", "ERROR", "SUSPENDED", "DISCOVERED", "", "ready"];
    for code in codes {
        assert_eq!(AccountStatus::from_code(code).code(), code);
    }
    assert!(matches!(AccountStatus::from_code("READY"), AccountStatus::Ready));
    assert!(matches!(AccountStatus::from_code("EXPIRED"), AccountStatus::Expired));
    assert!(matches!(AccountStatus::from_code("ERROR"), AccountStatus::Error));
    assert!(matches!(AccountStatus::from_code("SUSPENDED"), AccountStatus::Suspended));
    assert!(matches!(AccountStatus::from_code("DISCOVERED"), AccountStatus::Other(s) if s == "DISCOVERED"));
    assert!(AccountStatus::Ready.is_ready());
    assert!(!AccountStatus::Expired.is_ready());
    assert!(!AccountStatus::Error.is_ready());
    assert!(!AccountStatus::Suspended.is_ready());
    assert!(!AccountStatus::Other("READY".to_owned()).is_ready());
}

#[test]
fn history_defaults_to_ninety_days() {
    let mut config = ProviderConfig {
        institution_id: "BANK".to_owned(),
        output: "out".to_owned(),
        history_days: None,
        state: "state.json".to_owned(),
    };
    assert_eq!(DEFAULT_HISTORY_DAYS, 90);
    assert_eq!(config.history_days(), 90);
    config.history_days = Some(7);
    assert_eq!(config.history_days(), 7);
    config.history_days = Some(0);
    assert_eq!(config.history_days(), 0);
}

#[test]
fn retry_policy_defaults_to_one_second() {
    let unset = RetryConfig { delay_s: None, max_delay_s: None, max_retries: None };
    assert_eq!(
        unset.as_retry_policy(),
        RetryPlan { delay_s: 1, max_delay_s: None, max_retries: None }
    );
    let set = RetryConfig { delay_s: Some(5), max_delay_s: Some(60), max_retries: Some(3) };
    assert_eq!(
        set.as_retry_policy(),
        RetryPlan { delay_s: 5, max_delay_s: Some(60), max_retries: Some(3) }
    );
}

#[test]
fn providers_are_found_by_name() {
    let provider = |name: &str, institution: &str| NamedProvider {
        name: name.to_owned(),
        config: ProviderConfig {
            institution_id: institution.to_owned(),
            output: "out".to_owned(),
            history_days: None,
            state: "state.json".to_owned(),
        },
    };
    let config = ScraperConfig {
        provider: vec![provider("a", "1"), provider("b", "2"), provider("a", "3")],
        retries: RetryConfig { delay_s: None, max_delay_s: None, max_retries: None },
        http: HttpListenerConfig { bind_address: "127.0.0.1:0".to_owned() },
    };
    assert_eq!(config.find_provider("a"), Some(0));
    assert_eq!(config.find_provider("b"), Some(1));
    assert_eq!(config.find_provider("c"), None);
    assert_eq!(config.find_provider(""), None);
    assert_eq!(config.find_provider("A"), None);
}

#[test]
fn lines_end_each_record() {
    assert_eq!(write_json_lines(&Vec::new()), b"");
    assert_eq!(write_json_lines(&vec![b"{}".to_vec()]), b"{}\n");
    assert_eq!(
        write_json_lines(&vec![b"{\"a\":1}".to_vec(), Vec::new(), b"[2]".to_vec()]),
        b"{\"a\":1}\n\n[2]\n"
    );
}

#[test]
fn institutions_are_listed_for_one_country() {
    let cmd = Cmd { config: ConfigArg { config: "config.toml".to_owned() } };
    assert_eq!(cmd.path(), "/api/v2/institutions/?country=gb");
}

#[test]
fn a_name_is_taken_once() {
    let provider = |institution: &str| ProviderConfig {
        institution_id: institution.to_owned(),
        output: "out".to_owned(),
        history_days: None,
        state: "state.json".to_owned(),
    };
    let mut config = ScraperConfig::new(
        RetryConfig { delay_s: None, max_delay_s: None, max_retries: None },
        HttpListenerConfig { bind_address: "127.0.0.1:0".to_owned() },
    );
    assert!(config.provider.is_empty());
    assert!(config.insert("a".to_owned(), provider("1")));
    assert!(config.insert("b".to_owned(), provider("2")));
    assert!(!config.insert("a".to_owned(), provider("3")));
    assert_eq!(config.provider.len(), 2);
    assert_eq!(config.find_provider("a"), Some(0));
    assert_eq!(config.provider[0].config.institution_id, "1");
    assert_eq!(config.find_provider("b"), Some(1));
}
