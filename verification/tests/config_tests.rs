use btl::config::{parse_admission_policy, AdmissionPolicy, GlobalConfig, GlobalConfigError};
use btl::{admission_policy_label, mpsc_sender_depth, simulation_queue_capacity};

fn env(pairs: &[(&str, &str)]) -> Vec<(String, String)> {
    pairs.iter().map(|(k, v)| (k.to_string(), v.to_string())).collect()
}

fn full_env() -> Vec<(String, String)> {
    env(&[
        ("DATABASE_URL", "postgres://lab@localhost/btl"),
        ("HTTP_BIND", "127.0.0.1:8080"),
        ("SIMULATION_DELAY_MS", "250"),
        ("SIMULATION_QUEUE_CAPACITY", "64"),
        ("RESULT_QUEUE_CAPACITY", "128"),
        ("ADMISSION_POLICY", "reject"),
    ])
}

fn without(vars: &[(String, String)], name: &str) -> Vec<(String, String)> {
    vars.iter().filter(|(k, _)| k != name).cloned().collect()
}

fn with(vars: &[(String, String)], name: &str, value: &str) -> Vec<(String, String)> {
    let mut v = without(vars, name);
    v.push((name.to_string(), value.to_string()));
    v
}

#[test]
fn from_env_builds_the_config_when_every_variable_is_valid() {
    let cfg = GlobalConfig::from_env(&full_env()).expect("valid environment");
    assert_eq!(cfg.db_url, "postgres://lab@localhost/btl");
    assert_eq!(cfg.http_bind, "127.0.0.1:8080");
    assert_eq!(cfg.sleep_delay_ms, 250);
    assert_eq!(cfg.simulation_queue_capacity, 64);
    assert_eq!(cfg.result_queue_capacity, 128);
    assert!(matches!(cfg.admission_policy, AdmissionPolicy::RejectWhenFull));
}

#[test]
fn from_env_ignores_unrelated_variables() {
    let mut vars = env(&[("PATH", "/usr/bin"), ("HOME", "/root")]);
    vars.extend(full_env());
    assert!(GlobalConfig::from_env(&vars).is_ok());
}

#[test]
fn from_env_reports_a_missing_database_url() {
    let vars = without(&full_env(), "DATABASE_URL");
    match GlobalConfig::from_env(&vars) {
        Err(GlobalConfigError::MissingEnv(name)) => assert_eq!(name, "DATABASE_URL"),
        _ => panic!("expected MissingEnv"),
    }
}

#[test]
fn from_env_reports_the_first_missing_variable_in_order() {
    let vars = without(&without(&full_env(), "ADMISSION_POLICY"), "HTTP_BIND");
    match GlobalConfig::from_env(&vars) {
        Err(GlobalConfigError::MissingEnv(name)) => assert_eq!(name, "HTTP_BIND"),
        _ => panic!("expected MissingEnv"),
    }
}

#[test]
fn from_env_reports_each_missing_variable() {
    for name in [
        "DATABASE_URL",
        "HTTP_BIND",
        "SIMULATION_DELAY_MS",
        "SIMULATION_QUEUE_CAPACITY",
        "RESULT_QUEUE_CAPACITY",
        "ADMISSION_POLICY",
    ] {
        match GlobalConfig::from_env(&without(&full_env(), name)) {
            Err(GlobalConfigError::MissingEnv(n)) => assert_eq!(n, name),
            _ => panic!("expected MissingEnv for {name}"),
        }
    }
}

#[test]
fn from_env_rejects_a_delay_that_is_not_a_number() {
    match GlobalConfig::from_env(&with(&full_env(), "SIMULATION_DELAY_MS", "abc")) {
        Err(GlobalConfigError::InvalidDelayMs(n)) => assert_eq!(n, "SIMULATION_DELAY_MS"),
        _ => panic!("expected InvalidDelayMs"),
    }
}

#[test]
fn from_env_rejects_a_delay_beyond_u64() {
    let vars = with(&full_env(), "SIMULATION_DELAY_MS", "18446744073709551616");
    assert!(matches!(
        GlobalConfig::from_env(&vars),
        Err(GlobalConfigError::InvalidDelayMs("SIMULATION_DELAY_MS"))
    ));
    let vars = with(&full_env(), "SIMULATION_DELAY_MS", "18446744073709551615");
    assert_eq!(GlobalConfig::from_env(&vars).unwrap().sleep_delay_ms, u64::MAX);
}

#[test]
fn from_env_names_the_queue_capacity_in_its_error() {
    match GlobalConfig::from_env(&with(&full_env(), "SIMULATION_QUEUE_CAPACITY", "-1")) {
        Err(GlobalConfigError::InvalidDelayMs(n)) => assert_eq!(n, "SIMULATION_QUEUE_CAPACITY"),
        _ => panic!("expected InvalidDelayMs"),
    }
    match GlobalConfig::from_env(&with(&full_env(), "RESULT_QUEUE_CAPACITY", "")) {
        Err(GlobalConfigError::InvalidDelayMs(n)) => assert_eq!(n, "RESULT_QUEUE_CAPACITY"),
        _ => panic!("expected InvalidDelayMs"),
    }
}

#[test]
fn from_env_reads_numbers_the_way_str_parse_does() {
    let vars = with(&full_env(), "SIMULATION_DELAY_MS", "+7");
    assert_eq!(GlobalConfig::from_env(&vars).unwrap().sleep_delay_ms, 7);
    let vars = with(&full_env(), "SIMULATION_DELAY_MS", " 7");
    assert!(GlobalConfig::from_env(&vars).is_err());
    let vars = with(&full_env(), "SIMULATION_DELAY_MS", "1_000");
    assert!(GlobalConfig::from_env(&vars).is_err());
    let vars = with(&full_env(), "SIMULATION_QUEUE_CAPACITY", "0012");
    assert_eq!(GlobalConfig::from_env(&vars).unwrap().simulation_queue_capacity, 12);
}

#[test]
fn from_env_rejects_an_unknown_policy() {
    let vars = with(&full_env(), "ADMISSION_POLICY", "fast");
    assert!(matches!(GlobalConfig::from_env(&vars), Err(GlobalConfigError::InvalidPolicy)));
    let vars = with(&full_env(), "ADMISSION_POLICY", "Reject");
    assert!(matches!(GlobalConfig::from_env(&vars), Err(GlobalConfigError::InvalidPolicy)));
}

#[test]
fn from_env_reads_each_policy_name() {
    let cases = [
        ("unbounded", AdmissionPolicy::Unbounded),
        ("wait", AdmissionPolicy::WaitWhenFull),
        ("reject", AdmissionPolicy::RejectWhenFull),
    ];
    for (name, expected) in cases {
        let cfg = GlobalConfig::from_env(&with(&full_env(), "ADMISSION_POLICY", name)).unwrap();
        assert_eq!(format!("{:?}", cfg.admission_policy), format!("{:?}", expected));
    }
}

#[test]
fn from_env_takes_the_first_of_duplicate_variables() {
    let mut vars = env(&[("HTTP_BIND", "0.0.0.0:1")]);
    vars.extend(full_env());
    assert_eq!(GlobalConfig::from_env(&vars).unwrap().http_bind, "0.0.0.0:1");
}

#[test]
fn config_error_messages() {
    assert_eq!(
        GlobalConfigError::MissingEnv("HTTP_BIND").message(),
        "environment variable HTTP_BIND is not set"
    );
    assert_eq!(
        GlobalConfigError::InvalidDelayMs("SIMULATION_DELAY_MS").message(),
        "environment variable SIMULATION_DELAY_MS must be an integer (milliseconds)"
    );
    assert_eq!(
        GlobalConfigError::InvalidPolicy.message(),
        "admission policy must be in (unbounded|wait|reject)"
    );
}

#[test]
fn policy_labels_name_their_policy() {
    for p in [AdmissionPolicy::Unbounded, AdmissionPolicy::WaitWhenFull, AdmissionPolicy::RejectWhenFull] {
        let label = admission_policy_label(p);
        let back = parse_admission_policy(label).expect("label names a policy");
        assert_eq!(format!("{:?}", back), format!("{:?}", p));
    }
    assert_eq!(admission_policy_label(AdmissionPolicy::Unbounded), "unbounded");
    assert_eq!(admission_policy_label(AdmissionPolicy::WaitWhenFull), "wait");
    assert_eq!(admission_policy_label(AdmissionPolicy::RejectWhenFull), "reject");
    assert!(parse_admission_policy("").is_none());
    assert!(parse_admission_policy("unbounded ").is_none());
}

#[test]
fn queue_capacity_is_reported_only_for_bounded_queues() {
    assert_eq!(simulation_queue_capacity(AdmissionPolicy::Unbounded, 100), None);
    assert_eq!(simulation_queue_capacity(AdmissionPolicy::WaitWhenFull, 100), Some(100));
    assert_eq!(simulation_queue_capacity(AdmissionPolicy::RejectWhenFull, 7), Some(7));
    assert_eq!(simulation_queue_capacity(AdmissionPolicy::RejectWhenFull, usize::MAX), Some(-1));
}

#[test]
fn sender_depth_counts_buffered_messages() {
    assert_eq!(mpsc_sender_depth(64, 64), 0);
    assert_eq!(mpsc_sender_depth(64, 10), 54);
    assert_eq!(mpsc_sender_depth(1, 0), 1);
}
