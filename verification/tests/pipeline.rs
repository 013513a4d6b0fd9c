use backup_man::config::{all_keys, default_value, key_name, CONFIG_KEY};
use backup_man::enumerate::{
    check_credentials, get_databases, get_namespaces, CredentialStep, EnumStep, FetchEvent,
};
use backup_man::period::get_seconds;
use backup_man::response::{databases_of, namespaces_of, InfoResult, QueryResponse};
use backup_man::retry::{handle_retry, RetryGate, RETRY_DELAY_SECONDS, RETRY_LIMIT};
use backup_man::schedule::{cycle_units, Scheduler, SchedulerPhase};
use backup_man::upload::{upload_decision, MissingSetting, StorageConfig, UploadDecision};

fn response_with(ns_keys: &[&str], db_keys: &[&str]) -> QueryResponse {
    QueryResponse {
        results: vec![InfoResult {
            ns_keys: ns_keys.iter().map(|s| s.to_string()).collect(),
            db_keys: db_keys.iter().map(|s| s.to_string()).collect(),
        }],
    }
}

fn storage_config(
    bucket: &str,
    region: &str,
    endpoint: &str,
    access: &str,
    secret: &str,
) -> StorageConfig {
    StorageConfig {
        bucket_name: bucket.to_string(),
        region: region.to_string(),
        endpoint: endpoint.to_string(),
        access_key: access.to_string(),
        secret_key: secret.to_string(),
        security_token: None,
        session_token: None,
    }
}

#[test]
fn retry_gate_first_attempt_proceeds_at_once() {
    assert_eq!(handle_retry(0), RetryGate::Go { delay_seconds: 0 });
}

#[test]
fn retry_gate_waits_fixed_delay_within_limit() {
    for n in 1..=RETRY_LIMIT {
        assert_eq!(
            handle_retry(n),
            RetryGate::Go {
                delay_seconds: RETRY_DELAY_SECONDS
            }
        );
    }
}

#[test]
fn retry_gate_fatal_beyond_limit() {
    assert_eq!(handle_retry(6), RetryGate::Fatal);
    assert_eq!(handle_retry(7), RetryGate::Fatal);
    assert_eq!(handle_retry(255), RetryGate::Fatal);
}

#[test]
fn transport_failure_on_every_attempt_makes_six_attempts() {
    // Drive the namespace enumerator the way the process would, with a
    // transport error on every attempt: six attempts (0 through 5) are
    // made, with waits of 0, 5, 5, 5, 5, 5 seconds before them.
    let mut attempt: u8 = 0;
    let mut attempts_made: u32 = 0;
    let mut delays: Vec<u64> = Vec::new();
    loop {
        match handle_retry(attempt) {
            RetryGate::Fatal => break,
            RetryGate::Go { delay_seconds } => {
                delays.push(delay_seconds);
                attempts_made += 1;
                match get_namespaces(&FetchEvent::TransportError, attempt) {
                    EnumStep::Retry { next_attempt } => attempt = next_attempt,
                    EnumStep::Done { .. } => unreachable!(),
                }
            }
        }
    }
    assert_eq!(attempts_made, 6);
    assert_eq!(delays, vec![0, 5, 5, 5, 5, 5]);
}

#[test]
fn namespace_enumerator_returns_exactly_the_keys() {
    let resp = response_with(&["a", "b"], &[]);
    let step = get_namespaces(&FetchEvent::Response(resp), 0);
    match step {
        EnumStep::Done { names } => {
            let mut sorted = names.clone();
            sorted.sort();
            assert_eq!(sorted, vec!["a".to_string(), "b".to_string()]);
        }
        EnumStep::Retry { .. } => unreachable!(),
    }
}

#[test]
fn namespace_enumerator_empty_envelope_is_empty_not_fatal() {
    let resp = QueryResponse { results: vec![] };
    let step = get_namespaces(&FetchEvent::Response(resp), 0);
    match step {
        EnumStep::Done { names } => assert!(names.is_empty()),
        EnumStep::Retry { .. } => unreachable!(),
    }
}

#[test]
fn namespace_enumerator_retries_on_parse_failure() {
    match get_namespaces(&FetchEvent::ParseFailure, 2) {
        EnumStep::Retry { next_attempt } => assert_eq!(next_attempt, 3),
        EnumStep::Done { .. } => unreachable!(),
    }
}

#[test]
fn database_enumerator_reads_database_keys() {
    let resp = response_with(&[], &["users", "orders"]);
    let step = get_databases(&FetchEvent::Response(resp), 0);
    match step {
        EnumStep::Done { names } => {
            let mut sorted = names.clone();
            sorted.sort();
            assert_eq!(sorted, vec!["orders".to_string(), "users".to_string()]);
        }
        EnumStep::Retry { .. } => unreachable!(),
    }
}

#[test]
fn database_enumerator_retries_on_transport_error() {
    match get_databases(&FetchEvent::TransportError, 0) {
        EnumStep::Retry { next_attempt } => assert_eq!(next_attempt, 1),
        EnumStep::Done { .. } => unreachable!(),
    }
}

#[test]
fn extraction_reads_first_result_only() {
    let resp = QueryResponse {
        results: vec![
            InfoResult {
                ns_keys: vec!["first".to_string()],
                db_keys: vec!["one".to_string()],
            },
            InfoResult {
                ns_keys: vec!["second".to_string()],
                db_keys: vec!["two".to_string()],
            },
        ],
    };
    assert_eq!(namespaces_of(&resp), vec!["first".to_string()]);
    assert_eq!(databases_of(&resp), vec!["one".to_string()]);
}

#[test]
fn credential_validator_accepts_any_parsed_envelope() {
    let resp = QueryResponse { results: vec![] };
    assert!(matches!(
        check_credentials(&FetchEvent::Response(resp), 0),
        CredentialStep::Validated
    ));
}

#[test]
fn credential_validator_retries_on_failures() {
    match check_credentials(&FetchEvent::TransportError, 0) {
        CredentialStep::Retry { next_attempt } => assert_eq!(next_attempt, 1),
        CredentialStep::Validated => unreachable!(),
    }
    match check_credentials(&FetchEvent::ParseFailure, 4) {
        CredentialStep::Retry { next_attempt } => assert_eq!(next_attempt, 5),
        CredentialStep::Validated => unreachable!(),
    }
}

#[test]
fn period_hourly_is_one_hour() {
    assert_eq!(get_seconds("hourly".to_string()), 3600);
}

#[test]
fn period_daily_and_anything_else_is_one_day() {
    assert_eq!(get_seconds("daily".to_string()), 86400);
    assert_eq!(get_seconds("weekly".to_string()), 86400);
    assert_eq!(get_seconds(String::new()), 86400);
}

#[test]
fn config_key_names_match_environment_variables() {
    assert_eq!(key_name(CONFIG_KEY::DB_USERNAME), "DB_USERNAME");
    assert_eq!(key_name(CONFIG_KEY::DB_URL), "DB_URL");
    assert_eq!(key_name(CONFIG_KEY::S3_BUCKET_NAME), "S3_BUCKET_NAME");
    assert_eq!(key_name(CONFIG_KEY::PERIOD), "PERIOD");
}

#[test]
fn config_defaults() {
    assert_eq!(default_value(CONFIG_KEY::DB_USERNAME), "root");
    assert_eq!(default_value(CONFIG_KEY::DB_PASSWORD), "root");
    assert_eq!(default_value(CONFIG_KEY::DB_URL), "http://localhost:8000");
    assert_eq!(default_value(CONFIG_KEY::S3_ACCESS_KEY), "");
    assert_eq!(default_value(CONFIG_KEY::S3_SECRET_KEY), "");
    assert_eq!(default_value(CONFIG_KEY::S3_BUCKET_NAME), "");
    assert_eq!(default_value(CONFIG_KEY::S3_REGION), "");
    assert_eq!(default_value(CONFIG_KEY::S3_ENDPOINT), "");
    assert_eq!(default_value(CONFIG_KEY::PERIOD), "daily");
}

#[test]
fn config_lists_all_eleven_settings() {
    assert_eq!(all_keys().len(), 11);
}

#[test]
fn upload_skips_when_bucket_name_missing() {
    let cfg = storage_config("", "r", "e", "a", "s");
    assert_eq!(
        upload_decision(&cfg),
        UploadDecision::Skip {
            missing: MissingSetting::BucketName
        }
    );
}

#[test]
fn upload_skips_when_region_missing() {
    let cfg = storage_config("b", "", "e", "a", "s");
    assert_eq!(
        upload_decision(&cfg),
        UploadDecision::Skip {
            missing: MissingSetting::Region
        }
    );
}

#[test]
fn upload_skips_when_endpoint_missing() {
    let cfg = storage_config("b", "r", "", "a", "s");
    assert_eq!(
        upload_decision(&cfg),
        UploadDecision::Skip {
            missing: MissingSetting::Endpoint
        }
    );
}

#[test]
fn upload_skips_when_access_key_missing() {
    let cfg = storage_config("b", "r", "e", "", "s");
    assert_eq!(
        upload_decision(&cfg),
        UploadDecision::Skip {
            missing: MissingSetting::AccessKey
        }
    );
}

#[test]
fn upload_skips_when_secret_key_missing() {
    let cfg = storage_config("b", "r", "e", "a", "");
    assert_eq!(
        upload_decision(&cfg),
        UploadDecision::Skip {
            missing: MissingSetting::SecretKey
        }
    );
}

#[test]
fn upload_proceeds_when_fully_configured() {
    let cfg = storage_config("bucket", "region", "endpoint", "access", "secret");
    assert_eq!(upload_decision(&cfg), UploadDecision::Proceed);
}

#[test]
fn unconfigured_upload_reports_first_missing_setting() {
    let cfg = storage_config("", "", "", "", "");
    assert_eq!(
        upload_decision(&cfg),
        UploadDecision::Skip {
            missing: MissingSetting::BucketName
        }
    );
}

#[test]
fn scheduler_starts_then_cycles_on_validated_credentials() {
    let mut s = Scheduler::new();
    assert_eq!(s.phase, SchedulerPhase::Starting);
    s.on_credential_step(&CredentialStep::Retry { next_attempt: 1 });
    assert_eq!(s.phase, SchedulerPhase::Starting);
    s.on_credential_step(&CredentialStep::Validated);
    assert_eq!(s.phase, SchedulerPhase::Cycling);
}

#[test]
fn one_cycle_launches_one_unit_per_pair() {
    let namespaces = vec!["prod".to_string()];
    let databases = vec![vec!["users".to_string(), "orders".to_string()]];
    let units = cycle_units(&namespaces, &databases);
    assert_eq!(units.len(), 2);
    assert_eq!(units[0].namespace, "prod");
    assert_eq!(units[0].database, "users");
    assert_eq!(units[1].namespace, "prod");
    assert_eq!(units[1].database, "orders");
}

#[test]
fn cycle_ordering_namespace_by_namespace() {
    let namespaces = vec!["a".to_string(), "b".to_string()];
    let databases = vec![
        vec!["x".to_string()],
        vec!["y".to_string(), "z".to_string()],
    ];
    let units = cycle_units(&namespaces, &databases);
    let pairs: Vec<(String, String)> = units
        .into_iter()
        .map(|u| (u.namespace, u.database))
        .collect();
    assert_eq!(
        pairs,
        vec![
            ("a".to_string(), "x".to_string()),
            ("b".to_string(), "y".to_string()),
            ("b".to_string(), "z".to_string()),
        ]
    );
}

#[test]
fn empty_instance_plans_no_units() {
    let units = cycle_units(&Vec::new(), &Vec::new());
    assert!(units.is_empty());
}
