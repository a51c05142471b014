use sms_code_service::doubles::{
    FailingSender, FailingStore, FixedGenerator, MemStore, RecordingSender,
};
use sms_code_service::errors::ServiceError;
use sms_code_service::record::CodeRecord;
use sms_code_service::service::{Service, VerifyCodeResp};

type TestService = Service<FixedGenerator, MemStore, RecordingSender>;

fn make_service(code: &str, cooldown: u64, ttl: u64, max_attempts: u64) -> TestService {
    Service::new(
        cooldown,
        ttl,
        RecordingSender::new(),
        MemStore::new(),
        FixedGenerator::new(code.to_string()),
        max_attempts,
    )
}

fn key() -> String {
    "+15551234567".to_string()
}

#[test]
fn fresh_record_fields_follow_the_policy_formulas() {
    let r = CodeRecord::fresh("483920".to_string(), 100, 300, 60);
    assert_eq!(r.code, "483920");
    assert_eq!(r.created_at, 100);
    assert_eq!(r.expires_at, 400);
    assert_eq!(r.resend_available_at, 160);
    assert_eq!(r.attempts, 0);
}

#[test]
fn send_code_stores_the_issued_code_and_delivers_it() {
    let mut svc = make_service("483920", 60, 300, 5);
    assert_eq!(svc.send_code(&key(), 1000), Ok(()));
    let stored = svc.store.m.get(&key()).expect("record stored");
    assert_eq!(stored.code, "483920");
    assert_eq!(stored.expires_at, 1300);
    assert_eq!(stored.resend_available_at, 1060);
    assert_eq!(stored.attempts, 0);
    assert_eq!(svc.sender.log.len(), 1);
    assert_eq!(svc.sender.log[0], (key(), "483920".to_string()));
}

#[test]
fn second_send_inside_cooldown_window_is_refused() {
    let mut svc = make_service("483920", 60, 300, 5);
    assert_eq!(svc.send_code(&key(), 1000), Ok(()));
    assert_eq!(svc.send_code(&key(), 1059), Err(ServiceError::CooldownError));
    // the refused call generated and delivered nothing
    assert_eq!(svc.sender.log.len(), 1);
    assert_eq!(svc.send_code(&key(), 1060), Ok(()));
    assert_eq!(svc.sender.log.len(), 2);
}

#[test]
fn stored_code_round_trips_through_verify() {
    let mut svc = make_service("483920", 60, 300, 5);
    assert_eq!(svc.send_code(&key(), 1000), Ok(()));
    let stored_code = svc.store.m.get(&key()).expect("record stored").code.clone();
    assert_eq!(svc.verify_code(&key(), &stored_code, 1010), Ok(()));
}

#[test]
fn correct_code_succeeds_exactly_once() {
    let mut svc = make_service("483920", 60, 300, 5);
    assert_eq!(svc.send_code(&key(), 1000), Ok(()));
    assert_eq!(svc.verify_code(&key(), &"483920".to_string(), 1010), Ok(()));
    // the accepted record was consumed: the same code is now unknown
    assert_eq!(
        svc.verify_code(&key(), &"483920".to_string(), 1011),
        Err(ServiceError::NotFoundOrExpiredError)
    );
}

#[test]
fn five_wrong_codes_then_exhaustion_on_the_sixth() {
    let mut svc = make_service("483920", 60, 300, 5);
    assert_eq!(svc.send_code(&key(), 1000), Ok(()));
    for i in 0..5u64 {
        assert_eq!(
            svc.verify_code(&key(), &"000000".to_string(), 1001 + i),
            Err(ServiceError::MismatchError)
        );
    }
    assert_eq!(
        svc.verify_code(&key(), &"000000".to_string(), 1006),
        Err(ServiceError::AttemptsExhaustedError)
    );
    // even the correct code is refused once the budget is spent
    assert_eq!(
        svc.verify_code(&key(), &"483920".to_string(), 1007),
        Err(ServiceError::AttemptsExhaustedError)
    );
}

#[test]
fn correct_code_succeeds_before_exhaustion() {
    let mut svc = make_service("483920", 60, 300, 5);
    assert_eq!(svc.send_code(&key(), 1000), Ok(()));
    for i in 0..4u64 {
        assert_eq!(
            svc.verify_code(&key(), &"000000".to_string(), 1001 + i),
            Err(ServiceError::MismatchError)
        );
    }
    assert_eq!(svc.verify_code(&key(), &"483920".to_string(), 1005), Ok(()));
}

#[test]
fn expired_code_is_unverifiable_with_budget_left() {
    let mut svc = make_service("483920", 60, 300, 5);
    assert_eq!(svc.send_code(&key(), 1000), Ok(()));
    assert_eq!(
        svc.verify_code(&key(), &"483920".to_string(), 1300),
        Err(ServiceError::NotFoundOrExpiredError)
    );
}

#[test]
fn last_second_of_the_validity_window_still_verifies() {
    let mut svc = make_service("483920", 60, 300, 5);
    assert_eq!(svc.send_code(&key(), 1000), Ok(()));
    assert_eq!(svc.verify_code(&key(), &"483920".to_string(), 1299), Ok(()));
}

#[test]
fn verify_without_send_is_not_found() {
    let mut svc = make_service("483920", 60, 300, 5);
    assert_eq!(
        svc.verify_code(&key(), &"483920".to_string(), 1000),
        Err(ServiceError::NotFoundOrExpiredError)
    );
}

#[test]
fn operations_on_distinct_keys_are_independent() {
    let mut svc = make_service("483920", 60, 300, 5);
    let k1 = "+15551234567".to_string();
    let k2 = "+15559876543".to_string();
    assert_eq!(svc.send_code(&k1, 1000), Ok(()));
    assert_eq!(svc.send_code(&k2, 1000), Ok(()));
    // a wrong attempt on k2 charges nothing against k1
    assert_eq!(
        svc.verify_code(&k2, &"000000".to_string(), 1001),
        Err(ServiceError::MismatchError)
    );
    assert_eq!(svc.store.m.get(&k1).expect("record for k1").attempts, 0);
    // consuming k1's record leaves k2's record standing
    assert_eq!(svc.verify_code(&k1, &"483920".to_string(), 1002), Ok(()));
    assert!(svc.store.m.get(&k2).is_some());
    assert_eq!(svc.verify_code(&k2, &"483920".to_string(), 1003), Ok(()));
}

#[test]
fn failed_verify_does_not_reset_the_cooldown() {
    let mut svc = make_service("483920", 60, 300, 5);
    assert_eq!(svc.send_code(&key(), 1000), Ok(()));
    assert_eq!(
        svc.verify_code(&key(), &"000000".to_string(), 1030),
        Err(ServiceError::MismatchError)
    );
    assert_eq!(svc.send_code(&key(), 1059), Err(ServiceError::CooldownError));
    assert_eq!(svc.send_code(&key(), 1060), Ok(()));
}

#[test]
fn resend_overwrites_the_record_and_resets_the_attempt_count() {
    let mut svc = make_service("483920", 60, 300, 5);
    assert_eq!(svc.send_code(&key(), 1000), Ok(()));
    assert_eq!(
        svc.verify_code(&key(), &"000000".to_string(), 1001),
        Err(ServiceError::MismatchError)
    );
    assert_eq!(svc.store.m.get(&key()).expect("record").attempts, 1);
    assert_eq!(svc.send_code(&key(), 1100), Ok(()));
    let stored = svc.store.m.get(&key()).expect("record");
    assert_eq!(stored.attempts, 0);
    assert_eq!(stored.created_at, 1100);
    assert_eq!(stored.expires_at, 1400);
}

#[test]
fn storage_failure_surfaces_on_send_and_verify() {
    let mut svc = Service::new(
        60,
        300,
        RecordingSender::new(),
        FailingStore,
        FixedGenerator::new("483920".to_string()),
        5,
    );
    assert_eq!(svc.send_code(&key(), 1000), Err(ServiceError::StorageError));
    // a failed write must not be followed by a delivery
    assert_eq!(svc.sender.log.len(), 0);
    assert_eq!(
        svc.verify_code(&key(), &"483920".to_string(), 1001),
        Err(ServiceError::StorageError)
    );
}

#[test]
fn delivery_failure_surfaces_but_the_record_remains() {
    let mut svc = Service::new(
        60,
        300,
        FailingSender,
        MemStore::new(),
        FixedGenerator::new("483920".to_string()),
        5,
    );
    assert_eq!(svc.send_code(&key(), 1000), Err(ServiceError::SendError));
    // the record was persisted before delivery was attempted
    assert_eq!(svc.verify_code(&key(), &"483920".to_string(), 1001), Ok(()));
}

#[test]
fn acquire_executor_binds_key_and_policy_constants() {
    let mut svc = make_service("483920", 60, 300, 5);
    let ex = svc.acquire_executor(&key());
    assert_eq!(ex.key, key());
    assert_eq!(ex.ttl, 300);
    assert_eq!(ex.cooldown, 60);
    assert_eq!(ex.max_attempts, 5);
    // acquiring again yields the executor registered for the key, not a second one
    let again = svc.acquire_executor(&key());
    assert_eq!(again.key, key());
    assert_eq!(svc.pool.m.len(), 1);
}

#[test]
fn error_messages_name_each_failure() {
    assert_eq!(ServiceError::CooldownError.message(), "resend cooldown in effect");
    assert_eq!(ServiceError::StorageError.message(), "storage backend failure");
    assert_eq!(ServiceError::SendError.message(), "code delivery failure");
    assert_eq!(ServiceError::NotFoundOrExpiredError.message(), "no valid code for this key");
    assert_eq!(
        ServiceError::AttemptsExhaustedError.message(),
        "verification attempts exhausted"
    );
    assert_eq!(ServiceError::MismatchError.message(), "submitted code does not match");
}

#[test]
fn verify_resp_reports_success() {
    let resp = VerifyCodeResp { is_ok: true };
    assert!(resp.is_ok);
}
