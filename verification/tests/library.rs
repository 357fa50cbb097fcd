use siem_backend::api::{
    check_credentials, effective_role, ingest_reply, login_reply, new_user, prepare_registration,
    registration_reply, ApiReply, KafkaDelivery,
};
use siem_backend::auth::{bearer_token, AuthRejection, AuthUser};
use siem_backend::cache::RedisCache;
use siem_backend::config::{event_topic, listen_address, ConfigError, ServiceConfig};
use siem_backend::consumer::{
    consume_batch, consumer_step, start_offset, FetchOutcome, FetchedRecord,
};
use siem_backend::detection::{alert_for_event, detect_alert, is_suspicious};
use siem_backend::models::{Claims, RegisterRequest, SecurityEvent, User};

fn event(event_type: &str, severity: &str) -> SecurityEvent {
    SecurityEvent {
        agent_id: "agent-7".to_string(),
        event_type: event_type.to_string(),
        source: "192.168.1.50".to_string(),
        severity: severity.to_string(),
        raw_data: serde_json::Value::Null,
    }
}

fn is_uuid_v4_text(s: &str) -> bool {
    let cs: Vec<char> = s.chars().collect();
    if cs.len() != 36 {
        return false;
    }
    for (i, c) in cs.iter().enumerate() {
        if i == 8 || i == 13 || i == 18 || i == 23 {
            if *c != '-' {
                return false;
            }
        } else if !(c.is_ascii_digit() || ('a'..='f').contains(c)) {
            return false;
        }
    }
    cs[14] == '4' && matches!(cs[19], '8' | '9' | 'a' | 'b')
}

#[test]
fn failed_login_with_high_severity_raises_alert() {
    let alert = alert_for_event(&event("FAILED_LOGIN", "HIGH"), "id-1".to_string()).unwrap();
    assert_eq!(alert.id, "id-1");
    assert_eq!(alert.rule_id, None);
    assert_eq!(alert.event_id, None);
    assert_eq!(alert.title.as_deref(), Some("Tentative de connexion suspecte sur 192.168.1.50"));
    assert_eq!(
        alert.description.as_deref(),
        Some("L'agent agent-7 a rapporté une tentative échouée.")
    );
    assert_eq!(alert.severity.as_deref(), Some("HIGH"));
    assert_eq!(alert.status.as_deref(), Some("OPEN"));
    assert_eq!(alert.created_at, None);
}

#[test]
fn failed_login_with_critical_severity_raises_alert() {
    let alert = alert_for_event(&event("FAILED_LOGIN", "CRITICAL"), "id-2".to_string()).unwrap();
    assert_eq!(alert.severity.as_deref(), Some("CRITICAL"));
}

#[test]
fn other_events_raise_no_alert() {
    assert!(alert_for_event(&event("FAILED_LOGIN", "MEDIUM"), "x".to_string()).is_none());
    assert!(alert_for_event(&event("FAILED_LOGIN", "LOW"), "x".to_string()).is_none());
    assert!(alert_for_event(&event("FAILED_LOGIN", "high"), "x".to_string()).is_none());
    assert!(alert_for_event(&event("PROCESS_CREATION", "CRITICAL"), "x".to_string()).is_none());
    assert!(alert_for_event(&event("NETWORK_CONN", "HIGH"), "x".to_string()).is_none());
    assert!(!is_suspicious(&event("failed_login", "HIGH")));
    assert!(is_suspicious(&event("FAILED_LOGIN", "HIGH")));
}

#[test]
fn detected_alert_gets_a_fresh_uuid() {
    let a = detect_alert(&event("FAILED_LOGIN", "HIGH")).unwrap();
    let b = detect_alert(&event("FAILED_LOGIN", "HIGH")).unwrap();
    assert!(is_uuid_v4_text(&a.id), "{}", a.id);
    assert!(is_uuid_v4_text(&b.id), "{}", b.id);
    assert_ne!(a.id, b.id);
    assert_eq!(a.title.as_deref(), Some("Tentative de connexion suspecte sur 192.168.1.50"));
    assert!(detect_alert(&event("NETWORK_CONN", "HIGH")).is_none());
}

#[test]
fn bearer_token_is_the_text_after_the_prefix() {
    assert_eq!(bearer_token(Some("Bearer abc.def.ghi")), Ok("abc.def.ghi"));
    assert_eq!(bearer_token(Some("Bearer ")), Ok(""));
    assert_eq!(bearer_token(Some("Bearer  x")), Ok(" x"));
}

#[test]
fn missing_or_foreign_authorization_is_refused() {
    assert_eq!(bearer_token(None), Err(AuthRejection::MissingToken));
    assert_eq!(bearer_token(Some("Basic dXNlcjpwdw==")), Err(AuthRejection::MissingToken));
    assert_eq!(bearer_token(Some("bearer abc")), Err(AuthRejection::MissingToken));
    assert_eq!(bearer_token(Some("Bearer")), Err(AuthRejection::MissingToken));
    assert_eq!(bearer_token(Some("")), Err(AuthRejection::MissingToken));
}

#[test]
fn rejections_carry_status_and_message() {
    assert_eq!(AuthRejection::MissingToken.status_code(), 401);
    assert_eq!(AuthRejection::InvalidToken.status_code(), 401);
    assert_eq!(
        AuthRejection::MissingToken.message(),
        "Token d'authentification manquant ou invalide"
    );
    assert_eq!(AuthRejection::InvalidToken.message(), "Token invalide ou expiré");
}

#[test]
fn decoded_claims_make_an_auth_user() {
    let claims = Claims {
        sub: "u1".to_string(),
        email: "a@b.c".to_string(),
        role: "admin".to_string(),
        exp: 42,
    };
    let AuthUser(c) = AuthUser::from_decoded(Some(claims.clone())).ok().unwrap();
    assert_eq!(c.sub, "u1");
    assert_eq!(c.exp, 42);
    assert_eq!(AuthUser::from_decoded(None).err(), Some(AuthRejection::InvalidToken));
}

#[test]
fn configuration_defaults() {
    let c = ServiceConfig::from_settings(Some("sqlite://siem.db".to_string()), None, None).unwrap();
    assert_eq!(c.database_url, "sqlite://siem.db");
    assert_eq!(c.kafka_broker, "localhost:9092");
    assert_eq!(c.redis_url, "redis://127.0.0.1:6379");
    let c = ServiceConfig::from_settings(
        Some("db".to_string()),
        Some("kafka:9093".to_string()),
        Some("redis://cache:6380".to_string()),
    )
    .unwrap();
    assert_eq!(c.kafka_broker, "kafka:9093");
    assert_eq!(c.redis_url, "redis://cache:6380");
    let e = ServiceConfig::from_settings(None, Some("k".to_string()), None).unwrap_err();
    assert_eq!(e, ConfigError::MissingDatabaseUrl);
    assert_eq!(e.message(), "DATABASE_URL introuvable.");
    assert_eq!(event_topic(), "siem-events");
    assert_eq!(listen_address(), "0.0.0.0:3000");
}

#[test]
fn redis_cache_checks_the_url() {
    assert!(RedisCache::new("redis://127.0.0.1:6379").is_ok());
    assert!(RedisCache::new("redis://cache.local/2").is_ok());
    assert!(RedisCache::new("not a url").is_err());
    assert!(RedisCache::new("http://127.0.0.1:6379").is_err());
    assert!(RedisCache::new("").is_err());
    assert!(RedisCache::new("rediss://127.0.0.1:6379").is_err());
}

fn rec(offset: i64, value: Option<&[u8]>) -> FetchedRecord {
    FetchedRecord { offset, value: value.map(|v| v.to_vec()) }
}

#[test]
fn consumer_starts_from_latest_or_zero() {
    assert_eq!(start_offset(Some(120)), 120);
    assert_eq!(start_offset(None), 0);
}

#[test]
fn consumer_advances_past_the_last_record() {
    let step = consumer_step(
        10,
        FetchOutcome::Records(vec![rec(10, Some(b"a")), rec(11, None), rec(12, Some(b"bc"))]),
    );
    assert_eq!(step.next_offset, 13);
    assert_eq!(step.payloads, vec!["a".to_string(), "bc".to_string()]);
    assert_eq!(step.pause_ms, 0);

    let step = consumer_step(10, FetchOutcome::Records(vec![]));
    assert_eq!(step.next_offset, 10);
    assert!(step.payloads.is_empty());
}

#[test]
fn consumer_skips_payloads_that_are_not_utf8() {
    let step = consumer_step(
        0,
        FetchOutcome::Records(vec![
            rec(0, Some(&[0xff, 0xfe])),
            rec(1, Some("é{}".as_bytes())),
            rec(2, Some(&[0xc3])),
        ]),
    );
    assert_eq!(step.next_offset, 3);
    assert_eq!(step.payloads, vec!["é{}".to_string()]);
}

#[test]
fn consumer_pauses_after_a_failed_fetch() {
    let step = consumer_step(77, FetchOutcome::Failed);
    assert_eq!(step.next_offset, 77);
    assert!(step.payloads.is_empty());
    assert_eq!(step.pause_ms, 500);
}

#[test]
fn consuming_two_batches_equals_consuming_their_concatenation() {
    let a = vec![rec(3, Some(b"x")), rec(4, None)];
    let b = vec![rec(5, Some(b"y")), rec(6, Some(b"z"))];
    let (o1, p1) = consume_batch(0, a.clone());
    let (o2, p2) = consume_batch(o1, b.clone());
    let mut ab = a;
    ab.extend(b);
    let (o, p) = consume_batch(0, ab);
    assert_eq!(o2, o);
    let mut p12 = p1;
    p12.extend(p2);
    assert_eq!(p12, p);
}

fn request(role: Option<&str>) -> RegisterRequest {
    RegisterRequest {
        email: "ana@soc.example".to_string(),
        password: "s3cret".to_string(),
        role: role.map(|r| r.to_string()),
    }
}

#[test]
fn role_defaults_to_analyst() {
    assert_eq!(effective_role(&None), "analyst");
    assert_eq!(effective_role(&Some("admin".to_string())), "admin");
}

#[test]
fn registration_builds_the_account_row() {
    let u = new_user(&request(None), "id-9".to_string(), "hash".to_string());
    assert_eq!(u.id, "id-9");
    assert_eq!(u.email, "ana@soc.example");
    assert_eq!(u.password_hash, "hash");
    assert_eq!(u.role_id.as_deref(), Some("analyst"));
    assert_eq!(u.is_active, 1);

    let u = prepare_registration(&request(Some("admin")), Some("h".to_string())).ok().unwrap();
    assert!(is_uuid_v4_text(&u.id));
    assert_eq!(u.role_id.as_deref(), Some("admin"));
    assert_eq!(u.password_hash, "h");
}

fn failure(r: &ApiReply) -> (u16, String) {
    match r {
        ApiReply::Failure { status, error } => (*status, error.clone()),
        _ => panic!("not a failure: {:?}", r),
    }
}

#[test]
fn registration_replies() {
    let e = prepare_registration(&request(None), None).err().unwrap();
    assert_eq!(failure(&e), (500, "Erreur lors du hachage du mot de passe".to_string()));
    assert_eq!(e.status_code(), 500);

    let u = new_user(&request(None), "id-9".to_string(), "hash".to_string());
    match registration_reply(&u, Ok(())) {
        ApiReply::UserCreated { user_id, message } => {
            assert_eq!(user_id, "id-9");
            assert_eq!(message, "Utilisateur créé avec succès");
        }
        other => panic!("{:?}", other),
    }
    assert_eq!(registration_reply(&u, Ok(())).status_code(), 201);
    let r = registration_reply(&u, Err("UNIQUE constraint failed".to_string()));
    assert_eq!(
        failure(&r),
        (400, "Impossible de créer l'utilisateur: UNIQUE constraint failed".to_string())
    );
}

fn stored_user() -> User {
    User {
        id: "u-1".to_string(),
        email: "ana@soc.example".to_string(),
        password_hash: "hash".to_string(),
        role_id: None,
        is_active: 1,
    }
}

#[test]
fn login_needs_a_known_account_and_its_password() {
    let u = check_credentials(Some(stored_user()), true).ok().unwrap();
    assert_eq!(u.id, "u-1");
    let r = check_credentials(Some(stored_user()), false).err().unwrap();
    assert_eq!(failure(&r), (401, "Email ou mot de passe incorrect".to_string()));
    let r = check_credentials(None, true).err().unwrap();
    assert_eq!(failure(&r), (401, "Email ou mot de passe incorrect".to_string()));
    assert_eq!(effective_role(&stored_user().role_id), "analyst");
}

#[test]
fn login_replies() {
    match login_reply(Some("tok".to_string())) {
        ApiReply::LoggedIn(resp) => {
            assert_eq!(resp.token, "tok");
            assert_eq!(resp.token_type, "Bearer");
        }
        other => panic!("{:?}", other),
    }
    assert_eq!(login_reply(Some("t".to_string())).status_code(), 200);
    let r = login_reply(None);
    assert_eq!(failure(&r), (500, "Échec de génération du token JWT".to_string()));
}

#[test]
fn ingest_replies() {
    for d in [KafkaDelivery::Disabled, KafkaDelivery::Delivered] {
        match ingest_reply(true, d) {
            ApiReply::EventAccepted { message } => {
                assert_eq!(message, "Événement réceptionné et transmis à Kafka")
            }
            other => panic!("{:?}", other),
        }
        assert_eq!(ingest_reply(true, d).status_code(), 202);
    }
    let r = ingest_reply(true, KafkaDelivery::Failed);
    assert_eq!(failure(&r), (500, "Erreur d'ingestion Kafka".to_string()));
    for d in [KafkaDelivery::Disabled, KafkaDelivery::Delivered, KafkaDelivery::Failed] {
        let r = ingest_reply(false, d);
        assert_eq!(failure(&r), (400, "Échec de sérialisation du log".to_string()));
    }
}

#[test]
fn offsets_passed_to_fetches_never_decrease() {
    let batches = vec![
        vec![rec(5, Some(b"a")), rec(6, None)],
        vec![],
        vec![rec(7, Some(b"b"))],
        vec![rec(9, None), rec(12, None)],
    ];
    let mut offset = start_offset(Some(5));
    let mut seen = vec![offset];
    for batch in batches {
        assert!(batch.iter().all(|r| r.offset >= offset));
        offset = consumer_step(offset, FetchOutcome::Records(batch)).next_offset;
        seen.push(offset);
    }
    offset = consumer_step(offset, FetchOutcome::Failed).next_offset;
    seen.push(offset);
    assert_eq!(seen, vec![5, 7, 7, 8, 13, 13]);
}

#[test]
fn each_record_of_a_run_is_analysed_once_in_order() {
    let batches = vec![
        vec![rec(5, Some(b"a")), rec(6, Some(b"b"))],
        vec![],
        vec![rec(7, Some(b"c")), rec(9, None), rec(10, Some(b"d"))],
    ];
    let mut offset = start_offset(Some(5));
    let mut analysed = Vec::new();
    let mut consumed = Vec::new();
    for batch in batches {
        consumed.extend(batch.iter().map(|r| r.offset));
        let step = consumer_step(offset, FetchOutcome::Records(batch));
        offset = step.next_offset;
        analysed.extend(step.payloads);
    }
    assert!(consumed.windows(2).all(|w| w[0] < w[1]));
    assert!(consumed.iter().all(|o| 5 <= *o && *o < offset));
    assert_eq!(analysed, vec!["a", "b", "c", "d"]);
    assert_eq!(offset, 11);
}
