use school_backend::models::Role;
use school_backend::token::{decode_payload, decode_token, encode_payload, encode_token, Claims, Secret, TokenFault};

fn secret() -> Secret {
    Secret::from_base64("a2V5".to_owned()).unwrap()
}

fn other() -> Secret {
    Secret::from_base64("b3RoZXI=".to_owned()).unwrap()
}

#[test]
fn payload_is_the_json_of_the_claims() {
    let c = Claims { employee_id: 12, role: Role::Teacher, expires_at: 1_700_259_200 };
    assert_eq!(
        String::from_utf8(encode_payload(&c)).unwrap(),
        "{\"eid\":12,\"r\":\"teacher\",\"exp\":1700259200}"
    );
    let p = Claims { employee_id: -3, role: Role::Principal, expires_at: 0 };
    assert_eq!(
        String::from_utf8(encode_payload(&p)).unwrap(),
        "{\"eid\":-3,\"r\":\"principal\",\"exp\":0}"
    );
}

#[test]
fn payload_round_trip_at_the_extremes() {
    for c in [
        Claims { employee_id: i32::MIN, role: Role::Teacher, expires_at: i64::MIN },
        Claims { employee_id: i32::MAX, role: Role::Principal, expires_at: i64::MAX },
        Claims { employee_id: 0, role: Role::Teacher, expires_at: 10 },
    ] {
        assert_eq!(decode_payload(&encode_payload(&c)), Some(c));
    }
}

#[test]
fn non_canonical_payloads_are_refused() {
    for text in [
        "{\"eid\": 12,\"r\":\"teacher\",\"exp\":5}",
        "{\"eid\":012,\"r\":\"teacher\",\"exp\":5}",
        "{\"eid\":12,\"r\":\"student\",\"exp\":5}",
        "{\"eid\":2147483648,\"r\":\"teacher\",\"exp\":5}",
        "{\"eid\":12,\"r\":\"teacher\",\"exp\":5} ",
        "",
    ] {
        assert_eq!(decode_payload(text.as_bytes()), None, "{text}");
    }
}

#[test]
fn token_round_trip_until_expiry() {
    let c = Claims { employee_id: 1, role: Role::Teacher, expires_at: 1_000 };
    let t = encode_token(&c, &secret());
    assert_eq!(t.split('.').count(), 3);
    assert_eq!(decode_token(&t, &secret(), 999), Ok(c));
    assert_eq!(decode_token(&t, &secret(), 1_000), Ok(c));
    assert_eq!(decode_token(&t, &secret(), 1_001), Err(TokenFault::Expired));
}

#[test]
fn encoding_is_deterministic() {
    let c = Claims { employee_id: 8, role: Role::Principal, expires_at: 77 };
    assert_eq!(encode_token(&c, &secret()), encode_token(&c, &secret()));
    assert_ne!(encode_token(&c, &secret()), encode_token(&c, &other()));
}

#[test]
fn wrong_secret_is_an_invalid_signature() {
    let c = Claims { employee_id: 1, role: Role::Teacher, expires_at: 1_000 };
    let t = encode_token(&c, &secret());
    assert_eq!(decode_token(&t, &other(), 0), Err(TokenFault::InvalidSignature));
}

#[test]
fn garbage_is_malformed() {
    assert_eq!(decode_token("not.a.token", &secret(), 0), Err(TokenFault::Malformed));
    assert_eq!(decode_token("", &secret(), 0), Err(TokenFault::Malformed));
}

#[test]
fn role_words() {
    assert_eq!(Role::Teacher.as_str(), "teacher");
    assert_eq!(Role::Principal.as_str(), "principal");
    assert_eq!(Role::parse("teacher"), Some(Role::Teacher));
    assert_eq!(Role::parse("principal"), Some(Role::Principal));
    assert_eq!(Role::parse("Teacher"), None);
    assert_eq!(Role::parse(""), None);
}

#[test]
fn secret_must_be_base64() {
    assert!(Secret::from_base64("not base64!".to_owned()).is_none());
    let s = Secret::from_base64("a2V5".to_owned()).unwrap();
    assert_eq!(s.text(), "a2V5");
}
