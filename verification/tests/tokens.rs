use todo_backend::utils::decimal::decimal_text;
use todo_backend::utils::jwt::{claims_json, claims_of_payload, create_jwt, decode_jwt, Claims};

const ID: u128 = 0x67e5504410b1426f9247bb680e5fe0c8;

fn now() -> i64 {
    std::time::SystemTime::now().duration_since(std::time::UNIX_EPOCH).unwrap().as_secs() as i64
}

#[test]
fn decimal_text_of_numbers() {
    for n in [0usize, 7, 10, 99, 100, 1_700_604_800, usize::MAX] {
        assert_eq!(decimal_text(n), n.to_string());
    }
}

#[test]
fn claims_json_text() {
    let c = Claims { sub: ID, exp: 1_700_604_800 };
    assert_eq!(claims_json(&c), r#"{"sub":"67e55044-10b1-426f-9247-bb680e5fe0c8","exp":1700604800}"#);
    assert_eq!(claims_of_payload(&claims_json(&c)), Some(c));
}

#[test]
fn payloads_read_as_serde_reads_them() {
    let c = Some(Claims { sub: ID, exp: 12 });
    assert_eq!(claims_of_payload(r#"{"exp":12,"sub":"67e55044-10b1-426f-9247-bb680e5fe0c8"}"#), c);
    assert_eq!(claims_of_payload(" { \"sub\" : \"67e55044-10b1-426f-9247-bb680e5fe0c8\" ,\n \"exp\": 12 } "), c);
    assert_eq!(claims_of_payload(r#"{"iat":5,"sub":"67e55044-10b1-426f-9247-bb680e5fe0c8","exp":12,"x":[1,{}]}"#), c);
    assert_eq!(claims_of_payload(r#"{"sub":"67E55044-10B1-426F-9247-BB680E5FE0C8","exp":12}"#), c);
    assert_eq!(claims_of_payload(r#"{"sub":"67e5504410b1426f9247bb680e5fe0c8","exp":12}"#), c);
    assert_eq!(claims_of_payload(r#"{"sub":"{67e55044-10b1-426f-9247-bb680e5fe0c8}","exp":12}"#), c);
}

#[test]
fn payloads_that_name_no_claims() {
    assert_eq!(claims_of_payload(r#"{"sub":"67e55044-10b1-426f-9247-bb680e5fe0c8","exp":01}"#), None);
    assert_eq!(claims_of_payload(r#"{"sub":"67e55044-10b1-426f-9247-bb680e5fe0c8","exp":1.5}"#), None);
    assert_eq!(claims_of_payload(r#"{"sub":"67e55044-10b1-426f-9247-bb680e5fe0c8","exp":-1}"#), None);
    assert_eq!(claims_of_payload(r#"{"sub":"67e55044-10b1-426f-9247-bb680e5fe0c8","exp":"12"}"#), None);
    assert_eq!(claims_of_payload(r#"{"sub":"not-a-uuid","exp":12}"#), None);
    assert_eq!(claims_of_payload(r#"{"exp":12}"#), None);
    assert_eq!(claims_of_payload(r#"{"sub":"67e55044-10b1-426f-9247-bb680e5fe0c8"}"#), None);
    assert_eq!(claims_of_payload(r#"["67e55044-10b1-426f-9247-bb680e5fe0c8",12]"#), None);
    assert_eq!(claims_of_payload(""), None);
}

#[test]
fn token_with_other_member_order_decodes() {
    let t = now() + 3600;
    let payload: serde_json::Value = serde_json::from_str(&format!(
        r#"{{"iat":1,"exp":{},"sub":"67e55044-10b1-426f-9247-bb680e5fe0c8"}}"#,
        t
    ))
    .unwrap();
    let token = jsonwebtoken::encode(
        &jsonwebtoken::Header::new(jsonwebtoken::Algorithm::HS256),
        &payload,
        &jsonwebtoken::EncodingKey::from_secret(b"secret"),
    )
    .unwrap();
    assert_eq!(decode_jwt(&token, b"secret"), Some(Claims { sub: ID, exp: t as usize }));
}

#[test]
fn issued_token_decodes_to_its_claims() {
    let t = now();
    let token = create_jwt(ID, t, b"secret");
    assert_eq!(decode_jwt(&token, b"secret"), Some(Claims { sub: ID, exp: (t + 604_800) as usize }));
}

#[test]
fn issued_token_is_a_standard_hs256_jwt() {
    let t = now();
    let token = create_jwt(ID, t, b"secret");
    let data = jsonwebtoken::decode::<serde_json::Value>(
        &token,
        &jsonwebtoken::DecodingKey::from_secret(b"secret"),
        &jsonwebtoken::Validation::new(jsonwebtoken::Algorithm::HS256),
    )
    .unwrap();
    assert_eq!(data.claims["sub"], "67e55044-10b1-426f-9247-bb680e5fe0c8");
    assert_eq!(data.claims["exp"].as_u64(), Some((t + 604_800) as u64));
    assert_eq!(data.header.alg, jsonwebtoken::Algorithm::HS256);
}

#[test]
fn token_under_another_secret_is_refused() {
    let token = create_jwt(ID, now(), b"secret");
    assert_eq!(decode_jwt(&token, b"other"), None);
}

#[test]
fn expired_token_is_refused() {
    let token = create_jwt(ID, 1_000_000, b"secret");
    assert_eq!(decode_jwt(&token, b"secret"), None);
}

#[test]
fn garbage_is_refused() {
    assert_eq!(decode_jwt("a.b.c", b"secret"), None);
    assert_eq!(decode_jwt("", b"secret"), None);
}
