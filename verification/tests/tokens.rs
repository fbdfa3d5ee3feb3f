use emergencial::error::AppError;
use emergencial::token::{
    assemble, claims_if_fresh, read_claims, split, write_claims, Claims, TokenError, TokenService,
    TOKEN_HORIZON_SECS,
};

const ISSUED: u64 = 1_700_000_000;

fn service() -> TokenService {
    TokenService::new(b"secret".to_vec())
}

#[test]
fn horizon_is_one_day() {
    assert_eq!(TOKEN_HORIZON_SECS, 86_400);
}

#[test]
fn issue_at_gives_the_signed_text() {
    let token = service().issue_at("user-1", ISSUED).unwrap();
    assert_eq!(
        token,
        "000000006553f1000000000065554280757365722d31.\
         7b7c025ab3cc0a12904f30c373b15ebc6a073ec4035c17559e3ede4b4062824c"
    );
}

#[test]
fn issue_at_signs_with_the_key_it_was_given() {
    let service = TokenService::new(b"my secret and secure key".to_vec());
    let token = service.issue_at("7f3c2e1a-0b4d-4c5e-9f60-112233445566", 0).unwrap();
    assert_eq!(
        token,
        "0000000000000000000000000001518037663363326531612d306234642d346335652d396636302d\
         313132323333343435353636.\
         ce7c7cb388faadc5e350611d58ecd78484c1e83677b07aaa5dcf6916a6aa7742"
    );
}

#[test]
fn issued_token_validates_at_once_with_the_same_subject() {
    let service = service();
    let token = service.issue_at("user-1", ISSUED).unwrap();
    let claims = service.validate_at(token.as_bytes(), ISSUED).unwrap();
    assert_eq!(
        claims,
        Claims { sub: "user-1".to_string(), iat: ISSUED, exp: ISSUED + 86_400 }
    );
}

#[test]
fn issued_token_validates_until_the_last_second() {
    let service = service();
    let token = service.issue_at("user-1", ISSUED).unwrap();
    assert!(service.validate_at(token.as_bytes(), ISSUED + 86_399).is_ok());
    assert!(service.validate_at(token.as_bytes(), 0).is_ok());
}

#[test]
fn token_expires_when_the_horizon_has_elapsed() {
    let service = service();
    let token = service.issue_at("user-1", ISSUED).unwrap();
    assert_eq!(service.validate_at(token.as_bytes(), ISSUED + 86_400), Err(TokenError::Expired));
    assert_eq!(service.validate_at(token.as_bytes(), ISSUED + 86_401), Err(TokenError::Expired));
    assert_eq!(service.validate_at(token.as_bytes(), u64::MAX), Err(TokenError::Expired));
}

#[test]
fn expired_and_malformed_are_told_the_same() {
    let service = service();
    let token = service.issue_at("user-1", ISSUED).unwrap();
    let expired = service.validate_at(token.as_bytes(), ISSUED + 86_400).unwrap_err();
    let malformed = service.validate_at(b"not a token", ISSUED).unwrap_err();
    assert_eq!(expired, TokenError::Expired);
    assert_eq!(malformed, TokenError::Malformed);
    assert_eq!(expired.outcome(), AppError::Unauthorized);
    assert_eq!(expired.outcome(), malformed.outcome());
    assert_eq!(expired.outcome().status(), 401);
    assert_eq!(expired.outcome().message(), malformed.outcome().message());
}

#[test]
fn expiry_stays_at_the_end_of_time() {
    let service = TokenService::new(b"k".to_vec());
    let token = service.issue_at("joão", u64::MAX).unwrap();
    assert_eq!(
        token,
        "ffffffffffffffffffffffffffffffff6a6fc3a36f.\
         0a573f0678046c67cac9535d29027b9d4a3975de370a3dcc0ca105fdf2aacc41"
    );
    assert_eq!(service.validate_at(token.as_bytes(), u64::MAX), Err(TokenError::Expired));
    let claims = service.validate_at(token.as_bytes(), u64::MAX - 1).unwrap();
    assert_eq!(claims.sub, "joão");
    assert_eq!(claims.exp, u64::MAX);
    let near = service.issue_at("x", u64::MAX - 86_400).unwrap();
    assert_eq!(service.validate_at(near.as_bytes(), u64::MAX - 1).unwrap().exp, u64::MAX);
    let nearer = service.issue_at("x", u64::MAX - 86_399).unwrap();
    assert_eq!(service.validate_at(nearer.as_bytes(), u64::MAX - 1).unwrap().exp, u64::MAX);
}

#[test]
fn token_signed_with_another_key_is_malformed() {
    let token = TokenService::new(b"other".to_vec()).issue_at("user-1", ISSUED).unwrap();
    assert_eq!(service().validate_at(token.as_bytes(), ISSUED), Err(TokenError::Malformed));
}

#[test]
fn tampered_token_is_malformed() {
    let service = service();
    let token = service.issue_at("user-1", ISSUED).unwrap();
    // The subject "user-1" becomes "user-2": the tag no longer fits.
    let forged = token.replace("757365722d31.", "757365722d32.");
    assert_ne!(forged, token);
    assert_eq!(service.validate_at(forged.as_bytes(), ISSUED), Err(TokenError::Malformed));
    // A later expiry does not fit the tag either, even for a token that has expired.
    let extended = token.replace("0000000065554280", "00000000ffffffff");
    assert_eq!(
        service.validate_at(extended.as_bytes(), ISSUED + 86_400),
        Err(TokenError::Malformed)
    );
    // Nor does a changed tag fit the payload.
    let mut bytes = token.clone().into_bytes();
    let last = bytes.len() - 1;
    bytes[last] = if bytes[last] == b'0' { b'1' } else { b'0' };
    assert_eq!(service.validate_at(&bytes, ISSUED), Err(TokenError::Malformed));
}

#[test]
fn tag_of_another_length_is_malformed() {
    let service = service();
    let token = service.issue_at("user-1", ISSUED).unwrap();
    // One byte less of the tag, one byte more, and no tag at all.
    let shorter = &token[..token.len() - 2];
    let longer = format!("{token}00");
    let bare = &token[..token.find('.').unwrap() + 1];
    for text in [shorter, longer.as_str(), bare] {
        assert_eq!(
            service.validate_at(text.as_bytes(), ISSUED),
            Err(TokenError::Malformed),
            "{text:?}"
        );
    }
}

#[test]
fn text_that_is_no_token_is_malformed() {
    let service = service();
    let token = service.issue_at("user-1", ISSUED).unwrap();
    let upper = token.to_uppercase();
    let unsigned = &token[..token.find('.').unwrap()];
    let doubled = token.replace('.', "..");
    let spaced = format!(" {token}");
    for text in [
        "",
        ".",
        "abc",
        "zz.zz",
        upper.as_str(),
        unsigned,
        doubled.as_str(),
        spaced.as_str(),
        "000000006553f1000000000065554280757365722d31.",
        ".7b7c025ab3cc0a12904f30c373b15ebc6a073ec4035c17559e3ede4b4062824c",
    ] {
        assert_eq!(
            service.validate_at(text.as_bytes(), ISSUED),
            Err(TokenError::Malformed),
            "{text:?}"
        );
    }
    assert_eq!(service.validate_at(&[0xff, b'.', 0xfe], ISSUED), Err(TokenError::Malformed));
}

#[test]
fn service_without_a_key_issues_and_accepts_nothing() {
    let keyless = TokenService::new(Vec::new());
    assert!(!keyless.has_key());
    assert!(service().has_key());
    assert_eq!(keyless.issue_at("user-1", ISSUED), Err(AppError::Internal));
    assert_eq!(keyless.issue("user-1"), Err(AppError::Internal));
    let token = service().issue_at("user-1", ISSUED).unwrap();
    assert_eq!(keyless.validate_at(token.as_bytes(), ISSUED), Err(TokenError::Malformed));
    assert_eq!(keyless.validate(&token), Err(TokenError::Malformed));
}

#[test]
fn issue_and_validate_go_by_the_clock() {
    let service = service();
    let token = service.issue("user-1").unwrap();
    let claims = service.validate(&token).unwrap();
    assert_eq!(claims.sub, "user-1");
    assert_eq!(claims.exp, claims.iat + 86_400);
    // The clock stands somewhere after the year 2020.
    assert!(claims.iat > 1_577_836_800);
    let stale = service.issue_at("user-1", 1_577_836_800).unwrap();
    assert_eq!(service.validate(&stale), Err(TokenError::Expired));
    assert_eq!(service.validate("no token"), Err(TokenError::Malformed));
}

#[test]
fn subject_may_be_empty_or_long() {
    let service = service();
    let empty = service.issue_at("", ISSUED).unwrap();
    assert_eq!(service.validate_at(empty.as_bytes(), ISSUED).unwrap().sub, "");
    let long = "é".repeat(1000);
    let token = service.issue_at(&long, ISSUED).unwrap();
    assert_eq!(service.validate_at(token.as_bytes(), ISSUED).unwrap().sub, long);
}

#[test]
fn claims_are_written_as_two_times_and_the_subject() {
    let payload = write_claims("user-1", 1, 2);
    assert_eq!(
        payload,
        vec![0, 0, 0, 0, 0, 0, 0, 1, 0, 0, 0, 0, 0, 0, 0, 2, b'u', b's', b'e', b'r', b'-', b'1']
    );
    assert_eq!(
        read_claims(&payload),
        Some(Claims { sub: "user-1".to_string(), iat: 1, exp: 2 })
    );
}

#[test]
fn claims_need_both_times_and_a_utf8_subject() {
    assert_eq!(read_claims(&[]), None);
    assert_eq!(read_claims(&[0; 15]), None);
    assert_eq!(read_claims(&[0; 16]), Some(Claims { sub: String::new(), iat: 0, exp: 0 }));
    let mut payload = vec![0; 16];
    payload.push(0xff);
    assert_eq!(read_claims(&payload), None);
}

#[test]
fn claims_if_fresh_goes_by_the_expiry_time() {
    let payload = write_claims("user-1", 10, 20);
    assert_eq!(
        claims_if_fresh(&payload, 19),
        Ok(Claims { sub: "user-1".to_string(), iat: 10, exp: 20 })
    );
    assert_eq!(claims_if_fresh(&payload, 20), Err(TokenError::Expired));
    assert_eq!(claims_if_fresh(&payload, 21), Err(TokenError::Expired));
    assert_eq!(claims_if_fresh(&payload[..15], 0), Err(TokenError::Malformed));
    // A token is not held to have been issued before it is used.
    assert!(claims_if_fresh(&payload, 0).is_ok());
}

#[test]
fn assemble_and_split_are_inverse() {
    let token = assemble(&[0x01, 0xab], &[0xff]);
    assert_eq!(token, "01ab.ff");
    assert_eq!(split(token.as_bytes()), Some((vec![0x01, 0xab], vec![0xff])));
    assert_eq!(assemble(&[], &[]), ".");
    assert_eq!(split(b"."), Some((vec![], vec![])));
    assert_eq!(split(b"01ab"), None);
    assert_eq!(split(b"01.ab.cd"), None);
    assert_eq!(split(b"0.ab"), None);
    assert_eq!(split(b"01.a"), None);
    assert_eq!(split(b"01.AB"), None);
}
