use emergencial::error::{internal_error, AppError, ErrorResponse};
use emergencial::handlers::{
    create_user, ensure_app, list_users, ping, register, require_identity, uuid_text, NewUser,
};
use emergencial::middleware::{CurrentUser, UserKind};
use emergencial::models::{CreateUser, PingResponse};
use emergencial::pagination::{PaginatedResponse, Pagination};
use emergencial::password::PasswordVerifier;

fn application() -> CurrentUser {
    CurrentUser { user_id: "app-7".to_string(), kind: UserKind::App }
}

fn end_user() -> CurrentUser {
    CurrentUser { user_id: "user-1".to_string(), kind: UserKind::User }
}

fn signup(password: &str, app_id: Option<&str>) -> CreateUser {
    CreateUser {
        nome: "Ana".to_string(),
        senha: password.to_string(),
        app_id: app_id.map(str::to_string),
        email: "ana@example.org".to_string(),
    }
}

#[test]
fn ensure_app_gives_the_id_of_an_application() {
    assert_eq!(ensure_app(&application()), Ok("app-7"));
}

#[test]
fn ensure_app_turns_a_user_away() {
    assert_eq!(ensure_app(&end_user()), Err(AppError::Unauthorized));
    // The id plays no part: a user whose id is that of an application is a user.
    let lookalike = CurrentUser { user_id: "app-7".to_string(), kind: UserKind::User };
    assert_eq!(ensure_app(&lookalike), Err(AppError::Unauthorized));
}

#[test]
fn require_identity_takes_no_identity_for_unauthorized() {
    let current = end_user();
    assert_eq!(require_identity(Some(&current)), Ok(&current));
    let current = application();
    assert_eq!(require_identity(Some(&current)), Ok(&current));
    assert_eq!(require_identity(None), Err(AppError::Unauthorized));
}

#[test]
fn uuid_text_keeps_the_bytes_but_for_version_and_layout() {
    let random = [
        0xa1, 0xa2, 0xa3, 0xa4, 0xb1, 0xb2, 0xc1, 0xc2, 0xd1, 0xd2, 0xd3, 0xd4, 0xd5, 0xd6, 0xd7,
        0xd8,
    ];
    assert_eq!(uuid_text(&random), "a1a2a3a4-b1b2-41c2-91d2-d3d4d5d6d7d8");
    assert_eq!(uuid_text(&[0x00; 16]), "00000000-0000-4000-8000-000000000000");
    assert_eq!(uuid_text(&[0xff; 16]), "ffffffff-ffff-4fff-bfff-ffffffffffff");
    assert_eq!(uuid_text(&[0x5a; 16]), "5a5a5a5a-5a5a-4a5a-9a5a-5a5a5a5a5a5a");
    for byte in [0x00u8, 0x3f, 0x40, 0x7f, 0x80, 0xbf, 0xc0, 0xff] {
        assert!(is_uuid_v4(&uuid_text(&[byte; 16])), "{byte:#x}");
    }
}

#[test]
fn list_users_is_for_applications_only() {
    assert_eq!(list_users(&application()), Ok("app-7"));
    assert_eq!(list_users(&end_user()), Err((401, String::new())));
}

#[test]
fn ping_says_ok() {
    assert_eq!(ping(), PingResponse { status: "ok".to_string() });
    assert_eq!(PingResponse::ok().status, "ok");
}

#[test]
fn register_refuses_a_password_of_fewer_than_six_bytes() {
    let refusal = Err((400, "Weak password".to_string()));
    assert_eq!(register(signup("12345", None), "id".to_string(), Ok("h".to_string())), refusal);
    assert_eq!(register(signup("", None), "id".to_string(), Ok("h".to_string())), refusal);
    // A weak password is refused before a failure to hash it is reported.
    assert_eq!(register(signup("12345", None), "id".to_string(), Err(AppError::Internal)), refusal);
}

#[test]
fn register_counts_the_bytes_of_a_password() {
    // Three letters of two bytes each are six bytes.
    assert!(register(signup("ééé", None), "id".to_string(), Ok("h".to_string())).is_ok());
    assert!(register(signup("éé1", None), "id".to_string(), Ok("h".to_string())).is_err());
    assert!(register(signup("123456", None), "id".to_string(), Ok("h".to_string())).is_ok());
}

#[test]
fn register_stores_the_hash_and_the_named_application() {
    assert_eq!(
        register(signup("123456", Some("app-7")), "id-1".to_string(), Ok("hash".to_string())),
        Ok(NewUser {
            id: "id-1".to_string(),
            nome: "Ana".to_string(),
            email: "ana@example.org".to_string(),
            app_id: "app-7".to_string(),
            senha: "hash".to_string(),
        })
    );
}

#[test]
fn register_falls_back_to_the_default_application() {
    let user = register(signup("123456", None), "id-1".to_string(), Ok("hash".to_string())).unwrap();
    assert_eq!(user.app_id, "DEMONSTRA");
    let user = register(signup("123456", Some("")), "id-1".to_string(), Ok("hash".to_string())).unwrap();
    assert_eq!(user.app_id, "");
}

#[test]
fn register_reports_a_failure_to_hash() {
    assert_eq!(
        register(signup("123456", None), "id-1".to_string(), Err(AppError::Internal)),
        Err((500, "Password hashing failed".to_string()))
    );
    assert_eq!(
        register(signup("123456", None), "id-1".to_string(), Err(AppError::Unauthorized)),
        Err((500, "Password hashing failed".to_string()))
    );
}

#[test]
fn create_user_refuses_a_weak_password() {
    let verifier = PasswordVerifier::new();
    assert_eq!(
        create_user(&verifier, signup("12345", None)),
        Err((400, "Weak password".to_string()))
    );
}

fn is_uuid_v4(text: &str) -> bool {
    let bytes = text.as_bytes();
    bytes.len() == 36
        && bytes.iter().enumerate().all(|(i, b)| match i {
            8 | 13 | 18 | 23 => *b == b'-',
            _ => b.is_ascii_digit() || (b'a'..=b'f').contains(b),
        })
        && bytes[14] == b'4'
        && matches!(bytes[19], b'8' | b'9' | b'a' | b'b')
}

#[test]
fn create_user_draws_an_id_and_hashes_the_password() {
    let mut verifier = PasswordVerifier::new();
    let user = create_user(&verifier, signup("correct horse", Some("app-7"))).unwrap();
    assert!(is_uuid_v4(&user.id), "{}", user.id);
    assert_eq!(user.nome, "Ana");
    assert_eq!(user.email, "ana@example.org");
    assert_eq!(user.app_id, "app-7");
    assert_ne!(user.senha, "correct horse");
    assert!(verifier.verify("correct horse", &user.senha));
    assert!(!verifier.verify("correct horsf", &user.senha));
    let other = create_user(&verifier, signup("correct horse", None)).unwrap();
    assert!(is_uuid_v4(&other.id), "{}", other.id);
    assert_ne!(other.id, user.id);
    assert_ne!(other.senha, user.senha);
    assert_eq!(other.app_id, "DEMONSTRA");
}

#[test]
fn errors_carry_their_status_and_message() {
    assert_eq!(AppError::Unauthorized.status(), 401);
    assert_eq!(AppError::Internal.status(), 500);
    assert_eq!(AppError::Database("pool timed out".to_string()).status(), 500);
    assert_eq!(AppError::Unauthorized.message(), "Unauthorized");
    assert_eq!(AppError::Internal.message(), "Internal server error");
    assert_eq!(AppError::Database("pool timed out".to_string()).message(), "Database error");
}

#[test]
fn store_failures_are_shown_alike_and_logged_apart() {
    let timeout = AppError::Database("pool timed out".to_string());
    let refused = AppError::Database("connection refused: users".to_string());
    assert_eq!(timeout.message(), refused.message());
    assert_eq!(timeout.status(), refused.status());
    assert_eq!(timeout.clone().into_response(), refused.clone().into_response());
    assert_eq!(timeout.log_line(), "Database error: pool timed out");
    assert_eq!(refused.log_line(), "Database error: connection refused: users");
    assert_eq!(AppError::Database(String::new()).log_line(), "Database error: ");
    assert_eq!(AppError::Unauthorized.log_line(), "Unauthorized");
    assert_eq!(AppError::Internal.log_line(), "Internal server error");
}

#[test]
fn errors_become_responses() {
    assert_eq!(
        AppError::Unauthorized.into_response(),
        (401, ErrorResponse { message: "Unauthorized".to_string() })
    );
    assert_eq!(
        AppError::Internal.into_response(),
        (500, ErrorResponse { message: "Internal server error".to_string() })
    );
    assert_eq!(
        AppError::Database("x".to_string()).into_response(),
        (500, ErrorResponse { message: "Database error".to_string() })
    );
}

#[test]
fn internal_error_names_the_failure() {
    assert_eq!(internal_error("pool timed out"), (500, "DB error: pool timed out".to_string()));
    assert_eq!(internal_error(""), (500, "DB error: ".to_string()));
}

fn window(page: Option<i64>, per_page: Option<i64>) -> (i64, i64) {
    Pagination { page, per_page }.checked_limit_offset().unwrap()
}

#[test]
fn limit_offset_defaults_to_the_first_fifty() {
    assert_eq!(Pagination { page: None, per_page: None }.limit_offset(), (50, 0));
    assert_eq!(window(None, None), (50, 0));
}

#[test]
fn limit_offset_counts_the_rows_before_the_page() {
    assert_eq!(Pagination { page: Some(3), per_page: Some(20) }.limit_offset(), (20, 40));
    assert_eq!(window(Some(1), Some(20)), (20, 0));
    assert_eq!(window(Some(2), None), (50, 50));
    assert_eq!(window(Some(1_000_000), Some(100)), (100, 99_999_900));
}

#[test]
fn limit_offset_keeps_the_page_length_between_one_and_a_hundred() {
    assert_eq!(window(Some(2), Some(0)), (1, 1));
    assert_eq!(window(Some(2), Some(-5)), (1, 1));
    assert_eq!(window(Some(2), Some(i64::MIN)), (1, 1));
    assert_eq!(window(Some(2), Some(1)), (1, 1));
    assert_eq!(window(Some(2), Some(100)), (100, 100));
    assert_eq!(window(Some(2), Some(101)), (100, 100));
    assert_eq!(window(Some(2), Some(i64::MAX)), (100, 100));
}

#[test]
fn limit_offset_starts_at_the_first_page() {
    assert_eq!(window(Some(0), Some(10)), (10, 0));
    assert_eq!(window(Some(-3), Some(10)), (10, 0));
    assert_eq!(window(Some(i64::MIN), Some(10)), (10, 0));
}

#[test]
fn checked_limit_offset_gives_nothing_where_the_offset_is_no_number() {
    assert_eq!(Pagination { page: Some(i64::MAX), per_page: Some(2) }.checked_limit_offset(), None);
    assert_eq!(Pagination { page: Some(i64::MAX), per_page: None }.checked_limit_offset(), None);
    assert_eq!(window(Some(i64::MAX), Some(1)), (1, i64::MAX - 1));
    // 92233720368547758 pages of a hundred rows come before the last page that can be asked for.
    assert_eq!(window(Some(92_233_720_368_547_759), Some(100)), (100, 9_223_372_036_854_775_800));
    assert_eq!(
        Pagination { page: Some(92_233_720_368_547_760), per_page: Some(100) }.checked_limit_offset(),
        None
    );
}

#[test]
fn respond_reports_the_page_as_it_was_asked_for() {
    let pagination = Pagination { page: Some(3), per_page: Some(500) };
    assert_eq!(
        pagination.respond(vec!["a", "b"], 202),
        PaginatedResponse { data: vec!["a", "b"], total: 202, page: 3, per_page: 100 }
    );
    let pagination = Pagination { page: None, per_page: None };
    assert_eq!(
        pagination.respond(Vec::<u8>::new(), 0),
        PaginatedResponse { data: vec![], total: 0, page: 1, per_page: 50 }
    );
    // The page is reported as given even where the first page was shown in its place.
    let pagination = Pagination { page: Some(-2), per_page: Some(0) };
    assert_eq!(pagination.respond(vec![1u8], 1).page, -2);
    assert_eq!(pagination.respond(vec![1u8], 1).per_page, 1);
}
