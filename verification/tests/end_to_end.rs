use emergencial::auth::{generate_token, AuthRequest, UserLookup};
use emergencial::error::AppError;
use emergencial::handlers::{create_user, ensure_app, list_users};
use emergencial::middleware::{auth_middleware, LookupOutcome, RequestCredentials, UserKind};
use emergencial::models::{CreateUser, User};
use emergencial::password::PasswordVerifier;
use emergencial::token::TokenService;

const NOW: u64 = 1_700_000_000;

#[test]
fn login_then_protected_endpoint_by_application_and_by_user() {
    let tokens = TokenService::new(b"a signing key for the whole process".to_vec());
    let mut verifier = PasswordVerifier::new();

    // A user registers through the application "app-7".
    let record = create_user(
        &verifier,
        CreateUser {
            nome: "Ana".to_string(),
            senha: "correct horse".to_string(),
            app_id: Some("app-7".to_string()),
            email: "ana@example.org".to_string(),
        },
    )
    .unwrap();
    let stored = User {
        id: record.id.clone(),
        nome: record.nome.clone(),
        email: record.email.clone(),
        senha: record.senha.clone(),
    };

    // The user logs in with the right password and gets a token.
    let request =
        AuthRequest { email: "ana@example.org".to_string(), senha: "correct horse".to_string() };
    let response =
        generate_token(&mut verifier, &tokens, &request, &UserLookup::Found(stored), NOW).unwrap();

    // The application calls an endpoint that is for applications only.
    let by_application =
        RequestCredentials { emergency_id: Some(b"app-7".to_vec()), authorization: None };
    let current = auth_middleware(&tokens, &by_application, NOW + 5)
        .unwrap()
        .resolve(LookupOutcome::Found)
        .unwrap();
    assert_eq!(current.kind, UserKind::App);
    assert_eq!(ensure_app(&current), Ok("app-7"));
    assert_eq!(list_users(&current), Ok("app-7"));

    // The user calls the same endpoint with the token, and is turned away.
    let by_user = RequestCredentials {
        emergency_id: None,
        authorization: Some(format!("Bearer {}", response.token).into_bytes()),
    };
    let current = auth_middleware(&tokens, &by_user, NOW + 5)
        .unwrap()
        .resolve(LookupOutcome::Found)
        .unwrap();
    assert_eq!(current.kind, UserKind::User);
    assert_eq!(current.user_id, record.id);
    assert_eq!(ensure_app(&current), Err(AppError::Unauthorized));
    assert_eq!(list_users(&current), Err((401, String::new())));
}
