use steamcmd_hub::auth::{
    get_secret, set_jwt_secret, AccessTokenGuard, AdminGuard, AuthError, AuthResponse, JwtSecret,
    ModeratorGuard, RefreshTokenGuard, TokenClaims, TokenType,
};
use steamcmd_hub::schema::{default_schema_version, SchemaValidationError};
use steamcmd_hub::steamcmd::{
    history_capacity_or_default, take_pipes, SteamCmdError, Supervisor, DEFAULT_HISTORY_CAPACITY,
};
use steamcmd_hub::user::UserRole;

#[test]
fn missing_executable_is_command_not_found() {
    let r = Supervisor::from_lookup(Err(which::Error::CannotFindBinaryPath), None);
    assert!(matches!(r, Err(SteamCmdError::CommandNotFound)));
}

#[test]
fn found_executable_sets_up_capacities() {
    let r = Supervisor::from_lookup(Ok(std::path::PathBuf::from("/usr/bin/steamcmd")), Some(7));
    let mut s = r.ok().unwrap();
    assert_eq!(s.history_capacity(), 7);
    assert_eq!(s.queue_capacity(), 7);
    assert_eq!(s.path(), &std::path::PathBuf::from("/usr/bin/steamcmd"));
    assert!(s.get_last_lines().is_empty());
    let mut rx = s.subscribe();
    s.publish_lines(vec!["hi\n".to_string()]);
    assert_eq!(rx.try_recv().unwrap(), "hi\n");
    assert_eq!(s.get_last_lines(), vec!["hi\n".to_string()]);
}

#[test]
fn supervisor_history_is_suffix_of_what_a_subscriber_saw() {
    let mut s = Supervisor::from_lookup(Ok(std::path::PathBuf::from("steamcmd")), Some(3)).ok().unwrap();
    let _slow = s.subscribe();
    let mut rx = s.subscribe();
    let lines: Vec<String> = (0..8).map(|i| format!("{}\n", i)).collect();
    let mut seen = Vec::new();
    for pair in lines.chunks(2) {
        s.publish_lines(pair.to_vec());
        while let Ok(l) = rx.try_recv() {
            seen.push(l);
        }
    }
    assert_eq!(seen, lines);
    assert_eq!(s.get_last_lines(), lines[5..].to_vec());
}

#[test]
fn create_fails_only_with_command_not_found() {
    match Supervisor::create(None) {
        Ok(s) => assert_eq!(s.history_capacity(), DEFAULT_HISTORY_CAPACITY),
        Err(e) => assert_eq!(e, SteamCmdError::CommandNotFound),
    }
}

#[test]
fn default_capacity_is_two_hundred() {
    assert_eq!(history_capacity_or_default(None), 200);
    assert_eq!(history_capacity_or_default(Some(3)), 3);
}

#[test]
fn missing_pipe_fails_to_start() {
    assert_eq!(take_pipes(Some(1), Some(2)), Ok((1, 2)));
    assert_eq!(take_pipes::<i32, i32>(None, Some(2)), Err(SteamCmdError::FailedToStart));
    assert_eq!(take_pipes::<i32, i32>(Some(1), None), Err(SteamCmdError::FailedToStart));
}

#[test]
fn error_messages() {
    assert_eq!(SteamCmdError::CommandNotFound.message(), "steamcmd not found");
    assert_eq!(SteamCmdError::FailedToStart.message(), "Failed to start steamcmd process");
    assert_eq!(AuthError::Forbidden.message(), "Admin access required");
    assert_eq!(
        SchemaValidationError::InvalidFieldValue("port".to_string(), "bad".to_string()).message(),
        "Invalid value for field 'port': bad"
    );
    assert_eq!(
        SchemaValidationError::MissingField("name".to_string()).message(),
        "Missing required field: name"
    );
}

#[test]
fn role_codes() {
    assert_eq!(UserRole::from_code(1), Ok(UserRole::Admin));
    assert_eq!(UserRole::from_code(2), Ok(UserRole::Moderator));
    assert_eq!(UserRole::from_code(3), Err(AuthError::InvalidRole));
    assert_eq!(UserRole::Moderator.code(), 2);
}

#[test]
fn secret_is_set_once() {
    let mut slot = JwtSecret::new();
    assert_eq!(get_secret(&slot), "dev-secret-change-in-production");
    set_jwt_secret(&mut slot, "first".to_string());
    set_jwt_secret(&mut slot, "second".to_string());
    assert_eq!(get_secret(&slot), "first");
}

fn claims(token_type: TokenType, role: UserRole) -> TokenClaims {
    TokenClaims { sub: 9, username: "ann".to_string(), role, exp: 100, iat: 10, token_type }
}

#[test]
fn guards_check_token_type_and_role() {
    let g = AccessTokenGuard::from_claims(claims(TokenType::Access, UserRole::Moderator)).ok().unwrap();
    assert_eq!(g.user_id, 9);
    assert!(matches!(
        AccessTokenGuard::from_claims(claims(TokenType::Refresh, UserRole::Admin)),
        Err(AuthError::InvalidTokenType)
    ));
    assert!(RefreshTokenGuard::from_claims(claims(TokenType::Refresh, UserRole::Admin)).is_ok());
    assert!(matches!(AdminGuard::from_access(g), Err(AuthError::Forbidden)));
    let a = AccessTokenGuard::from_claims(claims(TokenType::Access, UserRole::Admin)).ok().unwrap();
    assert_eq!(AdminGuard::from_access(a).ok().unwrap().username, "ann");
    let m = AccessTokenGuard::from_claims(claims(TokenType::Access, UserRole::Moderator)).ok().unwrap();
    assert_eq!(ModeratorGuard::from_access(m).ok().unwrap().role, UserRole::Moderator);
}

#[test]
fn auth_response_holds_its_parts() {
    let r = AuthResponse::new("a".to_string(), 3, "bob".to_string(), "r".to_string());
    assert_eq!((r.access_token.as_str(), r.user_id, r.username.as_str(), r.refresh_token.as_str()), ("a", 3, "bob", "r"));
}

#[test]
fn schema_version_default() {
    assert_eq!(default_schema_version(), "1.0.0");
}

#[test]
fn claims_expire_one_lifetime_after_issue() {
    let c = TokenClaims::issued_at(4, "eve".to_string(), UserRole::Admin, TokenType::Refresh, 1000);
    assert_eq!((c.sub, c.iat, c.exp, c.token_type), (4, 1000, 1000 + 604800, TokenType::Refresh));
    let a = TokenClaims::access_token(5, "joe".to_string(), UserRole::Moderator, 1_700_000_000);
    assert_eq!((a.iat, a.exp), (1_700_000_000, 1_700_000_900));
    assert_eq!(a.token_type, TokenType::Access);
    let r = TokenClaims::refresh_token(5, "joe".to_string(), UserRole::Moderator, -60);
    assert_eq!((r.iat, r.exp), (-60, 7 * 24 * 3600 - 60));
    assert_eq!(r.username, "joe");
}
