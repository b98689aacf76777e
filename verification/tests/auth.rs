use mistserver_rs::auth::{
    challenge_command, password_command, standalone_challenge_command, AuthEvent, AuthFlow, AuthResponse, AuthResult,
    AuthStatus,
};
use mistserver_rs::commands::{AuthCredentials, AuthorizeCommand};
use mistserver_rs::digest::compute_auth_hash;
use mistserver_rs::MistError;

#[test]
fn auth_response_needs_challenge() {
    let response = AuthResponse {
        status: Some(AuthStatus::Chall),
        challenge: Some("abc".into()),
    };

    assert!(response.needs_challenge());
}

#[test]
fn auth_response_does_not_need_challenge() {
    let response = AuthResponse {
        status: Some(AuthStatus::Okay),
        challenge: None,
    };

    assert!(!response.needs_challenge());
}

#[test]
fn auth_result_not_required_has_no_challenge() {
    let result = AuthResult::NotRequired;

    assert!(!result.needs_challenge());
    assert_eq!(result.challenge(), None);
}

#[test]
fn auth_result_chall_needs_challenge() {
    let result = AuthResult::Required(AuthResponse {
        status: Some(AuthStatus::Chall),
        challenge: Some("challenge".into()),
    });

    assert!(result.needs_challenge());
    assert_eq!(result.challenge(), Some("challenge".into()));
}

#[test]
fn auth_result_ok_does_not_need_challenge() {
    let result = AuthResult::Required(AuthResponse {
        status: Some(AuthStatus::Okay),
        challenge: Some("challenge".into()),
    });

    assert!(!result.needs_challenge());
    assert_eq!(result.challenge(), None);
}

#[test]
fn auth_result_without_status_does_not_need_challenge() {
    let result = AuthResult::Required(AuthResponse {
        status: None,
        challenge: Some("challenge".into()),
    });

    assert!(!result.needs_challenge());
    assert_eq!(result.challenge(), None);
}

#[test]
fn computes_expected_auth_hash() {
    let hash = compute_auth_hash("password", "challenge_str");

    let password_hash = format!("{:x}", md5::compute("password".as_bytes()));

    let expected = format!(
        "{:x}",
        md5::compute(format!("{password_hash}challenge_str").as_bytes())
    );

    assert_eq!(hash, expected);
}

#[test]
fn compute_auth_hash_returns_expected_hash() {
    let hash = compute_auth_hash("password", "challenge");

    let password_hash = format!("{:x}", md5::compute("password"));
    let expected = format!("{:x}", md5::compute(format!("{password_hash}challenge")));

    assert_eq!(hash, expected);
}

#[test]
fn auth_hash_known_value_and_shape() {
    // md5("") is d41d8cd98f00b204e9800998ecf8427e; the answer hashes that text.
    let expected = format!("{:x}", md5::compute("d41d8cd98f00b204e9800998ecf8427e"));
    let hash = compute_auth_hash("", "");
    assert_eq!(hash, expected);
    assert_eq!(hash.len(), 32);
    assert!(hash.chars().all(|c| c.is_ascii_digit() || ('a'..='f').contains(&c)));
    assert_ne!(compute_auth_hash("password", "a"), compute_auth_hash("password", "b"));
}

#[test]
fn password_command_sends_credentials_as_they_are() {
    let auth = Some(("admin".to_string(), "password".to_string()));
    let command = password_command(&auth).unwrap();
    assert_eq!(command.authorize.username, "admin");
    assert_eq!(command.authorize.password, "password");
    assert_eq!(password_command(&None), None);
}

#[test]
fn challenge_command_without_credentials_is_an_error() {
    match challenge_command(&None, "challenge") {
        Err(MistError::Auth(message)) => assert_eq!(
            message,
            "authentication is not configured but trying to perform auth challenge"
        ),
        other => panic!("expected an authentication error, got {other:?}"),
    }
}

#[test]
fn challenge_command_answers_with_hash() {
    let auth = Some(("admin".to_string(), "password".to_string()));
    let command = challenge_command(&auth, "challenge_str").unwrap();
    assert_eq!(command.authorize.username, "admin");
    assert_eq!(
        command.authorize.password,
        compute_auth_hash("password", "challenge_str")
    );
}

#[test]
fn login_without_credentials_sends_nothing() {
    let (flow, request) = AuthFlow::new(None).step(AuthEvent::Begin);
    assert_eq!(request, None);
    assert_eq!(flow, AuthFlow::Finished(AuthResult::NotRequired));
}

#[test]
fn login_with_challenge_sends_two_commands_then_stops() {
    let flow = AuthFlow::new(Some(("admin".to_string(), "password".to_string())));
    let (flow, first) = flow.step(AuthEvent::Begin);
    assert_eq!(
        first,
        Some(AuthorizeCommand::new(AuthCredentials {
            username: "admin".into(),
            password: "password".into(),
        }))
    );

    let challenge_reply = AuthResponse {
        status: Some(AuthStatus::Chall),
        challenge: Some("challenge_str".into()),
    };
    let (flow, second) = flow.step(AuthEvent::Replied(challenge_reply));
    let second = second.unwrap();
    assert_eq!(second.authorize.username, "admin");
    assert_eq!(
        second.authorize.password,
        compute_auth_hash("password", "challenge_str")
    );
    assert_eq!(flow, AuthFlow::AwaitingChallengeReply);

    let ok_reply = AuthResponse {
        status: Some(AuthStatus::Okay),
        challenge: None,
    };
    let (flow, third) = flow.step(AuthEvent::Replied(ok_reply.clone()));
    assert_eq!(third, None);
    assert_eq!(flow, AuthFlow::Finished(AuthResult::Required(ok_reply)));

    let (again, nothing) = flow.clone().step(AuthEvent::Begin);
    assert_eq!(again, flow);
    assert_eq!(nothing, None);
}

#[test]
fn login_without_challenge_ends_after_password_reply() {
    let flow = AuthFlow::new(Some(("admin".to_string(), "password".to_string())));
    let (flow, _) = flow.step(AuthEvent::Begin);
    // A Chall status without a challenge gives nothing to answer.
    let reply = AuthResponse {
        status: Some(AuthStatus::Chall),
        challenge: None,
    };
    let (flow, request) = flow.step(AuthEvent::Replied(reply.clone()));
    assert_eq!(request, None);
    assert_eq!(flow, AuthFlow::Finished(AuthResult::Required(reply)));
}

#[test]
fn login_ignores_a_reply_before_it_starts() {
    let start = AuthFlow::new(None);
    let reply = AuthResponse {
        status: Some(AuthStatus::Okay),
        challenge: None,
    };
    let (flow, request) = start.clone().step(AuthEvent::Replied(reply));
    assert_eq!(flow, start);
    assert_eq!(request, None);
}

#[test]
fn standalone_challenge_without_credentials_says_not_configured() {
    match standalone_challenge_command(&None, "challenge_str") {
        Err(MistError::Auth(message)) => assert_eq!(message, "authentication is not configured"),
        other => panic!("expected an authentication error, got {other:?}"),
    }
    let auth = Some(("admin".to_string(), "password".to_string()));
    let command = standalone_challenge_command(&auth, "challenge_str").unwrap();
    assert_eq!(command.authorize.username, "admin");
    assert_eq!(
        command.authorize.password,
        compute_auth_hash("password", "challenge_str")
    );
    assert_eq!(command.authorize.password.len(), 32);
}
