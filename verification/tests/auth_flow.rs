use ddmw_client::auth::Auth;
use ddmw_client::auth::AuthEvent;
use ddmw_client::auth::AuthFlow;
use ddmw_client::auth::AuthStep;
use ddmw_client::auth::FileRead;
use ddmw_client::Error;

fn empty_auth() -> Auth {
    Auth { name: None, pass_file: None, pass: None, token_file: None, token: None }
}

/// An inline token takes priority: with both an inline token and a token
/// file configured, the first step is the token-bearing request itself and
/// the token file is never asked for.
#[test]
fn inline_token_priority() {
    let auth = Auth {
        token: Some("T".to_string()),
        token_file: Some("/tmp/tokens".to_string()),
        ..empty_auth()
    };
    let (_flow, step) = AuthFlow::begin(auth);
    match step.unwrap() {
        AuthStep::Send(tg) => {
            assert_eq!(tg.get_topic(), "Auth");
            assert_eq!(tg.get_str("Tkn"), Some("T"));
            assert_eq!(tg.num_params(), 1);
        },
        _ => panic!("expected the token request as the first step"),
    }
}

/// A missing token file with no account name fails with invalid credentials
/// before any request is sent.
#[test]
fn missing_token_file_without_account_fails_early() {
    let auth = Auth { token_file: Some("/tmp/tokens".to_string()), ..empty_auth() };
    let (mut flow, step) = AuthFlow::begin(auth);
    match step.unwrap() {
        AuthStep::ReadTokenFile(path) => assert_eq!(path, "/tmp/tokens"),
        _ => panic!("expected the token file probe as the first step"),
    }
    let r = flow.on_event(AuthEvent::FileRead(FileRead::Missing));
    assert!(matches!(r, Err(Error::InvalidCredentials(_))));
}

/// Authenticating with account and passphrase while requesting a token:
/// the issued token is written to the configured file and reported.
#[test]
fn account_auth_persists_issued_token() {
    let auth = Auth {
        name: Some("frank".to_string()),
        pass: Some("secret".to_string()),
        token_file: Some("/tmp/tokens".to_string()),
        ..empty_auth()
    };
    let (mut flow, step) = AuthFlow::begin(auth);
    match step.unwrap() {
        AuthStep::ReadTokenFile(path) => assert_eq!(path, "/tmp/tokens"),
        _ => panic!("expected the token file probe as the first step"),
    }
    let step = flow.on_event(AuthEvent::FileRead(FileRead::Missing)).unwrap();
    match step {
        AuthStep::Send(tg) => {
            assert_eq!(tg.get_topic(), "Auth");
            assert_eq!(tg.get_str("AccName"), Some("frank"));
            assert_eq!(tg.get_str("Pass"), Some("secret"));
            assert_eq!(tg.get_str("ReqTkn"), Some("True"));
        },
        _ => panic!("expected the account request after the missing probe"),
    }
    let mut reply = blather::Params::new();
    reply.add_str("Tkn", "ABC123").unwrap();
    let step = flow.on_event(AuthEvent::Reply(Ok(reply))).unwrap();
    match step {
        AuthStep::WriteTokenFile { path, token } => {
            assert_eq!(path, "/tmp/tokens");
            assert_eq!(token, "ABC123");
        },
        _ => panic!("expected the token file write as the next step"),
    }
    let step = flow.on_event(AuthEvent::WriteDone(Ok(()))).unwrap();
    match step {
        AuthStep::Done(t) => assert_eq!(t, Some("ABC123".to_string())),
        _ => panic!("expected completion"),
    }
}

/// A token-bearing authentication never yields a new token.
#[test]
fn token_auth_yields_no_token() {
    let auth = Auth { token: Some("T1".to_string()), ..empty_auth() };
    let (mut flow, step) = AuthFlow::begin(auth);
    assert!(matches!(step.unwrap(), AuthStep::Send(_)));
    let step = flow.on_event(AuthEvent::Reply(Ok(blather::Params::new()))).unwrap();
    assert!(matches!(step, AuthStep::Done(None)));
}

/// A failed token file write fails the handshake with the write's error.
#[test]
fn failed_token_write_fails_handshake() {
    let auth = Auth {
        name: Some("frank".to_string()),
        pass: Some("secret".to_string()),
        token_file: Some("/tmp/tokens".to_string()),
        ..empty_auth()
    };
    let (mut flow, _step) = AuthFlow::begin(auth);
    flow.on_event(AuthEvent::FileRead(FileRead::Missing)).unwrap();
    let mut reply = blather::Params::new();
    reply.add_str("Tkn", "ABC123").unwrap();
    flow.on_event(AuthEvent::Reply(Ok(reply))).unwrap();
    let r = flow.on_event(AuthEvent::WriteDone(Err(Error::IO("disk full".to_string()))));
    assert!(matches!(r, Err(Error::IO(_))));
}

/// A file-backed passphrase is read on demand; an unreadable file is an
/// invalid-credentials error.
#[test]
fn pass_file_paths() {
    let auth = Auth {
        name: Some("frank".to_string()),
        pass_file: Some("/tmp/pass".to_string()),
        ..empty_auth()
    };
    let (mut flow, step) = AuthFlow::begin(auth);
    match step.unwrap() {
        AuthStep::ReadPassFile(path) => assert_eq!(path, "/tmp/pass"),
        _ => panic!("expected the passphrase file read as the first step"),
    }
    let step = flow.on_event(AuthEvent::FileRead(FileRead::Line("hunter2".to_string()))).unwrap();
    match step {
        AuthStep::Send(tg) => {
            assert_eq!(tg.get_str("Pass"), Some("hunter2"));
            assert_eq!(tg.get_str("ReqTkn"), None);
        },
        _ => panic!("expected the account request"),
    }

    let auth = Auth {
        name: Some("frank".to_string()),
        pass_file: Some("/tmp/pass".to_string()),
        ..empty_auth()
    };
    let (mut flow, _step) = AuthFlow::begin(auth);
    let r = flow.on_event(AuthEvent::FileRead(FileRead::Unreadable));
    assert!(matches!(r, Err(Error::InvalidCredentials(_))));
}

/// With no credentials at all there is no remaining strategy.
#[test]
fn no_credentials_is_invalid() {
    let (_flow, step) = AuthFlow::begin(empty_auth());
    assert!(matches!(step, Err(Error::InvalidCredentials(_))));
}

#[test]
fn get_pass_resolution() {
    let auth = Auth { pass: Some("p".to_string()), ..empty_auth() };
    assert_eq!(auth.get_pass(None).unwrap(), "p");

    let auth = Auth { pass_file: Some("/tmp/pass".to_string()), ..empty_auth() };
    assert_eq!(auth.get_pass(Some("from-file")).unwrap(), "from-file");
    assert!(matches!(auth.get_pass(None), Err(Error::InvalidCredentials(_))));

    let auth = empty_auth();
    assert!(matches!(auth.get_pass(None), Err(Error::InvalidCredentials(_))));
}

#[test]
fn get_token_resolution() {
    let auth = Auth { token: Some("T".to_string()), ..empty_auth() };
    assert_eq!(auth.get_token(None).unwrap(), Some("T".to_string()));

    let auth = Auth { token_file: Some("/tmp/tok".to_string()), ..empty_auth() };
    let r = auth.get_token(Some(&FileRead::Line("T2".to_string())));
    assert_eq!(r.unwrap(), Some("T2".to_string()));
    let r = auth.get_token(Some(&FileRead::Unreadable));
    assert!(matches!(r, Err(Error::InvalidCredentials(_))));
    let r = auth.get_token(Some(&FileRead::Missing));
    assert!(matches!(r, Err(Error::InvalidCredentials(_))));

    let auth = Auth {
        name: Some("frank".to_string()),
        pass: Some("p".to_string()),
        token_file: Some("/tmp/tok".to_string()),
        ..empty_auth()
    };
    assert_eq!(auth.get_token(Some(&FileRead::Missing)).unwrap(), None);

    let auth = empty_auth();
    assert_eq!(auth.get_token(None).unwrap(), None);
}

#[test]
fn have_pass_reads_both_fields() {
    assert!(!empty_auth().have_pass());
    assert!(Auth { pass: Some("p".to_string()), ..empty_auth() }.have_pass());
    assert!(Auth { pass_file: Some("f".to_string()), ..empty_auth() }.have_pass());
}

#[test]
fn unauth_request_shape() {
    let tg = ddmw_client::auth::unauth_request().unwrap();
    assert_eq!(tg.get_topic(), "Unauth");
    assert_eq!(tg.num_params(), 0);
}
