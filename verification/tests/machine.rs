use sftp_gateway::config::AppConfig;
use sftp_gateway::config::SftpServerConfig;
use sftp_gateway::errors::RemoteFileError;
use sftp_gateway::errors::SftpClientError;
use sftp_gateway::gateway::Action;
use sftp_gateway::gateway::Event;
use sftp_gateway::gateway::Phase;
use sftp_gateway::gateway::get_remote_file;
use sftp_gateway::gateway::start_request;

fn test_config() -> AppConfig {
    AppConfig {
        port: 3000,
        sftp: SftpServerConfig {
            host: String::from("files.example.net"),
            port: 22,
            username: String::from("anonymous"),
            password: String::from("swordfish"),
            path: String::from("/srv/files"),
        },
    }
}

#[test]
fn plain_request_walks_the_whole_pipeline() {
    let config = test_config();
    let (mut m, action) = start_request("foo.txt", &config);
    assert!(matches!(action, Action::Connect));
    assert_eq!(m.phase, Phase::Connect);
    assert_eq!(m.remote_path, "/srv/files/foo.txt");
    assert_eq!(m.download_name, "foo.txt");
    assert!(!m.compress);

    assert!(matches!(m.step(Event::Connected), Action::Authenticate));
    assert!(matches!(m.step(Event::AuthAccepted), Action::OpenChannel));
    assert!(matches!(m.step(Event::ChannelOpened), Action::RequestSubsystem));
    assert!(matches!(m.step(Event::SubsystemStarted), Action::InitSftp));
    assert!(matches!(m.step(Event::SftpReady), Action::Stat));
    assert!(matches!(m.step(Event::StatRegular), Action::Open));
    assert!(matches!(m.step(Event::Opened), Action::Stream));
    assert_eq!(m.phase, Phase::Stream);
    assert_eq!(m.remote_path, "/srv/files/foo.txt");
    assert_eq!(m.download_name, "foo.txt");
    assert!(!m.compress);
}

#[test]
fn bz2_request_fetches_stripped_name_and_compresses() {
    let config = test_config();
    let (m, action) = start_request("foo.txt.bz2", &config);
    assert!(matches!(action, Action::Connect));
    assert_eq!(m.remote_path, "/srv/files/foo.txt");
    assert_eq!(m.download_name, "foo.txt.bz2");
    assert!(m.compress);
}

#[test]
fn traversal_request_fails_before_any_remote_step() {
    let config = test_config();
    let (m, action) = start_request("../../etc/passwd", &config);
    assert_eq!(m.phase, Phase::Done);
    let err = match action {
        Action::Fail(e) => e,
        other => panic!("expected a failure action, got {:?}", other),
    };
    assert!(matches!(err, RemoteFileError::PathTraversal));
    let resp = err.into_response();
    assert_eq!(resp.status, 400);
    assert_eq!(resp.message, "Request contains path traversal");
}

#[test]
fn traversal_hidden_behind_bz2_suffix_is_still_refused() {
    let config = test_config();
    let (m, action) = start_request("x/...bz2", &config);
    assert_eq!(m.phase, Phase::Done);
    assert!(matches!(action, Action::Fail(RemoteFileError::PathTraversal)));
}

#[test]
fn absent_file_yields_404() {
    let config = test_config();
    let (mut m, _) = get_remote_file("missing.txt", &config);
    m.step(Event::Connected);
    m.step(Event::AuthAccepted);
    m.step(Event::ChannelOpened);
    m.step(Event::SubsystemStarted);
    m.step(Event::SftpReady);
    let action = m.step(Event::StatNoSuchFile);
    assert_eq!(m.phase, Phase::Done);
    let err = match action {
        Action::Fail(e) => e,
        other => panic!("expected a failure action, got {:?}", other),
    };
    let resp = err.into_response();
    assert_eq!(resp.status, 404);
    assert_eq!(resp.message, "File not found");
}

#[test]
fn directory_target_yields_the_same_404() {
    let config = test_config();
    let (mut m, _) = get_remote_file("some/dir", &config);
    m.step(Event::Connected);
    m.step(Event::AuthAccepted);
    m.step(Event::ChannelOpened);
    m.step(Event::SubsystemStarted);
    m.step(Event::SftpReady);
    let action = m.step(Event::StatNotRegular);
    let err = match action {
        Action::Fail(e) => e,
        other => panic!("expected a failure action, got {:?}", other),
    };
    let resp = err.into_response();
    assert_eq!(resp.status, 404);
    assert_eq!(resp.message, "File not found");
}

#[test]
fn auth_failure_is_a_distinguishable_500() {
    let config = test_config();
    let (mut m, _) = get_remote_file("foo.txt", &config);
    m.step(Event::Connected);
    let action = m.step(Event::AuthRejected);
    let auth_err = match action {
        Action::Fail(e) => e,
        other => panic!("expected a failure action, got {:?}", other),
    };
    let auth_resp = auth_err.into_response();
    assert_eq!(auth_resp.status, 500);
    assert_eq!(auth_resp.message, "failed to authenticate to remote server");

    let (mut m2, _) = get_remote_file("foo.txt", &config);
    let action2 = m2.step(Event::ConnectFailed(String::from("connection refused")));
    let conn_err = match action2 {
        Action::Fail(e) => e,
        other => panic!("expected a failure action, got {:?}", other),
    };
    let conn_resp = conn_err.into_response();
    assert_eq!(conn_resp.status, 500);
    assert_eq!(conn_resp.message, "ssh error: connection refused");
    assert_ne!(auth_resp.message, conn_resp.message);
}

#[test]
fn auth_exchange_error_counts_as_auth_failure() {
    let config = test_config();
    let (mut m, _) = get_remote_file("foo.txt", &config);
    m.step(Event::Connected);
    let action = m.step(Event::AuthError(String::from("keyboard-interactive refused")));
    assert!(matches!(
        action,
        Action::Fail(RemoteFileError::SftpClientError(SftpClientError::SshAuthFailure))
    ));
}

#[test]
fn sftp_negotiation_failures_are_500s() {
    let config = test_config();
    let (mut m, _) = get_remote_file("foo.txt", &config);
    m.step(Event::Connected);
    m.step(Event::AuthAccepted);
    m.step(Event::ChannelOpened);
    m.step(Event::SubsystemStarted);
    let action = m.step(Event::SftpInitFailed(String::from("bad packet")));
    let err = match action {
        Action::Fail(e) => e,
        other => panic!("expected a failure action, got {:?}", other),
    };
    let resp = err.into_response();
    assert_eq!(resp.status, 500);
    assert_eq!(resp.message, "sftp error: bad packet");
}

#[test]
fn open_failure_is_a_diagnostic_500() {
    let config = test_config();
    let (mut m, _) = get_remote_file("foo.txt", &config);
    m.step(Event::Connected);
    m.step(Event::AuthAccepted);
    m.step(Event::ChannelOpened);
    m.step(Event::SubsystemStarted);
    m.step(Event::SftpReady);
    m.step(Event::StatRegular);
    let action = m.step(Event::OpenFailed(String::from("permission denied")));
    let err = match action {
        Action::Fail(e) => e,
        other => panic!("expected a failure action, got {:?}", other),
    };
    let resp = err.into_response();
    assert_eq!(resp.status, 500);
    assert_eq!(resp.message, "Error accessing file: permission denied");
}

#[test]
fn error_mapper_is_total_over_the_taxonomy() {
    let cases: Vec<(RemoteFileError, u16)> = vec![
        (RemoteFileError::PathTraversal, 400),
        (
            RemoteFileError::SftpClientError(SftpClientError::SshError(String::from("x"))),
            500,
        ),
        (RemoteFileError::SftpClientError(SftpClientError::SshAuthFailure), 500),
        (
            RemoteFileError::SftpClientError(SftpClientError::SftpError(String::from("y"))),
            500,
        ),
        (RemoteFileError::FileNotFound, 404),
        (RemoteFileError::FileAccessError(String::from("z")), 500),
    ];
    for (err, status) in cases {
        let resp = err.into_response();
        assert_eq!(resp.status, status);
        assert!(!resp.message.is_empty());
    }
}

#[test]
fn session_error_converts_into_remote_file_error() {
    let e = RemoteFileError::from(SftpClientError::SshAuthFailure);
    assert!(matches!(
        e,
        RemoteFileError::SftpClientError(SftpClientError::SshAuthFailure)
    ));
}

#[test]
fn client_error_messages_name_their_layer() {
    assert_eq!(
        SftpClientError::SshError(String::from("timed out")).message(),
        "ssh error: timed out"
    );
    assert_eq!(
        SftpClientError::SftpError(String::from("bad handle")).message(),
        "sftp error: bad handle"
    );
}
