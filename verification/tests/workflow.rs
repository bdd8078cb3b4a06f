use mhf_launcher::controller::EmptyResponse;
use mhf_launcher::controller::MhfLauncher;
use mhf_launcher::controller::MhfState;
use mhf_launcher::session::AuthData;
use mhf_launcher::session::Character;
use mhf_launcher::session::User;
use mhf_launcher::transport::Host;
use mhf_launcher::transport::ResponseOutcome;

fn chr(id: u32, name: &str) -> Character {
    Character {
        id,
        name: name.to_owned(),
        is_new: false,
        is_female: false,
        weapon: 0,
        hr: 1,
        gr: 0,
        last_login: 0,
    }
}

fn session_with(characters: Vec<Character>) -> AuthData {
    AuthData {
        current_ts: 100,
        expiry_ts: 200,
        entrance_count: 3,
        notifications: vec!["hi".to_owned()],
        user: User { rights: 1, token: "T".to_owned() },
        characters,
        mez_fes: None,
    }
}

#[test]
fn login_success_replaces_session_wholesale() {
    let mut launcher = MhfLauncher::default();
    // A prior session left behind by an earlier login.
    launcher.state = MhfState::Character;
    launcher.auth_data = session_with(vec![chr(42, "Old")]);
    launcher.auth_data.notifications = vec!["stale".to_owned()];
    launcher.logout();

    let fresh = AuthData {
        current_ts: 7,
        expiry_ts: 8,
        entrance_count: 9,
        notifications: vec![],
        user: User { rights: 2, token: "NEW".to_owned() },
        characters: vec![chr(1, "X")],
        mez_fes: None,
    };
    launcher.login(ResponseOutcome::Decoded(fresh));
    assert!(matches!(launcher.state, MhfState::Character));
    assert!(launcher.error_message.is_none());
    // Nothing of the prior session remains.
    assert_eq!(launcher.auth_data.current_ts, 7);
    assert_eq!(launcher.auth_data.expiry_ts, 8);
    assert_eq!(launcher.auth_data.entrance_count, 9);
    assert!(launcher.auth_data.notifications.is_empty());
    assert_eq!(launcher.auth_data.user.rights, 2);
    assert_eq!(launcher.auth_data.user.token, "NEW");
    assert_eq!(launcher.auth_data.characters.len(), 1);
    assert_eq!(launcher.auth_data.characters[0].id, 1);
}

#[test]
fn failed_login_keeps_session_and_sets_nonempty_error() {
    let mut launcher = MhfLauncher::default();
    launcher.state = MhfState::Character;
    launcher.auth_data = session_with(vec![chr(1, "X")]);
    launcher.logout();

    launcher.login(ResponseOutcome::ConnectFailure);
    assert!(matches!(launcher.state, MhfState::Login));
    let msg = launcher.error_message.as_deref().expect("error must be set");
    assert!(!msg.is_empty());
    assert_eq!(msg, "Failed to connect to server");
    // Session untouched by the failure.
    assert_eq!(launcher.auth_data.characters.len(), 1);
    assert_eq!(launcher.auth_data.user.token, "T");
}

#[test]
fn failed_register_keeps_session_and_surfaces_server_body() {
    let mut launcher = MhfLauncher::default();
    launcher.register(ResponseOutcome::ServerError("user exists".to_owned()));
    assert!(matches!(launcher.state, MhfState::Login));
    assert_eq!(launcher.error_message.as_deref(), Some("user exists"));
    assert!(launcher.auth_data.characters.is_empty());
}

#[test]
fn server_error_with_empty_body_gets_generic_message() {
    let mut launcher = MhfLauncher::default();
    launcher.login(ResponseOutcome::ServerError(String::new()));
    assert_eq!(
        launcher.error_message.as_deref(),
        Some("Unable to connect to server, try again later")
    );
}

#[test]
fn decode_failure_message_carries_detail() {
    let mut launcher = MhfLauncher::default();
    launcher.login(ResponseOutcome::DecodeFailure("missing field `user`".to_owned()));
    assert_eq!(
        launcher.error_message.as_deref(),
        Some("Failed to decode JSON response: missing field `user`")
    );
}

#[test]
fn create_character_appends_and_reports_index() {
    let mut launcher = MhfLauncher::default();
    launcher.state = MhfState::Character;
    launcher.auth_data = session_with(vec![chr(1, "X")]);
    let index = launcher.create_character(ResponseOutcome::Decoded(chr(2, "Y")));
    assert_eq!(index, Some(1));
    assert_eq!(launcher.auth_data.characters.len(), 2);
    assert_eq!(launcher.auth_data.characters[1].id, 2);
    assert!(launcher.error_message.is_none());
}

#[test]
fn failed_create_changes_nothing_but_error() {
    let mut launcher = MhfLauncher::default();
    launcher.state = MhfState::Character;
    launcher.auth_data = session_with(vec![chr(1, "X")]);
    let index = launcher.create_character(ResponseOutcome::ConnectFailure);
    assert_eq!(index, None);
    assert_eq!(launcher.auth_data.characters.len(), 1);
    assert!(launcher.error_message.is_some());
}

#[test]
fn delete_success_removes_character_order_preserved() {
    // A delete answered with the empty success object removes exactly that
    // character from a two-character session.
    let mut launcher = MhfLauncher::default();
    launcher.state = MhfState::Character;
    launcher.auth_data = session_with(vec![chr(1, "X"), chr(2, "Y")]);
    launcher.delete_character(1, ResponseOutcome::Decoded(EmptyResponse {}));
    assert!(launcher.error_message.is_none());
    assert_eq!(launcher.auth_data.characters.len(), 1);
    assert_eq!(launcher.auth_data.characters[0].id, 2);
    assert_eq!(launcher.auth_data.characters[0].name, "Y");
}

#[test]
fn failed_delete_keeps_session() {
    let mut launcher = MhfLauncher::default();
    launcher.state = MhfState::Character;
    launcher.auth_data = session_with(vec![chr(1, "X"), chr(2, "Y")]);
    launcher.delete_character(1, ResponseOutcome::ServerError("nope".to_owned()));
    assert_eq!(launcher.error_message.as_deref(), Some("nope"));
    assert_eq!(launcher.auth_data.characters.len(), 2);
}

#[test]
fn logout_clears_error_keeps_session() {
    let mut launcher = MhfLauncher::default();
    launcher.state = MhfState::Character;
    launcher.auth_data = session_with(vec![chr(1, "X")]);
    launcher.delete_character(1, ResponseOutcome::ConnectFailure);
    assert!(launcher.error_message.is_some());
    launcher.logout();
    assert!(matches!(launcher.state, MhfState::Login));
    assert!(launcher.error_message.is_none());
    // The observed behaviour: session data survives logout.
    assert_eq!(launcher.auth_data.characters.len(), 1);
}

#[test]
fn host_labels_and_urls() {
    let mut launcher = MhfLauncher::default();
    assert_eq!(Host::LocalHost.label(), "Local Server");
    assert_eq!(Host::Custom.label(), "Custom");
    assert_eq!(launcher.get_host(), "http://127.0.0.1:8080");
    assert_eq!(launcher.login_url(), "http://127.0.0.1:8080/login");
    assert_eq!(launcher.register_url(), "http://127.0.0.1:8080/register");
    assert_eq!(
        launcher.create_character_url(),
        "http://127.0.0.1:8080/character/create"
    );
    assert_eq!(
        launcher.delete_character_url(),
        "http://127.0.0.1:8080/character/delete"
    );
    launcher.host = Host::Custom;
    launcher.custom_host = "https://example.net".to_owned();
    assert_eq!(launcher.get_host(), "https://example.net");
    assert_eq!(launcher.login_url(), "https://example.net/login");
}
