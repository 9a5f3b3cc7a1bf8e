//! The client facades over a real transport handle. No service listens at
//! the addresses used here, so every exchange fails at the transport and
//! must surface as exactly that error kind.

use goji::Credentials;
use goji::Error;
use goji::Issues;
use goji::Jira;
use goji::LoginCredentials;
use goji::Session;

fn local_client() -> Jira {
    let creds = Credentials::Basic(String::from("alice"), String::from("secret"));
    Jira::new(String::from("http://127.0.0.1:9"), creds).unwrap()
}

#[test]
fn unreachable_host_is_a_transport_error_on_lookup() {
    let jira = local_client();
    let r = jira.issues().get("PROJ-1");
    assert!(matches!(r, Err(Error::Transport(_))));
}

#[test]
fn unreachable_host_is_a_transport_error_on_assignment() {
    let jira = local_client();
    let issues = Issues::new(&jira);
    let r = issues.assign("PROJ-1", "bob");
    assert!(matches!(r, Err(Error::Transport(_))));
}

#[test]
fn unreachable_host_is_a_transport_error_on_session_calls() {
    let jira = local_client();
    let session = Session::new(&jira);
    let creds = LoginCredentials {
        username: String::from("alice"),
        password: String::from("secret"),
    };
    assert!(matches!(session.login(creds), Err(Error::Transport(_))));
    assert!(matches!(session.logout(), Err(Error::Transport(_))));
    assert!(matches!(session.current_user(), Err(Error::Transport(_))));
}

#[test]
fn cookie_client_builds_from_a_caller_transport() {
    let client = reqwest::blocking::Client::builder().build().unwrap();
    let creds = Credentials::Cookie(String::from("ABC123"));
    let jira = Jira::from_client(String::from("http://127.0.0.1:9"), creds, client).unwrap();
    let r = jira.issues().get("PROJ-1");
    assert!(matches!(r, Err(Error::Transport(_))));
}
