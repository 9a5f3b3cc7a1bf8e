//! The transition-list and search pipelines under simulated responses.

use goji::process_search;
use goji::process_transitions;
use goji::search_body;
use goji::Credentials;
use goji::Error;
use goji::Jira;

#[test]
fn transitions_round_trip() {
    let body = String::from(
        "{\"transitions\":[{\"id\":\"11\",\"name\":\"To Do\",\"hasScreen\":false},\
         {\"id\":\"21\",\"name\":\"Done\"}]}",
    );
    let ts = process_transitions(200, body).unwrap();
    assert!(ts.len() == 2);
    assert!(ts[0].id == "11");
    assert!(ts[0].name == "To Do");
    assert!(ts[1].id == "21");
    assert!(ts[1].name == "Done");
}

#[test]
fn transitions_with_empty_list() {
    let ts = process_transitions(200, String::from("{\"transitions\":[]}")).unwrap();
    assert!(ts.is_empty());
}

#[test]
fn transitions_with_malformed_element_is_decode_failure() {
    let body = String::from("{\"transitions\":[{\"id\":\"11\"}]}");
    assert!(matches!(process_transitions(200, body), Err(Error::Serde(_))));
}

#[test]
fn search_round_trip() {
    let body = String::from(
        "{\"startAt\":0,\"issues\":[{\"id\":\"10001\",\"key\":\"PROJ-1\"},\
         {\"id\":\"10002\",\"key\":\"PROJ-2\"}]}",
    );
    let found = process_search(200, body).unwrap();
    assert!(found.len() == 2);
    assert!(found[0].key == "PROJ-1");
    assert!(found[1].key == "PROJ-2");
}

#[test]
fn search_with_malformed_issue_is_decode_failure() {
    let body = String::from("{\"issues\":[{\"id\":\"10001\"}]}");
    assert!(matches!(process_search(200, body), Err(Error::Serde(_))));
}

#[test]
fn search_body_is_json_of_the_query() {
    let body = search_body("project = PROJ").unwrap();
    assert!(body == "{\"jql\":\"project = PROJ\"}");
}

#[test]
fn unreachable_host_is_a_transport_error_on_resource_calls() {
    let creds = Credentials::Cookie(String::from("ABC123"));
    let jira = Jira::new(String::from("http://127.0.0.1:9"), creds).unwrap();
    let transitions = jira.transitions(String::from("PROJ-1"));
    assert!(matches!(transitions.list(), Err(Error::Transport(_))));
    let search = jira.search();
    assert!(matches!(search.list("project = PROJ"), Err(Error::Transport(_))));
}
