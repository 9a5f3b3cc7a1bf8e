//! The response pipeline under simulated responses: classification by
//! status, strict and tolerant decoding, and header construction.

use goji::assign_body;
use goji::base64_encode;
use goji::classify_response;
use goji::header_list;
use goji::login_body;
use goji::process_current_user;
use goji::process_issue;
use goji::process_login;
use goji::process_unit;
use goji::AssignIssue;
use goji::Credentials;
use goji::Error;
use goji::LoginCredentials;

#[test]
fn base64_whole_and_partial_groups() {
    assert!(base64_encode(b"") == "");
    assert!(base64_encode(b"a") == "YQ==");
    assert!(base64_encode(b"ab") == "YWI=");
    assert!(base64_encode(b"abc") == "YWJj");
    assert!(base64_encode(b"alice:secret") == "YWxpY2U6c2VjcmV0");
}

#[test]
fn basic_credentials_headers() {
    let creds = Credentials::Basic(String::from("alice"), String::from("secret"));
    let headers = header_list(&creds);
    assert!(headers.len() == 2);
    assert!(headers[0].0 == "Authorization");
    assert!(headers[0].1 == "Basic YWxpY2U6c2VjcmV0");
    assert!(headers[1].0 == "Content-Type");
    assert!(headers[1].1 == "application/json");
}

#[test]
fn cookie_credentials_headers() {
    let creds = Credentials::Cookie(String::from("ABC123"));
    let headers = header_list(&creds);
    assert!(headers.len() == 2);
    assert!(headers[0].0 == "Cookie");
    assert!(headers[0].1 == "JSESSIONID=ABC123");
    assert!(headers[1].0 == "Content-Type");
    assert!(headers[1].1 == "application/json");
}

#[test]
fn unauthorized_ignores_malformed_body() {
    let r = classify_response(401, String::from("<html>not json at all"));
    assert!(matches!(r, Err(Error::Unauthorized)));
}

#[test]
fn client_error_with_error_collection() {
    let body = String::from(
        "{\"errorMessages\":[\"boom\",\"bust\"],\"errors\":{\"assignee\":\"unknown user\"}}",
    );
    match classify_response(400, body) {
        Err(Error::Fault { code, errors }) => {
            assert!(code == 400);
            assert!(errors.error_messages.len() == 2);
            assert!(errors.error_messages[0] == "boom");
            assert!(errors.error_messages[1] == "bust");
            assert!(errors.errors.len() == 1);
            assert!(errors.errors[0].0 == "assignee");
            assert!(errors.errors[0].1 == "unknown user");
        },
        _ => panic!("expected a fault"),
    }
}

#[test]
fn client_error_with_malformed_collection_is_fatal() {
    let r = classify_response(400, String::from("{\"oops\": 3}"));
    assert!(matches!(r, Err(Error::Serde(_))));
    let r = classify_response(404, String::from("not json"));
    assert!(matches!(r, Err(Error::Serde(_))));
}

#[test]
fn empty_body_tolerated_only_without_payload() {
    assert!(matches!(process_unit(200, String::new()), Ok(())));
    assert!(matches!(process_issue(200, String::new()), Err(Error::Serde(_))));
}

#[test]
fn assignment_tolerates_no_content_response() {
    assert!(matches!(process_unit(204, String::new()), Ok(())));
}

#[test]
fn unit_outcome_propagates_rejections() {
    assert!(matches!(process_unit(401, String::from("<html>")), Err(Error::Unauthorized)));
    let body = String::from("{\"errorMessages\":[\"no\"],\"errors\":{}}");
    match process_unit(400, body) {
        Err(Error::Fault { code, errors }) => {
            assert!(code == 400);
            assert!(errors.error_messages.len() == 1);
            assert!(errors.error_messages[0] == "no");
            assert!(errors.errors.is_empty());
        },
        _ => panic!("expected a fault"),
    }
}

#[test]
fn error_collection_with_several_field_errors() {
    let body = String::from(
        "{\"errorMessages\":[],\"errors\":{\"b\":\"second\",\"a\":\"first\"}}",
    );
    match classify_response(422, body) {
        Err(Error::Fault { code, errors }) => {
            assert!(code == 422);
            assert!(errors.error_messages.is_empty());
            assert!(errors.errors.len() == 2);
            assert!(errors.errors.iter().any(|e| e.0 == "a" && e.1 == "first"));
            assert!(errors.errors.iter().any(|e| e.0 == "b" && e.1 == "second"));
        },
        _ => panic!("expected a fault"),
    }
}

#[test]
fn issue_round_trip() {
    let body = String::from(
        "{\"id\":\"10001\",\"key\":\"PROJ-1\",\"fields\":{\"summary\":\"extra members pass by\"}}",
    );
    let issue = process_issue(200, body).unwrap();
    assert!(issue.id == "10001");
    assert!(issue.key == "PROJ-1");
}

#[test]
fn issue_with_missing_member_is_decode_failure() {
    let r = process_issue(200, String::from("{\"id\":\"10001\"}"));
    assert!(matches!(r, Err(Error::Serde(_))));
    let r = process_issue(200, String::from("{\"id\":7,\"key\":\"PROJ-1\"}"));
    assert!(matches!(r, Err(Error::Serde(_))));
}

#[test]
fn login_round_trip() {
    let body = String::from(
        "{\"session\":{\"name\":\"JSESSIONID\",\"value\":\"ABC123\"},\
         \"loginInfo\":{\"failedLoginCount\":1,\"loginCount\":42,\
         \"lastFailedLoginTime\":\"yesterday\",\"previousLoginTime\":\"today\"}}",
    );
    let login = process_login(200, body).unwrap();
    assert!(login.session.name == "JSESSIONID");
    assert!(login.session.value == "ABC123");
    assert!(login.login_info.failed_login_count == 1);
    assert!(login.login_info.login_count == 42);
    assert!(login.login_info.last_failed_login_time == "yesterday");
    assert!(login.login_info.previous_login_time == "today");
}

#[test]
fn current_user_round_trip() {
    let body = String::from(
        "{\"self\":\"http://host/rest/api/latest/user?username=alice\",\"name\":\"alice\",\
         \"loginInfo\":{\"failedLoginCount\":0,\"loginCount\":7,\
         \"lastFailedLoginTime\":\"never\",\"previousLoginTime\":\"today\"}}",
    );
    let user = process_current_user(200, body).unwrap();
    assert!(user.self_link == "http://host/rest/api/latest/user?username=alice");
    assert!(user.name == "alice");
    assert!(user.login_info.login_count == 7);
}

#[test]
fn login_decode_failure_is_serde() {
    let r = process_login(200, String::from("{\"session\":{\"name\":\"J\"}}"));
    assert!(matches!(r, Err(Error::Serde(_))));
}

#[test]
fn login_body_is_json_of_the_credentials() {
    let creds = LoginCredentials {
        username: String::from("alice"),
        password: String::from("secret"),
    };
    let body = login_body(&creds).unwrap();
    assert!(body == "{\"password\":\"secret\",\"username\":\"alice\"}");
}

#[test]
fn assign_body_is_json_of_the_name() {
    let body = assign_body(&AssignIssue { name: String::from("bob") }).unwrap();
    assert!(body == "{\"name\":\"bob\"}");
}

#[test]
fn assign_body_escapes_the_name() {
    let body = assign_body(&AssignIssue { name: String::from("a\"b\\c") }).unwrap();
    assert!(body == "{\"name\":\"a\\\"b\\\\c\"}");
}
