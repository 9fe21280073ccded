use toggl::api::{ApiError, Credentials, Method, Reply, Request, V9ApiClient};
use toggl::error::ConfigurationError;
use toggl::models::TimeEntry;
use toggl::time::Timestamp;

fn some_entry() -> TimeEntry {
    TimeEntry {
        id: Some(8),
        project_id: None,
        task_id: None,
        billable: false,
        start: Timestamp::new(10, 0).unwrap(),
        stop: None,
        duration: -10,
        description: "tea".to_string(),
        created_with: None,
    }
}

fn answered(status: u16, body: &str) -> Reply {
    Reply::Answered { status, body: body.to_string() }
}

#[test]
fn client_keeps_the_token() {
    let client =
        V9ApiClient::from_credentials(Credentials { api_token: "s3cr3t".to_string() }).unwrap();
    assert_eq!(client.api_token(), "s3cr3t");
    assert_eq!(client.clone(), client);
    assert_eq!(client.clone().api_token(), "s3cr3t");
}

#[test]
fn empty_token_is_refused() {
    assert_eq!(
        V9ApiClient::from_credentials(Credentials { api_token: String::new() }),
        Err(ConfigurationError)
    );
}

#[test]
fn one_character_is_a_token() {
    assert!(V9ApiClient::from_credentials(Credentials { api_token: " ".to_string() }).is_ok());
    assert!(V9ApiClient::from_credentials(Credentials { api_token: "\u{e9}".to_string() }).is_ok());
}

#[test]
fn no_answer_is_a_network_error() {
    assert_eq!(V9ApiClient::receive(Reply::Unreachable), Err(ApiError::Network));
}

#[test]
fn success_hands_the_body_on() {
    assert_eq!(V9ApiClient::receive(answered(200, "{\"id\":1}")), Ok("{\"id\":1}".to_string()));
    assert_eq!(V9ApiClient::receive(answered(201, "")), Ok(String::new()));
    assert_eq!(V9ApiClient::receive(answered(299, "x")), Ok("x".to_string()));
}

#[test]
fn rejected_token_is_an_authentication_error() {
    assert_eq!(V9ApiClient::receive(answered(401, "no")), Err(ApiError::Authentication));
    assert_eq!(V9ApiClient::receive(answered(403, "no")), Err(ApiError::Authentication));
}

#[test]
fn other_statuses_are_remote_errors() {
    assert_eq!(
        V9ApiClient::receive(answered(404, "not found")),
        Err(ApiError::Remote { status: 404, message: "not found".to_string() })
    );
    assert_eq!(
        V9ApiClient::receive(answered(500, "")),
        Err(ApiError::Remote { status: 500, message: String::new() })
    );
    assert_eq!(
        V9ApiClient::receive(answered(199, "early")),
        Err(ApiError::Remote { status: 199, message: "early".to_string() })
    );
    assert_eq!(
        V9ApiClient::receive(answered(300, "moved")),
        Err(ApiError::Remote { status: 300, message: "moved".to_string() })
    );
    assert_eq!(
        V9ApiClient::receive(answered(402, "pay")),
        Err(ApiError::Remote { status: 402, message: "pay".to_string() })
    );
    assert_eq!(
        V9ApiClient::receive(answered(0, "")),
        Err(ApiError::Remote { status: 0, message: String::new() })
    );
}

#[test]
fn empty_and_null_bodies_report_absence() {
    assert!(V9ApiClient::reports_absence(""));
    assert!(V9ApiClient::reports_absence("null"));
}

#[test]
fn other_bodies_report_presence() {
    assert!(!V9ApiClient::reports_absence("nul"));
    assert!(!V9ApiClient::reports_absence("nulls"));
    assert!(!V9ApiClient::reports_absence("NULL"));
    assert!(!V9ApiClient::reports_absence("nu\u{e9}l"));
    assert!(!V9ApiClient::reports_absence(" "));
    assert!(!V9ApiClient::reports_absence("{\"id\":1}"));
}

#[test]
fn an_optional_reply_is_nothing_something_or_an_error() {
    assert_eq!(V9ApiClient::receive_optional(answered(200, "")), Ok(None));
    assert_eq!(V9ApiClient::receive_optional(answered(200, "null")), Ok(None));
    assert_eq!(
        V9ApiClient::receive_optional(answered(200, "{\"id\":1}")),
        Ok(Some("{\"id\":1}".to_string()))
    );
    assert_eq!(V9ApiClient::receive_optional(answered(403, "null")), Err(ApiError::Authentication));
    assert_eq!(
        V9ApiClient::receive_optional(answered(500, "")),
        Err(ApiError::Remote { status: 500, message: String::new() })
    );
    assert_eq!(V9ApiClient::receive_optional(Reply::Unreachable), Err(ApiError::Network));
}

#[test]
fn reading_is_get_creating_post_replacing_put() {
    assert_eq!(Request::GetUser.method(), Method::Get);
    assert_eq!(Request::GetRunningTimeEntry.method(), Method::Get);
    assert_eq!(Request::GetTimeEntries.method(), Method::Get);
    assert_eq!(Request::CreateTimeEntry(some_entry()).method(), Method::Post);
    assert_eq!(Request::UpdateTimeEntry { id: 8, entry: some_entry() }.method(), Method::Put);
}

#[test]
fn each_request_addresses_its_resource() {
    assert_eq!(Request::GetUser.resource(), "");
    assert_eq!(Request::GetRunningTimeEntry.resource(), "/time_entries/current");
    assert_eq!(Request::GetTimeEntries.resource(), "/time_entries");
    assert_eq!(Request::CreateTimeEntry(some_entry()).resource(), "/time_entries");
    assert_eq!(
        Request::UpdateTimeEntry { id: 8, entry: some_entry() }.resource(),
        "/time_entries/8"
    );
    assert_eq!(
        Request::UpdateTimeEntry { id: 1234567, entry: some_entry() }.resource(),
        "/time_entries/1234567"
    );
}

#[test]
fn only_creating_and_replacing_carry_an_entry() {
    assert_eq!(Request::GetUser.payload(), None);
    assert_eq!(Request::GetRunningTimeEntry.payload(), None);
    assert_eq!(Request::GetTimeEntries.payload(), None);
    assert_eq!(Request::CreateTimeEntry(some_entry()).payload(), Some(&some_entry()));
    assert_eq!(
        Request::UpdateTimeEntry { id: 3, entry: some_entry() }.payload(),
        Some(&some_entry())
    );
}

#[test]
fn what_cannot_be_read_is_a_decoding_error() {
    assert_eq!(V9ApiClient::decoded(Some(5u8)), Ok(5u8));
    assert_eq!(V9ApiClient::decoded(None::<u8>), Err(ApiError::Decode));
    assert_eq!(V9ApiClient::decoded(Some(some_entry())), Ok(some_entry()));
}
