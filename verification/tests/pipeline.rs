use jira_client::client::Client;
use jira_client::credentials::Credentials;
use jira_client::errors::{ConfigFault, DecodeCause, Error};
use jira_client::json::Json;
use jira_client::params::Params;
use jira_client::request::{Method, Request};
use jira_client::response::{
    classify, classify_parsed, finish, messages_of, status_is_success, Outcome,
};
use jira_client::v2::application_role::{ApplicationRole, ApplicationRoleOptions};
use jira_client::v2::user::{Expand, Pagination, User, UserOptions};

fn entries(p: &Params) -> Vec<(String, String)> {
    let mut out = Vec::new();
    for i in 0..p.len() {
        out.push((p.key_at(i).clone(), p.value_at(i).clone()));
    }
    out
}

fn pair(k: &str, v: &str) -> (String, String) {
    (k.to_string(), v.to_string())
}

fn client() -> Client {
    Client::new("jira.example.com", Some(Credentials::basic("alice", "secret")))
}

fn headers() -> reqwest::header::HeaderMap {
    let mut map = reqwest::header::HeaderMap::new();
    map.insert("content-type", reqwest::header::HeaderValue::from_static("application/json"));
    map.insert("etag", reqwest::header::HeaderValue::from_static("\"v3\""));
    map
}

fn received(status: u16, body: &str) -> Outcome {
    Outcome::Received { status, headers: headers(), body: body.to_string() }
}

fn built(r: Result<Request, Error>) -> Request {
    match r {
        Ok(request) => request,
        Err(e) => panic!("no request was built: {:?}", e),
    }
}

fn is_basic(auth: &Option<Credentials>, user: &str, pass: &str) -> bool {
    matches!(auth, Some(Credentials::Basic { username, password }) if username == user && password == pass)
}

#[test]
fn get_builds_the_resource_url() {
    let r = built(client().get("api", "2", "user/search", None, None));
    assert_eq!(r.method, Method::Get);
    assert_eq!(r.url, "https://jira.example.com/rest/api/2/user/search");
    assert!(r.query.is_empty());
    assert!(r.headers.is_empty());
    assert!(r.body.is_none());
    assert!(is_basic(&r.auth, "alice", "secret"));
}

#[test]
fn get_and_delete_drop_a_body_that_was_given() {
    let c = client();
    let r = built(c.request(Method::Get, "api", "2", "user", None, None, Some("{}".to_string())));
    assert!(r.body.is_none());
    let r = built(c.request(Method::Delete, "api", "2", "user", None, None, Some("{}".to_string())));
    assert_eq!(r.method, Method::Delete);
    assert!(r.body.is_none());
    let r = built(c.delete("api", "2", "user", None, None));
    assert_eq!(r.method, Method::Delete);
    assert!(r.body.is_none());
}

#[test]
fn put_and_post_carry_the_body() {
    let c = client();
    let r = built(c.put("api", "2", "thing", None, None, "{\"a\":1}".to_string()));
    assert_eq!(r.method, Method::Put);
    assert_eq!(r.body.as_deref(), Some("{\"a\":1}"));
    let r = built(c.post("api", "2", "thing", None, None, "[]".to_string()));
    assert_eq!(r.method, Method::Post);
    assert_eq!(r.body.as_deref(), Some("[]"));
    let r = built(c.request(Method::Post, "api", "2", "thing", None, None, None));
    assert!(r.body.is_none());
}

#[test]
fn method_names_and_bodies() {
    assert_eq!(Method::Get.name(), "GET");
    assert_eq!(Method::Put.name(), "PUT");
    assert_eq!(Method::Post.name(), "POST");
    assert_eq!(Method::Delete.name(), "DELETE");
    assert!(!Method::Get.has_body());
    assert!(Method::Put.has_body());
    assert!(Method::Post.has_body());
    assert!(!Method::Delete.has_body());
}

#[test]
fn per_call_headers_win_over_client_headers() {
    let c = client()
        .add_header("Accept", "text/plain".to_string())
        .add_header("X-Trace", "1".to_string());
    let mut extra = Params::new();
    extra.insert("Accept".to_string(), "application/json".to_string());
    extra.insert("If-Match".to_string(), "v2".to_string());
    let mut query = Params::new();
    query.insert("q".to_string(), "x y".to_string());
    let r = built(c.get("api", "2", "user", Some(query), Some(extra)));
    assert_eq!(
        entries(&r.headers),
        vec![pair("Accept", "application/json"), pair("X-Trace", "1"), pair("If-Match", "v2")]
    );
    assert_eq!(entries(&r.query), vec![pair("q", "x y")]);
    assert_eq!(entries(c.headers()), vec![pair("Accept", "text/plain"), pair("X-Trace", "1")]);
}

#[test]
fn header_on_a_clone_leaves_the_original_unchanged() {
    let original = client().add_header("Accept", "application/json".to_string());
    let copy = original.clone().add_header("If-Match", "v7".to_string());
    let from_copy = built(copy.put("api", "2", "applicationrole", None, None, "[]".to_string()));
    assert_eq!(
        entries(&from_copy.headers),
        vec![pair("Accept", "application/json"), pair("If-Match", "v7")]
    );
    let from_original = built(original.get("api", "2", "applicationrole", None, None));
    assert_eq!(entries(&from_original.headers), vec![pair("Accept", "application/json")]);
    assert_eq!(entries(original.headers()), vec![pair("Accept", "application/json")]);
    assert_eq!(original.host(), "jira.example.com");
}

#[test]
fn with_header_copies_and_keeps_the_original() {
    let original = client();
    let copy = original.with_header("If-Match", "v1".to_string());
    assert!(original.headers().is_empty());
    assert_eq!(entries(copy.headers()), vec![pair("If-Match", "v1")]);
    assert_eq!(copy.host(), original.host());
    assert!(is_basic(&copy.credentials().cloned(), "alice", "secret"));
}

#[test]
fn update_with_if_match_does_not_touch_the_client() {
    let c = client().add_header("Accept", "application/json".to_string());
    let role = role_from("{\"key\":\"jira-core\",\"name\":\"JIRA Core\"}");
    let o = ApplicationRoleOptions { if_match: Some("hash-1".to_string()) };
    let r = built(role.update(&c, Some(o)));
    assert_eq!(r.method, Method::Put);
    assert_eq!(r.url, "https://jira.example.com/rest/api/2/applicationrole/jira-core");
    assert_eq!(
        entries(&r.headers),
        vec![pair("Accept", "application/json"), pair("If-Match", "hash-1")]
    );
    assert_eq!(r.body, Some(role.to_body()));
    let again = built(ApplicationRole::all(&c));
    assert_eq!(entries(&again.headers), vec![pair("Accept", "application/json")]);
}

fn role_from(text: &str) -> ApplicationRole {
    match ApplicationRole::read(received(200, text)) {
        Ok(r) => r.data,
        Err(e) => panic!("no role was read: {:?}", e),
    }
}

#[test]
fn update_without_options_sets_no_header() {
    let c = client();
    let role = role_from("{\"key\":\"k\"}");
    let r = built(role.update(&c, None));
    assert!(r.headers.is_empty());
    let r = built(role.update(&c, Some(ApplicationRoleOptions { if_match: None })));
    assert!(r.headers.is_empty());
}

#[test]
fn update_bulk_puts_the_list() {
    let c = client();
    let a = role_from("{\"key\":\"a\"}");
    let b = role_from("{\"key\":\"b\"}");
    let expected = format!("[{},{}]", a.to_body(), b.to_body());
    let o = ApplicationRoleOptions { if_match: Some("h".to_string()) };
    let r = built(ApplicationRole::update_bulk(&c, vec![a, b], Some(o)));
    assert_eq!(r.method, Method::Put);
    assert_eq!(r.url, "https://jira.example.com/rest/api/2/applicationrole");
    assert_eq!(entries(&r.headers), vec![pair("If-Match", "h")]);
    assert_eq!(r.body, Some(expected));
    let r = built(ApplicationRole::update_bulk(&c, vec![], None));
    assert_eq!(r.body.as_deref(), Some("[]"));
    assert!(r.headers.is_empty());
}

#[test]
fn role_requests_name_the_resource() {
    let c = client();
    let r = built(ApplicationRole::from_key(&c, "jira-software"));
    assert_eq!(r.method, Method::Get);
    assert_eq!(r.url, "https://jira.example.com/rest/api/2/applicationrole/jira-software");
    assert!(r.query.is_empty());
    let r = built(ApplicationRole::all(&c));
    assert_eq!(r.url, "https://jira.example.com/rest/api/2/applicationrole");
}

#[test]
fn search_builds_the_query_in_order() {
    let c = client();
    let r = built(User::search(
        &c,
        "bob",
        Some(UserOptions { include_inactive: Some(true), include_active: Some(false) }),
        Some(Pagination { start_at: Some(10), max_results: Some(25) }),
    ));
    assert_eq!(r.method, Method::Get);
    assert_eq!(r.url, "https://jira.example.com/rest/api/2/user/search");
    assert_eq!(
        entries(&r.query),
        vec![
            pair("username", "bob"),
            pair("includeInactive", "true"),
            pair("includeActive", "false"),
            pair("startAt", "10"),
            pair("maxResults", "25"),
        ]
    );
    assert!(r.body.is_none());
}

#[test]
fn search_omits_what_is_unset() {
    let c = client();
    let r = built(User::search(&c, "bob", None, None));
    assert_eq!(entries(&r.query), vec![pair("username", "bob")]);
    let r = built(User::search(
        &c,
        "bob",
        Some(UserOptions { include_inactive: None, include_active: None }),
        Some(Pagination { start_at: None, max_results: Some(5) }),
    ));
    assert_eq!(entries(&r.query), vec![pair("username", "bob"), pair("maxResults", "5")]);
}

#[test]
fn user_lookups_carry_expand_only_when_asked() {
    let c = client();
    let r = built(User::from_username(&c, "bob", &[Expand::Groups, Expand::ApplicationRoles]));
    assert_eq!(r.url, "https://jira.example.com/rest/api/2/user");
    assert_eq!(
        entries(&r.query),
        vec![pair("username", "bob"), pair("expand", "groups,applicationRoles")]
    );
    let r = built(User::from_username(&c, "bob", &[]));
    assert_eq!(entries(&r.query), vec![pair("username", "bob")]);
    let r = built(User::from_key(&c, "JIRAUSER1", &[Expand::Groups]));
    assert_eq!(entries(&r.query), vec![pair("key", "JIRAUSER1"), pair("expand", "groups")]);
    let r = built(User::from_key(&c, "JIRAUSER1", &[]));
    assert_eq!(entries(&r.query), vec![pair("key", "JIRAUSER1")]);
}

#[test]
fn missing_credentials_are_a_configuration_error() {
    let c = Client::new("h", None);
    match c.get("api", "2", "user", None, None) {
        Err(Error::Configuration { fault }) => assert_eq!(fault, ConfigFault::MissingCredentials),
        _ => panic!("expected a configuration error"),
    }
    match User::search(&c, "x", None, None) {
        Err(Error::Configuration { fault }) => assert_eq!(fault, ConfigFault::MissingCredentials),
        _ => panic!("expected a configuration error"),
    }
}

#[test]
fn unusable_credentials_are_a_configuration_error() {
    let c = Client::new("h", Some(Credentials::basic("", "pw")));
    match c.get("api", "2", "user", None, None) {
        Err(Error::Configuration { fault }) => assert_eq!(fault, ConfigFault::EmptyUsername),
        _ => panic!("expected a configuration error"),
    }
    let c = Client::new("h", Some(Credentials::bearer("")));
    match c.put("api", "2", "user", None, None, "{}".to_string()) {
        Err(Error::Configuration { fault }) => assert_eq!(fault, ConfigFault::EmptyToken),
        _ => panic!("expected a configuration error"),
    }
    assert_eq!(Credentials::basic("", "").check(), Err(ConfigFault::EmptyUsername));
    assert_eq!(Credentials::bearer("").check(), Err(ConfigFault::EmptyToken));
    assert_eq!(Credentials::basic("u", "").check(), Ok(()));
    assert_eq!(Credentials::bearer("t").check(), Ok(()));
}

#[test]
fn bearer_credentials_are_attached() {
    let c = Client::new("h", Some(Credentials::bearer("tok")));
    let r = built(c.get("api", "2", "user", None, None));
    assert!(matches!(&r.auth, Some(Credentials::Bearer { token }) if token == "tok"));
}

#[test]
fn decorating_twice_is_decorating_once() {
    let creds = Credentials::basic("alice", "secret");
    let bare = built(Client::new("h", Some(Credentials::bearer("t"))).get("api", "2", "user", None, None));
    let once = built(creds.decorate(bare));
    assert!(is_basic(&once.auth, "alice", "secret"));
    let url = once.url.clone();
    let twice = built(creds.decorate(once));
    assert!(is_basic(&twice.auth, "alice", "secret"));
    assert_eq!(twice.url, url);
    assert!(twice.headers.is_empty());
    assert!(twice.query.is_empty());
    assert!(twice.body.is_none());
    assert_eq!(twice.method, Method::Get);
}

#[test]
fn decorate_refuses_unusable_credentials() {
    let bare = built(client().get("api", "2", "user", None, None));
    match Credentials::bearer("").decorate(bare) {
        Err(Error::Configuration { fault }) => assert_eq!(fault, ConfigFault::EmptyToken),
        _ => panic!("expected a configuration error"),
    }
}

#[test]
fn success_status_is_200_to_299() {
    assert!(!status_is_success(0));
    assert!(!status_is_success(199));
    assert!(status_is_success(200));
    assert!(status_is_success(204));
    assert!(status_is_success(299));
    assert!(!status_is_success(300));
    assert!(!status_is_success(404));
    assert!(!status_is_success(u16::MAX));
}

#[test]
fn get_role_from_a_200_answer() {
    let r = ApplicationRole::read(received(200, "{\"key\":\"jira-core\",\"name\":\"JIRA Core\"}"));
    match r {
        Ok(resp) => {
            assert_eq!(resp.data.key(), "jira-core");
            assert_eq!(resp.data.name(), "JIRA Core");
            assert_eq!(resp.headers, headers());
            assert_eq!(resp.headers.get("etag").unwrap(), "\"v3\"");
        }
        Err(e) => panic!("expected a role: {:?}", e),
    }
}

#[test]
fn a_404_answer_is_an_api_error_with_its_messages() {
    let r = ApplicationRole::read(received(404, "{\"errorMessages\":[\"No role found\"]}"));
    match r {
        Err(Error::Api { status, messages }) => {
            assert_eq!(status, 404);
            assert_eq!(messages, vec!["No role found".to_string()]);
        }
        _ => panic!("expected an api error"),
    }
}

#[test]
fn an_error_answer_keeps_its_status_when_the_body_is_unreadable() {
    for body in ["", "<html>teapot</html>", "{\"errorMessages\":\"nope\"}", "{\"errorMessages\":[1]}", "17", "[\"a\",2]"] {
        match classify(received(418, body)) {
            Err(Error::Api { status, messages }) => {
                assert_eq!(status, 418);
                assert!(messages.is_empty());
            }
            _ => panic!("expected an api error"),
        }
    }
}

#[test]
fn an_error_answer_may_be_a_bare_list_of_messages() {
    match classify(received(500, "[\"first\",\"second\"]")) {
        Err(Error::Api { status, messages }) => {
            assert_eq!(status, 500);
            assert_eq!(messages, vec!["first".to_string(), "second".to_string()]);
        }
        _ => panic!("expected an api error"),
    }
    match classify(received(400, "{\"errorMessages\":[\"a\",\"b\"],\"errors\":{\"f\":\"bad\"}}")) {
        Err(Error::Api { status, messages }) => {
            assert_eq!(status, 400);
            assert_eq!(messages, vec!["a".to_string(), "b".to_string()]);
        }
        _ => panic!("expected an api error"),
    }
    match classify(received(301, "{\"errorMessages\":[]}")) {
        Err(Error::Api { status, messages }) => {
            assert_eq!(status, 301);
            assert!(messages.is_empty());
        }
        _ => panic!("expected an api error"),
    }
}

#[test]
fn a_200_answer_that_is_no_json_is_a_decode_error() {
    for body in ["not json", "", "{\"key\":", "{'key':'x'}"] {
        match ApplicationRole::read(received(200, body)) {
            Err(Error::Decode { raw_body, cause }) => {
                assert_eq!(raw_body, body);
                assert_eq!(cause, DecodeCause::Syntax);
            }
            _ => panic!("expected a decode error"),
        }
    }
}

#[test]
fn a_200_answer_of_another_shape_is_a_decode_error() {
    for body in ["[]", "\"jira-core\"", "{\"key\":17}", "{\"groups\":\"all\"}", "{\"numberOfSeats\":-1}", "{\"platform\":null}"] {
        match ApplicationRole::read(received(200, body)) {
            Err(Error::Decode { raw_body, cause }) => {
                assert_eq!(raw_body, body);
                assert_eq!(cause, DecodeCause::Shape);
            }
            _ => panic!("expected a decode error"),
        }
    }
}

#[test]
fn a_failed_request_is_a_transport_error() {
    let outcome = Outcome::Failed { cause: "connection reset".to_string() };
    match ApplicationRole::read(outcome) {
        Err(Error::Transport { cause }) => assert_eq!(cause, "connection reset"),
        _ => panic!("expected a transport error"),
    }
    match User::read_list(Outcome::Failed { cause: "timeout".to_string() }) {
        Err(Error::Transport { cause }) => assert_eq!(cause, "timeout"),
        _ => panic!("expected a transport error"),
    }
}

#[test]
fn classify_gives_the_document_headers_and_body() {
    match classify(received(201, "{\"a\":[true,null,\"x\",12]}")) {
        Ok(answer) => {
            assert_eq!(answer.raw_body, "{\"a\":[true,null,\"x\",12]}");
            assert_eq!(answer.headers, headers());
            let a = answer.document.member("a").unwrap();
            let items = a.as_items().unwrap();
            assert_eq!(items.len(), 4);
            assert_eq!(items[0].as_bool(), Some(true));
            assert!(matches!(items[1], Json::Null));
            assert_eq!(items[2].as_text().unwrap(), "x");
            assert_eq!(items[3].as_unsigned(), Some(12));
        }
        Err(e) => panic!("expected an answer: {:?}", e),
    }
}

#[test]
fn classify_parsed_goes_by_the_document_it_is_given() {
    let doc = Json::Object(vec![(
        "errorMessages".to_string(),
        Json::Array(vec![Json::Text("gone".to_string())]),
    )]);
    match classify_parsed(received(410, "ignored"), Some(doc)) {
        Err(Error::Api { status, messages }) => {
            assert_eq!(status, 410);
            assert_eq!(messages, vec!["gone".to_string()]);
        }
        _ => panic!("expected an api error"),
    }
    match classify_parsed(received(410, "ignored"), None) {
        Err(Error::Api { status, messages }) => {
            assert_eq!(status, 410);
            assert!(messages.is_empty());
        }
        _ => panic!("expected an api error"),
    }
    match classify_parsed(received(200, "raw"), None) {
        Err(Error::Decode { raw_body, cause }) => {
            assert_eq!(raw_body, "raw");
            assert_eq!(cause, DecodeCause::Syntax);
        }
        _ => panic!("expected a decode error"),
    }
    match classify_parsed(received(200, "raw"), Some(Json::Bool(true))) {
        Ok(answer) => {
            assert_eq!(answer.document.as_bool(), Some(true));
            assert_eq!(answer.raw_body, "raw");
        }
        Err(e) => panic!("expected an answer: {:?}", e),
    }
    match classify_parsed(Outcome::Failed { cause: "dns".to_string() }, Some(Json::Null)) {
        Err(Error::Transport { cause }) => assert_eq!(cause, "dns"),
        _ => panic!("expected a transport error"),
    }
}

#[test]
fn messages_of_reads_both_shapes() {
    let listed = Json::Object(vec![
        ("other".to_string(), Json::Null),
        ("errorMessages".to_string(), Json::Array(vec![Json::Text("m".to_string())])),
    ]);
    assert_eq!(messages_of(&listed), vec!["m".to_string()]);
    let bare = Json::Array(vec![Json::Text("x".to_string()), Json::Text("y".to_string())]);
    assert_eq!(messages_of(&bare), vec!["x".to_string(), "y".to_string()]);
    assert!(messages_of(&Json::Null).is_empty());
    assert!(messages_of(&Json::Array(vec![Json::Bool(true)])).is_empty());
    assert!(messages_of(&Json::Object(vec![("errorMessages".to_string(), Json::Null)])).is_empty());
}

#[test]
fn finish_wraps_a_value_or_reports_the_shape() {
    match finish(Some(7u8), headers(), "7".to_string()) {
        Ok(resp) => {
            assert_eq!(resp.data, 7);
            assert_eq!(resp.headers, headers());
        }
        Err(e) => panic!("expected a value: {:?}", e),
    }
    match finish(None::<u8>, reqwest::header::HeaderMap::new(), "seven".to_string()) {
        Err(Error::Decode { raw_body, cause }) => {
            assert_eq!(raw_body, "seven");
            assert_eq!(cause, DecodeCause::Shape);
        }
        _ => panic!("expected a decode error"),
    }
}
