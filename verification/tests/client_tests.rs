use fgp_vercel::api::client::{ConnectionSettings, VercelClient, API_BASE, DEFAULT_LIMIT};
use fgp_vercel::error::ServiceError;
use fgp_vercel::http::{Exchange, Header, HttpMethod, HttpRequest, HttpResponse};
use fgp_vercel::json::Json;

fn client() -> VercelClient {
    match VercelClient::new("tok_123".to_string()) {
        Ok(client) => client,
        Err(_) => panic!("a credential was given"),
    }
}

fn answered(status: u16, body: &str) -> Exchange {
    Exchange::Answered(HttpResponse { status, body: body.to_string() })
}

fn headers() -> Vec<Header> {
    vec![
        Header { name: "Authorization".to_string(), value: "Bearer tok_123".to_string() },
        Header { name: "Accept".to_string(), value: "application/json".to_string() },
    ]
}

fn get(url: &str) -> HttpRequest {
    HttpRequest { method: HttpMethod::Get, url: url.to_string(), headers: headers(), body: None }
}

#[test]
fn client_refuses_an_empty_credential() {
    assert!(matches!(VercelClient::new(String::new()), Err(ServiceError::Configuration)));
    assert!(VercelClient::new("t".to_string()).is_ok());
}

#[test]
fn connections_are_capped_and_timed() {
    assert_eq!(
        VercelClient::connection_settings(),
        ConnectionSettings { max_idle_per_host: 5, timeout_seconds: 30 }
    );
    assert_eq!(API_BASE, "https://api.vercel.com");
    assert_eq!(DEFAULT_LIMIT, 20);
}

#[test]
fn get_builds_the_authenticated_request() {
    assert_eq!(client().get("/v2/user"), get("https://api.vercel.com/v2/user"));
    assert_eq!(client().get(""), get("https://api.vercel.com"));
}

#[test]
fn every_request_carries_the_credential() {
    let other = match VercelClient::new("secret".to_string()) {
        Ok(client) => client,
        Err(_) => panic!("a credential was given"),
    };
    let request = other.list_domains("prj_1");
    assert_eq!(request.headers[0].name, "Authorization");
    assert_eq!(request.headers[0].value, "Bearer secret");
    assert_eq!(request.headers[1].name, "Accept");
    assert_eq!(request.headers[1].value, "application/json");
    assert_eq!(request.headers.len(), 2);
}

#[test]
fn ping_asks_for_the_user() {
    assert_eq!(client().ping(), get("https://api.vercel.com/v2/user"));
    assert_eq!(client().get_user(), get("https://api.vercel.com/v2/user"));
    assert_eq!(client().get_user_raw(), get("https://api.vercel.com/v2/user"));
}

#[test]
fn list_projects_asks_for_twenty_by_default() {
    assert_eq!(client().list_projects(None), get("https://api.vercel.com/v9/projects?limit=20"));
    assert_eq!(client().list_projects(Some(5)), get("https://api.vercel.com/v9/projects?limit=5"));
    assert_eq!(client().list_projects(Some(0)), get("https://api.vercel.com/v9/projects?limit=0"));
    assert_eq!(client().list_projects(Some(-3)), get("https://api.vercel.com/v9/projects?limit=-3"));
    assert_eq!(
        client().list_projects(Some(i32::MAX)),
        get("https://api.vercel.com/v9/projects?limit=2147483647")
    );
    assert_eq!(
        client().list_projects(Some(i32::MIN)),
        get("https://api.vercel.com/v9/projects?limit=-2147483648")
    );
}

#[test]
fn list_deployments_filters_by_project() {
    assert_eq!(client().list_deployments(None, None), get("https://api.vercel.com/v6/deployments?limit=20"));
    assert_eq!(
        client().list_deployments(Some("prj_123"), Some(5)),
        get("https://api.vercel.com/v6/deployments?limit=5&projectId=prj_123")
    );
    assert_eq!(
        client().list_deployments(Some("prj_123"), None),
        get("https://api.vercel.com/v6/deployments?limit=20&projectId=prj_123")
    );
}

#[test]
fn fetches_name_the_entity_in_the_path() {
    assert_eq!(client().get_project("prj_1"), get("https://api.vercel.com/v9/projects/prj_1"));
    assert_eq!(client().get_deployment("dpl_1"), get("https://api.vercel.com/v13/deployments/dpl_1"));
    assert_eq!(
        client().get_deployment_events("dpl_1"),
        get("https://api.vercel.com/v2/deployments/dpl_1/events")
    );
    assert_eq!(client().list_domains("prj_1"), get("https://api.vercel.com/v9/projects/prj_1/domains"));
}

#[test]
fn list_env_vars_filters_by_target() {
    assert_eq!(client().list_env_vars("prj_1", None), get("https://api.vercel.com/v9/projects/prj_1/env"));
    assert_eq!(
        client().list_env_vars("prj_1", Some("preview")),
        get("https://api.vercel.com/v9/projects/prj_1/env?target=preview")
    );
}

#[test]
fn set_env_var_posts_the_variable_with_defaults() {
    let request = client().set_env_var("prj_1", "FOO", "bar", None, None);
    assert_eq!(request.method, HttpMethod::Post);
    assert_eq!(request.url, "https://api.vercel.com/v10/projects/prj_1/env");
    assert_eq!(request.headers, headers());
    let body = request.body.unwrap();
    assert_eq!(body.get("key"), Some(&Json::Str("FOO".to_string())));
    assert_eq!(body.get("value"), Some(&Json::Str("bar".to_string())));
    assert_eq!(body.get("type"), Some(&Json::Str("encrypted".to_string())));
    assert_eq!(
        body.get("target"),
        Some(&Json::Array(vec![
            Json::Str("production".to_string()),
            Json::Str("preview".to_string()),
            Json::Str("development".to_string()),
        ]))
    );
}

#[test]
fn set_env_var_posts_what_is_given() {
    let environments = vec!["preview".to_string()];
    let request = client().set_env_var("prj_1", "FOO", "bar", Some(&environments), Some("plain"));
    let body = request.body.unwrap();
    assert_eq!(body.get("type"), Some(&Json::Str("plain".to_string())));
    assert_eq!(body.get("target"), Some(&Json::Array(vec![Json::Str("preview".to_string())])));
    let none: Vec<String> = vec![];
    let request = client().set_env_var("prj_1", "FOO", "bar", Some(&none), None);
    assert_eq!(request.body.unwrap().get("target"), Some(&Json::Array(vec![])));
}

#[test]
fn redeploy_posts_the_deployment() {
    let request = client().redeploy("dpl_1");
    assert_eq!(request.method, HttpMethod::Post);
    assert_eq!(request.url, "https://api.vercel.com/v13/deployments?forceNew=1");
    assert_eq!(
        request.body,
        Some(Json::Object(vec![("deploymentId".to_string(), Json::Str("dpl_1".to_string()))]))
    );
}

#[test]
fn ping_outcome_tells_success_from_any_other_status() {
    assert_eq!(VercelClient::ping_outcome(&answered(200, "{}")), Ok(true));
    assert_eq!(VercelClient::ping_outcome(&answered(204, "")), Ok(true));
    assert_eq!(VercelClient::ping_outcome(&answered(299, "")), Ok(true));
    assert_eq!(VercelClient::ping_outcome(&answered(199, "")), Ok(false));
    assert_eq!(VercelClient::ping_outcome(&answered(300, "")), Ok(false));
    assert_eq!(VercelClient::ping_outcome(&answered(401, "{\"error\": \"forbidden\"}")), Ok(false));
    assert_eq!(VercelClient::ping_outcome(&answered(500, "")), Ok(false));
}

#[test]
fn ping_outcome_of_no_answer_is_an_error() {
    assert_eq!(
        VercelClient::ping_outcome(&Exchange::Failed("connection refused".to_string())),
        Err(ServiceError::Transport("Failed to ping Vercel API: connection refused".to_string()))
    );
}

#[test]
fn status_404_is_an_error_with_status_and_body() {
    let exchange = answered(404, "{\"error\": {\"code\": \"not_found\"}}");
    let expected = ServiceError::Status { code: 404, body: "{\"error\": {\"code\": \"not_found\"}}".to_string() };
    assert_eq!(VercelClient::checked_body(&exchange), Err(expected.clone()));
    assert_eq!(VercelClient::read_json(&exchange), Err(expected.clone()));
    assert_eq!(VercelClient::read_projects(&exchange), Err(expected.clone()));
    assert_eq!(VercelClient::read_project(&exchange), Err(expected.clone()));
    assert_eq!(VercelClient::read_deployments(&exchange), Err(expected.clone()));
    assert_eq!(VercelClient::read_deployment(&exchange), Err(expected.clone()));
    assert_eq!(VercelClient::read_deployment_events(&exchange), Err(expected.clone()));
    assert_eq!(VercelClient::read_user(&exchange), Err(expected.clone()));
    assert_eq!(expected.message(), "API request failed: 404 - {\"error\": {\"code\": \"not_found\"}}");
}

#[test]
fn a_status_error_keeps_a_body_that_is_no_json() {
    let exchange = answered(502, "<html>Bad Gateway</html>");
    assert_eq!(
        VercelClient::read_json(&exchange),
        Err(ServiceError::Status { code: 502, body: "<html>Bad Gateway</html>".to_string() })
    );
}

#[test]
fn checked_body_hands_the_body_on() {
    assert_eq!(VercelClient::checked_body(&answered(200, "{\"a\": 1}")), Ok("{\"a\": 1}"));
    assert_eq!(VercelClient::checked_body(&answered(201, "")), Ok(""));
}

#[test]
fn no_answer_is_a_transport_error() {
    let exchange = Exchange::Failed("timed out".to_string());
    let expected = ServiceError::Transport("Failed to send request: timed out".to_string());
    assert_eq!(VercelClient::checked_body(&exchange), Err(expected.clone()));
    assert_eq!(VercelClient::read_json(&exchange), Err(expected.clone()));
    assert_eq!(VercelClient::read_projects(&exchange), Err(expected.clone()));
    assert_eq!(expected.message(), "Failed to send request: timed out");
}

#[test]
fn a_body_that_is_no_json_is_a_decode_error() {
    assert_eq!(VercelClient::read_json(&answered(200, "not json")), Err(ServiceError::Decode));
    assert_eq!(VercelClient::read_json(&answered(200, "")), Err(ServiceError::Decode));
    assert_eq!(VercelClient::read_project(&answered(200, "{\"id\": ")), Err(ServiceError::Decode));
    assert_eq!(ServiceError::Decode.message(), "Failed to parse response");
}

#[test]
fn a_body_of_another_shape_is_a_decode_error() {
    assert_eq!(VercelClient::read_projects(&answered(200, "{}")), Err(ServiceError::Decode));
    assert_eq!(VercelClient::read_projects(&answered(200, "{\"projects\": {}}")), Err(ServiceError::Decode));
    assert_eq!(VercelClient::read_projects(&answered(200, "{\"projects\": [{\"id\": \"p\"}]}")), Err(ServiceError::Decode));
    assert_eq!(VercelClient::read_projects(&answered(200, "[]")), Err(ServiceError::Decode));
    assert_eq!(VercelClient::read_deployments(&answered(200, "{\"projects\": []}")), Err(ServiceError::Decode));
    assert_eq!(VercelClient::read_project(&answered(200, "{\"name\": \"web\"}")), Err(ServiceError::Decode));
    assert_eq!(VercelClient::read_deployment(&answered(200, "[]")), Err(ServiceError::Decode));
    assert_eq!(VercelClient::read_deployment_events(&answered(200, "{\"events\": []}")), Err(ServiceError::Decode));
    assert_eq!(VercelClient::read_user(&answered(200, "{\"id\": \"usr_1\"}")), Err(ServiceError::Decode));
    assert_eq!(VercelClient::read_user(&answered(200, "{\"user\": {\"name\": \"Ann\"}}")), Err(ServiceError::Decode));
}

#[test]
fn read_json_hands_the_json_on() {
    assert_eq!(
        VercelClient::read_json(&answered(200, "{\"a\": [1, 2]}")),
        Ok(Json::Object(vec![("a".to_string(), Json::Array(vec![Json::Int(1), Json::Int(2)]))]))
    );
}

#[test]
fn json_of_parsed_takes_what_the_body_reads_as() {
    assert_eq!(VercelClient::json_of_parsed(&answered(200, "1"), Some(Json::Int(1))), Ok(Json::Int(1)));
    assert_eq!(VercelClient::json_of_parsed(&answered(200, "x"), None), Err(ServiceError::Decode));
    assert_eq!(
        VercelClient::json_of_parsed(&answered(500, "x"), Some(Json::Int(1))),
        Err(ServiceError::Status { code: 500, body: "x".to_string() })
    );
    assert_eq!(
        VercelClient::json_of_parsed(&Exchange::Failed("reset".to_string()), None),
        Err(ServiceError::Transport("Failed to send request: reset".to_string()))
    );
}

#[test]
fn read_projects_reads_the_listing() {
    let projects = VercelClient::read_projects(&answered(
        200,
        "{\"projects\": [{\"id\": \"a\", \"name\": \"one\"}, {\"id\": \"b\", \"name\": \"two\"}], \"pagination\": {}}",
    ))
    .unwrap();
    assert_eq!(projects.len(), 2);
    assert_eq!(projects[0].name, "one");
    assert_eq!(projects[1].name, "two");
    assert_eq!(VercelClient::read_projects(&answered(200, "{\"projects\": []}")), Ok(vec![]));
}

#[test]
fn read_deployments_reads_the_listing() {
    let deployments = VercelClient::read_deployments(&answered(
        200,
        "{\"deployments\": [{\"uid\": \"a\", \"name\": \"n\", \"url\": \"u\"}, {\"id\": \"b\", \"name\": \"n\", \"url\": \"v\"}]}",
    ))
    .unwrap();
    assert_eq!(deployments.len(), 2);
    assert_eq!(deployments[0].uid, "a");
    assert_eq!(deployments[1].uid, "b");
}

#[test]
fn read_deployment_events_keeps_the_order() {
    let events = VercelClient::read_deployment_events(&answered(
        200,
        "[{\"type\": \"command\", \"created\": 3}, {\"type\": \"stdout\", \"created\": 1}, {\"type\": \"exit\", \"created\": 2}]",
    ))
    .unwrap();
    let kinds: Vec<&str> = events.iter().map(|e| e.event_type.as_str()).collect();
    assert_eq!(kinds, vec!["command", "stdout", "exit"]);
}

#[test]
fn read_user_reads_the_user_member() {
    let user =
        VercelClient::read_user(&answered(200, "{\"user\": {\"id\": \"usr_1\", \"username\": \"ann\", \"plan\": \"pro\"}}"))
            .unwrap();
    assert_eq!(user.id, "usr_1");
    assert_eq!(user.username, Some("ann".to_string()));
}

#[test]
fn read_fetches_read_one_entity() {
    let project = VercelClient::read_project(&answered(200, "{\"id\": \"p\", \"name\": \"web\"}")).unwrap();
    assert_eq!(project.name, "web");
    let deployment =
        VercelClient::read_deployment(&answered(200, "{\"id\": \"d\", \"name\": \"web\", \"url\": \"u\"}")).unwrap();
    assert_eq!(deployment.uid, "d");
}

#[test]
fn error_messages_name_what_went_wrong() {
    assert_eq!(ServiceError::Configuration.message(), "Missing access token");
    assert_eq!(
        ServiceError::MissingParameter("project_id".to_string()).message(),
        "Missing required parameter: project_id"
    );
    assert_eq!(ServiceError::UnknownMethod("vercel.nope".to_string()).message(), "Unknown method: vercel.nope");
    assert_eq!(ServiceError::Status { code: 500, body: String::new() }.message(), "API request failed: 500 - ");
    assert_eq!(ServiceError::Transport("x".to_string()).message(), "x");
}
