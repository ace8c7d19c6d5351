use fgp_vercel::catalog::MethodInfo;
use fgp_vercel::error::ServiceError;
use fgp_vercel::http::{Exchange, HttpMethod, HttpRequest, HttpResponse};
use fgp_vercel::json::Json;
use fgp_vercel::operation::{Operation, Params};
use fgp_vercel::service::{
    count_to_json, listing_to_json, texts_of, HealthStatus, VercelService, NAME, VERSION,
};

fn service() -> VercelService {
    match VercelService::new("tok_123".to_string()) {
        Ok(service) => service,
        Err(_) => panic!("a credential was given"),
    }
}

fn params(text: &str) -> Params {
    match Json::parse(text) {
        Some(Json::Object(members)) => members,
        _ => panic!("the parameters of a test are a JSON object"),
    }
}

fn text(s: &str) -> Json {
    Json::Str(s.to_string())
}

fn answered(status: u16, body: &str) -> Exchange {
    Exchange::Answered(HttpResponse { status, body: body.to_string() })
}

/// Stands for the API: counts the requests that it gets, and answers each
/// with the same status and body.
struct Remote {
    calls: usize,
    last_url: String,
    status: u16,
    body: String,
}

impl Remote {
    fn answering(status: u16, body: &str) -> Remote {
        Remote { calls: 0, last_url: String::new(), status, body: body.to_string() }
    }

    fn send(&mut self, request: &HttpRequest) -> Exchange {
        self.calls += 1;
        self.last_url = request.url.clone();
        Exchange::Answered(HttpResponse { status: self.status, body: self.body.clone() })
    }
}

/// A whole call: route, and where there is an operation, send and respond.
fn call(service: &VercelService, remote: &mut Remote, method: &str, given: &Params) -> Result<Json, ServiceError> {
    let operation = service.dispatch(method, given)?;
    let request = service.request(&operation);
    let exchange = remote.send(&request);
    VercelService::respond(&operation, &exchange)
}

#[test]
fn service_refuses_an_empty_credential() {
    assert!(matches!(VercelService::new(String::new()), Err(ServiceError::Configuration)));
}

#[test]
fn service_has_a_name_and_a_version() {
    assert_eq!(service().name(), "vercel");
    assert_eq!(service().version(), "0.1.0");
    assert_eq!(NAME, "vercel");
    assert_eq!(VERSION, "0.1.0");
}

#[test]
fn get_param_i32_reads_an_integer() {
    assert_eq!(VercelService::get_param_i32(&params("{\"limit\": 5}"), "limit", 20), 5);
    assert_eq!(VercelService::get_param_i32(&params("{\"limit\": 0}"), "limit", 20), 0);
    assert_eq!(VercelService::get_param_i32(&params("{\"limit\": -7}"), "limit", 20), -7);
}

#[test]
fn get_param_i32_falls_back_where_the_parameter_is_missing() {
    assert_eq!(VercelService::get_param_i32(&params("{}"), "limit", 20), 20);
    assert_eq!(VercelService::get_param_i32(&params("{\"other\": 5}"), "limit", 20), 20);
    assert_eq!(VercelService::get_param_i32(&params("{}"), "limit", -1), -1);
}

#[test]
fn get_param_i32_falls_back_where_the_parameter_is_no_integer() {
    assert_eq!(VercelService::get_param_i32(&params("{\"limit\": \"5\"}"), "limit", 20), 20);
    assert_eq!(VercelService::get_param_i32(&params("{\"limit\": 5.5}"), "limit", 20), 20);
    assert_eq!(VercelService::get_param_i32(&params("{\"limit\": null}"), "limit", 20), 20);
    assert_eq!(VercelService::get_param_i32(&params("{\"limit\": true}"), "limit", 20), 20);
    assert_eq!(VercelService::get_param_i32(&params("{\"limit\": [5]}"), "limit", 20), 20);
    assert_eq!(VercelService::get_param_i32(&params("{\"limit\": 18446744073709551615}"), "limit", 20), 20);
}

#[test]
fn get_param_i32_keeps_the_low_32_bits() {
    assert_eq!(VercelService::get_param_i32(&params("{\"limit\": 4294967301}"), "limit", 20), 5);
    assert_eq!(VercelService::get_param_i32(&params("{\"limit\": 2147483648}"), "limit", 20), i32::MIN);
    assert_eq!(VercelService::get_param_i32(&params("{\"limit\": 2147483647}"), "limit", 20), i32::MAX);
    assert_eq!(VercelService::get_param_i32(&params("{\"limit\": -2147483649}"), "limit", 20), i32::MAX);
}

#[test]
fn get_param_str_reads_a_string() {
    let given = params("{\"project_id\": \"prj_1\", \"n\": 5, \"z\": null}");
    assert_eq!(VercelService::get_param_str(&given, "project_id"), Some("prj_1"));
    assert_eq!(VercelService::get_param_str(&given, "n"), None);
    assert_eq!(VercelService::get_param_str(&given, "z"), None);
    assert_eq!(VercelService::get_param_str(&given, "missing"), None);
}

#[test]
fn get_param_str_either_takes_the_first_that_is_a_string() {
    let both = params("{\"project_id\": \"first\", \"name\": \"second\"}");
    assert_eq!(VercelService::get_param_str_either(&both, "project_id", "name"), Some("first"));
    let second = params("{\"name\": \"second\"}");
    assert_eq!(VercelService::get_param_str_either(&second, "project_id", "name"), Some("second"));
    let first_is_a_number = params("{\"project_id\": 7, \"name\": \"second\"}");
    assert_eq!(VercelService::get_param_str_either(&first_is_a_number, "project_id", "name"), Some("second"));
    assert_eq!(VercelService::get_param_str_either(&params("{}"), "project_id", "name"), None);
}

#[test]
fn get_param_texts_keeps_the_strings_of_an_array() {
    let given = params("{\"target\": [\"production\", 5, \"preview\", null], \"s\": \"production\"}");
    assert_eq!(
        VercelService::get_param_texts(&given, "target"),
        Some(vec!["production".to_string(), "preview".to_string()])
    );
    assert_eq!(VercelService::get_param_texts(&given, "s"), None);
    assert_eq!(VercelService::get_param_texts(&given, "missing"), None);
    assert_eq!(VercelService::get_param_texts(&params("{\"target\": []}"), "target"), Some(vec![]));
}

#[test]
fn texts_of_skips_what_is_no_string() {
    let items = vec![Json::Int(1), text("a"), Json::Null, text("b"), Json::Array(vec![text("c")])];
    assert_eq!(texts_of(&items), vec!["a".to_string(), "b".to_string()]);
    assert_eq!(texts_of(&vec![]), Vec::<String>::new());
}

#[test]
fn the_first_entry_of_a_name_counts() {
    let given: Params = vec![("limit".to_string(), Json::Int(3)), ("limit".to_string(), Json::Int(9))];
    assert_eq!(VercelService::get_param_i32(&given, "limit", 20), 3);
}

#[test]
fn dispatch_routes_health() {
    assert_eq!(service().dispatch("health", &params("{}")), Ok(Operation::Health));
    assert_eq!(service().dispatch("health", &params("{\"limit\": 5}")), Ok(Operation::Health));
    assert_eq!(
        service().dispatch("vercel.health", &params("{}")),
        Err(ServiceError::UnknownMethod("vercel.health".to_string()))
    );
}

#[test]
fn dispatch_routes_every_method_by_both_names() {
    let given = params(
        "{\"project_id\": \"prj_1\", \"deployment_id\": \"dpl_1\", \"key\": \"K\", \"value\": \"V\", \"limit\": 7}",
    );
    let expected = vec![
        ("projects", Operation::ListProjects { limit: 7 }),
        ("project", Operation::GetProject { project_id: "prj_1".to_string() }),
        ("deployments", Operation::ListDeployments { project_id: Some("prj_1".to_string()), limit: 7 }),
        ("deployment", Operation::GetDeployment { deployment_id: "dpl_1".to_string() }),
        ("logs", Operation::GetDeploymentLogs { deployment_id: "dpl_1".to_string() }),
        ("user", Operation::GetUser),
        ("env_vars", Operation::ListEnvVars { project_id: "prj_1".to_string(), target: None }),
        (
            "set_env",
            Operation::SetEnvVar {
                project_id: "prj_1".to_string(),
                key: "K".to_string(),
                value: "V".to_string(),
                target: None,
                env_type: None,
            },
        ),
        ("domains", Operation::ListDomains { project_id: "prj_1".to_string() }),
        ("redeploy", Operation::Redeploy { deployment_id: "dpl_1".to_string() }),
    ];
    for (short, operation) in expected {
        assert_eq!(service().dispatch(short, &given), Ok(operation.clone()));
        assert_eq!(service().dispatch(&format!("vercel.{}", short), &given), Ok(operation));
    }
}

#[test]
fn dispatch_refuses_an_unknown_method() {
    for method in ["", "nope", "vercel.", "vercel.nope", "Projects", "projects ", "vercel.vercel.projects", "fgp.projects"] {
        let refused = service().dispatch(method, &params("{\"project_id\": \"p\"}"));
        assert_eq!(refused, Err(ServiceError::UnknownMethod(method.to_string())));
    }
    assert_eq!(ServiceError::UnknownMethod("nope".to_string()).message(), "Unknown method: nope");
}

#[test]
fn a_missing_required_parameter_is_named_and_nothing_is_sent() {
    let cases = vec![
        ("project", "project_id"),
        ("deployment", "deployment_id"),
        ("logs", "deployment_id"),
        ("env_vars", "project_id"),
        ("set_env", "project_id"),
        ("domains", "project_id"),
        ("redeploy", "deployment_id"),
    ];
    for (method, name) in cases {
        for given in [params("{}"), params("{\"limit\": 5, \"other\": \"x\"}")] {
            let mut remote = Remote::answering(200, "{}");
            let result = call(&service(), &mut remote, method, &given);
            assert_eq!(result, Err(ServiceError::MissingParameter(name.to_string())));
            assert_eq!(remote.calls, 0);
            let result = call(&service(), &mut remote, &format!("vercel.{}", method), &given);
            assert_eq!(result, Err(ServiceError::MissingParameter(name.to_string())));
            assert_eq!(remote.calls, 0);
        }
    }
}

#[test]
fn a_required_parameter_that_is_no_string_is_missing() {
    for given in ["{\"project_id\": 5}", "{\"project_id\": null}", "{\"project_id\": [\"p\"]}", "{\"project_id\": true}"] {
        assert_eq!(
            service().dispatch("domains", &params(given)),
            Err(ServiceError::MissingParameter("project_id".to_string()))
        );
    }
}

#[test]
fn set_env_without_value_names_value() {
    let mut remote = Remote::answering(200, "{}");
    let given = params("{\"project_id\": \"prj_1\", \"key\": \"FOO\"}");
    let result = call(&service(), &mut remote, "set_env", &given);
    assert_eq!(result, Err(ServiceError::MissingParameter("value".to_string())));
    assert_eq!(result.unwrap_err().message(), "Missing required parameter: value");
    assert_eq!(remote.calls, 0);
}

#[test]
fn set_env_names_the_first_parameter_that_is_missing() {
    let s = service();
    assert_eq!(
        s.dispatch("set_env", &params("{\"key\": \"K\", \"value\": \"V\"}")),
        Err(ServiceError::MissingParameter("project_id".to_string()))
    );
    assert_eq!(
        s.dispatch("set_env", &params("{\"project_id\": \"p\", \"value\": \"V\"}")),
        Err(ServiceError::MissingParameter("key".to_string()))
    );
    assert_eq!(
        s.dispatch("set_env", &params("{\"project_id\": \"p\"}")),
        Err(ServiceError::MissingParameter("key".to_string()))
    );
}

#[test]
fn set_env_takes_target_and_type() {
    let given = params(
        "{\"project_id\": \"p\", \"key\": \"K\", \"value\": \"V\", \"target\": [\"preview\", 1], \"type\": \"plain\"}",
    );
    assert_eq!(
        service().dispatch("set_env", &given),
        Ok(Operation::SetEnvVar {
            project_id: "p".to_string(),
            key: "K".to_string(),
            value: "V".to_string(),
            target: Some(vec!["preview".to_string()]),
            env_type: Some("plain".to_string()),
        })
    );
    let given = params("{\"project_id\": \"p\", \"key\": \"K\", \"value\": \"V\", \"target\": \"preview\", \"type\": 1}");
    assert_eq!(
        service().dispatch("set_env", &given),
        Ok(Operation::SetEnvVar {
            project_id: "p".to_string(),
            key: "K".to_string(),
            value: "V".to_string(),
            target: None,
            env_type: None,
        })
    );
}

#[test]
fn limit_defaults_to_twenty() {
    let s = service();
    assert_eq!(s.dispatch("projects", &params("{}")), Ok(Operation::ListProjects { limit: 20 }));
    assert_eq!(s.dispatch("projects", &params("{\"limit\": \"many\"}")), Ok(Operation::ListProjects { limit: 20 }));
    assert_eq!(s.dispatch("projects", &params("{\"limit\": 2.5}")), Ok(Operation::ListProjects { limit: 20 }));
    assert_eq!(
        s.dispatch("deployments", &params("{}")),
        Ok(Operation::ListDeployments { project_id: None, limit: 20 })
    );
    assert_eq!(
        s.dispatch("deployments", &params("{\"limit\": null, \"project_id\": 5}")),
        Ok(Operation::ListDeployments { project_id: None, limit: 20 })
    );
    let mut remote = Remote::answering(200, "{\"projects\": []}");
    assert!(call(&s, &mut remote, "projects", &params("{\"limit\": \"x\"}")).is_ok());
    assert_eq!(remote.last_url, "https://api.vercel.com/v9/projects?limit=20");
}

#[test]
fn project_by_name_is_project_by_id() {
    let s = service();
    let by_id = s.dispatch("project", &params("{\"project_id\": \"my-app\"}"));
    let by_name = s.dispatch("project", &params("{\"name\": \"my-app\"}"));
    assert_eq!(by_id, Ok(Operation::GetProject { project_id: "my-app".to_string() }));
    assert_eq!(by_name, by_id);
    let body = "{\"id\": \"prj_1\", \"name\": \"my-app\"}";
    let mut first = Remote::answering(200, body);
    let mut second = Remote::answering(200, body);
    let with_id = call(&s, &mut first, "project", &params("{\"project_id\": \"my-app\"}"));
    let with_name = call(&s, &mut second, "project", &params("{\"name\": \"my-app\"}"));
    assert!(with_id.is_ok());
    assert_eq!(with_id, with_name);
    assert_eq!(first.last_url, "https://api.vercel.com/v9/projects/my-app");
    assert_eq!(first.last_url, second.last_url);
}

#[test]
fn project_prefers_project_id_to_name() {
    assert_eq!(
        service().dispatch("project", &params("{\"name\": \"by-name\", \"project_id\": \"by-id\"}")),
        Ok(Operation::GetProject { project_id: "by-id".to_string() })
    );
}

#[test]
fn deployment_by_id_is_deployment_by_deployment_id() {
    let s = service();
    assert_eq!(
        s.dispatch("deployment", &params("{\"id\": \"dpl_1\"}")),
        s.dispatch("deployment", &params("{\"deployment_id\": \"dpl_1\"}"))
    );
    assert_eq!(
        s.dispatch("logs", &params("{\"id\": \"dpl_1\"}")),
        Ok(Operation::GetDeploymentLogs { deployment_id: "dpl_1".to_string() })
    );
    assert_eq!(
        s.dispatch("redeploy", &params("{\"id\": \"dpl_1\"}")),
        Err(ServiceError::MissingParameter("deployment_id".to_string()))
    );
}

#[test]
fn request_carries_each_operation_out() {
    let s = service();
    let cases = vec![
        (Operation::Health, HttpMethod::Get, "https://api.vercel.com/v2/user"),
        (Operation::ListProjects { limit: 3 }, HttpMethod::Get, "https://api.vercel.com/v9/projects?limit=3"),
        (
            Operation::GetProject { project_id: "p".to_string() },
            HttpMethod::Get,
            "https://api.vercel.com/v9/projects/p",
        ),
        (
            Operation::ListDeployments { project_id: Some("p".to_string()), limit: -1 },
            HttpMethod::Get,
            "https://api.vercel.com/v6/deployments?limit=-1&projectId=p",
        ),
        (
            Operation::ListDeployments { project_id: None, limit: 20 },
            HttpMethod::Get,
            "https://api.vercel.com/v6/deployments?limit=20",
        ),
        (
            Operation::GetDeployment { deployment_id: "d".to_string() },
            HttpMethod::Get,
            "https://api.vercel.com/v13/deployments/d",
        ),
        (
            Operation::GetDeploymentLogs { deployment_id: "d".to_string() },
            HttpMethod::Get,
            "https://api.vercel.com/v2/deployments/d/events",
        ),
        (Operation::GetUser, HttpMethod::Get, "https://api.vercel.com/v2/user"),
        (
            Operation::ListEnvVars { project_id: "p".to_string(), target: Some("preview".to_string()) },
            HttpMethod::Get,
            "https://api.vercel.com/v9/projects/p/env?target=preview",
        ),
        (
            Operation::SetEnvVar {
                project_id: "p".to_string(),
                key: "K".to_string(),
                value: "V".to_string(),
                target: None,
                env_type: None,
            },
            HttpMethod::Post,
            "https://api.vercel.com/v10/projects/p/env",
        ),
        (
            Operation::ListDomains { project_id: "p".to_string() },
            HttpMethod::Get,
            "https://api.vercel.com/v9/projects/p/domains",
        ),
        (
            Operation::Redeploy { deployment_id: "d".to_string() },
            HttpMethod::Post,
            "https://api.vercel.com/v13/deployments?forceNew=1",
        ),
    ];
    for (operation, method, url) in cases {
        let request = s.request(&operation);
        assert_eq!(request.method, method);
        assert_eq!(request.url, url);
        assert_eq!(request.headers[0].value, "Bearer tok_123");
        assert_eq!(request.body.is_some(), method == HttpMethod::Post);
    }
}

#[test]
fn deployments_counts_what_the_api_returned() {
    let body = "{\"deployments\": [
        {\"uid\": \"dpl_1\", \"name\": \"web\", \"url\": \"a.vercel.app\"},
        {\"uid\": \"dpl_2\", \"name\": \"web\", \"url\": \"b.vercel.app\"},
        {\"id\": \"dpl_3\", \"name\": \"web\", \"url\": \"c.vercel.app\"}]}";
    let mut remote = Remote::answering(200, body);
    let result =
        call(&service(), &mut remote, "deployments", &params("{\"project_id\": \"prj_123\", \"limit\": 5}")).unwrap();
    assert_eq!(remote.calls, 1);
    assert_eq!(remote.last_url, "https://api.vercel.com/v6/deployments?limit=5&projectId=prj_123");
    assert_eq!(result.get("count"), Some(&Json::Int(3)));
    let deployments = result.get("deployments").and_then(|d| d.as_array()).unwrap();
    assert_eq!(deployments.len(), 3);
    assert_eq!(deployments[0].get("uid"), Some(&text("dpl_1")));
    assert_eq!(deployments[1].get("url"), Some(&text("b.vercel.app")));
    assert_eq!(deployments[2].get("uid"), Some(&text("dpl_3")));
    match &result {
        Json::Object(members) => assert_eq!(members.len(), 2),
        _ => panic!("a listing is an object"),
    }
}

#[test]
fn projects_counts_what_the_api_returned() {
    let mut remote = Remote::answering(200, "{\"projects\": [{\"id\": \"a\", \"name\": \"one\"}]}");
    let result = call(&service(), &mut remote, "vercel.projects", &params("{}")).unwrap();
    assert_eq!(result.get("count"), Some(&Json::Int(1)));
    assert_eq!(
        result.get("projects").and_then(|p| p.as_array()).map(|p| p[0].get("name").cloned()),
        Some(Some(text("one")))
    );
    let mut empty = Remote::answering(200, "{\"projects\": []}");
    let result = call(&service(), &mut empty, "projects", &params("{\"limit\": 50}")).unwrap();
    assert_eq!(result.get("count"), Some(&Json::Int(0)));
    assert_eq!(result.get("projects"), Some(&Json::Array(vec![])));
}

#[test]
fn logs_keeps_the_order_of_the_events() {
    let body = "[{\"type\": \"command\", \"created\": 30, \"text\": \"build\"},
                 {\"type\": \"stdout\", \"created\": 10, \"text\": \"one\"},
                 {\"type\": \"stdout\", \"created\": 20, \"text\": \"two\"}]";
    let mut remote = Remote::answering(200, body);
    let result = call(&service(), &mut remote, "logs", &params("{\"id\": \"dpl_1\"}")).unwrap();
    assert_eq!(remote.last_url, "https://api.vercel.com/v2/deployments/dpl_1/events");
    assert_eq!(result.get("count"), Some(&Json::Int(3)));
    let events = result.get("events").and_then(|e| e.as_array()).unwrap();
    let texts: Vec<Option<&str>> = events.iter().map(|e| e.get("text").and_then(|t| t.as_str())).collect();
    assert_eq!(texts, vec![Some("build"), Some("one"), Some("two")]);
}

#[test]
fn project_and_deployment_are_written_as_they_were_read() {
    let mut remote = Remote::answering(200, "{\"id\": \"prj_1\", \"name\": \"web\", \"extra\": 1}");
    let result = call(&service(), &mut remote, "project", &params("{\"project_id\": \"prj_1\"}")).unwrap();
    assert_eq!(result.get("id"), Some(&text("prj_1")));
    assert_eq!(result.get("name"), Some(&text("web")));
    assert_eq!(result.get("framework"), Some(&Json::Null));
    assert_eq!(result.get("extra"), None);
    let mut remote = Remote::answering(200, "{\"id\": \"dpl_1\", \"name\": \"web\", \"url\": \"u\"}");
    let result = call(&service(), &mut remote, "deployment", &params("{\"deployment_id\": \"dpl_1\"}")).unwrap();
    assert_eq!(result.get("uid"), Some(&text("dpl_1")));
    assert_eq!(result.get("readyState"), Some(&text("")));
}

#[test]
fn raw_results_are_handed_on_as_they_came() {
    let body = "{\"user\": {\"id\": \"usr_1\", \"billing\": {\"plan\": \"pro\"}}, \"n\": 1.25}";
    let expected = Json::parse(body).unwrap();
    let given = params("{\"project_id\": \"p\", \"deployment_id\": \"d\", \"key\": \"K\", \"value\": \"V\"}");
    for method in ["user", "env_vars", "set_env", "domains", "redeploy"] {
        let mut remote = Remote::answering(200, body);
        assert_eq!(call(&service(), &mut remote, method, &given), Ok(expected.clone()));
        assert_eq!(remote.calls, 1);
    }
}

#[test]
fn status_404_is_an_error_for_every_listing_and_fetch() {
    let given = params("{\"project_id\": \"p\", \"deployment_id\": \"d\", \"key\": \"K\", \"value\": \"V\"}");
    for method in
        ["projects", "project", "deployments", "deployment", "logs", "user", "env_vars", "set_env", "domains", "redeploy"]
    {
        let mut remote = Remote::answering(404, "{\"error\": \"not found\"}");
        let result = call(&service(), &mut remote, method, &given);
        assert_eq!(result, Err(ServiceError::Status { code: 404, body: "{\"error\": \"not found\"}".to_string() }));
        let message = result.unwrap_err().message();
        assert!(message.contains("404"));
        assert!(message.contains("{\"error\": \"not found\"}"));
    }
}

#[test]
fn a_success_with_a_wrong_body_is_a_decode_error() {
    let mut remote = Remote::answering(200, "{\"deployments\": \"none\"}");
    assert_eq!(call(&service(), &mut remote, "deployments", &params("{}")), Err(ServiceError::Decode));
    let mut remote = Remote::answering(200, "oops");
    assert_eq!(call(&service(), &mut remote, "user", &params("{}")), Err(ServiceError::Decode));
}

#[test]
fn health_reports_healthy_on_200() {
    let mut remote = Remote::answering(200, "{\"user\": {}}");
    let result = call(&service(), &mut remote, "health", &params("{}")).unwrap();
    assert_eq!(remote.last_url, "https://api.vercel.com/v2/user");
    assert_eq!(result.get("status"), Some(&text("healthy")));
    assert_eq!(result.get("api_connected"), Some(&Json::Bool(true)));
    assert_eq!(result.get("version"), Some(&text("0.1.0")));
}

#[test]
fn health_reports_unhealthy_on_401() {
    let mut remote = Remote::answering(401, "{\"error\": {\"code\": \"forbidden\"}}");
    let result = call(&service(), &mut remote, "health", &params("{}")).unwrap();
    assert_eq!(result.get("status"), Some(&text("unhealthy")));
    assert_eq!(result.get("api_connected"), Some(&Json::Bool(false)));
    assert_eq!(result.get("version"), Some(&text("0.1.0")));
}

#[test]
fn health_does_not_read_the_body() {
    assert_eq!(
        VercelService::respond(&Operation::Health, &answered(200, "not json")),
        Ok(VercelService::health_result(true))
    );
    assert_eq!(
        VercelService::respond(&Operation::Health, &answered(503, "")),
        Ok(VercelService::health_result(false))
    );
}

#[test]
fn health_without_an_answer_is_an_error() {
    assert_eq!(
        VercelService::respond(&Operation::Health, &Exchange::Failed("dns failure".to_string())),
        Err(ServiceError::Transport("Failed to ping Vercel API: dns failure".to_string()))
    );
}

#[test]
fn respond_without_an_answer_is_an_error() {
    let failed = Exchange::Failed("timed out".to_string());
    assert_eq!(
        VercelService::respond(&Operation::GetUser, &failed),
        Err(ServiceError::Transport("Failed to send request: timed out".to_string()))
    );
    assert_eq!(
        VercelService::respond(&Operation::ListProjects { limit: 20 }, &failed),
        Err(ServiceError::Transport("Failed to send request: timed out".to_string()))
    );
}

#[test]
fn finish_takes_what_the_body_reads_as() {
    let exchange = answered(200, "ignored");
    let parsed = Json::parse("{\"projects\": [{\"id\": \"a\", \"name\": \"n\"}, {\"id\": \"b\", \"name\": \"m\"}]}");
    let result = VercelService::finish(&Operation::ListProjects { limit: 1 }, &exchange, parsed).unwrap();
    assert_eq!(result.get("count"), Some(&Json::Int(2)));
    assert_eq!(VercelService::finish(&Operation::GetUser, &exchange, None), Err(ServiceError::Decode));
    assert_eq!(VercelService::finish(&Operation::GetUser, &exchange, Some(Json::Int(1))), Ok(Json::Int(1)));
    assert_eq!(
        VercelService::finish(&Operation::Health, &exchange, None),
        Ok(VercelService::health_result(true))
    );
}

#[test]
fn listing_holds_entries_and_count() {
    let json = listing_to_json("events", Json::Array(vec![Json::Null, Json::Null]), 2);
    assert_eq!(
        json,
        Json::Object(vec![
            ("events".to_string(), Json::Array(vec![Json::Null, Json::Null])),
            ("count".to_string(), Json::Int(2)),
        ])
    );
    assert_eq!(count_to_json(0), Json::Int(0));
    assert_eq!(count_to_json(12345), Json::Int(12345));
    assert_eq!(count_to_json(i64::MAX as usize), Json::Int(i64::MAX));
    if usize::BITS == 64 {
        assert_eq!(count_to_json(usize::MAX), Json::Number("18446744073709551615".to_string()));
    }
}

#[test]
fn on_start_lets_the_service_start_on_any_answer() {
    assert_eq!(VercelService::on_start(&answered(200, "{}")), Ok(true));
    assert_eq!(VercelService::on_start(&answered(403, "{}")), Ok(false));
    assert_eq!(
        VercelService::on_start(&Exchange::Failed("unreachable".to_string())),
        Err(ServiceError::Transport("Failed to ping Vercel API: unreachable".to_string()))
    );
}

#[test]
fn health_check_of_an_unreadable_probe_is_unhealthy() {
    let unhealthy =
        vec![("vercel_api".to_string(), HealthStatus { ok: false, message: Some("Failed to parse response".to_string()) })];
    assert_eq!(VercelService::health_check(&answered(200, "<html>")), unhealthy);
    assert_eq!(VercelService::health_check(&answered(200, "")), unhealthy);
    assert_eq!(VercelService::health_check(&answered(204, "{\"user\": ")), unhealthy);
    assert_eq!(VercelService::health_check_of(&answered(200, "{}"), None), unhealthy);
    assert_eq!(
        VercelService::health_check_of(&answered(200, "<html>"), Some(Json::Null)),
        vec![("vercel_api".to_string(), HealthStatus { ok: true, message: None })]
    );
}

#[test]
fn health_check_of_another_status_does_not_read_the_body() {
    let unhealthy =
        vec![("vercel_api".to_string(), HealthStatus { ok: false, message: Some("API returned error".to_string()) })];
    assert_eq!(VercelService::health_check(&answered(401, "<html>")), unhealthy);
    assert_eq!(VercelService::health_check(&answered(401, "{}")), unhealthy);
    assert_eq!(VercelService::health_check_of(&answered(500, ""), Some(Json::Null)), unhealthy);
}

#[test]
fn health_check_reports_the_api() {
    assert_eq!(
        VercelService::health_check(&answered(200, "{}")),
        vec![("vercel_api".to_string(), HealthStatus { ok: true, message: None })]
    );
    assert_eq!(
        VercelService::health_check(&answered(500, "{}")),
        vec![("vercel_api".to_string(), HealthStatus { ok: false, message: Some("API returned error".to_string()) })]
    );
    assert_eq!(
        VercelService::health_check(&Exchange::Failed("unreachable".to_string())),
        vec![(
            "vercel_api".to_string(),
            HealthStatus { ok: false, message: Some("Failed to ping Vercel API: unreachable".to_string()) }
        )]
    );
}

#[test]
fn the_catalog_rules_the_dispatch() {
    let s = service();
    let methods: Vec<MethodInfo> = s.method_list();
    let everything = params(
        "{\"project_id\": \"p\", \"deployment_id\": \"d\", \"key\": \"K\", \"value\": \"V\", \"limit\": 1,
          \"target\": [\"preview\"], \"type\": \"plain\"}",
    );
    for method in &methods {
        assert!(s.dispatch(&method.name, &everything).is_ok());
        match method.name.strip_prefix("vercel.") {
            Some(short) => assert_eq!(s.dispatch(short, &everything), s.dispatch(&method.name, &everything)),
            None => assert_eq!(method.name, "health"),
        }
        let required: Vec<&str> = method.params.iter().filter(|p| p.required).map(|p| p.name.as_str()).collect();
        match required.first() {
            Some(first) => {
                assert_eq!(s.dispatch(&method.name, &params("{}")), Err(ServiceError::MissingParameter(first.to_string())))
            }
            None => assert!(s.dispatch(&method.name, &params("{}")).is_ok()),
        }
        for (i, name) in required.iter().enumerate() {
            let given: Params = everything
                .iter()
                .filter(|(k, _)| k != name && k != "name" && k != "id")
                .map(|(k, v)| (k.clone(), v.clone()))
                .collect();
            assert_eq!(s.dispatch(&method.name, &given), Err(ServiceError::MissingParameter(required[i].to_string())));
        }
        for optional in method.params.iter().filter(|p| !p.required) {
            let given: Params =
                everything.iter().filter(|(k, _)| *k != optional.name).map(|(k, v)| (k.clone(), v.clone())).collect();
            assert!(s.dispatch(&method.name, &given).is_ok());
        }
    }
}
