//! The Vercel REST API, one operation at a time: the request that asks for
//! it, and what its answer means.

use vstd::prelude::*;

use crate::error::{list_view, one_view, ServiceError, ServiceErrorModel};
use crate::http::{is_success, Exchange, ExchangeModel, Header, HttpMethod, HttpRequest, HttpRequestModel};
use crate::json::{
    array_view, json_text_value, json_view, members_view, object_view, views, Json, JsonModel,
};
use crate::models::{
    decode_deployments, decode_events, decode_projects, read_deployments, read_events, read_projects, Deployment,
    DeploymentEvent, DeploymentEventModel, DeploymentModel, Project, ProjectModel, User, UserModel,
};
use crate::text::{decimal, decimal_of_i64};

verus! {

/// Where the API lives.
pub const API_BASE: &'static str = "https://api.vercel.com";

/// The number of entries that a listing asks for where none is given.
pub const DEFAULT_LIMIT: i32 = 20;

/// The most idle connections that are kept open to one host.
pub const MAX_IDLE_PER_HOST: usize = 5;

/// The seconds after which a request that has no answer yet is given up.
pub const REQUEST_TIMEOUT_SECONDS: u64 = 30;

/// How the connections to the API are to be kept: shared by all requests,
/// with a cap on the idle ones and a time limit on each request.
#[derive(Debug, Clone, Copy, PartialEq, Eq, Structural)]
pub struct ConnectionSettings {
    pub max_idle_per_host: usize,
    pub timeout_seconds: u64,
}

/// A client of the API: it holds the credential that every request carries.
pub struct VercelClient {
    token: String,
}

impl View for VercelClient {
    type V = Seq<char>;

    /// The credential.
    closed spec fn view(&self) -> Seq<char> {
        self.token@
    }
}

/// The headers of every request: the credential, and the wish for JSON.
pub open spec fn request_headers(token: Seq<char>) -> Seq<(Seq<char>, Seq<char>)> {
    seq![("Authorization"@, "Bearer "@ + token), ("Accept"@, "application/json"@)]
}

/// The GET request for `endpoint`.
pub open spec fn get_request(token: Seq<char>, endpoint: Seq<char>) -> HttpRequestModel {
    HttpRequestModel {
        method: HttpMethod::Get,
        url: API_BASE@ + endpoint,
        headers: request_headers(token),
        body: None,
    }
}

/// The POST request that sends `body` to `endpoint`.
pub open spec fn post_request(token: Seq<char>, endpoint: Seq<char>, body: JsonModel) -> HttpRequestModel {
    HttpRequestModel {
        method: HttpMethod::Post,
        url: API_BASE@ + endpoint,
        headers: request_headers(token),
        body: Some(body),
    }
}

/// The number of entries to ask for.
pub open spec fn limit_or_default(limit: Option<i32>) -> int {
    match limit {
        Some(n) => n as int,
        None => DEFAULT_LIMIT as int,
    }
}

/// The path that lists projects, `limit` of them at most.
pub open spec fn projects_endpoint(limit: int) -> Seq<char> {
    "/v9/projects?limit="@ + decimal(limit)
}

/// The path of one project, by its identifier or its name.
pub open spec fn project_endpoint(project_id: Seq<char>) -> Seq<char> {
    "/v9/projects/"@ + project_id
}

/// The path that lists deployments, `limit` of them at most, those of one
/// project where one is given.
pub open spec fn deployments_endpoint(project_id: Option<Seq<char>>, limit: int) -> Seq<char> {
    let listing = "/v6/deployments?limit="@ + decimal(limit);
    match project_id {
        Some(id) => listing + "&projectId="@ + id,
        None => listing,
    }
}

/// The path of one deployment, by its identifier or its URL.
pub open spec fn deployment_endpoint(deployment_id: Seq<char>) -> Seq<char> {
    "/v13/deployments/"@ + deployment_id
}

/// The path of the log of one deployment.
pub open spec fn events_endpoint(deployment_id: Seq<char>) -> Seq<char> {
    "/v2/deployments/"@ + deployment_id + "/events"@
}

/// The path of the credential's own user.
pub open spec fn user_endpoint() -> Seq<char> {
    "/v2/user"@
}

/// The path that lists the environment variables of a project, those of
/// one environment where one is given.
pub open spec fn env_vars_endpoint(project_id: Seq<char>, target: Option<Seq<char>>) -> Seq<char> {
    let listing = "/v9/projects/"@ + project_id + "/env"@;
    match target {
        Some(environment) => listing + "?target="@ + environment,
        None => listing,
    }
}

/// The path that takes a new environment variable of a project.
pub open spec fn set_env_endpoint(project_id: Seq<char>) -> Seq<char> {
    "/v10/projects/"@ + project_id + "/env"@
}

/// The path that lists the domains of a project.
pub open spec fn domains_endpoint(project_id: Seq<char>) -> Seq<char> {
    "/v9/projects/"@ + project_id + "/domains"@
}

/// The path that takes a deployment to deploy again.
pub open spec fn redeploy_endpoint() -> Seq<char> {
    "/v13/deployments?forceNew=1"@
}

/// The environments that a variable is set for where none are given.
pub open spec fn all_environments() -> Seq<Seq<char>> {
    seq!["production"@, "preview"@, "development"@]
}

/// Texts as an array of strings.
pub open spec fn texts_json(texts: Seq<Seq<char>>) -> JsonModel {
    JsonModel::Array(Seq::new(texts.len(), |i: int| JsonModel::Str(texts[i])))
}

/// What is sent to set a variable: its key and value, how it is stored
/// (`encrypted` where nothing is given) and the environments it is set for
/// (all three where none are given).
pub open spec fn set_env_body(
    key: Seq<char>,
    value: Seq<char>,
    target: Option<Seq<Seq<char>>>,
    env_type: Option<Seq<char>>,
) -> JsonModel {
    JsonModel::Object(
        seq![
            ("key"@, JsonModel::Str(key)),
            ("value"@, JsonModel::Str(value)),
            (
                "type"@,
                JsonModel::Str(
                    match env_type {
                        Some(kind) => kind,
                        None => "encrypted"@,
                    },
                ),
            ),
            (
                "target"@,
                texts_json(
                    match target {
                        Some(environments) => environments,
                        None => all_environments(),
                    },
                ),
            ),
        ],
    )
}

/// What is sent to deploy a deployment again.
pub open spec fn redeploy_body(deployment_id: Seq<char>) -> JsonModel {
    JsonModel::Object(seq![("deploymentId"@, JsonModel::Str(deployment_id))])
}

/// What is told of a request that got no answer.
pub open spec fn send_failure(reason: Seq<char>) -> ServiceErrorModel {
    ServiceErrorModel::Transport("Failed to send request: "@ + reason)
}

/// What is told of a probe that got no answer.
pub open spec fn ping_failure(reason: Seq<char>) -> ServiceErrorModel {
    ServiceErrorModel::Transport("Failed to ping Vercel API: "@ + reason)
}

/// What a probe shows: whether the API answered with success. A probe
/// that got no answer is a failure of its own, not `false`.
pub open spec fn ping_outcome(exchange: ExchangeModel) -> Result<bool, ServiceErrorModel> {
    match exchange {
        ExchangeModel::Answered { status, .. } => Ok(is_success(status)),
        ExchangeModel::Failed(reason) => Err(ping_failure(reason)),
    }
}

/// The body of an answer that reports success. An answer with another
/// status is an error that carries the status and the body as they came.
pub open spec fn checked_body(exchange: ExchangeModel) -> Result<Seq<char>, ServiceErrorModel> {
    match exchange {
        ExchangeModel::Answered { status, body } => if is_success(status) {
            Ok(body)
        } else {
            Err(ServiceErrorModel::Status { code: status, body })
        },
        ExchangeModel::Failed(reason) => Err(send_failure(reason)),
    }
}

/// The JSON of an answer, where `parsed` is what its body reads as.
pub open spec fn json_body(exchange: ExchangeModel, parsed: Option<JsonModel>) -> Result<JsonModel, ServiceErrorModel> {
    match checked_body(exchange) {
        Err(error) => Err(error),
        Ok(_) => match parsed {
            Some(json) => Ok(json),
            None => Err(ServiceErrorModel::Decode),
        },
    }
}

/// The projects of a listing: the array under `projects`.
pub open spec fn projects_in(json: JsonModel) -> Result<Seq<ProjectModel>, ServiceErrorModel> {
    match json.get("projects"@) {
        Some(JsonModel::Array(items)) => match decode_projects(items) {
            Some(list) => Ok(list),
            None => Err(ServiceErrorModel::Decode),
        },
        _ => Err(ServiceErrorModel::Decode),
    }
}

/// The deployments of a listing: the array under `deployments`.
pub open spec fn deployments_in(json: JsonModel) -> Result<Seq<DeploymentModel>, ServiceErrorModel> {
    match json.get("deployments"@) {
        Some(JsonModel::Array(items)) => match decode_deployments(items) {
            Some(list) => Ok(list),
            None => Err(ServiceErrorModel::Decode),
        },
        _ => Err(ServiceErrorModel::Decode),
    }
}

/// The events of a log: the answer is the array itself.
pub open spec fn events_in(json: JsonModel) -> Result<Seq<DeploymentEventModel>, ServiceErrorModel> {
    match json {
        JsonModel::Array(items) => match decode_events(items) {
            Some(list) => Ok(list),
            None => Err(ServiceErrorModel::Decode),
        },
        _ => Err(ServiceErrorModel::Decode),
    }
}

/// The project of an answer: the answer is the project itself.
pub open spec fn project_in(json: JsonModel) -> Result<ProjectModel, ServiceErrorModel> {
    match ProjectModel::decode(json) {
        Some(project) => Ok(project),
        None => Err(ServiceErrorModel::Decode),
    }
}

/// The deployment of an answer: the answer is the deployment itself.
pub open spec fn deployment_in(json: JsonModel) -> Result<DeploymentModel, ServiceErrorModel> {
    match DeploymentModel::decode(json) {
        Some(deployment) => Ok(deployment),
        None => Err(ServiceErrorModel::Decode),
    }
}

/// The user of an answer: the object under `user`.
pub open spec fn user_in(json: JsonModel) -> Result<UserModel, ServiceErrorModel> {
    match json.get("user"@) {
        Some(inner) => match UserModel::decode(inner) {
            Some(user) => Ok(user),
            None => Err(ServiceErrorModel::Decode),
        },
        None => Err(ServiceErrorModel::Decode),
    }
}

/// What follows the JSON of an answer, if there is one.
pub open spec fn and_then<A, B>(
    first: Result<A, ServiceErrorModel>,
    next: spec_fn(A) -> Result<B, ServiceErrorModel>,
) -> Result<
    B,
    ServiceErrorModel,
> {
    match first {
        Ok(value) => next(value),
        Err(error) => Err(error),
    }
}

fn texts_to_json(texts: &Vec<String>) -> (json: Json)
    ensures
        json@ == texts_json(views(texts@)),
{
    let mut items: Vec<Json> = Vec::new();
    let mut i: usize = 0;
    while i < texts.len()
        invariant
            0 <= i <= texts.len(),
            items.len() == i,
            forall|k: int| 0 <= k < i ==> items[k]@ == JsonModel::Str(texts[k]@),
        decreases texts.len() - i,
    {
        items.push(Json::Str(texts[i].clone()));
        i = i + 1;
    }
    proof {
        array_view(items);
        assert(views(items@) =~= texts_json(views(texts@))->Array_0);
    }
    Json::Array(items)
}

impl VercelClient {
    /// A client that carries `token`. An empty credential is refused.
    pub fn new(token: String) -> (made: Result<VercelClient, ServiceError>)
        ensures
            match made {
                Ok(client) => token@.len() > 0 && client@ == token@,
                Err(error) => token@.len() == 0 && error == ServiceError::Configuration,
            },
    {
        if token.as_str().is_empty() {
            Err(ServiceError::Configuration)
        } else {
            Ok(VercelClient { token })
        }
    }

    /// How the connections to the API are to be kept: at most 5 idle ones
    /// to a host, and 30 seconds for a request.
    pub fn connection_settings() -> (settings: ConnectionSettings)
        ensures
            settings.max_idle_per_host == 5,
            settings.timeout_seconds == 30,
    {
        ConnectionSettings { max_idle_per_host: MAX_IDLE_PER_HOST, timeout_seconds: REQUEST_TIMEOUT_SECONDS }
    }

    fn headers(&self) -> (headers: Vec<Header>)
        ensures
            views(headers@) == request_headers(self@),
    {
        let mut bearer = "Bearer ".to_owned();
        bearer.append(self.token.as_str());
        let mut headers: Vec<Header> = Vec::new();
        headers.push(Header { name: "Authorization".to_owned(), value: bearer });
        headers.push(Header { name: "Accept".to_owned(), value: "application/json".to_owned() });
        assert(views(headers@) =~= request_headers(self@));
        headers
    }

    /// The authenticated GET request for `endpoint`.
    pub fn get(&self, endpoint: &str) -> (request: HttpRequest)
        ensures
            request@ == get_request(self@, endpoint@),
    {
        let mut url = API_BASE.to_owned();
        url.append(endpoint);
        let headers = self.headers();
        let request = HttpRequest { method: HttpMethod::Get, url, headers, body: None };
        assert(request@.headers =~= views(headers@));
        request
    }

    /// The authenticated POST request that sends `body` to `endpoint`.
    pub fn post(&self, endpoint: &str, body: Json) -> (request: HttpRequest)
        ensures
            request@ == post_request(self@, endpoint@, body@),
    {
        let mut url = API_BASE.to_owned();
        url.append(endpoint);
        let headers = self.headers();
        let request = HttpRequest { method: HttpMethod::Post, url, headers, body: Some(body) };
        assert(request@.headers =~= views(headers@));
        request
    }

    /// What a probe shows, from what came of sending it.
    pub fn ping_outcome(exchange: &Exchange) -> (alive: Result<bool, ServiceError>)
        ensures
            match alive {
                Ok(ok) => ping_outcome(exchange@) == Ok::<bool, ServiceErrorModel>(ok),
                Err(error) => ping_outcome(exchange@) == Err::<bool, ServiceErrorModel>(error@),
            },
    {
        match exchange {
            Exchange::Answered(response) => Ok(response.is_success()),
            Exchange::Failed(reason) => {
                let mut text = "Failed to ping Vercel API: ".to_owned();
                text.append(reason.as_str());
                Err(ServiceError::Transport(text))
            },
        }
    }

    /// The body of an answer that reports success; an error for any other
    /// status, and for a request that got no answer.
    pub fn checked_body<'a>(exchange: &'a Exchange) -> (body: Result<&'a str, ServiceError>)
        ensures
            match body {
                Ok(text) => checked_body(exchange@) == Ok::<Seq<char>, ServiceErrorModel>(text@),
                Err(error) => checked_body(exchange@) == Err::<Seq<char>, ServiceErrorModel>(error@),
            },
    {
        match exchange {
            Exchange::Answered(response) => {
                if response.is_success() {
                    Ok(response.body.as_str())
                } else {
                    Err(ServiceError::Status { code: response.status, body: response.body.clone() })
                }
            },
            Exchange::Failed(reason) => {
                let mut text = "Failed to send request: ".to_owned();
                text.append(reason.as_str());
                Err(ServiceError::Transport(text))
            },
        }
    }

    /// The JSON of an answer, given what its body reads as.
    pub fn json_of_parsed(exchange: &Exchange, parsed: Option<Json>) -> (json: Result<Json, ServiceError>)
        ensures
            one_view(json) == json_body(exchange@, json_view(parsed)),
    {
        match VercelClient::checked_body(exchange) {
            Err(error) => Err(error),
            Ok(_) => match parsed {
                Some(json) => Ok(json),
                None => Err(ServiceError::Decode),
            },
        }
    }

    /// The JSON of an answer: its body is read only where the status
    /// reports success.
    pub fn read_json(exchange: &Exchange) -> (json: Result<Json, ServiceError>)
        ensures
            one_view(json) == json_body(exchange@, json_text_value(exchange@.body())),
    {
        match VercelClient::checked_body(exchange) {
            Err(error) => Err(error),
            Ok(text) => VercelClient::json_of_parsed(exchange, Json::parse(text)),
        }
    }

    /// The projects that a listing holds.
    pub fn projects_in(json: &Json) -> (projects: Result<Vec<Project>, ServiceError>)
        ensures
            list_view(projects) == projects_in(json@),
    {
        match json.get("projects") {
            Some(Json::Array(items)) => {
                proof {
                    array_view(*items);
                }
                match read_projects(items) {
                    Some(list) => Ok(list),
                    None => Err(ServiceError::Decode),
                }
            },
            _ => Err(ServiceError::Decode),
        }
    }

    /// The deployments that a listing holds.
    pub fn deployments_in(json: &Json) -> (deployments: Result<Vec<Deployment>, ServiceError>)
        ensures
            list_view(deployments) == deployments_in(json@),
    {
        match json.get("deployments") {
            Some(Json::Array(items)) => {
                proof {
                    array_view(*items);
                }
                match read_deployments(items) {
                    Some(list) => Ok(list),
                    None => Err(ServiceError::Decode),
                }
            },
            _ => Err(ServiceError::Decode),
        }
    }

    /// The events that a log holds.
    pub fn events_in(json: &Json) -> (events: Result<Vec<DeploymentEvent>, ServiceError>)
        ensures
            list_view(events) == events_in(json@),
    {
        match json {
            Json::Array(items) => {
                proof {
                    array_view(*items);
                }
                match read_events(items) {
                    Some(list) => Ok(list),
                    None => Err(ServiceError::Decode),
                }
            },
            _ => Err(ServiceError::Decode),
        }
    }

    /// The project that an answer holds.
    pub fn project_in(json: &Json) -> (project: Result<Project, ServiceError>)
        ensures
            one_view(project) == project_in(json@),
    {
        match Project::from_json(json) {
            Some(project) => Ok(project),
            None => Err(ServiceError::Decode),
        }
    }

    /// The deployment that an answer holds.
    pub fn deployment_in(json: &Json) -> (deployment: Result<Deployment, ServiceError>)
        ensures
            one_view(deployment) == deployment_in(json@),
    {
        match Deployment::from_json(json) {
            Some(deployment) => Ok(deployment),
            None => Err(ServiceError::Decode),
        }
    }

    /// The user that an answer holds.
    pub fn user_in(json: &Json) -> (user: Result<User, ServiceError>)
        ensures
            one_view(user) == user_in(json@),
    {
        match json.get("user") {
            Some(inner) => match User::from_json(inner) {
                Some(user) => Ok(user),
                None => Err(ServiceError::Decode),
            },
            None => Err(ServiceError::Decode),
        }
    }

    /// The projects of the answer to `list_projects`.
    pub fn read_projects(exchange: &Exchange) -> (projects: Result<Vec<Project>, ServiceError>)
        ensures
            list_view(projects) == and_then(
                json_body(exchange@, json_text_value(exchange@.body())),
                |json: JsonModel| projects_in(json),
            ),
    {
        match VercelClient::read_json(exchange) {
            Ok(json) => VercelClient::projects_in(&json),
            Err(error) => Err(error),
        }
    }

    /// The project of the answer to `get_project`.
    pub fn read_project(exchange: &Exchange) -> (project: Result<Project, ServiceError>)
        ensures
            one_view(project) == and_then(
                json_body(exchange@, json_text_value(exchange@.body())),
                |json: JsonModel| project_in(json),
            ),
    {
        match VercelClient::read_json(exchange) {
            Ok(json) => VercelClient::project_in(&json),
            Err(error) => Err(error),
        }
    }

    /// The deployments of the answer to `list_deployments`.
    pub fn read_deployments(exchange: &Exchange) -> (deployments: Result<Vec<Deployment>, ServiceError>)
        ensures
            list_view(deployments) == and_then(
                json_body(exchange@, json_text_value(exchange@.body())),
                |json: JsonModel| deployments_in(json),
            ),
    {
        match VercelClient::read_json(exchange) {
            Ok(json) => VercelClient::deployments_in(&json),
            Err(error) => Err(error),
        }
    }

    /// The deployment of the answer to `get_deployment`.
    pub fn read_deployment(exchange: &Exchange) -> (deployment: Result<Deployment, ServiceError>)
        ensures
            one_view(deployment) == and_then(
                json_body(exchange@, json_text_value(exchange@.body())),
                |json: JsonModel| deployment_in(json),
            ),
    {
        match VercelClient::read_json(exchange) {
            Ok(json) => VercelClient::deployment_in(&json),
            Err(error) => Err(error),
        }
    }

    /// The events of the answer to `get_deployment_events`, in the order
    /// in which they came.
    pub fn read_deployment_events(exchange: &Exchange) -> (events: Result<Vec<DeploymentEvent>, ServiceError>)
        ensures
            list_view(events) == and_then(
                json_body(exchange@, json_text_value(exchange@.body())),
                |json: JsonModel| events_in(json),
            ),
    {
        match VercelClient::read_json(exchange) {
            Ok(json) => VercelClient::events_in(&json),
            Err(error) => Err(error),
        }
    }

    /// The user of the answer to `get_user`.
    pub fn read_user(exchange: &Exchange) -> (user: Result<User, ServiceError>)
        ensures
            one_view(user) == and_then(
                json_body(exchange@, json_text_value(exchange@.body())),
                |json: JsonModel| user_in(json),
            ),
    {
        match VercelClient::read_json(exchange) {
            Ok(json) => VercelClient::user_in(&json),
            Err(error) => Err(error),
        }
    }

    /// The probe: a request for the credential's own user.
    pub fn ping(&self) -> (request: HttpRequest)
        ensures
            request@ == get_request(self@, user_endpoint()),
    {
        self.get("/v2/user")
    }

    /// Asks for the projects, `limit` of them at most (20 where none is
    /// given).
    pub fn list_projects(&self, limit: Option<i32>) -> (request: HttpRequest)
        ensures
            request@ == get_request(self@, projects_endpoint(limit_or_default(limit))),
    {
        let limit = match limit {
            Some(n) => n,
            None => DEFAULT_LIMIT,
        };
        let mut endpoint = "/v9/projects?limit=".to_owned();
        endpoint.append(decimal_of_i64(limit as i64).as_str());
        self.get(endpoint.as_str())
    }

    /// Asks for one project, by its identifier or its name.
    pub fn get_project(&self, project_id: &str) -> (request: HttpRequest)
        ensures
            request@ == get_request(self@, project_endpoint(project_id@)),
    {
        let mut endpoint = "/v9/projects/".to_owned();
        endpoint.append(project_id);
        self.get(endpoint.as_str())
    }

    /// Asks for the deployments, `limit` of them at most (20 where none is
    /// given), of one project where one is given.
    pub fn list_deployments(&self, project_id: Option<&str>, limit: Option<i32>) -> (request: HttpRequest)
        ensures
            request@ == get_request(
                self@,
                deployments_endpoint(
                    match project_id {
                        Some(id) => Some(id@),
                        None => None,
                    },
                    limit_or_default(limit),
                ),
            ),
    {
        let limit = match limit {
            Some(n) => n,
            None => DEFAULT_LIMIT,
        };
        let mut endpoint = "/v6/deployments?limit=".to_owned();
        endpoint.append(decimal_of_i64(limit as i64).as_str());
        match project_id {
            Some(id) => {
                endpoint.append("&projectId=");
                endpoint.append(id);
            },
            None => {},
        }
        self.get(endpoint.as_str())
    }

    /// Asks for one deployment, by its identifier or its URL.
    pub fn get_deployment(&self, deployment_id: &str) -> (request: HttpRequest)
        ensures
            request@ == get_request(self@, deployment_endpoint(deployment_id@)),
    {
        let mut endpoint = "/v13/deployments/".to_owned();
        endpoint.append(deployment_id);
        self.get(endpoint.as_str())
    }

    /// Asks for the log of one deployment.
    pub fn get_deployment_events(&self, deployment_id: &str) -> (request: HttpRequest)
        ensures
            request@ == get_request(self@, events_endpoint(deployment_id@)),
    {
        let mut endpoint = "/v2/deployments/".to_owned();
        endpoint.append(deployment_id);
        endpoint.append("/events");
        self.get(endpoint.as_str())
    }

    /// Asks for the credential's own user.
    pub fn get_user(&self) -> (request: HttpRequest)
        ensures
            request@ == get_request(self@, user_endpoint()),
    {
        self.get("/v2/user")
    }

    /// Asks for the credential's own user, to be handed on as it comes.
    pub fn get_user_raw(&self) -> (request: HttpRequest)
        ensures
            request@ == get_request(self@, user_endpoint()),
    {
        self.get("/v2/user")
    }

    /// Asks for the environment variables of a project, those of one
    /// environment where one is given.
    pub fn list_env_vars(&self, project_id: &str, target: Option<&str>) -> (request: HttpRequest)
        ensures
            request@ == get_request(
                self@,
                env_vars_endpoint(
                    project_id@,
                    match target {
                        Some(environment) => Some(environment@),
                        None => None,
                    },
                ),
            ),
    {
        let mut endpoint = "/v9/projects/".to_owned();
        endpoint.append(project_id);
        endpoint.append("/env");
        match target {
            Some(environment) => {
                endpoint.append("?target=");
                endpoint.append(environment);
            },
            None => {},
        }
        self.get(endpoint.as_str())
    }

    /// Sets an environment variable of a project.
    pub fn set_env_var(
        &self,
        project_id: &str,
        key: &str,
        value: &str,
        target: Option<&Vec<String>>,
        env_type: Option<&str>,
    ) -> (request: HttpRequest)
        ensures
            request@ == post_request(
                self@,
                set_env_endpoint(project_id@),
                set_env_body(
                    key@,
                    value@,
                    match target {
                        Some(environments) => Some(views(environments@)),
                        None => None,
                    },
                    match env_type {
                        Some(kind) => Some(kind@),
                        None => None,
                    },
                ),
            ),
    {
        let mut endpoint = "/v10/projects/".to_owned();
        endpoint.append(project_id);
        endpoint.append("/env");
        let kind = match env_type {
            Some(kind) => kind.to_owned(),
            None => "encrypted".to_owned(),
        };
        let environments = match target {
            Some(environments) => texts_to_json(environments),
            None => {
                let mut all: Vec<String> = Vec::new();
                all.push("production".to_owned());
                all.push("preview".to_owned());
                all.push("development".to_owned());
                assert(views(all@) =~= all_environments());
                texts_to_json(&all)
            },
        };
        let mut members: Vec<(String, Json)> = Vec::new();
        members.push(("key".to_owned(), Json::Str(key.to_owned())));
        members.push(("value".to_owned(), Json::Str(value.to_owned())));
        members.push(("type".to_owned(), Json::Str(kind)));
        members.push(("target".to_owned(), environments));
        proof {
            object_view(members);
            let body = set_env_body(
                key@,
                value@,
                match target {
                    Some(environments) => Some(views(environments@)),
                    None => None,
                },
                match env_type {
                    Some(kind) => Some(kind@),
                    None => None,
                },
            );
            assert(members_view(members@) =~= body->Object_0);
        }
        self.post(endpoint.as_str(), Json::Object(members))
    }

    /// Asks for the domains of a project.
    pub fn list_domains(&self, project_id: &str) -> (request: HttpRequest)
        ensures
            request@ == get_request(self@, domains_endpoint(project_id@)),
    {
        let mut endpoint = "/v9/projects/".to_owned();
        endpoint.append(project_id);
        endpoint.append("/domains");
        self.get(endpoint.as_str())
    }

    /// Deploys a deployment again.
    pub fn redeploy(&self, deployment_id: &str) -> (request: HttpRequest)
        ensures
            request@ == post_request(self@, redeploy_endpoint(), redeploy_body(deployment_id@)),
    {
        let mut members: Vec<(String, Json)> = Vec::new();
        members.push(("deploymentId".to_owned(), Json::Str(deployment_id.to_owned())));
        proof {
            object_view(members);
            assert(members_view(members@) =~= redeploy_body(deployment_id@)->Object_0);
        }
        self.post("/v13/deployments?forceNew=1", Json::Object(members))
    }
}

} // verus!
