//! The service: from a method name and its parameters to the operation to
//! carry out, and from the API's answer to the method's result.

use vstd::prelude::*;

use crate::api::client::{
    and_then, deployment_in, deployments_in, events_in, json_body, ping_outcome, project_in, projects_in,
    VercelClient,
};
use crate::catalog::{catalog, method_list, MethodInfo};
use crate::error::{one_view, ServiceError, ServiceErrorModel};
use crate::http::{Exchange, ExchangeModel, HttpRequest};
use crate::json::{
    array_view, find_member, json_text_value, json_view, members_view, object_view, text_view, views, Json,
    JsonModel,
};
use crate::models::{
    encode_deployments, encode_events, encode_projects, write_deployments, write_events, write_projects,
};
use crate::operation::{
    param_i32, param_str, param_str_either, param_texts, plan, plan_get_deployment, plan_get_deployment_logs,
    plan_get_project, plan_list_deployments, plan_list_domains, plan_list_env_vars, plan_list_projects,
    plan_redeploy, plan_set_env_var, request_for, texts_in, texts_view, Operation, OperationModel,
    Params,
};
use crate::text::{decimal, decimal_of_u64, text_eq};

verus! {

/// The name that the service goes by.
pub const NAME: &'static str = "vercel";

/// The version that the service reports.
pub const VERSION: &'static str = "0.1.0";

/// A count as a JSON number.
pub open spec fn count_json(count: nat) -> JsonModel {
    if count <= i64::MAX {
        JsonModel::Int(count as int)
    } else {
        JsonModel::Number(decimal(count as int))
    }
}

/// The result of a listing: the entries under `key`, and how many they are.
pub open spec fn listing(key: Seq<char>, entries: JsonModel, count: nat) -> JsonModel {
    JsonModel::Object(seq![(key, entries), ("count"@, count_json(count))])
}

/// The result of `health`: whether the API answered the probe with
/// success, in words and as a flag, and the service's version.
pub open spec fn health_report(connected: bool) -> JsonModel {
    JsonModel::Object(
        seq![
            (
                "status"@,
                JsonModel::Str(
                    if connected {
                        "healthy"@
                    } else {
                        "unhealthy"@
                    },
                ),
            ),
            ("api_connected"@, JsonModel::Bool(connected)),
            ("version"@, JsonModel::Str(VERSION@)),
        ],
    )
}

/// The result of an operation, from what came of sending its request;
/// `parsed` is what the answer's body reads as. `health` turns an answer of
/// any status into a report; the listings count what they hold; a project
/// and a deployment are written back as they were read; everything else is
/// handed on as it came.
pub open spec fn outcome(operation: OperationModel, exchange: ExchangeModel, parsed: Option<JsonModel>) -> Result<
    JsonModel,
    ServiceErrorModel,
> {
    match operation {
        OperationModel::Health => match ping_outcome(exchange) {
            Ok(connected) => Ok(health_report(connected)),
            Err(error) => Err(error),
        },
        OperationModel::ListProjects { .. } => match and_then(
            json_body(exchange, parsed),
            |json: JsonModel| projects_in(json),
        ) {
            Ok(projects) => Ok(listing("projects"@, encode_projects(projects), projects.len())),
            Err(error) => Err(error),
        },
        OperationModel::GetProject { .. } => match and_then(
            json_body(exchange, parsed),
            |json: JsonModel| project_in(json),
        ) {
            Ok(project) => Ok(project.encode()),
            Err(error) => Err(error),
        },
        OperationModel::ListDeployments { .. } => match and_then(
            json_body(exchange, parsed),
            |json: JsonModel| deployments_in(json),
        ) {
            Ok(deployments) => Ok(listing("deployments"@, encode_deployments(deployments), deployments.len())),
            Err(error) => Err(error),
        },
        OperationModel::GetDeployment { .. } => match and_then(
            json_body(exchange, parsed),
            |json: JsonModel| deployment_in(json),
        ) {
            Ok(deployment) => Ok(deployment.encode()),
            Err(error) => Err(error),
        },
        OperationModel::GetDeploymentLogs { .. } => match and_then(
            json_body(exchange, parsed),
            |json: JsonModel| events_in(json),
        ) {
            Ok(events) => Ok(listing("events"@, encode_events(events), events.len())),
            Err(error) => Err(error),
        },
        _ => json_body(exchange, parsed),
    }
}

/// The state of one thing that the service depends on.
#[derive(Debug, Clone, PartialEq, Eq)]
pub struct HealthStatus {
    pub ok: bool,
    /// Why it is not well, where it is not.
    pub message: Option<String>,
}

/// What a state of health holds.
pub struct HealthStatusModel {
    pub ok: bool,
    pub message: Option<Seq<char>>,
}

impl View for HealthStatus {
    type V = HealthStatusModel;

    open spec fn view(&self) -> HealthStatusModel {
        HealthStatusModel { ok: self.ok, message: text_view(self.message) }
    }
}

/// The state of the API after a probe; `parsed` is what the answer's body
/// reads as. The API is well where it answered with success and with a
/// body that is JSON. It is not well, with the reason, where it answered
/// with success and a body that is no JSON, where it answered with another
/// status, and where no answer came.
pub open spec fn api_health(exchange: ExchangeModel, parsed: Option<JsonModel>) -> HealthStatusModel {
    match ping_outcome(exchange) {
        Ok(true) => match parsed {
            Some(_) => HealthStatusModel { ok: true, message: None },
            None => HealthStatusModel { ok: false, message: Some(ServiceErrorModel::Decode.message()) },
        },
        Ok(false) => HealthStatusModel { ok: false, message: Some("API returned error"@) },
        Err(error) => HealthStatusModel { ok: false, message: Some(error.message()) },
    }
}

/// The strings among `items`, in order.
pub fn texts_of(items: &Vec<Json>) -> (texts: Vec<String>)
    ensures
        views(texts@) == texts_in(views(items@)),
{
    let mut texts: Vec<String> = Vec::new();
    let mut i: usize = 0;
    assert(views(items@).take(0) =~= Seq::<JsonModel>::empty());
    while i < items.len()
        invariant
            0 <= i <= items.len(),
            views(texts@) == texts_in(views(items@).take(i as int)),
        decreases items.len() - i,
    {
        proof {
            let before = views(items@).take(i as int);
            let after = views(items@).take(i as int + 1);
            assert(after.drop_last() =~= before);
            assert(after.last() == items[i as int]@);
        }
        match &items[i] {
            Json::Str(s) => {
                let ghost old_texts = texts@;
                texts.push(s.clone());
                assert(views(texts@) =~= views(old_texts).push(s@));
            },
            _ => {},
        }
        i = i + 1;
    }
    assert(views(items@).take(items.len() as int) =~= views(items@));
    texts
}

/// A count as a JSON number.
pub fn count_to_json(count: usize) -> (json: Json)
    ensures
        json@ == count_json(count as nat),
{
    if count as u64 <= i64::MAX as u64 {
        Json::Int(count as i64)
    } else {
        Json::Number(decimal_of_u64(count as u64))
    }
}

/// The result of a listing: the entries under `key`, and how many they are.
pub fn listing_to_json(key: &str, entries: Json, count: usize) -> (json: Json)
    ensures
        json@ == listing(key@, entries@, count as nat),
{
    let mut members: Vec<(String, Json)> = Vec::new();
    members.push((key.to_owned(), entries));
    members.push(("count".to_owned(), count_to_json(count)));
    proof {
        object_view(members);
        assert(members_view(members@) =~= listing(key@, entries@, count as nat)->Object_0);
    }
    Json::Object(members)
}

/// The service: a client of the API behind a table of methods.
pub struct VercelService {
    client: VercelClient,
}

impl View for VercelService {
    type V = Seq<char>;

    /// The credential that the service's client carries.
    closed spec fn view(&self) -> Seq<char> {
        self.client@
    }
}

impl VercelService {
    /// A service whose client carries `token`. An empty credential is
    /// refused.
    pub fn new(token: String) -> (made: Result<VercelService, ServiceError>)
        ensures
            match made {
                Ok(service) => token@.len() > 0 && service@ == token@,
                Err(error) => token@.len() == 0 && error == ServiceError::Configuration,
            },
    {
        match VercelClient::new(token) {
            Ok(client) => Ok(VercelService { client }),
            Err(error) => Err(error),
        }
    }

    /// The service's client.
    pub fn client(&self) -> (client: &VercelClient)
        ensures
            client@ == self@,
    {
        &self.client
    }

    /// The name that the service goes by.
    pub fn name(&self) -> (name: &'static str)
        ensures
            name@ == NAME@,
    {
        NAME
    }

    /// The version that the service reports.
    pub fn version(&self) -> (version: &'static str)
        ensures
            version@ == VERSION@,
    {
        VERSION
    }

    /// The integer given for `key`, cut to 32 bits as `as` does; `default`
    /// where the parameter is missing or is no integer.
    pub fn get_param_i32(params: &Params, key: &str, default: i32) -> (value: i32)
        ensures
            value == param_i32(members_view(params@), key@, default as int),
    {
        match find_member(params, key) {
            Some(Json::Int(i)) => {
                #[verifier::truncate]
                let cut = *i as i32;
                cut
            },
            _ => default,
        }
    }

    /// The string given for `key`, if the parameter is there and is one.
    pub fn get_param_str<'a>(params: &'a Params, key: &str) -> (value: Option<&'a str>)
        ensures
            match value {
                Some(s) => param_str(members_view(params@), key@) == Some(s@),
                None => param_str(members_view(params@), key@) is None,
            },
    {
        match find_member(params, key) {
            Some(Json::Str(s)) => Some(s.as_str()),
            _ => None,
        }
    }

    /// The string given for `first`, or else the one given for `second`.
    pub fn get_param_str_either<'a>(params: &'a Params, first: &str, second: &str) -> (value: Option<&'a str>)
        ensures
            match value {
                Some(s) => param_str_either(members_view(params@), first@, second@) == Some(s@),
                None => param_str_either(members_view(params@), first@, second@) is None,
            },
    {
        match VercelService::get_param_str(params, first) {
            Some(s) => Some(s),
            None => VercelService::get_param_str(params, second),
        }
    }

    /// The strings of the array given for `key`, if the parameter is there
    /// and is one.
    pub fn get_param_texts(params: &Params, key: &str) -> (value: Option<Vec<String>>)
        ensures
            texts_view(value) == param_texts(members_view(params@), key@),
    {
        match find_member(params, key) {
            Some(Json::Array(items)) => {
                proof {
                    array_view(*items);
                }
                Some(texts_of(items))
            },
            _ => None,
        }
    }

    /// `health`: the probe.
    pub fn health() -> (operation: Operation)
        ensures
            operation@ == OperationModel::Health,
    {
        Operation::Health
    }

    /// `projects`: an optional `limit`.
    pub fn list_projects(params: &Params) -> (planned: Result<Operation, ServiceError>)
        ensures
            one_view(planned) == plan_list_projects(members_view(params@)),
    {
        let limit = VercelService::get_param_i32(params, "limit", 20);
        Ok(Operation::ListProjects { limit })
    }

    /// `project`: `project_id`, also accepted as `name`.
    pub fn get_project(params: &Params) -> (planned: Result<Operation, ServiceError>)
        ensures
            one_view(planned) == plan_get_project(members_view(params@)),
    {
        match VercelService::get_param_str_either(params, "project_id", "name") {
            Some(project_id) => Ok(Operation::GetProject { project_id: project_id.to_owned() }),
            None => Err(ServiceError::MissingParameter("project_id".to_owned())),
        }
    }

    /// `deployments`: an optional `project_id` and an optional `limit`.
    pub fn list_deployments(params: &Params) -> (planned: Result<Operation, ServiceError>)
        ensures
            one_view(planned) == plan_list_deployments(members_view(params@)),
    {
        let project_id = match VercelService::get_param_str(params, "project_id") {
            Some(id) => Some(id.to_owned()),
            None => None,
        };
        let limit = VercelService::get_param_i32(params, "limit", 20);
        Ok(Operation::ListDeployments { project_id, limit })
    }

    /// `deployment`: `deployment_id`, also accepted as `id`.
    pub fn get_deployment(params: &Params) -> (planned: Result<Operation, ServiceError>)
        ensures
            one_view(planned) == plan_get_deployment(members_view(params@)),
    {
        match VercelService::get_param_str_either(params, "deployment_id", "id") {
            Some(deployment_id) => Ok(Operation::GetDeployment { deployment_id: deployment_id.to_owned() }),
            None => Err(ServiceError::MissingParameter("deployment_id".to_owned())),
        }
    }

    /// `logs`: `deployment_id`, also accepted as `id`.
    pub fn get_deployment_logs(params: &Params) -> (planned: Result<Operation, ServiceError>)
        ensures
            one_view(planned) == plan_get_deployment_logs(members_view(params@)),
    {
        match VercelService::get_param_str_either(params, "deployment_id", "id") {
            Some(deployment_id) => Ok(Operation::GetDeploymentLogs { deployment_id: deployment_id.to_owned() }),
            None => Err(ServiceError::MissingParameter("deployment_id".to_owned())),
        }
    }

    /// `user`: no parameters.
    pub fn get_user() -> (operation: Operation)
        ensures
            operation@ == OperationModel::GetUser,
    {
        Operation::GetUser
    }

    /// `env_vars`: `project_id` and an optional `target`.
    pub fn list_env_vars(params: &Params) -> (planned: Result<Operation, ServiceError>)
        ensures
            one_view(planned) == plan_list_env_vars(members_view(params@)),
    {
        let project_id = match VercelService::get_param_str(params, "project_id") {
            Some(id) => id.to_owned(),
            None => return Err(ServiceError::MissingParameter("project_id".to_owned())),
        };
        let target = match VercelService::get_param_str(params, "target") {
            Some(environment) => Some(environment.to_owned()),
            None => None,
        };
        Ok(Operation::ListEnvVars { project_id, target })
    }

    /// `set_env`: `project_id`, `key` and `value`, asked for in this order;
    /// an optional `target`, of which the strings count; an optional `type`.
    pub fn set_env_var(params: &Params) -> (planned: Result<Operation, ServiceError>)
        ensures
            one_view(planned) == plan_set_env_var(members_view(params@)),
    {
        let project_id = match VercelService::get_param_str(params, "project_id") {
            Some(id) => id.to_owned(),
            None => return Err(ServiceError::MissingParameter("project_id".to_owned())),
        };
        let key = match VercelService::get_param_str(params, "key") {
            Some(key) => key.to_owned(),
            None => return Err(ServiceError::MissingParameter("key".to_owned())),
        };
        let value = match VercelService::get_param_str(params, "value") {
            Some(value) => value.to_owned(),
            None => return Err(ServiceError::MissingParameter("value".to_owned())),
        };
        let target = VercelService::get_param_texts(params, "target");
        let env_type = match VercelService::get_param_str(params, "type") {
            Some(kind) => Some(kind.to_owned()),
            None => None,
        };
        Ok(Operation::SetEnvVar { project_id, key, value, target, env_type })
    }

    /// `domains`: `project_id`.
    pub fn list_domains(params: &Params) -> (planned: Result<Operation, ServiceError>)
        ensures
            one_view(planned) == plan_list_domains(members_view(params@)),
    {
        match VercelService::get_param_str(params, "project_id") {
            Some(project_id) => Ok(Operation::ListDomains { project_id: project_id.to_owned() }),
            None => Err(ServiceError::MissingParameter("project_id".to_owned())),
        }
    }

    /// `redeploy`: `deployment_id`.
    pub fn redeploy(params: &Params) -> (planned: Result<Operation, ServiceError>)
        ensures
            one_view(planned) == plan_redeploy(members_view(params@)),
    {
        match VercelService::get_param_str(params, "deployment_id") {
            Some(deployment_id) => Ok(Operation::Redeploy { deployment_id: deployment_id.to_owned() }),
            None => Err(ServiceError::MissingParameter("deployment_id".to_owned())),
        }
    }

    /// Routes a call: the operation to carry out, or the reason why nothing
    /// is to be sent. No request exists before this has returned an
    /// operation.
    pub fn dispatch(&self, method: &str, params: &Params) -> (planned: Result<Operation, ServiceError>)
        ensures
            one_view(planned) == plan(method@, members_view(params@)),
    {
        if text_eq(method, "health") {
            Ok(VercelService::health())
        } else if text_eq(method, "projects") || text_eq(method, "vercel.projects") {
            VercelService::list_projects(params)
        } else if text_eq(method, "project") || text_eq(method, "vercel.project") {
            VercelService::get_project(params)
        } else if text_eq(method, "deployments") || text_eq(method, "vercel.deployments") {
            VercelService::list_deployments(params)
        } else if text_eq(method, "deployment") || text_eq(method, "vercel.deployment") {
            VercelService::get_deployment(params)
        } else if text_eq(method, "logs") || text_eq(method, "vercel.logs") {
            VercelService::get_deployment_logs(params)
        } else if text_eq(method, "user") || text_eq(method, "vercel.user") {
            Ok(VercelService::get_user())
        } else if text_eq(method, "env_vars") || text_eq(method, "vercel.env_vars") {
            VercelService::list_env_vars(params)
        } else if text_eq(method, "set_env") || text_eq(method, "vercel.set_env") {
            VercelService::set_env_var(params)
        } else if text_eq(method, "domains") || text_eq(method, "vercel.domains") {
            VercelService::list_domains(params)
        } else if text_eq(method, "redeploy") || text_eq(method, "vercel.redeploy") {
            VercelService::redeploy(params)
        } else {
            Err(ServiceError::UnknownMethod(method.to_owned()))
        }
    }

    /// The request that carries an operation out.
    pub fn request(&self, operation: &Operation) -> (request: HttpRequest)
        ensures
            request@ == request_for(self@, operation@),
    {
        match operation {
            Operation::Health => self.client.ping(),
            Operation::ListProjects { limit } => self.client.list_projects(Some(*limit)),
            Operation::GetProject { project_id } => self.client.get_project(project_id.as_str()),
            Operation::ListDeployments { project_id, limit } => {
                let filter = match project_id {
                    Some(id) => Some(id.as_str()),
                    None => None,
                };
                self.client.list_deployments(filter, Some(*limit))
            },
            Operation::GetDeployment { deployment_id } => self.client.get_deployment(deployment_id.as_str()),
            Operation::GetDeploymentLogs { deployment_id } => self.client.get_deployment_events(
                deployment_id.as_str(),
            ),
            Operation::GetUser => self.client.get_user_raw(),
            Operation::ListEnvVars { project_id, target } => {
                let environment = match target {
                    Some(t) => Some(t.as_str()),
                    None => None,
                };
                self.client.list_env_vars(project_id.as_str(), environment)
            },
            Operation::SetEnvVar { project_id, key, value, target, env_type } => {
                let environments = match target {
                    Some(list) => Some(list),
                    None => None,
                };
                let kind = match env_type {
                    Some(k) => Some(k.as_str()),
                    None => None,
                };
                self.client.set_env_var(project_id.as_str(), key.as_str(), value.as_str(), environments, kind)
            },
            Operation::ListDomains { project_id } => self.client.list_domains(project_id.as_str()),
            Operation::Redeploy { deployment_id } => self.client.redeploy(deployment_id.as_str()),
        }
    }

    /// The result of `health` for a probe that was answered.
    pub fn health_result(connected: bool) -> (json: Json)
        ensures
            json@ == health_report(connected),
    {
        let status = if connected {
            "healthy"
        } else {
            "unhealthy"
        };
        let mut members: Vec<(String, Json)> = Vec::new();
        members.push(("status".to_owned(), Json::Str(status.to_owned())));
        members.push(("api_connected".to_owned(), Json::Bool(connected)));
        members.push(("version".to_owned(), Json::Str(VERSION.to_owned())));
        proof {
            object_view(members);
            assert(members_view(members@) =~= health_report(connected)->Object_0);
        }
        Json::Object(members)
    }

    /// The result of an operation, given what the answer's body reads as.
    pub fn finish(operation: &Operation, exchange: &Exchange, parsed: Option<Json>) -> (result: Result<
        Json,
        ServiceError,
    >)
        ensures
            one_view(result) == outcome(operation@, exchange@, json_view(parsed)),
    {
        match operation {
            Operation::Health => match VercelClient::ping_outcome(exchange) {
                Ok(connected) => Ok(VercelService::health_result(connected)),
                Err(error) => Err(error),
            },
            Operation::ListProjects { .. } => {
                let json = match VercelClient::json_of_parsed(exchange, parsed) {
                    Ok(json) => json,
                    Err(error) => return Err(error),
                };
                match VercelClient::projects_in(&json) {
                    Ok(projects) => Ok(listing_to_json("projects", write_projects(&projects), projects.len())),
                    Err(error) => Err(error),
                }
            },
            Operation::GetProject { .. } => {
                let json = match VercelClient::json_of_parsed(exchange, parsed) {
                    Ok(json) => json,
                    Err(error) => return Err(error),
                };
                match VercelClient::project_in(&json) {
                    Ok(project) => Ok(project.to_json()),
                    Err(error) => Err(error),
                }
            },
            Operation::ListDeployments { .. } => {
                let json = match VercelClient::json_of_parsed(exchange, parsed) {
                    Ok(json) => json,
                    Err(error) => return Err(error),
                };
                match VercelClient::deployments_in(&json) {
                    Ok(deployments) => Ok(
                        listing_to_json("deployments", write_deployments(&deployments), deployments.len()),
                    ),
                    Err(error) => Err(error),
                }
            },
            Operation::GetDeployment { .. } => {
                let json = match VercelClient::json_of_parsed(exchange, parsed) {
                    Ok(json) => json,
                    Err(error) => return Err(error),
                };
                match VercelClient::deployment_in(&json) {
                    Ok(deployment) => Ok(deployment.to_json()),
                    Err(error) => Err(error),
                }
            },
            Operation::GetDeploymentLogs { .. } => {
                let json = match VercelClient::json_of_parsed(exchange, parsed) {
                    Ok(json) => json,
                    Err(error) => return Err(error),
                };
                match VercelClient::events_in(&json) {
                    Ok(events) => Ok(listing_to_json("events", write_events(&events), events.len())),
                    Err(error) => Err(error),
                }
            },
            _ => VercelClient::json_of_parsed(exchange, parsed),
        }
    }

    /// The result of an operation, from what came of sending its request.
    /// The answer's body is read only where the operation looks at it and
    /// the status reports success.
    pub fn respond(operation: &Operation, exchange: &Exchange) -> (result: Result<Json, ServiceError>)
        ensures
            one_view(result) == outcome(operation@, exchange@, json_text_value(exchange@.body())),
    {
        let parsed = match operation {
            Operation::Health => None,
            _ => match VercelClient::checked_body(exchange) {
                Ok(text) => Json::parse(text),
                Err(_) => None,
            },
        };
        VercelService::finish(operation, exchange, parsed)
    }

    /// What the start of the service makes of its probe: whether the API
    /// answered with success. Either answer lets the service start; a probe
    /// that got no answer does not.
    pub fn on_start(exchange: &Exchange) -> (verified: Result<bool, ServiceError>)
        ensures
            match verified {
                Ok(ok) => ping_outcome(exchange@) == Ok::<bool, ServiceErrorModel>(ok),
                Err(error) => ping_outcome(exchange@) == Err::<bool, ServiceErrorModel>(error@),
            },
    {
        VercelClient::ping_outcome(exchange)
    }

    /// The state of what the service depends on, by name: the API, after a
    /// probe, given what the answer's body reads as.
    pub fn health_check_of(exchange: &Exchange, parsed: Option<Json>) -> (checks: Vec<(String, HealthStatus)>)
        ensures
            checks@.len() == 1,
            checks@[0].0@ == "vercel_api"@,
            checks@[0].1@ == api_health(exchange@, json_view(parsed)),
    {
        let status = match VercelClient::ping_outcome(exchange) {
            Ok(true) => match parsed {
                Some(_) => HealthStatus { ok: true, message: None },
                None => HealthStatus { ok: false, message: Some(ServiceError::Decode.message()) },
            },
            Ok(false) => HealthStatus { ok: false, message: Some("API returned error".to_owned()) },
            Err(error) => HealthStatus { ok: false, message: Some(error.message()) },
        };
        let mut checks: Vec<(String, HealthStatus)> = Vec::new();
        checks.push(("vercel_api".to_owned(), status));
        checks
    }

    /// The state of what the service depends on, by name: the API, after a
    /// probe. The answer's body is read only where the status reports
    /// success; a body that is no JSON makes the API not well.
    pub fn health_check(exchange: &Exchange) -> (checks: Vec<(String, HealthStatus)>)
        ensures
            checks@.len() == 1,
            checks@[0].0@ == "vercel_api"@,
            checks@[0].1@ == api_health(exchange@, json_text_value(exchange@.body())),
    {
        let parsed = match VercelClient::checked_body(exchange) {
            Ok(text) => Json::parse(text),
            Err(_) => None,
        };
        VercelService::health_check_of(exchange, parsed)
    }

    /// The catalog of the methods.
    pub fn method_list(&self) -> (methods: Vec<MethodInfo>)
        ensures
            views(methods@) == catalog(),
    {
        method_list()
    }
}

} // verus!
