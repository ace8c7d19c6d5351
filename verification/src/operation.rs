//! Calls as data: the parameters of a call, the operation that a call comes
//! to, and the rules by which a method name and its parameters are turned
//! into one.

use vstd::prelude::*;

use crate::api::client::{
    deployment_endpoint, deployments_endpoint, domains_endpoint, env_vars_endpoint, events_endpoint, get_request,
    post_request, project_endpoint, projects_endpoint, redeploy_body, redeploy_endpoint, set_env_body,
    set_env_endpoint, user_endpoint,
};
use crate::error::{ServiceError, ServiceErrorModel};
use crate::http::HttpRequestModel;
use crate::json::{member_from, text_view, views, Json, JsonModel, MembersModel};

verus! {

/// The parameters of a call: names and values, looked up by the first
/// entry of a name.
pub type Params = Vec<(String, Json)>;

/// The model of the parameters of a call.
pub type ParamsModel = MembersModel;

/// One call, with its parameters checked and its defaults filled in.
#[derive(Debug, Clone, PartialEq, Eq)]
pub enum Operation {
    Health,
    ListProjects { limit: i32 },
    GetProject { project_id: String },
    ListDeployments { project_id: Option<String>, limit: i32 },
    GetDeployment { deployment_id: String },
    GetDeploymentLogs { deployment_id: String },
    GetUser,
    ListEnvVars { project_id: String, target: Option<String> },
    SetEnvVar {
        project_id: String,
        key: String,
        value: String,
        target: Option<Vec<String>>,
        env_type: Option<String>,
    },
    ListDomains { project_id: String },
    Redeploy { deployment_id: String },
}

/// What an operation holds.
pub enum OperationModel {
    Health,
    ListProjects { limit: int },
    GetProject { project_id: Seq<char> },
    ListDeployments { project_id: Option<Seq<char>>, limit: int },
    GetDeployment { deployment_id: Seq<char> },
    GetDeploymentLogs { deployment_id: Seq<char> },
    GetUser,
    ListEnvVars { project_id: Seq<char>, target: Option<Seq<char>> },
    SetEnvVar {
        project_id: Seq<char>,
        key: Seq<char>,
        value: Seq<char>,
        target: Option<Seq<Seq<char>>>,
        env_type: Option<Seq<char>>,
    },
    ListDomains { project_id: Seq<char> },
    Redeploy { deployment_id: Seq<char> },
}

/// The views of an optional list of texts.
pub open spec fn texts_view(texts: Option<Vec<String>>) -> Option<Seq<Seq<char>>> {
    match texts {
        Some(list) => Some(views(list@)),
        None => None,
    }
}

impl View for Operation {
    type V = OperationModel;

    open spec fn view(&self) -> OperationModel {
        match self {
            Operation::Health => OperationModel::Health,
            Operation::ListProjects { limit } => OperationModel::ListProjects { limit: *limit as int },
            Operation::GetProject { project_id } => OperationModel::GetProject { project_id: project_id@ },
            Operation::ListDeployments { project_id, limit } => OperationModel::ListDeployments {
                project_id: text_view(*project_id),
                limit: *limit as int,
            },
            Operation::GetDeployment { deployment_id } => OperationModel::GetDeployment {
                deployment_id: deployment_id@,
            },
            Operation::GetDeploymentLogs { deployment_id } => OperationModel::GetDeploymentLogs {
                deployment_id: deployment_id@,
            },
            Operation::GetUser => OperationModel::GetUser,
            Operation::ListEnvVars { project_id, target } => OperationModel::ListEnvVars {
                project_id: project_id@,
                target: text_view(*target),
            },
            Operation::SetEnvVar { project_id, key, value, target, env_type } => OperationModel::SetEnvVar {
                project_id: project_id@,
                key: key@,
                value: value@,
                target: texts_view(*target),
                env_type: text_view(*env_type),
            },
            Operation::ListDomains { project_id } => OperationModel::ListDomains { project_id: project_id@ },
            Operation::Redeploy { deployment_id } => OperationModel::Redeploy { deployment_id: deployment_id@ },
        }
    }
}

/// The string given for `key`: none where the parameter is missing or is
/// no string.
pub open spec fn param_str(params: ParamsModel, key: Seq<char>) -> Option<Seq<char>> {
    match member_from(params, key, 0) {
        Some(JsonModel::Str(s)) => Some(s),
        _ => None,
    }
}

/// The integer given for `key`, cut to its low 32 bits; `default` where the
/// parameter is missing or is no integer.
pub open spec fn param_i32(params: ParamsModel, key: Seq<char>, default: int) -> int {
    match member_from(params, key, 0) {
        Some(JsonModel::Int(i)) => (i as i32) as int,
        _ => default,
    }
}

/// The string given for `first`, or else the one given for `second`.
pub open spec fn param_str_either(params: ParamsModel, first: Seq<char>, second: Seq<char>) -> Option<
    Seq<char>,
> {
    match param_str(params, first) {
        Some(s) => Some(s),
        None => param_str(params, second),
    }
}

/// The strings among `items`, in order.
pub open spec fn texts_in(items: Seq<JsonModel>) -> Seq<Seq<char>>
    decreases items.len(),
{
    if items.len() == 0 {
        Seq::empty()
    } else {
        match items.last() {
            JsonModel::Str(s) => texts_in(items.drop_last()).push(s),
            _ => texts_in(items.drop_last()),
        }
    }
}

/// The strings of the array given for `key`: none where the parameter is
/// missing or is no array.
pub open spec fn param_texts(params: ParamsModel, key: Seq<char>) -> Option<Seq<Seq<char>>> {
    match member_from(params, key, 0) {
        Some(JsonModel::Array(items)) => Some(texts_in(items)),
        _ => None,
    }
}

/// `projects`: an optional `limit`, 20 where it is not given as an integer.
pub open spec fn plan_list_projects(params: ParamsModel) -> Result<OperationModel, ServiceErrorModel> {
    Ok(OperationModel::ListProjects { limit: param_i32(params, "limit"@, 20) })
}

/// `project`: `project_id`, also accepted as `name`.
pub open spec fn plan_get_project(params: ParamsModel) -> Result<OperationModel, ServiceErrorModel> {
    match param_str_either(params, "project_id"@, "name"@) {
        Some(project_id) => Ok(OperationModel::GetProject { project_id }),
        None => Err(ServiceErrorModel::MissingParameter("project_id"@)),
    }
}

/// `deployments`: an optional `project_id`, and an optional `limit`, 20
/// where it is not given as an integer.
pub open spec fn plan_list_deployments(params: ParamsModel) -> Result<OperationModel, ServiceErrorModel> {
    Ok(
        OperationModel::ListDeployments {
            project_id: param_str(params, "project_id"@),
            limit: param_i32(params, "limit"@, 20),
        },
    )
}

/// `deployment`: `deployment_id`, also accepted as `id`.
pub open spec fn plan_get_deployment(params: ParamsModel) -> Result<OperationModel, ServiceErrorModel> {
    match param_str_either(params, "deployment_id"@, "id"@) {
        Some(deployment_id) => Ok(OperationModel::GetDeployment { deployment_id }),
        None => Err(ServiceErrorModel::MissingParameter("deployment_id"@)),
    }
}

/// `logs`: `deployment_id`, also accepted as `id`.
pub open spec fn plan_get_deployment_logs(params: ParamsModel) -> Result<
    OperationModel,
    ServiceErrorModel,
> {
    match param_str_either(params, "deployment_id"@, "id"@) {
        Some(deployment_id) => Ok(OperationModel::GetDeploymentLogs { deployment_id }),
        None => Err(ServiceErrorModel::MissingParameter("deployment_id"@)),
    }
}

/// `env_vars`: `project_id`, and an optional `target`.
pub open spec fn plan_list_env_vars(params: ParamsModel) -> Result<OperationModel, ServiceErrorModel> {
    match param_str(params, "project_id"@) {
        Some(project_id) => Ok(
            OperationModel::ListEnvVars { project_id, target: param_str(params, "target"@) },
        ),
        None => Err(ServiceErrorModel::MissingParameter("project_id"@)),
    }
}

/// `set_env`: `project_id`, `key` and `value`, asked for in this order; an
/// optional `target`, of which the strings count; an optional `type`.
pub open spec fn plan_set_env_var(params: ParamsModel) -> Result<OperationModel, ServiceErrorModel> {
    match param_str(params, "project_id"@) {
        None => Err(ServiceErrorModel::MissingParameter("project_id"@)),
        Some(project_id) => match param_str(params, "key"@) {
            None => Err(ServiceErrorModel::MissingParameter("key"@)),
            Some(key) => match param_str(params, "value"@) {
                None => Err(ServiceErrorModel::MissingParameter("value"@)),
                Some(value) => Ok(
                    OperationModel::SetEnvVar {
                        project_id,
                        key,
                        value,
                        target: param_texts(params, "target"@),
                        env_type: param_str(params, "type"@),
                    },
                ),
            },
        },
    }
}

/// `domains`: `project_id`.
pub open spec fn plan_list_domains(params: ParamsModel) -> Result<OperationModel, ServiceErrorModel> {
    match param_str(params, "project_id"@) {
        Some(project_id) => Ok(OperationModel::ListDomains { project_id }),
        None => Err(ServiceErrorModel::MissingParameter("project_id"@)),
    }
}

/// `redeploy`: `deployment_id`.
pub open spec fn plan_redeploy(params: ParamsModel) -> Result<OperationModel, ServiceErrorModel> {
    match param_str(params, "deployment_id"@) {
        Some(deployment_id) => Ok(OperationModel::Redeploy { deployment_id }),
        None => Err(ServiceErrorModel::MissingParameter("deployment_id"@)),
    }
}

/// What a call comes to before anything is sent: the operation to carry
/// out, or the reason why there is none. Every method but `health` goes by
/// its short name and by its full name.
pub open spec fn plan(method: Seq<char>, params: ParamsModel) -> Result<OperationModel, ServiceErrorModel> {
    if method == "health"@ {
        Ok(OperationModel::Health)
    } else if method == "projects"@ || method == "vercel.projects"@ {
        plan_list_projects(params)
    } else if method == "project"@ || method == "vercel.project"@ {
        plan_get_project(params)
    } else if method == "deployments"@ || method == "vercel.deployments"@ {
        plan_list_deployments(params)
    } else if method == "deployment"@ || method == "vercel.deployment"@ {
        plan_get_deployment(params)
    } else if method == "logs"@ || method == "vercel.logs"@ {
        plan_get_deployment_logs(params)
    } else if method == "user"@ || method == "vercel.user"@ {
        Ok(OperationModel::GetUser)
    } else if method == "env_vars"@ || method == "vercel.env_vars"@ {
        plan_list_env_vars(params)
    } else if method == "set_env"@ || method == "vercel.set_env"@ {
        plan_set_env_var(params)
    } else if method == "domains"@ || method == "vercel.domains"@ {
        plan_list_domains(params)
    } else if method == "redeploy"@ || method == "vercel.redeploy"@ {
        plan_redeploy(params)
    } else {
        Err(ServiceErrorModel::UnknownMethod(method))
    }
}

/// The request that carries an operation out.
pub open spec fn request_for(token: Seq<char>, operation: OperationModel) -> HttpRequestModel {
    match operation {
        OperationModel::Health => get_request(token, user_endpoint()),
        OperationModel::ListProjects { limit } => get_request(token, projects_endpoint(limit)),
        OperationModel::GetProject { project_id } => get_request(token, project_endpoint(project_id)),
        OperationModel::ListDeployments { project_id, limit } => get_request(
            token,
            deployments_endpoint(project_id, limit),
        ),
        OperationModel::GetDeployment { deployment_id } => get_request(token, deployment_endpoint(deployment_id)),
        OperationModel::GetDeploymentLogs { deployment_id } => get_request(token, events_endpoint(deployment_id)),
        OperationModel::GetUser => get_request(token, user_endpoint()),
        OperationModel::ListEnvVars { project_id, target } => get_request(
            token,
            env_vars_endpoint(project_id, target),
        ),
        OperationModel::SetEnvVar { project_id, key, value, target, env_type } => post_request(
            token,
            set_env_endpoint(project_id),
            set_env_body(key, value, target, env_type),
        ),
        OperationModel::ListDomains { project_id } => get_request(token, domains_endpoint(project_id)),
        OperationModel::Redeploy { deployment_id } => post_request(
            token,
            redeploy_endpoint(),
            redeploy_body(deployment_id),
        ),
    }
}

} // verus!
