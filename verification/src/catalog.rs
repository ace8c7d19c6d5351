//! The methods that the service offers, described for discovery.

use vstd::prelude::*;

use crate::json::{array_view, json_view, views, Json, JsonModel};

verus! {

/// One parameter of a method.
#[derive(Debug, Clone, PartialEq, Eq)]
pub struct ParamInfo {
    pub name: String,
    /// `string`, `integer` or `array`.
    pub param_type: String,
    pub required: bool,
    /// The value that is used where the parameter is left out, if there is
    /// one.
    pub default: Option<Json>,
}

/// What a parameter's description holds.
pub struct ParamInfoModel {
    pub name: Seq<char>,
    pub param_type: Seq<char>,
    pub required: bool,
    pub default: Option<JsonModel>,
}

impl View for ParamInfo {
    type V = ParamInfoModel;

    open spec fn view(&self) -> ParamInfoModel {
        ParamInfoModel {
            name: self.name@,
            param_type: self.param_type@,
            required: self.required,
            default: json_view(self.default),
        }
    }
}

/// One method: its name, what it does, and its parameters in order.
#[derive(Debug, Clone, PartialEq, Eq)]
pub struct MethodInfo {
    pub name: String,
    pub description: String,
    pub params: Vec<ParamInfo>,
}

/// What a method's description holds.
pub struct MethodInfoModel {
    pub name: Seq<char>,
    pub description: Seq<char>,
    pub params: Seq<ParamInfoModel>,
}

impl View for MethodInfo {
    type V = MethodInfoModel;

    open spec fn view(&self) -> MethodInfoModel {
        MethodInfoModel { name: self.name@, description: self.description@, params: views(self.params@) }
    }
}

/// A string parameter that must be given.
pub open spec fn required_text_param(name: Seq<char>) -> ParamInfoModel {
    ParamInfoModel { name, param_type: "string"@, required: true, default: None }
}

/// A string parameter that may be left out.
pub open spec fn optional_text_param(name: Seq<char>) -> ParamInfoModel {
    ParamInfoModel { name, param_type: "string"@, required: false, default: None }
}

/// The number of entries that a listing returns at most; 20 where it is
/// left out.
pub open spec fn limit_param() -> ParamInfoModel {
    ParamInfoModel {
        name: "limit"@,
        param_type: "integer"@,
        required: false,
        default: Some(JsonModel::Int(20)),
    }
}

/// The environments that a variable is set for; all three where it is left
/// out.
pub open spec fn target_list_param() -> ParamInfoModel {
    ParamInfoModel {
        name: "target"@,
        param_type: "array"@,
        required: false,
        default: Some(
            JsonModel::Array(
                seq![
                    JsonModel::Str("production"@),
                    JsonModel::Str("preview"@),
                    JsonModel::Str("development"@),
                ],
            ),
        ),
    }
}

/// How a variable is stored; `encrypted` where it is left out.
pub open spec fn env_type_param() -> ParamInfoModel {
    ParamInfoModel {
        name: "type"@,
        param_type: "string"@,
        required: false,
        default: Some(JsonModel::Str("encrypted"@)),
    }
}

/// The catalog: every method that the service routes, once and in order.
/// `health` goes by that name alone; every other method is listed under
/// its full name and also goes by the name without `vercel.` in front.
pub open spec fn catalog() -> Seq<MethodInfoModel> {
    seq![
        MethodInfoModel {
            name: "health"@,
            description: "Probe the Vercel API and report whether it answers"@,
            params: seq![],
        },
        MethodInfoModel {
            name: "vercel.projects"@,
            description: "List all Vercel projects"@,
            params: seq![limit_param()],
        },
        MethodInfoModel {
            name: "vercel.project"@,
            description: "Get a specific project by ID or name"@,
            params: seq![required_text_param("project_id"@)],
        },
        MethodInfoModel {
            name: "vercel.deployments"@,
            description: "List deployments (optionally filtered by project)"@,
            params: seq![optional_text_param("project_id"@), limit_param()],
        },
        MethodInfoModel {
            name: "vercel.deployment"@,
            description: "Get a specific deployment by ID"@,
            params: seq![required_text_param("deployment_id"@)],
        },
        MethodInfoModel {
            name: "vercel.logs"@,
            description: "Get deployment logs/events"@,
            params: seq![required_text_param("deployment_id"@)],
        },
        MethodInfoModel { name: "vercel.user"@, description: "Get current user info"@, params: seq![] },
        MethodInfoModel {
            name: "vercel.env_vars"@,
            description: "List environment variables for a project"@,
            params: seq![required_text_param("project_id"@), optional_text_param("target"@)],
        },
        MethodInfoModel {
            name: "vercel.set_env"@,
            description: "Set an environment variable"@,
            params: seq![
                required_text_param("project_id"@),
                required_text_param("key"@),
                required_text_param("value"@),
                target_list_param(),
                env_type_param(),
            ],
        },
        MethodInfoModel {
            name: "vercel.domains"@,
            description: "List domains for a project"@,
            params: seq![required_text_param("project_id"@)],
        },
        MethodInfoModel {
            name: "vercel.redeploy"@,
            description: "Redeploy a deployment"@,
            params: seq![required_text_param("deployment_id"@)],
        },
    ]
}

fn required_text_param_info(name: &str) -> (param: ParamInfo)
    ensures
        param@ == required_text_param(name@),
{
    ParamInfo { name: name.to_owned(), param_type: "string".to_owned(), required: true, default: None }
}

fn optional_text_param_info(name: &str) -> (param: ParamInfo)
    ensures
        param@ == optional_text_param(name@),
{
    ParamInfo { name: name.to_owned(), param_type: "string".to_owned(), required: false, default: None }
}

fn limit_param_info() -> (param: ParamInfo)
    ensures
        param@ == limit_param(),
{
    ParamInfo {
        name: "limit".to_owned(),
        param_type: "integer".to_owned(),
        required: false,
        default: Some(Json::Int(20)),
    }
}

fn target_list_param_info() -> (param: ParamInfo)
    ensures
        param@ == target_list_param(),
{
    let mut environments: Vec<Json> = Vec::new();
    environments.push(Json::Str("production".to_owned()));
    environments.push(Json::Str("preview".to_owned()));
    environments.push(Json::Str("development".to_owned()));
    proof {
        array_view(environments);
        assert(views(environments@) =~= target_list_param().default.unwrap()->Array_0);
    }
    ParamInfo {
        name: "target".to_owned(),
        param_type: "array".to_owned(),
        required: false,
        default: Some(Json::Array(environments)),
    }
}

fn env_type_param_info() -> (param: ParamInfo)
    ensures
        param@ == env_type_param(),
{
    ParamInfo {
        name: "type".to_owned(),
        param_type: "string".to_owned(),
        required: false,
        default: Some(Json::Str("encrypted".to_owned())),
    }
}

fn method_info(name: &str, description: &str, params: Vec<ParamInfo>) -> (method: MethodInfo)
    ensures
        method@ == (MethodInfoModel { name: name@, description: description@, params: views(params@) }),
{
    MethodInfo { name: name.to_owned(), description: description.to_owned(), params }
}

/// The catalog: every method that the service routes, each with its
/// parameters in order.
pub fn method_list() -> (methods: Vec<MethodInfo>)
    ensures
        views(methods@) == catalog(),
{
    let mut methods: Vec<MethodInfo> = Vec::new();

    let params: Vec<ParamInfo> = Vec::new();
    assert(views(params@) =~= Seq::<ParamInfoModel>::empty());
    methods.push(method_info("health", "Probe the Vercel API and report whether it answers", params));

    let params = vec![limit_param_info()];
    assert(views(params@) =~= seq![limit_param()]);
    methods.push(method_info("vercel.projects", "List all Vercel projects", params));

    let params = vec![required_text_param_info("project_id")];
    assert(views(params@) =~= seq![required_text_param("project_id"@)]);
    methods.push(method_info("vercel.project", "Get a specific project by ID or name", params));

    let params = vec![optional_text_param_info("project_id"), limit_param_info()];
    assert(views(params@) =~= seq![optional_text_param("project_id"@), limit_param()]);
    methods.push(
        method_info("vercel.deployments", "List deployments (optionally filtered by project)", params),
    );

    let params = vec![required_text_param_info("deployment_id")];
    assert(views(params@) =~= seq![required_text_param("deployment_id"@)]);
    methods.push(method_info("vercel.deployment", "Get a specific deployment by ID", params));

    let params = vec![required_text_param_info("deployment_id")];
    assert(views(params@) =~= seq![required_text_param("deployment_id"@)]);
    methods.push(method_info("vercel.logs", "Get deployment logs/events", params));

    let params: Vec<ParamInfo> = Vec::new();
    assert(views(params@) =~= Seq::<ParamInfoModel>::empty());
    methods.push(method_info("vercel.user", "Get current user info", params));

    let params = vec![required_text_param_info("project_id"), optional_text_param_info("target")];
    assert(views(params@) =~= seq![required_text_param("project_id"@), optional_text_param("target"@)]);
    methods.push(method_info("vercel.env_vars", "List environment variables for a project", params));

    let params = vec![
        required_text_param_info("project_id"),
        required_text_param_info("key"),
        required_text_param_info("value"),
        target_list_param_info(),
        env_type_param_info(),
    ];
    assert(views(params@) =~= seq![
        required_text_param("project_id"@),
        required_text_param("key"@),
        required_text_param("value"@),
        target_list_param(),
        env_type_param(),
    ]);
    methods.push(method_info("vercel.set_env", "Set an environment variable", params));

    let params = vec![required_text_param_info("project_id")];
    assert(views(params@) =~= seq![required_text_param("project_id"@)]);
    methods.push(method_info("vercel.domains", "List domains for a project", params));

    let params = vec![required_text_param_info("deployment_id")];
    assert(views(params@) =~= seq![required_text_param("deployment_id"@)]);
    methods.push(method_info("vercel.redeploy", "Redeploy a deployment", params));

    assert(views(methods@) =~= catalog());
    methods
}

} // verus!
