//! What holds of the service whatever it is called with: the catalog and
//! the dispatch agree, defaults and second names work as described, and
//! answers are turned into results and errors by status alone.

use vstd::prelude::*;

use crate::api::client::{request_headers, set_env_body, API_BASE};
use crate::catalog::{catalog, MethodInfoModel};
use crate::error::ServiceErrorModel;
use crate::http::{is_success, ExchangeModel, HttpMethod};
use crate::json::{member_from, JsonModel};
use crate::operation::{param_str, plan, request_for, OperationModel, ParamsModel};
use crate::service::{api_health, count_json, health_report, listing, outcome};
use crate::text::decimal;

verus! {

/// The other name under which `method` accepts its parameter `name`, if it
/// accepts one.
pub open spec fn other_name(method: Seq<char>, name: Seq<char>) -> Option<Seq<char>> {
    if method == "vercel.project"@ && name == "project_id"@ {
        Some("name"@)
    } else if (method == "vercel.deployment"@ || method == "vercel.logs"@) && name == "deployment_id"@ {
        Some("id"@)
    } else {
        None
    }
}

/// Whether a call gives the parameter `name` of `method`: as a string, under
/// that name or under the other name that the method accepts for it.
pub open spec fn gives(params: ParamsModel, method: Seq<char>, name: Seq<char>) -> bool {
    param_str(params, name) is Some || match other_name(method, name) {
        Some(other) => param_str(params, other) is Some,
        None => false,
    }
}

/// The first required parameter of `method`, from the one at `from` on,
/// that a call does not give.
pub open spec fn first_missing(method: MethodInfoModel, params: ParamsModel, from: int) -> Option<
    Seq<char>,
>
    decreases method.params.len() - from,
{
    if from < 0 || from >= method.params.len() {
        None
    } else if method.params[from].required && !gives(params, method.name, method.params[from].name) {
        Some(method.params[from].name)
    } else {
        first_missing(method, params, from + 1)
    }
}

/// What is known of the methods' names: their lengths, the characters that
/// tell those of one length apart, and that each full name is `vercel.`
/// followed by the short one.
proof fn method_names_known()
    ensures
        "vercel."@.len() == 7,
        "health"@.len() == 6,
        "projects"@.len() == 8 && "projects"@[0] == 'p',
        "project"@.len() == 7 && "project"@[0] == 'p',
        "deployments"@.len() == 11 && "deployments"@[0] == 'd',
        "deployment"@.len() == 10,
        "logs"@.len() == 4 && "logs"@[0] == 'l',
        "user"@.len() == 4 && "user"@[0] == 'u',
        "env_vars"@.len() == 8 && "env_vars"@[0] == 'e',
        "set_env"@.len() == 7 && "set_env"@[0] == 's',
        "domains"@.len() == 7 && "domains"@[0] == 'd',
        "redeploy"@.len() == 8 && "redeploy"@[0] == 'r',
        "vercel.projects"@.len() == 15 && "vercel.projects"@[7] == 'p',
        "vercel.project"@.len() == 14 && "vercel.project"@[7] == 'p',
        "vercel.deployments"@.len() == 18,
        "vercel.deployment"@.len() == 17,
        "vercel.logs"@.len() == 11 && "vercel.logs"@[0] == 'v' && "vercel.logs"@[7] == 'l',
        "vercel.user"@.len() == 11 && "vercel.user"@[0] == 'v' && "vercel.user"@[7] == 'u',
        "vercel.env_vars"@.len() == 15 && "vercel.env_vars"@[7] == 'e',
        "vercel.set_env"@.len() == 14 && "vercel.set_env"@[7] == 's',
        "vercel.domains"@.len() == 14 && "vercel.domains"@[7] == 'd',
        "vercel.redeploy"@.len() == 15 && "vercel.redeploy"@[7] == 'r',
        "vercel.projects"@ == "vercel."@ + "projects"@,
        "vercel.project"@ == "vercel."@ + "project"@,
        "vercel.deployments"@ == "vercel."@ + "deployments"@,
        "vercel.deployment"@ == "vercel."@ + "deployment"@,
        "vercel.logs"@ == "vercel."@ + "logs"@,
        "vercel.user"@ == "vercel."@ + "user"@,
        "vercel.env_vars"@ == "vercel."@ + "env_vars"@,
        "vercel.set_env"@ == "vercel."@ + "set_env"@,
        "vercel.domains"@ == "vercel."@ + "domains"@,
        "vercel.redeploy"@ == "vercel."@ + "redeploy"@,
{
    reveal_strlit("vercel.");
    reveal_strlit("health");
    reveal_strlit("projects");
    reveal_strlit("project");
    reveal_strlit("deployments");
    reveal_strlit("deployment");
    reveal_strlit("logs");
    reveal_strlit("user");
    reveal_strlit("env_vars");
    reveal_strlit("set_env");
    reveal_strlit("domains");
    reveal_strlit("redeploy");
    reveal_strlit("vercel.projects");
    reveal_strlit("vercel.project");
    reveal_strlit("vercel.deployments");
    reveal_strlit("vercel.deployment");
    reveal_strlit("vercel.logs");
    reveal_strlit("vercel.user");
    reveal_strlit("vercel.env_vars");
    reveal_strlit("vercel.set_env");
    reveal_strlit("vercel.domains");
    reveal_strlit("vercel.redeploy");
    assert("vercel.projects"@ =~= "vercel."@ + "projects"@);
    assert("vercel.project"@ =~= "vercel."@ + "project"@);
    assert("vercel.deployments"@ =~= "vercel."@ + "deployments"@);
    assert("vercel.deployment"@ =~= "vercel."@ + "deployment"@);
    assert("vercel.logs"@ =~= "vercel."@ + "logs"@);
    assert("vercel.user"@ =~= "vercel."@ + "user"@);
    assert("vercel.env_vars"@ =~= "vercel."@ + "env_vars"@);
    assert("vercel.set_env"@ =~= "vercel."@ + "set_env"@);
    assert("vercel.domains"@ =~= "vercel."@ + "domains"@);
    assert("vercel.redeploy"@ =~= "vercel."@ + "redeploy"@);
}

/// What comes after `vercel.` in a name that starts with it.
proof fn prefix_comes_off(rest: Seq<char>)
    requires
        "vercel."@.len() == 7,
    ensures
        ("vercel."@ + rest).skip(7) == rest,
        ("vercel."@ + rest).take(7) == "vercel."@,
        ("vercel."@ + rest).len() == 7 + rest.len(),
{
    assert(("vercel."@ + rest).skip(7) =~= rest);
    assert(("vercel."@ + rest).take(7) =~= "vercel."@);
}

/// What is known of the parameters' names.
proof fn param_names_differ()
    ensures
        "project_id"@.len() == 10,
        "deployment_id"@.len() == 13,
        "name"@.len() == 4,
        "id"@.len() == 2,
        "key"@.len() == 3,
        "value"@.len() == 5 && "value"@[0] == 'v',
        "limit"@.len() == 5 && "limit"@[0] == 'l',
        "target"@.len() == 6,
        "type"@.len() == 4 && "type"@[0] == 't' && "name"@[0] == 'n',
{
    reveal_strlit("project_id");
    reveal_strlit("deployment_id");
    reveal_strlit("name");
    reveal_strlit("id");
    reveal_strlit("key");
    reveal_strlit("value");
    reveal_strlit("limit");
    reveal_strlit("target");
    reveal_strlit("type");
}

/// The catalog rules the dispatch. A call of a method of the catalog comes
/// to an operation exactly where it gives every parameter that the catalog
/// marks as required. Where it does not, the error names the first required
/// parameter that is not given, and there is no operation, so no request is
/// made.
pub proof fn catalog_rules_dispatch(index: int, params: ParamsModel)
    requires
        0 <= index < catalog().len(),
    ensures
        match first_missing(catalog()[index], params, 0) {
            Some(name) => plan(catalog()[index].name, params) == Err::<OperationModel, ServiceErrorModel>(
                ServiceErrorModel::MissingParameter(name),
            ),
            None => plan(catalog()[index].name, params) is Ok,
        },
{
    method_names_known();
    param_names_differ();
    reveal_with_fuel(first_missing, 6);
    let method = catalog()[index];
    if index == 0 {
        assert(method.name == "health"@);
    } else if index == 1 {
        assert(method.name == "vercel.projects"@);
    } else if index == 2 {
        assert(method.name == "vercel.project"@);
    } else if index == 3 {
        assert(method.name == "vercel.deployments"@);
    } else if index == 4 {
        assert(method.name == "vercel.deployment"@);
    } else if index == 5 {
        assert(method.name == "vercel.logs"@);
    } else if index == 6 {
        assert(method.name == "vercel.user"@);
    } else if index == 7 {
        assert(method.name == "vercel.env_vars"@);
    } else if index == 8 {
        assert(method.name == "vercel.set_env"@);
    } else if index == 9 {
        assert(method.name == "vercel.domains"@);
    } else {
        assert(method.name == "vercel.redeploy"@);
    }
}

/// The search for the first required parameter that is not given finds
/// one where there is one, and finds the one at `position` where every
/// required parameter before it is given.
proof fn first_missing_finds(
    method: MethodInfoModel,
    params: ParamsModel,
    from: int,
    position: int,
)
    requires
        0 <= from <= position < method.params.len(),
        method.params[position].required,
        !gives(params, method.name, method.params[position].name),
    ensures
        first_missing(method, params, from) is Some,
        (forall|earlier: int|
            from <= earlier < position && method.params[earlier].required ==> gives(
                params,
                method.name,
                #[trigger] method.params[earlier].name,
            )) ==> first_missing(method, params, from) == Some(method.params[position].name),
    decreases position - from,
{
    if from < position {
        first_missing_finds(method, params, from + 1, position);
    }
}

/// A call that leaves out a required parameter of a method of the catalog
/// is refused with a validation error, and nothing is sent. Where every
/// required parameter before that one is given, the error names it.
pub proof fn missing_parameter_is_refused(index: int, position: int, params: ParamsModel)
    requires
        0 <= index < catalog().len(),
        0 <= position < catalog()[index].params.len(),
        catalog()[index].params[position].required,
        !gives(params, catalog()[index].name, catalog()[index].params[position].name),
    ensures
        plan(catalog()[index].name, params) matches Err(ServiceErrorModel::MissingParameter(_)),
        (forall|earlier: int|
            0 <= earlier < position && catalog()[index].params[earlier].required ==> gives(
                params,
                catalog()[index].name,
                #[trigger] catalog()[index].params[earlier].name,
            )) ==> plan(catalog()[index].name, params) == Err::<OperationModel, ServiceErrorModel>(
            ServiceErrorModel::MissingParameter(catalog()[index].params[position].name),
        ),
{
    first_missing_finds(catalog()[index], params, 0, position);
    catalog_rules_dispatch(index, params);
}

/// Whether the catalog lists `method`: under that name, or under that name
/// with `vercel.` in front.
pub open spec fn in_catalog(method: Seq<char>) -> bool {
    exists|index: int|
        0 <= index < catalog().len() && (method == #[trigger] catalog()[index].name || "vercel."@ + method
            == catalog()[index].name)
}

/// The names of the catalog's entries, one by one.
proof fn catalog_names()
    ensures
        catalog().len() == 11,
        catalog()[0].name == "health"@,
        catalog()[1].name == "vercel.projects"@,
        catalog()[2].name == "vercel.project"@,
        catalog()[3].name == "vercel.deployments"@,
        catalog()[4].name == "vercel.deployment"@,
        catalog()[5].name == "vercel.logs"@,
        catalog()[6].name == "vercel.user"@,
        catalog()[7].name == "vercel.env_vars"@,
        catalog()[8].name == "vercel.set_env"@,
        catalog()[9].name == "vercel.domains"@,
        catalog()[10].name == "vercel.redeploy"@,
{
}

/// The catalog and the dispatch know the same methods: a name is routed
/// exactly where the catalog lists it, with `vercel.` in front or without
/// it. Any other name is refused, and the error holds it.
pub proof fn catalog_names_dispatch(method: Seq<char>, params: ParamsModel)
    ensures
        in_catalog(method) <==> plan(method, params) != Err::<OperationModel, ServiceErrorModel>(
            ServiceErrorModel::UnknownMethod(method),
        ),
{
    method_names_known();
    catalog_names();
    if in_catalog(method) {
        let index = choose|index: int|
            0 <= index < catalog().len() && (method == #[trigger] catalog()[index].name || "vercel."@ + method
                == catalog()[index].name);
        if "vercel."@ + method == catalog()[index].name {
            prefix_comes_off(method);
            prefix_comes_off("projects"@);
            prefix_comes_off("project"@);
            prefix_comes_off("deployments"@);
            prefix_comes_off("deployment"@);
            prefix_comes_off("logs"@);
            prefix_comes_off("user"@);
            prefix_comes_off("env_vars"@);
            prefix_comes_off("set_env"@);
            prefix_comes_off("domains"@);
            prefix_comes_off("redeploy"@);
        }
    }
}

/// Every method but `health` goes by its short name as by its full one:
/// the full name is `vercel.` followed by the short one, and both come to
/// the same plan.
pub proof fn short_names_agree(index: int, params: ParamsModel)
    requires
        0 <= index < catalog().len(),
        catalog()[index].name != "health"@,
    ensures
        catalog()[index].name == "vercel."@ + catalog()[index].name.skip(7),
        plan(catalog()[index].name.skip(7), params) == plan(catalog()[index].name, params),
{
    method_names_known();
    catalog_names();
    prefix_comes_off("projects"@);
    prefix_comes_off("project"@);
    prefix_comes_off("deployments"@);
    prefix_comes_off("deployment"@);
    prefix_comes_off("logs"@);
    prefix_comes_off("user"@);
    prefix_comes_off("env_vars"@);
    prefix_comes_off("set_env"@);
    prefix_comes_off("domains"@);
    prefix_comes_off("redeploy"@);
}

/// A listing asks for 20 entries where `limit` is left out, and where it
/// is given as anything but an integer; neither is an error.
pub proof fn limit_falls_back_to_default(params: ParamsModel)
    requires
        !(member_from(params, "limit"@, 0) matches Some(JsonModel::Int(_))),
    ensures
        plan("projects"@, params) == Ok::<OperationModel, ServiceErrorModel>(
            OperationModel::ListProjects { limit: 20 },
        ),
        plan("deployments"@, params) == Ok::<OperationModel, ServiceErrorModel>(
            OperationModel::ListDeployments { project_id: param_str(params, "project_id"@), limit: 20 },
        ),
{
    method_names_known();
}

/// The number of entries that an operation asks for, if it is a listing
/// that takes a limit.
pub open spec fn limit_of(operation: OperationModel) -> Option<int> {
    match operation {
        OperationModel::ListProjects { limit } => Some(limit),
        OperationModel::ListDeployments { limit, .. } => Some(limit),
        _ => None,
    }
}

/// The catalog rules the defaults of the integer parameters. Where a call
/// of a method of the catalog leaves out a parameter that the catalog
/// describes as an integer, or gives it as anything but an integer, the
/// call is not refused for it, and the operation holds the default that
/// the catalog states.
pub proof fn catalog_rules_integer_defaults(index: int, position: int, params: ParamsModel)
    requires
        0 <= index < catalog().len(),
        0 <= position < catalog()[index].params.len(),
        catalog()[index].params[position].param_type == "integer"@,
        !(member_from(params, catalog()[index].params[position].name, 0) matches Some(JsonModel::Int(_))),
    ensures
        catalog()[index].params[position].default == Some(JsonModel::Int(20)),
        plan(catalog()[index].name, params) matches Ok(operation) && limit_of(operation) == Some(20int),
{
    method_names_known();
    param_names_differ();
    reveal_strlit("integer");
    reveal_strlit("string");
    reveal_strlit("array");
    assert("integer"@.len() == 7 && "string"@.len() == 6 && "array"@.len() == 5);
    let method = catalog()[index];
    if index == 1 {
        assert(method.name == "vercel.projects"@);
    } else if index == 3 {
        assert(method.name == "vercel.deployments"@);
    }
}

/// The catalog rules the defaults of `set_env`: a variable that is set
/// without `target` and without `type` is sent with the values that the
/// catalog states for them.
pub proof fn catalog_rules_set_env_defaults(key: Seq<char>, value: Seq<char>)
    ensures
        catalog()[8].name == "vercel.set_env"@,
        catalog()[8].params[3].name == "target"@,
        catalog()[8].params[4].name == "type"@,
        set_env_body(key, value, None, None).get("target"@) == catalog()[8].params[3].default,
        set_env_body(key, value, None, None).get("type"@) == catalog()[8].params[4].default,
{
    reveal_strlit("key");
    reveal_strlit("value");
    reveal_strlit("type");
    reveal_strlit("target");
    assert("key"@.len() == 3 && "value"@.len() == 5 && "type"@.len() == 4 && "target"@.len() == 6);
    reveal_with_fuel(member_from, 5);
    let sent = set_env_body(key, value, None, None).get("target"@).unwrap();
    let stated = catalog()[8].params[3].default.unwrap();
    assert(sent->Array_0 =~= stated->Array_0);
}

/// A project asked for by `name` alone is the project asked for by
/// `project_id` with the same value: both calls come to the same
/// operation, hence to the same request and the same result.
pub proof fn project_by_name_or_id(
    by_id: ParamsModel,
    by_name: ParamsModel,
    value: Seq<char>,
)
    requires
        param_str(by_id, "project_id"@) == Some(value),
        param_str(by_name, "project_id"@) is None,
        param_str(by_name, "name"@) == Some(value),
    ensures
        plan("project"@, by_name) == plan("project"@, by_id),
        plan("project"@, by_id) == Ok::<OperationModel, ServiceErrorModel>(
            OperationModel::GetProject { project_id: value },
        ),
{
    method_names_known();
}

/// A deployment asked for by `id` alone is the deployment asked for by
/// `deployment_id` with the same value, and so is its log.
pub proof fn deployment_by_id(
    by_full: ParamsModel,
    by_short: ParamsModel,
    value: Seq<char>,
)
    requires
        param_str(by_full, "deployment_id"@) == Some(value),
        param_str(by_short, "deployment_id"@) is None,
        param_str(by_short, "id"@) == Some(value),
    ensures
        plan("deployment"@, by_short) == plan("deployment"@, by_full),
        plan("logs"@, by_short) == plan("logs"@, by_full),
{
    method_names_known();
}

/// Every request goes to the API's origin, carries the credential as a
/// bearer token and asks for JSON. It is a GET without a body for every
/// operation but `set_env` and `redeploy`, which post one.
pub proof fn every_request_is_authenticated(token: Seq<char>, operation: OperationModel)
    ensures
        request_for(token, operation).headers == request_headers(token),
        request_headers(token)[0] == ("Authorization"@, "Bearer "@ + token),
        request_headers(token)[1] == ("Accept"@, "application/json"@),
        request_for(token, operation).url.take(API_BASE@.len() as int) == API_BASE@,
        if operation is SetEnvVar || operation is Redeploy {
            request_for(token, operation).method == HttpMethod::Post && request_for(token, operation).body is Some
        } else {
            request_for(token, operation).method == HttpMethod::Get && request_for(token, operation).body is None
        },
{
    let url = request_for(token, operation).url;
    assert(url.take(API_BASE@.len() as int) =~= API_BASE@);
}

/// An answer with a status outside 200..=299 is an error that holds the
/// status and the body as they came, whatever the body reads as, for every
/// operation but `health`; its message shows both.
pub proof fn status_error_holds_status_and_body(
    operation: OperationModel,
    status: int,
    body: Seq<char>,
    parsed: Option<JsonModel>,
)
    requires
        !is_success(status),
        !(operation is Health),
    ensures
        outcome(operation, ExchangeModel::Answered { status, body }, parsed) == Err::<JsonModel, ServiceErrorModel>(
            ServiceErrorModel::Status { code: status, body },
        ),
        (ServiceErrorModel::Status { code: status, body }).message() == "API request failed: "@ + decimal(status)
            + " - "@ + body,
{
}

/// `health` makes a report of every answer and an error of none: healthy
/// and connected where the status is in 200..=299, unhealthy and not
/// connected for any other.
pub proof fn health_reports_every_answer(status: int, body: Seq<char>, parsed: Option<JsonModel>)
    ensures
        outcome(OperationModel::Health, ExchangeModel::Answered { status, body }, parsed) == Ok::<
            JsonModel,
            ServiceErrorModel,
        >(health_report(is_success(status))),
        health_report(true).get("status"@) == Some(JsonModel::Str("healthy"@)),
        health_report(true).get("api_connected"@) == Some(JsonModel::Bool(true)),
        health_report(false).get("status"@) == Some(JsonModel::Str("unhealthy"@)),
        health_report(false).get("api_connected"@) == Some(JsonModel::Bool(false)),
{
    reveal_strlit("status");
    reveal_strlit("api_connected");
    assert("status"@.len() == 6);
    assert("api_connected"@.len() == 13);
    reveal_with_fuel(member_from, 3);
}

/// The health check goes by the status and by the body of the probe's
/// answer: an answer with a status in 200..=299 makes the API well exactly
/// where its body is JSON, and where it is not, the reason is the decode
/// failure. Any other status makes it not well, whatever the body.
pub proof fn health_check_reads_the_probe(status: int, body: Seq<char>, parsed: Option<JsonModel>)
    ensures
        api_health(ExchangeModel::Answered { status, body }, parsed).ok <==> is_success(status) && parsed is Some,
        is_success(status) && parsed is None ==> api_health(ExchangeModel::Answered { status, body }, parsed).message
            == Some(ServiceErrorModel::Decode.message()),
        is_success(status) && parsed is Some ==> api_health(ExchangeModel::Answered { status, body }, parsed).message
            is None,
        !is_success(status) ==> api_health(ExchangeModel::Answered { status, body }, parsed).message == Some(
            "API returned error"@,
        ),
{
}

/// What a listing returns is what the answer holds: the limit and the
/// filter that were asked for do not change the result of an answer, which
/// may hold fewer entries than the limit.
pub proof fn listing_result_is_the_answers(
    limit: int,
    other_limit: int,
    project_id: Option<Seq<char>>,
    other_project_id: Option<Seq<char>>,
    exchange: ExchangeModel,
    parsed: Option<JsonModel>,
)
    ensures
        outcome(OperationModel::ListProjects { limit }, exchange, parsed) == outcome(
            OperationModel::ListProjects { limit: other_limit },
            exchange,
            parsed,
        ),
        outcome(OperationModel::ListDeployments { project_id, limit }, exchange, parsed) == outcome(
            OperationModel::ListDeployments { project_id: other_project_id, limit: other_limit },
            exchange,
            parsed,
        ),
{
}

/// A listing counts what it holds: `count` is the number of entries, and
/// the entries are those of the answer, in its order.
pub proof fn listing_counts_its_entries(key: Seq<char>, entries: Seq<JsonModel>)
    requires
        key != "count"@,
    ensures
        listing(key, JsonModel::Array(entries), entries.len()).get(key) == Some(JsonModel::Array(entries)),
        listing(key, JsonModel::Array(entries), entries.len()).get("count"@) == Some(count_json(entries.len())),
{
    reveal_with_fuel(member_from, 3);
}

} // verus!
