//! What the Vercel API answers with: projects, deployments, log events and
//! users, each read from JSON and written back to it.

use vstd::prelude::*;

use crate::json::{
    aliased_text, array_view, defaulted_text, int_or_null, int_view, json_view, member_from, members_view,
    object_view, optional_int, optional_text, optional_value, required_text, text_or_null, text_view,
    value_or_null, views, Json, JsonModel,
};

verus! {

/// A deployment as a project's listing mentions it.
#[derive(Debug, Clone, PartialEq, Eq)]
pub struct DeploymentSummary {
    pub id: String,
    pub url: Option<String>,
    pub ready_state: Option<String>,
    pub created_at: Option<i64>,
}

/// What a summary holds.
pub struct DeploymentSummaryModel {
    pub id: Seq<char>,
    pub url: Option<Seq<char>>,
    pub ready_state: Option<Seq<char>>,
    pub created_at: Option<int>,
}

impl View for DeploymentSummary {
    type V = DeploymentSummaryModel;

    open spec fn view(&self) -> DeploymentSummaryModel {
        DeploymentSummaryModel {
            id: self.id@,
            url: text_view(self.url),
            ready_state: text_view(self.ready_state),
            created_at: int_view(self.created_at),
        }
    }
}

impl DeploymentSummaryModel {
    /// Reads a summary from an object: `id` must be there, the rest may be
    /// missing or null, and no member may have another type than its own.
    pub open spec fn decode(json: JsonModel) -> Option<DeploymentSummaryModel> {
        if json is Object && required_text(json, "id"@) is Some && optional_text(json, "url"@) is Some
            && optional_text(json, "readyState"@) is Some && optional_int(json, "createdAt"@) is Some {
            Some(
                DeploymentSummaryModel {
                    id: required_text(json, "id"@).unwrap(),
                    url: optional_text(json, "url"@).unwrap(),
                    ready_state: optional_text(json, "readyState"@).unwrap(),
                    created_at: optional_int(json, "createdAt"@).unwrap(),
                },
            )
        } else {
            None
        }
    }

    /// Writes a summary as an object with all its members, null for those
    /// that are not set.
    pub open spec fn encode(self) -> JsonModel {
        JsonModel::Object(
            seq![
                ("id"@, JsonModel::Str(self.id)),
                ("url"@, text_or_null(self.url)),
                ("readyState"@, text_or_null(self.ready_state)),
                ("createdAt"@, int_or_null(self.created_at)),
            ],
        )
    }
}

impl DeploymentSummary {
    /// Reads a summary from JSON: nothing where the JSON is refused.
    pub fn from_json(json: &Json) -> (decoded: Option<DeploymentSummary>)
        ensures
            match decoded {
                Some(summary) => DeploymentSummaryModel::decode(json@) == Some(summary@),
                None => DeploymentSummaryModel::decode(json@) is None,
            },
    {
        if !json.is_object() {
            return None;
        }
        let id = match json.required_text("id") {
            Some(id) => id,
            None => return None,
        };
        let url = match json.optional_text("url") {
            Some(url) => url,
            None => return None,
        };
        let ready_state = match json.optional_text("readyState") {
            Some(ready_state) => ready_state,
            None => return None,
        };
        let created_at = match json.optional_int("createdAt") {
            Some(created_at) => created_at,
            None => return None,
        };
        Some(DeploymentSummary { id, url, ready_state, created_at })
    }

    /// Writes the value as a JSON object.
    pub fn to_json(&self) -> (json: Json)
        ensures
            json@ == self@.encode(),
    {
        let mut members: Vec<(String, Json)> = Vec::new();
        members.push(("id".to_owned(), Json::Str(self.id.clone())));
        members.push(("url".to_owned(), Json::text_or_null(&self.url)));
        members.push(("readyState".to_owned(), Json::text_or_null(&self.ready_state)));
        members.push(("createdAt".to_owned(), Json::int_or_null(&self.created_at)));
        proof {
            object_view(members);
            assert(members_view(members@) =~= self@.encode()->Object_0);
        }
        Json::Object(members)
    }
}

/// Every item of an array read as a summary: nothing where one of them is
/// refused.
pub open spec fn decode_summaries(items: Seq<JsonModel>) -> Option<Seq<DeploymentSummaryModel>> {
    if forall|i: int| 0 <= i < items.len() ==> (#[trigger] DeploymentSummaryModel::decode(items[i])) is Some {
        Some(Seq::new(items.len(), |i: int| DeploymentSummaryModel::decode(items[i]).unwrap()))
    } else {
        None
    }
}

/// The summaries as an array, each written as an object.
pub open spec fn encode_summaries(list: Seq<DeploymentSummaryModel>) -> JsonModel {
    JsonModel::Array(Seq::new(list.len(), |i: int| list[i].encode()))
}

/// Reads every item of an array as a summary.
pub fn read_summaries(items: &Vec<Json>) -> (decoded: Option<Vec<DeploymentSummary>>)
    ensures
        match decoded {
            Some(list) => decode_summaries(views(items@)) == Some(views(list@)),
            None => decode_summaries(views(items@)) is None,
        },
{
    let mut list: Vec<DeploymentSummary> = Vec::new();
    let mut i: usize = 0;
    while i < items.len()
        invariant
            0 <= i <= items.len(),
            list.len() == i,
            forall|k: int| 0 <= k < i ==> DeploymentSummaryModel::decode(#[trigger] items[k]@) == Some(list[k]@),
        decreases items.len() - i,
    {
        match DeploymentSummary::from_json(&items[i]) {
            Some(item) => list.push(item),
            None => {
                assert(DeploymentSummaryModel::decode(views(items@)[i as int]) is None);
                return None;
            },
        }
        i = i + 1;
    }
    proof {
        assert forall|k: int| 0 <= k < items.len() implies (#[trigger] DeploymentSummaryModel::decode(
            views(items@)[k],
        )) is Some by {
            assert(DeploymentSummaryModel::decode(items[k]@) == Some(list[k]@));
        }
        assert(decode_summaries(views(items@)).unwrap() =~= views(list@));
    }
    Some(list)
}

/// Writes the summaries as an array.
pub fn write_summaries(list: &Vec<DeploymentSummary>) -> (json: Json)
    ensures
        json@ == encode_summaries(views(list@)),
{
    let mut items: Vec<Json> = Vec::new();
    let mut i: usize = 0;
    while i < list.len()
        invariant
            0 <= i <= list.len(),
            items.len() == i,
            forall|k: int| 0 <= k < i ==> items[k]@ == list[k]@.encode(),
        decreases list.len() - i,
    {
        items.push(list[i].to_json());
        i = i + 1;
    }
    proof {
        array_view(items);
        assert(views(items@) =~= encode_summaries(views(list@))->Array_0);
    }
    Json::Array(items)
}

/// The views of the summaries that a project holds, if it holds any.
pub open spec fn summaries_view(summaries: Option<Vec<DeploymentSummary>>) -> Option<Seq<DeploymentSummaryModel>> {
    match summaries {
        Some(list) => Some(views(list@)),
        None => None,
    }
}

/// A member that may be missing or null, and is an array of summaries
/// otherwise.
pub open spec fn optional_summaries(object: JsonModel, key: Seq<char>) -> Option<Option<Seq<DeploymentSummaryModel>>> {
    match object.get(key) {
        None => Some(None),
        Some(JsonModel::Null) => Some(None),
        Some(JsonModel::Array(items)) => match decode_summaries(items) {
            Some(list) => Some(Some(list)),
            None => None,
        },
        Some(_) => None,
    }
}

/// The summaries as an array, or null where there are none.
pub open spec fn summaries_or_null(summaries: Option<Seq<DeploymentSummaryModel>>) -> JsonModel {
    match summaries {
        Some(list) => encode_summaries(list),
        None => JsonModel::Null,
    }
}

fn read_optional_summaries(json: &Json, key: &str) -> (decoded: Option<Option<Vec<DeploymentSummary>>>)
    ensures
        match decoded {
            Some(inner) => optional_summaries(json@, key@) == Some(summaries_view(inner)),
            None => optional_summaries(json@, key@) is None,
        },
{
    match json.get(key) {
        None => Some(None),
        Some(Json::Null) => Some(None),
        Some(Json::Array(items)) => {
            proof {
                array_view(*items);
            }
            match read_summaries(items) {
                Some(list) => Some(Some(list)),
                None => None,
            }
        },
        Some(_) => None,
    }
}

fn write_summaries_or_null(summaries: &Option<Vec<DeploymentSummary>>) -> (json: Json)
    ensures
        json@ == summaries_or_null(summaries_view(*summaries)),
{
    match summaries {
        Some(list) => write_summaries(list),
        None => Json::Null,
    }
}

/// A project.
#[derive(Debug, Clone, PartialEq, Eq)]
pub struct Project {
    pub id: String,
    pub name: String,
    pub account_id: Option<String>,
    pub framework: Option<String>,
    pub created_at: Option<i64>,
    pub updated_at: Option<i64>,
    pub node_version: Option<String>,
    pub latest_deployments: Option<Vec<DeploymentSummary>>,
}

/// What a project holds.
pub struct ProjectModel {
    pub id: Seq<char>,
    pub name: Seq<char>,
    pub account_id: Option<Seq<char>>,
    pub framework: Option<Seq<char>>,
    pub created_at: Option<int>,
    pub updated_at: Option<int>,
    pub node_version: Option<Seq<char>>,
    pub latest_deployments: Option<Seq<DeploymentSummaryModel>>,
}

impl View for Project {
    type V = ProjectModel;

    open spec fn view(&self) -> ProjectModel {
        ProjectModel {
            id: self.id@,
            name: self.name@,
            account_id: text_view(self.account_id),
            framework: text_view(self.framework),
            created_at: int_view(self.created_at),
            updated_at: int_view(self.updated_at),
            node_version: text_view(self.node_version),
            latest_deployments: summaries_view(self.latest_deployments),
        }
    }
}

impl ProjectModel {
    /// Reads a project from an object: `id` and `name` must be there, the rest
    /// may be missing or null, and no member may have another type than its
    /// own.
    pub open spec fn decode(json: JsonModel) -> Option<ProjectModel> {
        if json is Object
            && required_text(json, "id"@) is Some
            && required_text(json, "name"@) is Some
            && optional_text(json, "accountId"@) is Some
            && optional_text(json, "framework"@) is Some
            && optional_int(json, "createdAt"@) is Some
            && optional_int(json, "updatedAt"@) is Some
            && optional_text(json, "nodeVersion"@) is Some
            && optional_summaries(json, "latestDeployments"@) is Some {
            Some(
                ProjectModel {
                    id: required_text(json, "id"@).unwrap(),
                    name: required_text(json, "name"@).unwrap(),
                    account_id: optional_text(json, "accountId"@).unwrap(),
                    framework: optional_text(json, "framework"@).unwrap(),
                    created_at: optional_int(json, "createdAt"@).unwrap(),
                    updated_at: optional_int(json, "updatedAt"@).unwrap(),
                    node_version: optional_text(json, "nodeVersion"@).unwrap(),
                    latest_deployments: optional_summaries(json, "latestDeployments"@).unwrap(),
                },
            )
        } else {
            None
        }
    }

    /// Writes the project as an object with all its members, null for those
    /// that are not set.
    pub open spec fn encode(self) -> JsonModel {
        JsonModel::Object(
            seq![
                ("id"@, JsonModel::Str(self.id)),
                ("name"@, JsonModel::Str(self.name)),
                ("accountId"@, text_or_null(self.account_id)),
                ("framework"@, text_or_null(self.framework)),
                ("createdAt"@, int_or_null(self.created_at)),
                ("updatedAt"@, int_or_null(self.updated_at)),
                ("nodeVersion"@, text_or_null(self.node_version)),
                ("latestDeployments"@, summaries_or_null(self.latest_deployments)),
            ],
        )
    }
}

impl Project {
    /// Reads a project from JSON: nothing where the JSON is refused.
    pub fn from_json(json: &Json) -> (decoded: Option<Project>)
        ensures
            match decoded {
                Some(project) => ProjectModel::decode(json@) == Some(project@),
                None => ProjectModel::decode(json@) is None,
            },
    {
        if !json.is_object() {
            return None;
        }
        let id = match json.required_text("id") {
            Some(id) => id,
            None => return None,
        };
        let name = match json.required_text("name") {
            Some(name) => name,
            None => return None,
        };
        let account_id = match json.optional_text("accountId") {
            Some(account_id) => account_id,
            None => return None,
        };
        let framework = match json.optional_text("framework") {
            Some(framework) => framework,
            None => return None,
        };
        let created_at = match json.optional_int("createdAt") {
            Some(created_at) => created_at,
            None => return None,
        };
        let updated_at = match json.optional_int("updatedAt") {
            Some(updated_at) => updated_at,
            None => return None,
        };
        let node_version = match json.optional_text("nodeVersion") {
            Some(node_version) => node_version,
            None => return None,
        };
        let latest_deployments = match read_optional_summaries(json, "latestDeployments") {
            Some(latest_deployments) => latest_deployments,
            None => return None,
        };
        Some(Project { id, name, account_id, framework, created_at, updated_at, node_version, latest_deployments })
    }

    /// Writes the value as a JSON object.
    pub fn to_json(&self) -> (json: Json)
        ensures
            json@ == self@.encode(),
    {
        let mut members: Vec<(String, Json)> = Vec::new();
        members.push(("id".to_owned(), Json::Str(self.id.clone())));
        members.push(("name".to_owned(), Json::Str(self.name.clone())));
        members.push(("accountId".to_owned(), Json::text_or_null(&self.account_id)));
        members.push(("framework".to_owned(), Json::text_or_null(&self.framework)));
        members.push(("createdAt".to_owned(), Json::int_or_null(&self.created_at)));
        members.push(("updatedAt".to_owned(), Json::int_or_null(&self.updated_at)));
        members.push(("nodeVersion".to_owned(), Json::text_or_null(&self.node_version)));
        members.push(("latestDeployments".to_owned(), write_summaries_or_null(&self.latest_deployments)));
        proof {
            object_view(members);
            assert(members_view(members@) =~= self@.encode()->Object_0);
        }
        Json::Object(members)
    }
}

/// Every item of an array read as a project: nothing where one of them is
/// refused.
pub open spec fn decode_projects(items: Seq<JsonModel>) -> Option<Seq<ProjectModel>> {
    if forall|i: int| 0 <= i < items.len() ==> (#[trigger] ProjectModel::decode(items[i])) is Some {
        Some(Seq::new(items.len(), |i: int| ProjectModel::decode(items[i]).unwrap()))
    } else {
        None
    }
}

/// The projects as an array, each written as an object.
pub open spec fn encode_projects(list: Seq<ProjectModel>) -> JsonModel {
    JsonModel::Array(Seq::new(list.len(), |i: int| list[i].encode()))
}

/// Reads every item of an array as a project.
pub fn read_projects(items: &Vec<Json>) -> (decoded: Option<Vec<Project>>)
    ensures
        match decoded {
            Some(list) => decode_projects(views(items@)) == Some(views(list@)),
            None => decode_projects(views(items@)) is None,
        },
{
    let mut list: Vec<Project> = Vec::new();
    let mut i: usize = 0;
    while i < items.len()
        invariant
            0 <= i <= items.len(),
            list.len() == i,
            forall|k: int| 0 <= k < i ==> ProjectModel::decode(#[trigger] items[k]@) == Some(list[k]@),
        decreases items.len() - i,
    {
        match Project::from_json(&items[i]) {
            Some(item) => list.push(item),
            None => {
                assert(ProjectModel::decode(views(items@)[i as int]) is None);
                return None;
            },
        }
        i = i + 1;
    }
    proof {
        assert forall|k: int| 0 <= k < items.len() implies (#[trigger] ProjectModel::decode(
            views(items@)[k],
        )) is Some by {
            assert(ProjectModel::decode(items[k]@) == Some(list[k]@));
        }
        assert(decode_projects(views(items@)).unwrap() =~= views(list@));
    }
    Some(list)
}

/// Writes the projects as an array.
pub fn write_projects(list: &Vec<Project>) -> (json: Json)
    ensures
        json@ == encode_projects(views(list@)),
{
    let mut items: Vec<Json> = Vec::new();
    let mut i: usize = 0;
    while i < list.len()
        invariant
            0 <= i <= list.len(),
            items.len() == i,
            forall|k: int| 0 <= k < i ==> items[k]@ == list[k]@.encode(),
        decreases list.len() - i,
    {
        items.push(list[i].to_json());
        i = i + 1;
    }
    proof {
        array_view(items);
        assert(views(items@) =~= encode_projects(views(list@))->Array_0);
    }
    Json::Array(items)
}

/// Who made a deployment.
#[derive(Debug, Clone, PartialEq, Eq)]
pub struct Creator {
    pub uid: Option<String>,
    pub email: Option<String>,
    pub username: Option<String>,
}

/// What a creator holds.
pub struct CreatorModel {
    pub uid: Option<Seq<char>>,
    pub email: Option<Seq<char>>,
    pub username: Option<Seq<char>>,
}

impl View for Creator {
    type V = CreatorModel;

    open spec fn view(&self) -> CreatorModel {
        CreatorModel {
            uid: text_view(self.uid),
            email: text_view(self.email),
            username: text_view(self.username),
        }
    }
}

impl CreatorModel {
    /// Reads a creator from an object: every member may be missing or null, and
    /// none may have another type than its own.
    pub open spec fn decode(json: JsonModel) -> Option<CreatorModel> {
        if json is Object
            && optional_text(json, "uid"@) is Some
            && optional_text(json, "email"@) is Some
            && optional_text(json, "username"@) is Some {
            Some(
                CreatorModel {
                    uid: optional_text(json, "uid"@).unwrap(),
                    email: optional_text(json, "email"@).unwrap(),
                    username: optional_text(json, "username"@).unwrap(),
                },
            )
        } else {
            None
        }
    }

    /// Writes the creator as an object with all its members, null for those
    /// that are not set.
    pub open spec fn encode(self) -> JsonModel {
        JsonModel::Object(
            seq![
                ("uid"@, text_or_null(self.uid)),
                ("email"@, text_or_null(self.email)),
                ("username"@, text_or_null(self.username)),
            ],
        )
    }
}

impl Creator {
    /// Reads a creator from JSON: nothing where the JSON is refused.
    pub fn from_json(json: &Json) -> (decoded: Option<Creator>)
        ensures
            match decoded {
                Some(creator) => CreatorModel::decode(json@) == Some(creator@),
                None => CreatorModel::decode(json@) is None,
            },
    {
        if !json.is_object() {
            return None;
        }
        let uid = match json.optional_text("uid") {
            Some(uid) => uid,
            None => return None,
        };
        let email = match json.optional_text("email") {
            Some(email) => email,
            None => return None,
        };
        let username = match json.optional_text("username") {
            Some(username) => username,
            None => return None,
        };
        Some(Creator { uid, email, username })
    }

    /// Writes the value as a JSON object.
    pub fn to_json(&self) -> (json: Json)
        ensures
            json@ == self@.encode(),
    {
        let mut members: Vec<(String, Json)> = Vec::new();
        members.push(("uid".to_owned(), Json::text_or_null(&self.uid)));
        members.push(("email".to_owned(), Json::text_or_null(&self.email)));
        members.push(("username".to_owned(), Json::text_or_null(&self.username)));
        proof {
            object_view(members);
            assert(members_view(members@) =~= self@.encode()->Object_0);
        }
        Json::Object(members)
    }
}

/// The view of the creator that a deployment names, if it names one.
pub open spec fn creator_view(creator: Option<Creator>) -> Option<CreatorModel> {
    match creator {
        Some(c) => Some(c@),
        None => None,
    }
}

/// A member that may be missing or null, and is a creator otherwise.
pub open spec fn optional_creator(object: JsonModel, key: Seq<char>) -> Option<Option<CreatorModel>> {
    match object.get(key) {
        None => Some(None),
        Some(JsonModel::Null) => Some(None),
        Some(value) => match CreatorModel::decode(value) {
            Some(creator) => Some(Some(creator)),
            None => None,
        },
    }
}

/// The creator as an object, or null where there is none.
pub open spec fn creator_or_null(creator: Option<CreatorModel>) -> JsonModel {
    match creator {
        Some(c) => c.encode(),
        None => JsonModel::Null,
    }
}

fn read_optional_creator(json: &Json, key: &str) -> (decoded: Option<Option<Creator>>)
    ensures
        match decoded {
            Some(inner) => optional_creator(json@, key@) == Some(creator_view(inner)),
            None => optional_creator(json@, key@) is None,
        },
{
    match json.get(key) {
        None => Some(None),
        Some(Json::Null) => Some(None),
        Some(value) => match Creator::from_json(value) {
            Some(creator) => Some(Some(creator)),
            None => None,
        },
    }
}

fn write_creator(creator: &Option<Creator>) -> (json: Json)
    ensures
        json@ == creator_or_null(creator_view(*creator)),
{
    match creator {
        Some(c) => c.to_json(),
        None => Json::Null,
    }
}

/// A deployment.
#[derive(Debug, Clone, PartialEq, Eq)]
pub struct Deployment {
    pub uid: String,
    pub name: String,
    pub url: String,
    pub ready_state: String,
    pub state: Option<String>,
    pub created: Option<i64>,
    pub building_at: Option<i64>,
    pub ready: Option<i64>,
    pub project_id: Option<String>,
    pub creator: Option<Creator>,
    pub meta: Option<Json>,
    pub target: Option<String>,
    pub source: Option<String>,
}

/// What a deployment holds.
pub struct DeploymentModel {
    pub uid: Seq<char>,
    pub name: Seq<char>,
    pub url: Seq<char>,
    pub ready_state: Seq<char>,
    pub state: Option<Seq<char>>,
    pub created: Option<int>,
    pub building_at: Option<int>,
    pub ready: Option<int>,
    pub project_id: Option<Seq<char>>,
    pub creator: Option<CreatorModel>,
    pub meta: Option<JsonModel>,
    pub target: Option<Seq<char>>,
    pub source: Option<Seq<char>>,
}

impl View for Deployment {
    type V = DeploymentModel;

    open spec fn view(&self) -> DeploymentModel {
        DeploymentModel {
            uid: self.uid@,
            name: self.name@,
            url: self.url@,
            ready_state: self.ready_state@,
            state: text_view(self.state),
            created: int_view(self.created),
            building_at: int_view(self.building_at),
            ready: int_view(self.ready),
            project_id: text_view(self.project_id),
            creator: creator_view(self.creator),
            meta: json_view(self.meta),
            target: text_view(self.target),
            source: text_view(self.source),
        }
    }
}

impl DeploymentModel {
    /// Reads a deployment from an object. Its identity is the member `uid`, or
    /// `id` where there is no `uid`; `name` and `url` must be there;
    /// `readyState` is empty where it is missing; the rest may be missing or
    /// null, and no member may have another type than its own.
    pub open spec fn decode(json: JsonModel) -> Option<DeploymentModel> {
        if json is Object
            && aliased_text(json, "uid"@, "id"@) is Some
            && required_text(json, "name"@) is Some
            && required_text(json, "url"@) is Some
            && defaulted_text(json, "readyState"@) is Some
            && optional_text(json, "state"@) is Some
            && optional_int(json, "created"@) is Some
            && optional_int(json, "buildingAt"@) is Some
            && optional_int(json, "ready"@) is Some
            && optional_text(json, "projectId"@) is Some
            && optional_creator(json, "creator"@) is Some
            && optional_text(json, "target"@) is Some
            && optional_text(json, "source"@) is Some {
            Some(
                DeploymentModel {
                    uid: aliased_text(json, "uid"@, "id"@).unwrap(),
                    name: required_text(json, "name"@).unwrap(),
                    url: required_text(json, "url"@).unwrap(),
                    ready_state: defaulted_text(json, "readyState"@).unwrap(),
                    state: optional_text(json, "state"@).unwrap(),
                    created: optional_int(json, "created"@).unwrap(),
                    building_at: optional_int(json, "buildingAt"@).unwrap(),
                    ready: optional_int(json, "ready"@).unwrap(),
                    project_id: optional_text(json, "projectId"@).unwrap(),
                    creator: optional_creator(json, "creator"@).unwrap(),
                    meta: optional_value(json, "meta"@),
                    target: optional_text(json, "target"@).unwrap(),
                    source: optional_text(json, "source"@).unwrap(),
                },
            )
        } else {
            None
        }
    }

    /// Writes the deployment as an object with all its members, null for those
    /// that are not set.
    pub open spec fn encode(self) -> JsonModel {
        JsonModel::Object(
            seq![
                ("uid"@, JsonModel::Str(self.uid)),
                ("name"@, JsonModel::Str(self.name)),
                ("url"@, JsonModel::Str(self.url)),
                ("readyState"@, JsonModel::Str(self.ready_state)),
                ("state"@, text_or_null(self.state)),
                ("created"@, int_or_null(self.created)),
                ("buildingAt"@, int_or_null(self.building_at)),
                ("ready"@, int_or_null(self.ready)),
                ("projectId"@, text_or_null(self.project_id)),
                ("creator"@, creator_or_null(self.creator)),
                ("meta"@, value_or_null(self.meta)),
                ("target"@, text_or_null(self.target)),
                ("source"@, text_or_null(self.source)),
            ],
        )
    }
}

impl Deployment {
    /// Reads a deployment from JSON: nothing where the JSON is refused.
    pub fn from_json(json: &Json) -> (decoded: Option<Deployment>)
        ensures
            match decoded {
                Some(deployment) => DeploymentModel::decode(json@) == Some(deployment@),
                None => DeploymentModel::decode(json@) is None,
            },
    {
        if !json.is_object() {
            return None;
        }
        let uid = match json.aliased_text("uid", "id") {
            Some(uid) => uid,
            None => return None,
        };
        let name = match json.required_text("name") {
            Some(name) => name,
            None => return None,
        };
        let url = match json.required_text("url") {
            Some(url) => url,
            None => return None,
        };
        let ready_state = match json.defaulted_text("readyState") {
            Some(ready_state) => ready_state,
            None => return None,
        };
        let state = match json.optional_text("state") {
            Some(state) => state,
            None => return None,
        };
        let created = match json.optional_int("created") {
            Some(created) => created,
            None => return None,
        };
        let building_at = match json.optional_int("buildingAt") {
            Some(building_at) => building_at,
            None => return None,
        };
        let ready = match json.optional_int("ready") {
            Some(ready) => ready,
            None => return None,
        };
        let project_id = match json.optional_text("projectId") {
            Some(project_id) => project_id,
            None => return None,
        };
        let creator = match read_optional_creator(json, "creator") {
            Some(creator) => creator,
            None => return None,
        };
        let meta = json.optional_value("meta");
        let target = match json.optional_text("target") {
            Some(target) => target,
            None => return None,
        };
        let source = match json.optional_text("source") {
            Some(source) => source,
            None => return None,
        };
        Some(
            Deployment {
                uid,
                name,
                url,
                ready_state,
                state,
                created,
                building_at,
                ready,
                project_id,
                creator,
                meta,
                target,
                source,
            },
        )
    }

    /// Writes the value as a JSON object.
    pub fn to_json(&self) -> (json: Json)
        ensures
            json@ == self@.encode(),
    {
        let mut members: Vec<(String, Json)> = Vec::new();
        members.push(("uid".to_owned(), Json::Str(self.uid.clone())));
        members.push(("name".to_owned(), Json::Str(self.name.clone())));
        members.push(("url".to_owned(), Json::Str(self.url.clone())));
        members.push(("readyState".to_owned(), Json::Str(self.ready_state.clone())));
        members.push(("state".to_owned(), Json::text_or_null(&self.state)));
        members.push(("created".to_owned(), Json::int_or_null(&self.created)));
        members.push(("buildingAt".to_owned(), Json::int_or_null(&self.building_at)));
        members.push(("ready".to_owned(), Json::int_or_null(&self.ready)));
        members.push(("projectId".to_owned(), Json::text_or_null(&self.project_id)));
        members.push(("creator".to_owned(), write_creator(&self.creator)));
        members.push(("meta".to_owned(), Json::value_or_null(&self.meta)));
        members.push(("target".to_owned(), Json::text_or_null(&self.target)));
        members.push(("source".to_owned(), Json::text_or_null(&self.source)));
        proof {
            object_view(members);
            assert(members_view(members@) =~= self@.encode()->Object_0);
        }
        Json::Object(members)
    }
}

/// Every item of an array read as a deployment: nothing where one of them is
/// refused.
pub open spec fn decode_deployments(items: Seq<JsonModel>) -> Option<Seq<DeploymentModel>> {
    if forall|i: int| 0 <= i < items.len() ==> (#[trigger] DeploymentModel::decode(items[i])) is Some {
        Some(Seq::new(items.len(), |i: int| DeploymentModel::decode(items[i]).unwrap()))
    } else {
        None
    }
}

/// The deployments as an array, each written as an object.
pub open spec fn encode_deployments(list: Seq<DeploymentModel>) -> JsonModel {
    JsonModel::Array(Seq::new(list.len(), |i: int| list[i].encode()))
}

/// Reads every item of an array as a deployment.
pub fn read_deployments(items: &Vec<Json>) -> (decoded: Option<Vec<Deployment>>)
    ensures
        match decoded {
            Some(list) => decode_deployments(views(items@)) == Some(views(list@)),
            None => decode_deployments(views(items@)) is None,
        },
{
    let mut list: Vec<Deployment> = Vec::new();
    let mut i: usize = 0;
    while i < items.len()
        invariant
            0 <= i <= items.len(),
            list.len() == i,
            forall|k: int| 0 <= k < i ==> DeploymentModel::decode(#[trigger] items[k]@) == Some(list[k]@),
        decreases items.len() - i,
    {
        match Deployment::from_json(&items[i]) {
            Some(item) => list.push(item),
            None => {
                assert(DeploymentModel::decode(views(items@)[i as int]) is None);
                return None;
            },
        }
        i = i + 1;
    }
    proof {
        assert forall|k: int| 0 <= k < items.len() implies (#[trigger] DeploymentModel::decode(
            views(items@)[k],
        )) is Some by {
            assert(DeploymentModel::decode(items[k]@) == Some(list[k]@));
        }
        assert(decode_deployments(views(items@)).unwrap() =~= views(list@));
    }
    Some(list)
}

/// Writes the deployments as an array.
pub fn write_deployments(list: &Vec<Deployment>) -> (json: Json)
    ensures
        json@ == encode_deployments(views(list@)),
{
    let mut items: Vec<Json> = Vec::new();
    let mut i: usize = 0;
    while i < list.len()
        invariant
            0 <= i <= list.len(),
            items.len() == i,
            forall|k: int| 0 <= k < i ==> items[k]@ == list[k]@.encode(),
        decreases list.len() - i,
    {
        items.push(list[i].to_json());
        i = i + 1;
    }
    proof {
        array_view(items);
        assert(views(items@) =~= encode_deployments(views(list@))->Array_0);
    }
    Json::Array(items)
}

/// One line of a deployment's build or run log.
#[derive(Debug, Clone, PartialEq, Eq)]
pub struct DeploymentEvent {
    pub event_type: String,
    pub created: Option<i64>,
    pub text: Option<String>,
    pub payload: Option<Json>,
}

/// What an event holds.
pub struct DeploymentEventModel {
    pub event_type: Seq<char>,
    pub created: Option<int>,
    pub text: Option<Seq<char>>,
    pub payload: Option<JsonModel>,
}

impl View for DeploymentEvent {
    type V = DeploymentEventModel;

    open spec fn view(&self) -> DeploymentEventModel {
        DeploymentEventModel {
            event_type: self.event_type@,
            created: int_view(self.created),
            text: text_view(self.text),
            payload: json_view(self.payload),
        }
    }
}

impl DeploymentEventModel {
    /// Reads an event from an object: `type` must be there, the rest may be
    /// missing or null, and no member may have another type than its own.
    pub open spec fn decode(json: JsonModel) -> Option<DeploymentEventModel> {
        if json is Object
            && required_text(json, "type"@) is Some
            && optional_int(json, "created"@) is Some
            && optional_text(json, "text"@) is Some {
            Some(
                DeploymentEventModel {
                    event_type: required_text(json, "type"@).unwrap(),
                    created: optional_int(json, "created"@).unwrap(),
                    text: optional_text(json, "text"@).unwrap(),
                    payload: optional_value(json, "payload"@),
                },
            )
        } else {
            None
        }
    }

    /// Writes the event as an object with all its members, null for those
    /// that are not set.
    pub open spec fn encode(self) -> JsonModel {
        JsonModel::Object(
            seq![
                ("type"@, JsonModel::Str(self.event_type)),
                ("created"@, int_or_null(self.created)),
                ("text"@, text_or_null(self.text)),
                ("payload"@, value_or_null(self.payload)),
            ],
        )
    }
}

impl DeploymentEvent {
    /// Reads an event from JSON: nothing where the JSON is refused.
    pub fn from_json(json: &Json) -> (decoded: Option<DeploymentEvent>)
        ensures
            match decoded {
                Some(event) => DeploymentEventModel::decode(json@) == Some(event@),
                None => DeploymentEventModel::decode(json@) is None,
            },
    {
        if !json.is_object() {
            return None;
        }
        let event_type = match json.required_text("type") {
            Some(event_type) => event_type,
            None => return None,
        };
        let created = match json.optional_int("created") {
            Some(created) => created,
            None => return None,
        };
        let text = match json.optional_text("text") {
            Some(text) => text,
            None => return None,
        };
        let payload = json.optional_value("payload");
        Some(DeploymentEvent { event_type, created, text, payload })
    }

    /// Writes the value as a JSON object.
    pub fn to_json(&self) -> (json: Json)
        ensures
            json@ == self@.encode(),
    {
        let mut members: Vec<(String, Json)> = Vec::new();
        members.push(("type".to_owned(), Json::Str(self.event_type.clone())));
        members.push(("created".to_owned(), Json::int_or_null(&self.created)));
        members.push(("text".to_owned(), Json::text_or_null(&self.text)));
        members.push(("payload".to_owned(), Json::value_or_null(&self.payload)));
        proof {
            object_view(members);
            assert(members_view(members@) =~= self@.encode()->Object_0);
        }
        Json::Object(members)
    }
}

/// Every item of an array read as an event: nothing where one of them is
/// refused.
pub open spec fn decode_events(items: Seq<JsonModel>) -> Option<Seq<DeploymentEventModel>> {
    if forall|i: int| 0 <= i < items.len() ==> (#[trigger] DeploymentEventModel::decode(items[i])) is Some {
        Some(Seq::new(items.len(), |i: int| DeploymentEventModel::decode(items[i]).unwrap()))
    } else {
        None
    }
}

/// The events as an array, each written as an object.
pub open spec fn encode_events(list: Seq<DeploymentEventModel>) -> JsonModel {
    JsonModel::Array(Seq::new(list.len(), |i: int| list[i].encode()))
}

/// Reads every item of an array as an event.
pub fn read_events(items: &Vec<Json>) -> (decoded: Option<Vec<DeploymentEvent>>)
    ensures
        match decoded {
            Some(list) => decode_events(views(items@)) == Some(views(list@)),
            None => decode_events(views(items@)) is None,
        },
{
    let mut list: Vec<DeploymentEvent> = Vec::new();
    let mut i: usize = 0;
    while i < items.len()
        invariant
            0 <= i <= items.len(),
            list.len() == i,
            forall|k: int| 0 <= k < i ==> DeploymentEventModel::decode(#[trigger] items[k]@) == Some(list[k]@),
        decreases items.len() - i,
    {
        match DeploymentEvent::from_json(&items[i]) {
            Some(item) => list.push(item),
            None => {
                assert(DeploymentEventModel::decode(views(items@)[i as int]) is None);
                return None;
            },
        }
        i = i + 1;
    }
    proof {
        assert forall|k: int| 0 <= k < items.len() implies (#[trigger] DeploymentEventModel::decode(
            views(items@)[k],
        )) is Some by {
            assert(DeploymentEventModel::decode(items[k]@) == Some(list[k]@));
        }
        assert(decode_events(views(items@)).unwrap() =~= views(list@));
    }
    Some(list)
}

/// Writes the events as an array.
pub fn write_events(list: &Vec<DeploymentEvent>) -> (json: Json)
    ensures
        json@ == encode_events(views(list@)),
{
    let mut items: Vec<Json> = Vec::new();
    let mut i: usize = 0;
    while i < list.len()
        invariant
            0 <= i <= list.len(),
            items.len() == i,
            forall|k: int| 0 <= k < i ==> items[k]@ == list[k]@.encode(),
        decreases list.len() - i,
    {
        items.push(list[i].to_json());
        i = i + 1;
    }
    proof {
        array_view(items);
        assert(views(items@) =~= encode_events(views(list@))->Array_0);
    }
    Json::Array(items)
}

/// The account that the credential belongs to.
#[derive(Debug, Clone, PartialEq, Eq)]
pub struct User {
    pub id: String,
    pub email: Option<String>,
    pub name: Option<String>,
    pub username: Option<String>,
}

/// What a user holds.
pub struct UserModel {
    pub id: Seq<char>,
    pub email: Option<Seq<char>>,
    pub name: Option<Seq<char>>,
    pub username: Option<Seq<char>>,
}

impl View for User {
    type V = UserModel;

    open spec fn view(&self) -> UserModel {
        UserModel {
            id: self.id@,
            email: text_view(self.email),
            name: text_view(self.name),
            username: text_view(self.username),
        }
    }
}

impl UserModel {
    /// Reads a user from an object: `id` must be there, the rest may be missing
    /// or null, and no member may have another type than its own.
    pub open spec fn decode(json: JsonModel) -> Option<UserModel> {
        if json is Object
            && required_text(json, "id"@) is Some
            && optional_text(json, "email"@) is Some
            && optional_text(json, "name"@) is Some
            && optional_text(json, "username"@) is Some {
            Some(
                UserModel {
                    id: required_text(json, "id"@).unwrap(),
                    email: optional_text(json, "email"@).unwrap(),
                    name: optional_text(json, "name"@).unwrap(),
                    username: optional_text(json, "username"@).unwrap(),
                },
            )
        } else {
            None
        }
    }

    /// Writes the user as an object with all its members, null for those
    /// that are not set.
    pub open spec fn encode(self) -> JsonModel {
        JsonModel::Object(
            seq![
                ("id"@, JsonModel::Str(self.id)),
                ("email"@, text_or_null(self.email)),
                ("name"@, text_or_null(self.name)),
                ("username"@, text_or_null(self.username)),
            ],
        )
    }
}

impl User {
    /// Reads a user from JSON: nothing where the JSON is refused.
    pub fn from_json(json: &Json) -> (decoded: Option<User>)
        ensures
            match decoded {
                Some(user) => UserModel::decode(json@) == Some(user@),
                None => UserModel::decode(json@) is None,
            },
    {
        if !json.is_object() {
            return None;
        }
        let id = match json.required_text("id") {
            Some(id) => id,
            None => return None,
        };
        let email = match json.optional_text("email") {
            Some(email) => email,
            None => return None,
        };
        let name = match json.optional_text("name") {
            Some(name) => name,
            None => return None,
        };
        let username = match json.optional_text("username") {
            Some(username) => username,
            None => return None,
        };
        Some(User { id, email, name, username })
    }

    /// Writes the value as a JSON object.
    pub fn to_json(&self) -> (json: Json)
        ensures
            json@ == self@.encode(),
    {
        let mut members: Vec<(String, Json)> = Vec::new();
        members.push(("id".to_owned(), Json::Str(self.id.clone())));
        members.push(("email".to_owned(), Json::text_or_null(&self.email)));
        members.push(("name".to_owned(), Json::text_or_null(&self.name)));
        members.push(("username".to_owned(), Json::text_or_null(&self.username)));
        proof {
            object_view(members);
            assert(members_view(members@) =~= self@.encode()->Object_0);
        }
        Json::Object(members)
    }
}

/// The view of an optional 32-bit number.
pub open spec fn small_int_view(number: Option<i32>) -> Option<int> {
    match number {
        Some(i) => Some(i as int),
        None => None,
    }
}

/// A member that may be missing or null, and is an integer that fits 32
/// bits otherwise.
pub open spec fn optional_small_int(object: JsonModel, key: Seq<char>) -> Option<Option<int>> {
    match optional_int(object, key) {
        Some(Some(i)) => if i32::MIN <= i <= i32::MAX {
            Some(Some(i))
        } else {
            None
        },
        other => other,
    }
}

fn read_optional_small_int(json: &Json, key: &str) -> (decoded: Option<Option<i32>>)
    ensures
        match decoded {
            Some(inner) => optional_small_int(json@, key@) == Some(small_int_view(inner)),
            None => optional_small_int(json@, key@) is None,
        },
{
    match json.optional_int(key) {
        Some(Some(i)) => if i32::MIN as i64 <= i && i <= i32::MAX as i64 {
            Some(Some(i as i32))
        } else {
            None
        },
        Some(None) => Some(None),
        None => None,
    }
}

fn write_small_int(number: &Option<i32>) -> (json: Json)
    ensures
        json@ == int_or_null(small_int_view(*number)),
{
    match number {
        Some(i) => Json::Int(*i as i64),
        None => Json::Null,
    }
}

/// Where a page of a listing stands.
#[derive(Debug, Clone, PartialEq, Eq)]
pub struct Pagination {
    pub count: Option<i32>,
    pub next: Option<i64>,
    pub prev: Option<i64>,
}

/// What the paging of a listing holds.
pub struct PaginationModel {
    pub count: Option<int>,
    pub next: Option<int>,
    pub prev: Option<int>,
}

impl View for Pagination {
    type V = PaginationModel;

    open spec fn view(&self) -> PaginationModel {
        PaginationModel {
            count: small_int_view(self.count),
            next: int_view(self.next),
            prev: int_view(self.prev),
        }
    }
}

impl PaginationModel {
    /// Reads the paging of a listing from an object: every member may be missing
    /// or null, `count` must fit 32 bits, and none may have another type than
    /// its own.
    pub open spec fn decode(json: JsonModel) -> Option<PaginationModel> {
        if json is Object
            && optional_small_int(json, "count"@) is Some
            && optional_int(json, "next"@) is Some
            && optional_int(json, "prev"@) is Some {
            Some(
                PaginationModel {
                    count: optional_small_int(json, "count"@).unwrap(),
                    next: optional_int(json, "next"@).unwrap(),
                    prev: optional_int(json, "prev"@).unwrap(),
                },
            )
        } else {
            None
        }
    }

    /// Writes the pagination as an object with all its members, null for those
    /// that are not set.
    pub open spec fn encode(self) -> JsonModel {
        JsonModel::Object(
            seq![
                ("count"@, int_or_null(self.count)),
                ("next"@, int_or_null(self.next)),
                ("prev"@, int_or_null(self.prev)),
            ],
        )
    }
}

impl Pagination {
    /// Reads the paging of a listing from JSON: nothing where the JSON is refused.
    pub fn from_json(json: &Json) -> (decoded: Option<Pagination>)
        ensures
            match decoded {
                Some(pagination) => PaginationModel::decode(json@) == Some(pagination@),
                None => PaginationModel::decode(json@) is None,
            },
    {
        if !json.is_object() {
            return None;
        }
        let count = match read_optional_small_int(json, "count") {
            Some(count) => count,
            None => return None,
        };
        let next = match json.optional_int("next") {
            Some(next) => next,
            None => return None,
        };
        let prev = match json.optional_int("prev") {
            Some(prev) => prev,
            None => return None,
        };
        Some(Pagination { count, next, prev })
    }

    /// Writes the value as a JSON object.
    pub fn to_json(&self) -> (json: Json)
        ensures
            json@ == self@.encode(),
    {
        let mut members: Vec<(String, Json)> = Vec::new();
        members.push(("count".to_owned(), write_small_int(&self.count)));
        members.push(("next".to_owned(), Json::int_or_null(&self.next)));
        members.push(("prev".to_owned(), Json::int_or_null(&self.prev)));
        proof {
            object_view(members);
            assert(members_view(members@) =~= self@.encode()->Object_0);
        }
        Json::Object(members)
    }
}

/// One page of a listing.
#[derive(Debug)]
pub struct PaginatedResponse<T> {
    pub items: Vec<T>,
    pub pagination: Option<Pagination>,
}

/// What a page holds.
pub struct PaginatedResponseModel<M> {
    pub items: Seq<M>,
    pub pagination: Option<PaginationModel>,
}

impl<T: View> View for PaginatedResponse<T> {
    type V = PaginatedResponseModel<T::V>;

    open spec fn view(&self) -> PaginatedResponseModel<T::V> {
        PaginatedResponseModel {
            items: views(self.items@),
            pagination: match self.pagination {
                Some(p) => Some(p@),
                None => None,
            },
        }
    }
}

/// A deployment's identity is the same whether the payload names it `uid`
/// or `id`: both payloads are read with that identity, and both are written
/// back with it under `uid`.
pub proof fn identity_alias_agrees(with_uid: JsonModel, with_id: JsonModel, identity: Seq<char>)
    requires
        with_uid.get("uid"@) == Some(JsonModel::Str(identity)),
        with_id.get("uid"@) is None,
        with_id.get("id"@) == Some(JsonModel::Str(identity)),
    ensures
        DeploymentModel::decode(with_uid) matches Some(first) ==> first.uid == identity && first.encode().get("uid"@)
            == Some(JsonModel::Str(identity)),
        DeploymentModel::decode(with_id) matches Some(second) ==> second.uid == identity
            && second.encode().get("uid"@) == Some(JsonModel::Str(identity)),
{
}

/// Two payloads that differ only in the name under which they give the
/// identity are read as the same deployment.
pub proof fn identity_alias_changes_nothing_else(with_uid: JsonModel, with_id: JsonModel, identity: Seq<char>)
    requires
        with_uid is Object,
        with_id is Object,
        with_uid.get("uid"@) == Some(JsonModel::Str(identity)),
        with_id.get("uid"@) is None,
        with_id.get("id"@) == Some(JsonModel::Str(identity)),
        forall|key: Seq<char>| key != "uid"@ && key != "id"@ ==> #[trigger] with_uid.get(key) == with_id.get(key),
    ensures
        DeploymentModel::decode(with_uid) == DeploymentModel::decode(with_id),
{
    deployment_names_differ();
    assert(with_uid.get("name"@) == with_id.get("name"@));
    assert(with_uid.get("url"@) == with_id.get("url"@));
    assert(with_uid.get("readyState"@) == with_id.get("readyState"@));
    assert(with_uid.get("state"@) == with_id.get("state"@));
    assert(with_uid.get("created"@) == with_id.get("created"@));
    assert(with_uid.get("buildingAt"@) == with_id.get("buildingAt"@));
    assert(with_uid.get("ready"@) == with_id.get("ready"@));
    assert(with_uid.get("projectId"@) == with_id.get("projectId"@));
    assert(with_uid.get("creator"@) == with_id.get("creator"@));
    assert(with_uid.get("meta"@) == with_id.get("meta"@));
    assert(with_uid.get("target"@) == with_id.get("target"@));
    assert(with_uid.get("source"@) == with_id.get("source"@));
}

/// Writing a creator and reading it back gives the same creator.
pub proof fn creator_round_trip(creator: CreatorModel)
    ensures
        CreatorModel::decode(creator.encode()) == Some(creator),
{
    reveal_strlit("uid");
    reveal_strlit("email");
    reveal_strlit("username");
    assert("uid"@.len() == 3 && "email"@.len() == 5 && "username"@.len() == 8);
    reveal_with_fuel(member_from, 4);
}

/// Writing a summary and reading it back gives the same summary.
pub proof fn summary_round_trip(summary: DeploymentSummaryModel)
    ensures
        DeploymentSummaryModel::decode(summary.encode()) == Some(summary),
{
    reveal_strlit("id");
    reveal_strlit("url");
    reveal_strlit("readyState");
    reveal_strlit("createdAt");
    assert("id"@.len() == 2 && "url"@.len() == 3 && "readyState"@.len() == 10 && "createdAt"@.len() == 9);
    reveal_with_fuel(member_from, 5);
}

/// Writing a user and reading it back gives the same user.
pub proof fn user_round_trip(user: UserModel)
    ensures
        UserModel::decode(user.encode()) == Some(user),
{
    reveal_strlit("id");
    reveal_strlit("email");
    reveal_strlit("name");
    reveal_strlit("username");
    assert("id"@.len() == 2 && "email"@.len() == 5 && "name"@.len() == 4 && "username"@.len() == 8);
    reveal_with_fuel(member_from, 5);
}

/// Writing an event and reading it back gives the same event, provided
/// that its payload, where it has one, is not null.
pub proof fn event_round_trip(event: DeploymentEventModel)
    requires
        event.payload != Some(JsonModel::Null),
    ensures
        DeploymentEventModel::decode(event.encode()) == Some(event),
{
    reveal_strlit("type");
    reveal_strlit("created");
    reveal_strlit("text");
    reveal_strlit("payload");
    assert("type"@.len() == 4 && "created"@.len() == 7 && "text"@.len() == 4 && "payload"@.len() == 7);
    assert("type"@[1] == 'y' && "text"@[1] == 'e');
    assert("created"@[0] == 'c' && "payload"@[0] == 'p');
    reveal_with_fuel(member_from, 5);
}

/// Writing the paging of a listing and reading it back gives the same
/// paging, provided that its count fits 32 bits.
pub proof fn pagination_round_trip(pagination: PaginationModel)
    requires
        pagination.count matches Some(count) ==> i32::MIN <= count <= i32::MAX,
    ensures
        PaginationModel::decode(pagination.encode()) == Some(pagination),
{
    reveal_strlit("count");
    reveal_strlit("next");
    reveal_strlit("prev");
    assert("count"@.len() == 5 && "next"@.len() == 4 && "prev"@.len() == 4);
    assert("next"@[0] == 'n' && "prev"@[0] == 'p');
    reveal_with_fuel(member_from, 4);
}

/// Writing summaries as an array and reading the array back gives the same
/// summaries.
pub proof fn summaries_round_trip(list: Seq<DeploymentSummaryModel>)
    ensures
        decode_summaries(encode_summaries(list)->Array_0) == Some(list),
{
    let items = encode_summaries(list)->Array_0;
    assert forall|i: int| 0 <= i < items.len() implies (#[trigger] DeploymentSummaryModel::decode(items[i]))
        == Some(list[i]) by {
        summary_round_trip(list[i]);
    }
    assert(decode_summaries(items).unwrap() =~= list);
}

/// Writing a project and reading it back gives the same project.
pub proof fn project_round_trip(project: ProjectModel)
    ensures
        ProjectModel::decode(project.encode()) == Some(project),
{
    reveal_strlit("id");
    reveal_strlit("name");
    reveal_strlit("accountId");
    reveal_strlit("framework");
    reveal_strlit("createdAt");
    reveal_strlit("updatedAt");
    reveal_strlit("nodeVersion");
    reveal_strlit("latestDeployments");
    assert("id"@.len() == 2 && "name"@.len() == 4 && "accountId"@.len() == 9 && "framework"@.len() == 9);
    assert("createdAt"@.len() == 9 && "updatedAt"@.len() == 9 && "nodeVersion"@.len() == 11);
    assert("latestDeployments"@.len() == 17);
    assert("accountId"@[0] == 'a' && "framework"@[0] == 'f' && "createdAt"@[0] == 'c' && "updatedAt"@[0] == 'u');
    reveal_with_fuel(member_from, 9);
    match project.latest_deployments {
        Some(list) => {
            summaries_round_trip(list);
        },
        None => {},
    }
    let json = project.encode();
    assert(json.get("latestDeployments"@) == Some(summaries_or_null(project.latest_deployments)));
}

/// Writing a deployment and reading it back gives the same deployment,
/// provided that its free-form `meta`, where it has one, is not null.
pub proof fn deployment_round_trip(deployment: DeploymentModel)
    requires
        deployment.meta != Some(JsonModel::Null),
    ensures
        DeploymentModel::decode(deployment.encode()) == Some(deployment),
{
    deployment_names_differ();
    reveal_with_fuel(member_from, 14);
    let json = deployment.encode();
    match deployment.creator {
        Some(creator) => {
            creator_round_trip(creator);
        },
        None => {},
    }
    assert(json.get("uid"@) == Some(JsonModel::Str(deployment.uid)));
    assert(json.get("name"@) == Some(JsonModel::Str(deployment.name)));
    assert(json.get("url"@) == Some(JsonModel::Str(deployment.url)));
    assert(json.get("readyState"@) == Some(JsonModel::Str(deployment.ready_state)));
    assert(json.get("state"@) == Some(text_or_null(deployment.state)));
    assert(json.get("created"@) == Some(int_or_null(deployment.created)));
    assert(json.get("buildingAt"@) == Some(int_or_null(deployment.building_at)));
    assert(json.get("ready"@) == Some(int_or_null(deployment.ready)));
    assert(json.get("projectId"@) == Some(text_or_null(deployment.project_id)));
    assert(json.get("creator"@) == Some(creator_or_null(deployment.creator)));
    assert(json.get("meta"@) == Some(value_or_null(deployment.meta)));
    assert(json.get("target"@) == Some(text_or_null(deployment.target)));
    assert(json.get("source"@) == Some(text_or_null(deployment.source)));
}

/// What is known of the names of a deployment's members: their lengths,
/// and the characters that tell those of one length apart.
proof fn deployment_names_differ()
    ensures
        "uid"@.len() == 3 && "uid"@[1] == 'i',
        "id"@.len() == 2,
        "name"@.len() == 4 && "name"@[0] == 'n',
        "url"@.len() == 3 && "url"@[1] == 'r',
        "readyState"@.len() == 10 && "readyState"@[0] == 'r',
        "state"@.len() == 5 && "state"@[0] == 's',
        "created"@.len() == 7 && "created"@[6] == 'd',
        "buildingAt"@.len() == 10 && "buildingAt"@[0] == 'b',
        "ready"@.len() == 5 && "ready"@[0] == 'r',
        "projectId"@.len() == 9,
        "creator"@.len() == 7 && "creator"@[6] == 'r',
        "meta"@.len() == 4 && "meta"@[0] == 'm',
        "target"@.len() == 6 && "target"@[0] == 't',
        "source"@.len() == 6 && "source"@[0] == 's',
{
    reveal_strlit("uid");
    reveal_strlit("id");
    reveal_strlit("name");
    reveal_strlit("url");
    reveal_strlit("readyState");
    reveal_strlit("state");
    reveal_strlit("created");
    reveal_strlit("buildingAt");
    reveal_strlit("ready");
    reveal_strlit("projectId");
    reveal_strlit("creator");
    reveal_strlit("meta");
    reveal_strlit("target");
    reveal_strlit("source");
}

} // verus!
