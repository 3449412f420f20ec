//! The REST resources and the paths that address them, and the plan of a listing request.
use vstd::prelude::*;
use crate::errors::{environment_not_found, environment_not_found_text, TEAM_REQUIRED};
use crate::client::{HoneycombClient, HttpMethod};
use crate::keys::{opt_str_view, opt_view};

verus! {

/// The resources the client manages.
#[derive(Clone, Copy, Debug, PartialEq, Eq, Structural)]
pub enum Resource {
    Datasets,
    Columns,
    Triggers,
    Boards,
    Markers,
    Recipients,
    Slos,
    BurnAlerts,
    CalculatedFields,
    DatasetDefinitions,
    MarkerSettings,
    Queries,
    QueryResults,
    QueryAnnotations,
    Environments,
}

impl Resource {
    /// The path prefix of the resource's collection.
    pub open spec fn prefix_spec(&self) -> Seq<char> {
        match self {
            Resource::Datasets => "/1/datasets"@,
            Resource::Columns => "/1/columns"@,
            Resource::Triggers => "/1/triggers"@,
            Resource::Boards => "/1/boards"@,
            Resource::Markers => "/1/markers"@,
            Resource::Recipients => "/1/recipients"@,
            Resource::Slos => "/1/slos"@,
            Resource::BurnAlerts => "/1/burn_alerts"@,
            Resource::CalculatedFields => "/1/derived_columns"@,
            Resource::DatasetDefinitions => "/1/dataset_definitions"@,
            Resource::MarkerSettings => "/1/marker_settings"@,
            Resource::Queries => "/1/queries"@,
            Resource::QueryResults => "/1/query_results"@,
            Resource::QueryAnnotations => "/1/query_annotations"@,
            Resource::Environments => "/2/teams"@,
        }
    }

    /// Resources that live directly under their prefix rather than inside a dataset or team.
    pub open spec fn is_global(&self) -> bool {
        matches!(self, Resource::Datasets | Resource::Boards | Resource::Recipients)
    }

    /// The path prefix of the resource's collection.
    pub fn prefix(&self) -> (r: &'static str)
        ensures
            r@ == self.prefix_spec(),
    {
        match self {
            Resource::Datasets => "/1/datasets",
            Resource::Columns => "/1/columns",
            Resource::Triggers => "/1/triggers",
            Resource::Boards => "/1/boards",
            Resource::Markers => "/1/markers",
            Resource::Recipients => "/1/recipients",
            Resource::Slos => "/1/slos",
            Resource::BurnAlerts => "/1/burn_alerts",
            Resource::CalculatedFields => "/1/derived_columns",
            Resource::DatasetDefinitions => "/1/dataset_definitions",
            Resource::MarkerSettings => "/1/marker_settings",
            Resource::Queries => "/1/queries",
            Resource::QueryResults => "/1/query_results",
            Resource::QueryAnnotations => "/1/query_annotations",
            Resource::Environments => "/2/teams",
        }
    }
}

/// The path of a resource's collection. `scope` is the dataset for
/// dataset-scoped resources and the team for environments; global resources
/// ignore it.
pub open spec fn collection_path_spec(r: Resource, scope: Seq<char>) -> Seq<char> {
    if r == Resource::Environments {
        "/2/teams"@ + "/"@ + scope + "/environments"@
    } else if r.is_global() {
        r.prefix_spec()
    } else {
        r.prefix_spec() + "/"@ + scope
    }
}

/// The path of one item of a resource's collection.
pub open spec fn item_path_spec(r: Resource, scope: Seq<char>, id: Seq<char>) -> Seq<char> {
    collection_path_spec(r, scope) + "/"@ + id
}

/// The path of a resource's collection.
pub fn collection_path(r: Resource, scope: &str) -> (p: String)
    ensures
        p@ == collection_path_spec(r, scope@),
{
    let mut p = String::from_str(r.prefix());
    if r == Resource::Environments {
        p.append("/");
        p.append(scope);
        p.append("/environments");
    } else if r == Resource::Datasets || r == Resource::Boards || r == Resource::Recipients {
    } else {
        p.append("/");
        p.append(scope);
    }
    p
}

/// The path of one item of a resource's collection.
pub fn item_path(r: Resource, scope: &str, id: &str) -> (p: String)
    ensures
        p@ == item_path_spec(r, scope@, id@),
{
    let mut p = collection_path(r, scope);
    p.append("/");
    p.append(id);
    p
}

/// A lookup of an environment in a team, made before a listing that names it.
#[derive(Clone, Debug)]
pub struct EnvironmentCheck {
    pub team: String,
    pub environment: String,
}

/// What a listing command requests: the path, the environment to check first,
/// and the `environment` query parameter.
#[derive(Clone, Debug)]
pub struct ListPlan {
    pub path: String,
    pub check: Option<EnvironmentCheck>,
    pub environment_param: Option<String>,
}

impl ListPlan {
    /// The plan lists `path`; with an environment, it checks that environment in
    /// `team` and passes it as the query parameter; without one, it does neither.
    pub open spec fn describes(&self, path: Seq<char>, environment: Option<Seq<char>>, team: Seq<char>) -> bool {
        &&& self.path@ == path
        &&& opt_view(self.environment_param) == environment
        &&& match environment {
            Some(e) => (self.check matches Some(c) && c.team@ == team && c.environment@ == e),
            None => self.check is None,
        }
    }
}

/// Plans a listing of a resource's collection, optionally restricted to an environment.
pub fn plan_listing(r: Resource, scope: &str, environment: Option<&str>, team: &str) -> (p: ListPlan)
    ensures
        p.describes(collection_path_spec(r, scope@), opt_str_view(environment), team@),
{
    let path = collection_path(r, scope);
    match environment {
        Some(e) => ListPlan {
            path,
            check: Some(EnvironmentCheck { team: String::from_str(team), environment: String::from_str(e) }),
            environment_param: Some(String::from_str(e)),
        },
        None => ListPlan { path, check: None, environment_param: None },
    }
}

pub const BOARD_ENVIRONMENT_REQUIRED: &'static str =
    "Environment is required. Set HONEYCOMB_ENVIRONMENT environment variable or use --environment flag.";

/// Plans the board listing, which always names an environment.
pub fn plan_board_listing(environment: Option<&str>, team: &str) -> (r: Result<ListPlan, String>)
    ensures
        match environment {
            Some(e) => (r matches Ok(p) && p.describes("/1/boards"@, Some(e@), team@)),
            None => (r matches Err(m) && m@ == BOARD_ENVIRONMENT_REQUIRED@),
        },
{
    match environment {
        Some(_) => {
            let p = plan_listing(Resource::Boards, "", environment, team);
            Ok(p)
        },
        None => Err(String::from_str(BOARD_ENVIRONMENT_REQUIRED)),
    }
}

/// The team a dataset-scoped listing checks environments in: the configured
/// team, or `default`.
pub fn team_or_default(team: Option<&str>) -> (r: String)
    ensures
        r@ == match team {
            Some(t) => t@,
            None => "default"@,
        },
{
    match team {
        Some(t) => String::from_str(t),
        None => String::from_str("default"),
    }
}

/// The team a team-scoped command works in: its own `--team`, else the global
/// one; without either, the command fails.
pub fn effective_team(team: Option<&str>, global_team: Option<&str>) -> (r: Result<String, String>)
    ensures
        match team {
            Some(t) => (r matches Ok(s) && s@ == t@),
            None => match global_team {
                Some(g) => (r matches Ok(s) && s@ == g@),
                None => (r matches Err(m) && m@ == TEAM_REQUIRED@),
            },
        },
{
    match team {
        Some(t) => Ok(String::from_str(t)),
        None => match global_team {
            Some(g) => Ok(String::from_str(g)),
            None => Err(String::from_str(TEAM_REQUIRED)),
        },
    }
}

/// What one environment of a team's listing offers for matching: its slug and
/// its name, where they are strings.
#[derive(Clone, Debug)]
pub struct EnvironmentEntry {
    pub slug: Option<String>,
    pub name: Option<String>,
}

/// An entry matches an environment given by slug or by name.
pub open spec fn entry_matches(e: EnvironmentEntry, environment: Seq<char>) -> bool {
    opt_view(e.slug) == Some(environment) || opt_view(e.name) == Some(environment)
}

/// Whether some listed environment has the given slug or name.
pub open spec fn environment_listed_spec(entries: Seq<EnvironmentEntry>, environment: Seq<char>) -> bool {
    exists|i: int| 0 <= i < entries.len() && entry_matches(#[trigger] entries[i], environment)
}

/// Equality of an optional text with a text.
fn opt_text_is(o: &Option<String>, t: &str) -> (r: bool)
    ensures
        r == (opt_view(*o) == Some(t@)),
{
    match o {
        Some(s) => {
            let a = String::from_str(s.as_str());
            let b = String::from_str(t);
            a == b
        },
        None => false,
    }
}

/// Whether some listed environment has the given slug or name.
pub fn environment_listed(entries: &Vec<EnvironmentEntry>, environment: &str) -> (r: bool)
    ensures
        r == environment_listed_spec(entries@, environment@),
{
    let mut i: usize = 0;
    while i < entries.len()
        invariant
            i <= entries@.len(),
            forall|j: int| 0 <= j < i ==> !entry_matches(#[trigger] entries@[j], environment@),
        decreases entries@.len() - i,
    {
        if opt_text_is(&entries[i].slug, environment) || opt_text_is(&entries[i].name, environment) {
            assert(entry_matches(entries@[i as int], environment@));
            return true;
        }
        i = i + 1;
    }
    false
}

/// Decides an environment check. Without a management key the team's
/// environments cannot be listed, and the check passes so that v1 calls can go
/// ahead; otherwise the environment must be among `listing`, the team's
/// environments (absent when the lookup was not made).
pub fn validate_environment(
    client: &HoneycombClient,
    listing: &Option<Vec<EnvironmentEntry>>,
    environment: &str,
) -> (r: bool)
    ensures
        r == (client@.management_key is None || (listing matches Some(l) && environment_listed_spec(
            l@,
            environment@,
        ))),
{
    if !client.has_management_key() {
        return true;
    }
    match listing {
        Some(l) => environment_listed(l, environment),
        None => false,
    }
}

/// Fails with the standard message when the environment was not found in the team.
pub fn require_valid_environment(valid: bool, team: &str, environment: &str) -> (r: Result<(), String>)
    ensures
        valid ==> r is Ok,
        !valid ==> (r matches Err(m) && m@ == environment_not_found_text(environment@, team@)),
{
    if valid {
        Ok(())
    } else {
        Err(environment_not_found(environment, team))
    }
}

impl Resource {
    /// What one item of the resource is called in messages.
    pub open spec fn noun_spec(&self) -> Seq<char> {
        match self {
            Resource::Datasets => "Dataset"@,
            Resource::Columns => "Column"@,
            Resource::Triggers => "Trigger"@,
            Resource::Boards => "Board"@,
            Resource::Markers => "Marker"@,
            Resource::Recipients => "Recipient"@,
            Resource::Slos => "SLO"@,
            Resource::BurnAlerts => "Burn Alert"@,
            Resource::CalculatedFields => "Calculated field"@,
            Resource::DatasetDefinitions => "Dataset definition"@,
            Resource::MarkerSettings => "Marker setting"@,
            Resource::Queries => "Query"@,
            Resource::QueryResults => "Query result"@,
            Resource::QueryAnnotations => "Query annotation"@,
            Resource::Environments => "Environment"@,
        }
    }

    /// What one item of the resource is called in messages.
    pub fn noun(&self) -> (r: &'static str)
        ensures
            r@ == self.noun_spec(),
    {
        match self {
            Resource::Datasets => "Dataset",
            Resource::Columns => "Column",
            Resource::Triggers => "Trigger",
            Resource::Boards => "Board",
            Resource::Markers => "Marker",
            Resource::Recipients => "Recipient",
            Resource::Slos => "SLO",
            Resource::BurnAlerts => "Burn Alert",
            Resource::CalculatedFields => "Calculated field",
            Resource::DatasetDefinitions => "Dataset definition",
            Resource::MarkerSettings => "Marker setting",
            Resource::Queries => "Query",
            Resource::QueryResults => "Query result",
            Resource::QueryAnnotations => "Query annotation",
            Resource::Environments => "Environment",
        }
    }
}

/// The confirmation of a deletion: the item, and the team or dataset it was in
/// unless the resource is global.
pub open spec fn deletion_message_spec(r: Resource, scope: Seq<char>, id: Seq<char>) -> Seq<char> {
    if r.is_global() {
        r.noun_spec() + " '"@ + id + "' deleted successfully"@
    } else if r == Resource::Environments {
        r.noun_spec() + " '"@ + id + "' in team '"@ + scope + "' deleted successfully"@
    } else {
        r.noun_spec() + " '"@ + id + "' in dataset '"@ + scope + "' deleted successfully"@
    }
}

/// The confirmation of a deletion.
pub fn deletion_message(r: Resource, scope: &str, id: &str) -> (m: String)
    ensures
        m@ == deletion_message_spec(r, scope@, id@),
{
    let mut m = String::from_str(r.noun());
    m.append(" '");
    m.append(id);
    if r == Resource::Datasets || r == Resource::Boards || r == Resource::Recipients {
    } else if r == Resource::Environments {
        m.append("' in team '");
        m.append(scope);
    } else {
        m.append("' in dataset '");
        m.append(scope);
    }
    m.append("' deleted successfully");
    m
}

/// The verb that replaces an item: environments and dataset definitions are
/// patched, everything else is put whole.
pub open spec fn update_method_spec(r: Resource) -> HttpMethod {
    if r == Resource::Environments || r == Resource::DatasetDefinitions {
        HttpMethod::Patch
    } else {
        HttpMethod::Put
    }
}

impl Resource {
    /// The verb that replaces an item of the resource.
    pub fn update_method(&self) -> (m: HttpMethod)
        ensures
            m == update_method_spec(*self),
    {
        match self {
            Resource::Environments | Resource::DatasetDefinitions => HttpMethod::Patch,
            _ => HttpMethod::Put,
        }
    }
}

/// A single-item operation on a resource; `data` is the request body as given
/// (a JSON file's path or JSON text).
#[derive(Clone, Debug)]
pub enum Operation {
    Get { id: String },
    Create { data: String },
    Update { id: String, data: String },
    Delete { id: String },
}

/// What an operation sends, and what is printed when a deletion succeeds.
#[derive(Clone, Debug)]
pub struct RequestPlan {
    pub method: HttpMethod,
    pub path: String,
    pub data: Option<String>,
    pub confirmation: Option<String>,
}

impl RequestPlan {
    /// The plan's fields, as views.
    pub open spec fn is(
        &self,
        method: HttpMethod,
        path: Seq<char>,
        data: Option<Seq<char>>,
        confirmation: Option<Seq<char>>,
    ) -> bool {
        &&& self.method == method
        &&& self.path@ == path
        &&& opt_view(self.data) == data
        &&& opt_view(self.confirmation) == confirmation
    }
}

/// Plans an operation: reads get the item, creation posts to the collection,
/// updates replace the item with the resource's update verb, and deletions
/// remove the item and confirm it.
pub fn plan_operation(r: Resource, scope: &str, op: &Operation) -> (p: RequestPlan)
    ensures
        match op {
            Operation::Get { id } => p.is(HttpMethod::Get, item_path_spec(r, scope@, id@), None, None),
            Operation::Create { data } => p.is(
                HttpMethod::Post,
                collection_path_spec(r, scope@),
                Some(data@),
                None,
            ),
            Operation::Update { id, data } => p.is(
                update_method_spec(r),
                item_path_spec(r, scope@, id@),
                Some(data@),
                None,
            ),
            Operation::Delete { id } => p.is(
                HttpMethod::Delete,
                item_path_spec(r, scope@, id@),
                None,
                Some(deletion_message_spec(r, scope@, id@)),
            ),
        },
{
    match op {
        Operation::Get { id } => RequestPlan {
            method: HttpMethod::Get,
            path: item_path(r, scope, id.as_str()),
            data: None,
            confirmation: None,
        },
        Operation::Create { data } => RequestPlan {
            method: HttpMethod::Post,
            path: collection_path(r, scope),
            data: Some(String::from_str(data.as_str())),
            confirmation: None,
        },
        Operation::Update { id, data } => RequestPlan {
            method: r.update_method(),
            path: item_path(r, scope, id.as_str()),
            data: Some(String::from_str(data.as_str())),
            confirmation: None,
        },
        Operation::Delete { id } => RequestPlan {
            method: HttpMethod::Delete,
            path: item_path(r, scope, id.as_str()),
            data: None,
            confirmation: Some(deletion_message(r, scope, id.as_str())),
        },
    }
}

} // verus!
