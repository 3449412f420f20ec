//! The API client's decisions: which key authenticates a path, what a request
//! carries, and what a response means.
use vstd::prelude::*;
use crate::keys::{opt_str_view, opt_view};
use crate::text::{has_prefix, starts_with};

verus! {

/// serde_json::Value, a parsed JSON document: carried through unopened.
#[verifier::external_type_specification]
#[verifier::external_body]
pub struct ExJsonValue(serde_json::Value);

/// serde_json::Error, the failure of a parse or a rendering: carried through unopened.
#[verifier::external_type_specification]
#[verifier::external_body]
pub struct ExJsonError(serde_json::Error);

/// Whether serde_json accepts a text as one JSON document.
pub uninterp spec fn json_accepts(text: Seq<char>) -> bool;

/// The JSON value serde_json reads from a text it accepts.
pub uninterp spec fn parsed_json(text: Seq<char>) -> serde_json::Value;

/// What `http::StatusCode` displays for a status code: the code and its reason phrase.
pub uninterp spec fn status_display(code: u16) -> Seq<char>;

/// Relies on serde_json::from_str: parses a text into a JSON value, and fails
/// exactly on the texts it does not accept.
#[verifier::external_body]
fn parse_json(text: &str) -> (r: Result<serde_json::Value, serde_json::Error>)
    ensures
        r is Ok == json_accepts(text@),
        r is Ok ==> r->Ok_0 == parsed_json(text@),
{
    serde_json::from_str(text)
}

/// Relies on reqwest::StatusCode (http's `StatusCode`): its `Display`, which
/// writes the code and the canonical reason phrase.
#[verifier::external_body]
fn status_text(code: u16) -> (r: String)
    requires
        100 <= code <= 999,
    ensures
        r@ == status_display(code),
{
    match reqwest::StatusCode::from_u16(code) {
        Ok(status) => status.to_string(),
        Err(_) => String::new(),
    }
}

/// The API's default location.
pub const DEFAULT_BASE_URL: &'static str = "https://api.honeycomb.io";

/// Whether a path addresses the v2 (team-scoped) API, which takes the management key.
pub open spec fn is_v2_path(path: Seq<char>) -> bool {
    has_prefix(path, seq!['/', '2', '/'])
}

/// What the client knows: its two optional keys and its base URL.
pub struct ClientView {
    pub management_key: Option<Seq<char>>,
    pub config_key: Option<Seq<char>>,
    pub base_url: Seq<char>,
}

/// The API client's configuration: the keys it authenticates with and where it sends requests.
#[derive(Clone, Debug)]
pub struct HoneycombClient {
    management_key: Option<String>,
    config_key: Option<String>,
    base_url: String,
}

impl View for HoneycombClient {
    type V = ClientView;

    closed spec fn view(&self) -> ClientView {
        ClientView {
            management_key: opt_view(self.management_key),
            config_key: opt_view(self.config_key),
            base_url: self.base_url@,
        }
    }
}

/// The HTTP verbs the client uses.
#[derive(Clone, Copy, Debug, PartialEq, Eq, Structural)]
pub enum HttpMethod {
    Get,
    Post,
    Put,
    Patch,
    Delete,
}

/// One header: a name and its value.
#[derive(Clone, Debug)]
pub struct Header {
    pub name: &'static str,
    pub value: String,
}

/// A request ready to send: verb, full URL, headers, query pairs and JSON body.
#[derive(Debug)]
pub struct PreparedRequest {
    pub method: HttpMethod,
    pub url: String,
    pub headers: Vec<Header>,
    pub query: Vec<(String, String)>,
    pub body: Option<serde_json::Value>,
}

/// No two query pairs share a key, as in a map of parameters.
pub open spec fn distinct_keys(q: Seq<(String, String)>) -> bool {
    forall|i: int, j: int| 0 <= i < j < q.len() ==> (#[trigger] q[i]).0@ != (#[trigger] q[j]).0@
}

/// Whether no two query pairs share a key.
pub fn has_distinct_keys(q: &Vec<(String, String)>) -> (r: bool)
    ensures
        r == distinct_keys(q@),
{
    let mut i: usize = 0;
    while i < q.len()
        invariant
            i <= q@.len(),
            forall|a: int, b: int| 0 <= a < b < i ==> (#[trigger] q@[a]).0@ != (#[trigger] q@[b]).0@,
        decreases q@.len() - i,
    {
        let mut j: usize = 0;
        while j < i
            invariant
                j <= i,
                i < q@.len(),
                forall|a: int, b: int| 0 <= a < b < i ==> (#[trigger] q@[a]).0@ != (#[trigger] q@[b]).0@,
                forall|a: int| 0 <= a < j ==> (#[trigger] q@[a]).0@ != q@[i as int].0@,
            decreases i - j,
        {
            if q[j].0 == q[i].0 {
                assert(!distinct_keys(q@)) by {
                    assert(q@[j as int].0@ == q@[i as int].0@);
                }
                return false;
            }
            j = j + 1;
        }
        i = i + 1;
    }
    true
}

/// Why a request could not be made or did not succeed.
#[derive(Clone, Debug)]
pub enum ClientError {
    /// A v2 path was requested without a management key.
    MissingManagementKey { path: String },
    /// A v1 path was requested without a configuration key.
    MissingConfigKey { path: String },
    /// The request could not be sent.
    SendFailed { url: String },
    /// The server answered with a status outside 200..=299.
    RequestFailed { status: u16, status_text: String, body: String },
    /// A successful response whose body is not JSON.
    InvalidJson { body: String },
}

impl ClientError {
    /// The text shown for the error.
    pub open spec fn message_spec(&self) -> Seq<char> {
        match self {
            ClientError::MissingManagementKey { path } => "v2 endpoint '"@ + path@
                + "' requires a Management Key.\nSet HONEYCOMB_MANAGEMENT_API_KEY_ID and HONEYCOMB_MANAGEMENT_API_KEY environment variables."@,
            ClientError::MissingConfigKey { path } => "v1 endpoint '"@ + path@
                + "' requires a Configuration Key.\nSet HONEYCOMB_CONFIGURATION_API_KEY environment variable."@,
            ClientError::SendFailed { url } => "Failed to send request to "@ + url@,
            ClientError::RequestFailed { status, status_text, body } => "Request failed with status "@
                + status_text@ + ": "@ + body@,
            ClientError::InvalidJson { body } => "Failed to parse JSON response: "@ + body@,
        }
    }

    /// The text shown for the error.
    pub fn to_string(&self) -> (r: String)
        ensures
            r@ == self.message_spec(),
    {
        match self {
            ClientError::MissingManagementKey { path } => {
                let mut s = String::from_str("v2 endpoint '");
                s.append(path.as_str());
                s.append(
                    "' requires a Management Key.\nSet HONEYCOMB_MANAGEMENT_API_KEY_ID and HONEYCOMB_MANAGEMENT_API_KEY environment variables.",
                );
                s
            },
            ClientError::MissingConfigKey { path } => {
                let mut s = String::from_str("v1 endpoint '");
                s.append(path.as_str());
                s.append(
                    "' requires a Configuration Key.\nSet HONEYCOMB_CONFIGURATION_API_KEY environment variable.",
                );
                s
            },
            ClientError::SendFailed { url } => {
                let mut s = String::from_str("Failed to send request to ");
                s.append(url.as_str());
                s
            },
            ClientError::RequestFailed { status: _, status_text, body } => {
                let mut s = String::from_str("Request failed with status ");
                s.append(status_text.as_str());
                s.append(": ");
                s.append(body.as_str());
                s
            },
            ClientError::InvalidJson { body } => {
                let mut s = String::from_str("Failed to parse JSON response: ");
                s.append(body.as_str());
                s
            },
        }
    }
}

/// A successful response's body: nothing, or a JSON value.
#[derive(Debug)]
pub enum ResponseBody {
    Empty,
    Json(serde_json::Value),
}

/// Whether a status code means success.
pub open spec fn is_success(status: u16) -> bool {
    200 <= status <= 299
}

impl HoneycombClient {
    /// A client with the given keys, talking to `base_url` or, without one, to the default location.
    pub fn new(
        management_key: Option<String>,
        config_key: Option<String>,
        base_url: Option<String>,
    ) -> (r: Self)
        ensures
            r@.management_key == opt_view(management_key),
            r@.config_key == opt_view(config_key),
            r@.base_url == match base_url {
                Some(u) => u@,
                None => DEFAULT_BASE_URL@,
            },
    {
        let base_url = match base_url {
            Some(u) => u,
            None => String::from_str(DEFAULT_BASE_URL),
        };
        HoneycombClient { management_key, config_key, base_url }
    }

    /// Whether a path addresses the v2 API.
    pub fn is_v2_endpoint(&self, path: &str) -> (r: bool)
        ensures
            r == is_v2_path(path@),
    {
        proof {
            reveal_strlit("/2/");
        }
        assert("/2/"@ =~= seq!['/', '2', '/']);
        starts_with(path, "/2/")
    }

    /// The key that authenticates requests to a path, if the client has it.
    pub fn get_key_for_endpoint(&self, path: &str) -> (r: Option<&str>)
        ensures
            opt_str_view(r) == if is_v2_path(path@) {
                self@.management_key
            } else {
                self@.config_key
            },
    {
        if self.is_v2_endpoint(path) {
            match &self.management_key {
                Some(k) => Some(k.as_str()),
                None => None,
            }
        } else {
            match &self.config_key {
                Some(k) => Some(k.as_str()),
                None => None,
            }
        }
    }

    /// Whether the client has a management key.
    pub fn has_management_key(&self) -> (r: bool)
        ensures
            r == self@.management_key is Some,
    {
        self.management_key.is_some()
    }

    /// Whether the client has a configuration key.
    pub fn has_config_key(&self) -> (r: bool)
        ensures
            r == self@.config_key is Some,
    {
        self.config_key.is_some()
    }

    /// The authentication header for a path: a bearer management key for v2
    /// paths, the configuration key in `X-Honeycomb-Team` for the others.
    pub fn auth_header(&self, path: &str) -> (r: Result<Header, ClientError>)
        ensures
            is_v2_path(path@) ==> match self@.management_key {
                Some(k) => (r matches Ok(h) && h.name@ == "Authorization"@ && h.value@ == "Bearer "@ + k),
                None => (r matches Err(ClientError::MissingManagementKey { path: p }) && p@ == path@),
            },
            !is_v2_path(path@) ==> match self@.config_key {
                Some(k) => (r matches Ok(h) && h.name@ == "X-Honeycomb-Team"@ && h.value@ == k),
                None => (r matches Err(ClientError::MissingConfigKey { path: p }) && p@ == path@),
            },
    {
        if self.is_v2_endpoint(path) {
            match &self.management_key {
                Some(k) => {
                    let mut value = String::from_str("Bearer ");
                    value.append(k.as_str());
                    Ok(Header { name: "Authorization", value })
                },
                None => Err(ClientError::MissingManagementKey { path: String::from_str(path) }),
            }
        } else {
            match &self.config_key {
                Some(k) => Ok(Header { name: "X-Honeycomb-Team", value: String::from_str(k.as_str()) }),
                None => Err(ClientError::MissingConfigKey { path: String::from_str(path) }),
            }
        }
    }

    /// The full URL of a path.
    pub fn url_for(&self, path: &str) -> (r: String)
        ensures
            r@ == self@.base_url + path@,
    {
        let mut url = String::from_str(self.base_url.as_str());
        url.append(path);
        url
    }

    /// Prepares a request to a path: its URL, its authentication header, a JSON
    /// content type, and the given query pairs and body; fails when the key the
    /// path needs is missing.
    pub fn request(
        &self,
        method: HttpMethod,
        path: &str,
        query: Vec<(String, String)>,
        body: Option<serde_json::Value>,
    ) -> (r: Result<PreparedRequest, ClientError>)
        requires
            distinct_keys(query@),
        ensures
            match self.auth_header_spec(path@) {
                Some((name, value)) => (r matches Ok(req) && req.method == method && req.url@
                    == self@.base_url + path@ && req.headers@.len() == 2 && req.headers@[0].name@
                    == name && req.headers@[0].value@ == value && req.headers@[1].name@
                    == "Content-Type"@ && req.headers@[1].value@ == "application/json"@
                    && req.query == query && req.body == body),
                None => {
                    &&& is_v2_path(path@) ==> (r matches Err(ClientError::MissingManagementKey { path: p }) && p@ == path@)
                    &&& !is_v2_path(path@) ==> (r matches Err(ClientError::MissingConfigKey { path: p }) && p@ == path@)
                },
            },
    {
        let url = self.url_for(path);
        let auth = self.auth_header(path);
        match auth {
            Ok(h) => {
                let mut headers: Vec<Header> = Vec::new();
                headers.push(h);
                headers.push(
                    Header { name: "Content-Type", value: String::from_str("application/json") },
                );
                Ok(PreparedRequest { method, url, headers, query, body })
            },
            Err(e) => Err(e),
        }
    }

    /// The authentication header a path gets, as name and value, if the client has the key.
    pub open spec fn auth_header_spec(&self, path: Seq<char>) -> Option<(Seq<char>, Seq<char>)> {
        if is_v2_path(path) {
            match self@.management_key {
                Some(k) => Some(("Authorization"@, "Bearer "@ + k)),
                None => None,
            }
        } else {
            match self@.config_key {
                Some(k) => Some(("X-Honeycomb-Team"@, k)),
                None => None,
            }
        }
    }

    /// What a response means: a status outside 200..=299 is a failure carrying
    /// the body's text; an empty successful body is `Empty`; any other
    /// successful body must parse as JSON.
    pub fn handle_response(&self, status: u16, text: String) -> (r: Result<ResponseBody, ClientError>)
        requires
            100 <= status <= 999,
        ensures
            !is_success(status) ==> (r matches Err(
                ClientError::RequestFailed { status: s, status_text: t, body: b },
            ) && s == status && t@ == status_display(status) && b@ == text@),
            is_success(status) && text@.len() == 0 ==> r matches Ok(ResponseBody::Empty),
            is_success(status) && text@.len() > 0 ==> (r matches Ok(ResponseBody::Json(_))
                <==> json_accepts(text@)),
            r matches Ok(ResponseBody::Json(v)) ==> v == parsed_json(text@),
            is_success(status) && text@.len() > 0 && !json_accepts(text@) ==> (r matches Err(
                ClientError::InvalidJson { body: b },
            ) && b@ == text@),
    {
        if 200 <= status && status <= 299 {
            if text.as_str().is_empty() {
                Ok(ResponseBody::Empty)
            } else {
                match parse_json(text.as_str()) {
                    Ok(v) => Ok(ResponseBody::Json(v)),
                    Err(_) => Err(ClientError::InvalidJson { body: text }),
                }
            }
        } else {
            Err(ClientError::RequestFailed { status, status_text: status_text(status), body: text })
        }
    }

    /// What a response to a delete means: success, or a failure carrying the body's text.
    pub fn handle_delete_response(&self, status: u16, text: String) -> (r: Result<(), ClientError>)
        requires
            100 <= status <= 999,
        ensures
            is_success(status) ==> r is Ok,
            !is_success(status) ==> (r matches Err(
                ClientError::RequestFailed { status: s, status_text: t, body: b },
            ) && s == status && t@ == status_display(status) && b@ == text@),
    {
        if 200 <= status && status <= 299 {
            Ok(())
        } else {
            Err(ClientError::RequestFailed { status, status_text: status_text(status), body: text })
        }
    }
}

} // verus!
