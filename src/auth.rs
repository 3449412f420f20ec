//! What the API says about the key in use, and what the client can say without asking.
use vstd::prelude::*;
use crate::client::{HoneycombClient, is_v2_path};
use crate::keys::opt_str_view;
use crate::table::views;
use crate::text::{boundary_at, byte_len, byte_len_of, is_boundary, leading_bytes, leading_bytes_text};

verus! {

/// The answer to `/2/auth`.
#[derive(Clone, Debug)]
pub struct AuthResponse {
    pub data: AuthData,
    pub included: Vec<TeamInfo>,
}

/// The key the request was made with.
#[derive(Clone, Debug)]
pub struct AuthData {
    pub attributes: AuthAttributes,
    pub relationships: AuthRelationships,
    pub data_type: String,
    pub id: String,
}

/// The key's name, kind, scopes and state.
#[derive(Clone, Debug)]
pub struct AuthAttributes {
    pub name: String,
    pub key_type: String,
    pub scopes: Vec<String>,
    pub disabled: bool,
    pub timestamps: AuthTimestamps,
}

/// When the key was created and last changed, as the server wrote them.
#[derive(Clone, Debug)]
pub struct AuthTimestamps {
    pub created: String,
    pub updated: String,
}

/// What the key belongs to.
#[derive(Clone, Debug)]
pub struct AuthRelationships {
    pub team: TeamRelation,
}

/// The team a key belongs to.
#[derive(Clone, Debug)]
pub struct TeamRelation {
    pub data: TeamData,
}

/// A reference to a team.
#[derive(Clone, Debug)]
pub struct TeamData {
    pub team_type: String,
    pub id: String,
}

/// A team, as included with the answer.
#[derive(Clone, Debug)]
pub struct TeamInfo {
    pub attributes: TeamAttributes,
    pub team_type: String,
    pub id: String,
}

/// A team's name and slug.
#[derive(Clone, Debug)]
pub struct TeamAttributes {
    pub name: String,
    pub slug: String,
}

/// The bullet line of one scope.
pub open spec fn scope_line(scope: String) -> Seq<char> {
    "  \u{2022} "@ + scope@
}

impl AuthResponse {
    /// The key section of the summary.
    pub open spec fn key_section(&self) -> Seq<Seq<char>> {
        let a = self.data.attributes;
        seq![
            "API Key Information:"@,
            "=================="@,
            "Name: "@ + a.name@,
            "Type: "@ + a.key_type@,
            "ID: "@ + self.data.id@,
            "Status: "@ + if a.disabled {
                "Disabled"@
            } else {
                "Active"@
            },
            "Created: "@ + a.timestamps.created@,
            "Updated: "@ + a.timestamps.updated@,
            Seq::empty(),
        ]
    }

    /// The team section of the summary: the first included team, if any.
    pub open spec fn team_section(&self) -> Seq<Seq<char>> {
        if self.included@.len() > 0 {
            let t = self.included@[0];
            seq![
                "Team Information:"@,
                "================="@,
                "Name: "@ + t.attributes.name@,
                "Slug: "@ + t.attributes.slug@,
                "ID: "@ + t.id@,
                Seq::empty(),
            ]
        } else {
            Seq::empty()
        }
    }

    /// The lines of the summary: the key, its team, and one bullet per scope.
    pub open spec fn summary_spec(&self) -> Seq<Seq<char>> {
        self.key_section() + self.team_section() + seq!["Scopes:"@, "======="@]
            + self.data.attributes.scopes@.map_values(|s: String| scope_line(s))
    }

    /// The lines of the summary shown for the table format.
    pub fn summary_lines(&self) -> (r: Vec<String>)
        ensures
            views(r@) == self.summary_spec(),
    {
        let a = &self.data.attributes;
        let mut r: Vec<String> = Vec::new();
        r.push(String::from_str("API Key Information:"));
        r.push(String::from_str("=================="));
        r.push(labelled("Name: ", a.name.as_str()));
        r.push(labelled("Type: ", a.key_type.as_str()));
        r.push(labelled("ID: ", self.data.id.as_str()));
        r.push(labelled("Status: ", if a.disabled { "Disabled" } else { "Active" }));
        r.push(labelled("Created: ", a.timestamps.created.as_str()));
        r.push(labelled("Updated: ", a.timestamps.updated.as_str()));
        r.push(String::new());
        assert(views(r@) =~= self.key_section());
        if self.included.len() > 0 {
            let t = &self.included[0];
            r.push(String::from_str("Team Information:"));
            r.push(String::from_str("================="));
            r.push(labelled("Name: ", t.attributes.name.as_str()));
            r.push(labelled("Slug: ", t.attributes.slug.as_str()));
            r.push(labelled("ID: ", t.id.as_str()));
            r.push(String::new());
        }
        r.push(String::from_str("Scopes:"));
        r.push(String::from_str("======="));
        let ghost head = self.key_section() + self.team_section() + seq!["Scopes:"@, "======="@];
        assert(views(r@) =~= head);
        let scopes = &a.scopes;
        let mut i: usize = 0;
        while i < scopes.len()
            invariant
                i <= scopes@.len(),
                views(r@) == head + scopes@.subrange(0, i as int).map_values(|s: String| scope_line(s)),
            decreases scopes@.len() - i,
        {
            let ghost prev = views(r@);
            r.push(labelled("  \u{2022} ", scopes[i].as_str()));
            assert(views(r@) =~= prev.push(scope_line(scopes@[i as int])));
            assert(scopes@.subrange(0, i + 1).map_values(|s: String| scope_line(s)) =~= scopes@.subrange(
                0,
                i as int,
            ).map_values(|s: String| scope_line(s)).push(scope_line(scopes@[i as int])));
            i = i + 1;
            assert(views(r@) =~= head + scopes@.subrange(0, i as int).map_values(|s: String| scope_line(s)));
        }
        assert(scopes@.subrange(0, scopes@.len() as int) =~= scopes@);
        r
    }
}

/// A label followed by a value.
fn labelled(label: &str, value: &str) -> (r: String)
    ensures
        r@ == label@ + value@,
{
    let mut s = String::from_str(label);
    s.append(value);
    s
}

/// A key's preview can be cut: it is at most eight bytes long, or its eighth
/// byte ends a character.
pub open spec fn preview_fits(key: Option<Seq<char>>) -> bool {
    match key {
        Some(k) => byte_len(k) <= 8 || is_boundary(k, 8),
        None => true,
    }
}

/// The lines about one kind of key: its first eight bytes and what it
/// opens, or that it is missing.
pub open spec fn key_lines(
    key: Option<Seq<char>>,
    label: Seq<char>,
    api: Seq<char>,
    scheme: Seq<char>,
    kind: Seq<char>,
) -> Seq<Seq<char>> {
    match key {
        Some(k) => seq![
            label + leading_bytes(k, 8) + " (for "@ + api + " endpoints)"@,
            "\u{2705} Can access "@ + api + " APIs ("@ + scheme + " authentication)"@,
        ],
        None => seq!["\u{274C} No "@ + kind + " - cannot access "@ + api + " APIs"@],
    }
}

/// What the client can tell about its keys without a request.
pub open spec fn key_info_spec(management: Option<Seq<char>>, config: Option<Seq<char>>) -> Seq<Seq<char>> {
    seq!["\u{1F511} API Key Information"@, "======================"@]
        + key_lines(management, "Management Key: "@, "v2"@, "Bearer"@, "Management Key"@)
        + seq![Seq::empty()]
        + key_lines(config, "Configuration Key: "@, "v1"@, "X-Honeycomb-Team"@, "Configuration Key"@)
        + seq![
            Seq::empty(),
            "\u{1F4A1} Set environment variables:"@,
            "   export HONEYCOMB_MANAGEMENT_API_KEY_ID=\"hc***\""@,
            "   export HONEYCOMB_MANAGEMENT_API_KEY=\"***\""@,
            "   export HONEYCOMB_CONFIGURATION_API_KEY=\"***\""@,
        ]
}

fn push_key_lines(
    r: &mut Vec<String>,
    key: Option<&str>,
    label: &str,
    api: &str,
    scheme: &str,
    kind: &str,
)
    requires
        preview_fits(opt_str_view(key)),
    ensures
        views(final(r)@) == views(old(r)@) + key_lines(
            match key {
                Some(k) => Some(k@),
                None => None,
            },
            label@,
            api@,
            scheme@,
            kind@,
        ),
{
    match key {
        Some(k) => {
            let mut first = String::from_str(label);
            let head = leading_bytes_text(k, 8);
            first.append(head.as_str());
            first.append(" (for ");
            first.append(api);
            first.append(" endpoints)");
            r.push(first);
            let mut second = String::from_str("\u{2705} Can access ");
            second.append(api);
            second.append(" APIs (");
            second.append(scheme);
            second.append(" authentication)");
            r.push(second);
        },
        None => {
            let mut line = String::from_str("\u{274C} No ");
            line.append(kind);
            line.append(" - cannot access ");
            line.append(api);
            line.append(" APIs");
            r.push(line);
        },
    }
    assert(views(final(r)@) =~= views(old(r)@) + key_lines(
        match key {
            Some(k) => Some(k@),
            None => None,
        },
        label@,
        api@,
        scheme@,
        kind@,
    ));
}

/// What the client can tell about its keys without a request.
pub fn key_info_lines(client: &HoneycombClient) -> (r: Vec<String>)
    requires
        preview_fits(client@.management_key),
        preview_fits(client@.config_key),
    ensures
        views(r@) == key_info_spec(client@.management_key, client@.config_key),
{
    proof {
        reveal_strlit("/2/auth");
        reveal_strlit("/1/datasets");
    }
    assert(is_v2_path("/2/auth"@)) by {
        assert("/2/auth"@.subrange(0, 3) =~= seq!['/', '2', '/']);
    }
    assert(!is_v2_path("/1/datasets"@)) by {
        assert("/1/datasets"@[1] == '1');
    }
    let ghost m = client@.management_key;
    let ghost c = client@.config_key;
    let mut r: Vec<String> = Vec::new();
    r.push(String::from_str("\u{1F511} API Key Information"));
    r.push(String::from_str("======================"));
    assert(views(r@) =~= seq!["\u{1F511} API Key Information"@, "======================"@]);
    let management = if client.has_management_key() {
        client.get_key_for_endpoint("/2/auth")
    } else {
        None
    };
    assert(opt_str_view(management) == m);
    let ghost before = views(r@);
    push_key_lines(&mut r, management, "Management Key: ", "v2", "Bearer", "Management Key");
    let ghost after_management = before + key_lines(m, "Management Key: "@, "v2"@, "Bearer"@, "Management Key"@);
    assert(views(r@) == after_management);
    r.push(String::new());
    assert(views(r@) =~= after_management + seq![Seq::<char>::empty()]);
    let config = if client.has_config_key() {
        client.get_key_for_endpoint("/1/datasets")
    } else {
        None
    };
    assert(opt_str_view(config) == c);
    let ghost before_config = views(r@);
    push_key_lines(&mut r, config, "Configuration Key: ", "v1", "X-Honeycomb-Team", "Configuration Key");
    let ghost after_config = before_config + key_lines(c, "Configuration Key: "@, "v1"@, "X-Honeycomb-Team"@, "Configuration Key"@);
    assert(views(r@) == after_config);
    r.push(String::new());
    r.push(String::from_str("\u{1F4A1} Set environment variables:"));
    r.push(String::from_str("   export HONEYCOMB_MANAGEMENT_API_KEY_ID=\"hc***\""));
    r.push(String::from_str("   export HONEYCOMB_MANAGEMENT_API_KEY=\"***\""));
    r.push(String::from_str("   export HONEYCOMB_CONFIGURATION_API_KEY=\"***\""));
    assert(views(r@) =~= after_config + seq![
        Seq::<char>::empty(),
        "\u{1F4A1} Set environment variables:"@,
        "   export HONEYCOMB_MANAGEMENT_API_KEY_ID=\"hc***\""@,
        "   export HONEYCOMB_MANAGEMENT_API_KEY=\"***\""@,
        "   export HONEYCOMB_CONFIGURATION_API_KEY=\"***\""@,
    ]);
    assert(views(r@) =~= key_info_spec(client@.management_key, client@.config_key));
    r
}

/// Whether both of the client's keys can be previewed (see `preview_fits`).
pub fn key_previews_fit(client: &HoneycombClient) -> (r: bool)
    ensures
        r == (preview_fits(client@.management_key) && preview_fits(client@.config_key)),
{
    proof {
        reveal_strlit("/2/auth");
        reveal_strlit("/1/datasets");
    }
    assert(is_v2_path("/2/auth"@)) by {
        assert("/2/auth"@.subrange(0, 3) =~= seq!['/', '2', '/']);
    }
    assert(!is_v2_path("/1/datasets"@)) by {
        assert("/1/datasets"@[1] == '1');
    }
    let management = if client.has_management_key() {
        client.get_key_for_endpoint("/2/auth")
    } else {
        None
    };
    let config = if client.has_config_key() {
        client.get_key_for_endpoint("/1/datasets")
    } else {
        None
    };
    preview_ok(management) && preview_ok(config)
}

fn preview_ok(key: Option<&str>) -> (r: bool)
    ensures
        r == preview_fits(opt_str_view(key)),
{
    match key {
        Some(k) => byte_len_of(k) <= 8 || boundary_at(k, 8),
        None => true,
    }
}

} // verus!
