//! Checking the configured keys: one report row per kind of key.
use vstd::prelude::*;
use crate::client::HoneycombClient;
use crate::keys::{maskable, masked, mask_identifier, ConfigurationKeyMaterial, ManagementKeyMaterial};
use crate::table::{TableLayout, nat_widths, str_views, views};

verus! {

/// One line of the key report.
#[derive(Clone, Debug)]
pub struct KeyValidationRow {
    pub key_type: &'static str,
    pub source: String,
    pub key_id: String,
    pub status: &'static str,
    pub details: String,
}

impl KeyValidationRow {
    /// The row of a kind of key that was not supplied, apart from its kind.
    pub open spec fn is_not_configured(&self) -> bool {
        &&& self.source@ == "-"@
        &&& self.key_id@ == "-"@
        &&& self.status@ == "not configured"@
        &&& self.details@ == "Set via env vars or flags to enable validation"@
    }

    /// A kind of key that was not supplied.
    pub fn not_configured(key_type: &'static str) -> (r: Self)
        ensures
            r.key_type == key_type,
            r.is_not_configured(),
    {
        KeyValidationRow {
            key_type,
            source: String::from_str("-"),
            key_id: String::from_str("-"),
            status: "not configured",
            details: String::from_str("Set via env vars or flags to enable validation"),
        }
    }

    /// A key that passed its check.
    pub fn valid(key_type: &'static str, source: String, key_id: String, details: String) -> (r: Self)
        ensures
            r.key_type == key_type,
            r.source == source,
            r.key_id == key_id,
            r.status@ == "valid"@,
            r.details == details,
    {
        KeyValidationRow { key_type, source, key_id, status: "valid", details }
    }

    /// A key that failed its check.
    pub fn invalid(key_type: &'static str, source: String, key_id: String, details: String) -> (r: Self)
        ensures
            r.key_type == key_type,
            r.source == source,
            r.key_id == key_id,
            r.status@ == "invalid"@,
            r.details == details,
    {
        KeyValidationRow { key_type, source, key_id, status: "invalid", details }
    }

    /// Kind, source, identifier, status and details.
    pub open spec fn cells_spec(&self) -> Seq<Seq<char>> {
        seq![self.key_type@, self.source@, self.key_id@, self.status@, self.details@]
    }

    /// The cells of the row's table line.
    pub fn cells(&self) -> (r: Vec<String>)
        ensures
            views(r@) == self.cells_spec(),
    {
        let mut r: Vec<String> = Vec::new();
        r.push(String::from_str(self.key_type));
        r.push(String::from_str(self.source.as_str()));
        r.push(String::from_str(self.key_id.as_str()));
        r.push(String::from_str(self.status));
        r.push(String::from_str(self.details.as_str()));
        assert(views(r@) =~= self.cells_spec());
        r
    }

    /// The row as a block of labelled lines, ended by an empty line.
    pub open spec fn pretty_spec(&self) -> Seq<Seq<char>> {
        seq![
            self.key_type@ + " key"@,
            "  Source : "@ + self.source@,
            "  Key ID : "@ + self.key_id@,
            "  Status : "@ + self.status@,
            "  Details: "@ + self.details@,
            Seq::empty(),
        ]
    }

    /// The row as a block of labelled lines.
    pub fn pretty_lines(&self) -> (r: Vec<String>)
        ensures
            views(r@) == self.pretty_spec(),
    {
        let mut r: Vec<String> = Vec::new();
        let mut head = String::from_str(self.key_type);
        head.append(" key");
        r.push(head);
        let mut source = String::from_str("  Source : ");
        source.append(self.source.as_str());
        r.push(source);
        let mut id = String::from_str("  Key ID : ");
        id.append(self.key_id.as_str());
        r.push(id);
        let mut status = String::from_str("  Status : ");
        status.append(self.status);
        r.push(status);
        let mut details = String::from_str("  Details: ");
        details.append(self.details.as_str());
        r.push(details);
        r.push(String::new());
        assert(views(r@) =~= self.pretty_spec());
        r
    }

    /// The table these records are listed in.
    pub fn layout() -> (l: TableLayout)
        ensures
            l.wf(),
            str_views(l.titles@) == seq!["Key Type"@, "Source"@, "Key ID"@, "Status"@, "Details"@],
            nat_widths(l.widths@) == seq![15nat, 30nat, 30nat, 15nat, 0nat],
            l.rule == 130,
    {
        let mut titles: Vec<&'static str> = Vec::new();
        titles.push("Key Type");
        titles.push("Source");
        titles.push("Key ID");
        titles.push("Status");
        titles.push("Details");
        let mut widths: Vec<usize> = Vec::new();
        widths.push(15);
        widths.push(30);
        widths.push(30);
        widths.push(15);
        widths.push(0);
        let l = TableLayout { titles, widths, rule: 130 };
        assert(str_views(l.titles@) =~= seq!["Key Type"@, "Source"@, "Key ID"@, "Status"@, "Details"@]);
        assert(nat_widths(l.widths@) =~= seq![15nat, 30nat, 30nat, 15nat, 0nat]);
        l
    }
}

/// How a management key's identifier is shown: masked when it is a whole key
/// (given as the legacy key), as it is otherwise.
pub open spec fn shown_management_id(info: ManagementKeyMaterial) -> Seq<char> {
    if info.masked {
        masked(info.id@)
    } else {
        info.id@
    }
}

/// How a management key's identifier is shown.
pub fn format_management_id(info: &ManagementKeyMaterial) -> (r: String)
    requires
        info.masked ==> maskable(info.id@),
    ensures
        r@ == shown_management_id(*info),
{
    if info.masked {
        mask_identifier(info.id.as_str())
    } else {
        String::from_str(info.id.as_str())
    }
}

/// The first stage of checking a key: either the row is already decided, or
/// the key must be tried against `path` and the row depends on the outcome.
#[derive(Clone, Debug)]
pub enum KeyCheck {
    Decided(KeyValidationRow),
    Probe { key_type: &'static str, source: String, key_id: String, path: &'static str },
}

impl KeyCheck {
    /// The row for a probe's outcome: valid when the request succeeded, invalid
    /// with the error's text otherwise. A decided check keeps its row.
    pub fn conclude(self, outcome: Result<(), String>) -> (r: KeyValidationRow)
        ensures
            match self {
                KeyCheck::Decided(row) => r == row,
                KeyCheck::Probe { key_type, source, key_id, path } => {
                    &&& r.key_type == key_type
                    &&& r.source == source
                    &&& r.key_id == key_id
                    &&& match outcome {
                        Ok(_) => r.status@ == "valid"@ && r.details@ == "Validated via "@ + path@,
                        Err(e) => r.status@ == "invalid"@ && r.details == e,
                    }
                },
            },
    {
        match self {
            KeyCheck::Decided(row) => row,
            KeyCheck::Probe { key_type, source, key_id, path } => match outcome {
                Ok(_) => {
                    let mut details = String::from_str("Validated via ");
                    details.append(path);
                    KeyValidationRow::valid(key_type, source, key_id, details)
                },
                Err(e) => KeyValidationRow::invalid(key_type, source, key_id, e),
            },
        }
    }
}

/// Checks the management key as far as can be done without a request: absent,
/// missing its secret, or unknown to the client; else it is to be tried on `/2/auth`.
pub fn validate_management_key(client: &HoneycombClient, material: &Option<ManagementKeyMaterial>) -> (r: KeyCheck)
    requires
        material matches Some(info) ==> (info.masked ==> maskable(info.id@)),
    ensures
        match material {
            None => (r matches KeyCheck::Decided(row) && row.key_type@ == "management"@
                && row.is_not_configured()),
            Some(info) => {
                let source = info.source.text();
                let key_id = shown_management_id(*info);
                if !info.has_secret {
                    r matches KeyCheck::Decided(row) && row.key_type@ == "management"@ && row.source@
                        == source && row.key_id@ == key_id && row.status@ == "invalid"@
                        && row.details@ == "Missing management key secret"@
                } else if client@.management_key is None {
                    r matches KeyCheck::Decided(row) && row.key_type@ == "management"@ && row.source@
                        == source && row.key_id@ == key_id && row.status@ == "invalid"@
                        && row.details@ == "Management key not configured for client"@
                } else {
                    r matches KeyCheck::Probe { key_type, source: s, key_id: k, path } && key_type@
                        == "management"@ && s@ == source && k@ == key_id && path@ == "/2/auth"@
                }
            },
        },
{
    match material {
        None => KeyCheck::Decided(KeyValidationRow::not_configured("management")),
        Some(info) => {
            let source = info.source.to_string();
            let key_id = format_management_id(info);
            if !info.has_secret {
                KeyCheck::Decided(
                    KeyValidationRow::invalid(
                        "management",
                        source,
                        key_id,
                        String::from_str("Missing management key secret"),
                    ),
                )
            } else if !client.has_management_key() {
                KeyCheck::Decided(
                    KeyValidationRow::invalid(
                        "management",
                        source,
                        key_id,
                        String::from_str("Management key not configured for client"),
                    ),
                )
            } else {
                KeyCheck::Probe { key_type: "management", source, key_id, path: "/2/auth" }
            }
        },
    }
}

/// Checks the configuration key as far as can be done without a request:
/// absent, or unknown to the client; else it is to be tried on `/1/auth`.
pub fn validate_configuration_key(
    client: &HoneycombClient,
    material: &Option<ConfigurationKeyMaterial>,
) -> (r: KeyCheck)
    requires
        material matches Some(info) ==> maskable(info.id@),
    ensures
        match material {
            None => (r matches KeyCheck::Decided(row) && row.key_type@ == "configuration"@
                && row.is_not_configured()),
            Some(info) => {
                let source = info.source.text();
                let key_id = masked(info.id@);
                if client@.config_key is None {
                    r matches KeyCheck::Decided(row) && row.key_type@ == "configuration"@
                        && row.source@ == source && row.key_id@ == key_id && row.status@
                        == "invalid"@ && row.details@
                        == "Configuration key not configured for client"@
                } else {
                    r matches KeyCheck::Probe { key_type, source: s, key_id: k, path } && key_type@
                        == "configuration"@ && s@ == source && k@ == key_id && path@ == "/1/auth"@
                }
            },
        },
{
    match material {
        None => KeyCheck::Decided(KeyValidationRow::not_configured("configuration")),
        Some(info) => {
            let source = info.source.to_string();
            let key_id = mask_identifier(info.id.as_str());
            if !client.has_config_key() {
                KeyCheck::Decided(
                    KeyValidationRow::invalid(
                        "configuration",
                        source,
                        key_id,
                        String::from_str("Configuration key not configured for client"),
                    ),
                )
            } else {
                KeyCheck::Probe { key_type: "configuration", source, key_id, path: "/1/auth" }
            }
        },
    }
}

} // verus!
