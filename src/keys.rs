//! Key material: which credentials were supplied, where each came from, and how
//! they are shown and checked.
use vstd::prelude::*;
use crate::text::{
    boundary_at, byte_len, byte_len_of, byte_prefix, byte_prefix_text, byte_suffix, byte_suffix_text,
    has_prefix, is_boundary, push_repeated, repeat_char, starts_with,
};
use vstd::utf8::encode_utf8;

verus! {

pub const MANAGEMENT_KEY_ID_ENV: &'static str = "HONEYCOMB_MANAGEMENT_API_KEY_ID";
pub const MANAGEMENT_KEY_ID_FLAG: &'static str = "--management-key-id";
pub const CONFIGURATION_KEY_ENV: &'static str = "HONEYCOMB_CONFIGURATION_API_KEY";
pub const CONFIGURATION_KEY_FLAG: &'static str = "--config-key";
pub const LEGACY_KEY_ENV: &'static str = "HONEYCOMB_API_KEY";
pub const LEGACY_KEY_FLAG: &'static str = "--api-key";

/// Where a key was read from: an environment variable or a command-line flag.
#[derive(Clone, Copy, Debug)]
pub enum KeySource {
    Env(&'static str),
    Flag(&'static str),
}

impl KeySource {
    /// `env:<variable>` or `flag:<flag>`.
    pub open spec fn text(&self) -> Seq<char> {
        match self {
            KeySource::Env(name) => seq!['e', 'n', 'v', ':'] + name@,
            KeySource::Flag(flag) => seq!['f', 'l', 'a', 'g', ':'] + flag@,
        }
    }

    /// The source as shown to the user.
    pub fn to_string(&self) -> (r: String)
        ensures
            r@ == self.text(),
    {
        proof {
            reveal_strlit("env:");
            reveal_strlit("flag:");
        }
        match self {
            KeySource::Env(name) => {
                let mut s = String::from_str("env:");
                s.append(name);
                s
            },
            KeySource::Flag(flag) => {
                let mut s = String::from_str("flag:");
                s.append(flag);
                s
            },
        }
    }
}

/// A management key as supplied: its identifier, its source, whether the
/// identifier is shown masked, and whether a secret came with it.
#[derive(Clone, Debug)]
pub struct ManagementKeyMaterial {
    pub id: String,
    pub source: KeySource,
    pub masked: bool,
    pub has_secret: bool,
}

/// A configuration key as supplied.
#[derive(Clone, Debug)]
pub struct ConfigurationKeyMaterial {
    pub id: String,
    pub source: KeySource,
}

/// The key material known to a run, each kind optional.
#[derive(Clone, Debug)]
pub struct KeyMaterial {
    pub management: Option<ManagementKeyMaterial>,
    pub configuration: Option<ConfigurationKeyMaterial>,
}

impl Default for KeyMaterial {
    fn default() -> (r: Self)
        ensures
            r.management is None,
            r.configuration is None,
    {
        KeyMaterial { management: None, configuration: None }
    }
}

/// What every command receives besides the client: the team and the key material.
#[derive(Clone, Debug)]
pub struct CommandContext {
    pub team: Option<String>,
    pub key_material: KeyMaterial,
}

/// The masked form of an identifier, counted in UTF-8 bytes: up to eight
/// bytes become as many `*`; a longer one keeps its first and last four bytes
/// around `***`.
pub open spec fn masked(v: Seq<char>) -> Seq<char> {
    let n = byte_len(v);
    if n <= 8 {
        repeat_char('*', n)
    } else {
        byte_prefix(v, 4) + seq!['*', '*', '*'] + byte_suffix(v, n - 4)
    }
}

/// An identifier can be masked: it is at most eight bytes long, or its fourth
/// byte and its fourth byte from the end both start characters.
pub open spec fn maskable(v: Seq<char>) -> bool {
    byte_len(v) <= 8 || (is_boundary(v, 4) && is_boundary(v, byte_len(v) - 4))
}

/// Whether an identifier can be masked (see `maskable`).
pub fn can_mask(value: &str) -> (r: bool)
    ensures
        r == maskable(value@),
{
    let n = byte_len_of(value);
    n <= 8 || (boundary_at(value, 4) && boundary_at(value, n - 4))
}

/// Masks an identifier for display.
pub fn mask_identifier(value: &str) -> (r: String)
    requires
        maskable(value@),
    ensures
        r@ == masked(value@),
{
    proof {
        reveal_strlit("*");
        reveal_strlit("***");
    }
    let n = byte_len_of(value);
    if n <= 8 {
        let mut out = String::new();
        push_repeated(&mut out, "*", n);
        assert(out@ =~= masked(value@));
        out
    } else {
        let mut out = byte_prefix_text(value, 4);
        out.append("***");
        let tail = byte_suffix_text(value, n - 4);
        out.append(tail.as_str());
        assert(out@ =~= masked(value@));
        out
    }
}

/// The source of a value: the environment variable when the value equals what
/// that variable holds, the flag otherwise.
pub open spec fn source_of(
    value: Seq<char>,
    env_value: Option<Seq<char>>,
    env_label: &'static str,
    flag_label: &'static str,
) -> KeySource {
    if env_value == Some(value) {
        KeySource::Env(env_label)
    } else {
        KeySource::Flag(flag_label)
    }
}

/// The view of an optional string slice.
pub open spec fn opt_str_view(o: Option<&str>) -> Option<Seq<char>> {
    match o {
        Some(s) => Some(s@),
        None => None,
    }
}

/// The view of an optional string.
pub open spec fn opt_view(o: Option<String>) -> Option<Seq<char>> {
    match o {
        Some(s) => Some(s@),
        None => None,
    }
}

/// Equality of two texts.
fn same_text(a: &str, b: &str) -> (r: bool)
    ensures
        r == (a@ == b@),
{
    let x = String::from_str(a);
    let y = String::from_str(b);
    x == y
}

/// Decides where a key value came from.
pub fn determine_source(
    value: &str,
    env_value: Option<&str>,
    env_label: &'static str,
    flag_label: &'static str,
) -> (r: KeySource)
    ensures
        r == source_of(value@, opt_str_view(env_value), env_label, flag_label),
{
    match env_value {
        Some(env_val) => {
            if same_text(env_val, value) {
                KeySource::Env(env_label)
            } else {
                KeySource::Flag(flag_label)
            }
        },
        None => KeySource::Flag(flag_label),
    }
}

/// A management key starts with `hcxmk_` or `hcamk_`.
pub open spec fn management_key_shape(c: Seq<char>) -> bool {
    has_prefix(c, seq!['h', 'c', 'x', 'm', 'k', '_']) || has_prefix(
        c,
        seq!['h', 'c', 'a', 'm', 'k', '_'],
    )
}

/// A configuration key starts with `hcaik_` or is 64 bytes long in UTF-8.
pub open spec fn configuration_key_shape(c: Seq<char>) -> bool {
    has_prefix(c, seq!['h', 'c', 'a', 'i', 'k', '_']) || encode_utf8(c).len() == 64
}

/// Whether a key has the shape of a management key.
pub fn is_management_key(candidate: &str) -> (r: bool)
    ensures
        r == management_key_shape(candidate@),
{
    proof {
        reveal_strlit("hcxmk_");
        reveal_strlit("hcamk_");
    }
    assert("hcxmk_"@ =~= seq!['h', 'c', 'x', 'm', 'k', '_']);
    assert("hcamk_"@ =~= seq!['h', 'c', 'a', 'm', 'k', '_']);
    starts_with(candidate, "hcxmk_") || starts_with(candidate, "hcamk_")
}

/// Whether a key has the shape of a configuration key.
pub fn is_configuration_key(candidate: &str) -> (r: bool)
    ensures
        r == configuration_key_shape(candidate@),
{
    proof {
        reveal_strlit("hcaik_");
    }
    assert("hcaik_"@ =~= seq!['h', 'c', 'a', 'i', 'k', '_']);
    starts_with(candidate, "hcaik_") || candidate.as_bytes().len() == 64
}

/// The credentials offered to a run, from flags and from the environment.
/// A flag's value is the variable's value when the flag was not given.
pub struct CredentialInputs {
    pub management_key_id: Option<String>,
    pub management_key_secret: Option<String>,
    pub config_key: Option<String>,
    pub api_key: Option<String>,
    pub env_management_key_id: Option<String>,
    pub env_config_key: Option<String>,
    pub env_api_key: Option<String>,
}

/// The credentials a run uses: the key material to report, and the keys the
/// client authenticates with.
pub struct Credentials {
    pub key_material: KeyMaterial,
    pub management_key: Option<String>,
    pub config_key: Option<String>,
}

/// The legacy key stands in for the management key: no management key id was
/// given and the legacy key has a management key's shape.
pub open spec fn legacy_as_management(i: CredentialInputs) -> bool {
    &&& i.management_key_id is None
    &&& i.api_key is Some
    &&& management_key_shape(i.api_key->0@)
}

/// The legacy key stands in for the configuration key: no configuration key was
/// given, the legacy key is not already the management key, and it has a
/// configuration key's shape.
pub open spec fn legacy_as_configuration(i: CredentialInputs) -> bool {
    &&& i.config_key is None
    &&& !legacy_as_management(i)
    &&& i.api_key is Some
    &&& configuration_key_shape(i.api_key->0@)
}

/// The key the client sends to v2 endpoints: `<id>:<secret>` when both were
/// given, or the legacy key standing in for it.
pub open spec fn management_key_of(i: CredentialInputs) -> Option<Seq<char>> {
    match i.management_key_id {
        Some(id) => match i.management_key_secret {
            Some(secret) => Some(id@ + seq![':'] + secret@),
            None => None,
        },
        None => if legacy_as_management(i) {
            Some(i.api_key->0@)
        } else {
            None
        },
    }
}

/// The key the client sends to v1 endpoints.
pub open spec fn config_key_of(i: CredentialInputs) -> Option<Seq<char>> {
    match i.config_key {
        Some(k) => Some(k@),
        None => if legacy_as_configuration(i) {
            Some(i.api_key->0@)
        } else {
            None
        },
    }
}

/// The management key material reported for these inputs.
pub open spec fn management_material_matches(i: CredentialInputs, m: Option<ManagementKeyMaterial>) -> bool {
    match i.management_key_id {
        Some(id) => {
            &&& m is Some
            &&& m->0.id@ == id@
            &&& m->0.source == source_of(id@, opt_view(i.env_management_key_id), MANAGEMENT_KEY_ID_ENV, MANAGEMENT_KEY_ID_FLAG)
            &&& !m->0.masked
            &&& m->0.has_secret == i.management_key_secret is Some
        },
        None => if legacy_as_management(i) {
            &&& m is Some
            &&& m->0.id@ == i.api_key->0@
            &&& m->0.source == source_of(i.api_key->0@, opt_view(i.env_api_key), LEGACY_KEY_ENV, LEGACY_KEY_FLAG)
            &&& m->0.masked
            &&& m->0.has_secret
        } else {
            m is None
        },
    }
}

/// The configuration key material reported for these inputs.
pub open spec fn configuration_material_matches(i: CredentialInputs, c: Option<ConfigurationKeyMaterial>) -> bool {
    match i.config_key {
        Some(k) => {
            &&& c is Some
            &&& c->0.id@ == k@
            &&& c->0.source == source_of(k@, opt_view(i.env_config_key), CONFIGURATION_KEY_ENV, CONFIGURATION_KEY_FLAG)
        },
        None => if legacy_as_configuration(i) {
            &&& c is Some
            &&& c->0.id@ == i.api_key->0@
            &&& c->0.source == source_of(i.api_key->0@, opt_view(i.env_api_key), LEGACY_KEY_ENV, LEGACY_KEY_FLAG)
        } else {
            c is None
        },
    }
}

/// Borrows the text of an optional string.
fn opt_as_str(o: &Option<String>) -> (r: Option<&str>)
    ensures
        opt_str_view(r) == opt_view(*o),
{
    match o {
        Some(s) => Some(s.as_str()),
        None => None,
    }
}

/// Decides which keys a run uses and where each came from. An explicit
/// management key id wins over the legacy key, and so does an explicit
/// configuration key; the legacy key serves as at most one of the two,
/// chosen by its shape, the management key first.
pub fn resolve_credentials(inputs: &CredentialInputs) -> (r: Credentials)
    ensures
        opt_view(r.management_key) == management_key_of(*inputs),
        opt_view(r.config_key) == config_key_of(*inputs),
        management_material_matches(*inputs, r.key_material.management),
        configuration_material_matches(*inputs, r.key_material.configuration),
{
    let mut key_material = KeyMaterial::default();
    let mut management_key: Option<String> = None;
    let mut config_key: Option<String> = None;
    let mut api_key_used_for_management = false;

    if let Some(id) = &inputs.management_key_id {
        let source = determine_source(
            id.as_str(),
            opt_as_str(&inputs.env_management_key_id),
            MANAGEMENT_KEY_ID_ENV,
            MANAGEMENT_KEY_ID_FLAG,
        );
        let has_secret = inputs.management_key_secret.is_some();
        key_material.management = Some(ManagementKeyMaterial {
            id: String::from_str(id.as_str()),
            source,
            masked: false,
            has_secret,
        });
        if let Some(secret) = &inputs.management_key_secret {
            proof {
                reveal_strlit(":");
            }
            let mut k = String::from_str(id.as_str());
            k.append(":");
            k.append(secret.as_str());
            management_key = Some(k);
        }
    }

    if key_material.management.is_none() {
        if let Some(api_key) = &inputs.api_key {
            if is_management_key(api_key.as_str()) {
                let source = determine_source(
                    api_key.as_str(),
                    opt_as_str(&inputs.env_api_key),
                    LEGACY_KEY_ENV,
                    LEGACY_KEY_FLAG,
                );
                key_material.management = Some(ManagementKeyMaterial {
                    id: String::from_str(api_key.as_str()),
                    source,
                    masked: true,
                    has_secret: true,
                });
                management_key = Some(String::from_str(api_key.as_str()));
                api_key_used_for_management = true;
            }
        }
    }

    if let Some(cfg_key) = &inputs.config_key {
        let source = determine_source(
            cfg_key.as_str(),
            opt_as_str(&inputs.env_config_key),
            CONFIGURATION_KEY_ENV,
            CONFIGURATION_KEY_FLAG,
        );
        key_material.configuration = Some(ConfigurationKeyMaterial {
            id: String::from_str(cfg_key.as_str()),
            source,
        });
        config_key = Some(String::from_str(cfg_key.as_str()));
    }

    if key_material.configuration.is_none() && !api_key_used_for_management {
        if let Some(api_key) = &inputs.api_key {
            if is_configuration_key(api_key.as_str()) {
                let source = determine_source(
                    api_key.as_str(),
                    opt_as_str(&inputs.env_api_key),
                    LEGACY_KEY_ENV,
                    LEGACY_KEY_FLAG,
                );
                key_material.configuration = Some(ConfigurationKeyMaterial {
                    id: String::from_str(api_key.as_str()),
                    source,
                });
                config_key = Some(String::from_str(api_key.as_str()));
            }
        }
    }

    Credentials { key_material, management_key, config_key }
}

/// The base URL a run talks to: an explicit URL wins; an endpoint host gets
/// `https://` in front unless it already names `http://` or `https://`.
pub open spec fn api_url_of(api_url: Option<Seq<char>>, api_endpoint: Option<Seq<char>>) -> Option<Seq<char>> {
    match api_url {
        Some(u) => Some(u),
        None => match api_endpoint {
            Some(e) => if has_prefix(e, seq!['h', 't', 't', 'p', ':', '/', '/']) || has_prefix(
                e,
                seq!['h', 't', 't', 'p', 's', ':', '/', '/'],
            ) {
                Some(e)
            } else {
                Some(seq!['h', 't', 't', 'p', 's', ':', '/', '/'] + e)
            },
            None => None,
        },
    }
}

/// Chooses the base URL from the `--api-url` and `--api-endpoint` settings.
pub fn resolve_api_url(api_url: Option<String>, api_endpoint: Option<String>) -> (r: Option<String>)
    ensures
        opt_view(r) == api_url_of(opt_view(api_url), opt_view(api_endpoint)),
{
    proof {
        reveal_strlit("http://");
        reveal_strlit("https://");
    }
    assert("http://"@ =~= seq!['h', 't', 't', 'p', ':', '/', '/']);
    assert("https://"@ =~= seq!['h', 't', 't', 'p', 's', ':', '/', '/']);
    match api_url {
        Some(u) => Some(u),
        None => match api_endpoint {
            Some(e) => {
                if starts_with(e.as_str(), "http://") || starts_with(e.as_str(), "https://") {
                    Some(e)
                } else {
                    let mut s = String::from_str("https://");
                    s.append(e.as_str());
                    Some(s)
                }
            },
            None => None,
        },
    }
}

} // verus!
