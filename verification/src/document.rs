//! The configuration document schema: a `server` object with three required
//! ports, an optional `node_name`, and an optional `tvs` object whose three
//! fields each have a compiled default. The JSON tree is read through the
//! trusted accessors of the json module into a plain [`RawDoc`]; everything
//! from there on — required fields, port ranges, defaults — is verified.

use vstd::prelude::*;

use crate::config::AppConfig;
use crate::config::AppConfigV;
use crate::config::ServerConfig;
use crate::config::TvsNodeConfig;
use crate::config::TvsNodeConfigV;
use crate::config::TvsServerConfig;
use crate::config::TvsServerConfigV;
use crate::config::EnvSnapshot;
use crate::config::EnvSnapshotV;
use crate::config::spec_active_tvs;
use crate::config::spec_apply_env;
use crate::config::spec_default_tvs;
use crate::config::spec_tvs_from_parts;
use crate::errors::ConfigError;
use crate::json::JsonKind;
use crate::json::json_as_bool;
use crate::json::json_as_string;
use crate::json::json_as_u64;
use crate::json::json_bool;
use crate::json::json_get;
use crate::json::json_is_null;
use crate::json::json_is_object;
use crate::json::json_kind;
use crate::json::json_member;
use crate::json::json_string;
use crate::json::json_tree_of;
use crate::json::json_u64;
use crate::json::parse_json_text;

verus! {

/// One field of the document, as the JSON tree gives it: absent, present
/// with a value of the expected type, or present with one of another type.
pub enum Field<T> {
    Absent,
    Given(T),
    Bad,
}

/// View of a string field as a character-sequence field.
pub open spec fn view_field_string(f: Field<String>) -> Field<Seq<char>> {
    match f {
        Field::Absent => Field::Absent,
        Field::Given(s) => Field::Given(s@),
        Field::Bad => Field::Bad,
    }
}

/// What the JSON tree of a configuration document holds, reduced to plain
/// values: presence and raw value of each schema field.
pub struct RawDoc {
    /// The document is a JSON object.
    pub root_ok: bool,
    /// The `server` member is present.
    pub server_present: bool,
    pub cluster_message_port: Field<u64>,
    pub app_port: Field<u64>,
    pub admin_port: Field<u64>,
    pub node_name: Field<String>,
    /// The `tvs` member is present.
    pub tvs_present: bool,
    /// The `tvs` member, when present, is a JSON object.
    pub tvs_ok: bool,
    pub vote_port: Field<u64>,
    pub vote_host: Field<String>,
    pub enabled: Field<bool>,
}

/// Mathematical value of a [`RawDoc`].
pub ghost struct RawDocV {
    pub root_ok: bool,
    pub server_present: bool,
    pub cluster_message_port: Field<u64>,
    pub app_port: Field<u64>,
    pub admin_port: Field<u64>,
    pub node_name: Field<Seq<char>>,
    pub tvs_present: bool,
    pub tvs_ok: bool,
    pub vote_port: Field<u64>,
    pub vote_host: Field<Seq<char>>,
    pub enabled: Field<bool>,
}

impl View for RawDoc {
    type V = RawDocV;

    open spec fn view(&self) -> RawDocV {
        RawDocV {
            root_ok: self.root_ok,
            server_present: self.server_present,
            cluster_message_port: self.cluster_message_port,
            app_port: self.app_port,
            admin_port: self.admin_port,
            node_name: view_field_string(self.node_name),
            tvs_present: self.tvs_present,
            tvs_ok: self.tvs_ok,
            vote_port: self.vote_port,
            vote_host: view_field_string(self.vote_host),
            enabled: self.enabled,
        }
    }
}

/// A required port field: it must be present, a number, and fit in a
/// `u16`; anything else makes the document malformed.
pub open spec fn spec_req_port(f: Field<u64>) -> Option<u16> {
    match f {
        Field::Given(n) => if n <= 0xFFFF {
            Some(n as u16)
        } else {
            None
        },
        Field::Absent => None,
        Field::Bad => None,
    }
}

/// An optional port field: absence is fine (the default applies later), but
/// a present value must be a number that fits in a `u16`.
pub open spec fn spec_opt_port(f: Field<u64>) -> Option<Option<u16>> {
    match f {
        Field::Absent => Some(None),
        Field::Given(n) => if n <= 0xFFFF {
            Some(Some(n as u16))
        } else {
            None
        },
        Field::Bad => None,
    }
}

/// An optional string field: a present value must be a string.
pub open spec fn spec_opt_string(f: Field<Seq<char>>) -> Option<Option<Seq<char>>> {
    match f {
        Field::Absent => Some(None),
        Field::Given(s) => Some(Some(s)),
        Field::Bad => None,
    }
}

/// An optional boolean field: a present value must be a boolean.
pub open spec fn spec_opt_bool(f: Field<bool>) -> Option<Option<bool>> {
    match f {
        Field::Absent => Some(None),
        Field::Given(b) => Some(Some(b)),
        Field::Bad => None,
    }
}

/// Whether every field of the document meets the schema: the root and the
/// `server` member are objects, the three server ports are given numbers in
/// `u16` range, `node_name` is a string when present, and the `tvs` member,
/// when present, is an object whose fields have the expected types.
pub open spec fn spec_doc_ok(d: RawDocV) -> bool {
    &&& d.root_ok
    &&& d.server_present
    &&& spec_req_port(d.cluster_message_port) is Some
    &&& spec_req_port(d.app_port) is Some
    &&& spec_req_port(d.admin_port) is Some
    &&& spec_opt_string(d.node_name) is Some
    &&& (d.tvs_present ==> {
        &&& d.tvs_ok
        &&& spec_opt_port(d.vote_port) is Some
        &&& spec_opt_string(d.vote_host) is Some
        &&& spec_opt_bool(d.enabled) is Some
    })
}

/// The configuration a well-formed document denotes: the server ports as
/// given, the node name when present, and — only when the `tvs` member is
/// present — a vote-server section whose absent fields get their defaults.
pub open spec fn spec_doc_config(d: RawDocV) -> TvsNodeConfigV
    recommends
        spec_doc_ok(d),
{
    TvsNodeConfigV {
        tfs: AppConfigV {
            server: ServerConfig {
                cluster_message_port: spec_req_port(d.cluster_message_port)->0,
                app_port: spec_req_port(d.app_port)->0,
                admin_port: spec_req_port(d.admin_port)->0,
            },
            node_name: spec_opt_string(d.node_name)->0,
        },
        tvs: if d.tvs_present {
            Some(
                spec_tvs_from_parts(
                    spec_opt_port(d.vote_port)->0,
                    spec_opt_string(d.vote_host)->0,
                    spec_opt_bool(d.enabled)->0,
                ),
            )
        } else {
            None
        },
    }
}

/// What assembling a document yields: the denoted configuration when every
/// field meets the schema, and `Malformed` otherwise.
pub open spec fn spec_assemble(d: RawDocV) -> Result<TvsNodeConfigV, ConfigError> {
    if spec_doc_ok(d) {
        Ok(spec_doc_config(d))
    } else {
        Err(ConfigError::Malformed)
    }
}

/// View of an assembly result.
pub open spec fn view_config_result(
    r: Result<TvsNodeConfig, ConfigError>,
) -> Result<TvsNodeConfigV, ConfigError> {
    match r {
        Ok(c) => Ok(c@),
        Err(e) => Err(e),
    }
}

/// What reading one `u64` field of an object yields: absent when the
/// object has no such member, bad when the member is no unsigned number.
pub open spec fn spec_u64_field(obj: serde_json::Value, key: Seq<char>) -> Field<u64> {
    match json_member(obj, key) {
        None => Field::Absent,
        Some(m) => match json_u64(m) {
            Some(n) => Field::Given(n),
            None => Field::Bad,
        },
    }
}

/// What reading one string field of an object yields.
pub open spec fn spec_string_field(obj: serde_json::Value, key: Seq<char>) -> Field<Seq<char>> {
    match json_member(obj, key) {
        None => Field::Absent,
        Some(m) => match json_string(m) {
            Some(s) => Field::Given(s),
            None => Field::Bad,
        },
    }
}

/// What reading one optional string field of an object yields: a `null`
/// member counts as absence, as it does for any optional member.
pub open spec fn spec_opt_string_field(obj: serde_json::Value, key: Seq<char>) -> Field<
    Seq<char>,
> {
    match json_member(obj, key) {
        None => Field::Absent,
        Some(m) => if json_kind(m) is Null {
            Field::Absent
        } else {
            match json_string(m) {
                Some(s) => Field::Given(s),
                None => Field::Bad,
            }
        },
    }
}

/// What reading one boolean field of an object yields.
pub open spec fn spec_bool_field(obj: serde_json::Value, key: Seq<char>) -> Field<bool> {
    match json_member(obj, key) {
        None => Field::Absent,
        Some(m) => match json_bool(m) {
            Some(b) => Field::Given(b),
            None => Field::Bad,
        },
    }
}

/// A required server-section field, absent when the section itself is.
pub open spec fn spec_server_field(server: Option<serde_json::Value>, key: Seq<char>) -> Field<
    u64,
> {
    match server {
        Some(s) => spec_u64_field(s, key),
        None => Field::Absent,
    }
}

/// The plain schema fields a parsed tree gives: which members are present
/// and what each holds, with a `null` optional member counting as absent.
pub open spec fn spec_extract_doc(root: serde_json::Value) -> RawDocV {
    let server = json_member(root, "server"@);
    let base = RawDocV {
        root_ok: json_kind(root) is Object,
        server_present: server is Some,
        cluster_message_port: spec_server_field(server, "cluster_message_port"@),
        app_port: spec_server_field(server, "app_port"@),
        admin_port: spec_server_field(server, "admin_port"@),
        node_name: spec_opt_string_field(root, "node_name"@),
        tvs_present: false,
        tvs_ok: false,
        vote_port: Field::Absent,
        vote_host: Field::Absent,
        enabled: Field::Absent,
    };
    match json_member(root, "tvs"@) {
        Some(t) => if json_kind(t) is Null {
            base
        } else {
            RawDocV {
                tvs_present: true,
                tvs_ok: json_kind(t) is Object,
                vote_port: spec_u64_field(t, "vote_port"@),
                vote_host: spec_string_field(t, "vote_host"@),
                enabled: spec_bool_field(t, "enabled"@),
                ..base
            }
        },
        None => base,
    }
}

/// Read one `u64` field of a JSON object.
fn u64_field(obj: &serde_json::Value, key: &str) -> (r: Field<u64>)
    ensures
        r == spec_u64_field(*obj, key@),
{
    match json_get(obj, key) {
        None => Field::Absent,
        Some(v) => match json_as_u64(v) {
            Some(n) => Field::Given(n),
            None => Field::Bad,
        },
    }
}

/// Read one string field of a JSON object.
fn string_field(obj: &serde_json::Value, key: &str) -> (r: Field<String>)
    ensures
        view_field_string(r) == spec_string_field(*obj, key@),
{
    match json_get(obj, key) {
        None => Field::Absent,
        Some(v) => match json_as_string(v) {
            Some(s) => Field::Given(s),
            None => Field::Bad,
        },
    }
}

/// Read one optional string field of a JSON object, where `null` counts as
/// absence, as it does for any optional member.
fn opt_string_field(obj: &serde_json::Value, key: &str) -> (r: Field<String>)
    ensures
        view_field_string(r) == spec_opt_string_field(*obj, key@),
{
    match json_get(obj, key) {
        None => Field::Absent,
        Some(v) => if json_is_null(v) {
            Field::Absent
        } else {
            match json_as_string(v) {
                Some(s) => Field::Given(s),
                None => Field::Bad,
            }
        },
    }
}

/// Read one boolean field of a JSON object.
fn bool_field(obj: &serde_json::Value, key: &str) -> (r: Field<bool>)
    ensures
        r == spec_bool_field(*obj, key@),
{
    match json_get(obj, key) {
        None => Field::Absent,
        Some(v) => match json_as_bool(v) {
            Some(b) => Field::Given(b),
            None => Field::Bad,
        },
    }
}

/// Reduce a parsed JSON tree to the plain fields of the schema, exactly as
/// [`spec_extract_doc`] reads the tree model.
fn extract_doc(root: &serde_json::Value) -> (r: RawDoc)
    ensures
        r@ == spec_extract_doc(*root),
{
    let root_ok = json_is_object(root);
    let server = json_get(root, "server");
    let server_present = server.is_some();
    let mut doc = RawDoc {
        root_ok,
        server_present,
        cluster_message_port: Field::Absent,
        app_port: Field::Absent,
        admin_port: Field::Absent,
        node_name: opt_string_field(root, "node_name"),
        tvs_present: false,
        tvs_ok: false,
        vote_port: Field::Absent,
        vote_host: Field::Absent,
        enabled: Field::Absent,
    };
    if let Some(srv) = server {
        doc.cluster_message_port = u64_field(srv, "cluster_message_port");
        doc.app_port = u64_field(srv, "app_port");
        doc.admin_port = u64_field(srv, "admin_port");
    }
    if let Some(tvs) = json_get(root, "tvs") {
        // A `null` member counts as an absent section, as for any optional
        // member.
        if !json_is_null(tvs) {
            doc.tvs_present = true;
            doc.tvs_ok = json_is_object(tvs);
            doc.vote_port = u64_field(tvs, "vote_port");
            doc.vote_host = string_field(tvs, "vote_host");
            doc.enabled = bool_field(tvs, "enabled");
        }
    }
    doc
}

/// The fields that parsing a configuration text yields: `None` when the
/// JSON parser rejects the text, otherwise the schema fields its tree
/// gives.
pub open spec fn raw_doc_of(s: Seq<char>) -> Option<RawDocV> {
    match json_tree_of(s) {
        Some(v) => Some(spec_extract_doc(v)),
        None => None,
    }
}

/// Turn the plain fields of a document into a configuration, applying the
/// schema: required server ports in range, optional vote-server section
/// with per-field defaults. Fails with `Malformed` exactly when some field
/// breaks the schema.
pub fn assemble_config(doc: RawDoc) -> (r: Result<TvsNodeConfig, ConfigError>)
    ensures
        view_config_result(r) == spec_assemble(doc@),
{
    if !doc.root_ok || !doc.server_present {
        return Err(ConfigError::Malformed);
    }
    let cluster_message_port: u16 = match doc.cluster_message_port {
        Field::Given(n) => if n <= 0xFFFF {
            n as u16
        } else {
            return Err(ConfigError::Malformed);
        },
        _ => {
            return Err(ConfigError::Malformed);
        },
    };
    let app_port: u16 = match doc.app_port {
        Field::Given(n) => if n <= 0xFFFF {
            n as u16
        } else {
            return Err(ConfigError::Malformed);
        },
        _ => {
            return Err(ConfigError::Malformed);
        },
    };
    let admin_port: u16 = match doc.admin_port {
        Field::Given(n) => if n <= 0xFFFF {
            n as u16
        } else {
            return Err(ConfigError::Malformed);
        },
        _ => {
            return Err(ConfigError::Malformed);
        },
    };
    let node_name: Option<String> = match doc.node_name {
        Field::Absent => None,
        Field::Given(s) => Some(s),
        Field::Bad => {
            return Err(ConfigError::Malformed);
        },
    };
    let tvs: Option<TvsServerConfig> = if doc.tvs_present {
        if !doc.tvs_ok {
            return Err(ConfigError::Malformed);
        }
        let vote_port: Option<u16> = match doc.vote_port {
            Field::Absent => None,
            Field::Given(n) => if n <= 0xFFFF {
                Some(n as u16)
            } else {
                return Err(ConfigError::Malformed);
            },
            Field::Bad => {
                return Err(ConfigError::Malformed);
            },
        };
        let vote_host: Option<String> = match doc.vote_host {
            Field::Absent => None,
            Field::Given(s) => Some(s),
            Field::Bad => {
                return Err(ConfigError::Malformed);
            },
        };
        let enabled: Option<bool> = match doc.enabled {
            Field::Absent => None,
            Field::Given(b) => Some(b),
            Field::Bad => {
                return Err(ConfigError::Malformed);
            },
        };
        Some(TvsServerConfig::from_parts(vote_port, vote_host, enabled))
    } else {
        None
    };
    Ok(
        TvsNodeConfig {
            tfs: AppConfig {
                server: ServerConfig { cluster_message_port, app_port, admin_port },
                node_name,
            },
            tvs,
        },
    )
}

/// What parsing a configuration text yields: `Malformed` when the JSON
/// parser rejects the text, else the assembly of the fields it gives —
/// a function of the text alone.
pub open spec fn spec_read_config(s: Seq<char>) -> Result<TvsNodeConfigV, ConfigError> {
    match raw_doc_of(s) {
        Some(d) => spec_assemble(d),
        None => Err(ConfigError::Malformed),
    }
}

impl TvsNodeConfig {
    /// Parse a configuration document: the text goes through the JSON
    /// parser, and the fields of its tree are assembled under the schema.
    /// The result is a function of the text alone, and the call fails,
    /// with `Malformed`, exactly when the parser rejects the text or some
    /// field breaks the schema. That the text could not be read at all is
    /// the caller's `Unreadable` case.
    pub fn read_config(text: &str) -> (r: Result<TvsNodeConfig, ConfigError>)
        ensures
            view_config_result(r) == spec_read_config(text@),
            r is Err ==> r == Err::<TvsNodeConfig, ConfigError>(ConfigError::Malformed),
    {
        match parse_json_text(text) {
            None => Err(ConfigError::Malformed),
            Some(root) => assemble_config(extract_doc(&root)),
        }
    }
}

/// What resolving a configuration text under an environment snapshot
/// yields: the parsed configuration with the overrides applied on top, or
/// the text's error.
pub open spec fn spec_resolve(s: Seq<char>, env: EnvSnapshotV) -> Result<
    TvsNodeConfigV,
    ConfigError,
> {
    match spec_read_config(s) {
        Ok(c) => Ok(spec_apply_env(c, env)),
        Err(e) => Err(e),
    }
}

impl TvsNodeConfig {
    /// Resolve the layered configuration in one call: parse the document,
    /// then apply the environment overrides on top.
    pub fn resolve(text: &str, env: &EnvSnapshot) -> (r: Result<TvsNodeConfig, ConfigError>)
        ensures
            view_config_result(r) == spec_resolve(text@, env@),
            r is Err ==> r == Err::<TvsNodeConfig, ConfigError>(ConfigError::Malformed),
    {
        match Self::read_config(text) {
            Ok(mut c) => {
                let ghost before = c@;
                proof {
                    assert(spec_read_config(text@) == Ok::<TvsNodeConfigV, ConfigError>(before));
                }
                c.apply_env_overrides(env);
                proof {
                    assert(c@ == spec_apply_env(before, env@));
                }
                Ok(c)
            },
            Err(e) => Err(e),
        }
    }
}

/// Resolution is a function of the document text and the environment
/// snapshot alone: resolving the same file and environment snapshot twice
/// yields identical configurations.
pub proof fn lemma_resolution_deterministic(
    s: Seq<char>,
    env: EnvSnapshotV,
    r1: Result<TvsNodeConfigV, ConfigError>,
    r2: Result<TvsNodeConfigV, ConfigError>,
)
    requires
        r1 == spec_resolve(s, env),
        r2 == spec_resolve(s, env),
    ensures
        r1 == r2,
{
}

/// A document whose `tvs` section is fully populated resolves to a
/// vote-server section holding exactly the values the document gives.
pub proof fn lemma_full_tvs_section_exact(d: RawDocV, port: u16, host: Seq<char>, enabled: bool)
    requires
        spec_doc_ok(d),
        d.tvs_present,
        d.vote_port == Field::<u64>::Given(port as u64),
        d.vote_host == Field::<Seq<char>>::Given(host),
        d.enabled == Field::<bool>::Given(enabled),
    ensures
        spec_assemble(d) is Ok,
        spec_doc_config(d).tvs == Some(
            TvsServerConfigV { vote_port: port, vote_host: host, enabled },
        ),
{
}

/// A document whose `tvs` section is present but empty resolves to the
/// fully defaulted vote-server section.
pub proof fn lemma_empty_tvs_section_defaults(d: RawDocV)
    requires
        spec_doc_ok(d),
        d.tvs_present,
        d.vote_port == Field::<u64>::Absent,
        d.vote_host == Field::<Seq<char>>::Absent,
        d.enabled == Field::<bool>::Absent,
    ensures
        spec_assemble(d) is Ok,
        spec_doc_config(d).tvs == Some(spec_default_tvs()),
{
}

/// A document lacking the `tvs` section entirely resolves to a
/// configuration with no vote-server section, and no vote-server
/// configuration is considered active for it.
pub proof fn lemma_missing_tvs_section_inactive(d: RawDocV)
    requires
        spec_doc_ok(d),
        !d.tvs_present,
    ensures
        spec_assemble(d) is Ok,
        spec_doc_config(d).tvs is None,
        spec_active_tvs(spec_doc_config(d)) is None,
{
}

} // verus!
