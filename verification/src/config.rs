//! The layered configuration of a node: a structured document gives the
//! primary-server settings and an optional secondary (vote) server section;
//! environment overrides are applied afterwards and take precedence; every
//! optional field of the vote section has a compiled default.

use vstd::prelude::*;

use crate::numeric::spec_parse_u16;
use crate::numeric::parse_u16;

verus! {

/// Ports of the primary application server.
#[derive(Clone, Copy, Debug, PartialEq, Eq, Structural)]
pub struct ServerConfig {
    pub cluster_message_port: u16,
    pub app_port: u16,
    pub admin_port: u16,
}

/// Settings of the primary application server: its ports and the optional
/// node name.
#[derive(Clone, Debug)]
pub struct AppConfig {
    pub server: ServerConfig,
    pub node_name: Option<String>,
}

/// Mathematical value of an [`AppConfig`].
pub ghost struct AppConfigV {
    pub server: ServerConfig,
    pub node_name: Option<Seq<char>>,
}

/// Configuration of the secondary vote server.
#[derive(Clone, Debug)]
pub struct TvsServerConfig {
    /// Port for the vote server.
    pub vote_port: u16,
    /// Host for the vote server.
    pub vote_host: String,
    /// Whether the vote server is started at all.
    pub enabled: bool,
}

/// Mathematical value of a [`TvsServerConfig`].
pub ghost struct TvsServerConfigV {
    pub vote_port: u16,
    pub vote_host: Seq<char>,
    pub enabled: bool,
}

/// The whole resolved configuration of a node.
#[derive(Clone, Debug)]
pub struct TvsNodeConfig {
    /// Primary-server settings.
    pub tfs: AppConfig,
    /// Secondary vote-server section, absent when the document has none.
    pub tvs: Option<TvsServerConfig>,
}

/// Mathematical value of a [`TvsNodeConfig`].
pub ghost struct TvsNodeConfigV {
    pub tfs: AppConfigV,
    pub tvs: Option<TvsServerConfigV>,
}

/// View of an optional string as an optional character sequence.
pub open spec fn view_opt_string(o: Option<String>) -> Option<Seq<char>> {
    match o {
        Some(s) => Some(s@),
        None => None,
    }
}

impl View for AppConfig {
    type V = AppConfigV;

    open spec fn view(&self) -> AppConfigV {
        AppConfigV { server: self.server, node_name: view_opt_string(self.node_name) }
    }
}

impl View for TvsServerConfig {
    type V = TvsServerConfigV;

    open spec fn view(&self) -> TvsServerConfigV {
        TvsServerConfigV {
            vote_port: self.vote_port,
            vote_host: self.vote_host@,
            enabled: self.enabled,
        }
    }
}

/// View of an optional vote-server section.
pub open spec fn view_opt_tvs(o: Option<TvsServerConfig>) -> Option<TvsServerConfigV> {
    match o {
        Some(t) => Some(t@),
        None => None,
    }
}

impl View for TvsNodeConfig {
    type V = TvsNodeConfigV;

    open spec fn view(&self) -> TvsNodeConfigV {
        TvsNodeConfigV { tfs: self.tfs@, tvs: view_opt_tvs(self.tvs) }
    }
}

/// Default port of the secondary vote server.
pub fn default_vote_port() -> (r: u16)
    ensures
        r == 8090u16,
{
    8090
}

/// Default host of the secondary vote server.
pub fn default_vote_host() -> (r: String)
    ensures
        r@ == "127.0.0.1"@,
{
    "127.0.0.1".to_owned()
}

/// By default the secondary vote server is enabled whenever its section is
/// present in the document.
pub fn default_enabled() -> (r: bool)
    ensures
        r == true,
{
    true
}

/// The fully defaulted vote-server section.
pub open spec fn spec_default_tvs() -> TvsServerConfigV {
    TvsServerConfigV { vote_port: 8090u16, vote_host: "127.0.0.1"@, enabled: true }
}

impl Default for TvsServerConfig {
    /// The vote-server section with every field at its compiled default.
    fn default() -> (r: Self)
        ensures
            r@ == spec_default_tvs(),
    {
        TvsServerConfig { vote_port: 8090, vote_host: "127.0.0.1".to_owned(), enabled: true }
    }
}

/// How a vote-server section is built from the fields a document gives:
/// each absent field falls back to its compiled default.
pub open spec fn spec_tvs_from_parts(
    port: Option<u16>,
    host: Option<Seq<char>>,
    enabled: Option<bool>,
) -> TvsServerConfigV {
    TvsServerConfigV {
        vote_port: match port {
            Some(p) => p,
            None => 8090u16,
        },
        vote_host: match host {
            Some(h) => h,
            None => "127.0.0.1"@,
        },
        enabled: match enabled {
            Some(e) => e,
            None => true,
        },
    }
}

impl TvsServerConfig {
    /// Build a vote-server section from the fields a document gives. A field
    /// that is present is taken exactly as given; an absent one gets its
    /// compiled default.
    pub fn from_parts(port: Option<u16>, host: Option<String>, enabled: Option<bool>) -> (r: Self)
        ensures
            r@ == spec_tvs_from_parts(port, view_opt_string(host), enabled),
    {
        let vote_port: u16 = match port {
            Some(p) => p,
            None => default_vote_port(),
        };
        let vote_host: String = match host {
            Some(h) => h,
            None => default_vote_host(),
        };
        let enabled_val: bool = match enabled {
            Some(e) => e,
            None => default_enabled(),
        };
        TvsServerConfig { vote_port, vote_host, enabled: enabled_val }
    }
}

/// The vote-server section that is active: present and enabled.
pub open spec fn spec_active_tvs(c: TvsNodeConfigV) -> Option<TvsServerConfigV> {
    match c.tvs {
        Some(t) => if t.enabled {
            Some(t)
        } else {
            None
        },
        None => None,
    }
}

impl TvsNodeConfig {
    /// The primary-server settings.
    pub fn tfs_config(&self) -> (r: &AppConfig)
        ensures
            r@ == self@.tfs,
    {
        &self.tfs
    }

    /// The vote-server section, but only when it is present and enabled.
    pub fn tvs_config(&self) -> (r: Option<&TvsServerConfig>)
        ensures
            match r {
                Some(t) => spec_active_tvs(self@) == Some(t@),
                None => spec_active_tvs(self@) is None,
            },
    {
        match &self.tvs {
            Some(t) => if t.enabled {
                Some(t)
            } else {
                None
            },
            None => None,
        }
    }

    /// Whether the secondary vote server is considered active by the
    /// configuration alone: its section is present and enabled.
    pub fn should_start_vote_server(&self) -> (r: bool)
        ensures
            r == (spec_active_tvs(self@) is Some),
    {
        match &self.tvs {
            Some(t) => t.enabled,
            None => false,
        }
    }
}

/// A snapshot of the environment variables the node honours. Each field is
/// the raw value of one variable, or absent when the variable is not set.
#[derive(Clone, Debug)]
pub struct EnvSnapshot {
    pub cluster_message_port: Option<String>,
    pub app_port: Option<String>,
    pub admin_port: Option<String>,
    pub node_name: Option<String>,
    pub tvs_vote_host: Option<String>,
    pub tvs_vote_port: Option<String>,
    pub tvs_root_url: Option<String>,
}

/// Mathematical value of an [`EnvSnapshot`].
pub ghost struct EnvSnapshotV {
    pub cluster_message_port: Option<Seq<char>>,
    pub app_port: Option<Seq<char>>,
    pub admin_port: Option<Seq<char>>,
    pub node_name: Option<Seq<char>>,
    pub tvs_vote_host: Option<Seq<char>>,
    pub tvs_vote_port: Option<Seq<char>>,
    pub tvs_root_url: Option<Seq<char>>,
}

impl View for EnvSnapshot {
    type V = EnvSnapshotV;

    open spec fn view(&self) -> EnvSnapshotV {
        EnvSnapshotV {
            cluster_message_port: view_opt_string(self.cluster_message_port),
            app_port: view_opt_string(self.app_port),
            admin_port: view_opt_string(self.admin_port),
            node_name: view_opt_string(self.node_name),
            tvs_vote_host: view_opt_string(self.tvs_vote_host),
            tvs_vote_port: view_opt_string(self.tvs_vote_port),
            tvs_root_url: view_opt_string(self.tvs_root_url),
        }
    }
}

impl EnvSnapshot {
    /// A snapshot in which no variable is set.
    pub fn empty() -> (r: Self)
        ensures
            r@ == (EnvSnapshotV {
                cluster_message_port: None,
                app_port: None,
                admin_port: None,
                node_name: None,
                tvs_vote_host: None,
                tvs_vote_port: None,
                tvs_root_url: None,
            }),
    {
        EnvSnapshot {
            cluster_message_port: None,
            app_port: None,
            admin_port: None,
            node_name: None,
            tvs_vote_host: None,
            tvs_vote_port: None,
            tvs_root_url: None,
        }
    }
}

/// An override of a port: the raw value replaces the current one only when
/// it is present and parses as a decimal `u16`; otherwise the current value
/// stands untouched.
pub open spec fn spec_override_u16(cur: u16, raw: Option<Seq<char>>) -> u16 {
    match raw {
        Some(s) => match spec_parse_u16(s) {
            Some(p) => p,
            None => cur,
        },
        None => cur,
    }
}

/// An override of a string value: any present raw value replaces it.
pub open spec fn spec_override_string(cur: Seq<char>, raw: Option<Seq<char>>) -> Seq<char> {
    match raw {
        Some(s) => s,
        None => cur,
    }
}

/// An override of an optional name: a present raw value makes it set.
pub open spec fn spec_override_name(
    cur: Option<Seq<char>>,
    raw: Option<Seq<char>>,
) -> Option<Seq<char>> {
    match raw {
        Some(s) => Some(s),
        None => cur,
    }
}

/// The configuration after the environment overrides, in their fixed order:
/// cluster message port, application port, admin port, vote host, vote port,
/// node name. Each override is independent; one that is absent or does not
/// parse leaves its field untouched.
pub open spec fn spec_apply_env(c: TvsNodeConfigV, env: EnvSnapshotV) -> TvsNodeConfigV {
    TvsNodeConfigV {
        tfs: AppConfigV {
            server: ServerConfig {
                cluster_message_port: spec_override_u16(
                    c.tfs.server.cluster_message_port,
                    env.cluster_message_port,
                ),
                app_port: spec_override_u16(c.tfs.server.app_port, env.app_port),
                admin_port: spec_override_u16(c.tfs.server.admin_port, env.admin_port),
            },
            node_name: spec_override_name(c.tfs.node_name, env.node_name),
        },
        tvs: match c.tvs {
            Some(t) => Some(
                TvsServerConfigV {
                    vote_port: spec_override_u16(t.vote_port, env.tvs_vote_port),
                    vote_host: spec_override_string(t.vote_host, env.tvs_vote_host),
                    enabled: t.enabled,
                },
            ),
            None => None,
        },
    }
}

/// An override never partially corrupts a field: a present value that does
/// not parse as a port leaves the prior value exactly as it was, while a
/// parsable one replaces it entirely.
pub proof fn lemma_override_all_or_nothing(cur: u16, raw: Seq<char>)
    ensures
        spec_parse_u16(raw) is None ==> spec_override_u16(cur, Some(raw)) == cur,
        spec_parse_u16(raw) matches Some(p) ==> spec_override_u16(cur, Some(raw)) == p,
{
}

impl TvsNodeConfig {
    /// Apply the environment overrides from `env` on top of this
    /// configuration. Overrides take precedence over document values, but a
    /// missing or unparsable value leaves the underlying field untouched.
    pub fn apply_env_overrides(&mut self, env: &EnvSnapshot)
        ensures
            final(self)@ == spec_apply_env(old(self)@, env@),
    {
        if let Some(s) = &env.cluster_message_port {
            if let Some(p) = parse_u16(s.as_str()) {
                self.tfs.server.cluster_message_port = p;
            }
        }
        if let Some(s) = &env.app_port {
            if let Some(p) = parse_u16(s.as_str()) {
                self.tfs.server.app_port = p;
            }
        }
        if let Some(s) = &env.admin_port {
            if let Some(p) = parse_u16(s.as_str()) {
                self.tfs.server.admin_port = p;
            }
        }
        if let Some(t) = &mut self.tvs {
            if let Some(h) = &env.tvs_vote_host {
                t.vote_host = h.clone();
            }
            if let Some(s) = &env.tvs_vote_port {
                if let Some(p) = parse_u16(s.as_str()) {
                    t.vote_port = p;
                }
            }
        }
        if let Some(n) = &env.node_name {
            self.tfs.node_name = Some(n.clone());
        }
    }
}

} // verus!
