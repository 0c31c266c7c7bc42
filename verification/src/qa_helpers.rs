//! Generic QA results shared by all providers.
//!
//! Each provider has its own configuration type, so [`ApplyAnswersResult`]
//! is generic over the configuration `C`; a configuration is written to JSON
//! through [`ConfigJson`].

use vstd::prelude::*;
use crate::json::{member_views, opt_str_jv, push_member, str_array_json, str_array_jv, Json, JV};
use crate::plan::opt_view;
use crate::text::{copy_str, views};

verus! {

/// A configuration that can be written as a JSON value.
pub trait ConfigJson {
    /// The JSON value of the configuration.
    spec fn config_jv(&self) -> JV;

    fn to_json(&self) -> (r: Json)
        ensures
            r@ == self.config_jv(),
    ;
}

impl ConfigJson for Json {
    open spec fn config_jv(&self) -> JV {
        self@
    }

    fn to_json(&self) -> (r: Json) {
        self.duplicate()
    }
}

/// The QA modes of the component interface.
#[derive(Debug, Clone, Copy, PartialEq, Eq, Structural)]
pub enum QaMode {
    Default,
    Setup,
    Upgrade,
    Remove,
}

/// The name of a mode.
pub open spec fn mode_text(m: QaMode) -> Seq<char> {
    match m {
        QaMode::Default => "default"@,
        QaMode::Setup => "setup"@,
        QaMode::Upgrade => "upgrade"@,
        QaMode::Remove => "remove"@,
    }
}

impl QaMode {
    /// The name of the mode.
    pub fn as_str(&self) -> (r: &'static str)
        ensures
            r@ == mode_text(*self),
    {
        match self {
            QaMode::Default => "default",
            QaMode::Setup => "setup",
            QaMode::Upgrade => "upgrade",
            QaMode::Remove => "remove",
        }
    }
}

/// The standard cleanup steps used by most providers on remove.
pub open spec fn default_remove_cleanup_spec() -> Seq<Seq<char>> {
    seq![
        "delete_config_key"@,
        "delete_provenance_key"@,
        "delete_provider_state_namespace"@,
        "best_effort_revoke_webhooks"@,
        "best_effort_revoke_tokens"@,
        "best_effort_delete_provider_owned_secrets"@,
    ]
}

/// The standard cleanup steps used by most providers on remove.
pub fn default_remove_cleanup() -> (r: Vec<String>)
    ensures
        views(r@) == default_remove_cleanup_spec(),
{
    let mut r: Vec<String> = Vec::new();
    r.push(copy_str("delete_config_key"));
    r.push(copy_str("delete_provenance_key"));
    r.push(copy_str("delete_provider_state_namespace"));
    r.push(copy_str("best_effort_revoke_webhooks"));
    r.push(copy_str("best_effort_revoke_tokens"));
    r.push(copy_str("best_effort_delete_provider_owned_secrets"));
    assert(views(r@) =~= default_remove_cleanup_spec());
    r
}

/// Describes what to clean up when removing a provider.
#[derive(Debug, Clone)]
pub struct RemovePlan {
    pub remove_all: bool,
    pub cleanup: Vec<String>,
}

pub open spec fn remove_members(remove_all: bool, cleanup: Seq<Seq<char>>) -> Seq<(Seq<char>, JV)> {
    seq![("remove_all"@, JV::Bool(remove_all)), ("cleanup"@, str_array_jv(cleanup))]
}

/// `{"remove_all": .., "cleanup": [..]}`.
pub open spec fn remove_jv(remove_all: bool, cleanup: Seq<Seq<char>>) -> JV {
    JV::Object(remove_members(remove_all, cleanup))
}

impl RemovePlan {
    pub fn to_json(&self) -> (r: Json)
        ensures
            r@ == remove_jv(self.remove_all, views(self.cleanup@)),
    {
        let mut m: Vec<(String, Json)> = Vec::new();
        push_member(&mut m, "remove_all", Json::Bool(self.remove_all));
        push_member(&mut m, "cleanup", str_array_json(&self.cleanup));
        assert(member_views(m@) =~= remove_members(self.remove_all, views(self.cleanup@)));
        Json::Object(m)
    }
}

/// Result of `apply_answers`, generic over the provider config type.
#[derive(Debug, Clone)]
pub struct ApplyAnswersResult<C> {
    pub ok: bool,
    pub config: Option<C>,
    pub remove: Option<RemovePlan>,
    pub diagnostics: Vec<String>,
    pub error: Option<String>,
}

pub open spec fn apply_members(
    ok: bool,
    config: Option<JV>,
    remove: Option<JV>,
    diagnostics: Seq<Seq<char>>,
    error: Option<Seq<char>>,
) -> Seq<(Seq<char>, JV)> {
    seq![
        ("ok"@, JV::Bool(ok)),
        ("config"@, match config { Some(c) => c, None => JV::Null }),
        ("remove"@, match remove { Some(p) => p, None => JV::Null }),
        ("diagnostics"@, str_array_jv(diagnostics)),
        ("error"@, opt_str_jv(error)),
    ]
}

/// The JSON object of an apply-answers result.
pub open spec fn apply_jv(
    ok: bool,
    config: Option<JV>,
    remove: Option<JV>,
    diagnostics: Seq<Seq<char>>,
    error: Option<Seq<char>>,
) -> JV {
    JV::Object(apply_members(ok, config, remove, diagnostics, error))
}

/// The JSON of a successful result holding a configuration.
pub open spec fn success_jv(config: JV) -> JV {
    apply_jv(true, Some(config), None, Seq::empty(), None)
}

/// The JSON of a remove result with cleanup steps.
pub open spec fn removal_jv(cleanup: Seq<Seq<char>>) -> JV {
    apply_jv(true, None, Some(remove_jv(true, cleanup)), Seq::empty(), None)
}

/// The JSON of a failed result with an error.
pub open spec fn failure_jv(error: Seq<char>) -> JV {
    apply_jv(false, None, None, Seq::empty(), Some(error))
}

impl<C> ApplyAnswersResult<C> {
    /// A successful result with the merged config.
    pub fn success(config: C) -> (r: Self)
        ensures
            r.ok,
            r.config == Some(config),
            r.remove is None,
            r.diagnostics@.len() == 0,
            r.error is None,
    {
        Self { ok: true, config: Some(config), remove: None, diagnostics: Vec::new(), error: None }
    }

    /// A remove result with the given cleanup steps.
    pub fn remove(cleanup: Vec<String>) -> (r: Self)
        ensures
            r.ok,
            r.config is None,
            r.remove matches Some(p) && p.remove_all && p.cleanup@ == cleanup@,
            r.diagnostics@.len() == 0,
            r.error is None,
    {
        Self {
            ok: true,
            config: None,
            remove: Some(RemovePlan { remove_all: true, cleanup }),
            diagnostics: Vec::new(),
            error: None,
        }
    }

    /// A remove result using the default cleanup steps.
    pub fn remove_default() -> (r: Self)
        ensures
            r.ok,
            r.config is None,
            r.remove matches Some(p) && p.remove_all && views(p.cleanup@)
                == default_remove_cleanup_spec(),
            r.diagnostics@.len() == 0,
            r.error is None,
    {
        Self::remove(default_remove_cleanup())
    }

    /// A validation error (config was invalid).
    pub fn validation_error(error: String) -> (r: Self)
        ensures
            !r.ok,
            r.config is None,
            r.remove is None,
            r.diagnostics@.len() == 0,
            r.error == Some(error),
    {
        Self { ok: false, config: None, remove: None, diagnostics: Vec::new(), error: Some(error) }
    }

    /// A decode error (input CBOR was invalid).
    pub fn decode_error(err: String) -> (r: Self)
        ensures
            !r.ok,
            r.config is None,
            r.remove is None,
            r.diagnostics@.len() == 0,
            r.error == Some(err),
    {
        Self { ok: false, config: None, remove: None, diagnostics: Vec::new(), error: Some(err) }
    }
}

impl<C: ConfigJson> ApplyAnswersResult<C> {
    /// The JSON value of the config, if any.
    pub open spec fn config_value(&self) -> Option<JV> {
        match self.config {
            Some(c) => Some(c.config_jv()),
            None => None,
        }
    }

    /// The JSON value of the remove plan, if any.
    pub open spec fn remove_value(&self) -> Option<JV> {
        match self.remove {
            Some(p) => Some(remove_jv(p.remove_all, views(p.cleanup@))),
            None => None,
        }
    }

    /// The JSON value of the whole result.
    pub open spec fn result_jv(&self) -> JV {
        apply_jv(
            self.ok,
            self.config_value(),
            self.remove_value(),
            views(self.diagnostics@),
            opt_view(self.error),
        )
    }

    /// Writes the result as a JSON object.
    pub fn to_json(&self) -> (r: Json)
        ensures
            r@ == self.result_jv(),
    {
        let config = match &self.config {
            Some(c) => c.to_json(),
            None => Json::Null,
        };
        let remove = match &self.remove {
            Some(p) => p.to_json(),
            None => Json::Null,
        };
        let mut m: Vec<(String, Json)> = Vec::new();
        push_member(&mut m, "ok", Json::Bool(self.ok));
        push_member(&mut m, "config", config);
        push_member(&mut m, "remove", remove);
        push_member(&mut m, "diagnostics", str_array_json(&self.diagnostics));
        push_member(&mut m, "error", crate::json::opt_str_json(&self.error));
        assert(member_views(m@) =~= apply_members(
            self.ok,
            self.config_value(),
            self.remove_value(),
            views(self.diagnostics@),
            opt_view(self.error),
        ));
        Json::Object(m)
    }
}

} // verus!
