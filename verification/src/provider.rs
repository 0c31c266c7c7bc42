//! Types shared by messaging providers: errors, capabilities, render plans
//! and payloads.

use vstd::prelude::*;
use vstd::string::*;
use crate::json::Json;
use crate::text::copy_str;

verus! {

/// Common error type providers can reuse to surface failures.
#[derive(Debug, PartialEq, Eq)]
pub enum ProviderError {
    Validation(String),
    Transport(String),
    MissingSecret { name: String, scope: String, remediation: String },
    Other(String),
}

/// The display text of an error.
pub open spec fn error_text(e: ProviderError) -> Seq<char> {
    match e {
        ProviderError::Validation(m) => "validation error: "@ + m@,
        ProviderError::Transport(m) => "transport error: "@ + m@,
        ProviderError::MissingSecret { name, scope, .. } => "missing secret: "@ + name@
            + " (scope: "@ + scope@ + ")"@,
        ProviderError::Other(m) => "unknown provider error: "@ + m@,
    }
}

impl ProviderError {
    pub fn validation(msg: &str) -> (r: Self)
        ensures
            r matches ProviderError::Validation(m) && m@ == msg@,
    {
        ProviderError::Validation(copy_str(msg))
    }

    pub fn transport(msg: &str) -> (r: Self)
        ensures
            r matches ProviderError::Transport(m) && m@ == msg@,
    {
        ProviderError::Transport(copy_str(msg))
    }

    pub fn other(msg: &str) -> (r: Self)
        ensures
            r matches ProviderError::Other(m) && m@ == msg@,
    {
        ProviderError::Other(copy_str(msg))
    }

    /// A missing tenant secret, with a remediation hint naming it.
    pub fn missing_secret(name: &str) -> (r: Self)
        ensures
            r matches ProviderError::MissingSecret { name: n, scope, remediation } && n@ == name@
                && scope@ == "tenant"@ && remediation@ == "Provide the `"@ + name@
                + "` secret via greentic:secrets-store for this tenant."@,
    {
        let mut remediation = String::from_str("Provide the `");
        remediation.append(name);
        remediation.append("` secret via greentic:secrets-store for this tenant.");
        ProviderError::MissingSecret {
            name: copy_str(name),
            scope: String::from_str("tenant"),
            remediation,
        }
    }

    /// The error's display text.
    pub fn to_string(&self) -> (r: String)
        ensures
            r@ == error_text(*self),
    {
        match self {
            ProviderError::Validation(m) => {
                let mut s = String::from_str("validation error: ");
                s.append(m.as_str());
                s
            },
            ProviderError::Transport(m) => {
                let mut s = String::from_str("transport error: ");
                s.append(m.as_str());
                s
            },
            ProviderError::MissingSecret { name, scope, .. } => {
                let mut s = String::from_str("missing secret: ");
                s.append(name.as_str());
                s.append(" (scope: ");
                s.append(scope.as_str());
                s.append(")");
                s
            },
            ProviderError::Other(m) => {
                let mut s = String::from_str("unknown provider error: ");
                s.append(m.as_str());
                s
            },
        }
    }
}

pub const PROVIDER_CAPABILITIES_VERSION: &'static str = "v1";

#[derive(Debug, Clone, Copy, PartialEq, Eq)]
pub struct ProviderCapabilitiesV1 {
    pub supports_threads: bool,
    pub supports_buttons: bool,
    pub supports_webhook_validation: bool,
    pub supports_formatting_options: bool,
}

#[derive(Debug, Clone, Copy, PartialEq, Eq)]
pub struct ProviderLimitsV1 {
    pub max_text_len: u32,
    pub callback_data_max_bytes: u32,
    pub max_buttons_per_row: u32,
    pub max_button_rows: u32,
}

#[derive(Debug, Clone, PartialEq, Eq)]
pub struct ProviderMetadataV1 {
    pub provider_id: String,
    pub display_name: String,
    pub version: String,
    pub rate_limit_hint: Option<String>,
}

#[derive(Debug, Clone, PartialEq, Eq)]
pub struct CapabilitiesResponseV1 {
    pub version: String,
    pub metadata: ProviderMetadataV1,
    pub capabilities: ProviderCapabilitiesV1,
    pub limits: ProviderLimitsV1,
}

impl CapabilitiesResponseV1 {
    /// A response of the current capabilities version.
    pub fn new(
        metadata: ProviderMetadataV1,
        capabilities: ProviderCapabilitiesV1,
        limits: ProviderLimitsV1,
    ) -> (r: Self)
        ensures
            r.version@ == PROVIDER_CAPABILITIES_VERSION@,
            r.metadata == metadata,
            r.capabilities == capabilities,
            r.limits == limits,
    {
        Self { version: copy_str(PROVIDER_CAPABILITIES_VERSION), metadata, capabilities, limits }
    }
}

#[derive(Debug, Clone, Copy, PartialEq, Eq, Structural)]
pub enum RenderTier {
    TierA,
    TierB,
    TierC,
    TierD,
}

#[derive(Debug, Clone, PartialEq, Eq)]
pub struct RenderWarning {
    pub code: String,
    pub message: Option<String>,
    pub path: Option<String>,
}

#[derive(Debug)]
pub struct RenderPlan {
    pub tier: RenderTier,
    pub summary_text: Option<String>,
    pub actions: Vec<String>,
    pub attachments: Vec<String>,
    pub warnings: Vec<RenderWarning>,
    pub debug: Option<Json>,
}

#[derive(Debug)]
pub struct ProviderPayload {
    /// MIME type for the body (e.g., application/json, text/plain).
    pub content_type: String,
    /// Transport-ready bytes for the provider edge.
    pub body: Vec<u8>,
    /// Optional metadata to drive edge handling (ids, headers, etc.).
    pub metadata: Option<Vec<(String, Json)>>,
}

#[derive(Debug)]
pub struct EncodeResult {
    pub payload: ProviderPayload,
    pub warnings: Vec<RenderWarning>,
}

} // verus!
