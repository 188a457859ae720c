//! The subscription endpoint: output formats and the Clash provider link.
use vstd::prelude::*;

use crate::server::error::ApiError;
use crate::text::{ascii_lower, ascii_lower_eq};

verus! {

/// The query of a subscription request.
#[derive(Debug, Clone)]
pub struct SubscribeQuery {
    pub format: Option<String>,
}

/// An output format of a subscription.
#[derive(Debug, Clone, Copy, PartialEq, Eq, Structural)]
pub enum OutputFormat {
    /// Clash YAML: the template plus a provider that points at the V2Ray
    /// output of the same subscription.
    Clash,
    /// V2Ray: node URIs, base64-encoded or as plain lines.
    V2ray,
    /// Sing-box JSON.
    Singbox,
}

/// A name of the V2Ray format, in any ASCII case: `v2ray`, `v2r`, `base64`.
pub open spec fn v2ray_name(f: Seq<char>) -> bool {
    let l = ascii_lower(f);
    l == "v2ray"@ || l == "v2r"@ || l == "base64"@
}

/// A name of the Clash format, in any ASCII case: `clash`, `clashyaml`, `yaml`.
pub open spec fn clash_name(f: Seq<char>) -> bool {
    let l = ascii_lower(f);
    l == "clash"@ || l == "clashyaml"@ || l == "yaml"@
}

/// The format that a `format` parameter names; Clash where none is given.
pub open spec fn format_of(f: Option<Seq<char>>) -> Option<OutputFormat> {
    match f {
        None => Some(OutputFormat::Clash),
        Some(t) => if clash_name(t) {
            Some(OutputFormat::Clash)
        } else if v2ray_name(t) {
            Some(OutputFormat::V2ray)
        } else if ascii_lower(t) == "singbox"@ {
            Some(OutputFormat::Singbox)
        } else {
            None
        },
    }
}

/// The address of the V2Ray output of `name` at `host`, which a Clash
/// subscription names as its provider.
pub open spec fn provider_url_of(host: Seq<char>, name: Seq<char>) -> Seq<char> {
    "http://"@ + host + "/subscribe/"@ + name + "?format=v2ray"@
}

/// A name of the V2Ray format.
pub fn valid_v2ray_format(f: &str) -> (r: bool)
    ensures
        r == v2ray_name(f@),
{
    ascii_lower_eq(f, "v2ray") || ascii_lower_eq(f, "v2r") || ascii_lower_eq(f, "base64")
}

/// The format that a request asks for; 400 `unsupported format` for an
/// unknown name.
pub fn parse_format(f: Option<&str>) -> (r: Result<OutputFormat, ApiError>)
    ensures
        match format_of(
            match f {
                Some(t) => Some(t@),
                None => None,
            },
        ) {
            Some(k) => r == Ok::<OutputFormat, ApiError>(k),
            None => r matches Err(e) && e.is(400, "bad_request"@, "unsupported format"@),
        },
{
    match f {
        None => Ok(OutputFormat::Clash),
        Some(t) => {
            if ascii_lower_eq(t, "clash") || ascii_lower_eq(t, "clashyaml") || ascii_lower_eq(
                t,
                "yaml",
            ) {
                Ok(OutputFormat::Clash)
            } else if valid_v2ray_format(t) {
                Ok(OutputFormat::V2ray)
            } else if ascii_lower_eq(t, "singbox") {
                Ok(OutputFormat::Singbox)
            } else {
                Err(ApiError::bad_request("unsupported format"))
            }
        },
    }
}

/// The provider address of a Clash subscription; 400 where the request
/// names no host.
pub fn provider_url(host: Option<&str>, name: &str) -> (r: Result<String, ApiError>)
    ensures
        match host {
            Some(h) => r matches Ok(u) && u@ == provider_url_of(h@, name@),
            None => r matches Err(e) && e.is(400, "bad_request"@, "missing Host header"@),
        },
{
    match host {
        Some(h) => {
            let mut u = String::from_str("http://");
            u.append(h);
            u.append("/subscribe/");
            u.append(name);
            u.append("?format=v2ray");
            Ok(u)
        },
        None => Err(ApiError::bad_request("missing Host header")),
    }
}

} // verus!
