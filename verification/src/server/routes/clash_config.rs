//! The Clash configuration template: its default, its checks, and where a
//! subscription in Clash format takes it from.
use vstd::prelude::*;

use crate::server::error::ApiError;

verus! {

/// The settings key under which the template is stored.
pub const TEMPLATE_KEY: &'static str = "clash_template";

/// The template used until an admin stores another one: general settings,
/// DNS, rule providers and rules, without the providers and proxy groups that
/// a subscription adds.
pub const DEFAULT_TEMPLATE: &'static str = "mixed-port: 7890\nallow-lan: false\nmode: rule\nlog-level: info\n\nipv6: false\n\ndns:\n  enable: true\n  listen: 0.0.0.0:53\n  ipv6: false\n  enhanced-mode: fake-ip\n  fake-ip-range: 198.18.0.1/16\n  fake-ip-filter:\n    - \"*.lan\"\n    - \"*.local\"\n    - \"+.msftconnecttest.com\"\n    - \"+.msftncsi.com\"\n    - \"time.*.com\"\n    - \"time.*.gov\"\n    - \"time.*.edu.cn\"\n    - \"*.ntp.org.cn\"\n    - \"*.pool.ntp.org\"\n    - \"time.cloudflare.com\"\n  nameserver:\n    - 119.29.29.29\n  fallback:\n    - 1.1.1.1\n  proxy-server-nameserver:\n    - 119.29.29.29\n  nameserver-policy:\n    \"geosite:cn\":\n      - 119.29.29.29\n  fallback-filter:\n    geoip: true\n    geoip-code: CN\n    ipcidr:\n      - 240.0.0.0/4\n\nrule-providers:\n  geosite-google:\n    type: http\n    behavior: domain\n    format: mrs\n    url: \"https://gh-proxy.org/https://github.com/MetaCubeX/meta-rules-dat/raw/meta/geo/geosite/google.mrs\"\n    path: ./ruleset/geosite-google.mrs\n    interval: 86400\n  geosite-youtube:\n    type: http\n    behavior: domain\n    format: mrs\n    url: \"https://gh-proxy.org/https://github.com/MetaCubeX/meta-rules-dat/raw/meta/geo/geosite/youtube.mrs\"\n    path: ./ruleset/geosite-youtube.mrs\n    interval: 86400\n  geosite-nodeseek:\n    type: http\n    behavior: domain\n    format: mrs\n    url: \"https://gh-proxy.org/https://github.com/MetaCubeX/meta-rules-dat/raw/meta/geo/geosite/nodeseek.mrs\"\n    path: ./ruleset/geosite-nodeseek.mrs\n    interval: 86400\n  geosite-cn:\n    type: http\n    behavior: domain\n    format: mrs\n    url: \"https://gh-proxy.org/https://github.com/MetaCubeX/meta-rules-dat/raw/meta/geo/geosite/cn.mrs\"\n    path: ./ruleset/geosite-cn.mrs\n    interval: 86400\n  geoip-cn:\n    type: http\n    behavior: ipcidr\n    format: mrs\n    url: \"https://gh-proxy.org/https://github.com/MetaCubeX/meta-rules-dat/raw/meta/geo/geoip/cn.mrs\"\n    path: ./ruleset/geoip-cn.mrs\n    interval: 86400\n\nrules:\n  - RULE-SET,geosite-google,节点选择\n  - RULE-SET,geosite-youtube,节点选择\n  - RULE-SET,geosite-nodeseek,节点选择\n  - RULE-SET,geosite-cn,DIRECT\n  - RULE-SET,geoip-cn,DIRECT\n  - MATCH,节点选择\n";

/// The outcome of reading `text` as YAML: whether its root is a mapping, or
/// the parser's error text.
pub uninterp spec fn yaml_root_check(text: Seq<char>) -> Result<bool, Seq<char>>;

/// The stored Clash template.
#[derive(Debug, Clone)]
pub struct ClashConfigDto {
    pub template: String,
}

/// A new Clash template.
#[derive(Debug, Clone)]
pub struct UpdateClashConfig {
    pub template: String,
}

/// `serde_yaml_ng::from_str::<Value>` then `Value::is_mapping`; the error's
/// text where the text is not YAML.
#[verifier::external_body]
fn yaml_mapping_root(text: &str) -> (r: Result<bool, String>)
    ensures
        match r {
            Ok(b) => yaml_root_check(text@) == Ok::<bool, Seq<char>>(b),
            Err(e) => yaml_root_check(text@) == Err::<bool, Seq<char>>(e@),
        },
{
    match serde_yaml_ng::from_str::<serde_yaml_ng::Value>(text) {
        Ok(v) => Ok(v.is_mapping()),
        Err(e) => Err(e.to_string()),
    }
}

/// The default template.
pub fn default_template() -> (r: String)
    ensures
        r@ == DEFAULT_TEMPLATE@,
{
    String::from_str(DEFAULT_TEMPLATE)
}

/// The template in effect: the stored one, else the default.
pub fn effective_template(stored: Option<String>) -> (r: String)
    ensures
        r@ == match stored {
            Some(t) => t@,
            None => DEFAULT_TEMPLATE@,
        },
{
    match stored {
        Some(t) => t,
        None => default_template(),
    }
}

/// The answer to a template that is refused, if it is: 400 `invalid YAML:
/// <error>` for text that is not YAML, 400 `template must be a YAML mapping`
/// for YAML whose root is not a mapping.
pub open spec fn template_problem(text: Seq<char>) -> Option<Seq<char>> {
    match yaml_root_check(text) {
        Err(e) => Some("invalid YAML: "@ + e),
        Ok(false) => Some("template must be a YAML mapping"@),
        Ok(true) => None,
    }
}

/// Checks a new template: it must be YAML whose root is a mapping.
pub fn check_template(text: &str) -> (r: Result<(), ApiError>)
    ensures
        match template_problem(text@) {
            None => r is Ok,
            Some(m) => r matches Err(e) && e.is(400, "bad_request"@, m),
        },
{
    match yaml_mapping_root(text) {
        Ok(true) => Ok(()),
        Ok(false) => Err(ApiError::bad_request("template must be a YAML mapping")),
        Err(e) => {
            let mut m = String::from_str("invalid YAML: ");
            m.append(e.as_str());
            Err(ApiError::bad_request(m.as_str()))
        },
    }
}

} // verus!
