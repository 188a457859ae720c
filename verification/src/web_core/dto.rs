//! Shapes of the admin API responses, as the UI reads them.
use std::collections::BTreeMap;
use vstd::prelude::*;

verus! {

/// A subscription source.
#[derive(Debug, Clone, PartialEq)]
pub struct SourceDto {
    pub id: i64,
    pub url: String,
    pub name: String,
    pub kind: String,
    pub created_at: String,
}

/// A combined subscription and the ids of its member sources.
#[derive(Debug, Clone)]
pub struct CombinedDto {
    pub id: i64,
    pub name: String,
    pub created_at: String,
    pub source_ids: Vec<i64>,
}

/// One node of a conversion preview.
#[derive(Debug, Clone)]
pub struct PreviewNode {
    pub name: String,
    pub protocol: String,
    pub server: String,
    pub port: u16,
}

/// A conversion preview: nodes, per-source errors and the node count.
#[derive(Debug, Clone)]
pub struct PreviewResp {
    pub nodes: Vec<PreviewNode>,
    pub errors: Vec<String>,
    pub total: usize,
}

/// Account settings.
#[derive(Debug, Clone)]
pub struct ConfigDto {
    pub username: String,
    pub v2ray_base64: bool,
}

/// The Clash configuration template.
#[derive(Debug, Clone)]
pub struct ClashConfigDto {
    pub template: String,
}

/// Aggregate statistics: nodes per protocol, errors, sources per kind.
#[derive(Debug, Clone, PartialEq)]
pub struct StatsDto {
    pub total_nodes: usize,
    pub protocol_counts: BTreeMap<String, usize>,
    pub errors: Vec<String>,
    pub sources: usize,
    pub kinds: BTreeMap<String, i64>,
}

} // verus!
