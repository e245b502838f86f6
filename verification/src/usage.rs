//! Current-period consumption of the authenticated user.

use vstd::prelude::*;

verus! {

#[derive(Debug, Clone)]
pub struct UsagePlan {
    pub name: String,
    pub display_name: String,
    pub monthly_credits: i64,
    pub max_projects: i64,
    pub max_storage_mb: i64,
    pub max_bandwidth_mb: i64,
}

#[derive(Debug, Clone)]
pub struct UsageCredits {
    pub current_credits: i64,
    pub rolled_over_credits: i64,
    pub lifetime_credits_used: i64,
    pub rollover_expires_at: Option<String>,
}

#[derive(Debug, Clone)]
pub struct UsageCurrentPeriod {
    pub start: String,
    pub end: String,
    pub projects_created: i64,
    pub builds_used: i64,
    pub refinements_used: i64,
    pub storage_used_mb: i64,
    pub bandwidth_used_mb: i64,
}

#[derive(Debug, Clone)]
pub struct UsageSummary {
    pub plan: UsagePlan,
    pub credits: UsageCredits,
    pub current_period: UsageCurrentPeriod,
}

/// The path of the usage summary.
pub const USAGE_SUMMARY_PATH: &'static str = "/api/v1/usage/summary";

} // verus!
