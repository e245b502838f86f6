//! The authenticated user's plan and credit balance.

use vstd::prelude::*;

verus! {

/// Plan and billing details of the authenticated user.
#[derive(Debug, Clone)]
pub struct SubscriptionPlan {
    pub status: String,
    pub billing_period: Option<String>,
    pub current_period_start: String,
    pub current_period_end: String,
    pub canceled_at: Option<String>,
    pub plan_name: String,
    pub plan_display_name: String,
    pub price_monthly: i64,
    pub price_annual: i64,
    pub monthly_credits: i64,
    pub max_projects: i64,
    pub max_storage_mb: i64,
    pub max_bandwidth_mb: i64,
    pub credit_rollover_months: i64,
    /// Free-form feature flags, carried as raw JSON.
    pub features: serde_json::Value,
}

/// Credit-balance snapshot.
#[derive(Debug, Clone)]
pub struct SubscriptionCredits {
    pub current: i64,
    pub rolled_over: i64,
    pub total: i64,
    pub rollover_expires_at: Option<String>,
    pub lifetime_used: i64,
}

/// Both halves are independently absent when there is no active
/// subscription data.
#[derive(Debug, Clone)]
pub struct CurrentSubscription {
    pub subscription: Option<SubscriptionPlan>,
    pub credits: Option<SubscriptionCredits>,
}

/// The path of the current subscription.
pub const SUBSCRIPTIONS_CURRENT_PATH: &'static str = "/api/v1/subscriptions/current";

} // verus!
