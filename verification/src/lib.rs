//! Client-side logic of the FloopFloop API SDK: the error taxonomy, request
//! paths, response interpretation, upload validation and the decisions that
//! drive status streaming. The HTTP transport that carries requests lives
//! outside this crate and hands its results to these functions.

pub mod api_keys;
pub mod config;
pub mod error;
pub mod json;
pub mod library;
pub mod paths;
pub mod projects;
pub mod secrets;
pub mod stream;
pub mod subdomains;
pub mod subscriptions;
pub mod text;
pub mod time;
pub mod transport;
pub mod uploads;
pub mod usage;
pub mod user;

pub use api_keys::{ApiKeySummary, CreateApiKeyInput, IssuedApiKey};
pub use config::VERSION;
pub use error::{FloopError, FloopErrorCode};
pub use library::{CloneLibraryProjectInput, ClonedProject, LibraryListOptions, LibraryProject};
pub use projects::{
    ConversationMessage, ConversationsOptions, ConversationsResult, CreateProjectInput,
    CreatedProject, Deployment, ListProjectsOptions, Project, RefineAttachment, RefineInput,
    RefineProcessing, RefineQueued, RefineResult, RefineSavedOnly, StreamOptions,
    WaitForLiveOptions,
};
pub use secrets::SecretSummary;
pub use subdomains::{SubdomainCheckResult, SubdomainSuggestResult};
pub use subscriptions::{CurrentSubscription, SubscriptionCredits, SubscriptionPlan};
pub use uploads::{CreateUploadInput, UploadedAttachment, MAX_UPLOAD_BYTES};
pub use usage::{UsageCredits, UsageCurrentPeriod, UsagePlan, UsageSummary};
pub use user::User;
