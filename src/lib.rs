//! A webhook relay for a continuous-integration server: it builds the
//! server's API addresses, reads the latest build out of the server's JSON,
//! and decides, step by step, which requests one webhook call issues.
pub mod json;
pub mod lookup;
pub mod pipeline;
pub mod url;

pub use lookup::{extract_build, get_latest_build, running_build_number, unquote, Build, WebhookQuery, RUNNING};
pub use json::{api_json, ApiError, RawResponse};
pub use pipeline::{Method, Request, Stage, Webhook, LATEST};
pub use url::{api_url, URL_API_REPOS, URL_BUILDS};
