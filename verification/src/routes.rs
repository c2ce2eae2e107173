//! The three routes: what each decides, step by step, from what the host
//! program reports.

pub mod health_check;
pub mod response;
pub mod subscriptions;
pub mod subscriptions_confirm;

pub use health_check::health_check;
pub use response::Response;
pub use subscriptions::{subscribe, FormData};
pub use subscriptions_confirm::{confirm, Parameters};
