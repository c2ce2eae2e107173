//! Values that a registration is made of. Each is checked once, when it is
//! built, and is valid from then on.

pub mod new_subscriber;
pub mod subscriber;
pub mod subscriber_email;
pub mod subscriber_name;
pub mod subscription_token;
pub mod validation_error;

pub use new_subscriber::NewSubscriber;
pub use subscriber::{ConfirmationToken, Subscriber, SubscriptionStatus};
pub use subscriber_email::SubscriberEmail;
pub use subscriber_name::SubscriberName;
pub use validation_error::ValidationError;
