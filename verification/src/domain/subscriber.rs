use vstd::prelude::*;

use crate::domain::subscriber_email::SubscriberEmail;
use crate::domain::subscriber_name::SubscriberName;

verus! {

/// Where a subscriber stands. The only change there is goes from
/// `PendingConfirmation` to `Confirmed`.
#[derive(Clone, Copy, Debug, PartialEq, Eq, Structural)]
pub enum SubscriptionStatus {
    PendingConfirmation,
    Confirmed,
}

impl SubscriptionStatus {
    /// The status as it is written in the store.
    pub open spec fn spec_as_str(self) -> Seq<char> {
        match self {
            SubscriptionStatus::PendingConfirmation => "pending_confirmation"@,
            SubscriptionStatus::Confirmed => "confirmed"@,
        }
    }

    /// The status after a confirmation, whatever it was before.
    pub open spec fn spec_confirm(self) -> SubscriptionStatus {
        SubscriptionStatus::Confirmed
    }

    /// The status as it is written in the store.
    pub fn as_str(&self) -> (s: &'static str)
        ensures
            s@ == self.spec_as_str(),
    {
        match self {
            SubscriptionStatus::PendingConfirmation => "pending_confirmation",
            SubscriptionStatus::Confirmed => "confirmed",
        }
    }

    /// The status after a confirmation: confirmed, whatever it was before.
    pub fn confirm(self) -> (s: SubscriptionStatus)
        ensures
            s == self.spec_confirm(),
    {
        SubscriptionStatus::Confirmed
    }

    /// A confirmed subscriber stays confirmed however often the confirmation
    /// is repeated, and no confirmation leads back to pending.
    pub proof fn confirm_is_idempotent(self)
        ensures
            self.spec_confirm() == SubscriptionStatus::Confirmed,
            self.spec_confirm().spec_confirm() == self.spec_confirm(),
    {
    }
}

/// A subscriber as the store holds one.
#[derive(Debug)]
pub struct Subscriber {
    pub id: u128,
    pub email: SubscriberEmail,
    pub name: SubscriberName,
    /// Microseconds since the Unix epoch, UTC.
    pub subscribed_at: i64,
    pub status: SubscriptionStatus,
}

/// The token that confirms one subscriber, and whose it is.
#[derive(Debug)]
pub struct ConfirmationToken {
    pub token: String,
    pub subscriber_id: u128,
}

} // verus!
