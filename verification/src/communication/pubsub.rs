//! Errors of publishing, and the handler of subscription state changes.
use vstd::prelude::*;

use crate::core_entities::usubscription::SubscriptionStatus;
use crate::uri::UUri;
use crate::ustatus::UStatus;

verus! {

/// A problem with publishing a message to a topic.
#[derive(Debug)]
pub enum PubSubError {
    /// The message to publish is not a valid publish message.
    InvalidArgument(String),
    /// The transport layer failed to publish the message.
    PublishError(UStatus),
}

/// A handler that a subscriber registers to learn of changes to the state
/// of its subscription to a topic.
pub trait SubscriptionChangeHandler: Send + Sync {
    /// Called with the topic and the new state of the subscription.
    fn on_subscription_change(&self, topic: UUri, new_status: SubscriptionStatus);
}

} // verus!
