//! Errors of sending notifications.
use vstd::prelude::*;

use crate::ustatus::UStatus;

verus! {

/// A problem with sending a notification to another uEntity.
#[derive(Debug)]
pub enum NotificationError {
    /// The message to send is not a valid notification message.
    InvalidArgument(String),
    /// The transport layer failed to send the notification.
    NotifyError(UStatus),
}

} // verus!
