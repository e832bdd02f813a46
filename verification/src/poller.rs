use vstd::prelude::*;
use crate::mailbox::Mailbox;
use crate::model::QueueInfo;

verus! {

/// Seconds between two polls of the broker.
pub const POLL_INTERVAL_SECS: u64 = 5;

/// Milliseconds that the input loop waits for a key before it redraws.
pub const INPUT_WAIT_MILLIS: u64 = 100;

/// What waits in the mailbox after a poll: the fresh list if the poll
/// succeeded, and what waited before if it failed.
pub open spec fn forwarded(pending: Option<Vec<QueueInfo>>, fetched: Option<Vec<QueueInfo>>) -> Option<
    Vec<QueueInfo>,
> {
    match fetched {
        Some(rows) => Some(rows),
        None => pending,
    }
}

/// Hands the outcome of one poll on. A list is delivered, over whatever was
/// not yet taken; a failed poll (`None`) leaves the mailbox as it is, and the
/// next tick tries again.
pub fn forward(mailbox: &mut Mailbox<Vec<QueueInfo>>, fetched: Option<Vec<QueueInfo>>)
    ensures
        final(mailbox).pending() == forwarded(old(mailbox).pending(), fetched),
{
    match fetched {
        Some(rows) => {
            mailbox.deliver(rows);
        },
        None => {},
    }
}

} // verus!
