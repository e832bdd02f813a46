use vstd::prelude::*;
use crate::mailbox::Mailbox;
use crate::model::{Entry, Notice, QueueInfo, RowKey};
use crate::pane::{
    noting, reply_step, steps_left, Effect, EffectView, PaneView, Reply, ReplyView,
};
use crate::poller::forward;
use crate::queues::QueuesView;

verus! {

/// Why a piece of outside work failed.
#[derive(Debug, Clone, PartialEq, Eq)]
pub struct Failure {
    pub reason: String,
}

/// The broker's management API, as far as the queues pane uses it. Nothing
/// is assumed of an implementation: any call may fail.
pub trait ManagementClient: Send + Sync {
    /// Lists all queues.
    fn get_queues_info(&self) -> Result<Vec<QueueInfo>, Failure>;

    /// Publishes `body` to the queue.
    fn publish(&self, key: &RowKey, body: &str) -> Result<(), Failure>;

    /// Takes one message off the queue; `None` if it holds none.
    fn pop(&self, key: &RowKey) -> Result<Option<String>, Failure>;

    /// Drops every message of the queue.
    fn purge(&self, key: &RowKey) -> Result<(), Failure>;

    /// Asks whether the broker answers.
    fn ping(&self) -> Result<(), Failure>;
}

/// The clipboard.
pub trait Clipboard {
    /// The text on the clipboard.
    fn read(&mut self) -> Result<String, Failure>;

    /// Puts `text` on the clipboard.
    fn write(&mut self, text: &str) -> Result<(), Failure>;
}

/// The part of the file system that the file picker walks. A path is given
/// by its segments below the directory where the picker starts.
pub trait FileSystem {
    /// The entries of the directory at `path`.
    fn list_dir(&self, path: &Vec<String>) -> Result<Vec<Entry>, Failure>;

    /// The text of the file at `path`.
    fn read_file(&self, path: &Vec<String>) -> Result<String, Failure>;
}

/// The report on work that gives nothing back.
pub fn reply_of_done(outcome: Result<(), Failure>) -> (reply: Reply)
    ensures
        reply@ == (match outcome {
            Ok(_) => ReplyView::Done,
            Err(_) => ReplyView::Failed,
        }),
{
    match outcome {
        Ok(_) => Reply::Done,
        Err(_) => Reply::Failed,
    }
}

/// The report on work that gives a text back.
pub fn reply_of_text(outcome: Result<String, Failure>) -> (reply: Reply)
    ensures
        reply@ == (match outcome {
            Ok(text) => ReplyView::Text(text),
            Err(_) => ReplyView::Failed,
        }),
{
    match outcome {
        Ok(text) => Reply::Text(text),
        Err(_) => Reply::Failed,
    }
}

/// The report on a pop: the payload, or that the queue was empty.
pub fn reply_of_pop(outcome: Result<Option<String>, Failure>) -> (reply: Reply)
    ensures
        reply@ == (match outcome {
            Ok(Some(payload)) => ReplyView::Text(payload),
            Ok(None) => ReplyView::Empty,
            Err(_) => ReplyView::Failed,
        }),
{
    match outcome {
        Ok(Some(payload)) => Reply::Text(payload),
        Ok(None) => Reply::Empty,
        Err(_) => Reply::Failed,
    }
}

/// The report on a directory listing.
pub fn reply_of_listing(outcome: Result<Vec<Entry>, Failure>) -> (reply: Reply)
    ensures
        reply@ == (match outcome {
            Ok(entries) => ReplyView::Entries(entries@),
            Err(_) => ReplyView::Failed,
        }),
{
    match outcome {
        Ok(entries) => Reply::Entries(entries),
        Err(_) => Reply::Failed,
    }
}

/// The replies that can come back for an effect.
pub open spec fn fits(effect: EffectView, reply: ReplyView) -> bool {
    match effect {
        EffectView::Idle => reply is Done,
        EffectView::Purge(_) | EffectView::Publish(_, _) | EffectView::WriteClipboard(_) => reply
            is Done || reply is Failed,
        EffectView::ReadClipboard(_) | EffectView::ReadFile(_, _) => reply is Text || reply
            is Failed,
        EffectView::Pop(_) => reply is Text || reply is Empty || reply is Failed,
        EffectView::ListDir(_) => reply is Entries || reply is Failed,
    }
}

/// Carries one effect out: makes the one call that the effect names and
/// turns its outcome into a reply. No failure gets past this function.
pub fn perform<M: ManagementClient, C: Clipboard, F: FileSystem>(
    effect: &Effect,
    client: &M,
    clipboard: &mut C,
    files: &F,
) -> (reply: Reply)
    ensures
        fits(effect@, reply@),
{
    match effect {
        Effect::Idle => Reply::Done,
        Effect::Purge(key) => reply_of_done(client.purge(key)),
        Effect::ReadClipboard(_) => reply_of_text(clipboard.read()),
        Effect::Publish(key, body) => reply_of_done(client.publish(key, body.as_str())),
        Effect::Pop(key) => reply_of_pop(client.pop(key)),
        Effect::WriteClipboard(text) => reply_of_done(clipboard.write(text.as_str())),
        Effect::ListDir(path) => reply_of_listing(files.list_dir(path)),
        Effect::ReadFile(_, path) => reply_of_text(files.read_file(path)),
    }
}

/// The pane and the effect still open after the host has reported `replies`
/// one after the other, starting from the effect `open`.
pub open spec fn after_replies(s: PaneView, open: EffectView, replies: Seq<ReplyView>) -> (
    PaneView,
    EffectView,
)
    decreases replies.len(),
{
    if replies.len() == 0 {
        (s, open)
    } else {
        let (before, pending) = after_replies(s, open, replies.drop_last());
        reply_step(before, pending, replies.last())
    }
}

/// Whether each of `replies` is one that can come back for the effect that
/// was open when it was reported.
pub open spec fn all_fit(s: PaneView, open: EffectView, replies: Seq<ReplyView>) -> bool
    decreases replies.len(),
{
    if replies.len() == 0 {
        true
    } else {
        &&& all_fit(s, open, replies.drop_last())
        &&& fits(after_replies(s, open, replies.drop_last()).1, replies.last())
    }
}

/// Where work on a row has come to rest, a notice is on show, and neither
/// the snapshot nor the main cursor has changed. Only a directory listing
/// can end without a notice.
pub proof fn lemma_settled_work_leaves_a_notice(
    s: PaneView,
    open: EffectView,
    replies: Seq<ReplyView>,
)
    requires
        !(open is Idle),
        !(open is ListDir),
        replies.len() <= steps_left(open),
        all_fit(s, open, replies),
        after_replies(s, open, replies).1 is Idle,
    ensures
        after_replies(s, open, replies).0.notice.is_some(),
        after_replies(s, open, replies).0.rows == s.rows,
        after_replies(s, open, replies).0.cursor == s.cursor,
        1 <= replies.len(),
{
    reveal_with_fuel(after_replies, 3);
    reveal_with_fuel(all_fit, 3);
    if replies.len() == 2 {
        assert(replies.drop_last().len() == 1);
        assert(replies.drop_last().drop_last().len() == 0);
    } else if replies.len() == 1 {
        assert(replies.drop_last().len() == 0);
    }
}

/// A purge comes to rest after one report, with the notice that says how it
/// went and nothing else changed.
pub proof fn lemma_settled_purge(s: PaneView, target: RowKey, replies: Seq<ReplyView>)
    requires
        replies.len() <= 1,
        all_fit(s, EffectView::Purge(target), replies),
        after_replies(s, EffectView::Purge(target), replies).1 is Idle,
    ensures
        replies.len() == 1,
        replies[0] is Done ==> after_replies(s, EffectView::Purge(target), replies).0 == noting(
            s,
            Notice::QueuePurged,
        ),
        replies[0] is Failed ==> after_replies(s, EffectView::Purge(target), replies).0 == noting(
            s,
            Notice::PurgeFailed,
        ),
        replies[0] is Done || replies[0] is Failed,
{
    reveal_with_fuel(after_replies, 2);
    reveal_with_fuel(all_fit, 2);
    if replies.len() == 1 {
        assert(replies.drop_last().len() == 0);
        assert(replies.last() == replies[0]);
    }
}

/// Carries `effect` out, reports on it, carries out what the report asks
/// for, and so on until nothing is left to do. Whatever the outside calls
/// return, the pane ends where at most two reports lead from where it was.
pub fn settle<M: ManagementClient, C: Clipboard, F: FileSystem>(
    pane: &mut QueuesView,
    effect: Effect,
    client: &M,
    clipboard: &mut C,
    files: &F,
)
    requires
        old(pane).wf(),
    ensures
        final(pane).wf(),
        exists|replies: Seq<ReplyView>|
            replies.len() <= steps_left(effect@) && all_fit(old(pane)@, effect@, replies)
                && #[trigger] after_replies(old(pane)@, effect@, replies) == (
                final(pane)@,
                EffectView::Idle,
            ),
{
    let ghost start = pane@;
    let ghost first = effect@;
    let ghost mut log: Seq<ReplyView> = Seq::empty();
    let mut open = effect;
    while !open.is_idle()
        invariant
            pane.wf(),
            after_replies(start, first, log) == (pane@, open@),
            all_fit(start, first, log),
            log.len() + steps_left(open@) <= steps_left(first),
        decreases steps_left(open@),
    {
        let reply = perform(&open, client, clipboard, files);
        proof {
            let next = log.push(reply@);
            assert(next.drop_last() =~= log);
            assert(next.last() == reply@);
            log = next;
        }
        open = pane.report(open, reply);
    }
}

/// One tick of the poller: lists the queues once and hands the outcome on.
/// A failed poll leaves the mailbox as it was.
pub fn poll_once<M: ManagementClient>(client: &M, mailbox: &mut Mailbox<Vec<QueueInfo>>)
    ensures
        final(mailbox).pending() == old(mailbox).pending() || final(mailbox).pending().is_some(),
{
    let fetched = match client.get_queues_info() {
        Ok(rows) => Some(rows),
        Err(_) => None,
    };
    forward(mailbox, fetched);
}

} // verus!
