use vstd::prelude::*;
use crate::model::{binding, Command, Entry, Key, Notice, QueueInfo, RowKey};
use crate::selection::{clamp_cursor, cursor_in_bounds, cursor_next, cursor_previous, RowSelection};

verus! {

/// The address of a queue: its name and virtual host.
pub open spec fn key_of(q: QueueInfo) -> RowKey {
    RowKey { name: q.name, vhost: q.vhost }
}

/// The file picker as a value: the directory it shows, as path segments
/// below the starting directory, that directory's entries, and the cursor
/// over them.
pub struct NavigatorView {
    pub path: Seq<String>,
    pub entries: Seq<Entry>,
    pub cursor: Option<usize>,
}

/// The state of the file picker.
#[derive(Debug, PartialEq, Eq)]
pub struct FileNavigator {
    path: Vec<String>,
    entries: Vec<Entry>,
    selection: RowSelection,
}

impl View for FileNavigator {
    type V = NavigatorView;

    closed spec fn view(&self) -> NavigatorView {
        NavigatorView {
            path: self.path@,
            entries: self.entries@,
            cursor: self.selection.cursor(),
        }
    }
}

impl FileNavigator {
    /// The cursor ranges over the entries shown.
    pub closed spec fn wf(self) -> bool {
        &&& self.selection.wf()
        &&& self.selection.rows() == self.entries@.len()
    }

    /// In a well-formed navigator the cursor is in the bounds of the listing.
    pub proof fn lemma_cursor_in_bounds(self)
        requires
            self.wf(),
        ensures
            cursor_in_bounds(self@.cursor, self@.entries.len()),
    {
    }

    /// A navigator showing `entries` at `path`, with the cursor on the first
    /// entry if there is one.
    pub fn at(path: Vec<String>, entries: Vec<Entry>) -> (r: FileNavigator)
        ensures
            r.wf(),
            r@ == (NavigatorView {
                path: path@,
                entries: entries@,
                cursor: clamp_cursor(None, entries@.len()),
            }),
    {
        let selection = RowSelection::new(entries.len());
        FileNavigator { path, entries, selection }
    }

    /// The directory shown, as path segments.
    pub fn path(&self) -> (r: &Vec<String>)
        ensures
            r@ == self@.path,
    {
        &self.path
    }

    /// The entries of the directory shown.
    pub fn entries(&self) -> (r: &Vec<Entry>)
        ensures
            r@ == self@.entries,
    {
        &self.entries
    }

    /// The index of the selected entry.
    pub fn cursor(&self) -> (r: Option<usize>)
        ensures
            r == self@.cursor,
    {
        self.selection.select()
    }

    /// Moves the cursor down by one entry, stopping at the last.
    pub fn next(&mut self)
        requires
            old(self).wf(),
        ensures
            final(self).wf(),
            final(self)@ == (NavigatorView {
                cursor: cursor_next(old(self)@.cursor, old(self)@.entries.len()),
                ..old(self)@
            }),
    {
        self.selection.next();
    }

    /// Moves the cursor up by one entry, stopping at the first.
    pub fn previous(&mut self)
        requires
            old(self).wf(),
        ensures
            final(self).wf(),
            final(self)@ == (NavigatorView {
                cursor: cursor_previous(old(self)@.cursor),
                ..old(self)@
            }),
    {
        self.selection.previous();
    }

    /// The selected entry, if the listing has any.
    pub fn selected(&self) -> (r: Option<&Entry>)
        requires
            self.wf(),
        ensures
            match self@.cursor {
                Some(i) => i < self@.entries.len() && r == Some(&self@.entries[i as int]),
                None => r.is_none(),
            },
    {
        match self.selection.select() {
            Some(i) => Some(&self.entries[i]),
            None => None,
        }
    }

    /// The path of the directory above the one shown; `None` at the top.
    pub fn parent(&self) -> (r: Option<Vec<String>>)
        ensures
            self@.path.len() == 0 ==> r.is_none(),
            self@.path.len() > 0 ==> r.is_some() && r.unwrap()@ == self@.path.drop_last(),
    {
        if self.path.len() == 0 {
            None
        } else {
            let mut up = clone_strings(&self.path);
            up.pop();
            Some(up)
        }
    }

    /// The path of the entry called `name` in the directory shown.
    pub fn child(&self, name: &String) -> (r: Vec<String>)
        ensures
            r@ == self@.path.push(*name),
    {
        let mut down = clone_strings(&self.path);
        down.push(name.clone());
        down
    }
}

/// A copy of a list of strings.
fn clone_strings(v: &Vec<String>) -> (r: Vec<String>)
    ensures
        r@ == v@,
{
    let mut r: Vec<String> = Vec::new();
    let mut i: usize = 0;
    while i < v.len()
        invariant
            i <= v.len(),
            r@ == v@.subrange(0, i as int),
        decreases v.len() - i,
    {
        r.push(v[i].clone());
        i += 1;
    }
    r
}

/// Which layer owns the keyboard.
#[derive(Debug, PartialEq, Eq)]
pub enum Modal {
    Normal,
    Confirm { target: RowKey, affirmed: bool },
    Help,
    FileBrowse(FileNavigator),
}

/// A modal as a value.
pub enum ModalView {
    Normal,
    Confirm { target: RowKey, affirmed: bool },
    Help,
    FileBrowse(NavigatorView),
}

impl View for Modal {
    type V = ModalView;

    open spec fn view(&self) -> ModalView {
        match *self {
            Modal::Normal => ModalView::Normal,
            Modal::Confirm { target, affirmed } => ModalView::Confirm { target, affirmed },
            Modal::Help => ModalView::Help,
            Modal::FileBrowse(nav) => ModalView::FileBrowse(nav@),
        }
    }
}

impl Modal {
    /// A file picker inside the modal is well formed.
    pub open spec fn wf(self) -> bool {
        match self {
            Modal::FileBrowse(nav) => nav.wf(),
            _ => true,
        }
    }

    /// Whether no overlay is up.
    pub fn is_normal(&self) -> (r: bool)
        ensures
            r == (self@ == ModalView::Normal),
    {
        match self {
            Modal::Normal => true,
            _ => false,
        }
    }
}

/// Work that the pane asks its host to carry out.
#[derive(Debug, PartialEq, Eq)]
pub enum Effect {
    /// Nothing to do.
    Idle,
    /// Purge the queue.
    Purge(RowKey),
    /// Read the clipboard, on the way to publishing its text to the queue.
    ReadClipboard(RowKey),
    /// Publish the text to the queue.
    Publish(RowKey, String),
    /// Take one message off the queue.
    Pop(RowKey),
    /// Put the text on the clipboard.
    WriteClipboard(String),
    /// List the directory at these path segments.
    ListDir(Vec<String>),
    /// Read the file at these path segments, on the way to publishing it.
    ReadFile(RowKey, Vec<String>),
}

/// An effect as a value.
pub enum EffectView {
    Idle,
    Purge(RowKey),
    ReadClipboard(RowKey),
    Publish(RowKey, String),
    Pop(RowKey),
    WriteClipboard(String),
    ListDir(Seq<String>),
    ReadFile(RowKey, Seq<String>),
}

impl Effect {
    /// Whether there is nothing to do.
    pub fn is_idle(&self) -> (r: bool)
        ensures
            r == (self@ is Idle),
    {
        match self {
            Effect::Idle => true,
            _ => false,
        }
    }
}

impl View for Effect {
    type V = EffectView;

    open spec fn view(&self) -> EffectView {
        match *self {
            Effect::Idle => EffectView::Idle,
            Effect::Purge(k) => EffectView::Purge(k),
            Effect::ReadClipboard(k) => EffectView::ReadClipboard(k),
            Effect::Publish(k, body) => EffectView::Publish(k, body),
            Effect::Pop(k) => EffectView::Pop(k),
            Effect::WriteClipboard(text) => EffectView::WriteClipboard(text),
            Effect::ListDir(p) => EffectView::ListDir(p@),
            Effect::ReadFile(k, p) => EffectView::ReadFile(k, p@),
        }
    }
}

/// What the host reports once it has carried an effect out.
#[derive(Debug, PartialEq, Eq)]
pub enum Reply {
    /// The work succeeded and gave nothing back.
    Done,
    /// The work succeeded and gave a text back.
    Text(String),
    /// The queue held no message.
    Empty,
    /// The work succeeded and gave a directory listing back.
    Entries(Vec<Entry>),
    /// The work failed.
    Failed,
}

/// A reply as a value.
pub enum ReplyView {
    Done,
    Text(String),
    Empty,
    Entries(Seq<Entry>),
    Failed,
}

impl View for Reply {
    type V = ReplyView;

    open spec fn view(&self) -> ReplyView {
        match *self {
            Reply::Done => ReplyView::Done,
            Reply::Text(t) => ReplyView::Text(t),
            Reply::Empty => ReplyView::Empty,
            Reply::Entries(es) => ReplyView::Entries(es@),
            Reply::Failed => ReplyView::Failed,
        }
    }
}

/// The pane as a value: the snapshot, the cursor over it, the active modal
/// and the notice on show.
pub struct PaneView {
    pub rows: Seq<QueueInfo>,
    pub cursor: Option<usize>,
    pub modal: ModalView,
    pub notice: Option<Notice>,
}

/// The effect aimed at the selected row, or none where no row is selected.
pub open spec fn on_selected(s: PaneView, effect: spec_fn(RowKey) -> EffectView) -> EffectView {
    match s.cursor {
        Some(i) => effect(key_of(s.rows[i as int])),
        None => EffectView::Idle,
    }
}

/// A key while browsing.
pub open spec fn normal_step(s: PaneView, command: Command) -> (PaneView, EffectView) {
    match command {
        Command::Next => (
            PaneView { cursor: cursor_next(s.cursor, s.rows.len()), ..s },
            EffectView::Idle,
        ),
        Command::Previous => (
            PaneView { cursor: cursor_previous(s.cursor), ..s },
            EffectView::Idle,
        ),
        Command::RequestPurge => match s.cursor {
            Some(i) => (
                PaneView {
                    modal: ModalView::Confirm {
                        target: key_of(s.rows[i as int]),
                        affirmed: false,
                    },
                    ..s
                },
                EffectView::Idle,
            ),
            None => (s, EffectView::Idle),
        },
        Command::ToggleHelp => (PaneView { modal: ModalView::Help, ..s }, EffectView::Idle),
        Command::ToggleFiles => (
            PaneView {
                modal: ModalView::FileBrowse(
                    NavigatorView {
                        path: Seq::<String>::empty(),
                        entries: Seq::<Entry>::empty(),
                        cursor: None,
                    },
                ),
                ..s
            },
            EffectView::ListDir(Seq::<String>::empty()),
        ),
        Command::Paste => (s, on_selected(s, |k: RowKey| EffectView::ReadClipboard(k))),
        Command::Pop => (s, on_selected(s, |k: RowKey| EffectView::Pop(k))),
        _ => (s, EffectView::Idle),
    }
}

/// A key while a purge awaits confirmation.
pub open spec fn confirm_step(s: PaneView, target: RowKey, affirmed: bool, command: Command) -> (
    PaneView,
    EffectView,
) {
    match command {
        Command::Next | Command::Previous => (
            PaneView { modal: ModalView::Confirm { target, affirmed: !affirmed }, ..s },
            EffectView::Idle,
        ),
        Command::Affirm => (
            PaneView { modal: ModalView::Confirm { target, affirmed: true }, ..s },
            EffectView::Idle,
        ),
        Command::Decline => (
            PaneView { modal: ModalView::Confirm { target, affirmed: false }, ..s },
            EffectView::Idle,
        ),
        Command::Submit => (
            PaneView { modal: ModalView::Normal, ..s },
            if affirmed {
                EffectView::Purge(target)
            } else {
                EffectView::Idle
            },
        ),
        _ => (s, EffectView::Idle),
    }
}

/// A key while the help overlay is up.
pub open spec fn help_step(s: PaneView, command: Command) -> (PaneView, EffectView) {
    match command {
        Command::ToggleHelp => (PaneView { modal: ModalView::Normal, ..s }, EffectView::Idle),
        _ => (s, EffectView::Idle),
    }
}

/// A key while the file picker is up.
pub open spec fn files_step(s: PaneView, nav: NavigatorView, command: Command) -> (
    PaneView,
    EffectView,
) {
    match command {
        Command::Next => (
            PaneView {
                modal: ModalView::FileBrowse(
                    NavigatorView { cursor: cursor_next(nav.cursor, nav.entries.len()), ..nav },
                ),
                ..s
            },
            EffectView::Idle,
        ),
        Command::Previous => (
            PaneView {
                modal: ModalView::FileBrowse(
                    NavigatorView { cursor: cursor_previous(nav.cursor), ..nav },
                ),
                ..s
            },
            EffectView::Idle,
        ),
        Command::Parent => (
            s,
            if nav.path.len() == 0 {
                EffectView::Idle
            } else {
                EffectView::ListDir(nav.path.drop_last())
            },
        ),
        Command::Submit => (
            s,
            match nav.cursor {
                None => EffectView::Idle,
                Some(i) => {
                    let entry = nav.entries[i as int];
                    let full = nav.path.push(entry.name);
                    if entry.is_directory {
                        EffectView::ListDir(full)
                    } else {
                        on_selected(s, |k: RowKey| EffectView::ReadFile(k, full))
                    }
                },
            },
        ),
        Command::ToggleFiles => (PaneView { modal: ModalView::Normal, ..s }, EffectView::Idle),
        _ => (s, EffectView::Idle),
    }
}

/// The pane after a key, and the work that the key asks for. The notice on
/// show goes first, whatever the key; then the active modal alone decides.
pub open spec fn key_step(s: PaneView, key: Key) -> (PaneView, EffectView) {
    let cleared = PaneView { notice: None, ..s };
    match s.modal {
        ModalView::Normal => normal_step(cleared, binding(key)),
        ModalView::Confirm { target, affirmed } => confirm_step(
            cleared,
            target,
            affirmed,
            binding(key),
        ),
        ModalView::Help => help_step(cleared, binding(key)),
        ModalView::FileBrowse(nav) => files_step(cleared, nav, binding(key)),
    }
}

/// The pane with a notice on show.
pub open spec fn noting(s: PaneView, notice: Notice) -> PaneView {
    PaneView { notice: Some(notice), ..s }
}

/// The pane after the host reports on an effect, and the work that follows.
/// A reply that does not fit the effect counts as a failure.
pub open spec fn reply_step(s: PaneView, done: EffectView, reply: ReplyView) -> (
    PaneView,
    EffectView,
) {
    match done {
        EffectView::Idle => (s, EffectView::Idle),
        EffectView::Purge(_) => match reply {
            ReplyView::Done => (noting(s, Notice::QueuePurged), EffectView::Idle),
            _ => (noting(s, Notice::PurgeFailed), EffectView::Idle),
        },
        EffectView::ReadClipboard(k) => match reply {
            ReplyView::Text(t) => (s, EffectView::Publish(k, t)),
            _ => (noting(s, Notice::ClipboardFailed), EffectView::Idle),
        },
        EffectView::Publish(_, _) => {
            let closed = PaneView { modal: ModalView::Normal, ..s };
            match reply {
                ReplyView::Done => (noting(closed, Notice::Published), EffectView::Idle),
                _ => (noting(closed, Notice::PublishFailed), EffectView::Idle),
            }
        },
        EffectView::Pop(_) => match reply {
            ReplyView::Text(t) => (s, EffectView::WriteClipboard(t)),
            ReplyView::Empty => (noting(s, Notice::NothingToCopy), EffectView::Idle),
            _ => (noting(s, Notice::PopFailed), EffectView::Idle),
        },
        EffectView::WriteClipboard(_) => match reply {
            ReplyView::Done => (noting(s, Notice::Copied), EffectView::Idle),
            _ => (noting(s, Notice::ClipboardFailed), EffectView::Idle),
        },
        EffectView::ListDir(path) => match reply {
            ReplyView::Entries(entries) => match s.modal {
                ModalView::FileBrowse(_) => (
                    PaneView {
                        modal: ModalView::FileBrowse(
                            NavigatorView {
                                path,
                                entries,
                                cursor: clamp_cursor(None, entries.len()),
                            },
                        ),
                        ..s
                    },
                    EffectView::Idle,
                ),
                _ => (s, EffectView::Idle),
            },
            _ => (noting(s, Notice::ListingFailed), EffectView::Idle),
        },
        EffectView::ReadFile(k, _) => match reply {
            ReplyView::Text(t) => (s, EffectView::Publish(k, t)),
            _ => (noting(s, Notice::FileFailed), EffectView::Idle),
        },
    }
}

/// The pane after a new snapshot is adopted: the rows are replaced and the
/// cursor is fitted to them; modal and notice stay.
pub open spec fn adopted(s: PaneView, rows: Seq<QueueInfo>) -> PaneView {
    PaneView { rows, cursor: clamp_cursor(s.cursor, rows.len()), ..s }
}

/// The cursor of a pane points at a row of its snapshot, or is absent when
/// the snapshot is empty; a file picker's cursor does the same over its
/// listing.
pub open spec fn cursors_in_bounds(s: PaneView) -> bool {
    &&& cursor_in_bounds(s.cursor, s.rows.len())
    &&& match s.modal {
        ModalView::FileBrowse(nav) => cursor_in_bounds(nav.cursor, nav.entries.len()),
        _ => true,
    }
}

/// Whether two modals are the same layer, whatever they hold.
pub open spec fn same_layer(a: ModalView, b: ModalView) -> bool {
    match (a, b) {
        (ModalView::Normal, ModalView::Normal) => true,
        (ModalView::Confirm { .. }, ModalView::Confirm { .. }) => true,
        (ModalView::Help, ModalView::Help) => true,
        (ModalView::FileBrowse(_), ModalView::FileBrowse(_)) => true,
        _ => false,
    }
}

/// No key moves a cursor out of bounds, and no key touches the snapshot.
pub proof fn lemma_key_keeps_cursors_in_bounds(s: PaneView, key: Key)
    requires
        cursors_in_bounds(s),
    ensures
        cursors_in_bounds(key_step(s, key).0),
        key_step(s, key).0.rows == s.rows,
{
}

/// No report moves a cursor out of bounds; a new listing starts with the
/// cursor on its first entry, or absent if it has none.
pub proof fn lemma_reply_keeps_cursors_in_bounds(s: PaneView, done: EffectView, reply: ReplyView)
    requires
        cursors_in_bounds(s),
    ensures
        cursors_in_bounds(reply_step(s, done, reply).0),
        reply_step(s, done, reply).0.rows == s.rows,
        reply_step(s, done, reply).0.cursor == s.cursor,
{
}

/// Adopting a snapshot fits the cursor to it: in bounds if the snapshot has
/// rows, where it was if that row still exists, on the last row if it does
/// not, and absent if the snapshot is empty. Modal and notice stay.
pub proof fn lemma_adopting_reclamps(s: PaneView, rows: Seq<QueueInfo>)
    requires
        rows.len() <= usize::MAX,
    ensures
        cursor_in_bounds(adopted(s, rows).cursor, rows.len()),
        rows.len() == 0 ==> adopted(s, rows).cursor.is_none(),
        s.cursor.is_some() && s.cursor.unwrap() < rows.len() ==> adopted(s, rows).cursor
            == s.cursor,
        s.cursor.is_some() && s.cursor.unwrap() >= rows.len() && rows.len() > 0 ==> adopted(
            s,
            rows,
        ).cursor == Some((rows.len() - 1) as usize),
        adopted(s, rows).rows == rows,
        adopted(s, rows).modal == s.modal,
        adopted(s, rows).notice == s.notice,
{
}

/// While help is up it owns the keyboard: its own toggle closes it, and every
/// other key changes nothing but the notice. No key asks for any work.
pub proof fn lemma_help_swallows_keys(s: PaneView, key: Key)
    requires
        s.modal == ModalView::Help,
    ensures
        key_step(s, key).1 == EffectView::Idle,
        binding(key) == Command::ToggleHelp ==> key_step(s, key).0 == (PaneView {
            modal: ModalView::Normal,
            notice: None,
            ..s
        }),
        binding(key) != Command::ToggleHelp ==> key_step(s, key).0 == (PaneView {
            notice: None,
            ..s
        }),
{
}

/// A submit key always ends a confirmation: the pane is back to browsing,
/// and a purge of the target is asked for exactly when the answer was yes.
/// Nothing but the modal and the notice changes.
pub proof fn lemma_submit_ends_confirmation(s: PaneView, target: RowKey, affirmed: bool, key: Key)
    requires
        s.modal == (ModalView::Confirm { target, affirmed }),
        binding(key) == Command::Submit,
    ensures
        key_step(s, key).0 == (PaneView { modal: ModalView::Normal, notice: None, ..s }),
        affirmed ==> key_step(s, key).1 == EffectView::Purge(target),
        !affirmed ==> key_step(s, key).1 == EffectView::Idle,
{
}

/// The report on a purge leaves the modal alone, so the pane stays in
/// browsing whether the purge succeeded or failed, and always leaves a
/// notice.
pub proof fn lemma_purge_report_keeps_modal(s: PaneView, target: RowKey, reply: ReplyView)
    ensures
        reply_step(s, EffectView::Purge(target), reply).0.modal == s.modal,
        reply_step(s, EffectView::Purge(target), reply).0.notice.is_some(),
        reply_step(s, EffectView::Purge(target), reply).1 == EffectView::Idle,
{
}

/// A modal opens only from browsing: under any other modal a key either
/// keeps that layer or returns to browsing. The main cursor moves only while
/// browsing.
pub proof fn lemma_modal_is_exclusive(s: PaneView, key: Key)
    requires
        s.modal != ModalView::Normal,
    ensures
        same_layer(key_step(s, key).0.modal, s.modal) || key_step(s, key).0.modal
            == ModalView::Normal,
        key_step(s, key).0.cursor == s.cursor,
{
}

/// Every key clears the notice, whatever else it does.
pub proof fn lemma_key_clears_notice(s: PaneView, key: Key)
    ensures
        key_step(s, key).0.notice.is_none(),
{
}

/// A report never takes a notice away: it sets one, or leaves what is there.
pub proof fn lemma_report_keeps_or_sets_notice(s: PaneView, done: EffectView, reply: ReplyView)
    ensures
        reply_step(s, done, reply).0.notice == s.notice || reply_step(
            s,
            done,
            reply,
        ).0.notice.is_some(),
{
}

/// A failure of the clipboard, of a directory listing or of a file read
/// leaves the modal as it was, so that the user can try again.
pub proof fn lemma_local_failure_keeps_modal(s: PaneView, done: EffectView)
    requires
        done is ReadClipboard || done is WriteClipboard || done is ListDir || done is ReadFile,
    ensures
        reply_step(s, done, ReplyView::Failed).0.modal == s.modal,
        reply_step(s, done, ReplyView::Failed).0.notice.is_some(),
        reply_step(s, done, ReplyView::Failed).1 == EffectView::Idle,
{
}

/// How many reports an effect can still be followed by, itself included.
pub open spec fn steps_left(effect: EffectView) -> nat {
    match effect {
        EffectView::Idle => 0,
        EffectView::Purge(_) => 1,
        EffectView::Publish(_, _) => 1,
        EffectView::WriteClipboard(_) => 1,
        EffectView::ListDir(_) => 1,
        EffectView::ReadClipboard(_) => 2,
        EffectView::Pop(_) => 2,
        EffectView::ReadFile(_, _) => 2,
    }
}

/// The work that a report asks for is always nearer to its end than the work
/// reported on, so a host that carries out effect after effect comes to rest
/// after at most two reports.
pub proof fn lemma_effects_come_to_rest(s: PaneView, done: EffectView, reply: ReplyView)
    requires
        !(done is Idle),
    ensures
        steps_left(reply_step(s, done, reply).1) < steps_left(done),
        steps_left(done) <= 2,
{
}

/// A key asks for remote work only on a row of the snapshot: with no row
/// selected, no purge, pop, publish or file read is ever asked for.
pub proof fn lemma_no_remote_work_without_selection(s: PaneView, key: Key)
    requires
        s.cursor.is_none(),
        !(s.modal is Confirm),
    ensures
        key_step(s, key).1 is Idle || key_step(s, key).1 is ListDir,
{
}

/// A purge, a pop or a publish that a key or a report led to leaves the pane
/// browsing once it is reported on, whether it succeeded or failed.
pub proof fn lemma_remote_work_ends_in_browsing(s: PaneView, key: Key, reply: ReplyView)
    ensures
        ({
            let (after_key, effect) = key_step(s, key);
            effect is Purge || effect is Pop ==> reply_step(after_key, effect, reply).0.modal
                == ModalView::Normal
        }),
        forall|k: RowKey, body: String|
            (#[trigger] reply_step(s, EffectView::Publish(k, body), reply)).0.modal
                == ModalView::Normal,
{
}

/// Anything that can happen to a pane: a key, a report from the host, or a
/// new snapshot.
pub enum PaneEvent {
    Key(Key),
    Report(EffectView, ReplyView),
    Snapshot(Seq<QueueInfo>),
}

/// The pane after one event.
pub open spec fn event_step(s: PaneView, event: PaneEvent) -> PaneView {
    match event {
        PaneEvent::Key(key) => key_step(s, key).0,
        PaneEvent::Report(done, reply) => reply_step(s, done, reply).0,
        PaneEvent::Snapshot(rows) => adopted(s, rows),
    }
}

/// The pane after a sequence of events, in order.
pub open spec fn after_events(s: PaneView, events: Seq<PaneEvent>) -> PaneView
    decreases events.len(),
{
    if events.len() == 0 {
        s
    } else {
        event_step(after_events(s, events.drop_last()), events.last())
    }
}

/// Every snapshot among the events is short enough to be held in memory.
pub open spec fn snapshots_fit(events: Seq<PaneEvent>) -> bool {
    forall|i: int|
        0 <= i < events.len() ==> match #[trigger] events[i] {
            PaneEvent::Snapshot(rows) => rows.len() <= usize::MAX,
            _ => true,
        }
}

/// Whatever happens to a pane, in whatever order, its cursors stay in
/// bounds: the main cursor over the snapshot of the moment, the file
/// picker's over its listing.
pub proof fn lemma_cursors_always_in_bounds(s: PaneView, events: Seq<PaneEvent>)
    requires
        cursors_in_bounds(s),
        snapshots_fit(events),
    ensures
        cursors_in_bounds(after_events(s, events)),
    decreases events.len(),
{
    if events.len() > 0 {
        let earlier = events.drop_last();
        assert forall|i: int| 0 <= i < earlier.len() implies match #[trigger] earlier[i] {
            PaneEvent::Snapshot(rows) => rows.len() <= usize::MAX,
            _ => true,
        } by {
            assert(earlier[i] == events[i]);
        }
        lemma_cursors_always_in_bounds(s, earlier);
        let before = after_events(s, earlier);
        match events.last() {
            PaneEvent::Key(key) => {
                lemma_key_keeps_cursors_in_bounds(before, key);
            },
            PaneEvent::Report(done, reply) => {
                lemma_reply_keeps_cursors_in_bounds(before, done, reply);
            },
            PaneEvent::Snapshot(rows) => {
                assert(events[events.len() - 1] == events.last());
                lemma_adopting_reclamps(before, rows);
            },
        }
    }
}

/// A notice stays on show through reports that set none and through new
/// snapshots, and is gone after the first key: after any events that end in
/// a key, no notice is on show.
pub proof fn lemma_notice_lasts_until_next_key(s: PaneView, events: Seq<PaneEvent>, key: Key)
    ensures
        after_events(s, events.push(PaneEvent::Key(key))).notice.is_none(),
        forall|rows: Seq<QueueInfo>| #[trigger]
            after_events(s, events.push(PaneEvent::Snapshot(rows))).notice == after_events(
                s,
                events,
            ).notice,
{
    assert(events.push(PaneEvent::Key(key)).drop_last() =~= events);
    assert forall|rows: Seq<QueueInfo>| #[trigger]
        after_events(s, events.push(PaneEvent::Snapshot(rows))).notice == after_events(
            s,
            events,
        ).notice by {
        assert(events.push(PaneEvent::Snapshot(rows)).drop_last() =~= events);
    }
}

} // verus!
