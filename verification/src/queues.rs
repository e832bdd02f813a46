use vstd::prelude::*;
use crate::mailbox::Mailbox;
use crate::model::{
    column_widths, command_of, heading, padded, Command, Key, Notice, QueueInfo, RowKey, COLUMNS,
};
use crate::pane::{
    adopted, cursors_in_bounds, files_step, key_of, key_step, normal_step, reply_step, Effect, FileNavigator, Modal,
    ModalView, PaneView, Reply,
};
use crate::selection::RowSelection;

verus! {

/// The queues pane: the latest snapshot of the broker's queues, the cursor
/// over it, the active modal and the notice on show.
#[derive(Debug)]
pub struct QueuesView {
    rows: Vec<QueueInfo>,
    selection: RowSelection,
    modal: Modal,
    notice: Option<Notice>,
}

impl View for QueuesView {
    type V = PaneView;

    closed spec fn view(&self) -> PaneView {
        PaneView {
            rows: self.rows@,
            cursor: self.selection.cursor(),
            modal: self.modal@,
            notice: self.notice,
        }
    }
}

/// What `render` hands to the drawing code: the table of queues, cell by
/// cell, the row to highlight, the overlay to draw over the table, and the
/// notice to show below it.
#[derive(Debug)]
pub struct Frame<'a> {
    pub header: Vec<&'static str>,
    pub widths: Vec<u16>,
    pub cells: Vec<Vec<String>>,
    pub selected: Option<usize>,
    pub modal: &'a Modal,
    pub notice: Option<Notice>,
}

/// The table shows `rows`: one row of cells for each, in order, each cell
/// the padded text of its column.
pub open spec fn shows(cells: Seq<Vec<String>>, rows: Seq<QueueInfo>) -> bool {
    &&& cells.len() == rows.len()
    &&& forall|r: int|
        0 <= r < rows.len() ==> (#[trigger] cells[r])@.len() == COLUMNS && forall|c: int|
            0 <= c < COLUMNS ==> (#[trigger] cells[r]@[c])@ == padded(rows[r].cell(c))
}

impl QueuesView {
    /// The cursor ranges over the snapshot, and the modal is well formed.
    pub closed spec fn wf(self) -> bool {
        &&& self.selection.wf()
        &&& self.selection.rows() == self.rows@.len()
        &&& self.modal.wf()
    }

    /// An empty pane: no rows, no selection, browsing, nothing on show.
    pub fn new() -> (r: QueuesView)
        ensures
            r.wf(),
            r@ == (PaneView {
                rows: Seq::<QueueInfo>::empty(),
                cursor: None,
                modal: ModalView::Normal,
                notice: None,
            }),
    {
        QueuesView {
            rows: Vec::new(),
            selection: RowSelection::new(0),
            modal: Modal::Normal,
            notice: None,
        }
    }

    /// Takes what waits in the mailbox, if anything, and adopts it as the
    /// snapshot. With an empty mailbox nothing changes.
    pub fn update(&mut self, mailbox: &mut Mailbox<Vec<QueueInfo>>)
        requires
            old(self).wf(),
        ensures
            final(self).wf(),
            final(mailbox).pending().is_none(),
            final(self)@ == match old(mailbox).pending() {
                Some(rows) => adopted(old(self)@, rows@),
                None => old(self)@,
            },
    {
        match mailbox.try_take() {
            Some(rows) => {
                self.selection.reset_for(rows.len());
                self.rows = rows;
            },
            None => {},
        }
    }

    /// The address of the selected row.
    fn selected_key(&self) -> (r: Option<RowKey>)
        requires
            self.wf(),
        ensures
            r == match self@.cursor {
                Some(i) => Some(key_of(self@.rows[i as int])),
                None => None,
            },
    {
        match self.selection.select() {
            Some(i) => {
                let row = &self.rows[i];
                Some(RowKey { name: row.name.clone(), vhost: row.vhost.clone() })
            },
            None => None,
        }
    }

    /// A key while browsing.
    fn normal_key(&mut self, command: Command) -> (effect: Effect)
        requires
            old(self).wf(),
            old(self)@.modal == ModalView::Normal,
        ensures
            final(self).wf(),
            (final(self)@, effect@) == normal_step(old(self)@, command),
    {
        match command {
            Command::Next => {
                self.selection.next();
                Effect::Idle
            },
            Command::Previous => {
                self.selection.previous();
                Effect::Idle
            },
            Command::RequestPurge => {
                match self.selected_key() {
                    Some(target) => {
                        self.modal = Modal::Confirm { target, affirmed: false };
                    },
                    None => {},
                }
                Effect::Idle
            },
            Command::ToggleHelp => {
                self.modal = Modal::Help;
                Effect::Idle
            },
            Command::ToggleFiles => {
                let nav = FileNavigator::at(Vec::new(), Vec::new());
                self.modal = Modal::FileBrowse(nav);
                Effect::ListDir(Vec::new())
            },
            Command::Paste => match self.selected_key() {
                Some(k) => Effect::ReadClipboard(k),
                None => Effect::Idle,
            },
            Command::Pop => match self.selected_key() {
                Some(k) => Effect::Pop(k),
                None => Effect::Idle,
            },
            _ => Effect::Idle,
        }
    }

    /// A key while the file picker `nav` is up. The picker was taken out of
    /// the pane and is put back here, unless the key closes it.
    fn files_key(&mut self, nav: FileNavigator, command: Command) -> (effect: Effect)
        requires
            old(self).wf(),
            nav.wf(),
        ensures
            final(self).wf(),
            (final(self)@, effect@) == files_step(
                PaneView { modal: ModalView::FileBrowse(nav@), ..old(self)@ },
                nav@,
                command,
            ),
    {
        let mut nav = nav;
        let effect = match command {
            Command::Next => {
                nav.next();
                Effect::Idle
            },
            Command::Previous => {
                nav.previous();
                Effect::Idle
            },
            Command::Parent => match nav.parent() {
                Some(up) => Effect::ListDir(up),
                None => Effect::Idle,
            },
            Command::Submit => match nav.selected() {
                None => Effect::Idle,
                Some(entry) => {
                    let full = nav.child(&entry.name);
                    if entry.is_directory {
                        Effect::ListDir(full)
                    } else {
                        match self.selected_key() {
                            Some(k) => Effect::ReadFile(k, full),
                            None => Effect::Idle,
                        }
                    }
                },
            },
            Command::ToggleFiles => {
                self.modal = Modal::Normal;
                return Effect::Idle;
            },
            _ => Effect::Idle,
        };
        self.modal = Modal::FileBrowse(nav);
        effect
    }

    /// Routes one key. The notice on show is cleared first, whatever the key;
    /// then the active modal alone decides what the key does. The effect
    /// returned is for the host to carry out and report on.
    pub fn handle_key(&mut self, key: Key) -> (effect: Effect)
        requires
            old(self).wf(),
        ensures
            final(self).wf(),
            (final(self)@, effect@) == key_step(old(self)@, key),
    {
        self.notice = None;
        let command = command_of(key);
        let mut modal = Modal::Normal;
        core::mem::swap(&mut self.modal, &mut modal);
        match modal {
            Modal::Normal => self.normal_key(command),
            Modal::Confirm { target, affirmed } => match command {
                Command::Next | Command::Previous => {
                    self.modal = Modal::Confirm { target, affirmed: !affirmed };
                    Effect::Idle
                },
                Command::Affirm => {
                    self.modal = Modal::Confirm { target, affirmed: true };
                    Effect::Idle
                },
                Command::Decline => {
                    self.modal = Modal::Confirm { target, affirmed: false };
                    Effect::Idle
                },
                Command::Submit => {
                    if affirmed {
                        Effect::Purge(target)
                    } else {
                        Effect::Idle
                    }
                },
                _ => {
                    self.modal = Modal::Confirm { target, affirmed };
                    Effect::Idle
                },
            },
            Modal::Help => match command {
                Command::ToggleHelp => Effect::Idle,
                _ => {
                    self.modal = Modal::Help;
                    Effect::Idle
                },
            },
            Modal::FileBrowse(nav) => self.files_key(nav, command),
        }
    }

    /// Takes the host's report on the effect `done` and says what follows:
    /// a further effect, or a notice on show. After a publish the pane is
    /// back to browsing, whether the publish succeeded or not.
    pub fn report(&mut self, done: Effect, reply: Reply) -> (effect: Effect)
        requires
            old(self).wf(),
        ensures
            final(self).wf(),
            (final(self)@, effect@) == reply_step(old(self)@, done@, reply@),
    {
        match done {
            Effect::Idle => Effect::Idle,
            Effect::Purge(_) => {
                self.notice = Some(
                    match reply {
                        Reply::Done => Notice::QueuePurged,
                        _ => Notice::PurgeFailed,
                    },
                );
                Effect::Idle
            },
            Effect::ReadClipboard(k) => match reply {
                Reply::Text(t) => Effect::Publish(k, t),
                _ => {
                    self.notice = Some(Notice::ClipboardFailed);
                    Effect::Idle
                },
            },
            Effect::Publish(_, _) => {
                self.modal = Modal::Normal;
                self.notice = Some(
                    match reply {
                        Reply::Done => Notice::Published,
                        _ => Notice::PublishFailed,
                    },
                );
                Effect::Idle
            },
            Effect::Pop(_) => match reply {
                Reply::Text(t) => Effect::WriteClipboard(t),
                Reply::Empty => {
                    self.notice = Some(Notice::NothingToCopy);
                    Effect::Idle
                },
                _ => {
                    self.notice = Some(Notice::PopFailed);
                    Effect::Idle
                },
            },
            Effect::WriteClipboard(_) => {
                self.notice = Some(
                    match reply {
                        Reply::Done => Notice::Copied,
                        _ => Notice::ClipboardFailed,
                    },
                );
                Effect::Idle
            },
            Effect::ListDir(path) => match reply {
                Reply::Entries(entries) => {
                    let browsing = match &self.modal {
                        Modal::FileBrowse(_) => true,
                        _ => false,
                    };
                    if browsing {
                        self.modal = Modal::FileBrowse(FileNavigator::at(path, entries));
                    }
                    Effect::Idle
                },
                _ => {
                    self.notice = Some(Notice::ListingFailed);
                    Effect::Idle
                },
            },
            Effect::ReadFile(k, _) => match reply {
                Reply::Text(t) => Effect::Publish(k, t),
                _ => {
                    self.notice = Some(Notice::FileFailed);
                    Effect::Idle
                },
            },
        }
    }

    /// The table of queues, cell by cell.
    fn table(&self) -> (cells: Vec<Vec<String>>)
        ensures
            shows(cells@, self@.rows),
    {
        let mut cells: Vec<Vec<String>> = Vec::new();
        let mut r: usize = 0;
        while r < self.rows.len()
            invariant
                r <= self.rows@.len(),
                shows(cells@, self.rows@.subrange(0, r as int)),
            decreases self.rows@.len() - r,
        {
            let row = self.rows[r].padded_row();
            proof {
                let before = self.rows@.subrange(0, r as int);
                let after = self.rows@.subrange(0, r + 1);
                let grown = cells@.push(row);
                assert forall|k: int| 0 <= k < after.len() implies (#[trigger] grown[k])@.len()
                    == COLUMNS && forall|c: int|
                    0 <= c < COLUMNS ==> (#[trigger] grown[k]@[c])@ == padded(after[k].cell(c)) by {
                    if k < r {
                        assert(grown[k] == cells@[k]);
                        assert(after[k] == before[k]);
                    }
                }
            }
            cells.push(row);
            r += 1;
        }
        proof {
            assert(self.rows@.subrange(0, r as int) =~= self.rows@);
        }
        cells
    }

    /// What is drawn, as a function of the snapshot, the cursor, the modal
    /// and the notice alone. Reads only; nothing changes.
    pub fn render(&self) -> (frame: Frame<'_>)
        ensures
            frame.header@.len() == COLUMNS,
            forall|c: int| 0 <= c < COLUMNS ==> (#[trigger] frame.header@[c])@ == heading(c),
            frame.widths@ == seq![28u16, 12u16, 12u16, 12u16, 12u16, 12u16, 12u16],
            shows(frame.cells@, self@.rows),
            frame.selected == self@.cursor,
            frame.modal@ == self@.modal,
            frame.notice == self@.notice,
    {
        Frame {
            header: QueueInfo::headers(),
            widths: column_widths(),
            cells: self.table(),
            selected: self.selection.select(),
            modal: &self.modal,
            notice: self.notice,
        }
    }

    /// In a well-formed pane the cursors are in bounds.
    pub proof fn lemma_cursors_in_bounds(self)
        requires
            self.wf(),
        ensures
            cursors_in_bounds(self@),
    {
        match self.modal {
            Modal::FileBrowse(nav) => {
                nav.lemma_cursor_in_bounds();
            },
            _ => {},
        }
    }

    /// The snapshot.
    pub fn rows(&self) -> (r: &Vec<QueueInfo>)
        ensures
            r@ == self@.rows,
    {
        &self.rows
    }

    /// The index of the selected row.
    pub fn cursor(&self) -> (r: Option<usize>)
        ensures
            r == self@.cursor,
    {
        self.selection.select()
    }

    /// The active modal.
    pub fn modal(&self) -> (r: &Modal)
        ensures
            r@ == self@.modal,
            self.wf() ==> r.wf(),
    {
        &self.modal
    }

    /// The notice on show.
    pub fn notice(&self) -> (r: Option<Notice>)
        ensures
            r == self@.notice,
    {
        self.notice
    }

    /// The selected row; `None` exactly when the snapshot is empty.
    pub fn select(&self) -> (r: Option<&QueueInfo>)
        requires
            self.wf(),
        ensures
            match self@.cursor {
                Some(i) => i < self@.rows.len() && r == Some(&self@.rows[i as int]),
                None => r.is_none() && self@.rows.len() == 0,
            },
    {
        match self.selection.select() {
            Some(i) => Some(&self.rows[i]),
            None => None,
        }
    }
}

} // verus!
