use vstd::prelude::*;
use crate::host::{after_replies, all_fit, settle, Clipboard, FileSystem, ManagementClient};
use crate::mailbox::Mailbox;
use crate::model::{Key, QueueInfo};
use crate::pane::{adopted, key_step, steps_left, Effect, EffectView, ModalView, PaneView, ReplyView};
use crate::queues::QueuesView;
use crate::tabs::{tab_after, tab_before, SelectedTab};

verus! {

/// Whether the dashboard goes on or is about to stop.
#[derive(Debug, Clone, Copy, PartialEq, Eq, Structural)]
pub enum AppState {
    Running,
    Quitting,
}

impl Default for AppState {
    fn default() -> (r: AppState)
        ensures
            r == AppState::Running,
    {
        AppState::Running
    }
}

/// The dashboard: the tab bar, the run state and the queues pane.
#[derive(Debug)]
pub struct App {
    pub selected_tab: SelectedTab,
    state: AppState,
    pub queues: QueuesView,
}

/// The dashboard as a value.
pub struct AppView {
    pub tab: SelectedTab,
    pub state: AppState,
    pub pane: PaneView,
}

impl View for App {
    type V = AppView;

    closed spec fn view(&self) -> AppView {
        AppView { tab: self.selected_tab, state: self.state, pane: self.queues@ }
    }
}

/// Whether an overlay of the queues pane is up in front of the user: it then
/// gets every key.
pub open spec fn pane_owns_keys(a: AppView) -> bool {
    a.tab == SelectedTab::Queues && a.pane.modal != ModalView::Normal
}

/// A key handed to the queues pane.
pub open spec fn pane_key(a: AppView, key: Key) -> (AppView, EffectView) {
    let (pane, effect) = key_step(a.pane, key);
    (AppView { pane, ..a }, effect)
}

/// The dashboard after a key, and the work the key asks for. While an
/// overlay of the queues pane is up, the pane gets the key. Otherwise `q` and
/// escape quit, left and right change the tab, and any other key goes to the
/// queues pane if its tab is the one shown.
pub open spec fn app_step(a: AppView, key: Key) -> (AppView, EffectView) {
    if pane_owns_keys(a) {
        pane_key(a, key)
    } else if key == Key::Char('q') || key == Key::Esc {
        (AppView { state: AppState::Quitting, ..a }, EffectView::Idle)
    } else if key == Key::Left {
        (AppView { tab: tab_before(a.tab), ..a }, EffectView::Idle)
    } else if key == Key::Right {
        (AppView { tab: tab_after(a.tab), ..a }, EffectView::Idle)
    } else if a.tab == SelectedTab::Queues {
        pane_key(a, key)
    } else {
        (a, EffectView::Idle)
    }
}

impl App {
    /// The queues pane is well formed.
    pub closed spec fn wf(self) -> bool {
        self.queues.wf()
    }

    /// A dashboard on its first tab, running, with an empty queues pane.
    pub fn new() -> (r: App)
        ensures
            r.wf(),
            r@.tab == SelectedTab::Overview,
            r@.state == AppState::Running,
            r@.pane == (PaneView {
                rows: Seq::empty(),
                cursor: None,
                modal: ModalView::Normal,
                notice: None,
            }),
    {
        App {
            selected_tab: SelectedTab::Overview,
            state: AppState::Running,
            queues: QueuesView::new(),
        }
    }

    /// Whether the main loop goes on.
    pub fn is_running(&self) -> (r: bool)
        ensures
            r == (self@.state == AppState::Running),
    {
        self.state == AppState::Running
    }

    /// Shows the tab to the right, if there is one.
    pub fn next_tab(&mut self)
        ensures
            final(self)@ == (AppView { tab: tab_after(old(self)@.tab), ..old(self)@ }),
            final(self).wf() == old(self).wf(),
    {
        self.selected_tab = self.selected_tab.next();
    }

    /// Shows the tab to the left, if there is one.
    pub fn previous_tab(&mut self)
        ensures
            final(self)@ == (AppView { tab: tab_before(old(self)@.tab), ..old(self)@ }),
            final(self).wf() == old(self).wf(),
    {
        self.selected_tab = self.selected_tab.previous();
    }

    /// Hands what waits in the mailbox to the queues pane, whichever tab is
    /// shown.
    pub fn update(&mut self, mailbox: &mut Mailbox<Vec<QueueInfo>>)
        requires
            old(self).wf(),
        ensures
            final(self).wf(),
            final(mailbox).pending().is_none(),
            final(self)@ == (AppView {
                pane: match old(mailbox).pending() {
                    Some(rows) => adopted(old(self)@.pane, rows@),
                    None => old(self)@.pane,
                },
                ..old(self)@
            }),
    {
        self.queues.update(mailbox);
    }

    /// Makes the main loop stop.
    pub fn exit(&mut self)
        ensures
            final(self)@ == (AppView { state: AppState::Quitting, ..old(self)@ }),
            final(self).wf() == old(self).wf(),
    {
        self.state = AppState::Quitting;
    }

    /// Routes one key press and returns the work it asks for.
    pub fn handle_key_event(&mut self, key: Key) -> (effect: Effect)
        requires
            old(self).wf(),
        ensures
            final(self).wf(),
            (final(self)@, effect@) == app_step(old(self)@, key),
    {
        let on_queues = match self.selected_tab {
            SelectedTab::Queues => true,
            _ => false,
        };
        if on_queues && !self.queues.modal().is_normal() {
            return self.queues.handle_key(key);
        }
        match key {
            Key::Char(c) => {
                if c == 'q' {
                    self.exit();
                    Effect::Idle
                } else if on_queues {
                    self.queues.handle_key(key)
                } else {
                    Effect::Idle
                }
            },
            Key::Esc => {
                self.exit();
                Effect::Idle
            },
            Key::Left => {
                self.previous_tab();
                Effect::Idle
            },
            Key::Right => {
                self.next_tab();
                Effect::Idle
            },
            _ => {
                if on_queues {
                    self.queues.handle_key(key)
                } else {
                    Effect::Idle
                }
            },
        }
    }
}

impl App {
    /// Routes one key press and carries out all the work it leads to. The
    /// tab and the run state are what the key alone makes them; the pane ends
    /// where at most two reports lead from where the key left it.
    pub fn press<M: ManagementClient, C: Clipboard, F: FileSystem>(
        &mut self,
        key: Key,
        client: &M,
        clipboard: &mut C,
        files: &F,
    )
        requires
            old(self).wf(),
        ensures
            final(self).wf(),
            final(self)@.tab == app_step(old(self)@, key).0.tab,
            final(self)@.state == app_step(old(self)@, key).0.state,
            exists|replies: Seq<ReplyView>|
                replies.len() <= steps_left(app_step(old(self)@, key).1) && all_fit(
                    app_step(old(self)@, key).0.pane,
                    app_step(old(self)@, key).1,
                    replies,
                ) && #[trigger] after_replies(
                    app_step(old(self)@, key).0.pane,
                    app_step(old(self)@, key).1,
                    replies,
                ) == (final(self)@.pane, EffectView::Idle),
    {
        let effect = self.handle_key_event(key);
        let ghost routed = self@.pane;
        let ghost first = effect@;
        settle(&mut self.queues, effect, client, clipboard, files);
        proof {
            let replies = choose|replies: Seq<ReplyView>|
                replies.len() <= steps_left(first) && all_fit(routed, first, replies)
                    && #[trigger] after_replies(routed, first, replies) == (
                    self@.pane,
                    EffectView::Idle,
                );
            assert(after_replies(
                app_step(old(self)@, key).0.pane,
                app_step(old(self)@, key).1,
                replies,
            ) == (self@.pane, EffectView::Idle));
        }
    }
}

/// Once the dashboard is quitting, no key makes it run again.
pub proof fn lemma_quitting_is_final(a: AppView, key: Key)
    requires
        a.state == AppState::Quitting,
    ensures
        app_step(a, key).0.state == AppState::Quitting,
{
}

/// While an overlay of the queues pane is up, no key quits or changes the
/// tab.
pub proof fn lemma_overlay_captures_keys(a: AppView, key: Key)
    requires
        pane_owns_keys(a),
    ensures
        app_step(a, key).0.tab == a.tab,
        app_step(a, key).0.state == a.state,
        app_step(a, key) == pane_key(a, key),
{
}

} // verus!
