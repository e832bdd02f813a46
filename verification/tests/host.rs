use rabbitui::app::App;
use rabbitui::host::{
    perform, poll_once, reply_of_done, reply_of_listing, reply_of_pop, reply_of_text, settle,
    Clipboard, Failure, FileSystem, ManagementClient,
};
use rabbitui::mailbox::Mailbox;
use rabbitui::model::{Entry, Key, Notice, QueueInfo, RowKey};
use rabbitui::pane::{Effect, Modal, Reply};
use rabbitui::queues::QueuesView;
use rabbitui::tabs::SelectedTab;
use std::sync::atomic::{AtomicBool, Ordering};
use std::sync::Mutex;

fn failure() -> Failure {
    Failure { reason: "unreachable".to_string() }
}

fn info(name: &str, vhost: &str) -> QueueInfo {
    QueueInfo {
        name: name.to_string(),
        vhost: vhost.to_string(),
        state: "running".to_string(),
        messages: 0,
        messages_ready: 0,
        messages_unacknowledged: 0,
        consumers: 0,
    }
}

fn address(name: &str, vhost: &str) -> RowKey {
    RowKey { name: name.to_string(), vhost: vhost.to_string() }
}

struct FakeBroker {
    queues: Vec<QueueInfo>,
    waiting: Mutex<Vec<String>>,
    purged: Mutex<Vec<RowKey>>,
    published: Mutex<Vec<(RowKey, String)>>,
    down: AtomicBool,
}

impl FakeBroker {
    fn with(queues: Vec<QueueInfo>) -> FakeBroker {
        FakeBroker {
            queues,
            waiting: Mutex::new(vec![]),
            purged: Mutex::new(vec![]),
            published: Mutex::new(vec![]),
            down: AtomicBool::new(false),
        }
    }

    fn check(&self) -> Result<(), Failure> {
        if self.down.load(Ordering::SeqCst) {
            Err(failure())
        } else {
            Ok(())
        }
    }
}

impl ManagementClient for FakeBroker {
    fn get_queues_info(&self) -> Result<Vec<QueueInfo>, Failure> {
        self.check()?;
        Ok(self.queues.clone())
    }

    fn publish(&self, key: &RowKey, body: &str) -> Result<(), Failure> {
        self.check()?;
        self.published.lock().unwrap().push((key.clone(), body.to_string()));
        Ok(())
    }

    fn pop(&self, _key: &RowKey) -> Result<Option<String>, Failure> {
        self.check()?;
        Ok(self.waiting.lock().unwrap().pop())
    }

    fn purge(&self, key: &RowKey) -> Result<(), Failure> {
        self.check()?;
        self.purged.lock().unwrap().push(key.clone());
        Ok(())
    }

    fn ping(&self) -> Result<(), Failure> {
        self.check()
    }
}

struct FakeClipboard {
    text: Option<String>,
    writes: usize,
}

impl Clipboard for FakeClipboard {
    fn read(&mut self) -> Result<String, Failure> {
        self.text.clone().ok_or_else(failure)
    }

    fn write(&mut self, text: &str) -> Result<(), Failure> {
        self.writes += 1;
        self.text = Some(text.to_string());
        Ok(())
    }
}

struct FakeFiles;

impl FileSystem for FakeFiles {
    fn list_dir(&self, path: &Vec<String>) -> Result<Vec<Entry>, Failure> {
        let parts: Vec<&str> = path.iter().map(|s| s.as_str()).collect();
        match parts.as_slice() {
            [] => Ok(vec![
                Entry { name: "docs".to_string(), is_directory: true },
                Entry { name: "top.txt".to_string(), is_directory: false },
            ]),
            ["docs"] => Ok(vec![Entry { name: "inner.txt".to_string(), is_directory: false }]),
            _ => Err(failure()),
        }
    }

    fn read_file(&self, path: &Vec<String>) -> Result<String, Failure> {
        let parts: Vec<&str> = path.iter().map(|s| s.as_str()).collect();
        match parts.as_slice() {
            ["top.txt"] => Ok("top".to_string()),
            ["docs", "inner.txt"] => Ok("inner".to_string()),
            _ => Err(failure()),
        }
    }
}

fn on_queues_tab(broker: &FakeBroker) -> App {
    let mut app = App::new();
    app.next_tab();
    app.next_tab();
    assert_eq!(app.selected_tab, SelectedTab::Queues);
    let mut mailbox = Mailbox::new();
    poll_once(broker, &mut mailbox);
    app.queues.update(&mut mailbox);
    app
}

#[test]
fn confirmed_purge_reaches_the_broker_once() {
    let broker = FakeBroker::with(vec![info("orders", "/")]);
    let mut clipboard = FakeClipboard { text: None, writes: 0 };
    let mut app = on_queues_tab(&broker);
    assert_eq!(app.queues.cursor(), Some(0));

    app.press(Key::Char('d'), &broker, &mut clipboard, &FakeFiles);
    assert_eq!(
        *app.queues.modal(),
        Modal::Confirm { target: address("orders", "/"), affirmed: false }
    );
    assert!(broker.purged.lock().unwrap().is_empty());

    app.press(Key::Char('y'), &broker, &mut clipboard, &FakeFiles);
    assert!(broker.purged.lock().unwrap().is_empty());
    app.press(Key::Enter, &broker, &mut clipboard, &FakeFiles);

    assert_eq!(*broker.purged.lock().unwrap(), vec![address("orders", "/")]);
    assert_eq!(app.queues.notice().map(|n| n.text()), Some("Queue purged!"));
    assert_eq!(*app.queues.modal(), Modal::Normal);
}

#[test]
fn next_row_with_no_rows_selects_nothing() {
    let broker = FakeBroker::with(vec![]);
    let mut clipboard = FakeClipboard { text: None, writes: 0 };
    let mut app = on_queues_tab(&broker);
    app.press(Key::Char('j'), &broker, &mut clipboard, &FakeFiles);
    assert_eq!(app.queues.cursor(), None);
    assert!(app.queues.select().is_none());
}

#[test]
fn help_lets_no_key_through_to_the_broker() {
    let broker = FakeBroker::with(vec![info("a", "/"), info("b", "/")]);
    let mut clipboard = FakeClipboard { text: None, writes: 0 };
    let mut app = on_queues_tab(&broker);
    app.press(Key::Char('?'), &broker, &mut clipboard, &FakeFiles);
    app.press(Key::Char('j'), &broker, &mut clipboard, &FakeFiles);
    assert_eq!(app.queues.cursor(), Some(0));
    assert_eq!(*app.queues.modal(), Modal::Help);
    app.press(Key::Char('d'), &broker, &mut clipboard, &FakeFiles);
    app.press(Key::Enter, &broker, &mut clipboard, &FakeFiles);
    assert!(broker.purged.lock().unwrap().is_empty());
    assert_eq!(*app.queues.modal(), Modal::Help);
}

#[test]
fn pop_on_empty_queue_leaves_clipboard_untouched() {
    let broker = FakeBroker::with(vec![info("orders", "/")]);
    let mut clipboard = FakeClipboard { text: Some("kept".to_string()), writes: 0 };
    let mut app = on_queues_tab(&broker);
    app.press(Key::Char('c'), &broker, &mut clipboard, &FakeFiles);
    assert_eq!(app.queues.notice(), Some(Notice::NothingToCopy));
    assert_eq!(app.queues.notice().map(|n| n.text()), Some("No messages to copy!"));
    assert_eq!(clipboard.writes, 0);
    assert_eq!(clipboard.text, Some("kept".to_string()));
}

#[test]
fn entering_a_directory_keeps_the_picker() {
    let broker = FakeBroker::with(vec![info("orders", "/")]);
    let mut clipboard = FakeClipboard { text: None, writes: 0 };
    let mut app = on_queues_tab(&broker);
    app.press(Key::Char('f'), &broker, &mut clipboard, &FakeFiles);
    app.press(Key::Enter, &broker, &mut clipboard, &FakeFiles);
    match app.queues.modal() {
        Modal::FileBrowse(nav) => {
            assert_eq!(*nav.path(), vec!["docs".to_string()]);
            assert_eq!(nav.entries().len(), 1);
            assert_eq!(nav.cursor(), Some(0));
        },
        other => panic!("unexpected modal {:?}", other),
    }
    assert!(broker.published.lock().unwrap().is_empty());
}

#[test]
fn picked_file_is_published_to_the_selected_queue() {
    let broker = FakeBroker::with(vec![info("a", "/"), info("b", "/")]);
    let mut clipboard = FakeClipboard { text: None, writes: 0 };
    let mut app = on_queues_tab(&broker);
    app.press(Key::Char('j'), &broker, &mut clipboard, &FakeFiles);
    app.press(Key::Char('f'), &broker, &mut clipboard, &FakeFiles);
    app.press(Key::Enter, &broker, &mut clipboard, &FakeFiles);
    app.press(Key::Enter, &broker, &mut clipboard, &FakeFiles);
    assert_eq!(*broker.published.lock().unwrap(), vec![(address("b", "/"), "inner".to_string())]);
    assert_eq!(app.queues.notice(), Some(Notice::Published));
    assert_eq!(*app.queues.modal(), Modal::Normal);
}

#[test]
fn pop_copies_the_payload() {
    let broker = FakeBroker::with(vec![info("orders", "/")]);
    broker.waiting.lock().unwrap().push("payload".to_string());
    let mut clipboard = FakeClipboard { text: None, writes: 0 };
    let mut app = on_queues_tab(&broker);
    app.press(Key::Char('c'), &broker, &mut clipboard, &FakeFiles);
    assert_eq!(clipboard.text, Some("payload".to_string()));
    assert_eq!(clipboard.writes, 1);
    assert_eq!(app.queues.notice(), Some(Notice::Copied));
}

#[test]
fn paste_publishes_the_clipboard() {
    let broker = FakeBroker::with(vec![info("orders", "/")]);
    let mut clipboard = FakeClipboard { text: Some("hello".to_string()), writes: 0 };
    let mut app = on_queues_tab(&broker);
    app.press(Key::Char('p'), &broker, &mut clipboard, &FakeFiles);
    assert_eq!(*broker.published.lock().unwrap(), vec![(address("orders", "/"), "hello".to_string())]);
    assert_eq!(app.queues.notice(), Some(Notice::Published));
}

#[test]
fn failures_become_notices() {
    let broker = FakeBroker::with(vec![info("orders", "/")]);
    let mut clipboard = FakeClipboard { text: None, writes: 0 };
    let mut app = on_queues_tab(&broker);

    app.press(Key::Char('p'), &broker, &mut clipboard, &FakeFiles);
    assert_eq!(app.queues.notice(), Some(Notice::ClipboardFailed));

    broker.down.store(true, Ordering::SeqCst);
    app.press(Key::Char('c'), &broker, &mut clipboard, &FakeFiles);
    assert_eq!(app.queues.notice(), Some(Notice::PopFailed));

    app.press(Key::Char('d'), &broker, &mut clipboard, &FakeFiles);
    app.press(Key::Char('y'), &broker, &mut clipboard, &FakeFiles);
    app.press(Key::Enter, &broker, &mut clipboard, &FakeFiles);
    assert_eq!(app.queues.notice(), Some(Notice::PurgeFailed));
    assert_eq!(*app.queues.modal(), Modal::Normal);

    clipboard.text = Some("x".to_string());
    app.press(Key::Char('p'), &broker, &mut clipboard, &FakeFiles);
    assert_eq!(app.queues.notice(), Some(Notice::PublishFailed));
    assert!(app.is_running());
}

#[test]
fn failed_poll_keeps_the_last_snapshot() {
    let broker = FakeBroker::with(vec![info("a", "/"), info("b", "/")]);
    let mut mailbox = Mailbox::new();
    let mut pane = QueuesView::new();
    poll_once(&broker, &mut mailbox);
    pane.update(&mut mailbox);
    assert_eq!(pane.rows().len(), 2);
    broker.down.store(true, Ordering::SeqCst);
    poll_once(&broker, &mut mailbox);
    pane.update(&mut mailbox);
    assert_eq!(pane.rows().len(), 2);
    assert_eq!(pane.notice(), None);
}

#[test]
fn failed_poll_does_not_drop_an_unread_snapshot() {
    let broker = FakeBroker::with(vec![info("a", "/")]);
    let mut mailbox = Mailbox::new();
    poll_once(&broker, &mut mailbox);
    broker.down.store(true, Ordering::SeqCst);
    poll_once(&broker, &mut mailbox);
    assert_eq!(mailbox.try_take().map(|v| v.len()), Some(1));
}

#[test]
fn settle_runs_a_chain_to_rest() {
    let broker = FakeBroker::with(vec![info("a", "/")]);
    let mut clipboard = FakeClipboard { text: Some("t".to_string()), writes: 0 };
    let mut pane = QueuesView::new();
    settle(&mut pane, Effect::ReadClipboard(address("a", "/")), &broker, &mut clipboard, &FakeFiles);
    assert_eq!(*broker.published.lock().unwrap(), vec![(address("a", "/"), "t".to_string())]);
    assert_eq!(pane.notice(), Some(Notice::Published));
    settle(&mut pane, Effect::Idle, &broker, &mut clipboard, &FakeFiles);
    assert_eq!(pane.notice(), Some(Notice::Published));
}

#[test]
fn perform_makes_the_call_the_effect_names() {
    let broker = FakeBroker::with(vec![]);
    let mut clipboard = FakeClipboard { text: Some("clip".to_string()), writes: 0 };
    assert_eq!(perform(&Effect::Idle, &broker, &mut clipboard, &FakeFiles), Reply::Done);
    assert_eq!(
        perform(&Effect::ReadClipboard(address("a", "/")), &broker, &mut clipboard, &FakeFiles),
        Reply::Text("clip".to_string())
    );
    assert_eq!(
        perform(&Effect::Pop(address("a", "/")), &broker, &mut clipboard, &FakeFiles),
        Reply::Empty
    );
    assert_eq!(
        perform(&Effect::ListDir(vec!["nowhere".to_string()]), &broker, &mut clipboard, &FakeFiles),
        Reply::Failed
    );
    assert_eq!(
        perform(
            &Effect::ReadFile(address("a", "/"), vec!["top.txt".to_string()]),
            &broker,
            &mut clipboard,
            &FakeFiles
        ),
        Reply::Text("top".to_string())
    );
    assert_eq!(
        perform(&Effect::Purge(address("a", "/")), &broker, &mut clipboard, &FakeFiles),
        Reply::Done
    );
    assert_eq!(broker.purged.lock().unwrap().len(), 1);
    assert!(broker.ping().is_ok());
}

#[test]
fn outcomes_as_replies() {
    assert_eq!(reply_of_done(Ok(())), Reply::Done);
    assert_eq!(reply_of_done(Err(failure())), Reply::Failed);
    assert_eq!(reply_of_text(Ok("t".to_string())), Reply::Text("t".to_string()));
    assert_eq!(reply_of_text(Err(failure())), Reply::Failed);
    assert_eq!(reply_of_pop(Ok(Some("m".to_string()))), Reply::Text("m".to_string()));
    assert_eq!(reply_of_pop(Ok(None)), Reply::Empty);
    assert_eq!(reply_of_pop(Err(failure())), Reply::Failed);
    assert_eq!(reply_of_listing(Ok(vec![])), Reply::Entries(vec![]));
    assert_eq!(reply_of_listing(Err(failure())), Reply::Failed);
}
