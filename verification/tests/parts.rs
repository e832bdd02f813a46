use rabbitui::app::App;
use rabbitui::client::{
    contents_endpoint_of, encode_vhost, get_endpoint_of, publish_endpoint_of, Ackmode, Cli, Client,
};
use rabbitui::mailbox::Mailbox;
use rabbitui::model::{
    column_widths, command_of, decimal_text, pad_cell, Command, Key, QueueInfo, COLUMNS,
};
use rabbitui::pane::{Effect, Modal};
use rabbitui::poller::{forward, INPUT_WAIT_MILLIS, POLL_INTERVAL_SECS};
use rabbitui::selection::RowSelection;
use rabbitui::tabs::SelectedTab;

fn row(name: &str) -> QueueInfo {
    QueueInfo {
        name: name.to_string(),
        vhost: "/".to_string(),
        state: "idle".to_string(),
        messages: 3,
        messages_ready: 2,
        messages_unacknowledged: 1,
        consumers: 1,
    }
}

#[test]
fn mailbox_starts_empty() {
    let mut mailbox: Mailbox<u32> = Mailbox::new();
    assert_eq!(mailbox.try_take(), None);
}

#[test]
fn mailbox_yields_only_the_latest_delivery() {
    let mut mailbox = Mailbox::new();
    for v in 1..=7u32 {
        mailbox.deliver(v);
    }
    assert_eq!(mailbox.try_take(), Some(7));
    assert_eq!(mailbox.try_take(), None);
    assert_eq!(mailbox.try_take(), None);
}

#[test]
fn mailbox_value_is_taken_once() {
    let mut mailbox = Mailbox::new();
    mailbox.deliver("a".to_string());
    assert_eq!(mailbox.try_take(), Some("a".to_string()));
    assert_eq!(mailbox.try_take(), None);
    mailbox.deliver("b".to_string());
    assert_eq!(mailbox.try_take(), Some("b".to_string()));
}

#[test]
fn failed_poll_leaves_the_mailbox_alone() {
    let mut mailbox = Mailbox::new();
    forward(&mut mailbox, None);
    assert_eq!(mailbox.try_take(), None);
    forward(&mut mailbox, Some(vec![row("a")]));
    forward(&mut mailbox, None);
    assert_eq!(mailbox.try_take().map(|v| v.len()), Some(1));
    forward(&mut mailbox, Some(vec![row("a")]));
    forward(&mut mailbox, Some(vec![row("b"), row("c")]));
    assert_eq!(mailbox.try_take().map(|v| v.len()), Some(2));
}

#[test]
fn poll_cadence() {
    assert_eq!(POLL_INTERVAL_SECS, 5);
    assert_eq!(INPUT_WAIT_MILLIS, 100);
}

#[test]
fn selection_starts_on_first_row() {
    assert_eq!(RowSelection::new(3).select(), Some(0));
    assert_eq!(RowSelection::new(0).select(), None);
    assert_eq!(RowSelection::new(3).len(), 3);
}

#[test]
fn selection_stays_in_bounds_under_any_moves() {
    for len in 0..5usize {
        let mut s = RowSelection::new(len);
        let moves = [true, true, false, true, true, true, true, false, false, false, false, false, false, true];
        for down in moves {
            if down {
                s.next();
            } else {
                s.previous();
            }
            match s.select() {
                Some(i) => assert!(i < len),
                None => assert_eq!(len, 0),
            }
        }
    }
}

#[test]
fn selection_does_not_wrap() {
    let mut s = RowSelection::new(2);
    s.previous();
    assert_eq!(s.select(), Some(0));
    s.next();
    assert_eq!(s.select(), Some(1));
    s.next();
    assert_eq!(s.select(), Some(1));
}

#[test]
fn selection_reset_clamps() {
    let mut s = RowSelection::new(10);
    for _ in 0..7 {
        s.next();
    }
    assert_eq!(s.select(), Some(7));
    s.reset_for(20);
    assert_eq!(s.select(), Some(7));
    s.reset_for(8);
    assert_eq!(s.select(), Some(7));
    s.reset_for(4);
    assert_eq!(s.select(), Some(3));
    s.reset_for(0);
    assert_eq!(s.select(), None);
    s.reset_for(2);
    assert_eq!(s.select(), Some(0));
    assert_eq!(s.len(), 2);
}

#[test]
fn key_bindings() {
    assert_eq!(command_of(Key::Char('j')), Command::Next);
    assert_eq!(command_of(Key::Down), Command::Next);
    assert_eq!(command_of(Key::Char('k')), Command::Previous);
    assert_eq!(command_of(Key::Up), Command::Previous);
    assert_eq!(command_of(Key::Char('d')), Command::RequestPurge);
    assert_eq!(command_of(Key::Char('?')), Command::ToggleHelp);
    assert_eq!(command_of(Key::Char('f')), Command::ToggleFiles);
    assert_eq!(command_of(Key::Char('p')), Command::Paste);
    assert_eq!(command_of(Key::Char('c')), Command::Pop);
    assert_eq!(command_of(Key::Enter), Command::Submit);
    assert_eq!(command_of(Key::Char('y')), Command::Affirm);
    assert_eq!(command_of(Key::Char('n')), Command::Decline);
    assert_eq!(command_of(Key::Backspace), Command::Parent);
    assert_eq!(command_of(Key::Char('h')), Command::Parent);
    assert_eq!(command_of(Key::Char('x')), Command::Unbound);
    assert_eq!(command_of(Key::Left), Command::Unbound);
    assert_eq!(command_of(Key::Right), Command::Unbound);
    assert_eq!(command_of(Key::Esc), Command::Unbound);
    assert_eq!(command_of(Key::Other), Command::Unbound);
}

#[test]
fn tabs_step_and_stop_at_the_ends() {
    assert_eq!(SelectedTab::default(), SelectedTab::Overview);
    assert_eq!(SelectedTab::Overview.previous(), SelectedTab::Overview);
    assert_eq!(SelectedTab::Overview.next(), SelectedTab::Exchanges);
    assert_eq!(SelectedTab::Exchanges.previous(), SelectedTab::Overview);
    assert_eq!(SelectedTab::Exchanges.next(), SelectedTab::Queues);
    assert_eq!(SelectedTab::Queues.previous(), SelectedTab::Exchanges);
    assert_eq!(SelectedTab::Queues.next(), SelectedTab::Queues);
}

#[test]
fn tabs_by_position() {
    assert_eq!(SelectedTab::from_repr(0), Some(SelectedTab::Overview));
    assert_eq!(SelectedTab::from_repr(1), Some(SelectedTab::Exchanges));
    assert_eq!(SelectedTab::from_repr(2), Some(SelectedTab::Queues));
    assert_eq!(SelectedTab::from_repr(3), None);
    assert_eq!(SelectedTab::from_repr(usize::MAX), None);
    assert_eq!(SelectedTab::Queues.index(), 2);
}

#[test]
fn tab_titles_are_padded_names() {
    assert_eq!(SelectedTab::Overview.title(), "  Overview  ");
    assert_eq!(SelectedTab::Exchanges.title(), "  Exchanges  ");
    assert_eq!(SelectedTab::Queues.title(), "  Queues  ");
    assert_eq!(SelectedTab::Queues.name(), "Queues");
}

#[test]
fn app_quits_on_q_and_escape() {
    let mut app = App::new();
    assert!(app.is_running());
    assert_eq!(app.handle_key_event(Key::Char('q')), Effect::Idle);
    assert!(!app.is_running());
    let mut app = App::new();
    app.handle_key_event(Key::Esc);
    assert!(!app.is_running());
    let mut app = App::new();
    app.exit();
    assert!(!app.is_running());
}

#[test]
fn app_changes_tabs_with_arrows() {
    let mut app = App::new();
    assert_eq!(app.selected_tab, SelectedTab::Overview);
    app.handle_key_event(Key::Left);
    assert_eq!(app.selected_tab, SelectedTab::Overview);
    app.handle_key_event(Key::Right);
    assert_eq!(app.selected_tab, SelectedTab::Exchanges);
    app.handle_key_event(Key::Right);
    app.handle_key_event(Key::Right);
    assert_eq!(app.selected_tab, SelectedTab::Queues);
    app.previous_tab();
    assert_eq!(app.selected_tab, SelectedTab::Exchanges);
    app.next_tab();
    assert_eq!(app.selected_tab, SelectedTab::Queues);
    assert!(app.is_running());
}

#[test]
fn app_hands_other_keys_to_the_queues_pane_on_its_tab_only() {
    let mut app = App::new();
    let mut mailbox = Mailbox::new();
    mailbox.deliver(vec![row("a"), row("b")]);
    app.update(&mut mailbox);
    assert_eq!(mailbox.try_take(), None);
    app.handle_key_event(Key::Char('j'));
    assert_eq!(app.queues.cursor(), Some(0));
    app.next_tab();
    app.next_tab();
    app.handle_key_event(Key::Char('j'));
    assert_eq!(app.queues.cursor(), Some(1));
}

#[test]
fn overlay_captures_quit_and_tab_keys() {
    let mut app = App::new();
    app.next_tab();
    app.next_tab();
    app.handle_key_event(Key::Char('?'));
    assert_eq!(*app.queues.modal(), Modal::Help);
    app.handle_key_event(Key::Char('q'));
    app.handle_key_event(Key::Esc);
    app.handle_key_event(Key::Left);
    assert!(app.is_running());
    assert_eq!(app.selected_tab, SelectedTab::Queues);
    assert_eq!(*app.queues.modal(), Modal::Help);
    app.handle_key_event(Key::Char('?'));
    app.handle_key_event(Key::Left);
    assert_eq!(app.selected_tab, SelectedTab::Exchanges);
}

#[test]
fn vhost_slashes_are_percent_encoded() {
    assert_eq!(encode_vhost("/"), "%2F");
    assert_eq!(encode_vhost(""), "");
    assert_eq!(encode_vhost("prod"), "prod");
    assert_eq!(encode_vhost("a/b/"), "a%2Fb%2F");
    assert_eq!(encode_vhost("ü/€"), "ü%2F€");
}

#[test]
fn client_builds_addresses() {
    let client = Client::new("http://localhost:15672", "admin", Some("secret".to_string()));
    assert_eq!(client.addr(), "http://localhost:15672");
    assert_eq!(client.user(), "admin");
    assert_eq!(client.pass(), Some(&"secret".to_string()));
    assert_eq!(client.url("/api/queues"), "http://localhost:15672/api/queues");
    assert_eq!(client.url(Client::queues_endpoint()), "http://localhost:15672/api/queues");
    assert_eq!(Client::exchanges_endpoint(), "/api/exchanges");
    assert_eq!(Client::overview_endpoint(), "/api/overview");
    assert_eq!(
        Client::bindings_endpoint("/", "amq.direct"),
        "/api/exchanges/%2F/amq.direct/bindings/source"
    );
    assert_eq!(
        Client::bindings_endpoint("team/a", "events"),
        "/api/exchanges/team%2Fa/events/bindings/source"
    );
    let anonymous = Client::new("http://broker", "guest", None);
    assert_eq!(anonymous.pass(), None);
}

#[test]
fn cli_defaults_describe_a_local_broker() {
    let cli = Cli::default();
    assert_eq!(cli.addr, "http://localhost:15672");
    assert_eq!(cli.user, "guest");
    assert_eq!(cli.pass, "guest");
    let client = cli.client();
    assert_eq!(client.url("/api/overview"), "http://localhost:15672/api/overview");
    assert_eq!(client.pass(), Some(&"guest".to_string()));
}

#[test]
fn ack_modes_on_the_wire() {
    assert_eq!(Ackmode::AckRequeueTrue.wire_name(), "ack_requeue_true");
    assert_eq!(Ackmode::AckRequeueFalse.wire_name(), "ack_requeue_false");
    assert_eq!(Ackmode::RejectRequeueTrue.wire_name(), "reject_requeue_true");
    assert_eq!(Ackmode::RejectRequeueFalse.wire_name(), "reject_requeue_false");
}

#[test]
fn queue_action_endpoints() {
    assert_eq!(contents_endpoint_of("/", "orders"), "/api/queues/%2F/orders/contents");
    assert_eq!(get_endpoint_of("/", "orders"), "/api/queues/%2F/orders/get");
    assert_eq!(get_endpoint_of("a/b", "q"), "/api/queues/a%2Fb/q/get");
    assert_eq!(publish_endpoint_of("/"), "/api/exchanges/%2F/amq.default/publish");
    assert_eq!(publish_endpoint_of("prod"), "/api/exchanges/prod/amq.default/publish");
}

#[test]
fn numbers_in_decimal() {
    assert_eq!(decimal_text(0), "0");
    assert_eq!(decimal_text(7), "7");
    assert_eq!(decimal_text(10), "10");
    assert_eq!(decimal_text(1234567890), "1234567890");
    assert_eq!(decimal_text(u64::MAX), "18446744073709551615");
}

#[test]
fn queue_as_table_row() {
    assert_eq!(COLUMNS, 7);
    assert_eq!(
        QueueInfo::headers(),
        vec!["name", "vhost", "state", "messages", "ready", "unacked", "consumers"]
    );
    let mut q = row("orders");
    q.messages = 120;
    assert_eq!(q.to_row(), vec!["orders", "/", "idle", "120", "2", "1", "1"]);
}

#[test]
fn effects_know_when_they_are_idle() {
    assert!(Effect::Idle.is_idle());
    assert!(!Effect::ListDir(vec![]).is_idle());
    assert!(!Effect::WriteClipboard(String::new()).is_idle());
}

#[test]
fn cells_are_padded_with_line_breaks() {
    assert_eq!(pad_cell("orders"), "\norders\n");
    assert_eq!(pad_cell(""), "\n\n");
    let q = row("orders");
    assert_eq!(
        q.padded_row(),
        vec!["\norders\n", "\n/\n", "\nidle\n", "\n3\n", "\n2\n", "\n1\n", "\n1\n"]
    );
    assert_eq!(column_widths(), vec![28, 12, 12, 12, 12, 12, 12]);
}

#[test]
fn all_tabs_in_display_order() {
    assert_eq!(
        SelectedTab::all(),
        vec![SelectedTab::Overview, SelectedTab::Exchanges, SelectedTab::Queues]
    );
    for (i, tab) in SelectedTab::all().into_iter().enumerate() {
        assert_eq!(tab.index(), i);
        assert_eq!(SelectedTab::from_repr(i), Some(tab));
    }
}
