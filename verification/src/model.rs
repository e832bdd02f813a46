use vstd::prelude::*;
use vstd::string::*;

verus! {

/// One queue as the broker reports it.
#[derive(Debug, Clone, PartialEq, Eq)]
pub struct QueueInfo {
    pub name: String,
    pub vhost: String,
    pub state: String,
    pub messages: u64,
    pub messages_ready: u64,
    pub messages_unacknowledged: u64,
    pub consumers: u64,
}

/// The character of a decimal digit.
pub open spec fn digit_char(d: nat) -> char {
    if d == 0 {
        '0'
    } else if d == 1 {
        '1'
    } else if d == 2 {
        '2'
    } else if d == 3 {
        '3'
    } else if d == 4 {
        '4'
    } else if d == 5 {
        '5'
    } else if d == 6 {
        '6'
    } else if d == 7 {
        '7'
    } else if d == 8 {
        '8'
    } else {
        '9'
    }
}

/// A number written in decimal, without leading zeros.
pub open spec fn decimal(n: nat) -> Seq<char>
    decreases n,
{
    if n < 10 {
        seq![digit_char(n)]
    } else {
        decimal(n / 10).push(digit_char(n % 10))
    }
}

/// A decimal digit as text.
fn digit_text(d: u64) -> (r: &'static str)
    requires
        d < 10,
    ensures
        r@ == seq![digit_char(d as nat)],
{
    proof {
        reveal_strlit("0");
        reveal_strlit("1");
        reveal_strlit("2");
        reveal_strlit("3");
        reveal_strlit("4");
        reveal_strlit("5");
        reveal_strlit("6");
        reveal_strlit("7");
        reveal_strlit("8");
        reveal_strlit("9");
    }
    let r = if d == 0 {
        "0"
    } else if d == 1 {
        "1"
    } else if d == 2 {
        "2"
    } else if d == 3 {
        "3"
    } else if d == 4 {
        "4"
    } else if d == 5 {
        "5"
    } else if d == 6 {
        "6"
    } else if d == 7 {
        "7"
    } else if d == 8 {
        "8"
    } else {
        "9"
    };
    assert(r@ =~= seq![digit_char(d as nat)]);
    r
}

/// Writes a number in decimal.
pub fn decimal_text(n: u64) -> (r: String)
    ensures
        r@ == decimal(n as nat),
    decreases n,
{
    if n < 10 {
        String::from_str(digit_text(n))
    } else {
        let r = decimal_text(n / 10).concat(digit_text(n % 10));
        assert(r@ =~= decimal((n / 10) as nat).push(digit_char((n % 10) as nat)));
        r
    }
}

/// Number of columns in the table of queues.
pub const COLUMNS: usize = 7;

/// The heading of each column.
pub open spec fn heading(column: int) -> Seq<char> {
    if column == 0 {
        "name"@
    } else if column == 1 {
        "vhost"@
    } else if column == 2 {
        "state"@
    } else if column == 3 {
        "messages"@
    } else if column == 4 {
        "ready"@
    } else if column == 5 {
        "unacked"@
    } else {
        "consumers"@
    }
}

impl QueueInfo {
    /// What a queue shows in each column.
    pub open spec fn cell(self, column: int) -> Seq<char> {
        if column == 0 {
            self.name@
        } else if column == 1 {
            self.vhost@
        } else if column == 2 {
            self.state@
        } else if column == 3 {
            decimal(self.messages as nat)
        } else if column == 4 {
            decimal(self.messages_ready as nat)
        } else if column == 5 {
            decimal(self.messages_unacknowledged as nat)
        } else {
            decimal(self.consumers as nat)
        }
    }

    /// The headings of the table, one for each column.
    pub fn headers() -> (r: Vec<&'static str>)
        ensures
            r@.len() == COLUMNS,
            forall|c: int| 0 <= c < COLUMNS ==> (#[trigger] r@[c])@ == heading(c),
    {
        let mut r: Vec<&'static str> = Vec::new();
        r.push("name");
        r.push("vhost");
        r.push("state");
        r.push("messages");
        r.push("ready");
        r.push("unacked");
        r.push("consumers");
        r
    }

    /// The queue as a row of the table, one text for each column.
    pub fn to_row(&self) -> (r: Vec<String>)
        ensures
            r@.len() == COLUMNS,
            forall|c: int| 0 <= c < COLUMNS ==> (#[trigger] r@[c])@ == self.cell(c),
    {
        let mut r: Vec<String> = Vec::new();
        r.push(self.name.clone());
        r.push(self.vhost.clone());
        r.push(self.state.clone());
        r.push(decimal_text(self.messages));
        r.push(decimal_text(self.messages_ready));
        r.push(decimal_text(self.messages_unacknowledged));
        r.push(decimal_text(self.consumers));
        r
    }
}

/// A cell's text as the table shows it: on a line of its own, with an empty
/// line above and below.
pub open spec fn padded(text: Seq<char>) -> Seq<char> {
    "\n"@ + text + "\n"@
}

/// Puts a cell's text between two line breaks.
pub fn pad_cell(text: &str) -> (r: String)
    ensures
        r@ == padded(text@),
{
    String::from_str("\n").concat(text).concat("\n")
}

impl QueueInfo {
    /// The queue as a row of padded cells, one for each column.
    pub fn padded_row(&self) -> (r: Vec<String>)
        ensures
            r@.len() == COLUMNS,
            forall|c: int| 0 <= c < COLUMNS ==> (#[trigger] r@[c])@ == padded(self.cell(c)),
    {
        let row = self.to_row();
        let mut r: Vec<String> = Vec::new();
        let mut c: usize = 0;
        while c < COLUMNS
            invariant
                c <= COLUMNS,
                row@.len() == COLUMNS,
                forall|k: int| 0 <= k < COLUMNS ==> (#[trigger] row@[k])@ == self.cell(k),
                r@.len() == c,
                forall|k: int| 0 <= k < c ==> (#[trigger] r@[k])@ == padded(self.cell(k)),
            decreases COLUMNS - c,
        {
            r.push(pad_cell(row[c].as_str()));
            c += 1;
        }
        r
    }
}

/// The share of the table's width that each column takes, in percent.
pub fn column_widths() -> (r: Vec<u16>)
    ensures
        r@ == seq![28u16, 12u16, 12u16, 12u16, 12u16, 12u16, 12u16],
        r@.len() == COLUMNS,
{
    let mut r: Vec<u16> = Vec::new();
    r.push(28);
    r.push(12);
    r.push(12);
    r.push(12);
    r.push(12);
    r.push(12);
    r.push(12);
    assert(r@ =~= seq![28u16, 12u16, 12u16, 12u16, 12u16, 12u16, 12u16]);
    r
}

/// The address of a row for row-targeted actions.
#[derive(Debug, Clone, PartialEq, Eq)]
pub struct RowKey {
    pub name: String,
    pub vhost: String,
}

/// One entry of a directory listing.
#[derive(Debug, Clone, PartialEq, Eq)]
pub struct Entry {
    pub name: String,
    pub is_directory: bool,
}

/// A key press, as far as the pane tells keys apart.
#[derive(Debug, Clone, Copy, PartialEq, Eq, Structural)]
pub enum Key {
    Char(char),
    Enter,
    Esc,
    Up,
    Down,
    Left,
    Right,
    Backspace,
    Other,
}

/// What a key is bound to.
#[derive(Debug, Clone, Copy, PartialEq, Eq, Structural)]
pub enum Command {
    Next,
    Previous,
    RequestPurge,
    ToggleHelp,
    ToggleFiles,
    Paste,
    Pop,
    Submit,
    Affirm,
    Decline,
    Parent,
    Unbound,
}

/// The key bindings.
pub open spec fn binding(key: Key) -> Command {
    match key {
        Key::Down => Command::Next,
        Key::Up => Command::Previous,
        Key::Enter => Command::Submit,
        Key::Backspace => Command::Parent,
        Key::Char(c) => if c == 'j' {
            Command::Next
        } else if c == 'k' {
            Command::Previous
        } else if c == 'd' {
            Command::RequestPurge
        } else if c == '?' {
            Command::ToggleHelp
        } else if c == 'f' {
            Command::ToggleFiles
        } else if c == 'p' {
            Command::Paste
        } else if c == 'c' {
            Command::Pop
        } else if c == 'y' {
            Command::Affirm
        } else if c == 'n' {
            Command::Decline
        } else if c == 'h' {
            Command::Parent
        } else {
            Command::Unbound
        },
        _ => Command::Unbound,
    }
}

/// Looks a key up in the bindings.
pub fn command_of(key: Key) -> (r: Command)
    ensures
        r == binding(key),
{
    match key {
        Key::Down => Command::Next,
        Key::Up => Command::Previous,
        Key::Enter => Command::Submit,
        Key::Backspace => Command::Parent,
        Key::Char(c) => {
            if c == 'j' {
                Command::Next
            } else if c == 'k' {
                Command::Previous
            } else if c == 'd' {
                Command::RequestPurge
            } else if c == '?' {
                Command::ToggleHelp
            } else if c == 'f' {
                Command::ToggleFiles
            } else if c == 'p' {
                Command::Paste
            } else if c == 'c' {
                Command::Pop
            } else if c == 'y' {
                Command::Affirm
            } else if c == 'n' {
                Command::Decline
            } else if c == 'h' {
                Command::Parent
            } else {
                Command::Unbound
            }
        },
        _ => Command::Unbound,
    }
}

/// Whether a notice reports success, a failure, or plain information.
#[derive(Debug, Clone, Copy, PartialEq, Eq, Structural)]
pub enum NoticeKind {
    Success,
    Info,
    Error,
}

/// The one-shot messages the pane can show.
#[derive(Debug, Clone, Copy, PartialEq, Eq, Structural)]
pub enum Notice {
    QueuePurged,
    PurgeFailed,
    Published,
    PublishFailed,
    Copied,
    NothingToCopy,
    PopFailed,
    ClipboardFailed,
    ListingFailed,
    FileFailed,
}

impl Notice {
    /// The kind of each notice.
    pub open spec fn spec_kind(self) -> NoticeKind {
        match self {
            Notice::QueuePurged | Notice::Published | Notice::Copied => NoticeKind::Success,
            Notice::NothingToCopy => NoticeKind::Info,
            _ => NoticeKind::Error,
        }
    }

    /// The text of each notice.
    pub open spec fn spec_text(self) -> Seq<char> {
        match self {
            Notice::QueuePurged => "Queue purged!"@,
            Notice::PurgeFailed => "Purge failed!"@,
            Notice::Published => "Message published!"@,
            Notice::PublishFailed => "Publish failed!"@,
            Notice::Copied => "Message copied!"@,
            Notice::NothingToCopy => "No messages to copy!"@,
            Notice::PopFailed => "Pop failed!"@,
            Notice::ClipboardFailed => "Clipboard unavailable!"@,
            Notice::ListingFailed => "Cannot list directory!"@,
            Notice::FileFailed => "Cannot read file!"@,
        }
    }

    /// Whether the notice reports success, failure or information.
    pub fn kind(self) -> (r: NoticeKind)
        ensures
            r == self.spec_kind(),
    {
        match self {
            Notice::QueuePurged | Notice::Published | Notice::Copied => NoticeKind::Success,
            Notice::NothingToCopy => NoticeKind::Info,
            _ => NoticeKind::Error,
        }
    }

    /// The text to show.
    pub fn text(self) -> (r: &'static str)
        ensures
            r@ == self.spec_text(),
    {
        match self {
            Notice::QueuePurged => "Queue purged!",
            Notice::PurgeFailed => "Purge failed!",
            Notice::Published => "Message published!",
            Notice::PublishFailed => "Publish failed!",
            Notice::Copied => "Message copied!",
            Notice::NothingToCopy => "No messages to copy!",
            Notice::PopFailed => "Pop failed!",
            Notice::ClipboardFailed => "Clipboard unavailable!",
            Notice::ListingFailed => "Cannot list directory!",
            Notice::FileFailed => "Cannot read file!",
        }
    }
}

} // verus!
