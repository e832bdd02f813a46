use vstd::prelude::*;
use vstd::string::*;

verus! {

/// How a consumed message is acknowledged.
#[derive(Debug, Clone, Copy, PartialEq, Eq, Structural)]
pub enum Ackmode {
    AckRequeueTrue,
    AckRequeueFalse,
    RejectRequeueTrue,
    RejectRequeueFalse,
}

impl Ackmode {
    /// The name of the mode on the wire.
    pub open spec fn spec_wire_name(self) -> Seq<char> {
        match self {
            Ackmode::AckRequeueTrue => "ack_requeue_true"@,
            Ackmode::AckRequeueFalse => "ack_requeue_false"@,
            Ackmode::RejectRequeueTrue => "reject_requeue_true"@,
            Ackmode::RejectRequeueFalse => "reject_requeue_false"@,
        }
    }

    /// The name of the mode on the wire.
    pub fn wire_name(self) -> (r: &'static str)
        ensures
            r@ == self.spec_wire_name(),
    {
        match self {
            Ackmode::AckRequeueTrue => "ack_requeue_true",
            Ackmode::AckRequeueFalse => "ack_requeue_false",
            Ackmode::RejectRequeueTrue => "reject_requeue_true",
            Ackmode::RejectRequeueFalse => "reject_requeue_false",
        }
    }
}

/// One character of a path segment as it stands in an address: a slash is
/// percent-encoded, anything else stands for itself.
pub open spec fn encoded_char(c: char) -> Seq<char> {
    if c == '/' {
        "%2F"@
    } else {
        seq![c]
    }
}

/// A path segment as it stands in an address.
pub open spec fn encoded(s: Seq<char>) -> Seq<char>
    decreases s.len(),
{
    if s.len() == 0 {
        Seq::empty()
    } else {
        encoded(s.drop_last()) + encoded_char(s.last())
    }
}

/// A segment without a slash is its own encoding.
pub proof fn lemma_encoding_keeps_plain_segments(s: Seq<char>)
    requires
        forall|i: int| 0 <= i < s.len() ==> s[i] != '/',
    ensures
        encoded(s) == s,
    decreases s.len(),
{
    if s.len() > 0 {
        lemma_encoding_keeps_plain_segments(s.drop_last());
        assert(s.drop_last() + seq![s.last()] =~= s);
    }
}

/// Percent-encodes the slashes of a virtual host's name.
pub fn encode_vhost(vhost: &str) -> (r: String)
    ensures
        r@ == encoded(vhost@),
{
    let n: usize = vhost.unicode_len();
    let mut out = String::new();
    let mut i: usize = 0;
    proof {
        assert(vhost@.subrange(0, 0) =~= Seq::<char>::empty());
    }
    while i < n
        invariant
            n == vhost@.len(),
            i <= n,
            out@ == encoded(vhost@.subrange(0, i as int)),
        decreases n - i,
    {
        let c = vhost.get_char(i);
        if c == '/' {
            out.append("%2F");
        } else {
            out.append(vhost.substring_char(i, i + 1));
        }
        proof {
            let pre = vhost@.subrange(0, i + 1);
            assert(pre.drop_last() =~= vhost@.subrange(0, i as int));
            assert(pre.last() == c);
            assert(vhost@.subrange(i as int, i + 1) =~= seq![c]);
        }
        i += 1;
    }
    proof {
        assert(vhost@.subrange(0, n as int) =~= vhost@);
    }
    out
}

/// The address of the list of all exchanges, below the broker's address.
pub open spec fn exchanges_endpoint() -> Seq<char> {
    "/api/exchanges"@
}

/// The address of the broker's overview.
pub open spec fn overview_endpoint() -> Seq<char> {
    "/api/overview"@
}

/// The address of the list of all queues.
pub open spec fn queues_endpoint() -> Seq<char> {
    "/api/queues"@
}

/// The address of the bindings that have the exchange `name` of `vhost` as
/// their source.
pub open spec fn bindings_endpoint(vhost: Seq<char>, name: Seq<char>) -> Seq<char> {
    "/api/exchanges/"@ + encoded(vhost) + "/"@ + name + "/bindings/source"@
}

/// The address of the messages held by the queue `name` of `vhost`: deleting
/// it purges the queue.
pub open spec fn contents_endpoint(vhost: Seq<char>, name: Seq<char>) -> Seq<char> {
    "/api/queues/"@ + encoded(vhost) + "/"@ + name + "/contents"@
}

/// The address at which messages are taken off the queue `name` of `vhost`.
pub open spec fn get_endpoint(vhost: Seq<char>, name: Seq<char>) -> Seq<char> {
    "/api/queues/"@ + encoded(vhost) + "/"@ + name + "/get"@
}

/// The address at which messages are published through the default exchange
/// of `vhost`.
pub open spec fn publish_endpoint(vhost: Seq<char>) -> Seq<char> {
    "/api/exchanges/"@ + encoded(vhost) + "/amq.default/publish"@
}

/// Where the broker's management API is, and who asks.
#[derive(Debug)]
pub struct Client {
    addr: String,
    user: String,
    pass: Option<String>,
}

impl Client {
    /// The broker's address, without a trailing slash.
    pub closed spec fn spec_addr(self) -> Seq<char> {
        self.addr@
    }

    /// The user's name.
    pub closed spec fn spec_user(self) -> Seq<char> {
        self.user@
    }

    /// The password, if there is one.
    pub closed spec fn spec_pass(self) -> Option<String> {
        self.pass
    }

    /// A client for the broker at `addr`.
    pub fn new(addr: &str, user: &str, pass: Option<String>) -> (r: Client)
        ensures
            r.spec_addr() == addr@,
            r.spec_user() == user@,
            r.spec_pass() == pass,
    {
        Client { addr: String::from_str(addr), user: String::from_str(user), pass }
    }

    /// The broker's address.
    pub fn addr(&self) -> (r: &str)
        ensures
            r@ == self.spec_addr(),
    {
        self.addr.as_str()
    }

    /// The user's name.
    pub fn user(&self) -> (r: &str)
        ensures
            r@ == self.spec_user(),
    {
        self.user.as_str()
    }

    /// The password, if there is one.
    pub fn pass(&self) -> (r: Option<&String>)
        ensures
            match self.spec_pass() {
                Some(p) => r == Some(&p),
                None => r.is_none(),
            },
    {
        self.pass.as_ref()
    }

    /// The full address of an endpoint: the broker's address, then the
    /// endpoint.
    pub fn url(&self, endpoint: &str) -> (r: String)
        ensures
            r@ == self.spec_addr() + endpoint@,
    {
        self.addr.clone().concat(endpoint)
    }

    /// The endpoint that lists all exchanges.
    pub fn exchanges_endpoint() -> (r: &'static str)
        ensures
            r@ == exchanges_endpoint(),
    {
        "/api/exchanges"
    }

    /// The endpoint of the broker's overview, which also serves as the
    /// liveness probe.
    pub fn overview_endpoint() -> (r: &'static str)
        ensures
            r@ == overview_endpoint(),
    {
        "/api/overview"
    }

    /// The endpoint that lists all queues.
    pub fn queues_endpoint() -> (r: &'static str)
        ensures
            r@ == queues_endpoint(),
    {
        "/api/queues"
    }

    /// The endpoint of the bindings that have the exchange `name` of `vhost`
    /// as their source.
    pub fn bindings_endpoint(vhost: &str, name: &str) -> (r: String)
        ensures
            r@ == bindings_endpoint(vhost@, name@),
    {
        let n = encode_vhost(vhost);
        String::from_str("/api/exchanges/").concat(n.as_str()).concat("/").concat(name).concat(
            "/bindings/source",
        )
    }
}

/// The endpoint whose deletion purges the queue `name` of `vhost`.
pub fn contents_endpoint_of(vhost: &str, name: &str) -> (r: String)
    ensures
        r@ == contents_endpoint(vhost@, name@),
{
    let n = encode_vhost(vhost);
    String::from_str("/api/queues/").concat(n.as_str()).concat("/").concat(name).concat(
        "/contents",
    )
}

/// The endpoint at which messages are taken off the queue `name` of `vhost`.
pub fn get_endpoint_of(vhost: &str, name: &str) -> (r: String)
    ensures
        r@ == get_endpoint(vhost@, name@),
{
    let n = encode_vhost(vhost);
    String::from_str("/api/queues/").concat(n.as_str()).concat("/").concat(name).concat("/get")
}

/// The endpoint at which messages are published through the default
/// exchange of `vhost`.
pub fn publish_endpoint_of(vhost: &str) -> (r: String)
    ensures
        r@ == publish_endpoint(vhost@),
{
    let n = encode_vhost(vhost);
    String::from_str("/api/exchanges/").concat(n.as_str()).concat("/amq.default/publish")
}

/// The command line's settings.
#[derive(Debug, Clone)]
pub struct Cli {
    pub addr: String,
    pub user: String,
    pub pass: String,
}

impl Default for Cli {
    /// The settings when the command line gives none.
    fn default() -> (r: Cli)
        ensures
            r.addr@ == "http://localhost:15672"@,
            r.user@ == "guest"@,
            r.pass@ == "guest"@,
    {
        Cli {
            addr: String::from_str("http://localhost:15672"),
            user: String::from_str("guest"),
            pass: String::from_str("guest"),
        }
    }
}

impl Cli {
    /// The client that these settings describe.
    pub fn client(&self) -> (r: Client)
        ensures
            r.spec_addr() == self.addr@,
            r.spec_user() == self.user@,
            r.spec_pass() == Some(self.pass),
    {
        Client::new(self.addr.as_str(), self.user.as_str(), Some(self.pass.clone()))
    }
}

} // verus!
