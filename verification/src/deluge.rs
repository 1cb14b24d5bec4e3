//! The JSON-RPC calls that drive a Deluge Web UI, and the choice of the host
//! to connect to.
use vstd::prelude::*;
use crate::text::{decimal, push_char, same_text, u64_decimal};
use crate::trusted::{lowercase, to_lowercase};

verus! {

/// How many request ids a session uses before it starts again from 0.
pub const ID_LIMIT: u32 = 1024;

/// A session with a Deluge Web UI: the address of its endpoint and the id
/// of the next request. Sending the requests is left to the caller.
pub struct Deluge {
    endpoint: String,
    id: u32,
}

/// The address of a session's endpoint and the id of its next request.
pub struct DelugeView {
    pub endpoint: Seq<char>,
    pub id: nat,
}

impl View for Deluge {
    type V = DelugeView;

    closed spec fn view(&self) -> DelugeView {
        DelugeView { endpoint: self.endpoint@, id: self.id as nat }
    }
}

/// A request to send: where, and what.
pub struct RpcRequest {
    pub url: String,
    pub body: String,
}

/// An endpoint address that ends with `/`.
pub open spec fn with_slash(endpoint: Seq<char>) -> Seq<char> {
    if endpoint.len() > 0 && endpoint.last() == '/' {
        endpoint
    } else {
        endpoint.push('/')
    }
}

/// The id that follows `id`: one more, and 0 again after 1023.
pub open spec fn next_id(id: nat) -> nat {
    if id + 1 >= ID_LIMIT {
        0
    } else {
        id + 1
    }
}

/// The body of a JSON-RPC call: `{"method": "M", "params": P, "id": N}`.
pub open spec fn rpc_body(method: Seq<char>, params: Seq<char>, id: nat) -> Seq<char> {
    "{\"method\": \""@ + method + "\", \"params\": "@ + params + ", \"id\": "@ + decimal(id) + "}"@
}

/// A list of one quoted text: `["T"]`.
pub open spec fn one_param(t: Seq<char>) -> Seq<char> {
    "[\""@ + t + "\"]"@
}

/// The parameters of `core.add_torrent_magnet`:
/// `["MAGNET", {"move_completed_path": "DIR"}]`.
pub open spec fn magnet_params(magnet: Seq<char>, move_to: Seq<char>) -> Seq<char> {
    "[\""@ + magnet + "\", {\"move_completed_path\": \""@ + move_to + "\"}]"@
}

/// `r` goes to the session's `json` endpoint with the given body.
pub open spec fn request_is(r: RpcRequest, d: DelugeView, body: Seq<char>) -> bool {
    r.url@ == d.endpoint + "json"@ && r.body@ == body
}

impl Deluge {
    #[verifier::type_invariant]
    spec fn id_in_range(&self) -> bool {
        self.id < ID_LIMIT
    }

    /// A session with the Web UI at `endpoint`, a `/` added where it does
    /// not end with one; its first request has id 0.
    pub fn new(endpoint: String) -> (d: Deluge)
        ensures
            d@.endpoint == with_slash(endpoint@),
            d@.id == 0,
    {
        let mut endpoint = endpoint;
        let cs = crate::text::chars_of(endpoint.as_str());
        if !(cs.len() > 0 && cs[cs.len() - 1] == '/') {
            push_char(&mut endpoint, '/');
        }
        Deluge { endpoint, id: 0 }
    }

    /// The id of the next request; always below 1024.
    pub fn id(&self) -> (id: u32)
        ensures
            id == self@.id,
            id < ID_LIMIT,
    {
        proof { use_type_invariant(self); }
        self.id
    }

    /// Moves on to the next request id, once a request went through.
    pub fn advance_id(&mut self)
        ensures
            final(self)@.endpoint == old(self)@.endpoint,
            final(self)@.id == next_id(old(self)@.id),
    {
        proof { use_type_invariant(&*self); }
        let next = if self.id + 1 >= ID_LIMIT { 0 } else { self.id + 1 };
        self.id = next;
    }

    fn request(&self, method: &str, params: &str) -> (r: RpcRequest)
        ensures
            request_is(r, self@, rpc_body(method@, params@, self@.id)),
    {
        let mut url = self.endpoint.clone();
        url.append("json");
        let mut body = "{\"method\": \"".to_owned();
        body.append(method);
        body.append("\", \"params\": ");
        body.append(params);
        body.append(", \"id\": ");
        let digits = u64_decimal(self.id as u64);
        body.append(digits.as_str());
        push_char(&mut body, '}');
        proof {
            reveal_strlit("json");
            reveal_strlit("{\"method\": \"");
            reveal_strlit("\", \"params\": ");
            reveal_strlit(", \"id\": ");
            reveal_strlit("}");
            assert(body@ =~= rpc_body(method@, params@, self@.id));
        }
        RpcRequest { url, body }
    }

    /// `auth.login` with the given password.
    pub fn login(&self, password: &str) -> (r: RpcRequest)
        ensures
            request_is(r, self@, rpc_body("auth.login"@, one_param(password@), self@.id)),
    {
        let params = quoted_list(password);
        self.request("auth.login", params.as_str())
    }

    /// `web.get_hosts`.
    pub fn get_hosts(&self) -> (r: RpcRequest)
        ensures
            request_is(r, self@, rpc_body("web.get_hosts"@, "[]"@, self@.id)),
    {
        self.request("web.get_hosts", "[]")
    }

    /// `web.get_host_status` of the given host.
    pub fn get_host_status(&self, host: &str) -> (r: RpcRequest)
        ensures
            request_is(r, self@, rpc_body("web.get_host_status"@, one_param(host@), self@.id)),
    {
        let params = quoted_list(host);
        self.request("web.get_host_status", params.as_str())
    }

    /// `web.connect` to the given host.
    pub fn connect_host(&self, host: &str) -> (r: RpcRequest)
        ensures
            request_is(r, self@, rpc_body("web.connect"@, one_param(host@), self@.id)),
    {
        let params = quoted_list(host);
        self.request("web.connect", params.as_str())
    }

    /// `core.add_torrent_magnet` of the given magnet link, the finished
    /// download to be moved to `move_to`.
    pub fn add_magnet(&self, magnet: &str, move_to: &str) -> (r: RpcRequest)
        ensures
            request_is(r, self@, rpc_body("core.add_torrent_magnet"@, magnet_params(magnet@, move_to@), self@.id)),
    {
        let mut params = "[\"".to_owned();
        params.append(magnet);
        params.append("\", {\"move_completed_path\": \"");
        params.append(move_to);
        params.append("\"}]");
        proof {
            reveal_strlit("[\"");
            reveal_strlit("\", {\"move_completed_path\": \"");
            reveal_strlit("\"}]");
            assert(params@ =~= magnet_params(magnet@, move_to@));
        }
        self.request("core.add_torrent_magnet", params.as_str())
    }

    /// `core.get_torrents_status`, with no filter and all fields.
    pub fn get_torrents_status(&self) -> (r: RpcRequest)
        ensures
            request_is(r, self@, rpc_body("core.get_torrents_status"@, "[\"\", \"\"]"@, self@.id)),
    {
        self.request("core.get_torrents_status", "[\"\", \"\"]")
    }
}

/// What a scan for a connected host asks for next.
pub enum ScanStep {
    /// Ask for the status of this host and hand it to `HostScan::on_status`.
    AskStatus(String),
    /// This host is connected: connect to it. The scan is over.
    Connect(String),
    /// No host is connected. The scan is over.
    Finished,
}

/// A walk through the hosts of a Web UI, in order, for the first whose
/// status reads `connected` in any case.
pub struct HostScan {
    hosts: Vec<String>,
    next: usize,
    seen: Ghost<Seq<Seq<char>>>,
}

/// The step that asks about host `i` of `hosts`, or ends the scan after
/// the last one.
pub open spec fn ask_or_finish(hosts: Seq<Seq<char>>, i: nat, step: ScanStep) -> bool {
    if i < hosts.len() {
        step matches ScanStep::AskStatus(h) && h@ == hosts[i as int]
    } else {
        step is Finished
    }
}

/// `step` connects to the host called `host`.
pub open spec fn connects_to(step: ScanStep, host: Seq<char>) -> bool {
    match step {
        ScanStep::Connect(h) => h@ == host,
        _ => false,
    }
}

/// Whether a status, once lowercased, reads `connected`.
pub open spec fn reads_connected(lowered: Seq<char>) -> bool {
    lowered == "connected"@
}

impl HostScan {
    /// The names of the hosts, in order.
    pub closed spec fn hosts(&self) -> Seq<Seq<char>> {
        self.hosts@.map_values(|h: String| h@)
    }

    /// The position of the host whose status the scan waits for.
    pub closed spec fn position(&self) -> nat {
        self.next as nat
    }

    /// The lowercased statuses handed to the scan so far, in order.
    pub closed spec fn seen(&self) -> Seq<Seq<char>> {
        self.seen@
    }

    /// Every status seen so far is that of the host at its position, and
    /// none reads `connected`.
    pub open spec fn none_connected_yet(&self) -> bool {
        &&& self.seen().len() == self.position()
        &&& forall|k: int| 0 <= k < self.seen().len() ==> !reads_connected(#[trigger] self.seen()[k])
    }

    /// Whether the last step asked for a status, which the scan now waits for.
    pub open spec fn waiting(&self) -> bool {
        self.position() < self.hosts().len()
    }

    /// A scan of the given hosts, and its first step: ask about the first
    /// host, or finish where there is none.
    pub fn start(hosts: Vec<String>) -> (r: (HostScan, ScanStep))
        ensures
            r.0.hosts() == hosts@.map_values(|h: String| h@),
            r.0.position() == 0,
            r.0.seen() == Seq::<Seq<char>>::empty(),
            ask_or_finish(r.0.hosts(), 0, r.1),
    {
        let step = if hosts.len() > 0 {
            ScanStep::AskStatus(hosts[0].clone())
        } else {
            ScanStep::Finished
        };
        (HostScan { hosts, next: 0, seen: Ghost(Seq::empty()) }, step)
    }

    /// The next step, given the lowercased status of the host asked about:
    /// connect to it where it reads `connected`, else ask about the next one.
    pub fn on_lowered_status(&mut self, lowered: &str) -> (step: ScanStep)
        requires
            old(self).waiting(),
        ensures
            final(self).hosts() == old(self).hosts(),
            reads_connected(lowered@) ==> connects_to(step, old(self).hosts()[old(self).position() as int])
                && final(self).position() == old(self).position(),
            !reads_connected(lowered@) ==> final(self).position() == old(self).position() + 1
                && ask_or_finish(final(self).hosts(), final(self).position(), step),
            final(self).seen() == old(self).seen().push(lowered@),
            old(self).none_connected_yet() && !reads_connected(lowered@) ==> final(self).none_connected_yet(),
    {
        proof {
            reveal_strlit("connected");
            assert(self.hosts().len() == self.hosts@.len());
            assert(self.next < self.hosts@.len());
        }
        let count = self.hosts.len();
        let ghost low = lowered@;
        self.seen = Ghost(self.seen@.push(low));
        if same_text(lowered, "connected") {
            ScanStep::Connect(self.hosts[self.next].clone())
        } else {
            self.next = self.next + 1;
            if self.next < count {
                ScanStep::AskStatus(self.hosts[self.next].clone())
            } else {
                ScanStep::Finished
            }
        }
    }

    /// The next step, given the status of the host asked about (see
    /// `on_lowered_status`; the status is lowercased first).
    pub fn on_status(&mut self, status: &str) -> (step: ScanStep)
        requires
            old(self).waiting(),
        ensures
            final(self).hosts() == old(self).hosts(),
            reads_connected(lowercase(status@)) ==> connects_to(step, old(self).hosts()[old(self).position() as int])
                && final(self).position() == old(self).position(),
            !reads_connected(lowercase(status@)) ==> final(self).position() == old(self).position() + 1
                && ask_or_finish(final(self).hosts(), final(self).position(), step),
            final(self).seen() == old(self).seen().push(lowercase(status@)),
            old(self).none_connected_yet() && !reads_connected(lowercase(status@)) ==> final(self).none_connected_yet(),
    {
        let lowered = to_lowercase(status);
        self.on_lowered_status(lowered.as_str())
    }
}

impl Deluge {
    /// Starts the search for the first host that reads `connected`, asking
    /// about the given hosts in order (see `HostScan`).
    pub fn connect_to_first_available_host(hosts: Vec<String>) -> (r: (HostScan, ScanStep))
        ensures
            r.0.hosts() == hosts@.map_values(|h: String| h@),
            r.0.position() == 0,
            r.0.seen() == Seq::<Seq<char>>::empty(),
            ask_or_finish(r.0.hosts(), 0, r.1),
    {
        HostScan::start(hosts)
    }
}

fn quoted_list(t: &str) -> (s: String)
    ensures
        s@ == one_param(t@),
{
    let mut s = "[\"".to_owned();
    s.append(t);
    s.append("\"]");
    proof {
        reveal_strlit("[\"");
        reveal_strlit("\"]");
        assert(s@ =~= one_param(t@));
    }
    s
}

} // verus!
