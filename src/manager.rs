//! The initiator's operations: launching a client and sending a message to
//! every connection. The library decides what to launch and what to send;
//! the caller performs it and reports back how each call went.
use vstd::prelude::*;
use vstd::string::*;
use crate::envelope::{envelope_text, method_name_of, params_of, Envelope, Message};
use crate::json::{json_array_of, json_member, json_member_of, json_object_of, json_str_of};
use crate::registry::ConnectionRegistry;
use crate::text::{decimal, decimal_string};

verus! {

/// One HTTP POST to make: the peer's port, the URL and the request body.
pub struct OutboundCall {
    pub port: u16,
    pub url: String,
    pub body: String,
}

/// A process to start: a program, run in a directory with arguments.
pub struct SpawnRequest {
    pub program: String,
    pub directory: String,
    pub args: Vec<String>,
}

/// How one outbound call ended.
#[derive(Clone, Copy, Debug, PartialEq, Eq, Structural)]
pub enum SendOutcome {
    /// The peer answered with a well-formed result.
    Delivered,
    /// The call did not reach the peer (refused, timed out).
    TransportFailed,
    /// The peer answered, but not with a well-formed result.
    MalformedResponse,
}

/// The ports whose call was delivered and those whose call was not.
pub struct SendReport {
    pub delivered: Vec<u16>,
    pub failed: Vec<u16>,
}

/// The address of the endpoint listening on `port` of the loopback interface.
pub open spec fn url_text(port: u16) -> Seq<char> {
    "http://127.0.0.1:"@ + decimal(port as nat)
}

/// The arguments with which a client is launched: its initiator's port and
/// token.
pub open spec fn spawn_args(port: u16, token: Seq<char>) -> Seq<Seq<char>> {
    seq!["run"@, "--"@, "--port"@, decimal(port as nat), "--token"@, token]
}

pub open spec fn call_ports(calls: Seq<OutboundCall>) -> Seq<u16> {
    calls.map_values(|c: OutboundCall| c.port)
}

/// The ports, in call order, whose outcome satisfies `ok` (or fails it, for
/// `ok == false`).
pub open spec fn ports_with(ports: Seq<u16>, outcomes: Seq<SendOutcome>, ok: bool) -> Seq<u16>
    decreases ports.len(),
{
    if ports.len() == 0 || outcomes.len() == 0 {
        Seq::empty()
    } else {
        let rest = ports_with(ports.drop_last(), outcomes.drop_last(), ok);
        if (outcomes.last() == SendOutcome::Delivered) == ok {
            rest.push(ports.last())
        } else {
            rest
        }
    }
}

/// Writes the URL of the endpoint on `port`.
pub fn peer_url(port: u16) -> (r: String)
    ensures
        r@ == url_text(port),
{
    let mut s = String::from_str("http://127.0.0.1:");
    let d = decimal_string(port as u64);
    s.append(d.as_str());
    s
}

/// What an initiator launches clients with: the port it listens on and its
/// token.
pub struct ConnectionManager {
    port: u16,
    token: String,
}

impl ConnectionManager {
    pub closed spec fn port_spec(&self) -> u16 {
        self.port
    }

    pub closed spec fn token_spec(&self) -> Seq<char> {
        self.token@
    }

    pub fn new(port: u16, token: String) -> (r: Self)
        ensures
            r.port_spec() == port,
            r.token_spec() == token@,
    {
        ConnectionManager { port, token }
    }

    pub fn port(&self) -> (r: u16)
        ensures
            r == self.port_spec(),
    {
        self.port
    }

    /// The process that launches the client project at `path`, with this
    /// initiator's port and token as its arguments.
    pub fn connect(&self, path: &str) -> (r: SpawnRequest)
        ensures
            r.program@ == "cargo"@,
            r.directory@ == path@,
            r.args@.map_values(|a: String| a@) == spawn_args(self.port_spec(), self.token_spec()),
    {
        let mut args: Vec<String> = Vec::new();
        args.push(String::from_str("run"));
        args.push(String::from_str("--"));
        args.push(String::from_str("--port"));
        args.push(decimal_string(self.port as u64));
        args.push(String::from_str("--token"));
        args.push(self.token.clone());
        proof {
            assert(args@.map_values(|a: String| a@) =~= spawn_args(self.port, self.token@));
        }
        SpawnRequest {
            program: String::from_str("cargo"),
            directory: String::from_str(path),
            args,
        }
    }

    /// The calls that deliver `message`: one to each registered connection,
    /// in registry order, all with the same body.
    pub fn message(&self, registry: &ConnectionRegistry, message: &Message) -> (r: Vec<
        OutboundCall,
    >)
        ensures
            call_ports(r@) == registry@,
            forall|i: int|
                0 <= i < r@.len() ==> {
                    &&& (#[trigger] r@[i]).url@ == url_text(r@[i].port)
                    &&& r@[i].body@ == envelope_text(
                        method_name_of(*message),
                        None,
                        params_of(*message),
                    )
                },
    {
        let ports = registry.all();
        let envelope: Envelope = message.to_envelope();
        let body = envelope.to_json();
        let mut calls: Vec<OutboundCall> = Vec::new();
        let mut i: usize = 0;
        while i < ports.len()
            invariant
                i <= ports@.len(),
                ports@ == registry@,
                body@ == envelope_text(method_name_of(*message), None, params_of(*message)),
                calls@.len() == i,
                call_ports(calls@) == ports@.subrange(0, i as int),
                forall|k: int|
                    0 <= k < calls@.len() ==> {
                        &&& (#[trigger] calls@[k]).url@ == url_text(calls@[k].port)
                        &&& calls@[k].body@ == body@
                    },
            decreases ports@.len() - i,
        {
            let port = ports[i];
            let call = OutboundCall { port, url: peer_url(port), body: body.clone() };
            let ghost before = calls@;
            calls.push(call);
            i = i + 1;
            assert forall|k: int| 0 <= k < i implies call_ports(calls@)[k] == ports@[k] by {
                if k < i - 1 {
                    assert(calls@[k] == before[k]);
                    assert(call_ports(before)[k] == ports@.subrange(0, i - 1)[k]);
                }
            }
            assert(call_ports(calls@) =~= ports@.subrange(0, i as int));
        }
        assert(ports@.subrange(0, ports@.len() as int) =~= ports@);
        calls
    }

    /// The call that delivers `message` to the connection on `port` alone,
    /// if there is one.
    pub fn message_to(&self, registry: &ConnectionRegistry, port: u16, message: &Message) -> (r:
        Option<OutboundCall>)
        ensures
            r is Some <==> registry@.contains(port),
            r is Some ==> ({
                let c = r->Some_0;
                &&& c.port == port
                &&& c.url@ == url_text(port)
                &&& c.body@ == envelope_text(method_name_of(*message), None, params_of(*message))
            }),
    {
        if !registry.contains(port) {
            return None;
        }
        let envelope: Envelope = message.to_envelope();
        Some(OutboundCall { port, url: peer_url(port), body: envelope.to_json() })
    }
}

/// What a peer's answer to a message says.
pub enum Reply {
    /// The names that a `bevy/list` answer lists.
    Listed(Vec<String>),
    /// The answer is not JSON, is an error, or its result has the wrong shape.
    MalformedResponse,
}

/// A `Reply` with each name as its characters.
pub enum ReplyView {
    Listed(Seq<Seq<char>>),
    MalformedResponse,
}

impl View for Reply {
    type V = ReplyView;

    open spec fn view(&self) -> ReplyView {
        match self {
            Reply::Listed(names) => ReplyView::Listed(names@.map_values(|n: String| n@)),
            Reply::MalformedResponse => ReplyView::MalformedResponse,
        }
    }
}

/// The texts of `items`, when every item is a string.
pub open spec fn texts_of(items: Seq<serde_json::Value>) -> Option<Seq<Seq<char>>> {
    if forall|i: int| 0 <= i < items.len() ==> (#[trigger] json_str_of(items[i])) is Some {
        Some(Seq::new(items.len(), |i: int| json_str_of(items[i])->Some_0))
    } else {
        None
    }
}

/// What the answer to `message` says, given the answer read as JSON
/// (`None` when it was not JSON): the answer to a `bevy/list` message must
/// be an object whose `result` is an array of strings.
pub open spec fn reply_of(message: Message, reply: Option<&serde_json::Value>) -> ReplyView {
    match (message, reply) {
        (Message::RequestComponents(_), Some(v)) => match json_object_of(*v) {
            Some(members) => match json_member_of(members, "result"@) {
                Some(result) => match json_array_of(result) {
                    Some(items) => match texts_of(items) {
                        Some(names) => ReplyView::Listed(names),
                        None => ReplyView::MalformedResponse,
                    },
                    None => ReplyView::MalformedResponse,
                },
                None => ReplyView::MalformedResponse,
            },
            None => ReplyView::MalformedResponse,
        },
        (_, None) => ReplyView::MalformedResponse,
    }
}

fn texts(items: &Vec<serde_json::Value>) -> (r: Option<Vec<String>>)
    ensures
        match texts_of(items@) {
            Some(names) => r is Some && r->Some_0@.map_values(|n: String| n@) == names,
            None => r is None,
        },
{
    let mut names: Vec<String> = Vec::new();
    let mut i: usize = 0;
    while i < items.len()
        invariant
            i <= items@.len(),
            forall|k: int| 0 <= k < i ==> (#[trigger] json_str_of(items@[k])) is Some,
            names@.len() == i,
            names@.map_values(|n: String| n@) =~= Seq::new(
                i as nat,
                |k: int| json_str_of(items@[k])->Some_0,
            ),
        decreases items@.len() - i,
    {
        match items[i].as_str() {
            Some(t) => {
                let ghost before = names@;
                let name = String::from_str(t);
                names.push(name);
                assert(names@ == before.push(name));
                assert(name@ == json_str_of(items@[i as int])->Some_0);
                assert forall|k: int| 0 <= k < i + 1 implies names@.map_values(|n: String| n@)[k]
                    == json_str_of(items@[k])->Some_0 by {
                    if k < i {
                        assert(names@[k] == before[k]);
                        assert(before.map_values(|n: String| n@)[k] == json_str_of(items@[k])->Some_0);
                    }
                }
            },
            None => {
                assert(json_str_of(items@[i as int]) is None);
                return None;
            },
        }
        i = i + 1;
        assert(names@.map_values(|n: String| n@) =~= Seq::new(
            i as nat,
            |k: int| json_str_of(items@[k])->Some_0,
        ));
    }
    Some(names)
}

/// Reads what the answer to `message` says.
pub fn reply_outcome(message: &Message, reply: Option<&serde_json::Value>) -> (r: Reply)
    ensures
        r@ == reply_of(*message, reply),
{
    let v = match reply {
        None => {
            return Reply::MalformedResponse;
        },
        Some(v) => v,
    };
    match message {
        Message::RequestComponents(_) => {},
    }
    let members = match v.as_object() {
        None => {
            return Reply::MalformedResponse;
        },
        Some(m) => m,
    };
    let result = match json_member(members, "result") {
        None => {
            return Reply::MalformedResponse;
        },
        Some(x) => x,
    };
    let items = match result.as_array() {
        None => {
            return Reply::MalformedResponse;
        },
        Some(a) => a,
    };
    match texts(items) {
        Some(names) => Reply::Listed(names),
        None => Reply::MalformedResponse,
    }
}

impl Reply {
    /// How the call ended: delivered exactly when the answer was well formed.
    pub fn outcome(&self) -> (r: SendOutcome)
        ensures
            (r == SendOutcome::Delivered) <==> (self@ is Listed),
            r != SendOutcome::TransportFailed,
    {
        match self {
            Reply::Listed(_) => SendOutcome::Delivered,
            Reply::MalformedResponse => SendOutcome::MalformedResponse,
        }
    }
}

/// Sorts the outcome of each call, given in call order, into the ports
/// that were delivered and those that were not.
pub fn summarize(calls: &Vec<OutboundCall>, outcomes: &Vec<SendOutcome>) -> (r: SendReport)
    requires
        calls@.len() == outcomes@.len(),
    ensures
        r.delivered@ == ports_with(call_ports(calls@), outcomes@, true),
        r.failed@ == ports_with(call_ports(calls@), outcomes@, false),
{
    let ghost ports = call_ports(calls@);
    let mut delivered: Vec<u16> = Vec::new();
    let mut failed: Vec<u16> = Vec::new();
    let mut i: usize = 0;
    while i < calls.len()
        invariant
            i <= calls@.len(),
            calls@.len() == outcomes@.len(),
            ports == call_ports(calls@),
            delivered@ == ports_with(ports.subrange(0, i as int), outcomes@.subrange(0, i as int), true),
            failed@ == ports_with(ports.subrange(0, i as int), outcomes@.subrange(0, i as int), false),
        decreases calls@.len() - i,
    {
        let ghost ps = ports.subrange(0, i + 1);
        let ghost os = outcomes@.subrange(0, i + 1);
        assert(ps.drop_last() =~= ports.subrange(0, i as int));
        assert(os.drop_last() =~= outcomes@.subrange(0, i as int));
        let port = calls[i].port;
        if outcomes[i] == SendOutcome::Delivered {
            delivered.push(port);
        } else {
            failed.push(port);
        }
        i = i + 1;
    }
    assert(ports.subrange(0, i as int) =~= ports);
    assert(outcomes@.subrange(0, i as int) =~= outcomes@);
    SendReport { delivered, failed }
}

/// With no connections there is nothing to call, and a report on no calls
/// holds no port.
pub proof fn no_connections_no_calls(calls: Seq<OutboundCall>, outcomes: Seq<SendOutcome>)
    requires
        call_ports(calls) == Seq::<u16>::empty(),
    ensures
        calls.len() == 0,
        ports_with(call_ports(calls), outcomes, true) == Seq::<u16>::empty(),
        ports_with(call_ports(calls), outcomes, false) == Seq::<u16>::empty(),
{
    assert(call_ports(calls).len() == calls.len());
}

/// When every call is delivered, every port is reported delivered.
pub proof fn all_delivered(ports: Seq<u16>, outcomes: Seq<SendOutcome>)
    requires
        ports.len() == outcomes.len(),
        forall|i: int| 0 <= i < outcomes.len() ==> outcomes[i] == SendOutcome::Delivered,
    ensures
        ports_with(ports, outcomes, true) == ports,
        ports_with(ports, outcomes, false) == Seq::<u16>::empty(),
    decreases ports.len(),
{
    if ports.len() > 0 {
        all_delivered(ports.drop_last(), outcomes.drop_last());
        assert(ports.drop_last().push(ports.last()) =~= ports);
    }
}

/// Each call stands alone: when one of the calls fails and the others go
/// through, every other port is still delivered, and only the failed one is
/// reported as failed.
pub proof fn one_failure_spares_the_rest(ports: Seq<u16>, outcomes: Seq<SendOutcome>, j: int)
    requires
        ports.len() == outcomes.len(),
        0 <= j < ports.len(),
        outcomes[j] != SendOutcome::Delivered,
        forall|i: int| 0 <= i < outcomes.len() && i != j ==> outcomes[i] == SendOutcome::Delivered,
    ensures
        ports_with(ports, outcomes, true) == ports.remove(j),
        ports_with(ports, outcomes, false) == seq![ports[j]],
    decreases ports.len(),
{
    let n = ports.len() - 1;
    if j == n {
        all_delivered(ports.drop_last(), outcomes.drop_last());
        assert(ports.drop_last() =~= ports.remove(j));
        assert(Seq::<u16>::empty().push(ports.last()) =~= seq![ports[j]]);
    } else {
        one_failure_spares_the_rest(ports.drop_last(), outcomes.drop_last(), j);
        assert(ports.drop_last().remove(j).push(ports.last()) =~= ports.remove(j));
    }
}

} // verus!
