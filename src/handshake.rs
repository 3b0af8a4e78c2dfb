//! The token handshake by which a launched process becomes a connection.
use vstd::prelude::*;
use crate::event::ConnectionEvent;
use crate::registry::{registered, ConnectionRegistry};
use crate::json::{json_member, json_member_of, json_object_of, json_str_of, json_u64_of};
use vstd::string::*;

verus! {

/// One field of a request's parameters, as the request carried it.
pub enum ParamField<T> {
    /// The field is not there.
    Absent,
    /// The field is there, with a value of the wrong kind.
    Malformed,
    Present(T),
}

/// The parameters of a `connection/notify` call: the shared token and the
/// port on which the caller listens.
pub struct NotifyParams {
    pub token: ParamField<String>,
    pub port: ParamField<u64>,
}

/// What a `NotifyParams` holds, with the token as its characters.
pub struct NotifyFields {
    pub token: ParamField<Seq<char>>,
    pub port: ParamField<u64>,
}

impl View for NotifyParams {
    type V = NotifyFields;

    open spec fn view(&self) -> NotifyFields {
        NotifyFields {
            token: match self.token {
                ParamField::Absent => ParamField::Absent,
                ParamField::Malformed => ParamField::Malformed,
                ParamField::Present(t) => ParamField::Present(t@),
            },
            port: self.port,
        }
    }
}

pub open spec fn params_view(params: Option<NotifyParams>) -> Option<NotifyFields> {
    match params {
        Some(p) => Some(p@),
        None => None,
    }
}

/// The parameters that a JSON value holds: `token` must be a string and
/// `port` a non-negative integer; a value that is not an object has
/// neither field in the right form.
pub open spec fn fields_of_json(v: serde_json::Value) -> NotifyFields {
    match json_object_of(v) {
        None => NotifyFields { token: ParamField::Malformed, port: ParamField::Malformed },
        Some(members) => NotifyFields {
            token: match json_member_of(members, "token"@) {
                None => ParamField::Absent,
                Some(t) => match json_str_of(t) {
                    Some(text) => ParamField::Present(text),
                    None => ParamField::Malformed,
                },
            },
            port: match json_member_of(members, "port"@) {
                None => ParamField::Absent,
                Some(n) => match json_u64_of(n) {
                    Some(k) => ParamField::Present(k),
                    None => ParamField::Malformed,
                },
            },
        },
    }
}

pub open spec fn json_params_view(params: Option<&serde_json::Value>) -> Option<NotifyFields> {
    match params {
        Some(v) => Some(fields_of_json(*v)),
        None => None,
    }
}

#[derive(Clone, Copy, Debug, PartialEq, Eq, Structural)]
pub enum NotifyError {
    InvalidParameters,
    RequiredParametersNotPresent,
}

pub open spec fn is_absent<T>(f: ParamField<T>) -> bool {
    f is Absent
}

/// What a `connection/notify` call decides, for a receiver whose token is
/// `configured`: the port to register, or the error to answer with.
pub open spec fn notify_outcome(configured: Seq<char>, params: Option<NotifyFields>) -> Result<
    u16,
    NotifyError,
> {
    match params {
        None => Err(NotifyError::RequiredParametersNotPresent),
        Some(p) => if is_absent(p.token) || is_absent(p.port) {
            Err(NotifyError::RequiredParametersNotPresent)
        } else {
            match (p.token, p.port) {
                (ParamField::Present(t), ParamField::Present(n)) => if n > 65535 {
                    Err(NotifyError::InvalidParameters)
                } else if t != configured {
                    Err(NotifyError::RequiredParametersNotPresent)
                } else {
                    Ok(n as u16)
                },
                _ => Err(NotifyError::InvalidParameters),
            }
        },
    }
}

/// The connected ports after a call with the given outcome.
pub open spec fn ports_after(ports: Seq<u16>, outcome: Result<u16, NotifyError>) -> Seq<u16> {
    match outcome {
        Ok(port) => registered(ports, port),
        Err(_) => ports,
    }
}

/// The events raised so far, after a call with the given outcome.
pub open spec fn events_after(
    events: Seq<ConnectionEvent>,
    outcome: Result<u16, NotifyError>,
) -> Seq<ConnectionEvent> {
    match outcome {
        Ok(port) => events.push(ConnectionEvent::Connected(port)),
        Err(_) => events,
    }
}

impl NotifyParams {
    /// Reads the parameters of a `connection/notify` call from their JSON
    /// value.
    pub fn from_json(params: &serde_json::Value) -> (r: NotifyParams)
        ensures
            r@ == fields_of_json(*params),
    {
        match params.as_object() {
            None => NotifyParams { token: ParamField::Malformed, port: ParamField::Malformed },
            Some(members) => {
                let token = match json_member(members, "token") {
                    None => ParamField::Absent,
                    Some(v) => match v.as_str() {
                        Some(t) => ParamField::Present(String::from_str(t)),
                        None => ParamField::Malformed,
                    },
                };
                let port = match json_member(members, "port") {
                    None => ParamField::Absent,
                    Some(v) => match v.as_u64() {
                        Some(n) => ParamField::Present(n),
                        None => ParamField::Malformed,
                    },
                };
                NotifyParams { token, port }
            },
        }
    }
}

impl NotifyError {
    pub open spec fn message_spec(&self) -> Seq<char> {
        match self {
            NotifyError::InvalidParameters => "Invalid parameters"@,
            NotifyError::RequiredParametersNotPresent => "Required parameters were not present."@,
        }
    }

    /// The text sent back to the caller.
    pub fn message(&self) -> (r: String)
        ensures
            r@ == self.message_spec(),
    {
        match self {
            NotifyError::InvalidParameters => String::from_str("Invalid parameters"),
            NotifyError::RequiredParametersNotPresent => String::from_str(
                "Required parameters were not present.",
            ),
        }
    }
}

/// The receiving side of the handshake: the configured token, the
/// connections it accepted, and the events it raised.
pub struct Receiver {
    token: String,
    registry: ConnectionRegistry,
    events: Vec<ConnectionEvent>,
}

impl Receiver {
    pub closed spec fn token_spec(&self) -> Seq<char> {
        self.token@
    }

    pub closed spec fn connections(&self) -> Seq<u16> {
        self.registry@
    }

    pub closed spec fn events_spec(&self) -> Seq<ConnectionEvent> {
        self.events@
    }

    pub closed spec fn wf(&self) -> bool {
        self.registry.wf()
    }

    pub fn new(token: String) -> (r: Self)
        ensures
            r.wf(),
            r.token_spec() == token@,
            r.connections() == Seq::<u16>::empty(),
            r.events_spec() == Seq::<ConnectionEvent>::empty(),
    {
        Receiver { token, registry: ConnectionRegistry::new(), events: Vec::new() }
    }

    pub fn token(&self) -> (r: &String)
        ensures
            r@ == self.token_spec(),
    {
        &self.token
    }

    pub fn registry(&self) -> (r: &ConnectionRegistry)
        requires
            self.wf(),
        ensures
            r@ == self.connections(),
            r.wf(),
    {
        &self.registry
    }

    pub fn events(&self) -> (r: &Vec<ConnectionEvent>)
        ensures
            r@ == self.events_spec(),
    {
        &self.events
    }

    /// Hands the raised events to the caller and forgets them.
    pub fn take_events(&mut self) -> (r: Vec<ConnectionEvent>)
        requires
            old(self).wf(),
        ensures
            final(self).wf(),
            r@ == old(self).events_spec(),
            final(self).events_spec() == Seq::<ConnectionEvent>::empty(),
            final(self).connections() == old(self).connections(),
            final(self).token_spec() == old(self).token_spec(),
    {
        let mut taken = Vec::new();
        std::mem::swap(&mut taken, &mut self.events);
        taken
    }

    /// Answers a `connection/notify` call: on the configured token, registers
    /// the caller's port and raises `Connected`; otherwise changes nothing.
    pub fn on_notify(&mut self, params: Option<NotifyParams>) -> (r: Result<(), NotifyError>)
        requires
            old(self).wf(),
        ensures
            final(self).wf(),
            final(self).token_spec() == old(self).token_spec(),
            match notify_outcome(old(self).token_spec(), params_view(params)) {
                Ok(_) => r is Ok,
                Err(e) => r == Err::<(), NotifyError>(e),
            },
            final(self).connections() == ports_after(
                old(self).connections(),
                notify_outcome(old(self).token_spec(), params_view(params)),
            ),
            final(self).events_spec() == events_after(
                old(self).events_spec(),
                notify_outcome(old(self).token_spec(), params_view(params)),
            ),
    {
        let p = match params {
            None => {
                return Err(NotifyError::RequiredParametersNotPresent);
            },
            Some(p) => p,
        };
        let (token, port) = match (p.token, p.port) {
            (ParamField::Absent, _) => {
                return Err(NotifyError::RequiredParametersNotPresent);
            },
            (_, ParamField::Absent) => {
                return Err(NotifyError::RequiredParametersNotPresent);
            },
            (ParamField::Present(t), ParamField::Present(n)) => (t, n),
            _ => {
                return Err(NotifyError::InvalidParameters);
            },
        };
        if port > 65535 {
            return Err(NotifyError::InvalidParameters);
        }
        if token != self.token {
            return Err(NotifyError::RequiredParametersNotPresent);
        }
        let port = port as u16;
        self.registry.register(port);
        self.events.push(ConnectionEvent::Connected(port));
        Ok(())
    }

    /// Answers a `connection/notify` call whose parameters arrive as JSON,
    /// as `on_notify` answers the parameters that the value holds.
    pub fn on_notify_json(&mut self, params: Option<&serde_json::Value>) -> (r: Result<
        (),
        NotifyError,
    >)
        requires
            old(self).wf(),
        ensures
            final(self).wf(),
            final(self).token_spec() == old(self).token_spec(),
            match notify_outcome(old(self).token_spec(), json_params_view(params)) {
                Ok(_) => r is Ok,
                Err(e) => r == Err::<(), NotifyError>(e),
            },
            final(self).connections() == ports_after(
                old(self).connections(),
                notify_outcome(old(self).token_spec(), json_params_view(params)),
            ),
            final(self).events_spec() == events_after(
                old(self).events_spec(),
                notify_outcome(old(self).token_spec(), json_params_view(params)),
            ),
    {
        let p = match params {
            Some(v) => Some(NotifyParams::from_json(v)),
            None => None,
        };
        self.on_notify(p)
    }

    /// Records that the peer on `port` went away: drops its connection and
    /// raises `Disconnected`, if it was connected.
    pub fn on_disconnect(&mut self, port: u16) -> (removed: bool)
        requires
            old(self).wf(),
        ensures
            final(self).wf(),
            final(self).token_spec() == old(self).token_spec(),
            removed == old(self).connections().contains(port),
            !final(self).connections().contains(port),
            forall|q: u16|
                q != port ==> (final(self).connections().contains(q) <==> old(
                    self,
                ).connections().contains(q)),
            final(self).events_spec() == if removed {
                old(self).events_spec().push(ConnectionEvent::Disconnected(port))
            } else {
                old(self).events_spec()
            },
    {
        let removed = self.registry.remove(port);
        if removed {
            self.events.push(ConnectionEvent::Disconnected(port));
        }
        removed
    }
}

/// A call that presents the configured token and a port not yet connected
/// is accepted: afterwards exactly one connection is on that port, the
/// number of connections has grown by one, and exactly one `Connected`
/// event for that port has been raised.
pub proof fn matching_token_registers_once(
    configured: Seq<char>,
    port: u16,
    ports: Seq<u16>,
    events: Seq<ConnectionEvent>,
)
    requires
        ports.no_duplicates(),
        !ports.contains(port),
    ensures
        ({
            let params = Some(
                NotifyFields {
                    token: ParamField::Present(configured),
                    port: ParamField::Present(port as u64),
                },
            );
            let outcome = notify_outcome(configured, params);
            let after = ports_after(ports, outcome);
            &&& outcome == Ok::<u16, NotifyError>(port)
            &&& after.len() == ports.len() + 1
            &&& after.no_duplicates()
            &&& after.contains(port)
            &&& events_after(events, outcome) == events.push(ConnectionEvent::Connected(port))
        }),
{
    let after = ports.push(port);
    assert(after[ports.len() as int] == port);
    assert forall|i: int, j: int|
        0 <= i < after.len() && 0 <= j < after.len() && i != j implies after[i] != after[j] by {
        if i < ports.len() && j < ports.len() {
            assert(ports[i] != ports[j]);
        } else if i < ports.len() {
            assert(ports.contains(after[i]));
        } else {
            assert(ports.contains(after[j]));
        }
    }
}

/// A call that presents any other token is refused, and leaves the
/// connections and the events as they were.
pub proof fn other_token_is_refused(
    configured: Seq<char>,
    token: Seq<char>,
    port: ParamField<u64>,
    ports: Seq<u16>,
    events: Seq<ConnectionEvent>,
)
    requires
        token != configured,
    ensures
        ({
            let outcome = notify_outcome(
                configured,
                Some(NotifyFields { token: ParamField::Present(token), port }),
            );
            &&& outcome is Err
            &&& ports_after(ports, outcome) == ports
            &&& events_after(events, outcome) == events
        }),
{
}

/// A call whose token or port is missing, or that has no parameters at all,
/// is answered with "Required parameters were not present." and changes
/// nothing.
pub proof fn missing_field_is_refused(
    configured: Seq<char>,
    params: Option<NotifyFields>,
    ports: Seq<u16>,
    events: Seq<ConnectionEvent>,
)
    requires
        match params {
            None => true,
            Some(p) => p.token is Absent || p.port is Absent,
        },
    ensures
        ({
            let outcome = notify_outcome(configured, params);
            &&& outcome == Err::<u16, NotifyError>(NotifyError::RequiredParametersNotPresent)
            &&& ports_after(ports, outcome) == ports
            &&& events_after(events, outcome) == events
        }),
{
}

} // verus!
