//! The launched side: reading the initiator's address from the launch
//! arguments, and the call that introduces this process to it.
use vstd::prelude::*;
use crate::envelope::{envelope_text, Envelope, Params};
use crate::manager::{peer_url, url_text, OutboundCall};
use crate::text::{parse_port, port_of_text};

verus! {

/// Where the initiator listens, and the token it expects.
pub struct InitiatorAddress {
    pub port: u16,
    pub token: String,
}

/// The method by which a client introduces itself.
pub open spec fn notify_method() -> Seq<char> {
    "connection/notify"@
}

/// The initiator's address, when the launch arguments give a token and a
/// port that reads as a port number.
pub fn client_config(token: Option<String>, port: Option<String>) -> (r: Option<InitiatorAddress>)
    ensures
        r is Some <==> (token is Some && port is Some && port_of_text(port->Some_0@) is Some),
        r is Some ==> ({
            let a = r->Some_0;
            &&& a.token@ == token->Some_0@
            &&& Some(a.port) == port_of_text(port->Some_0@)
        }),
{
    match (token, port) {
        (Some(token), Some(port)) => match parse_port(port.as_str()) {
            Some(port) => Some(InitiatorAddress { port, token }),
            None => None,
        },
        _ => None,
    }
}

impl InitiatorAddress {
    /// The `connection/notify` call that tells the initiator this process
    /// listens on `own_port`, presenting the initiator's token.
    pub fn notify_request(&self, own_port: u16) -> (r: OutboundCall)
        ensures
            r.port == self.port,
            r.url@ == url_text(self.port),
            r.body@ == envelope_text(
                notify_method(),
                None,
                Some(Params::Notify { token: self.token, port: own_port }),
            ),
    {
        let envelope = Envelope {
            method: String::from_str("connection/notify"),
            id: None,
            params: Some(Params::Notify { token: self.token.clone(), port: own_port }),
        };
        let body = envelope.to_json();
        proof {
            assert(envelope.params == Some(Params::Notify { token: self.token, port: own_port }));
        }
        OutboundCall { port: self.port, url: peer_url(self.port), body }
    }
}

} // verus!
