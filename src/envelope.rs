//! Request envelopes in the JSON-RPC 2.0 shape, and the messages an
//! initiator sends through them.
use vstd::prelude::*;
use vstd::string::*;
use crate::text::{decimal, decimal_string, json_quoted, json_string};

verus! {

/// The parameters of the requests this library writes.
pub enum Params {
    /// `{"entity": <id>}`
    Entity(u64),
    /// `{"token": <token>, "port": <port>}`, for `connection/notify`.
    Notify { token: String, port: u16 },
}

/// One request: a method name, an optional correlation id and optional
/// parameters. The protocol tag is always "2.0".
pub struct Envelope {
    pub method: String,
    pub id: Option<u64>,
    pub params: Option<Params>,
}

/// A message that an initiator sends to every connection.
pub enum Message {
    /// Asks for the components, of one entity or of all.
    RequestComponents(Option<u64>),
}

pub open spec fn params_text(p: Params) -> Seq<char> {
    match p {
        Params::Entity(e) => "{\"entity\":"@ + decimal(e as nat) + "}"@,
        Params::Notify { token, port } => "{\"token\":"@ + json_quoted(token@) + ",\"port\":"@
            + decimal(port as nat) + "}"@,
    }
}

pub open spec fn id_text(id: Option<u64>) -> Seq<char> {
    match id {
        Some(n) => ",\"id\":"@ + decimal(n as nat),
        None => Seq::empty(),
    }
}

pub open spec fn optional_params_text(params: Option<Params>) -> Seq<char> {
    match params {
        Some(p) => ",\"params\":"@ + params_text(p),
        None => Seq::empty(),
    }
}

/// The JSON text of an envelope; an absent id or absent parameters leave
/// their member out.
pub open spec fn envelope_text(method: Seq<char>, id: Option<u64>, params: Option<Params>) -> Seq<
    char,
> {
    "{\"jsonrpc\":\"2.0\",\"method\":"@ + json_quoted(method) + id_text(id) + optional_params_text(
        params,
    ) + "}"@
}

pub open spec fn method_name_of(m: Message) -> Seq<char> {
    match m {
        Message::RequestComponents(_) => "bevy/list"@,
    }
}

pub open spec fn params_of(m: Message) -> Option<Params> {
    match m {
        Message::RequestComponents(Some(e)) => Some(Params::Entity(e)),
        Message::RequestComponents(None) => None,
    }
}

impl Params {
    pub fn to_json(&self) -> (r: String)
        ensures
            r@ == params_text(*self),
    {
        match self {
            Params::Entity(e) => {
                let mut s = String::from_str("{\"entity\":");
                let d = decimal_string(*e);
                s.append(d.as_str());
                s.append("}");
                s
            },
            Params::Notify { token, port } => {
                let mut s = String::from_str("{\"token\":");
                let q = json_string(token.as_str());
                s.append(q.as_str());
                s.append(",\"port\":");
                let d = decimal_string(*port as u64);
                s.append(d.as_str());
                s.append("}");
                s
            },
        }
    }
}

impl Envelope {
    /// The JSON text sent as the body of the request.
    pub fn to_json(&self) -> (r: String)
        ensures
            r@ == envelope_text(self.method@, self.id, self.params),
    {
        let mut s = String::from_str("{\"jsonrpc\":\"2.0\",\"method\":");
        let q = json_string(self.method.as_str());
        s.append(q.as_str());
        match self.id {
            Some(n) => {
                s.append(",\"id\":");
                let d = decimal_string(n);
                s.append(d.as_str());
            },
            None => {},
        }
        match &self.params {
            Some(p) => {
                s.append(",\"params\":");
                let t = p.to_json();
                s.append(t.as_str());
            },
            None => {},
        }
        s.append("}");
        proof {
            assert(s@ =~= envelope_text(self.method@, self.id, self.params));
        }
        s
    }
}

impl Message {
    /// The method that carries this message.
    pub fn get_method(&self) -> (r: String)
        ensures
            r@ == method_name_of(*self),
    {
        match self {
            Message::RequestComponents(_) => String::from_str("bevy/list"),
        }
    }

    /// The parameters that go with it.
    pub fn get_params(&self) -> (r: Option<Params>)
        ensures
            r == params_of(*self),
    {
        match self {
            Message::RequestComponents(Some(e)) => Some(Params::Entity(*e)),
            Message::RequestComponents(None) => None,
        }
    }

    /// The envelope that carries this message; no response is correlated.
    pub fn to_envelope(&self) -> (r: Envelope)
        ensures
            r.method@ == method_name_of(*self),
            r.id is None,
            r.params == params_of(*self),
    {
        Envelope { method: self.get_method(), id: None, params: self.get_params() }
    }
}

} // verus!
