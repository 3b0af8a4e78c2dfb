//! The receiving endpoint's method registry: which method names it answers,
//! and on which port it listens.
use vstd::prelude::*;
use vstd::string::*;
use crate::json::{json_member, json_member_of, json_object_of, json_str_of};

verus! {

/// The port an endpoint listens on unless told otherwise.
pub const DEFAULT_PORT: u16 = 1524;

/// The JSON-RPC error code for a method that is not registered.
pub const METHOD_NOT_FOUND: i32 = -32601;

/// The endpoint's configuration. Method `i` is served by the handler that
/// the caller keeps at index `i`; registering a name again keeps its index,
/// so that the caller replaces the handler there.
pub struct CommunicationPlugin {
    port: u16,
    methods: Vec<String>,
}

#[derive(Clone, Copy, Debug, PartialEq, Eq, Structural)]
pub enum DispatchError {
    MethodNotFound,
}

pub open spec fn names_of(methods: Seq<String>) -> Seq<Seq<char>> {
    methods.map_values(|m: String| m@)
}

/// The method names after `name` is registered.
pub open spec fn with_name(names: Seq<Seq<char>>, name: Seq<char>) -> Seq<Seq<char>> {
    if names.contains(name) {
        names
    } else {
        names.push(name)
    }
}

/// A request as the endpoint reads it: the method it calls, and its id and
/// parameters, when it carries them.
pub struct Request<'a> {
    pub method: String,
    pub id: Option<&'a serde_json::Value>,
    pub params: Option<&'a serde_json::Value>,
}

/// The method, id and parameters of a request body, when it is an object
/// whose `jsonrpc` is the string "2.0" and whose `method` is a string.
pub open spec fn request_of(v: serde_json::Value) -> Option<
    (Seq<char>, Option<serde_json::Value>, Option<serde_json::Value>),
> {
    match json_object_of(v) {
        None => None,
        Some(members) => match (
            json_member_of(members, "jsonrpc"@),
            json_member_of(members, "method"@),
        ) {
            (Some(tag), Some(method)) => match (json_str_of(tag), json_str_of(method)) {
                (Some(t), Some(name)) => if t == "2.0"@ {
                    Some((name, json_member_of(members, "id"@), json_member_of(members, "params"@)))
                } else {
                    None
                },
                _ => None,
            },
            _ => None,
        },
    }
}

pub open spec fn deref_value(v: Option<&serde_json::Value>) -> Option<serde_json::Value> {
    match v {
        Some(x) => Some(*x),
        None => None,
    }
}

/// Reads a request body; `None` when it is not a request.
pub fn read_request(body: &serde_json::Value) -> (r: Option<Request<'_>>)
    ensures
        match request_of(*body) {
            Some((name, id, params)) => r is Some && r->Some_0.method@ == name && deref_value(
                r->Some_0.id,
            ) == id && deref_value(r->Some_0.params) == params,
            None => r is None,
        },
{
    let members = match body.as_object() {
        Some(m) => m,
        None => {
            return None;
        },
    };
    let (tag, method) = match (json_member(members, "jsonrpc"), json_member(members, "method")) {
        (Some(tag), Some(method)) => (tag, method),
        _ => {
            return None;
        },
    };
    let (tag, method) = match (tag.as_str(), method.as_str()) {
        (Some(t), Some(m)) => (t, m),
        _ => {
            return None;
        },
    };
    if String::from_str(tag) != String::from_str("2.0") {
        return None;
    }
    Some(
        Request {
            method: String::from_str(method),
            id: json_member(members, "id"),
            params: json_member(members, "params"),
        },
    )
}

impl DispatchError {
    /// The JSON-RPC error code for this error.
    pub fn code(&self) -> (r: i32)
        ensures
            r == METHOD_NOT_FOUND,
    {
        METHOD_NOT_FOUND
    }
}

impl CommunicationPlugin {
    pub closed spec fn port_spec(&self) -> u16 {
        self.port
    }

    /// The registered method names, by handler index.
    pub closed spec fn names(&self) -> Seq<Seq<char>> {
        names_of(self.methods@)
    }

    /// No name is registered twice.
    pub open spec fn wf(&self) -> bool {
        self.names().no_duplicates()
    }

    pub fn with_port(port: u16) -> (r: Self)
        ensures
            r.wf(),
            r.port_spec() == port,
            r.names() == Seq::<Seq<char>>::empty(),
    {
        let r = CommunicationPlugin { port, methods: Vec::new() };
        assert(r.names() =~= Seq::<Seq<char>>::empty());
        r
    }

    pub fn port(&self) -> (r: u16)
        ensures
            r == self.port_spec(),
    {
        self.port
    }

    /// The handler index of `method`, if it is registered.
    pub fn find_method(&self, method: &str) -> (r: Option<usize>)
        ensures
            match r {
                Some(i) => i < self.names().len() && self.names()[i as int] == method@,
                None => !self.names().contains(method@),
            },
    {
        let wanted = String::from_str(method);
        let mut i: usize = 0;
        while i < self.methods.len()
            invariant
                i <= self.methods@.len(),
                wanted@ == method@,
                forall|k: int| 0 <= k < i ==> self.methods@[k]@ != method@,
            decreases self.methods@.len() - i,
        {
            if self.methods[i] == wanted {
                return Some(i);
            }
            i = i + 1;
        }
        proof {
            if self.names().contains(method@) {
                let k = choose|k: int| 0 <= k < self.names().len() && self.names()[k] == method@;
                assert(self.methods@[k]@ == method@);
            }
        }
        None
    }

    /// Registers `name`. A name registered before keeps its handler index.
    pub fn with_method(self, name: String) -> (r: Self)
        requires
            self.wf(),
        ensures
            r.wf(),
            r.port_spec() == self.port_spec(),
            r.names() == with_name(self.names(), name@),
    {
        if self.find_method(name.as_str()).is_some() {
            return self;
        }
        let mut r = self;
        let ghost before = r.names();
        r.methods.push(name);
        proof {
            assert(r.names() =~= before.push(name@));
            let after = r.names();
            assert forall|i: int, j: int|
                0 <= i < after.len() && 0 <= j < after.len() && i != j implies after[i]
                != after[j] by {
                if i < before.len() && j < before.len() {
                    assert(before[i] != before[j]);
                } else if i < before.len() {
                    assert(before.contains(after[i]));
                } else {
                    assert(before.contains(after[j]));
                }
            }
        }
        r
    }

    /// Routes a call of `method` to its handler index, or reports that no
    /// such method is registered.
    pub fn dispatch(&self, method: &str) -> (r: Result<usize, DispatchError>)
        ensures
            match r {
                Ok(i) => i < self.names().len() && self.names()[i as int] == method@,
                Err(e) => e == DispatchError::MethodNotFound && !self.names().contains(method@),
            },
    {
        match self.find_method(method) {
            Some(i) => Ok(i),
            None => Err(DispatchError::MethodNotFound),
        }
    }
}

impl Default for CommunicationPlugin {
    fn default() -> (r: Self)
        ensures
            r.wf(),
            r.port_spec() == DEFAULT_PORT,
            r.names() == Seq::<Seq<char>>::empty(),
    {
        CommunicationPlugin::with_port(DEFAULT_PORT)
    }
}

} // verus!
