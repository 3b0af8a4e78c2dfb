//! The live set of authenticated connections, keyed by the peer's port.
use vstd::prelude::*;

verus! {

/// The ports of the connected peers, each at most once, in the order in
/// which they were registered.
pub struct ConnectionRegistry {
    ports: Vec<u16>,
}

impl View for ConnectionRegistry {
    type V = Seq<u16>;

    closed spec fn view(&self) -> Seq<u16> {
        self.ports@
    }
}

impl ConnectionRegistry {
    /// At most one connection per port.
    pub open spec fn wf(&self) -> bool {
        self@.no_duplicates()
    }

    pub fn new() -> (r: Self)
        ensures
            r.wf(),
            r@ == Seq::<u16>::empty(),
    {
        ConnectionRegistry { ports: Vec::new() }
    }

    pub fn len(&self) -> (r: usize)
        ensures
            r == self@.len(),
    {
        self.ports.len()
    }

    pub fn is_empty(&self) -> (r: bool)
        ensures
            r == (self@.len() == 0),
    {
        self.ports.len() == 0
    }

    /// Where the connection on `port` stands, if there is one.
    pub fn position(&self, port: u16) -> (r: Option<usize>)
        ensures
            match r {
                Some(i) => i < self@.len() && self@[i as int] == port,
                None => !self@.contains(port),
            },
    {
        let mut i: usize = 0;
        while i < self.ports.len()
            invariant
                i <= self.ports@.len(),
                forall|k: int| 0 <= k < i ==> self.ports@[k] != port,
            decreases self.ports@.len() - i,
        {
            if self.ports[i] == port {
                return Some(i);
            }
            i = i + 1;
        }
        None
    }

    pub fn contains(&self, port: u16) -> (r: bool)
        ensures
            r == self@.contains(port),
    {
        self.position(port).is_some()
    }

    /// Adds a connection on `port`, unless one is registered there already.
    pub fn register(&mut self, port: u16) -> (added: bool)
        requires
            old(self).wf(),
        ensures
            final(self).wf(),
            added == !old(self)@.contains(port),
            final(self)@ == registered(old(self)@, port),
    {
        if self.contains(port) {
            false
        } else {
            self.ports.push(port);
            proof {
                assert forall|i: int, j: int|
                    0 <= i < self@.len() && 0 <= j < self@.len() && i != j implies self@[i]
                    != self@[j] by {
                    if i < old(self)@.len() && j < old(self)@.len() {
                        assert(old(self)@[i] != old(self)@[j]);
                    } else if i < old(self)@.len() {
                        assert(old(self)@.contains(self@[i]));
                    } else {
                        assert(old(self)@.contains(self@[j]));
                    }
                }
            }
            true
        }
    }

    /// Drops the connection on `port`, if there is one.
    pub fn remove(&mut self, port: u16) -> (removed: bool)
        requires
            old(self).wf(),
        ensures
            final(self).wf(),
            removed == old(self)@.contains(port),
            !final(self)@.contains(port),
            removed ==> exists|i: int|
                0 <= i < old(self)@.len() && old(self)@[i] == port && final(self)@ == old(
                    self,
                )@.remove(i),
            !removed ==> final(self)@ == old(self)@,
            forall|q: u16| q != port ==> (final(self)@.contains(q) <==> old(self)@.contains(q)),
    {
        match self.position(port) {
            None => false,
            Some(i) => {
                let ghost before = self@;
                self.ports.remove(i);
                proof {
                    assert(self@ == before.remove(i as int));
                    assert forall|a: int, b: int|
                        0 <= a < self@.len() && 0 <= b < self@.len() && a != b implies self@[a]
                        != self@[b] by {
                        let a0 = if a < i { a } else { a + 1 };
                        let b0 = if b < i { b } else { b + 1 };
                        assert(before[a0] != before[b0]);
                    }
                    if self@.contains(port) {
                        let k = choose|k: int| 0 <= k < self@.len() && self@[k] == port;
                        let k0 = if k < i { k } else { k + 1 };
                        assert(before[k0] == before[i as int]);
                    }
                    assert forall|q: u16| q != port implies (self@.contains(q)
                        <==> before.contains(q)) by {
                        if before.contains(q) {
                            let k = choose|k: int| 0 <= k < before.len() && before[k] == q;
                            let k1 = if k < i { k } else { k - 1 };
                            assert(self@[k1] == q);
                        }
                        if self@.contains(q) {
                            let k = choose|k: int| 0 <= k < self@.len() && self@[k] == q;
                            let k0 = if k < i { k } else { k + 1 };
                            assert(before[k0] == q);
                        }
                    }
                }
                true
            }
        }
    }

    /// Every registered port, in registration order.
    pub fn all(&self) -> (r: Vec<u16>)
        ensures
            r@ == self@,
    {
        self.ports.clone()
    }
}

/// The registry's ports after a connection on `port` is registered.
pub open spec fn registered(ports: Seq<u16>, port: u16) -> Seq<u16> {
    if ports.contains(port) {
        ports
    } else {
        ports.push(port)
    }
}

} // verus!
