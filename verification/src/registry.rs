//! Connection registry and broadcast relay core: the process-wide set of live
//! broadcast endpoints. Connections are added on register and removed only as
//! a side effect of a failed delivery during a broadcast pass — and then only
//! the lowest-index failing connection of that pass, a deliberately kept (if
//! imperfect) failure-handling policy: later failures wait for a later pass.

use vstd::prelude::*;

verus! {

/// A message pushed to a connection's remote peer: a text frame or a
/// binary frame.
pub enum WsMessage {
    S(String),
    B(Vec<u8>),
}

/// The state of one connection, as the contracts see it: its registration
/// ordinal, its leader flag, whether its channel still accepts deliveries,
/// and the text frames delivered to it so far, in order.
#[verifier::ext_equal]
pub ghost struct ConnModel {
    pub ordinal: int,
    pub is_leader: bool,
    pub accepting: bool,
    pub delivered: Seq<Seq<char>>,
}

/// A broadcastable connection capability: an opaque sender handle able to
/// push a text frame to the remote peer. The registry is generic over this,
/// decoupled from any specific transport.
pub trait Endpoint: Sized {
    /// The text frames delivered through this endpoint so far, in order.
    /// An implementation outside the library leaves the default in place;
    /// `send_text`'s contract is then about this default account.
    open spec fn delivered(&self) -> Seq<Seq<char>> {
        Seq::empty()
    }

    /// Whether the channel behind this endpoint still accepts deliveries.
    open spec fn accepting(&self) -> bool {
        true
    }

    /// Pushes one text frame to the remote peer. Delivery succeeds exactly
    /// when the channel accepts; a delivered frame is appended unmodified.
    fn send_text(&mut self, text: &String) -> (ok: bool)
        ensures
            ok == old(self).accepting(),
            final(self).accepting() == old(self).accepting(),
            ok ==> final(self).delivered() == old(self).delivered().push(text@),
            !ok ==> final(self).delivered() == old(self).delivered(),
    ;
}

/// One registered connection: the ordinal assigned at registration time, the
/// leader flag fixed at connection establishment, and the sender handle.
pub struct Connection<E> {
    pub ordinal: usize,
    pub is_leader: bool,
    pub endpoint: E,
}

impl<E: Endpoint> Connection<E> {
    /// The connection as the contracts see it.
    pub open spec fn model(self) -> ConnModel {
        ConnModel {
            ordinal: self.ordinal as int,
            is_leader: self.is_leader,
            accepting: self.endpoint.accepting(),
            delivered: self.endpoint.delivered(),
        }
    }
}

/// The process-wide registry of live connections, in insertion order, plus
/// the directory configured at startup for check-in persistence (carried as
/// shared context; the core logic only stores it).
pub struct Registry<E> {
    pub connections: Vec<Connection<E>>,
    pub save_dir: String,
}

/// The least index whose connection does not accept delivery, or `s.len()`
/// when every connection accepts.
pub open spec fn first_fail(s: Seq<ConnModel>) -> int
    decreases s.len(),
{
    if s.len() == 0 {
        0
    } else if !s[0].accepting {
        0
    } else {
        1 + first_fail(s.drop_first())
    }
}

/// Every accepting connection receives `text` appended to its deliveries;
/// the rest are untouched.
pub open spec fn deliver_all(s: Seq<ConnModel>, text: Seq<char>) -> Seq<ConnModel> {
    Seq::new(
        s.len(),
        |i: int|
            if s[i].accepting {
                ConnModel { delivered: s[i].delivered.push(text), ..s[i] }
            } else {
                s[i]
            },
    )
}

/// One broadcast pass over a registry in state `s`: `text` is delivered to
/// every accepting connection in registry order, and then the lowest-index
/// connection whose delivery failed — if any — is removed. Later failing
/// connections stay until a subsequent broadcast exposes them again.
pub open spec fn broadcast_model(s: Seq<ConnModel>, text: Seq<char>) -> Seq<ConnModel> {
    let d = deliver_all(s, text);
    let f = first_fail(s);
    if f == s.len() {
        d
    } else {
        d.remove(f)
    }
}

/// Pins `first_fail` down: it equals `f` exactly when every connection below
/// `f` accepts and the one at `f` (if within bounds) does not.
pub proof fn lemma_first_fail_is(s: Seq<ConnModel>, f: int)
    requires
        0 <= f <= s.len(),
        forall|i: int| 0 <= i < f ==> s[i].accepting,
        f < s.len() ==> !s[f].accepting,
    ensures
        first_fail(s) == f,
    decreases s.len(),
{
    if s.len() > 0 && f > 0 {
        assert(s[0].accepting);
        assert forall|i: int| 0 <= i < f - 1 implies s.drop_first()[i].accepting by {
            assert(s.drop_first()[i] == s[i + 1]);
        }
        assert(f - 1 < s.drop_first().len() ==> !s.drop_first()[f - 1].accepting);
        lemma_first_fail_is(s.drop_first(), f - 1);
    }
}

/// Law: when every registered channel accepts delivery, one broadcast pass
/// delivers the message unmodified to every registered connection — the
/// sender included — and removes none of them.
pub proof fn lemma_broadcast_delivers_to_all(s: Seq<ConnModel>, text: Seq<char>)
    requires
        forall|i: int| 0 <= i < s.len() ==> s[i].accepting,
    ensures
        broadcast_model(s, text).len() == s.len(),
        forall|i: int| 0 <= i < s.len() ==> broadcast_model(s, text)[i] == (ConnModel {
            delivered: s[i].delivered.push(text),
            ..s[i]
        }),
{
    lemma_first_fail_is(s, s.len() as int);
}

/// Law: when exactly one registered connection's delivery fails during a
/// broadcast, the registry's count decreases by exactly one, it is the
/// failing connection that is absent afterwards, and every other connection
/// stays in registry order with the message delivered.
pub proof fn lemma_broadcast_single_failure(s: Seq<ConnModel>, text: Seq<char>, f: int)
    requires
        0 <= f < s.len(),
        !s[f].accepting,
        forall|i: int| 0 <= i < s.len() && i != f ==> s[i].accepting,
    ensures
        broadcast_model(s, text).len() == s.len() - 1,
        forall|j: int| 0 <= j < f ==> broadcast_model(s, text)[j] == (ConnModel {
            delivered: s[j].delivered.push(text),
            ..s[j]
        }),
        forall|j: int|
            f <= j < s.len() - 1 ==> broadcast_model(s, text)[j] == (ConnModel {
                delivered: s[j + 1].delivered.push(text),
                ..s[j + 1]
            }),
{
    lemma_first_fail_is(s, f);
}

impl<E: Endpoint> Registry<E> {
    /// The registry's connections as the contracts see them, in registry order.
    pub open spec fn models(self) -> Seq<ConnModel> {
        self.connections@.map_values(|c: Connection<E>| c.model())
    }

    /// An empty registry carrying the configured save directory.
    pub fn new(save_dir: String) -> (r: Registry<E>)
        ensures
            r.models() == Seq::<ConnModel>::empty(),
            r.save_dir == save_dir,
    {
        let r = Registry { connections: Vec::new(), save_dir };
        proof {
            assert(r.models() =~= Seq::<ConnModel>::empty());
        }
        r
    }

    /// Adds a connection and returns its assignment-time position. The
    /// ordinal is informational only and not guaranteed stable after
    /// removals.
    pub fn register(&mut self, endpoint: E, is_leader: bool) -> (ordinal: usize)
        ensures
            ordinal == old(self).models().len(),
            final(self).models() == old(self).models().push(
                ConnModel {
                    ordinal: ordinal as int,
                    is_leader: is_leader,
                    accepting: endpoint.accepting(),
                    delivered: endpoint.delivered(),
                },
            ),
            final(self).save_dir == old(self).save_dir,
    {
        let ordinal = self.connections.len();
        let conn = Connection { ordinal, is_leader, endpoint };
        self.connections.push(conn);
        proof {
            assert(self.models() =~= old(self).models().push(
                ConnModel {
                    ordinal: ordinal as int,
                    is_leader: is_leader,
                    accepting: endpoint.accepting(),
                    delivered: endpoint.delivered(),
                },
            ));
        }
        ordinal
    }

    /// Delivers `text` to every registered connection in registry order,
    /// the originator included, and removes the lowest-index connection
    /// whose delivery failed, if any; further failures of the same pass are
    /// left in place.
    pub fn broadcast(&mut self, text: &String)
        ensures
            final(self).models() == broadcast_model(old(self).models(), text@),
            final(self).save_dir == old(self).save_dir,
    {
        let ghost orig = self.models();
        let ghost sd = self.save_dir;
        let n = self.connections.len();
        let mut first_fail_idx: Option<usize> = None;
        let mut i: usize = 0;
        while i < n
            invariant
                i <= n,
                n == self.connections@.len(),
                n == orig.len(),
                self.save_dir == sd,
                forall|j: int| i <= j < n ==> self.models()[j] == orig[j],
                forall|j: int| 0 <= j < i ==> self.models()[j] == deliver_all(orig, text@)[j],
                match first_fail_idx {
                    Some(f) => {
                        &&& 0 <= f < i
                        &&& !orig[f as int].accepting
                        &&& forall|j: int| 0 <= j < f ==> orig[j].accepting
                    },
                    None => forall|j: int| 0 <= j < i ==> orig[j].accepting,
                },
            decreases n - i,
        {
            let ghost pre = self.models();
            let conn = &mut self.connections[i];
            assert(conn.model() == orig[i as int]);
            let ok = conn.endpoint.send_text(text);
            if !ok && first_fail_idx.is_none() {
                first_fail_idx = Some(i);
            }
            proof {
                assert(forall|j: int| 0 <= j < n && j != i ==> self.models()[j] == pre[j]);
                assert(self.models()[i as int] =~= deliver_all(orig, text@)[i as int]);
            }
            i += 1;
        }
        match first_fail_idx {
            Some(f) => {
                proof {
                    lemma_first_fail_is(orig, f as int);
                }
                self.connections.remove(f);
                proof {
                    assert(self.models() =~= deliver_all(orig, text@).remove(f as int));
                }
            },
            None => {
                proof {
                    lemma_first_fail_is(orig, n as int);
                    assert(self.models() =~= deliver_all(orig, text@));
                }
            },
        }
    }
}

/// An in-process endpoint that records delivered frames in memory: the
/// reference implementation of the broadcastable-connection capability,
/// with a switch to make its channel stop accepting deliveries.
pub struct LocalEndpoint {
    pub inbox: Vec<String>,
    pub healthy: bool,
}

impl LocalEndpoint {
    /// A fresh endpoint with an empty inbox, accepting deliveries.
    pub fn new() -> (r: LocalEndpoint)
        ensures
            r.delivered() == Seq::<Seq<char>>::empty(),
            r.accepting(),
    {
        let r = LocalEndpoint { inbox: Vec::new(), healthy: true };
        proof {
            assert(r.delivered() =~= Seq::<Seq<char>>::empty());
        }
        r
    }

    /// Breaks the channel: every later delivery to this endpoint fails.
    pub fn break_channel(&mut self)
        ensures
            !final(self).accepting(),
            final(self).delivered() == old(self).delivered(),
    {
        self.healthy = false;
    }
}

impl Endpoint for LocalEndpoint {
    open spec fn delivered(&self) -> Seq<Seq<char>> {
        self.inbox@.map_values(|s: String| s@)
    }

    open spec fn accepting(&self) -> bool {
        self.healthy
    }

    fn send_text(&mut self, text: &String) -> (ok: bool) {
        if self.healthy {
            self.inbox.push(text.clone());
            proof {
                assert(self.delivered() =~= old(self).delivered().push(text@));
            }
            true
        } else {
            false
        }
    }
}

} // verus!
