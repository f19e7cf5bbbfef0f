//! Routing of the out-of-band destruction notification.
//!
//! The OS destruction hook hands its callback only a backend-assigned
//! token and the raw handle of the destroyed object — no reference to
//! the owning session. A process-wide table therefore maps each token
//! to the raw handle of the target whose close signal it should fire.
//! The embedding holds the table (and the close-signal senders, keyed
//! the same way) behind its own lock; the decisions of what to register
//! and whether an event fires are made here.

use vstd::prelude::*;

verus! {

/// One registration: a hook token and the raw handle of the target it
/// watches.
#[derive(Clone, Copy, Debug, PartialEq, Eq, Structural)]
pub struct RouteEntry {
    pub token: isize,
    pub target: isize,
}

/// The process-wide token-to-target mapping.
pub struct RoutingTable {
    /// Registrations, with pairwise distinct tokens.
    pub entries: Vec<RouteEntry>,
}

/// What the destruction callback must now do, as decided by
/// `handle_destroy_event`.
#[derive(Clone, Copy, Debug, PartialEq, Eq, Structural)]
pub struct RouteDecision {
    /// Fire the close signal registered under the event's token.
    pub fire: bool,
    /// Unregister the OS hook that delivered the event.
    pub unhook: bool,
}

/// Pairwise distinct tokens, so a lookup is unambiguous.
pub open spec fn tokens_unique(entries: Seq<RouteEntry>) -> bool {
    forall|i: int, j: int| 0 <= i < j < entries.len() ==> entries[i].token != entries[j].token
}

/// The target registered under a token, if any.
pub open spec fn seq_lookup(entries: Seq<RouteEntry>, token: isize) -> Option<isize> {
    if exists|i: int| 0 <= i < entries.len() && entries[i].token == token {
        let i = choose|i: int| 0 <= i < entries.len() && entries[i].token == token;
        Some(entries[i].target)
    } else {
        None
    }
}

/// With distinct tokens, the lookup of an entry's token lands on that
/// entry.
proof fn lemma_lookup_at(entries: Seq<RouteEntry>, i: int)
    requires
        tokens_unique(entries),
        0 <= i < entries.len(),
    ensures
        seq_lookup(entries, entries[i].token) == Some(entries[i].target),
{
    let token = entries[i].token;
    assert(exists|k: int| 0 <= k < entries.len() && entries[k].token == token) by {
        assert(0 <= i < entries.len() && entries[i].token == token);
    }
    let k = choose|k: int| 0 <= k < entries.len() && entries[k].token == token;
    assert(k == i);
}

/// A token that no entry holds is not found.
proof fn lemma_lookup_absent(entries: Seq<RouteEntry>, token: isize)
    requires
        forall|i: int| 0 <= i < entries.len() ==> entries[i].token != token,
    ensures
        seq_lookup(entries, token) is None,
{
}

impl RoutingTable {
    /// The table invariant: tokens are pairwise distinct.
    pub open spec fn wf(self) -> bool {
        tokens_unique(self.entries@)
    }

    /// The target registered under a token, if any.
    pub open spec fn spec_lookup(self, token: isize) -> Option<isize> {
        seq_lookup(self.entries@, token)
    }

    /// An empty table.
    pub fn new() -> (t: Self)
        ensures
            t.wf(),
            forall|tok: isize| t.spec_lookup(tok) is None,
    {
        let t = RoutingTable { entries: Vec::new() };
        proof {
            assert forall|tok: isize| t.spec_lookup(tok) is None by {
                lemma_lookup_absent(t.entries@, tok);
            }
        }
        t
    }

    /// Register a target under a token, replacing any registration the
    /// token already had. Every other token routes as before.
    pub fn register(&mut self, token: isize, target: isize)
        requires
            old(self).wf(),
        ensures
            final(self).wf(),
            final(self).spec_lookup(token) == Some(target),
            forall|t: isize|
                t != token ==> final(self).spec_lookup(t) == old(self).spec_lookup(t),
    {
        let ghost before = self.entries@;
        let mut i: usize = 0;
        while i < self.entries.len()
            invariant
                i <= self.entries@.len(),
                self.entries@ == before,
                before == old(self).entries@,
                tokens_unique(before),
                forall|j: int| 0 <= j < i ==> before[j].token != token,
            decreases self.entries@.len() - i,
        {
            if self.entries[i].token == token {
                self.entries.set(i, RouteEntry { token, target });
                proof {
                    let after = self.entries@;
                    assert(after =~= before.update(i as int, RouteEntry { token, target }));
                    assert(before[i as int].token == token);
                    assert(forall|a: int|
                        0 <= a < after.len() ==> after[a].token == before[a].token);
                    assert(tokens_unique(after));
                    lemma_lookup_at(after, i as int);
                    assert forall|t: isize| t != token implies seq_lookup(after, t) == seq_lookup(
                        before,
                        t,
                    ) by {
                        assert forall|ii: int|
                            0 <= ii < before.len() && before[ii].token == t implies exists|j: int|
                            0 <= j < after.len() && after[j] == before[ii] by {
                            assert(ii != i as int);
                            assert(after[ii] == before[ii]);
                        }
                        assert forall|jj: int|
                            0 <= jj < after.len() && after[jj].token == t implies exists|k: int|
                            0 <= k < before.len() && before[k] == after[jj] by {
                            assert(jj != i as int);
                            assert(before[jj] == after[jj]);
                        }
                        lemma_lookup_same_entries(before, after, t);
                    }
                }
                return ;
            }
            i = i + 1;
        }
        self.entries.push(RouteEntry { token, target });
        proof {
            let after = self.entries@;
            assert(after =~= before.push(RouteEntry { token, target }));
            assert(tokens_unique(after)) by {
                assert forall|a: int, b: int|
                    0 <= a < b < after.len() implies after[a].token != after[b].token by {
                    if b < before.len() {
                        assert(before[a].token != before[b].token);
                    } else {
                        assert(after[b].token == token);
                        assert(before[a].token != token);
                    }
                }
            }
            lemma_lookup_at(after, after.len() - 1);
            assert forall|t: isize| t != token implies seq_lookup(after, t) == seq_lookup(
                before,
                t,
            ) by {
                assert forall|ii: int|
                    0 <= ii < before.len() && before[ii].token == t implies exists|j: int|
                    0 <= j < after.len() && after[j] == before[ii] by {
                    assert(after[ii] == before[ii]);
                }
                assert forall|jj: int|
                    0 <= jj < after.len() && after[jj].token == t implies exists|k: int|
                    0 <= k < before.len() && before[k] == after[jj] by {
                    assert(jj != after.len() - 1);
                    assert(before[jj] == after[jj]);
                }
                lemma_lookup_same_entries(before, after, t);
            }
        }
    }

    /// The destruction-callback decision. An event is routed only when
    /// it reports the destruction of a whole top-level object (both
    /// sub-object ids are zero) with a real handle; it fires exactly
    /// when the table maps the delivering hook's token to that handle,
    /// and the hook is unregistered exactly when it fired.
    pub fn handle_destroy_event(
        &self,
        token: isize,
        handle: isize,
        id_object: i32,
        id_child: i32,
    ) -> (d: RouteDecision)
        requires
            self.wf(),
        ensures
            d.fire == (id_object == 0 && id_child == 0 && handle != 0 && self.spec_lookup(token)
                == Some(handle)),
            d.unhook == d.fire,
    {
        if id_object != 0 || id_child != 0 || handle == 0 {
            return RouteDecision { fire: false, unhook: false };
        }
        let mut i: usize = 0;
        while i < self.entries.len()
            invariant
                i <= self.entries@.len(),
                self.wf(),
                id_object == 0,
                id_child == 0,
                handle != 0,
                forall|j: int| 0 <= j < i ==> self.entries@[j].token != token,
            decreases self.entries@.len() - i,
        {
            let e = self.entries[i];
            if e.token == token {
                proof {
                    lemma_lookup_at(self.entries@, i as int);
                    assert(e == self.entries@[i as int]);
                    assert(seq_lookup(self.entries@, token) == Some(e.target));
                }
                let fire = e.target == handle;
                return RouteDecision { fire, unhook: fire };
            }
            i = i + 1;
        }
        proof {
            lemma_lookup_absent(self.entries@, token);
        }
        RouteDecision { fire: false, unhook: false }
    }
}

/// Two entry sequences whose entries holding a token are the same give
/// that token the same lookup.
proof fn lemma_lookup_same_entries(before: Seq<RouteEntry>, after: Seq<RouteEntry>, t: isize)
    requires
        tokens_unique(before),
        tokens_unique(after),
        forall|i: int|
            0 <= i < before.len() && before[i].token == t ==> exists|j: int|
                0 <= j < after.len() && after[j] == before[i],
        forall|j: int|
            0 <= j < after.len() && after[j].token == t ==> exists|i: int|
                0 <= i < before.len() && before[i] == after[j],
    ensures
        seq_lookup(before, t) == seq_lookup(after, t),
{
    if exists|i: int| 0 <= i < before.len() && before[i].token == t {
        let i = choose|i: int| 0 <= i < before.len() && before[i].token == t;
        let j = choose|j: int| 0 <= j < after.len() && after[j] == before[i];
        lemma_lookup_at(before, i);
        lemma_lookup_at(after, j);
    } else {
        lemma_lookup_absent(before, t);
        if exists|j: int| 0 <= j < after.len() && after[j].token == t {
            let j = choose|j: int| 0 <= j < after.len() && after[j].token == t;
            let i = choose|i: int| 0 <= i < before.len() && before[i] == after[j];
            assert(false);
        }
        lemma_lookup_absent(after, t);
    }
}

} // verus!
