//! The volatile state: the presence registry of online users, the queue of
//! pending fan-out events, and the typing-status table. Every mutation of
//! the three structures goes through the methods of [`State`]; no caller
//! reaches into them directly.

use vstd::prelude::*;
use vstd::map::*;
use indexmap::IndexSet;
use crate::events::{EventEnum, EventV};
use crate::iset::{
    iset_clone, iset_contains, iset_elems, iset_insert, iset_is_empty, iset_new,
    iset_shift_remove, iset_to_vec,
};
use crate::seqs::{
    lemma_filter_all, lemma_filter_no_dup, lemma_filter_push, lemma_filter_sub,
    lemma_remove_value_props,
};

verus! {

/// One buffered fan-out event: its author, the users still owed delivery,
/// and the payload to deliver.
#[derive(Debug)]
pub struct EventMessage {
    pub author: String,
    pub targets: IndexSet<String>,
    pub item: EventEnum,
}

/// Mathematical view of an [`EventMessage`].
pub struct EventMessageV {
    pub author: Seq<char>,
    pub targets: Seq<Seq<char>>,
    pub item: EventV,
}

impl View for EventMessage {
    type V = EventMessageV;

    open spec fn view(&self) -> EventMessageV {
        EventMessageV {
            author: self.author@,
            targets: iset_elems(self.targets),
            item: self.item@,
        }
    }
}

impl Clone for EventMessage {
    fn clone(&self) -> (r: Self)
        ensures
            r@ == self@,
    {
        EventMessage {
            author: self.author.clone(),
            targets: iset_clone(&self.targets),
            item: self.item.clone(),
        }
    }
}

/// An event that may stay in the queue: it still has at least one target,
/// and no target twice.
pub open spec fn event_ok(e: EventMessageV) -> bool {
    e.targets.len() > 0 && e.targets.no_duplicates()
}

/// The event with one user struck from its target set.
pub open spec fn strip_target(e: EventMessageV, u: Seq<char>) -> EventMessageV {
    EventMessageV { author: e.author, targets: e.targets.remove_value(u), item: e.item }
}

/// Whether an event still has a target at all.
pub open spec fn live_pred() -> spec_fn(EventMessageV) -> bool {
    (|e: EventMessageV| e.targets.len() > 0)
}

/// Whether an event lists the given user as a target.
pub open spec fn targets_pred(u: Seq<char>) -> spec_fn(EventMessageV) -> bool {
    (|e: EventMessageV| e.targets.contains(u))
}

/// Strike one user from an event, as a function over the queue.
pub open spec fn strip_fn(u: Seq<char>) -> spec_fn(EventMessageV) -> EventMessageV {
    (|e: EventMessageV| strip_target(e, u))
}

/// Whether a target is among the given online users.
pub open spec fn online_pred(online: Seq<Seq<char>>) -> spec_fn(Seq<char>) -> bool {
    (|t: Seq<char>| online.contains(t))
}

/// The queue after a user goes away: the user is struck from every target
/// set, and events left with no target are collected.
pub open spec fn queue_without(q: Seq<EventMessageV>, u: Seq<char>) -> Seq<EventMessageV> {
    q.map_values(strip_fn(u)).filter(live_pred())
}

/// The events of the queue that list the given user as a target, in queue
/// order.
pub open spec fn events_for(q: Seq<EventMessageV>, u: Seq<char>) -> Seq<EventMessageV> {
    q.filter(targets_pred(u))
}

/// The views of a sequence of events.
pub open spec fn qv(s: Seq<EventMessage>) -> Seq<EventMessageV> {
    s.map_values(|e: EventMessage| e@)
}

/// The typing-status table as a map, newest entry for a key winning.
pub open spec fn pairs_map(s: Seq<(String, String)>) -> Map<Seq<char>, Seq<char>>
    decreases s.len(),
{
    if s.len() == 0 {
        Map::empty()
    } else {
        pairs_map(s.drop_last()).insert(s.last().0@, s.last().1@)
    }
}

/// No two entries of the typing-status table name the same user.
pub open spec fn keys_unique(s: Seq<(String, String)>) -> bool {
    forall|i: int, j: int|
        0 <= i < s.len() && 0 <= j < s.len() && i != j ==> (#[trigger] s[i]).0@ != (
        #[trigger] s[j]).0@
}

/// Whether some entry of the table names the given user.
pub open spec fn has_key(s: Seq<(String, String)>, k: Seq<char>) -> bool {
    exists|i: int| 0 <= i < s.len() && (#[trigger] s[i]).0@ == k
}

/// A key is in the table's map exactly when some entry names it.
proof fn lemma_pairs_map_dom(s: Seq<(String, String)>)
    ensures
        forall|k: Seq<char>| #[trigger] pairs_map(s).contains_key(k) <==> has_key(s, k),
    decreases s.len(),
{
    if s.len() > 0 {
        let prefix = s.drop_last();
        lemma_pairs_map_dom(prefix);
        assert(pairs_map(s) == pairs_map(prefix).insert(s.last().0@, s.last().1@));
        assert forall|k: Seq<char>| #[trigger] pairs_map(s).contains_key(k) implies has_key(
            s,
            k,
        ) by {
            if k == s.last().0@ {
                assert(s[s.len() - 1].0@ == k);
            } else {
                assert(pairs_map(prefix).contains_key(k));
                assert(has_key(prefix, k));
                let i = choose|i: int| 0 <= i < prefix.len() && (#[trigger] prefix[i]).0@ == k;
                assert(s[i].0@ == k);
            }
        };
        assert forall|k: Seq<char>| has_key(s, k) implies #[trigger] pairs_map(s).contains_key(
            k,
        ) by {
            let i = choose|i: int| 0 <= i < s.len() && (#[trigger] s[i]).0@ == k;
            if i < s.len() - 1 {
                assert(prefix[i].0@ == k);
                assert(has_key(prefix, k));
                assert(pairs_map(prefix).contains_key(k));
            }
        };
    }
}

/// With unique keys, each entry of the table is what its key maps to.
proof fn lemma_pairs_map_vals(s: Seq<(String, String)>)
    requires
        keys_unique(s),
    ensures
        forall|i: int|
            0 <= i < s.len() ==> pairs_map(s).contains_key((#[trigger] s[i]).0@) && pairs_map(s)[
                s[i].0@] == s[i].1@,
    decreases s.len(),
{
    lemma_pairs_map_dom(s);
    if s.len() > 0 {
        let prefix = s.drop_last();
        assert(keys_unique(prefix)) by {
            assert(forall|i: int| 0 <= i < prefix.len() ==> prefix[i] == s[i]);
        };
        lemma_pairs_map_vals(prefix);
        assert(pairs_map(s) == pairs_map(prefix).insert(s.last().0@, s.last().1@));
        assert forall|i: int| 0 <= i < s.len() implies pairs_map(s).contains_key(
            (#[trigger] s[i]).0@,
        ) && pairs_map(s)[s[i].0@] == s[i].1@ by {
            if i < s.len() - 1 {
                assert(prefix[i] == s[i]);
                assert(s[i].0@ != s.last().0@);
                assert(pairs_map(prefix).contains_key(prefix[i].0@) && pairs_map(prefix)[
                    prefix[i].0@] == prefix[i].1@);
            }
        };
    }
}

/// Removing one entry removes exactly its key from the table's map.
proof fn lemma_pairs_map_remove(s: Seq<(String, String)>, i: int)
    requires
        keys_unique(s),
        0 <= i < s.len(),
    ensures
        pairs_map(s.remove(i)) == pairs_map(s).remove(s[i].0@),
    decreases s.len(),
{
    let k = s[i].0@;
    let prefix = s.drop_last();
    assert(keys_unique(prefix)) by {
        assert(forall|j: int| 0 <= j < prefix.len() ==> prefix[j] == s[j]);
    };
    lemma_pairs_map_dom(prefix);
    assert(pairs_map(s) == pairs_map(prefix).insert(s.last().0@, s.last().1@));
    if i == s.len() - 1 {
        assert(s.remove(i) =~= prefix);
        assert(!has_key(prefix, k)) by {
            assert forall|j: int| 0 <= j < prefix.len() implies (#[trigger] prefix[j]).0@ != k by {
                assert(prefix[j] == s[j]);
            };
        };
        assert(!pairs_map(prefix).contains_key(k));
        assert(pairs_map(s).remove(k) =~= pairs_map(prefix));
    } else {
        let r = s.remove(i);
        s.remove_ensures(i);
        assert(r.len() == s.len() - 1);
        assert(r.drop_last() =~= prefix.remove(i)) by {
            prefix.remove_ensures(i);
        };
        assert(r.last() == s[s.len() - 1]);
        lemma_pairs_map_remove(prefix, i);
        assert(prefix[i] == s[i]);
        assert(pairs_map(r) == pairs_map(prefix).remove(k).insert(s.last().0@, s.last().1@));
        assert(s.last().0@ != k);
        assert(pairs_map(prefix).remove(k).insert(s.last().0@, s.last().1@) =~= pairs_map(
            prefix,
        ).insert(s.last().0@, s.last().1@).remove(k));
    }
}

/// Garbage collection never drops a live event: on a queue where every
/// event still has at least one target — true of every reachable state —
/// the collection pass keeps the queue exactly as it was, so a second pass
/// changes nothing either.
pub proof fn lemma_gc_identity(q: Seq<EventMessageV>)
    requires
        forall|i: int| 0 <= i < q.len() ==> event_ok(#[trigger] q[i]),
    ensures
        q.filter(live_pred()) == q,
{
    assert forall|i: int| 0 <= i < q.len() implies live_pred()(q[i]) by {
        assert(event_ok(q[i]));
    };
    lemma_filter_all(q, live_pred());
}

/// Going away clears a user from the queue: after the user is struck from
/// every target set and the dead events are collected — the queue
/// transform of marking a user offline and of draining — every surviving
/// event is still well formed and none lists that user.
pub proof fn lemma_queue_without_ok(q: Seq<EventMessageV>, u: Seq<char>)
    requires
        forall|i: int| 0 <= i < q.len() ==> event_ok(#[trigger] q[i]),
    ensures
        forall|i: int|
            0 <= i < queue_without(q, u).len() ==> event_ok(#[trigger] queue_without(q, u)[i]),
        forall|i: int|
            0 <= i < queue_without(q, u).len() ==> !(#[trigger] queue_without(
                q,
                u,
            )[i]).targets.contains(u),
{
    let m = q.map_values(strip_fn(u));
    let out = queue_without(q, u);
    lemma_filter_sub(m, live_pred());
    assert forall|i: int| 0 <= i < out.len() implies event_ok(#[trigger] out[i])
        && !out[i].targets.contains(u) by {
        m.lemma_filter_pred(live_pred(), i);
        assert(m.contains(out[i]));
        let j = choose|j: int| 0 <= j < m.len() && m[j] == out[i];
        assert(out[i] == strip_target(q[j], u));
        assert(event_ok(q[j]));
        lemma_remove_value_props(q[j].targets, u);
    };
}

/// The volatile state. It owns the presence registry, the pending event
/// queue and the typing-status table; all three are reached only through
/// the methods below.
#[derive(Debug)]
pub struct State {
    online_users: IndexSet<String>,
    pending_messages: Vec<EventMessage>,
    type_status: Vec<(String, String)>,
}

impl State {
    /// The identifiers of the users that are online, in the order they came
    /// online.
    pub closed spec fn online_ids(&self) -> Seq<Seq<char>> {
        iset_elems(self.online_users)
    }

    /// The pending events, oldest first.
    pub closed spec fn queue(&self) -> Seq<EventMessageV> {
        qv(self.pending_messages@)
    }

    /// The typing-status table: who was last reported typing in which
    /// channel.
    pub closed spec fn typing(&self) -> Map<Seq<char>, Seq<char>> {
        pairs_map(self.type_status@)
    }

    /// Well-formedness: no user is registered twice, every pending event
    /// still has at least one target and no target twice, and the
    /// typing-status table has one entry per user. Constructors establish
    /// this and every method preserves it.
    pub closed spec fn wf(&self) -> bool {
        &&& self.online_ids().no_duplicates()
        &&& forall|i: int| 0 <= i < self.queue().len() ==> event_ok(#[trigger] self.queue()[i])
        &&& keys_unique(self.type_status@)
    }

    /// A fresh state: nobody online, nothing pending, nobody typing.
    pub fn new() -> (s: State)
        ensures
            s.wf(),
            s.online_ids() == Seq::<Seq<char>>::empty(),
            s.queue() == Seq::<EventMessageV>::empty(),
            s.typing() == Map::<Seq<char>, Seq<char>>::empty(),
    {
        let s = State {
            online_users: iset_new(),
            pending_messages: Vec::new(),
            type_status: Vec::new(),
        };
        proof {
            assert(s.queue() =~= Seq::<EventMessageV>::empty());
        }
        s
    }

    /// Whether the user currently has an active connection. A pure
    /// membership query with no side effects.
    pub fn is_online(&self, user_id: &String) -> (r: bool)
        ensures
            r == self.online_ids().contains(user_id@),
    {
        iset_contains(&self.online_users, user_id)
    }

    /// How many events are pending, over all recipients.
    pub fn queue_len(&self) -> (n: usize)
        ensures
            n == self.queue().len(),
    {
        self.pending_messages.len()
    }

    /// Marks the user online. Returns `true` when the user was not online
    /// before — the successful transition — and `false` when the user
    /// already has a live connection, in which case the caller must reject
    /// the new one and the registry is left as it was. Runs the
    /// garbage-collection pass over the queue first, which under the state
    /// invariant leaves the queue unchanged.
    pub fn user_online(&mut self, user_id: String) -> (r: bool)
        requires
            old(self).wf(),
        ensures
            final(self).wf(),
            r == !old(self).online_ids().contains(user_id@),
            final(self).online_ids() == if r {
                old(self).online_ids().push(user_id@)
            } else {
                old(self).online_ids()
            },
            final(self).online_ids().contains(user_id@),
            final(self).queue() == old(self).queue(),
            final(self).typing() == old(self).typing(),
    {
        let ghost q0 = self.queue();
        let ghost uid = user_id@;
        proof {
            assert forall|i: int| 0 <= i < q0.len() implies event_ok(#[trigger] q0[i]) by {
                assert(event_ok(old(self).queue()[i]));
            };
            lemma_gc_identity(q0);
        }
        self.remove_dead_messages();
        let r = iset_insert(&mut self.online_users, user_id);
        proof {
            if r {
                let ids = self.online_ids();
                assert(ids[ids.len() - 1] == uid);
            }
        }
        r
    }

    /// Marks the user offline: removes the user from the presence registry
    /// and from every pending event's target set, collects the events left
    /// without targets, and clears the user's typing-status entry.
    pub fn user_offline(&mut self, user_id: &String)
        requires
            old(self).wf(),
        ensures
            final(self).wf(),
            final(self).online_ids() == old(self).online_ids().remove_value(user_id@),
            !final(self).online_ids().contains(user_id@),
            final(self).queue() == queue_without(old(self).queue(), user_id@),
            forall|i: int|
                0 <= i < final(self).queue().len() ==> !(#[trigger] final(self).queue()[i]).targets.contains(user_id@),
            final(self).typing() == old(self).typing().remove(user_id@),
    {
        let ghost q0 = self.queue();
        proof {
            lemma_remove_value_props(old(self).online_ids(), user_id@);
        }
        iset_shift_remove(&mut self.online_users, user_id);
        self.user_remove_message(user_id);
        self.remove_dead_messages();
        self.type_status_remove(user_id);
        proof {
            assert forall|i: int| 0 <= i < q0.len() implies event_ok(#[trigger] q0[i]) by {
                assert(event_ok(old(self).queue()[i]));
            };
            lemma_queue_without_ok(q0, user_id@);
        }
    }

    /// Drains the events addressed to the user: every pending event that
    /// lists the user as a target is returned, in queue order, and the user
    /// is struck from those events' target sets; events thereby left
    /// without targets are collected. Returns nothing — and changes
    /// nothing — when no event is addressed to the user. The caller must
    /// have checked presence: draining an offline user is a contract
    /// violation.
    pub fn get_message(&mut self, user_id: &String) -> (r: Option<Vec<EventMessage>>)
        requires
            old(self).wf(),
            old(self).online_ids().contains(user_id@),
        ensures
            final(self).wf(),
            final(self).online_ids() == old(self).online_ids(),
            final(self).typing() == old(self).typing(),
            match r {
                None => {
                    &&& events_for(old(self).queue(), user_id@).len() == 0
                    &&& final(self).queue() == old(self).queue()
                },
                Some(v) => {
                    &&& v@.len() > 0
                    &&& qv(v@) == events_for(old(self).queue(), user_id@)
                    &&& forall|i: int|
                        0 <= i < v@.len() ==> (#[trigger] v@[i])@.targets.contains(user_id@)
                    &&& final(self).queue() == queue_without(old(self).queue(), user_id@)
                    &&& forall|i: int|
                        0 <= i < final(self).queue().len() ==> !(#[trigger] final(self).queue()[i]).targets.contains(user_id@)
                },
            },
    {
        let ghost s0 = *old(self);
        let ghost q0 = s0.queue();
        let ghost uid = user_id@;
        let mut matched: Vec<EventMessage> = Vec::new();
        let n = self.pending_messages.len();
        let mut i: usize = 0;
        while i < n
            invariant
                i <= n,
                n == self.pending_messages@.len(),
                *self == s0,
                uid == user_id@,
                q0 == qv(self.pending_messages@),
                qv(matched@) == events_for(q0.take(i as int), uid),
            decreases n - i,
        {
            proof {
                assert(q0[i as int] == self.pending_messages@[i as int]@);
                assert(q0.take(i as int + 1) =~= q0.take(i as int).push(q0[i as int]));
                lemma_filter_push(q0.take(i as int), q0[i as int], targets_pred(uid));
            }
            let e = &self.pending_messages[i];
            if iset_contains(&e.targets, user_id) {
                let ghost m0 = matched@;
                matched.push(e.clone());
                proof {
                    assert(targets_pred(uid)(q0[i as int]));
                    assert(matched@.last()@ == q0[i as int]);
                    assert(qv(matched@) =~= qv(m0).push(matched@.last()@));
                    assert(qv(matched@) == events_for(q0.take(i as int), uid).push(
                        q0[i as int],
                    ));
                    assert(qv(matched@) == events_for(q0.take(i as int + 1), uid));
                }
            } else {
                proof {
                    assert(!targets_pred(uid)(q0[i as int]));
                    assert(events_for(q0.take(i as int + 1), uid) == events_for(
                        q0.take(i as int),
                        uid,
                    ));
                }
            }
            i += 1;
        }
        proof {
            assert(q0.take(n as int) =~= q0);
        }
        if matched.len() == 0 {
            return None;
        }
        self.user_remove_message(user_id);
        self.remove_dead_messages();
        proof {
            assert forall|j: int| 0 <= j < q0.len() implies event_ok(#[trigger] q0[j]) by {
                assert(event_ok(old(self).queue()[j]));
            };
            lemma_queue_without_ok(q0, uid);
            assert forall|j: int| 0 <= j < matched@.len() implies (
            #[trigger] matched@[j])@.targets.contains(uid) by {
                assert(qv(matched@)[j] == matched@[j]@);
                q0.lemma_filter_pred(targets_pred(uid), j);
            };
        }
        Some(matched)
    }

    /// Enqueues a fan-out event. The target set is first cut down to the
    /// users online right now — fan-out is never kept for anyone offline —
    /// and an event whose remaining targets are empty is discarded without
    /// ever entering the queue. Otherwise the event is appended at the
    /// tail, so each recipient sees events in enqueue order.
    pub fn message_add_vdb(&mut self, event_message: EventMessage)
        requires
            old(self).wf(),
        ensures
            final(self).wf(),
            final(self).online_ids() == old(self).online_ids(),
            final(self).typing() == old(self).typing(),
            ({
                let kept = event_message@.targets.filter(online_pred(old(self).online_ids()));
                if kept.len() == 0 {
                    final(self).queue() == old(self).queue()
                } else {
                    final(self).queue() == old(self).queue().push(
                        EventMessageV {
                            author: event_message@.author,
                            targets: kept,
                            item: event_message@.item,
                        },
                    )
                }
            }),
    {
        let ghost s0 = *old(self);
        let ghost ids0 = s0.online_ids();
        let ghost ts0 = event_message@.targets;
        let snapshot = iset_to_vec(&event_message.targets);
        let mut kept = iset_new();
        let m = snapshot.len();
        let mut i: usize = 0;
        while i < m
            invariant
                i <= m,
                m == snapshot@.len(),
                snapshot.deep_view() == ts0,
                ts0.no_duplicates(),
                *self == s0,
                ids0 == iset_elems(self.online_users),
                iset_elems(kept) == ts0.take(i as int).filter(online_pred(ids0)),
            decreases m - i,
        {
            proof {
                assert(snapshot@[i as int]@ == snapshot.deep_view()[i as int]);
                assert(ts0.take(i as int + 1) =~= ts0.take(i as int).push(ts0[i as int]));
                lemma_filter_push(ts0.take(i as int), ts0[i as int], online_pred(ids0));
            }
            if iset_contains(&self.online_users, &snapshot[i]) {
                proof {
                    assert(online_pred(ids0)(ts0[i as int]));
                    lemma_filter_sub(ts0.take(i as int), online_pred(ids0));
                    if iset_elems(kept).contains(ts0[i as int]) {
                        let fj = choose|fj: int|
                            0 <= fj < iset_elems(kept).len() && iset_elems(kept)[fj] == ts0[
                                i as int];
                        assert(ts0.take(i as int).contains(iset_elems(kept)[fj]));
                        let j = choose|j: int|
                            0 <= j < ts0.take(i as int).len() && ts0.take(i as int)[j] == ts0[
                                i as int];
                        assert(ts0[j] == ts0[i as int]);
                    }
                }
                iset_insert(&mut kept, snapshot[i].clone());
                proof {
                    assert(iset_elems(kept) == ts0.take(i as int).filter(online_pred(ids0)).push(
                        ts0[i as int],
                    ));
                    assert(iset_elems(kept) == ts0.take(i as int + 1).filter(online_pred(ids0)));
                }
            } else {
                proof {
                    assert(!online_pred(ids0)(ts0[i as int]));
                    assert(ts0.take(i as int + 1).filter(online_pred(ids0)) == ts0.take(
                        i as int,
                    ).filter(online_pred(ids0)));
                }
            }
            i += 1;
        }
        proof {
            assert(ts0.take(m as int) =~= ts0);
        }
        if !iset_is_empty(&kept) {
            let ghost kept_elems = iset_elems(kept);
            proof {
                lemma_filter_no_dup(ts0, online_pred(ids0));
            }
            let e = EventMessage {
                author: event_message.author,
                targets: kept,
                item: event_message.item,
            };
            self.pending_messages.push(e);
            proof {
                let newv = EventMessageV {
                    author: event_message@.author,
                    targets: kept_elems,
                    item: event_message@.item,
                };
                assert(self.queue() =~= s0.queue().push(newv));
                assert forall|j: int| 0 <= j < self.queue().len() implies event_ok(
                    #[trigger] self.queue()[j],
                ) by {
                    if j < s0.queue().len() {
                        assert(self.queue()[j] == s0.queue()[j]);
                        assert(event_ok(s0.queue()[j]));
                    } else {
                        assert(self.queue()[j] == newv);
                    }
                };
            }
        }
    }

    /// Records that the user is typing in the given channel, overwriting
    /// any earlier entry for the user.
    pub fn type_status_add(&mut self, user_id: String, channel_id: String)
        requires
            old(self).wf(),
        ensures
            final(self).wf(),
            final(self).online_ids() == old(self).online_ids(),
            final(self).queue() == old(self).queue(),
            final(self).typing() == old(self).typing().insert(user_id@, channel_id@),
    {
        self.type_status_remove(&user_id);
        let ghost s1 = self.type_status@;
        proof {
            lemma_pairs_map_dom(s1);
            assert(!self.typing().contains_key(user_id@));
            assert(!has_key(s1, user_id@));
        }
        self.type_status.push((user_id, channel_id));
        proof {
            let s2 = self.type_status@;
            assert(s2.drop_last() =~= s1);
            assert(pairs_map(s2) == pairs_map(s1).insert(s2.last().0@, s2.last().1@));
            assert forall|p: int, q: int|
                0 <= p < s2.len() && 0 <= q < s2.len() && p != q implies (
            #[trigger] s2[p]).0@ != (#[trigger] s2[q]).0@ by {
                if p < s2.len() - 1 && q < s2.len() - 1 {
                    assert(s2[p] == s1[p] && s2[q] == s1[q]);
                } else if p == s2.len() - 1 {
                    assert(s2[q] == s1[q]);
                } else {
                    assert(s2[p] == s1[p]);
                }
            };
            assert(self.typing() =~= old(self).typing().insert(s2.last().0@, s2.last().1@));
            assert(self.online_ids() == old(self).online_ids());
            assert(self.queue() == old(self).queue());
            assert forall|j: int| 0 <= j < self.queue().len() implies event_ok(
                #[trigger] self.queue()[j],
            ) by {
                assert(event_ok(old(self).queue()[j]));
            };
        }
    }

    /// Overwrites the user's typing-status entry and hands back the channel
    /// that was recorded before, if any — the caller uses it to decide
    /// whether a repeated notification should be suppressed.
    pub fn type_status_replace(&mut self, user_id: String, channel_id: String) -> (r: Option<
        String,
    >)
        requires
            old(self).wf(),
        ensures
            final(self).wf(),
            final(self).online_ids() == old(self).online_ids(),
            final(self).queue() == old(self).queue(),
            final(self).typing() == old(self).typing().insert(user_id@, channel_id@),
            match r {
                Some(c) => old(self).typing().contains_key(user_id@) && c@ == old(self).typing()[
                    user_id@],
                None => !old(self).typing().contains_key(user_id@),
            },
    {
        let r = self.type_status_get(&user_id);
        self.type_status_add(user_id, channel_id);
        r
    }
}

/// Internal methods: the garbage-collection pass and the per-user sweeps.
impl State {
    /// The index of the user's typing-status entry, if there is one.
    fn type_status_find(&self, user_id: &String) -> (r: Option<usize>)
        ensures
            match r {
                Some(i) => i < self.type_status@.len() && self.type_status@[i as int].0@
                    == user_id@,
                None => !has_key(self.type_status@, user_id@),
            },
    {
        let n = self.type_status.len();
        let mut i: usize = 0;
        while i < n
            invariant
                i <= n,
                n == self.type_status@.len(),
                forall|j: int| 0 <= j < i ==> (#[trigger] self.type_status@[j]).0@ != user_id@,
            decreases n - i,
        {
            if self.type_status[i].0.eq(user_id) {
                return Some(i);
            }
            i += 1;
        }
        None
    }

    /// The channel the user was last reported typing in, if any.
    fn type_status_get(&self, user_id: &String) -> (r: Option<String>)
        requires
            keys_unique(self.type_status@),
        ensures
            match r {
                Some(c) => self.typing().contains_key(user_id@) && c@ == self.typing()[user_id@],
                None => !self.typing().contains_key(user_id@),
            },
    {
        proof {
            lemma_pairs_map_dom(self.type_status@);
            lemma_pairs_map_vals(self.type_status@);
        }
        match self.type_status_find(user_id) {
            Some(i) => Some(self.type_status[i].1.clone()),
            None => None,
        }
    }

    /// Drops the user's typing-status entry, if there is one.
    fn type_status_remove(&mut self, user_id: &String)
        requires
            keys_unique(old(self).type_status@),
        ensures
            keys_unique(final(self).type_status@),
            final(self).online_users == old(self).online_users,
            final(self).pending_messages == old(self).pending_messages,
            final(self).typing() == old(self).typing().remove(user_id@),
    {
        proof {
            lemma_pairs_map_dom(self.type_status@);
        }
        match self.type_status_find(user_id) {
            Some(i) => {
                let ghost s0 = self.type_status@;
                proof {
                    lemma_pairs_map_remove(s0, i as int);
                }
                self.type_status.remove(i);
                proof {
                    s0.remove_ensures(i as int);
                    assert forall|p: int, q: int|
                        0 <= p < self.type_status@.len() && 0 <= q < self.type_status@.len() && p
                            != q implies (#[trigger] self.type_status@[p]).0@ != (
                    #[trigger] self.type_status@[q]).0@ by {
                        let p0: int = if p < i { p } else { p + 1 };
                        let q0: int = if q < i { q } else { q + 1 };
                        assert(self.type_status@[p] == s0[p0] && self.type_status@[q] == s0[q0]);
                    };
                }
            },
            None => {
                proof {
                    assert(!old(self).typing().contains_key(user_id@));
                    assert(self.typing() =~= old(self).typing().remove(user_id@));
                }
            },
        }
    }

    /// The garbage-collection pass: drops every event whose target set has
    /// become empty, keeping the rest in order.
    fn remove_dead_messages(&mut self)
        ensures
            final(self).online_users == old(self).online_users,
            final(self).type_status == old(self).type_status,
            final(self).queue() == old(self).queue().filter(live_pred()),
    {
        let ghost s0 = *old(self);
        let ghost q0 = s0.queue();
        let mut kept: Vec<EventMessage> = Vec::new();
        let n = self.pending_messages.len();
        let mut i: usize = 0;
        while i < n
            invariant
                i <= n,
                n == self.pending_messages@.len(),
                *self == s0,
                q0 == qv(self.pending_messages@),
                qv(kept@) == q0.take(i as int).filter(live_pred()),
            decreases n - i,
        {
            proof {
                assert(q0[i as int] == self.pending_messages@[i as int]@);
                assert(q0.take(i as int + 1) =~= q0.take(i as int).push(q0[i as int]));
                lemma_filter_push(q0.take(i as int), q0[i as int], live_pred());
            }
            let e = &self.pending_messages[i];
            if !iset_is_empty(&e.targets) {
                let ghost k0 = kept@;
                kept.push(e.clone());
                proof {
                    assert(kept@.last()@ == q0[i as int]);
                    assert(qv(kept@) =~= qv(k0).push(kept@.last()@));
                }
            }
            i += 1;
        }
        proof {
            assert(q0.take(n as int) =~= q0);
        }
        self.pending_messages = kept;
    }

    /// Strikes the user from every pending event's target set, leaving the
    /// events in place; the garbage-collection pass that follows collects
    /// any event this leaves without targets.
    fn user_remove_message(&mut self, user_id: &String)
        ensures
            final(self).online_users == old(self).online_users,
            final(self).type_status == old(self).type_status,
            final(self).queue() == old(self).queue().map_values(strip_fn(user_id@)),
    {
        let ghost s0 = *old(self);
        let ghost q0 = s0.pending_messages@;
        let n = self.pending_messages.len();
        let mut i: usize = 0;
        while i < n
            invariant
                i <= n,
                n == self.pending_messages@.len(),
                self.online_users == s0.online_users,
                self.type_status == s0.type_status,
                forall|j: int| i <= j < n ==> self.pending_messages@[j] == q0[j],
                forall|j: int|
                    0 <= j < i ==> (#[trigger] self.pending_messages@[j])@ == strip_target(
                        q0[j]@,
                        user_id@,
                    ),
            decreases n - i,
        {
            let e = &mut self.pending_messages[i];
            iset_shift_remove(&mut e.targets, user_id);
            i += 1;
        }
        proof {
            assert(self.queue() =~= qv(q0).map_values(strip_fn(user_id@)));
        }
    }
}

impl Default for State {
    /// The same fresh state as [`State::new`].
    fn default() -> (s: Self)
        ensures
            s.wf(),
            s.online_ids() == Seq::<Seq<char>>::empty(),
            s.queue() == Seq::<EventMessageV>::empty(),
            s.typing() == Map::<Seq<char>, Seq<char>>::empty(),
    {
        State::new()
    }
}

/// The presence registry holds at most one entry per user: in any reachable
/// state it is free of duplicates.
pub proof fn lemma_presence_unique(s: &State)
    requires
        s.wf(),
    ensures
        s.online_ids().no_duplicates(),
{
}

/// Every pending event still owes a delivery: in any reachable state no
/// event in the queue has an empty target set.
pub proof fn lemma_pending_targets_nonempty(s: &State)
    requires
        s.wf(),
    ensures
        forall|i: int| 0 <= i < s.queue().len() ==> (#[trigger] s.queue()[i]).targets.len() > 0,
{
}

} // verus!
