//! The durable event rows, modelled as an in-memory store.
//!
//! The operations mirror the narrow interface the lifecycle needs from
//! row storage: insert with a fresh id, lookup by id, name or
//! announcement-message id, a scan ordered by start time, the
//! reminder-flag update, and an idempotent delete.

use vstd::prelude::*;

use crate::event::{Event, NewEvent};

verus! {

/// Some row in `s` carries this id.
pub open spec fn contains_id(s: Seq<Event>, id: i32) -> bool {
    exists|i: int| 0 <= i < s.len() && (#[trigger] s[i]).id == id
}

/// No two rows share an id.
pub open spec fn unique_ids(s: Seq<Event>) -> bool {
    forall|i: int, j: int|
        0 <= i < j < s.len() ==> (#[trigger] s[i]).id != (#[trigger] s[j]).id
}

/// The first row with this id, scanning front to back.
pub open spec fn spec_find_by_id(s: Seq<Event>, id: i32) -> Option<Event>
    decreases s.len(),
{
    if s.len() == 0 {
        None
    } else if s[0].id == id {
        Some(s[0])
    } else {
        spec_find_by_id(s.drop_first(), id)
    }
}

/// The first row with this event name, scanning front to back.
pub open spec fn spec_find_by_name(s: Seq<Event>, name: Seq<char>) -> Option<Event>
    decreases s.len(),
{
    if s.len() == 0 {
        None
    } else if s[0].event_name@ == name {
        Some(s[0])
    } else {
        spec_find_by_name(s.drop_first(), name)
    }
}

/// The first row with this announcement-message id, front to back.
pub open spec fn spec_find_by_msg_id(s: Seq<Event>, msg_id: Seq<char>) -> Option<Event>
    decreases s.len(),
{
    if s.len() == 0 {
        None
    } else if s[0].message_id@ == msg_id {
        Some(s[0])
    } else {
        spec_find_by_msg_id(s.drop_first(), msg_id)
    }
}

/// A row with its reminder flag rewritten.
pub open spec fn with_reminder(e: Event, state: i32) -> Event {
    Event { reminder_sent: state, ..e }
}

/// `s` with every row of this id given `reminder_sent = state`.
pub open spec fn spec_set_reminder(s: Seq<Event>, id: i32, state: i32) -> Seq<Event> {
    Seq::new(
        s.len(),
        |k: int|
            if s[k].id == id {
                with_reminder(s[k], state)
            } else {
                s[k]
            },
    )
}

/// `s` with every row of this id removed; all other rows keep their
/// order.
pub open spec fn spec_remove_id(s: Seq<Event>, id: i32) -> Seq<Event>
    decreases s.len(),
{
    if s.len() == 0 {
        s
    } else {
        let rest = spec_remove_id(s.drop_last(), id);
        if s.last().id == id {
            rest
        } else {
            rest.push(s.last())
        }
    }
}

/// The rows stand in ascending start-time order.
pub open spec fn sorted_by_time(s: Seq<Event>) -> bool {
    forall|i: int, j: int|
        0 <= i < j < s.len() ==> (#[trigger] s[i]).event_time <= (#[trigger] s[j]).event_time
}

/// Inserting anywhere adds exactly one occurrence to the multiset of
/// elements.
pub proof fn lemma_to_multiset_insert<A>(s: Seq<A>, i: int, x: A)
    requires
        0 <= i <= s.len(),
    ensures
        s.insert(i, x).to_multiset() == s.to_multiset().insert(x),
{
    broadcast use vstd::seq_lib::group_to_multiset_ensures;
    broadcast use vstd::multiset::group_multiset_axioms;

    let t = s.insert(i, x);
    assert(t.remove(i) =~= s);
    assert(t[i] == x);
    assert(s.to_multiset() =~= t.to_multiset().remove(x));
    assert(t.contains(x));
    assert(t.to_multiset().count(x) > 0);
    assert(t.to_multiset() =~= s.to_multiset().insert(x));
}

/// Skipping a prefix with no matching id leaves the find unchanged.
proof fn lemma_find_by_id_skip(s: Seq<Event>, id: i32, i: int)
    requires
        0 <= i <= s.len(),
        forall|k: int| 0 <= k < i ==> (#[trigger] s[k]).id != id,
    ensures
        spec_find_by_id(s, id) == spec_find_by_id(s.subrange(i, s.len() as int), id),
    decreases i,
{
    if i == 0 {
        assert(s.subrange(0, s.len() as int) =~= s);
    } else {
        lemma_find_by_id_skip(s, id, i - 1);
        let t = s.subrange(i - 1, s.len() as int);
        assert(t[0] == s[i - 1]);
        assert(t.drop_first() =~= s.subrange(i, s.len() as int));
    }
}

/// Skipping a prefix with no matching name leaves the find unchanged.
proof fn lemma_find_by_name_skip(s: Seq<Event>, name: Seq<char>, i: int)
    requires
        0 <= i <= s.len(),
        forall|k: int| 0 <= k < i ==> (#[trigger] s[k]).event_name@ != name,
    ensures
        spec_find_by_name(s, name) == spec_find_by_name(s.subrange(i, s.len() as int), name),
    decreases i,
{
    if i == 0 {
        assert(s.subrange(0, s.len() as int) =~= s);
    } else {
        lemma_find_by_name_skip(s, name, i - 1);
        let t = s.subrange(i - 1, s.len() as int);
        assert(t[0] == s[i - 1]);
        assert(t.drop_first() =~= s.subrange(i, s.len() as int));
    }
}

/// Skipping a prefix with no matching message id leaves the find
/// unchanged.
proof fn lemma_find_by_msg_id_skip(s: Seq<Event>, msg_id: Seq<char>, i: int)
    requires
        0 <= i <= s.len(),
        forall|k: int| 0 <= k < i ==> (#[trigger] s[k]).message_id@ != msg_id,
    ensures
        spec_find_by_msg_id(s, msg_id) == spec_find_by_msg_id(s.subrange(i, s.len() as int), msg_id),
    decreases i,
{
    if i == 0 {
        assert(s.subrange(0, s.len() as int) =~= s);
    } else {
        lemma_find_by_msg_id_skip(s, msg_id, i - 1);
        let t = s.subrange(i - 1, s.len() as int);
        assert(t[0] == s[i - 1]);
        assert(t.drop_first() =~= s.subrange(i, s.len() as int));
    }
}

/// Removal keeps ids unique, and every surviving row is one of the old
/// rows.
pub proof fn lemma_remove_id_ids(s: Seq<Event>, id: i32)
    requires
        unique_ids(s),
    ensures
        unique_ids(spec_remove_id(s, id)),
        forall|k: int|
            0 <= k < spec_remove_id(s, id).len() ==> exists|j: int|
                0 <= j < s.len() && #[trigger] spec_remove_id(s, id)[k] == s[j],
    decreases s.len(),
{
    let r = spec_remove_id(s, id);
    if s.len() > 0 {
        let d = s.drop_last();
        assert(unique_ids(d)) by {
            assert(forall|k: int| 0 <= k < d.len() ==> d[k] == s[k]);
        }
        lemma_remove_id_ids(d, id);
        let rest = spec_remove_id(d, id);
        assert forall|k: int| 0 <= k < r.len() implies exists|j: int|
            0 <= j < s.len() && #[trigger] r[k] == s[j] by {
            if k < rest.len() {
                let j = choose|j: int| 0 <= j < d.len() && #[trigger] rest[k] == d[j];
                assert(r[k] == s[j]);
            } else {
                assert(r[k] == s[s.len() - 1]);
            }
        }
        if s.last().id != id {
            assert forall|a: int, b: int| 0 <= a < b < r.len() implies (#[trigger] r[a]).id != (
            #[trigger] r[b]).id by {
                if b == r.len() - 1 {
                    let j = choose|j: int| 0 <= j < d.len() && #[trigger] rest[a] == d[j];
                    assert(r[a] == s[j] && r[b] == s[s.len() - 1]);
                }
            }
        }
    }
}

/// Everything that survives a removal has another id.
pub proof fn lemma_remove_id_absent(s: Seq<Event>, id: i32)
    ensures
        !contains_id(spec_remove_id(s, id), id),
        forall|k: int|
            0 <= k < spec_remove_id(s, id).len() ==> (#[trigger] spec_remove_id(s, id)[k]).id
                != id,
    decreases s.len(),
{
    if s.len() > 0 {
        lemma_remove_id_absent(s.drop_last(), id);
    }
}

/// Removing from rows that all have another id changes nothing.
pub proof fn lemma_remove_id_noop(s: Seq<Event>, id: i32)
    requires
        forall|k: int| 0 <= k < s.len() ==> (#[trigger] s[k]).id != id,
    ensures
        spec_remove_id(s, id) == s,
    decreases s.len(),
{
    if s.len() > 0 {
        lemma_remove_id_noop(s.drop_last(), id);
        assert(spec_remove_id(s.drop_last(), id).push(s.last()) =~= s);
    }
}

/// Law: removal is idempotent.  Removing an id and removing it again
/// leaves exactly the rows the first removal left.
pub proof fn lemma_remove_id_idempotent(s: Seq<Event>, id: i32)
    ensures
        spec_remove_id(spec_remove_id(s, id), id) == spec_remove_id(s, id),
{
    lemma_remove_id_absent(s, id);
    lemma_remove_id_noop(spec_remove_id(s, id), id);
}

/// A sequence without an id finds nothing under it.
pub proof fn lemma_find_none_without_id(s: Seq<Event>, id: i32)
    requires
        forall|k: int| 0 <= k < s.len() ==> (#[trigger] s[k]).id != id,
    ensures
        spec_find_by_id(s, id) is None,
    decreases s.len(),
{
    if s.len() > 0 {
        assert(s.drop_first() =~= s.subrange(1, s.len() as int));
        lemma_find_none_without_id(s.drop_first(), id);
    }
}

/// Durable row storage with store-assigned ids.
pub struct EventStore {
    events: Vec<Event>,
    next_id: i32,
}

impl View for EventStore {
    type V = Seq<Event>;

    closed spec fn view(&self) -> Seq<Event> {
        self.events@
    }
}

impl EventStore {
    /// How many ids the store has ever assigned.
    pub closed spec fn ids_used(self) -> int {
        self.next_id as int
    }

    /// The store invariant: ids are unique, non-negative, and below the
    /// next id to be assigned.
    pub closed spec fn wf(self) -> bool {
        &&& 0 <= self.next_id
        &&& unique_ids(self.events@)
        &&& forall|i: int|
            0 <= i < self.events@.len() ==> 0 <= (#[trigger] self.events@[i]).id < self.next_id
    }

    /// Another insert is possible.
    pub open spec fn can_insert(self) -> bool {
        self.ids_used() < i32::MAX && self@.len() < usize::MAX
    }

    /// An empty store.
    pub fn new() -> (s: Self)
        ensures
            s.wf(),
            s@ == Seq::<Event>::empty(),
            s.ids_used() == 0,
    {
        let s = EventStore { events: Vec::new(), next_id: 0 };
        proof {
            assert(s.events@ =~= Seq::<Event>::empty());
        }
        s
    }

    /// Runtime check that another insert is possible, for callers that
    /// must test it before calling `insert_event`.
    pub fn has_capacity(&self) -> (r: bool)
        ensures
            r == self.can_insert(),
    {
        self.next_id < i32::MAX && self.events.len() < usize::MAX
    }

    /// How many rows the store holds.
    pub fn len(&self) -> (n: usize)
        ensures
            n == self@.len(),
    {
        self.events.len()
    }

    /// Insert a template as a new row under a fresh id, and return the
    /// stored row.
    pub fn insert_event(&mut self, new_event: &NewEvent) -> (ev: Event)
        requires
            old(self).wf(),
            old(self).can_insert(),
        ensures
            final(self).wf(),
            final(self).ids_used() == old(self).ids_used() + 1,
            ev.id == old(self).ids_used(),
            ev.event_name == new_event.event_name,
            ev.event_desc == new_event.event_desc,
            ev.event_loc == new_event.event_loc,
            ev.organizer == new_event.organizer,
            ev.event_time == new_event.event_time,
            ev.message_id == new_event.message_id,
            ev.thumbnail_link == new_event.thumbnail_link,
            ev.reminder_sent == new_event.reminder_sent,
            final(self)@ == old(self)@.push(ev),
    {
        let ev = Event {
            id: self.next_id,
            event_name: new_event.event_name.clone(),
            event_desc: new_event.event_desc.clone(),
            event_loc: new_event.event_loc.clone(),
            organizer: new_event.organizer.clone(),
            event_time: new_event.event_time,
            message_id: new_event.message_id.clone(),
            thumbnail_link: new_event.thumbnail_link.clone(),
            reminder_sent: new_event.reminder_sent,
        };
        let stored = ev.clone();
        self.events.push(ev);
        self.next_id = self.next_id + 1;
        stored
    }

    /// The row with this id, if any.
    pub fn get_event_by_id(&self, id: i32) -> (r: Option<Event>)
        ensures
            r == spec_find_by_id(self@, id),
    {
        let n = self.events.len();
        let mut i: usize = 0;
        while i < n
            invariant
                n == self.events@.len(),
                0 <= i <= n,
                forall|k: int| 0 <= k < i ==> (#[trigger] self.events@[k]).id != id,
            decreases n - i,
        {
            if self.events[i].id == id {
                proof {
                    lemma_find_by_id_skip(self.events@, id, i as int);
                    let t = self.events@.subrange(i as int, n as int);
                    assert(t[0] == self.events@[i as int]);
                }
                return Some(self.events[i].clone());
            }
            i = i + 1;
        }
        proof {
            lemma_find_none_without_id(self.events@, id);
        }
        None
    }

    /// The first row with this event name, if any.
    pub fn get_event_by_name(&self, name: &String) -> (r: Option<Event>)
        ensures
            r == spec_find_by_name(self@, name@),
    {
        let n = self.events.len();
        let mut i: usize = 0;
        while i < n
            invariant
                n == self.events@.len(),
                0 <= i <= n,
                forall|k: int| 0 <= k < i ==> (#[trigger] self.events@[k]).event_name@ != name@,
            decreases n - i,
        {
            if self.events[i].event_name.eq(name) {
                proof {
                    lemma_find_by_name_skip(self.events@, name@, i as int);
                    let t = self.events@.subrange(i as int, n as int);
                    assert(t[0] == self.events@[i as int]);
                }
                return Some(self.events[i].clone());
            }
            i = i + 1;
        }
        proof {
            lemma_find_by_name_skip(self.events@, name@, n as int);
            assert(self.events@.subrange(n as int, n as int) =~= Seq::<Event>::empty());
        }
        None
    }

    /// The first row with this announcement-message id, if any.
    pub fn get_event_by_msg_id(&self, msg_id: &String) -> (r: Option<Event>)
        ensures
            r == spec_find_by_msg_id(self@, msg_id@),
    {
        let n = self.events.len();
        let mut i: usize = 0;
        while i < n
            invariant
                n == self.events@.len(),
                0 <= i <= n,
                forall|k: int| 0 <= k < i ==> (#[trigger] self.events@[k]).message_id@ != msg_id@,
            decreases n - i,
        {
            if self.events[i].message_id.eq(msg_id) {
                proof {
                    lemma_find_by_msg_id_skip(self.events@, msg_id@, i as int);
                    let t = self.events@.subrange(i as int, n as int);
                    assert(t[0] == self.events@[i as int]);
                }
                return Some(self.events[i].clone());
            }
            i = i + 1;
        }
        proof {
            lemma_find_by_msg_id_skip(self.events@, msg_id@, n as int);
            assert(self.events@.subrange(n as int, n as int) =~= Seq::<Event>::empty());
        }
        None
    }

    /// All rows, in ascending start-time order: the same rows the
    /// store holds, as a multiset.  Rows with equal start times carry
    /// no further ordering guarantee.
    pub fn get_all_events(&self) -> (r: Vec<Event>)
        ensures
            sorted_by_time(r@),
            r@.to_multiset() == self@.to_multiset(),
    {
        broadcast use vstd::seq_lib::group_to_multiset_ensures;

        let n = self.events.len();
        let mut out: Vec<Event> = Vec::new();
        let mut k: usize = 0;
        proof {
            assert(self.events@.subrange(0, 0) =~= Seq::<Event>::empty());
            assert(out@ =~= Seq::<Event>::empty());
        }
        while k < n
            invariant
                n == self.events@.len(),
                0 <= k <= n,
                sorted_by_time(out@),
                out@.len() == k,
                out@.to_multiset() == self.events@.subrange(0, k as int).to_multiset(),
            decreases n - k,
        {
            broadcast use vstd::seq_lib::group_to_multiset_ensures;

            let e = self.events[k].clone();
            let ghost o0 = out@;
            let t = e.event_time;
            let mut i: usize = 0;
            while i < out.len() && out[i].event_time <= t
                invariant
                    out@ == o0,
                    sorted_by_time(o0),
                    0 <= i <= o0.len(),
                    forall|p: int| 0 <= p < i ==> (#[trigger] o0[p]).event_time <= t,
                decreases o0.len() - i,
            {
                i = i + 1;
            }
            out.insert(i, e);
            proof {
                let o1 = out@;
                assert forall|a: int, b: int| 0 <= a < b < o1.len() implies (
                #[trigger] o1[a]).event_time <= (#[trigger] o1[b]).event_time by {
                    if b < i {
                        assert(o1[a] == o0[a] && o1[b] == o0[b]);
                    } else if b == i {
                        assert(o1[a] == o0[a] && o1[b] == e);
                    } else if a > i {
                        assert(o1[a] == o0[a - 1] && o1[b] == o0[b - 1]);
                    } else if a == i {
                        assert(o1[a] == e && o1[b] == o0[b - 1]);
                        assert(i < o0.len());
                        assert(o0[i as int].event_time > t);
                        assert(o0[i as int].event_time <= o0[b - 1].event_time || b - 1 == i);
                    } else {
                        assert(o1[a] == o0[a] && o1[b] == o0[b - 1]);
                        assert(a < b - 1);
                    }
                }
                lemma_to_multiset_insert(o0, i as int, e);
                assert(self.events@.subrange(0, k + 1).drop_last() =~= self.events@.subrange(
                    0,
                    k as int,
                ));
                assert(self.events@.subrange(0, k + 1) =~= self.events@.subrange(
                    0,
                    k as int,
                ).push(e));
            }
            k = k + 1;
        }
        proof {
            assert(self.events@.subrange(0, n as int) =~= self.events@);
        }
        out
    }

    /// Set the reminder flag of the row with this id.  Returns how many
    /// rows changed: one if the id is present, else zero.
    pub fn set_reminder(&mut self, event_id: i32, state: i32) -> (n: usize)
        requires
            old(self).wf(),
        ensures
            final(self).wf(),
            final(self).ids_used() == old(self).ids_used(),
            final(self)@ == spec_set_reminder(old(self)@, event_id, state),
            n == 1 <==> contains_id(old(self)@, event_id),
            n <= 1,
    {
        let ghost s0 = self.events@;
        let len = self.events.len();
        let mut i: usize = 0;
        while i < len
            invariant
                old(self).wf(),
                s0 == old(self)@,
                len == self.events@.len(),
                self.events@ == s0,
                self.next_id == old(self).next_id,
                0 <= i <= len,
                forall|k: int| 0 <= k < i ==> (#[trigger] s0[k]).id != event_id,
            decreases len - i,
        {
            if self.events[i].id == event_id {
                let mut e = self.events[i].clone();
                e.reminder_sent = state;
                let ghost witness = i as int;
                self.events[i] = e;
                proof {
                    assert(s0[witness].id == event_id);
                    assert(contains_id(s0, event_id));
                    assert forall|k: int| 0 <= k < s0.len() implies self.events@[k]
                        == spec_set_reminder(s0, event_id, state)[k] by {
                        if k != witness {
                            assert(s0[k].id != event_id || k == witness);
                        }
                    }
                    assert(self.events@ =~= spec_set_reminder(s0, event_id, state));
                }
                return 1;
            }
            i = i + 1;
        }
        proof {
            assert forall|k: int| 0 <= k < s0.len() implies self.events@[k] == spec_set_reminder(
                s0,
                event_id,
                state,
            )[k] by {}
            assert(self.events@ =~= spec_set_reminder(s0, event_id, state));
        }
        0
    }

    /// Remove the row with this id.  Removing an absent id is not an
    /// error: the store is left unchanged and zero is returned.
    pub fn remove_event(&mut self, event_id: i32) -> (n: usize)
        requires
            old(self).wf(),
        ensures
            final(self).wf(),
            final(self).ids_used() == old(self).ids_used(),
            final(self)@ == spec_remove_id(old(self)@, event_id),
            n == 1 <==> contains_id(old(self)@, event_id),
            n <= 1,
    {
        let ghost s0 = self.events@;
        let len = self.events.len();
        let mut kept: Vec<Event> = Vec::new();
        let mut removed: usize = 0;
        let mut i: usize = 0;
        proof {
            assert(s0.subrange(0, 0) =~= Seq::<Event>::empty());
        }
        while i < len
            invariant
                old(self).wf(),
                s0 == old(self)@,
                len == self.events@.len(),
                self.events@ == s0,
                self.next_id == old(self).next_id,
                0 <= i <= len,
                kept@ == spec_remove_id(s0.subrange(0, i as int), event_id),
                removed <= i,
                (removed > 0) <==> contains_id(s0.subrange(0, i as int), event_id),
            decreases len - i,
        {
            let ghost prefix = s0.subrange(0, i as int);
            let ghost prefix1 = s0.subrange(0, i + 1);
            proof {
                assert(prefix1.drop_last() =~= prefix);
                assert(prefix1.last() == s0[i as int]);
            }
            if self.events[i].id != event_id {
                kept.push(self.events[i].clone());
                proof {
                    if contains_id(prefix, event_id) {
                        let w = choose|k: int| 0 <= k < prefix.len() && (#[trigger] prefix[k]).id
                            == event_id;
                        assert(prefix1[w].id == event_id);
                        assert(contains_id(prefix1, event_id));
                    }
                    if contains_id(prefix1, event_id) {
                        let w = choose|k: int| 0 <= k < prefix1.len() && (#[trigger] prefix1[k]).id
                            == event_id;
                        assert(w < prefix.len());
                        assert(prefix[w].id == event_id);
                        assert(contains_id(prefix, event_id));
                    }
                }
            } else {
                removed = removed + 1;
                proof {
                    assert(prefix1[i as int].id == event_id);
                    assert(contains_id(prefix1, event_id));
                }
            }
            i = i + 1;
        }
        proof {
            assert(s0.subrange(0, len as int) =~= s0);
            lemma_remove_id_absent(s0, event_id);
            lemma_remove_id_ids(s0, event_id);
            let r = spec_remove_id(s0, event_id);
            assert forall|k: int| 0 <= k < r.len() implies 0 <= (#[trigger] r[k]).id < old(
                self,
            ).next_id by {
                let j = choose|j: int| 0 <= j < s0.len() && #[trigger] r[k] == s0[j];
            }
        }
        self.events = kept;
        if removed > 0 {
            1
        } else {
            0
        }
    }
}

} // verus!
