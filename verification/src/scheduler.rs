//! The invocation scheduler: three queues served by priority, with
//! last-wins coalescing of events that share a key.
//!
//! High-priority items are served first, then normal ones, then events. An
//! event with a dedup key supersedes every earlier queued event with the same
//! key: only the newest one is delivered, the older ones are skipped.

use vstd::prelude::*;
use std::collections::VecDeque;
use crate::text::str_eq;

verus! {

/// The priority of an invocation.
#[derive(Clone, Copy, Debug, PartialEq, Eq, Structural)]
pub enum JsInvokePriority {
    High,
    Normal,
    Event,
}

/// A queued invocation: its priority, optional dedup key, the generation the
/// scheduler stamped on it, and what to run.
pub struct QueueItem<T> {
    pub priority: JsInvokePriority,
    pub dedup_key: Option<String>,
    pub generation: u64,
    pub payload: T,
}

/// The view of a dedup key.
pub open spec fn key_of<T>(item: QueueItem<T>) -> Option<Seq<char>> {
    match item.dedup_key {
        Some(k) => Some(k@),
        None => None,
    }
}

/// An event is stale when a newer event with the same key was queued after it.
pub open spec fn is_stale<T>(latest: Map<Seq<char>, u64>, item: QueueItem<T>) -> bool {
    match key_of(item) {
        Some(k) => latest.contains_key(k) && latest[k] != item.generation,
        None => false,
    }
}

/// No item of the queue has the given key.
pub open spec fn none_with_key<T>(q: Seq<QueueItem<T>>, key: Option<Seq<char>>) -> bool {
    forall|i: int| 0 <= i < q.len() ==> key_of(#[trigger] q[i]) != key
}

/// The scheduler's queues and the newest generation of each event key.
pub struct InvokeQueueState<T> {
    high: VecDeque<QueueItem<T>>,
    norm: VecDeque<QueueItem<T>>,
    event: VecDeque<QueueItem<T>>,
    gens: Vec<(String, u64)>,
    latest: Ghost<Map<Seq<char>, u64>>,
    next_gen: u64,
}

impl<T> InvokeQueueState<T> {
    pub closed spec fn high_queue(&self) -> Seq<QueueItem<T>> {
        self.high@
    }

    pub closed spec fn normal_queue(&self) -> Seq<QueueItem<T>> {
        self.norm@
    }

    pub closed spec fn event_queue(&self) -> Seq<QueueItem<T>> {
        self.event@
    }

    /// The newest generation stamped on each event key still pending.
    pub closed spec fn latest(&self) -> Map<Seq<char>, u64> {
        self.latest@
    }

    /// The generation the next keyed event will get.
    pub closed spec fn next_generation(&self) -> u64 {
        self.next_gen
    }

    /// The generation table agrees with `latest`, and holds each key once.
    closed spec fn table_wf(&self) -> bool {
        &&& forall|j: int| 0 <= j < self.gens@.len() ==> #[trigger] self.latest@.contains_key(self.gens@[j].0@)
            && self.latest@[self.gens@[j].0@] == self.gens@[j].1
        &&& forall|k: Seq<char>| #[trigger] self.latest@.contains_key(k) ==> exists|j: int| 0 <= j < self.gens@.len()
            && #[trigger] self.gens@[j].0@ == k
        &&& forall|a: int, b: int| 0 <= a < b < self.gens@.len() ==> self.gens@[a].0@ != self.gens@[b].0@
    }

    /// The invariant of the scheduler state.
    pub closed spec fn wf(&self) -> bool {
        &&& self.table_wf()
        &&& self.next_gen >= 1
        &&& forall|k: Seq<char>| #[trigger] self.latest@.contains_key(k) ==> 1 <= self.latest@[k] < self.next_gen
        &&& forall|i: int| 0 <= i < self.high@.len() ==> (#[trigger] self.high@[i]).priority == JsInvokePriority::High
            && self.high@[i].generation == 0
        &&& forall|i: int| 0 <= i < self.norm@.len() ==> (#[trigger] self.norm@[i]).priority
            == JsInvokePriority::Normal && self.norm@[i].generation == 0
        &&& forall|i: int| 0 <= i < self.event@.len() ==> (#[trigger] self.event@[i]).priority
            == JsInvokePriority::Event
        &&& forall|i: int| 0 <= i < self.event@.len() && (#[trigger] key_of(self.event@[i])) is Some ==> {
            let k = key_of(self.event@[i])->0;
            &&& self.latest@.contains_key(k)
            &&& self.event@[i].generation <= self.latest@[k]
        }
        &&& forall|a: int, b: int| 0 <= a < b < self.event@.len() && (#[trigger] key_of(self.event@[a])) is Some
            && (#[trigger] key_of(self.event@[b])) is Some ==> self.event@[a].generation < self.event@[b].generation
    }

    /// Dropping items from the fronts of the queues keeps the invariant.
    proof fn lemma_wf_suffix(a: &Self, b: &Self, dh: int, dn: int, de: int)
        requires
            a.wf(),
            0 <= dh <= a.high@.len(),
            0 <= dn <= a.norm@.len(),
            0 <= de <= a.event@.len(),
            b.high@ == a.high@.skip(dh),
            b.norm@ == a.norm@.skip(dn),
            b.event@ == a.event@.skip(de),
            b.gens@ == a.gens@,
            b.latest@ == a.latest@,
            b.next_gen == a.next_gen,
        ensures
            b.wf(),
    {
        assert forall|k: Seq<char>| #[trigger] b.latest@.contains_key(k) implies exists|w: int|
            0 <= w < b.gens@.len() && #[trigger] b.gens@[w].0@ == k by {
            let w = choose|w: int| 0 <= w < a.gens@.len() && #[trigger] a.gens@[w].0@ == k;
            assert(b.gens@[w].0@ == k);
        }
        assert forall|i: int| 0 <= i < b.high@.len() implies (#[trigger] b.high@[i]).priority == JsInvokePriority::High
            && b.high@[i].generation == 0 by {
            assert(b.high@[i] == a.high@[i + dh]);
        }
        assert forall|i: int| 0 <= i < b.norm@.len() implies (#[trigger] b.norm@[i]).priority
            == JsInvokePriority::Normal && b.norm@[i].generation == 0 by {
            assert(b.norm@[i] == a.norm@[i + dn]);
        }
        assert forall|i: int| 0 <= i < b.event@.len() implies (#[trigger] b.event@[i]).priority
            == JsInvokePriority::Event by {
            assert(b.event@[i] == a.event@[i + de]);
        }
        assert forall|i: int| 0 <= i < b.event@.len() && (#[trigger] key_of(b.event@[i])) is Some implies ({
            let k = key_of(b.event@[i])->0;
            &&& b.latest@.contains_key(k)
            &&& b.event@[i].generation <= b.latest@[k]
        }) by {
            assert(b.event@[i] == a.event@[i + de]);
        }
        assert forall|x: int, y: int| 0 <= x < y < b.event@.len() && (#[trigger] key_of(b.event@[x])) is Some
            && (#[trigger] key_of(b.event@[y])) is Some implies b.event@[x].generation < b.event@[y].generation by {
            assert(b.event@[x] == a.event@[x + de]);
            assert(b.event@[y] == a.event@[y + de]);
        }
    }

    /// Empty queues.
    pub fn new() -> (r: Self)
        ensures
            r.wf(),
            r.high_queue().len() == 0,
            r.normal_queue().len() == 0,
            r.event_queue().len() == 0,
            r.latest() == Map::<Seq<char>, u64>::empty(),
            r.next_generation() == 1,
    {
        InvokeQueueState {
            high: VecDeque::new(),
            norm: VecDeque::new(),
            event: VecDeque::new(),
            gens: Vec::new(),
            latest: Ghost(Map::empty()),
            next_gen: 1,
        }
    }

    /// The index of `key` in the generation table.
    fn find_key(&self, key: &str) -> (r: Option<usize>)
        requires
            self.table_wf(),
        ensures
            r matches Some(j) ==> j < self.gens@.len() && self.gens@[j as int].0@ == key@,
            r is None ==> !self.latest@.contains_key(key@),
    {
        let mut j: usize = 0;
        while j < self.gens.len()
            invariant
                j <= self.gens@.len(),
                forall|i: int| 0 <= i < j ==> self.gens@[i].0@ != key@,
            decreases self.gens@.len() - j,
        {
            if str_eq(self.gens[j].0.as_str(), key) {
                return Some(j);
            }
            j = j + 1;
        }
        proof {
            if self.latest@.contains_key(key@) {
                let w = choose|w: int| 0 <= w < self.gens@.len() && #[trigger] self.gens@[w].0@ == key@;
                assert(self.gens@[w].0@ != key@);
            }
        }
        None
    }

    /// Queues an item by its priority. A keyed event gets the next generation,
    /// which becomes the newest of its key; other items keep generation 0.
    pub fn enqueue_item(&mut self, priority: JsInvokePriority, dedup_key: Option<String>, payload: T)
        requires
            old(self).wf(),
            old(self).next_generation() < u64::MAX,
        ensures
            final(self).wf(),
            priority == JsInvokePriority::High ==> {
                &&& final(self).high_queue() == old(self).high_queue().push(
                    QueueItem { priority, dedup_key, generation: 0, payload })
                &&& final(self).normal_queue() == old(self).normal_queue()
                &&& final(self).event_queue() == old(self).event_queue()
                &&& final(self).latest() == old(self).latest()
                &&& final(self).next_generation() == old(self).next_generation()
            },
            priority == JsInvokePriority::Normal ==> {
                &&& final(self).normal_queue() == old(self).normal_queue().push(
                    QueueItem { priority, dedup_key, generation: 0, payload })
                &&& final(self).high_queue() == old(self).high_queue()
                &&& final(self).event_queue() == old(self).event_queue()
                &&& final(self).latest() == old(self).latest()
                &&& final(self).next_generation() == old(self).next_generation()
            },
            priority == JsInvokePriority::Event && dedup_key is None ==> {
                &&& final(self).event_queue() == old(self).event_queue().push(
                    QueueItem { priority, dedup_key, generation: 0, payload })
                &&& final(self).high_queue() == old(self).high_queue()
                &&& final(self).normal_queue() == old(self).normal_queue()
                &&& final(self).latest() == old(self).latest()
                &&& final(self).next_generation() == old(self).next_generation()
            },
            priority == JsInvokePriority::Event && dedup_key is Some ==> {
                &&& final(self).event_queue() == old(self).event_queue().push(
                    QueueItem { priority, dedup_key, generation: old(self).next_generation(), payload })
                &&& final(self).high_queue() == old(self).high_queue()
                &&& final(self).normal_queue() == old(self).normal_queue()
                &&& final(self).latest() == old(self).latest().insert(dedup_key->0@, old(self).next_generation())
                &&& final(self).next_generation() == old(self).next_generation() + 1
            },
    {
        match priority {
            JsInvokePriority::High => {
                self.high.push_back(QueueItem { priority, dedup_key, generation: 0, payload });
            },
            JsInvokePriority::Normal => {
                self.norm.push_back(QueueItem { priority, dedup_key, generation: 0, payload });
            },
            JsInvokePriority::Event => {
                match dedup_key {
                    Some(key) => {
                        let generation = self.next_gen;
                        let found = self.find_key(key.as_str());
                        let ghost old_gens = self.gens@;
                        let ghost kv = key@;
                        match found {
                            Some(j) => {
                                let name = key.clone();
                                self.gens.set(j, (name, generation));
                                proof {
                                    assert forall|a: int, b: int| 0 <= a < b < self.gens@.len()
                                        implies self.gens@[a].0@ != self.gens@[b].0@ by {
                                        if a == j as int {
                                            assert(old_gens[b].0@ != old_gens[j as int].0@);
                                        } else if b == j as int {
                                            assert(old_gens[a].0@ != old_gens[j as int].0@);
                                        } else {
                                            assert(old_gens[a] == self.gens@[a]);
                                        }
                                    }
                                }
                            },
                            None => {
                                let name = key.clone();
                                self.gens.push((name, generation));
                            },
                        }
                        self.latest = Ghost(self.latest@.insert(kv, generation));
                        self.next_gen = generation + 1;
                        let ghost old_event = self.event@;
                        self.event.push_back(QueueItem { priority, dedup_key: Some(key), generation, payload });
                        proof {
                            assert forall|j2: int| 0 <= j2 < self.gens@.len() implies #[trigger] self.latest@.contains_key(
                                self.gens@[j2].0@) && self.latest@[self.gens@[j2].0@] == self.gens@[j2].1 by {
                                if self.gens@[j2].0@ != kv {
                                    if found is Some {
                                        assert(self.gens@[j2] == old_gens[j2]);
                                    } else {
                                        assert(j2 < old_gens.len());
                                        assert(self.gens@[j2] == old_gens[j2]);
                                    }
                                }
                            }
                            assert forall|k: Seq<char>| #[trigger] self.latest@.contains_key(k) implies exists|w: int|
                                0 <= w < self.gens@.len() && #[trigger] self.gens@[w].0@ == k by {
                                if k == kv {
                                    match found {
                                        Some(j) => { assert(self.gens@[j as int].0@ == k); },
                                        None => { assert(self.gens@[old_gens.len() as int].0@ == k); },
                                    }
                                } else {
                                    let w = choose|w: int| 0 <= w < old_gens.len() && #[trigger] old_gens[w].0@ == k;
                                    match found {
                                        Some(j) => {
                                            assert(w != j as int);
                                            assert(self.gens@[w].0@ == k);
                                        },
                                        None => { assert(self.gens@[w].0@ == k); },
                                    }
                                }
                            }
                            assert forall|i: int| 0 <= i < self.event@.len() && (#[trigger] key_of(self.event@[i])) is Some
                                implies ({
                                    let k = key_of(self.event@[i])->0;
                                    &&& self.latest@.contains_key(k)
                                    &&& self.event@[i].generation <= self.latest@[k]
                                }) by {
                                if i < old_event.len() {
                                    assert(self.event@[i] == old_event[i]);
                                }
                            }
                            assert forall|a: int, b: int| 0 <= a < b < self.event@.len()
                                && (#[trigger] key_of(self.event@[a])) is Some && (#[trigger] key_of(self.event@[b])) is Some
                                implies self.event@[a].generation < self.event@[b].generation by {
                                assert(self.event@[a] == old_event[a]);
                                if b < old_event.len() {
                                    assert(self.event@[b] == old_event[b]);
                                }
                            }
                        }
                    },
                    None => {
                        self.event.push_back(QueueItem { priority, dedup_key: None, generation: 0, payload });
                    },
                }
            },
        }
    }

    /// Pops events from the front until one that is not stale; `None` when
    /// every queued event is stale or there is none.
    fn dequeue_event(&mut self) -> (r: Option<QueueItem<T>>)
        requires
            old(self).wf(),
        ensures
            final(self).wf(),
            final(self).high_queue() == old(self).high_queue(),
            final(self).normal_queue() == old(self).normal_queue(),
            final(self).latest() == old(self).latest(),
            final(self).next_generation() == old(self).next_generation(),
            r is None ==> final(self).event_queue().len() == 0 && forall|i: int| 0 <= i < old(self).event_queue().len()
                ==> is_stale(old(self).latest(), #[trigger] old(self).event_queue()[i]),
            r matches Some(e) ==> exists|n: int| 0 <= n < old(self).event_queue().len()
                && old(self).event_queue()[n] == e
                && !is_stale(old(self).latest(), e)
                && final(self).event_queue() == old(self).event_queue().skip(n + 1)
                && forall|i: int| 0 <= i < n ==> is_stale(old(self).latest(), #[trigger] old(self).event_queue()[i]),
    {
        let ghost start = self.event@;
        let ghost mut n: int = 0;
        loop
            invariant
                self.wf(),
                0 <= n <= start.len(),
                self.event@ == start.skip(n),
                self.high@ == old(self).high@,
                self.norm@ == old(self).norm@,
                self.latest@ == old(self).latest@,
                self.next_gen == old(self).next_gen,
                start == old(self).event@,
                forall|i: int| 0 <= i < n ==> is_stale(old(self).latest(), #[trigger] start[i]),
            decreases start.len() - n,
        {
            if self.event.len() == 0 {
                assert(n == start.len());
                return None;
            }
            let stale = match &self.event[0].dedup_key {
                Some(key) => match self.find_key(key.as_str()) {
                    Some(j) => self.gens[j].1 != self.event[0].generation,
                    None => false,
                },
                None => false,
            };
            assert(self.event@[0] == start[n]);
            assert(stale == is_stale(old(self).latest(), start[n]));
            let ghost before = *self;
            match self.event.pop_front() {
                None => {
                    return None;
                },
                Some(ev) => {
                    proof {
                        assert(self.event@ =~= before.event@.skip(1));
                        assert(self.high@ =~= before.high@.skip(0));
                        assert(self.norm@ =~= before.norm@.skip(0));
                        Self::lemma_wf_suffix(&before, self, 0, 0, 1);
                        assert(self.event@ =~= start.skip(n + 1));
                    }
                    if !stale {
                        assert(ev == start[n]);
                        assert(start[n] == old(self).event_queue()[n]);
                        return Some(ev);
                    }
                    proof {
                        n = n + 1;
                    }
                },
            }
        }
    }

    /// The next invocation to run: the front high-priority item, else the
    /// front normal one, else the first event that no newer event of its key
    /// supersedes. A delivered event that is the newest of its key retires
    /// the key.
    pub fn take_next(&mut self) -> (r: Option<QueueItem<T>>)
        requires
            old(self).wf(),
        ensures
            final(self).wf(),
            final(self).next_generation() == old(self).next_generation(),
            old(self).high_queue().len() > 0 ==> {
                &&& r == Some(old(self).high_queue()[0])
                &&& final(self).high_queue() == old(self).high_queue().drop_first()
                &&& final(self).normal_queue() == old(self).normal_queue()
                &&& final(self).event_queue() == old(self).event_queue()
                &&& final(self).latest() == old(self).latest()
            },
            old(self).high_queue().len() == 0 && old(self).normal_queue().len() > 0 ==> {
                &&& r == Some(old(self).normal_queue()[0])
                &&& final(self).high_queue() == old(self).high_queue()
                &&& final(self).normal_queue() == old(self).normal_queue().drop_first()
                &&& final(self).event_queue() == old(self).event_queue()
                &&& final(self).latest() == old(self).latest()
            },
            old(self).high_queue().len() == 0 && old(self).normal_queue().len() == 0 ==> {
                &&& final(self).high_queue() == old(self).high_queue()
                &&& final(self).normal_queue() == old(self).normal_queue()
                &&& r is None ==> final(self).event_queue().len() == 0 && final(self).latest() == old(self).latest()
                    && forall|i: int| 0 <= i < old(self).event_queue().len()
                        ==> is_stale(old(self).latest(), #[trigger] old(self).event_queue()[i])
                &&& r matches Some(e) ==> exists|n: int| 0 <= n < old(self).event_queue().len()
                    && old(self).event_queue()[n] == e
                    && !is_stale(old(self).latest(), e)
                    && final(self).event_queue() == old(self).event_queue().skip(n + 1)
                    && forall|i: int| 0 <= i < n ==> is_stale(old(self).latest(), #[trigger] old(self).event_queue()[i])
                &&& r matches Some(e) ==> final(self).latest() == (match key_of(e) {
                    Some(k) => old(self).latest().remove(k),
                    None => old(self).latest(),
                })
            },
            // Last wins: no event with the delivered event's key is left behind it.
            r matches Some(e) ==> (e.priority == JsInvokePriority::Event && key_of(e) is Some ==> none_with_key(
                final(self).event_queue(), key_of(e))),
    {
        if self.high.len() > 0 {
            let ghost before = *self;
            let item = self.high.pop_front();
            proof {
                assert(self.high@ =~= before.high@.skip(1));
                assert(self.norm@ =~= before.norm@.skip(0));
                assert(self.event@ =~= before.event@.skip(0));
                Self::lemma_wf_suffix(&before, self, 1, 0, 0);
            }
            return item;
        }
        if self.norm.len() > 0 {
            let ghost before = *self;
            let item = self.norm.pop_front();
            proof {
                assert(self.norm@ =~= before.norm@.skip(1));
                assert(self.high@ =~= before.high@.skip(0));
                assert(self.event@ =~= before.event@.skip(0));
                Self::lemma_wf_suffix(&before, self, 0, 1, 0);
            }
            return item;
        }
        let ghost pre = self.event@;
        let ghost pre_latest = self.latest@;
        let r = self.dequeue_event();
        match &r {
            Some(ev) => {
                match &ev.dedup_key {
                    Some(key) => {
                        let ghost kv = key@;
                        let ghost n = choose|n: int| 0 <= n < pre.len() && pre[n] == *ev && !is_stale(pre_latest, *ev)
                            && self.event@ == pre.skip(n + 1)
                            && forall|i: int| 0 <= i < n ==> is_stale(pre_latest, #[trigger] pre[i]);
                        proof {
                            assert(key_of(pre[n]) is Some);
                            assert(pre_latest.contains_key(kv));
                            assert(pre_latest[kv] == ev.generation);
                            assert forall|i: int| 0 <= i < self.event@.len() implies key_of(#[trigger] self.event@[i])
                                != Some(kv) by {
                                assert(self.event@[i] == pre[n + 1 + i]);
                                if key_of(pre[n + 1 + i]) == Some(kv) {
                                    assert(key_of(pre[n]) is Some);
                                    assert(pre[n].generation < pre[n + 1 + i].generation);
                                }
                            }
                        }
                        match self.find_key(key.as_str()) {
                            Some(j) => if self.gens[j].1 == ev.generation {
                                let ghost old_gens = self.gens@;
                                self.gens.remove(j);
                                self.latest = Ghost(self.latest@.remove(kv));
                                proof {
                                    assert forall|j2: int| 0 <= j2 < self.gens@.len() implies
                                        #[trigger] self.latest@.contains_key(self.gens@[j2].0@)
                                        && self.latest@[self.gens@[j2].0@] == self.gens@[j2].1 by {
                                        if j2 < j as int {
                                            assert(self.gens@[j2] == old_gens[j2]);
                                            assert(old_gens[j2].0@ != old_gens[j as int].0@);
                                        } else {
                                            assert(self.gens@[j2] == old_gens[j2 + 1]);
                                            assert(old_gens[j2 + 1].0@ != old_gens[j as int].0@);
                                        }
                                    }
                                    assert forall|k: Seq<char>| #[trigger] self.latest@.contains_key(k) implies exists|w: int|
                                        0 <= w < self.gens@.len() && #[trigger] self.gens@[w].0@ == k by {
                                        let w = choose|w: int| 0 <= w < old_gens.len() && #[trigger] old_gens[w].0@ == k;
                                        assert(w != j as int);
                                        if w < j as int {
                                            assert(self.gens@[w] == old_gens[w]);
                                        } else {
                                            assert(self.gens@[w - 1] == old_gens[w]);
                                        }
                                    }
                                    assert forall|a: int, b: int| 0 <= a < b < self.gens@.len()
                                        implies self.gens@[a].0@ != self.gens@[b].0@ by {
                                        let a0 = if a < j as int { a } else { a + 1 };
                                        let b0 = if b < j as int { b } else { b + 1 };
                                        assert(self.gens@[a] == old_gens[a0]);
                                        assert(self.gens@[b] == old_gens[b0]);
                                    }
                                }
                            },
                            None => {},
                        }
                    },
                    None => {},
                }
            },
            None => {},
        }
        r
    }

    /// Whether nothing is queued.
    pub fn is_empty(&self) -> (r: bool)
        ensures
            r == (self.high_queue().len() == 0 && self.normal_queue().len() == 0 && self.event_queue().len() == 0),
    {
        self.high.len() == 0 && self.norm.len() == 0 && self.event.len() == 0
    }
}

/// Last wins: of two queued events with the same key, the earlier one is
/// stale and will be skipped.
pub proof fn law_earlier_same_key_is_stale<T>(q: InvokeQueueState<T>, i: int, j: int)
    requires
        q.wf(),
        0 <= i < j < q.event_queue().len(),
        key_of(q.event_queue()[i]) is Some,
        key_of(q.event_queue()[i]) == key_of(q.event_queue()[j]),
    ensures
        is_stale(q.latest(), q.event_queue()[i]),
{
    assert(key_of(q.event@[j]) is Some);
    assert(q.event@[i].generation < q.event@[j].generation);
}

} // verus!
