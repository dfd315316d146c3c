//! The subscription registry of the embeddable manager: one entry per
//! subscribed topic, each holding the shell's handle for the topic's
//! background task.
//!
//! The registry enforces what the data model intends: at most one
//! active subscription per topic. Subscribing an already-active topic
//! is rejected with [`CODE_ALREADY_ACTIVE`] — stopping the old task
//! first is the caller's job — so no running task can be silently
//! replaced and leaked. The caller must guard the registry with a
//! mutual-exclusion lock when tasks share it.

use vstd::prelude::*;

verus! {

pub const CODE_OK: i32 = 0;

pub const CODE_NOT_FOUND: i32 = -4;

pub const CODE_ALREADY_ACTIVE: i32 = -5;

/// One active subscription: its topic and the shell's task handle.
pub struct TopicEntry {
    pub topic: Vec<u8>,
    pub task: u64,
}

/// The registry: a list of entries with pairwise distinct topics,
/// viewed as a map from topic to task handle.
pub struct SubscriptionRegistry {
    entries: Vec<TopicEntry>,
}

/// No two entries name the same topic.
pub open spec fn topics_unique(entries: Seq<TopicEntry>) -> bool {
    forall|i: int, j: int|
        0 <= i < j < entries.len() ==> entries[i].topic@ != entries[j].topic@
}

/// Some entry names `t`.
pub open spec fn has_topic(entries: Seq<TopicEntry>, t: Seq<u8>) -> bool {
    exists|i: int| 0 <= i < entries.len() && entries[i].topic@ == t
}

/// The map an entry list denotes; a later entry would win on a
/// repeated topic, but the registry never holds one.
pub open spec fn map_of(entries: Seq<TopicEntry>) -> Map<Seq<u8>, u64>
    decreases entries.len(),
{
    if entries.len() == 0 {
        Map::empty()
    } else {
        map_of(entries.drop_last()).insert(entries.last().topic@, entries.last().task)
    }
}

impl View for SubscriptionRegistry {
    type V = Map<Seq<u8>, u64>;

    closed spec fn view(&self) -> Map<Seq<u8>, u64> {
        map_of(self.entries@)
    }
}

/// `map_of` holds a key exactly when some entry names it.
pub proof fn lemma_map_of_domain(entries: Seq<TopicEntry>, t: Seq<u8>)
    ensures
        map_of(entries).contains_key(t) <==> has_topic(entries, t),
    decreases entries.len(),
{
    if entries.len() > 0 {
        lemma_map_of_domain(entries.drop_last(), t);
        if entries.last().topic@ == t {
            assert(entries[entries.len() - 1].topic@ == t);
        } else {
            if has_topic(entries.drop_last(), t) {
                let i = choose|i: int|
                    0 <= i < entries.drop_last().len() && entries.drop_last()[i].topic@ == t;
                assert(entries[i].topic@ == t);
            }
            if has_topic(entries, t) {
                let i = choose|i: int| 0 <= i < entries.len() && entries[i].topic@ == t;
                assert(entries.drop_last()[i].topic@ == t);
            }
        }
    }
}

/// With distinct topics, the map sends each entry's topic to that
/// entry's task handle.
pub proof fn lemma_map_of_at(entries: Seq<TopicEntry>, i: int)
    requires
        topics_unique(entries),
        0 <= i < entries.len(),
    ensures
        map_of(entries).contains_key(entries[i].topic@),
        map_of(entries)[entries[i].topic@] == entries[i].task,
    decreases entries.len(),
{
    if i == entries.len() - 1 {
    } else {
        lemma_map_of_at(entries.drop_last(), i);
        assert(entries.drop_last()[i] == entries[i]);
        assert(entries.last().topic@ != entries[i].topic@);
    }
}

impl SubscriptionRegistry {
    /// The registry's well-formedness: pairwise distinct topics.
    pub closed spec fn wf(&self) -> bool {
        topics_unique(self.entries@)
    }

    /// An empty registry.
    pub fn new() -> (r: SubscriptionRegistry)
        ensures
            r.wf(),
            r@ == Map::<Seq<u8>, u64>::empty(),
    {
        SubscriptionRegistry { entries: Vec::new() }
    }

    /// Registers a topic's background task. A topic that is already
    /// active is rejected unchanged with [`CODE_ALREADY_ACTIVE`];
    /// otherwise the entry is added and [`CODE_OK`] returned.
    pub fn subscribe(&mut self, topic: Vec<u8>, task: u64) -> (code: i32)
        requires
            old(self).wf(),
        ensures
            final(self).wf(),
            old(self)@.contains_key(topic@) ==> code == CODE_ALREADY_ACTIVE && final(self)@ == old(
                self,
            )@,
            !old(self)@.contains_key(topic@) ==> code == CODE_OK && final(self)@ == old(
                self,
            )@.insert(topic@, task),
    {
        proof {
            lemma_map_of_domain(self.entries@, topic@);
        }
        let mut i: usize = 0;
        while i < self.entries.len()
            invariant
                old(self).wf(),
                self == old(self),
                i <= self.entries@.len(),
                map_of(self.entries@).contains_key(topic@) <==> has_topic(self.entries@, topic@),
                forall|j: int| 0 <= j < i ==> self.entries@[j].topic@ != topic@,
            decreases self.entries@.len() - i,
        {
            if crate::text::bytes_eq(self.entries[i].topic.as_slice(), topic.as_slice()) {
                proof {
                    assert(has_topic(self.entries@, topic@));
                }
                return CODE_ALREADY_ACTIVE;
            }
            i = i + 1;
        }
        proof {
            assert(!has_topic(self.entries@, topic@));
        }
        let ghost before = self.entries@;
        self.entries.push(TopicEntry { topic, task });
        proof {
            assert(self.entries@.drop_last() =~= before);
            assert(topics_unique(self.entries@));
        }
        CODE_OK
    }

    /// Removes a topic's entry, handing back the task handle the shell
    /// must stop and abort. An absent topic yields [`CODE_NOT_FOUND`]
    /// and leaves the registry unchanged.
    pub fn unsubscribe(&mut self, topic: &[u8]) -> (r: (i32, Option<u64>))
        requires
            old(self).wf(),
        ensures
            final(self).wf(),
            old(self)@.contains_key(topic@) ==> r.0 == CODE_OK && r.1 == Some(
                old(self)@[topic@],
            ) && final(self)@ == old(self)@.remove(topic@),
            !old(self)@.contains_key(topic@) ==> r.0 == CODE_NOT_FOUND && r.1 == None::<u64>
                && final(self)@ == old(self)@,
    {
        proof {
            lemma_map_of_domain(self.entries@, topic@);
        }
        let mut out: Vec<TopicEntry> = Vec::new();
        let mut found: Option<u64> = None;
        let mut i: usize = 0;
        proof {
            assert(self.entries@.take(0) =~= Seq::<TopicEntry>::empty());
            assert(map_of(out@) =~= map_of(self.entries@.take(0)).remove(topic@));
        }
        while i < self.entries.len()
            invariant
                old(self).wf(),
                self.entries@ == old(self).entries@,
                i <= self.entries@.len(),
                map_of(out@) == map_of(self.entries@.take(i as int)).remove(topic@),
                found is Some <==> has_topic(self.entries@.take(i as int), topic@),
                found matches Some(task) ==> exists|j: int|
                    0 <= j < i && self.entries@[j].topic@ == topic@ && self.entries@[j].task
                        == task,
                forall|p: int|
                    0 <= p < out@.len() ==> #[trigger] out@[p].topic@ != topic@ && has_topic(
                        self.entries@.take(i as int),
                        out@[p].topic@,
                    ),
                topics_unique(out@),
            decreases self.entries@.len() - i,
        {
            let ghost prefix = self.entries@.take(i as int);
            let ghost next_prefix = self.entries@.take(i + 1 as int);
            proof {
                assert(next_prefix.drop_last() =~= prefix);
                assert(next_prefix.last() == self.entries@[i as int]);
            }
            let entry_topic_matches = crate::text::bytes_eq(
                self.entries[i].topic.as_slice(),
                topic,
            );
            if entry_topic_matches {
                found = Some(self.entries[i].task);
                proof {
                    assert(self.entries@[i as int].topic@ == topic@);
                    assert(has_topic(next_prefix, topic@)) by {
                        assert(next_prefix[i as int].topic@ == topic@);
                    }
                    assert(map_of(next_prefix).remove(topic@) =~= map_of(prefix).remove(topic@));
                }
            } else {
                let ghost old_out = out@;
                let entry = TopicEntry {
                    topic: vstd::slice::slice_to_vec(self.entries[i].topic.as_slice()),
                    task: self.entries[i].task,
                };
                proof {
                    assert(entry.topic@ == self.entries@[i as int].topic@);
                }
                out.push(entry);
                proof {
                    assert(out@.drop_last() =~= old_out);
                    assert(map_of(out@) =~= map_of(next_prefix).remove(topic@));
                    if has_topic(prefix, topic@) {
                        let j = choose|j: int| 0 <= j < prefix.len() && prefix[j].topic@ == topic@;
                        assert(next_prefix[j].topic@ == topic@);
                    }
                    if has_topic(next_prefix, topic@) {
                        let j = choose|j: int|
                            0 <= j < next_prefix.len() && next_prefix[j].topic@ == topic@;
                        assert(j < i ==> prefix[j].topic@ == topic@);
                    }
                    assert(forall|p: int|
                        0 <= p < old_out.len() ==> #[trigger] out@[p].topic@ != topic@
                            && has_topic(prefix, out@[p].topic@));
                    assert forall|x: Seq<u8>| has_topic(prefix, x) implies has_topic(
                        next_prefix,
                        x,
                    ) by {
                        let j = choose|j: int| 0 <= j < prefix.len() && prefix[j].topic@ == x;
                        assert(next_prefix[j].topic@ == x);
                    }
                    assert(forall|p: int|
                        0 <= p < out@.len() ==> #[trigger] out@[p].topic@ != topic@ && has_topic(
                            next_prefix,
                            out@[p].topic@,
                        ));
                    assert(topics_unique(out@)) by {
                        assert(forall|p: int|
                            0 <= p < old_out.len() ==> #[trigger] old_out[p].topic@
                                != entry.topic@) by {
                            assert(forall|p: int|
                                0 <= p < old_out.len() ==> has_topic(
                                    prefix,
                                    #[trigger] old_out[p].topic@,
                                ));
                        }
                    }
                }
            }
            i = i + 1;
        }
        proof {
            assert(self.entries@.take(self.entries@.len() as int) =~= self.entries@);
        }
        match found {
            Some(task) => {
                proof {
                    let j = choose|j: int|
                        0 <= j < self.entries@.len() && self.entries@[j].topic@ == topic@
                            && self.entries@[j].task == task;
                    lemma_map_of_at(self.entries@, j);
                }
                self.entries = out;
                (CODE_OK, Some(task))
            },
            None => {
                proof {
                    assert(map_of(self.entries@).remove(topic@) =~= map_of(self.entries@));
                }
                self.entries = out;
                (CODE_NOT_FOUND, None)
            },
        }
    }

    /// How many topics are active.
    pub fn active_count(&self) -> (n: usize)
        requires
            self.wf(),
        ensures
            n == self@.len(),
    {
        proof {
            lemma_map_of_len(self.entries@);
        }
        self.entries.len()
    }
}

/// With distinct topics, the map is as large as the entry list.
pub proof fn lemma_map_of_len(entries: Seq<TopicEntry>)
    requires
        topics_unique(entries),
    ensures
        map_of(entries).dom().finite(),
        map_of(entries).len() == entries.len(),
    decreases entries.len(),
{
    if entries.len() > 0 {
        lemma_map_of_len(entries.drop_last());
        lemma_map_of_domain(entries.drop_last(), entries.last().topic@);
        assert(!has_topic(entries.drop_last(), entries.last().topic@)) by {
            if has_topic(entries.drop_last(), entries.last().topic@) {
                let i = choose|i: int|
                    0 <= i < entries.drop_last().len() && entries.drop_last()[i].topic@
                        == entries.last().topic@;
                assert(entries[i].topic@ == entries[entries.len() - 1].topic@);
            }
        }
    }
}

} // verus!
