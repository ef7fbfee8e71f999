use std::sync::Arc;
use vstd::prelude::*;

use crate::channel::{
    new_sender, power_of_two_ceiling, retained_entries, GroupChannel, CHANNEL_CAPACITY,
};

verus! {

/// What one call of `get_or_create` for group `g` does: `after` holds `g`,
/// `r` is its channel, and only a new group adds an entry, whose channel is
/// freshly made with the standard backlog.
pub open spec fn obtains(
    before: Map<Seq<char>, GroupChannel>,
    g: Seq<char>,
    after: Map<Seq<char>, GroupChannel>,
    r: GroupChannel,
) -> bool {
    &&& after.contains_key(g)
    &&& r == after[g]
    &&& before.contains_key(g) ==> after == before
    &&& !before.contains_key(g) ==> after == before.insert(g, r)
        && retained_entries(*r) == power_of_two_ceiling(CHANNEL_CAPACITY as nat)
}

/// Whether `m` maps group `g` to channel `r`.
pub open spec fn holds_channel(m: Map<Seq<char>, GroupChannel>, g: Seq<char>, r: GroupChannel) -> bool {
    m.contains_key(g) && m[g] == r
}

/// Whether `states` is a run of `get_or_create` calls, the `k`-th for group
/// `groups[k]` returning `results[k]`, in the order the registry's lock let
/// them through.
pub open spec fn is_run(
    states: Seq<Map<Seq<char>, GroupChannel>>,
    groups: Seq<Seq<char>>,
    results: Seq<GroupChannel>,
) -> bool {
    &&& states.len() == groups.len() + 1
    &&& results.len() == groups.len()
    &&& forall|k: int| 0 <= k < groups.len() ==> obtains(#[trigger] states[k], groups[k], states[k + 1], results[k])
}

/// Once a group is known, every later call keeps its channel.
proof fn lemma_channel_kept(
    states: Seq<Map<Seq<char>, GroupChannel>>,
    groups: Seq<Seq<char>>,
    results: Seq<GroupChannel>,
    g: Seq<char>,
    k: int,
    j: int,
)
    requires
        is_run(states, groups, results),
        0 <= k <= j < states.len(),
        states[k].contains_key(g),
    ensures
        states[j].contains_key(g),
        states[j][g] == states[k][g],
    decreases j - k,
{
    if k < j {
        lemma_channel_kept(states, groups, results, g, k, j - 1);
        assert(obtains(states[j - 1], groups[j - 1], states[j], results[j - 1]));
    }
}

/// One channel per group: in any run of `get_or_create` calls, however the
/// callers for a group and for other groups interleave, every call for group
/// `g` returns the same channel, the one the registry holds for `g` at the end.
pub proof fn lemma_one_channel_per_group(
    states: Seq<Map<Seq<char>, GroupChannel>>,
    groups: Seq<Seq<char>>,
    results: Seq<GroupChannel>,
    g: Seq<char>,
)
    requires
        is_run(states, groups, results),
    ensures
        forall|k: int|
            0 <= k < groups.len() && groups[k] == g ==> #[trigger] holds_channel(
                states[groups.len() as int],
                g,
                results[k],
            ),
{
    assert forall|k: int| 0 <= k < groups.len() && groups[k] == g implies #[trigger] holds_channel(
        states[groups.len() as int],
        g,
        results[k],
    ) by {
        assert(obtains(states[k], groups[k], states[k + 1], results[k]));
        lemma_channel_kept(states, groups, results, g, k + 1, groups.len() as int);
    }
}

/// Maps each known group identifier to its one fan-out channel. Groups are
/// created on first reference and never removed.
pub struct GroupRegistry {
    names: Vec<String>,
    channels: Vec<GroupChannel>,
}

impl GroupRegistry {
    /// Names and channels pair up by position and no name repeats.
    pub closed spec fn wf(&self) -> bool {
        &&& self.names@.len() == self.channels@.len()
        &&& forall|i: int, j: int|
            0 <= i < j < self.names@.len() ==> self.names@[i]@ != self.names@[j]@
    }

    /// The position at which a known group is kept.
    closed spec fn slot_of(&self, g: Seq<char>) -> int {
        choose|i: int| 0 <= i < self.names@.len() && self.names@[i]@ == g
    }

    /// Each known group identifier with its channel.
    pub closed spec fn view(&self) -> Map<Seq<char>, GroupChannel> {
        Map::new(
            |g: Seq<char>| exists|i: int| 0 <= i < self.names@.len() && self.names@[i]@ == g,
            |g: Seq<char>| self.channels@[self.slot_of(g)],
        )
    }

    proof fn lemma_slot(&self, i: int)
        requires
            self.wf(),
            0 <= i < self.names@.len(),
        ensures
            self@.contains_key(self.names@[i]@),
            self@[self.names@[i]@] == self.channels@[i],
    {
        let g = self.names@[i]@;
        assert(self@.contains_key(g));
        let j = self.slot_of(g);
        assert(self.names@[j]@ == g);
        if i < j {
            assert(self.names@[i]@ != self.names@[j]@);
        } else if j < i {
            assert(self.names@[j]@ != self.names@[i]@);
        }
    }

    /// An empty registry.
    pub fn new() -> (r: GroupRegistry)
        ensures
            r.wf(),
            r@ == Map::<Seq<char>, GroupChannel>::empty(),
    {
        let r = GroupRegistry { names: Vec::new(), channels: Vec::new() };
        assert(r@ =~= Map::<Seq<char>, GroupChannel>::empty());
        r
    }

    /// The position of `group_id`, if it is known.
    fn find(&self, group_id: &String) -> (r: Option<usize>)
        requires
            self.wf(),
        ensures
            match r {
                Some(i) => i < self.names@.len() && self.names@[i as int]@ == group_id@,
                None => !self@.contains_key(group_id@),
            },
    {
        let mut i: usize = 0;
        while i < self.names.len()
            invariant
                self.wf(),
                0 <= i <= self.names@.len(),
                forall|j: int| 0 <= j < i ==> self.names@[j]@ != group_id@,
            decreases self.names@.len() - i,
        {
            if self.names[i] == *group_id {
                return Some(i);
            }
            i = i + 1;
        }
        None
    }

    /// Whether `group_id` is a known group.
    pub fn contains(&self, group_id: &String) -> (r: bool)
        requires
            self.wf(),
        ensures
            r == self@.contains_key(group_id@),
    {
        match self.find(group_id) {
            Some(i) => {
                proof { self.lemma_slot(i as int); }
                true
            },
            None => false,
        }
    }

    /// The channel of a known group; `None` for a group never referenced.
    pub fn lookup(&self, group_id: &String) -> (r: Option<GroupChannel>)
        requires
            self.wf(),
        ensures
            match r {
                Some(ch) => self@.contains_key(group_id@) && ch == self@[group_id@],
                None => !self@.contains_key(group_id@),
            },
    {
        match self.find(group_id) {
            Some(i) => {
                proof { self.lemma_slot(i as int); }
                Some(self.channels[i].clone())
            },
            None => None,
        }
    }

    /// The channel of `group_id`, created with the standard backlog when the
    /// group is new. A known group keeps its channel; a new one is the only
    /// entry added.
    pub fn get_or_create(&mut self, group_id: &String) -> (r: GroupChannel)
        requires
            old(self).wf(),
        ensures
            final(self).wf(),
            obtains(old(self)@, group_id@, final(self)@, r),
    {
        match self.find(group_id) {
            Some(i) => {
                proof { self.lemma_slot(i as int); }
                self.channels[i].clone()
            },
            None => {
                let ch: GroupChannel = Arc::new(new_sender(CHANNEL_CAPACITY));
                let ghost before = *self;
                self.names.push(group_id.clone());
                self.channels.push(ch.clone());
                let ghost n = before.names@.len() as int;
                assert(self.wf()) by {
                    assert forall|i: int, j: int| 0 <= i < j < self.names@.len() implies
                        self.names@[i]@ != self.names@[j]@ by {
                        if j == n {
                            assert(before.names@[i]@ != group_id@);
                        } else {
                            assert(before.names@[i]@ != before.names@[j]@);
                        }
                    }
                }
                proof {
                    self.lemma_slot(n);
                    assert forall|g: Seq<char>| #[trigger] self@.contains_key(g) == before@.insert(group_id@, ch).contains_key(g) by {
                        if before@.contains_key(g) {
                            let k = choose|k: int| 0 <= k < before.names@.len() && before.names@[k]@ == g;
                            assert(self.names@[k]@ == g);
                        }
                    }
                    assert forall|g: Seq<char>| #[trigger] self@.contains_key(g) implies
                        self@[g] == before@.insert(group_id@, ch)[g] by {
                        if g != group_id@ {
                            let k = choose|k: int| 0 <= k < self.names@.len() && self.names@[k]@ == g;
                            assert(k < n);
                            before.lemma_slot(k);
                            self.lemma_slot(k);
                        }
                    }
                    assert(self@ =~= before@.insert(group_id@, ch));
                }
                ch
            },
        }
    }

    /// Every known group identifier, each once.
    pub fn group_ids(&self) -> (r: Vec<String>)
        requires
            self.wf(),
        ensures
            forall|i: int, j: int| 0 <= i < j < r@.len() ==> r@[i]@ != r@[j]@,
            forall|i: int| 0 <= i < r@.len() ==> self@.contains_key(#[trigger] r@[i]@),
            forall|g: Seq<char>| #[trigger] self@.contains_key(g) ==> exists|i: int| 0 <= i < r@.len() && r@[i]@ == g,
    {
        let mut out: Vec<String> = Vec::new();
        let mut i: usize = 0;
        while i < self.names.len()
            invariant
                self.wf(),
                0 <= i <= self.names@.len(),
                out@.len() == i,
                forall|j: int| 0 <= j < i ==> out@[j]@ == self.names@[j]@,
            decreases self.names@.len() - i,
        {
            out.push(self.names[i].clone());
            i = i + 1;
        }
        proof {
            assert forall|j: int| 0 <= j < out@.len() implies self@.contains_key(#[trigger] out@[j]@) by {
                self.lemma_slot(j);
            }
            assert forall|g: Seq<char>| #[trigger] self@.contains_key(g) implies exists|j: int| 0 <= j < out@.len() && out@[j]@ == g by {
                let k = choose|k: int| 0 <= k < self.names@.len() && self.names@[k]@ == g;
                assert(out@[k]@ == g);
            }
        }
        out
    }

}

} // verus!
