use crate::ids::{ChannelId, IsolateId};
use std::collections::HashMap;
use vstd::prelude::*;

verus! {

broadcast use vstd::std_specs::hash::group_hash_axioms;

/// Key of one entry: the caller and the token that the caller chose.
pub type ProgressKey = (IsolateId, i64);

/// The number under which a key is stored. Distinct keys have distinct
/// numbers, and every number fits in an `i128`.
pub open spec fn slot_of(key: ProgressKey) -> int {
    key.0 * 0x1_0000_0000_0000_0000 + (key.1 + 0x8000_0000_0000_0000)
}

/// Distinct keys are stored under distinct numbers.
pub proof fn lemma_slot_of_injective(a: ProgressKey, b: ProgressKey)
    ensures
        slot_of(a) == slot_of(b) <==> a == b,
        i128::MIN <= slot_of(a) <= i128::MAX,
{
}

/// Which channel answers for which token of which caller. An entry does not
/// keep its channel alive: it only names it.
pub struct ProgressRegistry {
    slots: HashMap<i128, ChannelId>,
}

impl View for ProgressRegistry {
    type V = Map<ProgressKey, ChannelId>;

    closed spec fn view(&self) -> Map<ProgressKey, ChannelId> {
        Map::new(
            |key: ProgressKey| self.slots@.contains_key(slot_of(key) as i128),
            |key: ProgressKey| self.slots@[slot_of(key) as i128],
        )
    }
}

impl ProgressRegistry {
    pub fn new() -> (res: Self)
        ensures
            res@ == Map::<ProgressKey, ChannelId>::empty(),
    {
        let res = ProgressRegistry { slots: HashMap::new() };
        assert(res@ =~= Map::<ProgressKey, ChannelId>::empty());
        res
    }

    fn slot(isolate_id: IsolateId, progress_id: i64) -> (res: i128)
        ensures
            res == slot_of((isolate_id, progress_id)),
    {
        let high: i128 = isolate_id as i128 * 0x1_0000_0000_0000_0000;
        let low: i128 = progress_id as i128 + 0x8000_0000_0000_0000;
        high + low
    }

    /// Names `channel` as the one that answers for the key. An earlier entry
    /// for the same key is replaced and returned.
    pub fn insert(&mut self, isolate_id: IsolateId, progress_id: i64, channel: ChannelId) -> (res:
        Option<ChannelId>)
        ensures
            final(self)@ == old(self)@.insert((isolate_id, progress_id), channel),
            res == old(self)@.get((isolate_id, progress_id)),
    {
        let slot = Self::slot(isolate_id, progress_id);
        let res = self.slots.insert(slot, channel);
        proof {
            assert forall|key: ProgressKey|
                (slot_of(key) as i128 == slot) <==> key == (isolate_id, progress_id) by {
                lemma_slot_of_injective(key, (isolate_id, progress_id));
            }
            assert(final(self)@ =~= old(self)@.insert((isolate_id, progress_id), channel));
        }
        res
    }

    /// Removes the entry for the key and returns the channel it named.
    pub fn remove(&mut self, isolate_id: IsolateId, progress_id: i64) -> (res: Option<ChannelId>)
        ensures
            final(self)@ == old(self)@.remove((isolate_id, progress_id)),
            res == old(self)@.get((isolate_id, progress_id)),
    {
        let slot = Self::slot(isolate_id, progress_id);
        let res = self.slots.remove(&slot);
        proof {
            assert forall|key: ProgressKey|
                (slot_of(key) as i128 == slot) <==> key == (isolate_id, progress_id) by {
                lemma_slot_of_injective(key, (isolate_id, progress_id));
            }
            assert(final(self)@ =~= old(self)@.remove((isolate_id, progress_id)));
        }
        res
    }

    /// The channel that the key names, if there is an entry for it.
    pub fn get(&self, isolate_id: IsolateId, progress_id: i64) -> (res: Option<ChannelId>)
        ensures
            res == self@.get((isolate_id, progress_id)),
    {
        let slot = Self::slot(isolate_id, progress_id);
        match self.slots.get(&slot) {
            Some(channel) => Some(*channel),
            None => None,
        }
    }
}

} // verus!
