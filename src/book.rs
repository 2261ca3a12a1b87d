use vstd::prelude::*;
use crate::pubkey::Pubkey;
use crate::state::{Position, PositionModel, Vault};

verus! {

/// A position record together with the vault derived from it.
#[derive(Clone, Copy, Debug)]
pub struct PositionEntry {
    pub position: Position,
    pub vault: Vault,
}

/// Whether some record of `s` has external reference `key`.
pub open spec fn has_key(s: Seq<PositionModel>, key: Seq<u8>) -> bool {
    exists|i: int| 0 <= i < s.len() && (#[trigger] s[i]).meteora_position == key
}

/// The index of the record of `s` with external reference `key`.
pub open spec fn index_of(s: Seq<PositionModel>, key: Seq<u8>) -> int {
    choose|i: int| 0 <= i < s.len() && (#[trigger] s[i]).meteora_position == key
}

/// No two records share an external reference.
pub open spec fn unique_keys(s: Seq<PositionModel>) -> bool {
    forall|i: int, j: int|
        0 <= i < s.len() && 0 <= j < s.len() && i != j ==> (#[trigger] s[i]).meteora_position
            != (#[trigger] s[j]).meteora_position
}

/// Where a record is, it is the one at `index_of`.
pub proof fn lemma_index_of(s: Seq<PositionModel>, key: Seq<u8>, i: int)
    requires
        unique_keys(s),
        0 <= i < s.len(),
        s[i].meteora_position == key,
    ensures
        has_key(s, key),
        index_of(s, key) == i,
{
    assert(has_key(s, key));
}

/// The arena of open positions. Each record is found only through its external
/// position reference, and its vault is bound to that same reference.
#[derive(Clone, Debug)]
pub struct PositionBook {
    pub entries: Vec<PositionEntry>,
}

impl View for PositionBook {
    type V = Seq<PositionModel>;

    open spec fn view(&self) -> Seq<PositionModel> {
        self.entries@.map_values(|e: PositionEntry| e.position@)
    }
}

impl PositionBook {
    /// Every vault is bound to its own position, every position's range is valid, and
    /// external references are unique.
    pub open spec fn wf(&self) -> bool {
        &&& forall|i: int|
            0 <= i < self.entries@.len() ==> (#[trigger] self.entries@[i]).vault.position@
                == self.entries@[i].position.meteora_position@
        &&& forall|i: int| 0 <= i < self@.len() ==> (#[trigger] self@[i]).wf()
        &&& unique_keys(self@)
    }

    /// An empty book.
    pub fn new() -> (b: PositionBook)
        ensures
            b.wf(),
            b@ == Seq::<PositionModel>::empty(),
    {
        let b = PositionBook { entries: Vec::new() };
        assert(b@ =~= Seq::<PositionModel>::empty());
        b
    }

    /// The number of open positions.
    pub fn len(&self) -> (r: usize)
        ensures
            r == self@.len(),
    {
        self.entries.len()
    }

    /// The index of the record with external reference `key`.
    pub fn find(&self, key: &Pubkey) -> (r: Option<usize>)
        requires
            self.wf(),
        ensures
            r matches Some(i) ==> i < self@.len() && i == index_of(self@, key@) && has_key(
                self@,
                key@,
            ),
            r is None ==> !has_key(self@, key@),
    {
        let mut i: usize = 0;
        while i < self.entries.len()
            invariant
                0 <= i <= self@.len(),
                self.wf(),
                forall|j: int| 0 <= j < i ==> (#[trigger] self@[j]).meteora_position != key@,
            decreases self@.len() - i,
        {
            if self.entries[i].position.meteora_position.same(key) {
                proof {
                    lemma_index_of(self@, key@, i as int);
                }
                return Some(i);
            }
            i = i + 1;
        }
        None
    }

    /// The position with external reference `key`.
    pub fn get(&self, key: &Pubkey) -> (r: Option<Position>)
        requires
            self.wf(),
        ensures
            r matches Some(p) ==> has_key(self@, key@) && p@ == self@[index_of(self@, key@)],
            r is None ==> !has_key(self@, key@),
    {
        match self.find(key) {
            Some(i) => Some(self.entries[i].position),
            None => None,
        }
    }

    /// The vault of the position with external reference `key`; it is bound to `key`.
    pub fn vault_of(&self, key: &Pubkey) -> (r: Option<Vault>)
        requires
            self.wf(),
        ensures
            r matches Some(v) ==> has_key(self@, key@) && v.position@ == key@,
            r is None ==> !has_key(self@, key@),
    {
        match self.find(key) {
            Some(i) => Some(self.entries[i].vault),
            None => None,
        }
    }

    /// Adds a record for a position whose reference is not yet in the book.
    pub(crate) fn insert(&mut self, position: Position)
        requires
            old(self).wf(),
            !has_key(old(self)@, position.meteora_position@),
            position@.wf(),
        ensures
            final(self).wf(),
            final(self)@ == old(self)@.push(position@),
    {
        let entry = PositionEntry { position, vault: Vault { position: position.meteora_position } };
        self.entries.push(entry);
        assert(self@ =~= old(self)@.push(position@));
        assert forall|i: int, j: int|
            0 <= i < self@.len() && 0 <= j < self@.len() && i != j implies (#[trigger] self@[i]).meteora_position
            != (#[trigger] self@[j]).meteora_position by {
            if i == self@.len() - 1 {
                assert(old(self)@[j] == self@[j]);
            } else if j == self@.len() - 1 {
                assert(old(self)@[i] == self@[i]);
            } else {
                assert(old(self)@[i] == self@[i]);
                assert(old(self)@[j] == self@[j]);
            }
        }
    }

    /// Replaces the record at `i` by one with the same reference and range.
    pub(crate) fn replace(&mut self, i: usize, position: Position)
        requires
            old(self).wf(),
            i < old(self)@.len(),
            position.meteora_position@ == old(self)@[i as int].meteora_position,
            position@.wf(),
        ensures
            final(self).wf(),
            final(self)@ == old(self)@.update(i as int, position@),
    {
        let vault = self.entries[i].vault;
        self.entries.set(i, PositionEntry { position, vault });
        assert(self@ =~= old(self)@.update(i as int, position@));
        assert forall|k: int| 0 <= k < self.entries@.len() implies (#[trigger] self.entries@[k]).vault.position@
            == self.entries@[k].position.meteora_position@ by {
            if k != i {
                assert(self.entries@[k] == old(self).entries@[k]);
            }
        }
        assert forall|a: int, b: int|
            0 <= a < self@.len() && 0 <= b < self@.len() && a != b implies (#[trigger] self@[a]).meteora_position
            != (#[trigger] self@[b]).meteora_position by {
            assert(old(self)@[a].meteora_position == self@[a].meteora_position);
            assert(old(self)@[b].meteora_position == self@[b].meteora_position);
        }
    }

    /// Removes the record at `i`, with its vault.
    pub(crate) fn remove(&mut self, i: usize) -> (e: PositionEntry)
        requires
            old(self).wf(),
            i < old(self)@.len(),
        ensures
            final(self).wf(),
            final(self)@ == old(self)@.remove(i as int),
            e.position@ == old(self)@[i as int],
            !has_key(final(self)@, old(self)@[i as int].meteora_position),
    {
        let e = self.entries.remove(i);
        assert(self@ =~= old(self)@.remove(i as int));
        assert forall|k: int| 0 <= k < self.entries@.len() implies (#[trigger] self.entries@[k]).vault.position@
            == self.entries@[k].position.meteora_position@ by {
            if k < i {
                assert(self.entries@[k] == old(self).entries@[k]);
            } else {
                assert(self.entries@[k] == old(self).entries@[k + 1]);
            }
        }
        assert forall|a: int, b: int|
            0 <= a < self@.len() && 0 <= b < self@.len() && a != b implies (#[trigger] self@[a]).meteora_position
            != (#[trigger] self@[b]).meteora_position by {
            let oa = if a < i { a } else { a + 1 };
            let ob = if b < i { b } else { b + 1 };
            assert(old(self)@[oa] == self@[a]);
            assert(old(self)@[ob] == self@[b]);
        }
        assert forall|k: int| 0 <= k < self@.len() implies (#[trigger] self@[k]).meteora_position
            != old(self)@[i as int].meteora_position by {
            let ok = if k < i { k } else { k + 1 };
            assert(old(self)@[ok] == self@[k]);
        }
        e
    }
}

} // verus!
