//! The withdrawal ledger: one record per pending withdrawal, kept in ascending
//! order of nonce.
use vstd::prelude::*;

use crate::state::{BurnInfo, BurnInfoView};

verus! {

/// The nonces come in strictly ascending order.
pub open spec fn nonces_ascending(nonces: Seq<u64>) -> bool {
    forall|i: int, j: int| 0 <= i < j < nonces.len() ==> nonces[i] < nonces[j]
}

pub struct Ledger {
    entries: Vec<(u64, BurnInfo)>,
    records: Ghost<Map<u64, BurnInfoView>>,
}

impl Ledger {
    /// The pending withdrawals by nonce.
    pub closed spec fn view(&self) -> Map<u64, BurnInfoView> {
        self.records@
    }

    pub closed spec fn nonces(&self) -> Seq<u64> {
        self.entries@.map_values(|e: (u64, BurnInfo)| e.0)
    }

    pub closed spec fn wf(&self) -> bool {
        &&& forall|i: int|
            0 <= i < self.entries.len() ==> #[trigger] self.records@.contains_key(
                self.entries@[i].0,
            ) && self.records@[self.entries@[i].0] == self.entries@[i].1@
        &&& forall|k: u64| #[trigger]
            self.records@.contains_key(k) ==> exists|i: int|
                0 <= i < self.entries.len() && #[trigger] self.entries@[i].0 == k
        &&& forall|i: int, j: int|
            0 <= i < j < self.entries.len() ==> (#[trigger] self.entries@[i]).0 < (
            #[trigger] self.entries@[j]).0
    }

    pub fn new() -> (r: Ledger)
        ensures
            r.wf(),
            r.view() == Map::<u64, BurnInfoView>::empty(),
    {
        Ledger { entries: Vec::new(), records: Ghost(Map::empty()) }
    }

    fn index_of(&self, nonce: u64) -> (r: Option<usize>)
        requires
            self.wf(),
        ensures
            r is Some <==> self.view().contains_key(nonce),
            r matches Some(i) ==> i < self.entries.len() && self.entries@[i as int].0 == nonce,
    {
        let mut i: usize = 0;
        while i < self.entries.len()
            invariant
                self.wf(),
                0 <= i <= self.entries.len(),
                forall|j: int| 0 <= j < i ==> self.entries@[j].0 != nonce,
            decreases self.entries.len() - i,
        {
            if self.entries[i].0 == nonce {
                return Some(i);
            }
            i = i + 1;
        }
        None
    }

    /// The record under `nonce`, if any.
    pub fn get(&self, nonce: u64) -> (r: Option<&BurnInfo>)
        requires
            self.wf(),
        ensures
            r is Some <==> self.view().contains_key(nonce),
            r matches Some(b) ==> b@ == self.view()[nonce],
    {
        match self.index_of(nonce) {
            Some(i) => Some(&self.entries[i].1),
            None => None,
        }
    }

    /// Whether no withdrawal is pending.
    pub fn is_empty(&self) -> (r: bool)
        requires
            self.wf(),
        ensures
            r <==> self.view().dom().is_empty(),
    {
        if self.entries.len() == 0 {
            assert(self.view().dom() =~= Set::<u64>::empty());
            true
        } else {
            assert(self.view().dom().contains(self.entries@[0].0));
            false
        }
    }

    /// Records `info` under a nonce above every nonce recorded so far.
    pub fn push(&mut self, nonce: u64, info: BurnInfo)
        requires
            old(self).wf(),
            forall|k: u64| old(self).view().contains_key(k) ==> k < nonce,
        ensures
            final(self).wf(),
            final(self).view() == old(self).view().insert(nonce, info@),
    {
        let ghost old_entries = self.entries@;
        let ghost v = info@;
        assert forall|j: int| 0 <= j < old_entries.len() implies (#[trigger] old_entries[j]).0 < nonce by {
            assert(self.view().contains_key(old_entries[j].0));
        }
        self.entries.push((nonce, info));
        self.records = Ghost(self.records@.insert(nonce, v));
        assert forall|k: u64| #[trigger] self.records@.contains_key(k) implies exists|i: int|
            0 <= i < self.entries.len() && #[trigger] self.entries@[i].0 == k by {
            if k != nonce {
                let m = choose|m: int| 0 <= m < old_entries.len() && #[trigger] old_entries[m].0 == k;
                assert(self.entries@[m] == old_entries[m]);
            } else {
                assert(self.entries@[old_entries.len() as int].0 == k);
            }
        }
        assert forall|i: int| 0 <= i < self.entries.len() implies #[trigger] self.records@.contains_key(
            self.entries@[i].0,
        ) && self.records@[self.entries@[i].0] == self.entries@[i].1@ by {
            if i < old_entries.len() {
                assert(self.entries@[i] == old_entries[i]);
            }
        }
    }

    /// Sets the dispatch time of the record under `nonce`.
    pub fn set_timestamp(&mut self, nonce: u64, timestamp: u64)
        requires
            old(self).wf(),
            old(self).view().contains_key(nonce),
        ensures
            final(self).wf(),
            final(self).view() == old(self).view().insert(
                nonce,
                BurnInfoView { timestamp, ..old(self).view()[nonce] },
            ),
    {
        let i = self.index_of(nonce).unwrap();
        let ghost old_entries = self.entries@;
        let mut info = self.entries[i].1.duplicate();
        info.timestamp = timestamp;
        let ghost v = info@;
        self.entries.set(i, (nonce, info));
        self.records = Ghost(self.records@.insert(nonce, v));
        assert forall|k: u64| #[trigger] self.records@.contains_key(k) implies exists|m: int|
            0 <= m < self.entries.len() && #[trigger] self.entries@[m].0 == k by {
            let m = choose|m: int| 0 <= m < old_entries.len() && #[trigger] old_entries[m].0 == k;
            assert(self.entries@[m].0 == k);
        }
        assert forall|a: int| 0 <= a < self.entries.len() implies #[trigger] self.records@.contains_key(
            self.entries@[a].0,
        ) && self.records@[self.entries@[a].0] == self.entries@[a].1@ by {
            if a < i {
                assert(old_entries[a] == self.entries@[a]);
                assert(old_entries[a].0 < old_entries[i as int].0);
            } else if a > i {
                assert(old_entries[a] == self.entries@[a]);
                assert(old_entries[i as int].0 < old_entries[a].0);
            }
        }
        assert forall|a: int, b: int| 0 <= a < b < self.entries.len() implies (
        #[trigger] self.entries@[a]).0 < (#[trigger] self.entries@[b]).0 by {
            assert(old_entries[a].0 == self.entries@[a].0);
            assert(old_entries[b].0 == self.entries@[b].0);
        }
    }

    /// Deletes the record under `nonce`, if there is one.
    pub fn remove(&mut self, nonce: u64)
        requires
            old(self).wf(),
        ensures
            final(self).wf(),
            final(self).view() == old(self).view().remove(nonce),
    {
        match self.index_of(nonce) {
            None => {
                assert(self.records@.remove(nonce) =~= self.records@);
            },
            Some(i) => {
                let ghost old_entries = self.entries@;
                self.entries.remove(i);
                self.records = Ghost(self.records@.remove(nonce));
                let ghost e = self.entries@;
                assert forall|k: u64| #[trigger] self.records@.contains_key(k) implies exists|m: int|
                    0 <= m < e.len() && #[trigger] e[m].0 == k by {
                    let m = choose|m: int| 0 <= m < old_entries.len() && #[trigger] old_entries[m].0 == k;
                    if m < i {
                        assert(e[m] == old_entries[m]);
                    } else {
                        assert(m != i);
                        assert(e[m - 1] == old_entries[m]);
                    }
                }
                assert forall|a: int| 0 <= a < e.len() implies #[trigger] self.records@.contains_key(
                    e[a].0,
                ) && self.records@[e[a].0] == e[a].1@ by {
                    if a < i {
                        assert(e[a] == old_entries[a]);
                        assert(old_entries[a].0 < old_entries[i as int].0);
                    } else {
                        assert(e[a] == old_entries[a + 1]);
                        assert(old_entries[i as int].0 < old_entries[a + 1].0);
                    }
                }
                assert forall|a: int, b: int| 0 <= a < b < e.len() implies (#[trigger] e[a]).0 < (
                #[trigger] e[b]).0 by {
                    let oa = if a < i { a } else { a + 1 };
                    let ob = if b < i { b } else { b + 1 };
                    assert(e[a] == old_entries[oa]);
                    assert(e[b] == old_entries[ob]);
                    assert(old_entries[oa].0 < old_entries[ob].0);
                }
            },
        }
    }

    /// Every pending withdrawal with its nonce, in ascending order of nonce.
    pub fn list(&self) -> (r: Vec<(u64, BurnInfo)>)
        requires
            self.wf(),
        ensures
            r.len() == self.nonces().len(),
            nonces_ascending(self.nonces()),
            forall|k: u64| self.view().contains_key(k) <==> self.nonces().contains(k),
            forall|i: int|
                0 <= i < r.len() ==> (#[trigger] r@[i]).0 == self.nonces()[i] && r@[i].1@
                    == self.view()[self.nonces()[i]],
    {
        let mut out: Vec<(u64, BurnInfo)> = Vec::new();
        let mut i: usize = 0;
        while i < self.entries.len()
            invariant
                self.wf(),
                0 <= i <= self.entries.len(),
                out.len() == i,
                forall|j: int|
                    0 <= j < i ==> (#[trigger] out@[j]).0 == self.entries@[j].0 && out@[j].1@
                        == self.entries@[j].1@,
            decreases self.entries.len() - i,
        {
            out.push((self.entries[i].0, self.entries[i].1.duplicate()));
            i = i + 1;
        }
        assert forall|k: u64| self.view().contains_key(k) <==> self.nonces().contains(k) by {
            if self.view().contains_key(k) {
                let m = choose|m: int| 0 <= m < self.entries.len() && #[trigger] self.entries@[m].0 == k;
                assert(self.nonces()[m] == k);
            }
            if self.nonces().contains(k) {
                let m = choose|m: int| 0 <= m < self.nonces().len() && self.nonces()[m] == k;
                assert(self.records@.contains_key(self.entries@[m].0));
            }
        }
        assert forall|a: int, b: int| 0 <= a < b < self.nonces().len() implies self.nonces()[a]
            < self.nonces()[b] by {
            assert(self.entries@[a].0 < self.entries@[b].0);
        }
        assert forall|j: int| 0 <= j < out.len() implies (#[trigger] out@[j]).0 == self.nonces()[j]
            && out@[j].1@ == self.view()[self.nonces()[j]] by {
            assert(self.records@.contains_key(self.entries@[j].0));
        }
        out
    }
}

} // verus!
