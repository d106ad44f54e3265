//! The chain registry: one setting per chain id, listed in ascending order of
//! the ids' UTF-8 bytes.
use vstd::prelude::*;
use vstd::utf8::encode_utf8;

use crate::msg::ChainSettingInfo;
use crate::order::{bytes_lt, compare_bytes, lemma_bytes_lt_irreflexive, lemma_bytes_lt_transitive};
use crate::state::{ChainSetting, ChainSettingView};

verus! {

broadcast use {vstd::utf8::encode_utf8_decode_utf8, vstd::utf8::encode_utf8_valid_utf8};

/// The bytes by which chain ids are ordered.
pub open spec fn id_bytes(id: Seq<char>) -> Seq<u8> {
    encode_utf8(id)
}

/// The ids come in strictly ascending byte order.
pub open spec fn ids_ascending(ids: Seq<Seq<char>>) -> bool {
    forall|i: int, j: int| 0 <= i < j < ids.len() ==> bytes_lt(id_bytes(ids[i]), id_bytes(ids[j]))
}

pub struct ChainRegistry {
    entries: Vec<(String, ChainSetting)>,
    settings: Ghost<Map<Seq<char>, ChainSettingView>>,
}

impl ChainRegistry {
    /// The settings by chain id.
    pub closed spec fn view(&self) -> Map<Seq<char>, ChainSettingView> {
        self.settings@
    }

    pub closed spec fn ids(&self) -> Seq<Seq<char>> {
        self.entries@.map_values(|e: (String, ChainSetting)| e.0@)
    }

    pub closed spec fn wf(&self) -> bool {
        &&& forall|i: int|
            0 <= i < self.entries.len() ==> #[trigger] self.settings@.contains_key(
                self.entries@[i].0@,
            ) && self.settings@[self.entries@[i].0@] == self.entries@[i].1@
        &&& forall|k: Seq<char>| #[trigger]
            self.settings@.contains_key(k) ==> exists|i: int|
                0 <= i < self.entries.len() && #[trigger] self.entries@[i].0@ == k
        &&& forall|i: int, j: int|
            0 <= i < j < self.entries.len() ==> bytes_lt(
                id_bytes(#[trigger] self.entries@[i].0@),
                id_bytes(#[trigger] self.entries@[j].0@),
            )
    }

    pub fn new() -> (r: ChainRegistry)
        ensures
            r.wf(),
            r.view() == Map::<Seq<char>, ChainSettingView>::empty(),
    {
        ChainRegistry { entries: Vec::new(), settings: Ghost(Map::empty()) }
    }

    /// The setting of `chain_id`, if one is registered.
    pub fn get(&self, chain_id: &String) -> (r: Option<&ChainSetting>)
        requires
            self.wf(),
        ensures
            r is Some <==> self.view().contains_key(chain_id@),
            r matches Some(s) ==> s@ == self.view()[chain_id@],
    {
        let mut i: usize = 0;
        while i < self.entries.len()
            invariant
                self.wf(),
                0 <= i <= self.entries.len(),
                forall|j: int| 0 <= j < i ==> self.entries@[j].0@ != chain_id@,
            decreases self.entries.len() - i,
        {
            if self.entries[i].0 == *chain_id {
                return Some(&self.entries[i].1);
            }
            i = i + 1;
        }
        None
    }

    /// Registers `setting` under `chain_id`, replacing an earlier one.
    pub fn upsert(&mut self, chain_id: String, setting: ChainSetting)
        requires
            old(self).wf(),
        ensures
            final(self).wf(),
            final(self).view() == old(self).view().insert(chain_id@, setting@),
    {
        let ghost key = id_bytes(chain_id@);
        let mut i: usize = 0;
        while i < self.entries.len()
            invariant
                self.wf(),
                self.entries@ == old(self).entries@,
                self.settings@ == old(self).settings@,
                0 <= i <= self.entries.len(),
                key == id_bytes(chain_id@),
                forall|j: int| 0 <= j < i ==> bytes_lt(id_bytes(#[trigger] self.entries@[j].0@), key),
            decreases self.entries.len() - i,
        {
            let c = compare_bytes(self.entries[i].0.as_str().as_bytes(), chain_id.as_str().as_bytes());
            if c == 0 {
                assert(self.entries@[i as int].0@ == chain_id@) by {
                    assert(vstd::utf8::decode_utf8(id_bytes(self.entries@[i as int].0@)) == self.entries@[i as int].0@);
                    assert(vstd::utf8::decode_utf8(id_bytes(chain_id@)) == chain_id@);
                }
                let ghost old_entries = self.entries@;
                let ghost new_view = setting@;
                self.entries.set(i, (chain_id, setting));
                self.settings = Ghost(self.settings@.insert(self.entries@[i as int].0@, new_view));
                assert forall|k: Seq<char>| #[trigger] self.settings@.contains_key(k) implies exists|m: int|
                    0 <= m < self.entries.len() && #[trigger] self.entries@[m].0@ == k by {
                    if k != self.entries@[i as int].0@ {
                        let m = choose|m: int| 0 <= m < old_entries.len() && #[trigger] old_entries[m].0@ == k;
                        assert(self.entries@[m].0@ == k);
                    }
                }
                assert forall|a: int, b: int|
                    0 <= a < b < self.entries.len() implies bytes_lt(
                    id_bytes(#[trigger] self.entries@[a].0@),
                    id_bytes(#[trigger] self.entries@[b].0@),
                ) by {
                    assert(old_entries[a].0@ == self.entries@[a].0@);
                    assert(old_entries[b].0@ == self.entries@[b].0@);
                }
                assert forall|a: int| 0 <= a < self.entries.len() implies #[trigger] self.settings@.contains_key(
                    self.entries@[a].0@,
                ) && self.settings@[self.entries@[a].0@] == self.entries@[a].1@ by {
                    if a != i {
                        assert(old_entries[a] == self.entries@[a]);
                        lemma_bytes_lt_irreflexive(id_bytes(old_entries[a].0@));
                        if a < i {
                            assert(bytes_lt(id_bytes(old_entries[a].0@), id_bytes(old_entries[i as int].0@)));
                        } else {
                            assert(bytes_lt(id_bytes(old_entries[i as int].0@), id_bytes(old_entries[a].0@)));
                        }
                    }
                }
                return;
            } else if c > 0 {
                proof {
                    ChainRegistry::lemma_insert_at(self.entries@, i as int, chain_id@);
                }
                let ghost old_entries = self.entries@;
                let ghost old_settings = self.settings@;
                self.entries.insert(i, (chain_id, setting));
                self.settings = Ghost(old_settings.insert(self.entries@[i as int].0@, setting@));
                proof {
                    self.lemma_after_insert(old_entries, old_settings, i as int);
                }
                return;
            }
            i = i + 1;
        }
        let ghost old_entries = self.entries@;
        let ghost old_settings = self.settings@;
        let ghost n = self.entries.len() as int;
        proof {
            ChainRegistry::lemma_insert_at(self.entries@, n, chain_id@);
        }
        self.entries.push((chain_id, setting));
        self.settings = Ghost(old_settings.insert(self.entries@[n].0@, setting@));
        assert(self.entries@ == old_entries.insert(n, self.entries@[n]));
        proof {
            self.lemma_after_insert(old_entries, old_settings, n);
        }
    }

    /// Where a new id may be placed: every id before `p` is below it and every
    /// id from `p` on above it.
    proof fn lemma_insert_at(entries: Seq<(String, ChainSetting)>, p: int, id: Seq<char>)
        requires
            0 <= p <= entries.len(),
            forall|j: int| 0 <= j < p ==> bytes_lt(id_bytes(#[trigger] entries[j].0@), id_bytes(id)),
            p < entries.len() ==> bytes_lt(id_bytes(id), id_bytes(entries[p].0@)),
            forall|a: int, b: int|
                0 <= a < b < entries.len() ==> bytes_lt(
                    id_bytes(#[trigger] entries[a].0@),
                    id_bytes(#[trigger] entries[b].0@),
                ),
        ensures
            forall|j: int| p <= j < entries.len() ==> bytes_lt(id_bytes(id), id_bytes(#[trigger] entries[j].0@)),
            forall|j: int| 0 <= j < entries.len() ==> #[trigger] entries[j].0@ != id,
    {
        assert forall|j: int| p <= j < entries.len() implies bytes_lt(id_bytes(id), id_bytes(#[trigger] entries[j].0@)) by {
            if j > p {
                lemma_bytes_lt_transitive(id_bytes(id), id_bytes(entries[p].0@), id_bytes(entries[j].0@));
            }
        }
        assert forall|j: int| 0 <= j < entries.len() implies #[trigger] entries[j].0@ != id by {
            lemma_bytes_lt_irreflexive(id_bytes(id));
            if j < p {
                assert(bytes_lt(id_bytes(entries[j].0@), id_bytes(id)));
            } else {
                assert(bytes_lt(id_bytes(id), id_bytes(entries[j].0@)));
            }
        }
    }

    proof fn lemma_after_insert(
        &self,
        old_entries: Seq<(String, ChainSetting)>,
        old_settings: Map<Seq<char>, ChainSettingView>,
        p: int,
    )
        requires
            0 <= p <= old_entries.len(),
            self.entries@ == old_entries.insert(p, self.entries@[p]),
            self.settings@ == old_settings.insert(self.entries@[p].0@, self.entries@[p].1@),
            forall|j: int| 0 <= j < p ==> bytes_lt(id_bytes(#[trigger] old_entries[j].0@), id_bytes(self.entries@[p].0@)),
            forall|j: int| p <= j < old_entries.len() ==> bytes_lt(id_bytes(self.entries@[p].0@), id_bytes(#[trigger] old_entries[j].0@)),
            forall|j: int| 0 <= j < old_entries.len() ==> #[trigger] old_entries[j].0@ != self.entries@[p].0@,
            forall|i: int|
                0 <= i < old_entries.len() ==> #[trigger] old_settings.contains_key(old_entries[i].0@)
                    && old_settings[old_entries[i].0@] == old_entries[i].1@,
            forall|k: Seq<char>| #[trigger]
                old_settings.contains_key(k) ==> exists|i: int|
                    0 <= i < old_entries.len() && #[trigger] old_entries[i].0@ == k,
            forall|a: int, b: int|
                0 <= a < b < old_entries.len() ==> bytes_lt(
                    id_bytes(#[trigger] old_entries[a].0@),
                    id_bytes(#[trigger] old_entries[b].0@),
                ),
        ensures
            self.wf(),
    {
        let e = self.entries@;
        assert forall|i: int| 0 <= i < e.len() implies #[trigger] self.settings@.contains_key(e[i].0@)
            && self.settings@[e[i].0@] == e[i].1@ by {
            if i < p {
                assert(e[i] == old_entries[i]);
            } else if i > p {
                assert(e[i] == old_entries[i - 1]);
            }
        }
        assert forall|k: Seq<char>| #[trigger] self.settings@.contains_key(k) implies exists|m: int|
            0 <= m < e.len() && #[trigger] e[m].0@ == k by {
            if k != e[p].0@ {
                let m = choose|m: int| 0 <= m < old_entries.len() && #[trigger] old_entries[m].0@ == k;
                if m < p {
                    assert(e[m] == old_entries[m]);
                } else {
                    assert(e[m + 1] == old_entries[m]);
                }
            }
        }
        assert forall|a: int, b: int| 0 <= a < b < e.len() implies bytes_lt(
            id_bytes(#[trigger] e[a].0@),
            id_bytes(#[trigger] e[b].0@),
        ) by {
            if b < p {
                assert(e[a] == old_entries[a] && e[b] == old_entries[b]);
            } else if b == p {
                assert(e[a] == old_entries[a]);
            } else if a < p {
                assert(e[a] == old_entries[a] && e[b] == old_entries[b - 1]);
                lemma_bytes_lt_transitive(id_bytes(e[a].0@), id_bytes(e[p].0@), id_bytes(e[b].0@));
            } else if a == p {
                assert(e[b] == old_entries[b - 1]);
            } else {
                assert(e[a] == old_entries[a - 1] && e[b] == old_entries[b - 1]);
            }
        }
    }

    /// Every registered chain with its setting, in ascending order of id.
    pub fn list(&self) -> (r: Vec<ChainSettingInfo>)
        requires
            self.wf(),
        ensures
            r.len() == self.ids().len(),
            ids_ascending(self.ids()),
            forall|k: Seq<char>| self.view().contains_key(k) <==> self.ids().contains(k),
            forall|i: int| 0 <= i < r.len() ==> {
                &&& (#[trigger] r@[i]).chain_id@ == self.ids()[i]
                &&& r@[i].job_id@ == self.view()[self.ids()[i]].job_id
                &&& r@[i].minimum_amount == self.view()[self.ids()[i]].minimum_amount
            },
    {
        let mut out: Vec<ChainSettingInfo> = Vec::new();
        let mut i: usize = 0;
        while i < self.entries.len()
            invariant
                self.wf(),
                0 <= i <= self.entries.len(),
                out.len() == i,
                forall|j: int| 0 <= j < i ==> {
                    &&& (#[trigger] out@[j]).chain_id@ == self.entries@[j].0@
                    &&& out@[j].job_id@ == self.entries@[j].1.job_id@
                    &&& out@[j].minimum_amount == self.entries@[j].1.minimum_amount
                },
            decreases self.entries.len() - i,
        {
            let e = &self.entries[i];
            out.push(
                ChainSettingInfo {
                    chain_id: e.0.clone(),
                    job_id: e.1.job_id.clone(),
                    minimum_amount: e.1.minimum_amount,
                },
            );
            i = i + 1;
        }
        assert forall|k: Seq<char>| self.view().contains_key(k) <==> self.ids().contains(k) by {
            if self.view().contains_key(k) {
                let m = choose|m: int| 0 <= m < self.entries.len() && #[trigger] self.entries@[m].0@ == k;
                assert(self.ids()[m] == k);
            }
            if self.ids().contains(k) {
                let m = choose|m: int| 0 <= m < self.ids().len() && self.ids()[m] == k;
                assert(self.settings@.contains_key(self.entries@[m].0@));
            }
        }
        assert forall|a: int, b: int| 0 <= a < b < self.ids().len() implies bytes_lt(
            id_bytes(self.ids()[a]),
            id_bytes(self.ids()[b]),
        ) by {
            assert(self.ids()[a] == self.entries@[a].0@);
            assert(self.ids()[b] == self.entries@[b].0@);
        }
        assert forall|j: int| 0 <= j < out.len() implies {
            &&& (#[trigger] out@[j]).chain_id@ == self.ids()[j]
            &&& out@[j].job_id@ == self.view()[self.ids()[j]].job_id
            &&& out@[j].minimum_amount == self.view()[self.ids()[j]].minimum_amount
        } by {
            assert(self.settings@.contains_key(self.entries@[j].0@));
        }
        out
    }
}

} // verus!
