//! The tiles that are resident, keyed by their address and kept in the
//! order of tiles.
use crate::quad_cell::QuadPos;
use vstd::prelude::*;

verus! {

/// A map from tile addresses to tiles. It owns its tiles; it holds each
/// address once, and walks them in the order of tiles.
pub struct TileMap<T> {
    pub entries: Vec<(QuadPos, T)>,
}

impl<T> TileMap<T> {
    /// The entries stand in the strict order of their addresses.
    pub open spec fn wf(&self) -> bool {
        forall|i: int, j: int|
            0 <= i < j < self.entries@.len() ==> (#[trigger] self.entries@[i]).0.precedes(
                (#[trigger] self.entries@[j]).0,
            )
    }

    /// Whether a tile is held for `pos`.
    pub open spec fn contains(&self, pos: QuadPos) -> bool {
        exists|i: int| 0 <= i < self.entries@.len() && (#[trigger] self.entries@[i]).0 == pos
    }

    /// The place of `pos` among the entries, where a tile is held for it.
    pub open spec fn index_of(&self, pos: QuadPos) -> int {
        choose|i: int| 0 <= i < self.entries@.len() && (#[trigger] self.entries@[i]).0 == pos
    }

    /// The tile held for `pos`, where there is one.
    pub open spec fn tile(&self, pos: QuadPos) -> T {
        self.entries@[self.index_of(pos)].1
    }

    /// An address stands at one place only.
    pub proof fn lemma_unique(&self, i: int, j: int)
        requires
            self.wf(),
            0 <= i < self.entries@.len(),
            0 <= j < self.entries@.len(),
            self.entries@[i].0 == self.entries@[j].0,
        ensures
            i == j,
    {
        if i < j {
            assert(self.entries@[i].0.precedes(self.entries@[j].0));
        } else if j < i {
            assert(self.entries@[j].0.precedes(self.entries@[i].0));
        }
    }

    /// The entry at place `i` is the tile of its address.
    pub proof fn lemma_tile_at(&self, i: int)
        requires
            self.wf(),
            0 <= i < self.entries@.len(),
        ensures
            self.contains(self.entries@[i].0),
            self.index_of(self.entries@[i].0) == i,
            self.tile(self.entries@[i].0) == self.entries@[i].1,
    {
        let pos = self.entries@[i].0;
        assert(self.contains(pos));
        self.lemma_unique(i, self.index_of(pos));
    }

    /// The empty map.
    pub fn new() -> (map: Self)
        ensures
            map.wf(),
            map.entries@.len() == 0,
            forall|pos: QuadPos| !map.contains(pos),
    {
        TileMap { entries: Vec::new() }
    }

    /// The number of tiles held.
    pub fn len(&self) -> (n: usize)
        ensures
            n == self.entries@.len(),
    {
        self.entries.len()
    }

    /// Drops every tile.
    pub fn clear(&mut self)
        ensures
            final(self).wf(),
            final(self).entries@.len() == 0,
            forall|pos: QuadPos| !final(self).contains(pos),
    {
        self.entries.clear();
    }

    /// The address at place `i`.
    pub fn key_at(&self, i: usize) -> (pos: QuadPos)
        requires
            i < self.entries@.len(),
        ensures
            pos == self.entries@[i as int].0,
    {
        self.entries[i].0
    }

    /// The tile at place `i`.
    pub fn value_at(&self, i: usize) -> (tile: &T)
        requires
            i < self.entries@.len(),
        ensures
            *tile == self.entries@[i as int].1,
    {
        &self.entries[i].1
    }

    /// The place where `pos` stands or would have to stand: the number of
    /// entries that come before it.
    fn lower_bound(&self, pos: &QuadPos) -> (k: usize)
        requires
            self.wf(),
        ensures
            k <= self.entries@.len(),
            forall|i: int| 0 <= i < k ==> (#[trigger] self.entries@[i]).0.precedes(*pos),
            forall|i: int|
                k <= i < self.entries@.len() ==> !(#[trigger] self.entries@[i]).0.precedes(*pos),
    {
        let mut k: usize = 0;
        while k < self.entries.len() && self.entries[k].0.is_before(pos)
            invariant
                self.wf(),
                k <= self.entries@.len(),
                forall|i: int| 0 <= i < k ==> (#[trigger] self.entries@[i]).0.precedes(*pos),
            decreases self.entries@.len() - k,
        {
            k = k + 1;
        }
        proof {
            if k < self.entries@.len() {
                assert forall|i: int| k <= i < self.entries@.len() implies !(
                #[trigger] self.entries@[i]).0.precedes(*pos) by {
                    if k < i {
                        assert(self.entries@[k as int].0.precedes(self.entries@[i].0));
                    }
                }
            }
        }
        k
    }

    /// Whether a tile is held for `pos`.
    pub fn contains_key(&self, pos: &QuadPos) -> (found: bool)
        requires
            self.wf(),
        ensures
            found == self.contains(*pos),
    {
        let k = self.lower_bound(pos);
        if k < self.entries.len() {
            let found = self.entries[k].0 == *pos;
            proof {
                if !found && self.contains(*pos) {
                    let i = self.index_of(*pos);
                    assert(self.entries@[i].0 == *pos);
                    assert(!pos.precedes(*pos));
                    if i < k {
                        assert(self.entries@[i].0.precedes(*pos));
                    } else {
                        assert(self.entries@[k as int].0.precedes(self.entries@[i].0));
                    }
                }
            }
            found
        } else {
            proof {
                if self.contains(*pos) {
                    let i = self.index_of(*pos);
                    assert(self.entries@[i].0.precedes(*pos));
                }
            }
            false
        }
    }

    /// The tile held for `pos`, if there is one.
    pub fn get(&self, pos: &QuadPos) -> (found: Option<&T>)
        requires
            self.wf(),
        ensures
            found.is_some() == self.contains(*pos),
            found.is_some() ==> *found.unwrap() == self.tile(*pos),
    {
        let k = self.lower_bound(pos);
        if k < self.entries.len() && self.entries[k].0 == *pos {
            proof {
                self.lemma_tile_at(k as int);
            }
            Some(&self.entries[k].1)
        } else {
            proof {
                if self.contains(*pos) {
                    let i = self.index_of(*pos);
                    assert(self.entries@[i].0 == *pos);
                    if i < k {
                        assert(self.entries@[i].0.precedes(*pos));
                    } else if k < i {
                        assert(self.entries@[k as int].0.precedes(self.entries@[i].0));
                    }
                }
            }
            None
        }
    }

    /// Holds `tile` for `pos` from now on, and hands back the tile that was
    /// held for it before, if there was one. Every other tile stays.
    pub fn insert(&mut self, pos: QuadPos, tile: T) -> (previous: Option<T>)
        requires
            old(self).wf(),
        ensures
            final(self).wf(),
            final(self).contains(pos),
            final(self).tile(pos) == tile,
            previous.is_some() == old(self).contains(pos),
            previous.is_some() ==> previous.unwrap() == old(self).tile(pos),
            forall|q: QuadPos| q != pos ==> final(self).contains(q) == old(self).contains(q),
            forall|q: QuadPos|
                q != pos && old(self).contains(q) ==> final(self).tile(q) == old(self).tile(q),
            final(self).entries@.len() == old(self).entries@.len() + if old(self).contains(pos) {
                0int
            } else {
                1int
            },
    {
        let k = self.lower_bound(&pos);
        let ghost before = self.entries@;
        let ghost old_map = *self;
        let replaces = k < self.entries.len() && self.entries[k].0 == pos;
        let previous = if replaces {
            proof {
                old_map.lemma_tile_at(k as int);
            }
            let entry = self.entries.remove(k);
            Some(entry.1)
        } else {
            proof {
                if old_map.contains(pos) {
                    let i = old_map.index_of(pos);
                    assert(before[i].0 == pos);
                    if i < k {
                        assert(before[i].0.precedes(pos));
                    } else if k < i {
                        assert(before[k as int].0.precedes(before[i].0));
                    }
                }
            }
            None
        };
        let ghost middle = self.entries@;
        self.entries.insert(k, (pos, tile));
        proof {
            let after = self.entries@;
            assert(after == middle.insert(k as int, (pos, tile)));
            assert(after[k as int] == (pos, tile));
            // how the places of the new sequence map to the old one
            let shift: int = if replaces {
                0
            } else {
                1
            };
            assert(after.len() == before.len() + shift);
            assert forall|i: int| 0 <= i < k implies after[i] == before[i] by {}
            assert forall|i: int| k < i < after.len() implies after[i] == before[i - shift] by {}
            assert forall|i: int| k < i < after.len() implies pos.precedes(
                (#[trigger] after[i]).0,
            ) by {
                let j = i - shift;
                assert(after[i] == before[j]);
                assert(!before[j].0.precedes(pos));
                if replaces {
                    assert(before[k as int].0.precedes(before[j].0));
                } else {
                    if before[j].0 == pos {
                        assert(old_map.contains(pos));
                        if k < j {
                            assert(before[k as int].0.precedes(before[j].0));
                            assert(!before[k as int].0.precedes(pos));
                        }
                    }
                    QuadPos::lemma_order_is_total(pos, before[j].0, pos);
                }
            }
            assert forall|i: int, j: int| 0 <= i < j < after.len() implies (
            #[trigger] after[i]).0.precedes((#[trigger] after[j]).0) by {
                if j < k {
                    assert(before[i].0.precedes(before[j].0));
                } else if j == k {
                    assert(before[i].0.precedes(pos));
                } else if i == k {
                } else if i < k {
                    assert(before[i].0.precedes(pos));
                    QuadPos::lemma_order_is_total(after[i].0, pos, after[j].0);
                } else {
                    assert(before[i - shift].0.precedes(before[j - shift].0));
                }
            }
            assert(self.wf());
            self.lemma_tile_at(k as int);
            assert forall|q: QuadPos| q != pos implies self.contains(q) == old_map.contains(
                q,
            ) by {
                if old_map.contains(q) {
                    let i = old_map.index_of(q);
                    assert(before[i].0 == q);
                    if i < k {
                        assert(after[i].0 == q);
                    } else {
                        assert(after[i + shift].0 == q);
                    }
                }
                if self.contains(q) {
                    let i = self.index_of(q);
                    assert(after[i].0 == q);
                    if i < k {
                        assert(before[i].0 == q);
                    } else {
                        assert(before[i - shift].0 == q);
                    }
                }
            }
            assert forall|q: QuadPos| q != pos && old_map.contains(q) implies self.tile(q)
                == old_map.tile(q) by {
                let i = old_map.index_of(q);
                assert(before[i].0 == q);
                old_map.lemma_tile_at(i);
                if i < k {
                    assert(after[i] == before[i]);
                    self.lemma_tile_at(i);
                } else {
                    assert(after[i + shift] == before[i]);
                    self.lemma_tile_at(i + shift);
                }
            }
        }
        previous
    }

    /// Takes the entry at place `i` out of the map. Every other tile stays.
    pub fn remove_at(&mut self, i: usize) -> (entry: (QuadPos, T))
        requires
            old(self).wf(),
            i < old(self).entries@.len(),
        ensures
            final(self).wf(),
            entry == old(self).entries@[i as int],
            final(self).entries@ == old(self).entries@.remove(i as int),
            !final(self).contains(entry.0),
            forall|q: QuadPos| q != entry.0 ==> final(self).contains(q) == old(self).contains(q),
            forall|q: QuadPos|
                q != entry.0 && old(self).contains(q) ==> final(self).tile(q) == old(self).tile(
                    q,
                ),
    {
        let ghost before = self.entries@;
        let ghost old_map = *self;
        let entry = self.entries.remove(i);
        proof {
            let after = self.entries@;
            assert forall|a: int| 0 <= a < after.len() implies after[a] == before[if a < i {
                a
            } else {
                a + 1
            }] by {}
            assert forall|a: int, b: int| 0 <= a < b < after.len() implies (
            #[trigger] after[a]).0.precedes((#[trigger] after[b]).0) by {
                let a0 = if a < i {
                    a
                } else {
                    a + 1
                };
                let b0 = if b < i {
                    b
                } else {
                    b + 1
                };
                assert(before[a0].0.precedes(before[b0].0));
            }
            assert(self.wf());
            if self.contains(entry.0) {
                let a = self.index_of(entry.0);
                let a0 = if a < i {
                    a
                } else {
                    a + 1
                };
                assert(before[a0].0 == entry.0);
                old_map.lemma_unique(a0, i as int);
            }
            assert forall|q: QuadPos| q != entry.0 implies self.contains(q) == old_map.contains(
                q,
            ) by {
                if old_map.contains(q) {
                    let a = old_map.index_of(q);
                    assert(before[a].0 == q);
                    if a < i {
                        assert(after[a].0 == q);
                    } else {
                        assert(after[a - 1].0 == q);
                    }
                }
                if self.contains(q) {
                    let a = self.index_of(q);
                    assert(after[a].0 == q);
                    if a < i {
                        assert(before[a].0 == q);
                    } else {
                        assert(before[a + 1].0 == q);
                    }
                }
            }
            assert forall|q: QuadPos| q != entry.0 && old_map.contains(q) implies self.tile(q)
                == old_map.tile(q) by {
                let a = old_map.index_of(q);
                assert(before[a].0 == q);
                old_map.lemma_tile_at(a);
                if a < i {
                    assert(after[a] == before[a]);
                    self.lemma_tile_at(a);
                } else {
                    assert(after[a - 1] == before[a]);
                    self.lemma_tile_at(a - 1);
                }
            }
        }
        entry
    }
}

} // verus!
