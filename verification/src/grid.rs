use vstd::prelude::*;
use vstd::set_lib::*;
use vstd::std_specs::iter::IteratorSpec;
use std::collections::HashMap;
use crate::coordinate::Coordinate;

verus! {

/// A mapping from grid cells to values, with at most one value per cell.
pub struct GridIndex<V> {
    cells: HashMap<u128, (Coordinate, V)>,
}

impl<V> View for GridIndex<V> {
    type V = Map<Coordinate, V>;

    closed spec fn view(&self) -> Map<Coordinate, V> {
        Map::new(
            |cell: Coordinate| self.cells@.contains_key(cell.key_spec()),
            |cell: Coordinate| self.cells@[cell.key_spec()].1,
        )
    }
}

impl<V> GridIndex<V> {
    /// Every entry is filed under the key of the cell it belongs to. Every
    /// index that this module hands out is well formed.
    pub closed spec fn wf(&self) -> bool {
        forall|key: u128| #[trigger]
            self.cells@.contains_key(key) ==> self.cells@[key].0.key_spec() == key
    }

    /// The cells of an index are as many as the keys it is filed under.
    proof fn lemma_cells_counted(self)
        requires
            self.wf(),
        ensures
            self@.dom().finite(),
            self@.dom().len() == self.cells@.dom().len(),
    {
        let keys = self.cells@.dom();
        let cell_of = |key: u128| self.cells@[key].0;
        assert forall|a: u128, b: u128|
            keys.contains(a) && keys.contains(b) && #[trigger] cell_of(a) == #[trigger] cell_of(
                b,
            ) implies a == b by {
            assert(self.cells@.contains_key(a));
            assert(self.cells@.contains_key(b));
        }
        assert(keys.map(cell_of) =~= self@.dom()) by {
            assert forall|cell: Coordinate| self@.dom().contains(cell) implies keys.map(
                cell_of,
            ).contains(cell) by {
                let key = cell.key_spec();
                assert(self.cells@.contains_key(key));
                Coordinate::lemma_key_injective(cell_of(key), cell);
                assert(keys.contains(key) && cell_of(key) == cell);
            }
            assert forall|cell: Coordinate| keys.map(cell_of).contains(cell) implies self@.dom().contains(
                cell,
            ) by {
                let key = choose|key: u128| keys.contains(key) && cell_of(key) == cell;
                assert(self.cells@.contains_key(key));
            }
        }
        lemma_map_size(keys, self@.dom(), cell_of);
    }

    /// An index that holds nothing.
    pub fn new() -> (index: Self)
        ensures
            index.wf(),
            index@ == Map::<Coordinate, V>::empty(),
    {
        let index = GridIndex { cells: HashMap::new() };
        assert(index@ =~= Map::<Coordinate, V>::empty());
        index
    }

    /// The number of cells that hold a value.
    pub fn len(&self) -> (count: usize)
        requires
            self.wf(),
        ensures
            self@.dom().finite(),
            count == self@.dom().len(),
    {
        proof {
            self.lemma_cells_counted();
        }
        self.cells.len()
    }

    /// Whether no cell holds a value.
    pub fn is_empty(&self) -> (empty: bool)
        requires
            self.wf(),
        ensures
            empty <==> self@ == Map::<Coordinate, V>::empty(),
    {
        proof {
            self.lemma_cells_counted();
            if self@.dom().len() == 0 {
                assert(self@ =~= Map::<Coordinate, V>::empty());
            }
        }
        self.cells.len() == 0
    }

    /// Whether `position` holds a value.
    pub fn contains(&self, position: &Coordinate) -> (held: bool)
        ensures
            held == self@.contains_key(*position),
    {
        let key = position.key();
        self.cells.contains_key(&key)
    }

    /// The value at `position`, if the cell holds one.
    pub fn lookup(&self, position: &Coordinate) -> (found: Option<&V>)
        ensures
            found matches Some(value) ==> self@.contains_key(*position) && self@[*position]
                == *value,
            found is None ==> !self@.contains_key(*position),
    {
        let key = position.key();
        match self.cells.get(&key) {
            Some(entry) => Some(&entry.1),
            None => None,
        }
    }

    /// Puts `value` at `position`. A value that the cell held before is
    /// replaced and handed back.
    pub fn insert(&mut self, position: Coordinate, value: V) -> (previous: Option<V>)
        requires
            old(self).wf(),
        ensures
            final(self).wf(),
            final(self)@ == old(self)@.insert(position, value),
            previous == (if old(self)@.contains_key(position) {
                Some(old(self)@[position])
            } else {
                None
            }),
    {
        let key = position.key();
        let previous = self.cells.insert(key, (position, value));
        proof {
            assert forall|cell: Coordinate| cell.key_spec() == key implies cell == position by {
                Coordinate::lemma_key_injective(cell, position);
            }
            assert(self@ =~= old(self)@.insert(position, value));
        }
        match previous {
            Some(entry) => Some(entry.1),
            None => None,
        }
    }

    /// Takes the value at `position` out and hands it back. An empty cell
    /// is left as it is.
    pub fn remove(&mut self, position: &Coordinate) -> (removed: Option<V>)
        requires
            old(self).wf(),
        ensures
            final(self).wf(),
            final(self)@ == old(self)@.remove(*position),
            removed == (if old(self)@.contains_key(*position) {
                Some(old(self)@[*position])
            } else {
                None
            }),
            !old(self)@.contains_key(*position) ==> final(self)@ == old(self)@,
    {
        let key = position.key();
        let removed = self.cells.remove(&key);
        proof {
            assert forall|cell: Coordinate| cell.key_spec() == key implies cell == *position by {
                Coordinate::lemma_key_injective(cell, *position);
            }
            assert(self@ =~= old(self)@.remove(*position));
            assert(!old(self)@.contains_key(*position) ==> self@ =~= old(self)@);
        }
        match removed {
            Some(entry) => Some(entry.1),
            None => None,
        }
    }

    /// The cells that hold a value, each once, in no particular order.
    pub fn positions(&self) -> (cells: Vec<Coordinate>)
        requires
            self.wf(),
        ensures
            cells@.no_duplicates(),
            cells@.to_set() == self@.dom(),
    {
        broadcast use vstd::std_specs::hash::group_hash_axioms;

        let mut cells: Vec<Coordinate> = Vec::new();
        let ghost listed = self.cells.iter().remaining();
        for entry in walk: self.cells.iter()
            invariant
                walk.seq() == listed,
                cells@.len() == walk.index(),
                forall|i: int| 0 <= i < cells@.len() ==> cells@[i] == (#[trigger] listed[i]).1.0,
        {
            cells.push((entry.1).0);
        }
        proof {
            assert(cells@.len() == listed.len());
            assert forall|i: int, j: int|
                0 <= i < cells@.len() && 0 <= j < cells@.len() && i != j implies cells@[i]
                != cells@[j] by {
                assert(self.cells@.contains_key(*listed[i].0));
                assert(self.cells@.contains_key(*listed[j].0));
            }
            assert forall|cell: Coordinate| self@.dom().contains(cell) implies cells@.to_set().contains(cell) by {
                let key = cell.key_spec();
                assert(self.cells@.contains_key(key));
                assert(listed.contains((&key, &self.cells@[key])));
                let i = choose|i: int| 0 <= i < listed.len() && listed[i] == (&key, &self.cells@[key]);
                Coordinate::lemma_key_injective(cells@[i], cell);
            }
            assert forall|cell: Coordinate| cells@.to_set().contains(cell) implies self@.dom().contains(cell) by {
                let i = choose|i: int| 0 <= i < cells@.len() && cells@[i] == cell;
                assert(self.cells@.contains_key(*listed[i].0));
            }
            assert(cells@.to_set() =~= self@.dom());
        }
        cells
    }

    /// Takes every value out.
    pub fn clear(&mut self)
        ensures
            final(self).wf(),
            final(self)@ == Map::<Coordinate, V>::empty(),
    {
        self.cells.clear();
        assert(self@ =~= Map::<Coordinate, V>::empty());
    }
}

} // verus!
