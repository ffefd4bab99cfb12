//! Contract key-value storage.

use vstd::prelude::*;

use crate::encoding::{bytes_eq, copy_bytes};
use crate::types::address::Address;
use crate::types::assoc::{
    entries_map, lemma_entries_dom, lemma_entries_lookup, lemma_entries_push, lemma_entries_remove,
    lemma_entries_update, slot_keys,
};

verus! {

/// A storage key as the contracts speak of it: a contract's address and a
/// byte string.
pub type CellKey = (Address, Seq<u8>);

/// One storage cell.
pub struct StorageCell {
    contract: Address,
    key: Vec<u8>,
    value: Vec<u8>,
}

impl StorageCell {
    spec fn entry(self) -> (CellKey, Seq<u8>) {
        ((self.contract, self.key@), self.value@)
    }
}

spec fn cell_entries(cells: Seq<StorageCell>) -> Seq<(CellKey, Seq<u8>)> {
    cells.map_values(|c: StorageCell| c.entry())
}

/// Contract storage: a map from (contract address, key bytes) to value bytes.
pub struct ContractStorage {
    cells: Vec<StorageCell>,
}

impl View for ContractStorage {
    type V = Map<CellKey, Seq<u8>>;

    closed spec fn view(&self) -> Map<CellKey, Seq<u8>> {
        entries_map(cell_entries(self.cells@))
    }
}

impl ContractStorage {
    #[verifier::type_invariant]
    spec fn distinct_keys(self) -> bool {
        slot_keys(cell_entries(self.cells@)).no_duplicates()
    }

    /// An empty store.
    pub fn new() -> (r: Self)
        ensures
            r@ == Map::<CellKey, Seq<u8>>::empty(),
    {
        let r = ContractStorage { cells: Vec::new() };
        assert(slot_keys(cell_entries(r.cells@)) =~= Seq::<CellKey>::empty());
        assert(r@ =~= Map::<CellKey, Seq<u8>>::empty());
        r
    }

    fn find(&self, contract: &Address, key: &[u8]) -> (r: Option<usize>)
        ensures
            match r {
                Some(i) => i < self.cells@.len() && cell_entries(self.cells@)[i as int].0 == (
                    *contract,
                    key@,
                ),
                None => !slot_keys(cell_entries(self.cells@)).contains((*contract, key@)),
            },
    {
        let mut i: usize = 0;
        while i < self.cells.len()
            invariant
                0 <= i <= self.cells@.len(),
                forall|j: int| 0 <= j < i ==> cell_entries(self.cells@)[j].0 != (*contract, key@),
            decreases self.cells@.len() - i,
        {
            if self.cells[i].contract == *contract && bytes_eq(self.cells[i].key.as_slice(), key) {
                return Some(i);
            }
            i += 1;
        }
        None
    }

    /// The number of cells.
    pub fn len(&self) -> (r: usize)
        ensures
            r == self@.dom().len(),
            self@.dom().finite(),
    {
        proof {
            use_type_invariant(self);
            lemma_entries_dom(cell_entries(self.cells@));
        }
        self.cells.len()
    }

    /// Whether there is a cell under the key.
    pub fn contains_key(&self, contract: &Address, key: &[u8]) -> (r: bool)
        ensures
            r == self@.dom().contains((*contract, key@)),
    {
        proof {
            use_type_invariant(self);
        }
        match self.find(contract, key) {
            Some(i) => {
                proof {
                    lemma_entries_lookup(cell_entries(self.cells@), i as int);
                }
                true
            },
            None => false,
        }
    }

    /// A copy of the value under the key, if there is one.
    pub fn get(&self, contract: &Address, key: &[u8]) -> (r: Option<Vec<u8>>)
        ensures
            match r {
                Some(value) => self@.dom().contains((*contract, key@)) && value@ == self@[(
                    *contract,
                    key@,
                )],
                None => !self@.dom().contains((*contract, key@)),
            },
    {
        proof {
            use_type_invariant(self);
        }
        match self.find(contract, key) {
            Some(i) => {
                proof {
                    lemma_entries_lookup(cell_entries(self.cells@), i as int);
                }
                Some(copy_bytes(self.cells[i].value.as_slice()))
            },
            None => None,
        }
    }

    /// Puts `value` under the key, replacing what was there.
    pub fn insert(&mut self, contract: Address, key: Vec<u8>, value: Vec<u8>)
        ensures
            final(self)@ == old(self)@.insert((contract, key@), value@),
    {
        proof {
            use_type_invariant(&*self);
        }
        let found = self.find(&contract, key.as_slice());
        let mut cells: Vec<StorageCell> = Vec::new();
        std::mem::swap(&mut self.cells, &mut cells);
        let ghost before = cell_entries(cells@);
        let cell = StorageCell { contract, key, value };
        match found {
            Some(i) => {
                proof {
                    lemma_entries_lookup(before, i as int);
                    lemma_entries_update(before, i as int, cell.value@);
                    assert(cell_entries(cells@.update(i as int, cell)) =~= before.update(
                        i as int,
                        (before[i as int].0, cell.value@),
                    ));
                }
                cells[i] = cell;
            },
            None => {
                proof {
                    lemma_entries_push(before, (cell.contract, cell.key@), cell.value@);
                    assert(cell_entries(cells@.push(cell)) =~= before.push(cell.entry()));
                }
                cells.push(cell);
            },
        }
        self.cells = cells;
    }

    /// Takes the cell under the key out and returns its value, if there was
    /// one.
    pub fn remove(&mut self, contract: &Address, key: &[u8]) -> (r: Option<Vec<u8>>)
        ensures
            final(self)@ == old(self)@.remove((*contract, key@)),
            match r {
                Some(value) => old(self)@.dom().contains((*contract, key@)) && value@ == old(
                    self,
                )@[(*contract, key@)],
                None => !old(self)@.dom().contains((*contract, key@)),
            },
    {
        proof {
            use_type_invariant(&*self);
        }
        let found = self.find(contract, key);
        match found {
            Some(i) => {
                let mut cells: Vec<StorageCell> = Vec::new();
                std::mem::swap(&mut self.cells, &mut cells);
                proof {
                    lemma_entries_lookup(cell_entries(cells@), i as int);
                    lemma_entries_remove(cell_entries(cells@), i as int);
                    assert(cell_entries(cells@.remove(i as int)) =~= cell_entries(cells@).remove(
                        i as int,
                    ));
                }
                let removed = cells.remove(i);
                self.cells = cells;
                Some(removed.value)
            },
            None => {
                assert(self@.remove((*contract, key@)) =~= self@);
                None
            },
        }
    }

    /// A copy of the store, cell for cell.
    pub fn snapshot(&self) -> (r: Self)
        ensures
            r@ == self@,
    {
        proof {
            use_type_invariant(self);
        }
        let mut cells: Vec<StorageCell> = Vec::new();
        let mut i: usize = 0;
        while i < self.cells.len()
            invariant
                0 <= i <= self.cells@.len(),
                cell_entries(cells@) == cell_entries(self.cells@).subrange(0, i as int),
            decreases self.cells@.len() - i,
        {
            let cell = StorageCell {
                contract: self.cells[i].contract,
                key: copy_bytes(self.cells[i].key.as_slice()),
                value: copy_bytes(self.cells[i].value.as_slice()),
            };
            let ghost copied = cell_entries(cells@);
            assert(cell.entry() == self.cells@[i as int].entry());
            cells.push(cell);
            assert(cell_entries(cells@) =~= copied.push(cell.entry()));
            assert(cell_entries(self.cells@)[i as int] == self.cells@[i as int].entry());
            assert(cell_entries(cells@) =~= cell_entries(self.cells@).subrange(0, i as int + 1));
            i += 1;
        }
        assert(cell_entries(cells@) =~= cell_entries(self.cells@));
        ContractStorage { cells }
    }
}

} // verus!
