use vstd::prelude::*;
use crate::errors::StoreError;
use crate::ids::{digits_value, parse_id, valid_id_str};
use crate::models::Item;
use crate::outcomes::InsertOneResult;
use crate::search::{contains_substring_ci, item_matches};

verus! {

/// The items `pat` selects from `items`, in store order: those whose name or
/// description holds `pat` as a substring, ignoring ASCII case.
pub open spec fn search_results(items: Seq<Item>, pat: Seq<char>) -> Seq<Item> {
    items.filter(|it: Item| item_matches(it@, pat))
}

/// The record at `i` is the first one in `s` carrying `name`.
pub open spec fn first_name_match(s: Seq<Item>, name: Seq<char>, i: int) -> bool {
    &&& 0 <= i < s.len()
    &&& s[i].name@ == name
    &&& forall|j: int| 0 <= j < i ==> (#[trigger] s[j]).name@ != name
}

/// True when some record in `s` carries `name`.
pub open spec fn has_name(s: Seq<Item>, name: Seq<char>) -> bool {
    exists|i: int| 0 <= i < s.len() && (#[trigger] s[i]).name@ == name
}

/// The item store. It owns the collection of item records and assigns each
/// new record the next free id.
pub struct ItemRepo {
    pub items: Vec<Item>,
    pub next_id: u64,
}

impl ItemRepo {
    /// Well-formed store: every record carries an id, ids are unique, and
    /// every id is below the next one to be assigned.
    pub open spec fn wf(&self) -> bool {
        &&& forall|i: int|
            0 <= i < self.items@.len() ==> (#[trigger] self.items@[i]).id is Some
                && self.items@[i].id.unwrap() < self.next_id
        &&& forall|i: int, j: int|
            0 <= i < j < self.items@.len() ==> (#[trigger] self.items@[i]).id != (
            #[trigger] self.items@[j]).id
    }

    /// True when some record carries the id.
    pub open spec fn has_id(&self, id: u64) -> bool {
        exists|i: int| 0 <= i < self.items@.len() && (#[trigger] self.items@[i]).id == Some(id)
    }

    /// Creates an empty item store.
    pub fn new() -> (r: Self)
        ensures
            r.wf(),
            r.items@.len() == 0,
            r.next_id == 0,
    {
        ItemRepo { items: Vec::new(), next_id: 0 }
    }

    /// Inserts the record, assigning it the next free id, and reports that id.
    pub fn create_item(&mut self, new_item: Item) -> (r: Result<InsertOneResult, StoreError>)
        requires
            old(self).wf(),
            old(self).next_id < u64::MAX,
        ensures
            final(self).wf(),
            final(self).next_id == old(self).next_id + 1,
            final(self).items@ == old(self).items@.push(
                (Item {
                    id: Some(old(self).next_id),
                    name: new_item.name,
                    description: new_item.description,
                    price: new_item.price,
                }),
            ),
            r == Ok::<InsertOneResult, StoreError>(
                (InsertOneResult { inserted_id: old(self).next_id }),
            ),
    {
        let id = self.next_id;
        let new_doc = Item {
            id: Some(id),
            name: new_item.name,
            description: new_item.description,
            price: new_item.price,
        };
        self.items.push(new_doc);
        self.next_id = self.next_id + 1;
        Ok(InsertOneResult { inserted_id: id })
    }

    /// The index of the record carrying `id`, if any.
    fn find_by_id(&self, id: u64) -> (r: Option<usize>)
        ensures
            match r {
                Some(i) => i < self.items@.len() && self.items@[i as int].id == Some(id),
                None => !self.has_id(id),
            },
    {
        let mut k: usize = 0;
        let n = self.items.len();
        while k < n
            invariant
                k <= n,
                n == self.items@.len(),
                forall|i: int| 0 <= i < k ==> (#[trigger] self.items@[i]).id != Some(id),
            decreases n - k,
        {
            if let Some(found) = self.items[k].id {
                if found == id {
                    return Some(k);
                }
            }
            k = k + 1;
        }
        None
    }

    /// Looks an item up by its identity string. Yields the record whose id the
    /// string names; `MalformedId` when the string is not a valid id, and
    /// `NotFound` when no record carries it.
    pub fn get_item(&self, item_id: String) -> (r: Result<Item, StoreError>)
        requires
            self.wf(),
        ensures
            match r {
                Ok(it) => valid_id_str(item_id@) && self.items@.contains(it) && it.id == Some(
                    digits_value(item_id@) as u64,
                ),
                Err(e) => (e == StoreError::MalformedId && !valid_id_str(item_id@)) || (e
                    == StoreError::NotFound && valid_id_str(item_id@) && !self.has_id(
                    digits_value(item_id@) as u64,
                )),
            },
    {
        let id = match parse_id(&item_id) {
            Ok(v) => v,
            Err(e) => {
                return Err(e);
            },
        };
        match self.find_by_id(id) {
            Some(i) => {
                let it = self.items[i].clone();
                proof {
                    assert(self.items@.contains(self.items@[i as int]));
                }
                Ok(it)
            },
            None => Err(StoreError::NotFound),
        }
    }

    /// Looks an item up by its name (the business key). Yields the first
    /// record with that name; `NotFound` when there is none.
    pub fn get_item_using_name(&self, item_name: String) -> (r: Result<Item, StoreError>)
        ensures
            match r {
                Ok(it) => exists|i: int|
                    #[trigger] first_name_match(self.items@, item_name@, i) && self.items@[i] == it,
                Err(e) => e == StoreError::NotFound && !has_name(self.items@, item_name@),
            },
    {
        let mut k: usize = 0;
        let n = self.items.len();
        while k < n
            invariant
                k <= n,
                n == self.items@.len(),
                forall|j: int| 0 <= j < k ==> (#[trigger] self.items@[j]).name@ != item_name@,
            decreases n - k,
        {
            if self.items[k].name.eq(&item_name) {
                let it = self.items[k].clone();
                proof {
                    assert(first_name_match(self.items@, item_name@, k as int));
                }
                return Ok(it);
            }
            k = k + 1;
        }
        Err(StoreError::NotFound)
    }

    /// Yields every item record, in store order.
    pub fn get_all_items(&self) -> (r: Result<Vec<Item>, StoreError>)
        ensures
            match r {
                Ok(v) => v@ == self.items@,
                Err(_) => false,
            },
    {
        let v = self.items.clone();
        proof {
            assert forall|i: int| 0 <= i < self.items@.len() implies v@[i] == self.items@[i] by {
                assert(vstd::pervasive::cloned::<Item>(self.items@[i], v@[i]));
            }
            assert(v@ =~= self.items@);
        }
        Ok(v)
    }

    /// Replaces the name, description and price of the record the identity
    /// string names, keeping its id, and yields the record as it stood before
    /// the update. `MalformedId` and `NotFound` as in `get_item`.
    pub fn update_item(&mut self, item_id: String, item: Item) -> (r: Result<Item, StoreError>)
        requires
            old(self).wf(),
        ensures
            final(self).wf(),
            final(self).next_id == old(self).next_id,
            match r {
                Ok(before) => {
                    &&& valid_id_str(item_id@)
                    &&& exists|i: int|
                        {
                            &&& 0 <= i < old(self).items@.len()
                            &&& #[trigger] old(self).items@[i] == before
                            &&& before.id == Some(digits_value(item_id@) as u64)
                            &&& final(self).items@ == old(self).items@.update(
                                i,
                                (Item {
                                    id: Some(digits_value(item_id@) as u64),
                                    name: item.name,
                                    description: item.description,
                                    price: item.price,
                                }),
                            )
                        }
                },
                Err(e) => final(self).items@ == old(self).items@ && ((e == StoreError::MalformedId
                    && !valid_id_str(item_id@)) || (e == StoreError::NotFound && valid_id_str(
                    item_id@,
                ) && !old(self).has_id(digits_value(item_id@) as u64))),
            },
    {
        let id = match parse_id(&item_id) {
            Ok(v) => v,
            Err(e) => {
                return Err(e);
            },
        };
        match self.find_by_id(id) {
            Some(i) => {
                let before = self.items.remove(i);
                let updated = Item {
                    id: Some(id),
                    name: item.name,
                    description: item.description,
                    price: item.price,
                };
                self.items.insert(i, updated);
                proof {
                    assert(self.items@ =~= old(self).items@.update(
                        i as int,
                        (Item {
                            id: Some(digits_value(item_id@) as u64),
                            name: item.name,
                            description: item.description,
                            price: item.price,
                        }),
                    ));
                }
                Ok(before)
            },
            None => Err(StoreError::NotFound),
        }
    }

    /// Removes the record the identity string names. Yields `true` when a
    /// record was removed and `false` when no record carried the id; the
    /// store is untouched in the latter case.
    pub fn delete_item(&mut self, item_id: String) -> (r: Result<bool, StoreError>)
        requires
            old(self).wf(),
        ensures
            final(self).wf(),
            final(self).next_id == old(self).next_id,
            match r {
                Ok(b) => {
                    &&& valid_id_str(item_id@)
                    &&& b ==> exists|i: int|
                        {
                            &&& 0 <= i < old(self).items@.len()
                            &&& (#[trigger] old(self).items@[i]).id == Some(
                                digits_value(item_id@) as u64,
                            )
                            &&& final(self).items@ == old(self).items@.remove(i)
                        }
                    &&& b ==> !final(self).has_id(digits_value(item_id@) as u64)
                    &&& !b ==> final(self).items@ == old(self).items@ && !old(self).has_id(
                        digits_value(item_id@) as u64,
                    )
                },
                Err(e) => e == StoreError::MalformedId && !valid_id_str(item_id@)
                    && final(self).items@ == old(self).items@,
            },
    {
        let id = match parse_id(&item_id) {
            Ok(v) => v,
            Err(e) => {
                return Err(e);
            },
        };
        match self.find_by_id(id) {
            Some(i) => {
                self.items.remove(i);
                proof {
                    assert forall|j: int|
                        0 <= j < self.items@.len() implies (#[trigger] self.items@[j]).id != Some(
                        id,
                    ) by {
                        if j < i {
                            assert(self.items@[j] == old(self).items@[j]);
                        } else {
                            assert(self.items@[j] == old(self).items@[j + 1]);
                        }
                    }
                }
                Ok(true)
            },
            None => Ok(false),
        }
    }

    /// Yields the items whose name or description holds the search text as a
    /// substring, ignoring ASCII case, in store order. An empty result is an
    /// answer, not an error.
    pub fn search_item(&self, item_name: String) -> (r: Result<Vec<Item>, StoreError>)
        ensures
            match r {
                Ok(v) => v@ == search_results(self.items@, item_name@),
                Err(_) => false,
            },
    {
        let mut out: Vec<Item> = Vec::new();
        let mut k: usize = 0;
        let n = self.items.len();
        proof {
            reveal(Seq::filter);
            assert(self.items@.take(0) =~= Seq::<Item>::empty());
        }
        while k < n
            invariant
                k <= n,
                n == self.items@.len(),
                out@ == search_results(self.items@.take(k as int), item_name@),
            decreases n - k,
        {
            let hit = contains_substring_ci(self.items[k].name.as_str(), item_name.as_str())
                || contains_substring_ci(self.items[k].description.as_str(), item_name.as_str());
            proof {
                reveal(Seq::filter);
                let t = self.items@.take(k + 1);
                assert(t.drop_last() =~= self.items@.take(k as int));
                assert(t.last() == self.items@[k as int]);
            }
            if hit {
                out.push(self.items[k].clone());
            }
            k = k + 1;
        }
        proof {
            assert(self.items@.take(n as int) =~= self.items@);
        }
        Ok(out)
    }
}

} // verus!
