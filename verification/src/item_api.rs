use vstd::prelude::*;
use crate::envelope::{error_says, response_fn, Message};
use crate::errors::StoreError;
use crate::ids::{digits_value, parse_id, valid_id_str};
use crate::item_repo::{first_name_match, has_name, search_results, ItemRepo};
use crate::models::{Item, ItemView};
use crate::outcomes::InsertOneResult;

verus! {

/// Creates an item unless its name is already taken: the handler looks the
/// business key up first and reports the existing record instead of
/// inserting a second one.
pub fn create_item(db: &mut ItemRepo, new_item: Item) -> (r: Result<
    Message<InsertOneResult>,
    Message<Item>,
>)
    requires
        old(db).wf(),
        old(db).next_id < u64::MAX,
    ensures
        final(db).wf(),
        match r {
            Ok(m) => {
                &&& !has_name(old(db).items@, new_item.name@)
                &&& m.success == true
                &&& m.message@ == "Item created successfully"@
                &&& m.data == Some((InsertOneResult { inserted_id: old(db).next_id }))
                &&& m.error is None
                &&& final(db).items@ == old(db).items@.push(
                    (Item {
                        id: Some(old(db).next_id),
                        name: new_item.name,
                        description: new_item.description,
                        price: new_item.price,
                    }),
                )
                &&& final(db).next_id == old(db).next_id + 1
            },
            Err(m) => {
                &&& has_name(old(db).items@, new_item.name@)
                &&& m.success == false
                &&& m.message@ == "Item with this name already exists"@
                &&& exists|i: int|
                    #[trigger] first_name_match(old(db).items@, new_item.name@, i) && m.data
                        == Some(old(db).items@[i])
                &&& m.error is None
                &&& final(db).items@ == old(db).items@
                &&& final(db).next_id == old(db).next_id
            },
        },
{
    match db.get_item_using_name(new_item.name.clone()) {
        Ok(existing_item) => {
            return Err(
                response_fn(
                    false,
                    "Item with this name already exists".to_owned(),
                    Some(existing_item),
                    String::new(),
                ),
            );
        },
        Err(_) => {},
    }
    match db.create_item(new_item) {
        Ok(insert_result) => Ok(
            response_fn(
                true,
                "Item created successfully".to_owned(),
                Some(insert_result),
                String::new(),
            ),
        ),
        Err(e) => Err(response_fn(false, "Server error".to_owned(), None, e.describe())),
    }
}

/// Lists every item.
pub fn get_all_items(db: &ItemRepo) -> (r: Result<Message<Vec<Item>>, Message<Vec<Item>>>)
    ensures
        match r {
            Ok(m) => {
                &&& m.success == true
                &&& m.message@ == "Items fetched successfully"@
                &&& m.data matches Some(v) && v@ == db.items@
                &&& m.error is None
            },
            Err(_) => false,
        },
{
    match db.get_all_items() {
        Ok(items) => Ok(
            response_fn(true, "Items fetched successfully".to_owned(), Some(items), String::new()),
        ),
        Err(e) => Err(response_fn(false, "Server error".to_owned(), None, e.describe())),
    }
}

/// Fetches one item by its identity string. An empty or malformed id is
/// rejected before and instead of any store access.
pub fn get_item(db: &ItemRepo, id: String) -> (r: Result<Message<Item>, Message<Item>>)
    requires
        db.wf(),
    ensures
        match r {
            Ok(m) => {
                &&& id@.len() > 0 && valid_id_str(id@)
                &&& m.success == true
                &&& m.message@ == "Item fetched successfully"@
                &&& m.data matches Some(it) && db.items@.contains(it) && it.id == Some(
                    digits_value(id@) as u64,
                )
                &&& m.error is None
            },
            Err(m) => {
                &&& m.success == false
                &&& m.data is None
                &&& (id@.len() == 0 ==> m.message@ == "Id is required"@ && m.error is None)
                &&& (id@.len() > 0 ==> m.message@ == "Server error"@ && ((!valid_id_str(id@)
                    && error_says(m.error, StoreError::MalformedId.spec_describe())) || (
                valid_id_str(id@) && !db.has_id(digits_value(id@) as u64)
                    && error_says(m.error, StoreError::NotFound.spec_describe()))))
            },
        },
{
    if id.as_str().is_empty() {
        return Err(response_fn(false, "Id is required".to_owned(), None, String::new()));
    }
    match db.get_item(id) {
        Ok(item) => Ok(
            response_fn(true, "Item fetched successfully".to_owned(), Some(item), String::new()),
        ),
        Err(e) => Err(response_fn(false, "Server error".to_owned(), None, e.describe())),
    }
}

/// Fetches one item by its name (the business key).
pub fn get_item_using_name(db: &ItemRepo, item_name: String) -> (r: Result<
    Message<Item>,
    Message<Item>,
>)
    ensures
        match r {
            Ok(m) => {
                &&& m.success == true
                &&& m.message@ == "Item fetched successfully"@
                &&& m.data matches Some(it) && exists|i: int|
                    #[trigger] first_name_match(db.items@, item_name@, i) && db.items@[i] == it
                &&& m.error is None
            },
            Err(m) => {
                &&& !has_name(db.items@, item_name@)
                &&& m.success == false
                &&& m.data is None
                &&& m.message@ == "Server error"@
                &&& error_says(m.error, StoreError::NotFound.spec_describe())
            },
        },
{
    match db.get_item_using_name(item_name) {
        Ok(item) => Ok(
            response_fn(true, "Item fetched successfully".to_owned(), Some(item), String::new()),
        ),
        Err(e) => Err(response_fn(false, "Server error".to_owned(), None, e.describe())),
    }
}

/// Replaces an item's name, description and price. The input is validated —
/// nonempty id, nonempty name, price above zero, nonempty description, in
/// that order — before the store is touched at all; on any failure the store
/// is left exactly as it was.
pub fn update_item(db: &mut ItemRepo, id: String, item_detail: Item) -> (r: Result<
    Message<Item>,
    Message<Item>,
>)
    requires
        old(db).wf(),
    ensures
        final(db).wf(),
        final(db).next_id == old(db).next_id,
        match r {
            Ok(m) => {
                &&& id@.len() > 0 && item_detail.name@.len() > 0 && item_detail.price > 0
                    && item_detail.description@.len() > 0
                &&& valid_id_str(id@)
                &&& m.success == true
                &&& m.message@ == "Item updated successfully"@
                &&& m.error is None
                &&& exists|i: int|
                    0 <= i < old(db).items@.len() && (#[trigger] old(db).items@[i]).id == Some(
                        digits_value(id@) as u64,
                    ) && final(db).items@ == old(db).items@.update(
                        i,
                        (Item {
                            id: Some(digits_value(id@) as u64),
                            name: item_detail.name,
                            description: item_detail.description,
                            price: item_detail.price,
                        }),
                    )
                &&& m.data matches Some(it) && it@ == (ItemView {
                    id: Some(digits_value(id@) as u64),
                    name: item_detail.name@,
                    description: item_detail.description@,
                    price: item_detail.price,
                })
            },
            Err(m) => {
                &&& final(db).items@ == old(db).items@
                &&& m.success == false
                &&& m.data is None
                &&& (id@.len() == 0 ==> m.message@ == "Id is required"@ && m.error is None)
                &&& (id@.len() > 0 && item_detail.name@.len() == 0 ==> m.message@
                    == "Item name is required"@ && m.error is None)
                &&& (id@.len() > 0 && item_detail.name@.len() > 0 && item_detail.price == 0
                    ==> m.message@ == "Item price should be greater than zero"@ && m.error is None)
                &&& (id@.len() > 0 && item_detail.name@.len() > 0 && item_detail.price > 0
                    && item_detail.description@.len() == 0 ==> m.message@
                    == "Item description is required"@ && m.error is None)
                &&& (id@.len() > 0 && item_detail.name@.len() > 0 && item_detail.price > 0
                    && item_detail.description@.len() > 0 ==> m.message@ == "Item not found"@ && ((
                !valid_id_str(id@) && error_says(m.error, StoreError::MalformedId.spec_describe())) || (valid_id_str(id@) && !old(
                    db,
                ).has_id(digits_value(id@) as u64) && error_says(m.error, StoreError::NotFound.spec_describe()))))
            },
        },
{
    if id.as_str().is_empty() {
        return Err(response_fn(false, "Id is required".to_owned(), None, String::new()));
    }
    if item_detail.name.as_str().is_empty() {
        return Err(response_fn(false, "Item name is required".to_owned(), None, String::new()));
    }
    if item_detail.price == 0 {
        return Err(
            response_fn(
                false,
                "Item price should be greater than zero".to_owned(),
                None,
                String::new(),
            ),
        );
    }
    if item_detail.description.as_str().is_empty() {
        return Err(
            response_fn(false, "Item description is required".to_owned(), None, String::new()),
        );
    }
    let idv = match parse_id(&id) {
        Ok(v) => v,
        Err(e) => {
            return Err(response_fn(false, "Item not found".to_owned(), None, e.describe()));
        },
    };
    let updated = Item {
        id: Some(idv),
        name: item_detail.name.clone(),
        description: item_detail.description.clone(),
        price: item_detail.price,
    };
    match db.update_item(id, item_detail) {
        Ok(_before) => Ok(
            response_fn(true, "Item updated successfully".to_owned(), Some(updated), String::new()),
        ),
        Err(e) => Err(response_fn(false, "Item not found".to_owned(), None, e.describe())),
    }
}

/// Deletes an item by its identity string. A missing record is reported as
/// `Item not found`, never raised as a fault, and once a record is deleted
/// its id no longer resolves — a second deletion of the same id reports
/// `Item not found` again.
pub fn delete_item(db: &mut ItemRepo, id: String) -> (r: Result<Message<Item>, Message<Item>>)
    requires
        old(db).wf(),
    ensures
        final(db).wf(),
        final(db).next_id == old(db).next_id,
        match r {
            Ok(m) => {
                &&& id@.len() > 0 && valid_id_str(id@)
                &&& m.success == true
                &&& m.message@ == "Item deleted successfully"@
                &&& m.error is None
                &&& m.data matches Some(it) && old(db).items@.contains(it) && it.id == Some(
                    digits_value(id@) as u64,
                )
                &&& exists|i: int|
                    0 <= i < old(db).items@.len() && (#[trigger] old(db).items@[i]).id == Some(
                        digits_value(id@) as u64,
                    ) && final(db).items@ == old(db).items@.remove(i)
                &&& !final(db).has_id(digits_value(id@) as u64)
            },
            Err(m) => {
                &&& final(db).items@ == old(db).items@
                &&& m.success == false
                &&& m.data is None
                &&& (id@.len() == 0 ==> m.message@ == "Id is required"@ && m.error is None)
                &&& (id@.len() > 0 ==> m.message@ == "Item not found"@ && ((!valid_id_str(id@)
                    && error_says(m.error, StoreError::MalformedId.spec_describe())) || (
                valid_id_str(id@) && !old(db).has_id(digits_value(id@) as u64)
                    && error_says(m.error, StoreError::NotFound.spec_describe()))))
            },
        },
{
    if id.as_str().is_empty() {
        return Err(response_fn(false, "Id is required".to_owned(), None, String::new()));
    }
    let item = match db.get_item(id.clone()) {
        Ok(item) => item,
        Err(e) => {
            return Err(response_fn(false, "Item not found".to_owned(), None, e.describe()));
        },
    };
    match db.delete_item(id) {
        Ok(_) => Ok(
            response_fn(true, "Item deleted successfully".to_owned(), Some(item), String::new()),
        ),
        Err(e) => Err(response_fn(false, "Item not found".to_owned(), None, e.describe())),
    }
}

/// Searches the items for a case-insensitive substring of name or
/// description. Matches are reported with success; an empty result is an
/// answer with `success` false, not an error.
pub fn search_item(db: &ItemRepo, search_data: String) -> (r: Result<
    Message<Vec<Item>>,
    Message<Vec<Item>>,
>)
    ensures
        match r {
            Ok(m) => {
                &&& (search_results(db.items@, search_data@).len() > 0 ==> m.success == true
                    && m.message@ == "Search results fetched successfully"@
                    && (m.data matches Some(v) && v@ == search_results(db.items@, search_data@))
                    && m.error is None)
                &&& (search_results(db.items@, search_data@).len() == 0 ==> m.success == false
                    && m.message@ == "No items matched the search"@ && m.data is None
                    && m.error is None)
            },
            Err(_) => false,
        },
{
    match db.search_item(search_data) {
        Ok(items) => {
            if items.len() > 0 {
                Ok(
                    response_fn(
                        true,
                        "Search results fetched successfully".to_owned(),
                        Some(items),
                        String::new(),
                    ),
                )
            } else {
                Ok(
                    response_fn(
                        false,
                        "No items matched the search".to_owned(),
                        None,
                        String::new(),
                    ),
                )
            }
        },
        Err(e) => Err(response_fn(false, "Server error".to_owned(), None, e.describe())),
    }
}

} // verus!
