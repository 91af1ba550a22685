use hotel_mgmt::item_api::{
    create_item, delete_item, get_all_items, get_item, get_item_using_name, search_item,
    update_item,
};
use hotel_mgmt::item_repo::ItemRepo;
use hotel_mgmt::models::Item;

fn item(name: &str, description: &str, price: u32) -> Item {
    Item { id: None, name: name.to_string(), description: description.to_string(), price }
}

#[test]
fn create_and_get_item() {
    let mut db = ItemRepo::new();
    let created = create_item(&mut db, item("Coffee", "hot drink", 5)).unwrap();
    assert!(created.success);
    assert_eq!(created.message, "Item created successfully");
    assert_eq!(created.data.unwrap().inserted_id, 0);

    let fetched = get_item(&db, "0".to_string()).unwrap();
    assert!(fetched.success);
    let it = fetched.data.unwrap();
    assert_eq!(it.name, "Coffee");
    assert_eq!(it.price, 5);
    assert_eq!(it.id, Some(0));

    let by_name = get_item_using_name(&db, "Coffee".to_string()).unwrap();
    assert_eq!(by_name.data.unwrap().description, "hot drink");
}

#[test]
fn create_duplicate_name_reports_existing() {
    let mut db = ItemRepo::new();
    create_item(&mut db, item("Coffee", "hot drink", 5)).unwrap();
    let second = create_item(&mut db, item("Coffee", "another", 9)).unwrap_err();
    assert!(!second.success);
    assert_eq!(second.message, "Item with this name already exists");
    assert_eq!(second.data.unwrap().description, "hot drink");
    let all = get_all_items(&db).unwrap().data.unwrap();
    assert_eq!(all.len(), 1);
}

#[test]
fn get_item_rejects_empty_and_malformed_ids() {
    let db = ItemRepo::new();
    let empty = get_item(&db, String::new()).unwrap_err();
    assert_eq!(empty.message, "Id is required");
    let malformed = get_item(&db, "abc".to_string()).unwrap_err();
    assert_eq!(malformed.error.unwrap(), "malformed id");
    let too_big = get_item(&db, "99999999999999999999999".to_string()).unwrap_err();
    assert_eq!(too_big.error.unwrap(), "malformed id");
    let missing = get_item(&db, "7".to_string()).unwrap_err();
    assert_eq!(missing.error.unwrap(), "record not found");
}

#[test]
fn update_item_rejects_bad_input_before_store() {
    let mut db = ItemRepo::new();
    create_item(&mut db, item("Coffee", "hot drink", 5)).unwrap();

    let no_id = update_item(&mut db, String::new(), item("Coffee", "hot drink", 5)).unwrap_err();
    assert_eq!(no_id.message, "Id is required");

    let no_name = update_item(&mut db, "0".to_string(), item("", "hot drink", 5)).unwrap_err();
    assert_eq!(no_name.message, "Item name is required");

    let zero_price = update_item(&mut db, "0".to_string(), item("Coffee", "hot drink", 0))
        .unwrap_err();
    assert_eq!(zero_price.message, "Item price should be greater than zero");

    let no_desc = update_item(&mut db, "0".to_string(), item("Coffee", "", 5)).unwrap_err();
    assert_eq!(no_desc.message, "Item description is required");

    // The store is exactly as it was after every rejection.
    let all = get_all_items(&db).unwrap().data.unwrap();
    assert_eq!(all.len(), 1);
    assert_eq!(all[0].name, "Coffee");
    assert_eq!(all[0].description, "hot drink");
    assert_eq!(all[0].price, 5);
}

#[test]
fn update_item_replaces_fields_and_keeps_id() {
    let mut db = ItemRepo::new();
    create_item(&mut db, item("Coffee", "hot drink", 5)).unwrap();
    let updated = update_item(&mut db, "0".to_string(), item("Mocha", "sweet drink", 7)).unwrap();
    assert!(updated.success);
    let it = updated.data.unwrap();
    assert_eq!(it.id, Some(0));
    assert_eq!(it.name, "Mocha");
    assert_eq!(it.description, "sweet drink");
    assert_eq!(it.price, 7);
    let missing = update_item(&mut db, "3".to_string(), item("Tea", "leaves", 2)).unwrap_err();
    assert_eq!(missing.message, "Item not found");
}

#[test]
fn delete_missing_item_reports_not_found() {
    let mut db = ItemRepo::new();
    let gone = delete_item(&mut db, "42".to_string()).unwrap_err();
    assert!(!gone.success);
    assert_eq!(gone.message, "Item not found");
}

#[test]
fn delete_twice_reports_not_found_the_second_time() {
    let mut db = ItemRepo::new();
    create_item(&mut db, item("Coffee", "hot drink", 5)).unwrap();
    let first = delete_item(&mut db, "0".to_string()).unwrap();
    assert!(first.success);
    assert_eq!(first.message, "Item deleted successfully");
    assert_eq!(first.data.unwrap().name, "Coffee");
    let second = delete_item(&mut db, "0".to_string()).unwrap_err();
    assert!(!second.success);
    assert_eq!(second.message, "Item not found");
    assert_eq!(second.error.unwrap(), "record not found");
}

#[test]
fn search_matches_name_and_description_case_insensitively() {
    let mut db = ItemRepo::new();
    create_item(&mut db, item("Coffee", "black and strong", 5)).unwrap();
    create_item(&mut db, item("Latte", "hot coffee drink", 6)).unwrap();
    create_item(&mut db, item("Tea", "green leaves", 3)).unwrap();

    let found = search_item(&db, "cof".to_string()).unwrap();
    assert!(found.success);
    let hits = found.data.unwrap();
    assert_eq!(hits.len(), 2);
    assert_eq!(hits[0].name, "Coffee");
    assert_eq!(hits[1].name, "Latte");

    let upper = search_item(&db, "COF".to_string()).unwrap();
    assert_eq!(upper.data.unwrap().len(), 2);
}

#[test]
fn search_with_no_match_is_an_answer_not_an_error() {
    let mut db = ItemRepo::new();
    create_item(&mut db, item("Tea", "green leaves", 3)).unwrap();
    let none = search_item(&db, "cof".to_string()).unwrap();
    assert!(!none.success);
    assert_eq!(none.message, "No items matched the search");
    assert!(none.data.is_none());
}

#[test]
fn search_empty_pattern_matches_everything() {
    let mut db = ItemRepo::new();
    create_item(&mut db, item("Tea", "green leaves", 3)).unwrap();
    create_item(&mut db, item("Coffee", "hot", 5)).unwrap();
    let all = search_item(&db, String::new()).unwrap();
    assert_eq!(all.data.unwrap().len(), 2);
}
