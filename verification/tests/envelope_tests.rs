use hotel_mgmt::envelope::response_fn;
use hotel_mgmt::models::{default_booked, default_price, default_role, default_username};

#[test]
fn response_fn_drops_an_empty_error() {
    let m = response_fn(true, "done".to_string(), Some(7u32), String::new());
    assert!(m.success);
    assert_eq!(m.message, "done");
    assert_eq!(m.data, Some(7));
    assert!(m.error.is_none());
}

#[test]
fn response_fn_keeps_a_nonempty_error() {
    let m = response_fn(false, "failed".to_string(), None::<u32>, "boom".to_string());
    assert!(!m.success);
    assert_eq!(m.message, "failed");
    assert!(m.data.is_none());
    assert_eq!(m.error.unwrap(), "boom");
}

#[test]
fn model_defaults() {
    assert_eq!(default_price(), 0);
    assert!(!default_booked());
    assert!(!default_role());
    assert_eq!(default_username(), "user");
}
