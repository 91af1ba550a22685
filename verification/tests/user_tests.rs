use hotel_mgmt::models::User;
use hotel_mgmt::user_api::{
    get_all_users, get_user, get_user_using_email, hello, user_login, user_signup,
};
use hotel_mgmt::user_repo::UserRepo;

fn new_user(email: &str, password: &str) -> User {
    User {
        id: None,
        username: "guest".to_string(),
        email: email.to_string(),
        password: password.to_string(),
        total_booked_rooms: vec![],
        is_admin: false,
    }
}

#[test]
fn hello_greets() {
    assert_eq!(hello(), "Hello World");
}

#[test]
fn signup_stores_hash_never_plaintext() {
    let mut db = UserRepo::new();
    let res = user_signup(&mut db, new_user("a@b.com", "hunter2")).unwrap();
    assert!(res.success);
    assert_eq!(res.data.unwrap().inserted_id, 0);
    let stored = get_user(&db, "0".to_string()).unwrap().data.unwrap();
    assert_ne!(stored.password, "hunter2");
    assert_eq!(stored.password.len(), 60);
    assert!(stored.password.starts_with('$'));
    assert_eq!(stored.email, "a@b.com");
    assert!(stored.total_booked_rooms.is_empty());
}

#[test]
fn signup_rejects_empty_password() {
    let mut db = UserRepo::new();
    let res = user_signup(&mut db, new_user("a@b.com", "")).unwrap_err();
    assert!(!res.success);
    assert_eq!(res.message, "Password is required");
    assert_eq!(get_all_users(&db).unwrap().data.unwrap().len(), 0);
}

#[test]
fn signup_duplicate_email_creates_no_second_record() {
    let mut db = UserRepo::new();
    user_signup(&mut db, new_user("a@b.com", "hunter2")).unwrap();
    let before = get_all_users(&db).unwrap().data.unwrap().len();
    let second = user_signup(&mut db, new_user("a@b.com", "other")).unwrap_err();
    assert!(!second.success);
    assert_eq!(second.message, "User with this email already exists");
    assert_eq!(second.data.unwrap().email, "a@b.com");
    let after = get_all_users(&db).unwrap().data.unwrap().len();
    assert_eq!(before, after);
    assert_eq!(after, 1);
}

#[test]
fn login_with_correct_credentials_yields_decodable_token() {
    let mut db = UserRepo::new();
    user_signup(&mut db, new_user("a@b.com", "hunter2")).unwrap();
    let secret = "server-secret".to_string();
    let res = user_login(&db, "a@b.com".to_string(), "hunter2".to_string(), &secret).unwrap();
    assert!(res.success);
    assert_eq!(res.message, "User logged in successfully");
    let token = res.data.unwrap();

    let mut validation = jsonwebtoken::Validation::new(jsonwebtoken::Algorithm::HS256);
    validation.set_required_spec_claims::<&str>(&[]);
    validation.validate_exp = false;
    let decoded = jsonwebtoken::decode::<std::collections::BTreeMap<String, String>>(
        &token,
        &jsonwebtoken::DecodingKey::from_secret(secret.as_bytes()),
        &validation,
    )
    .unwrap();
    assert_eq!(decoded.claims.get("sub").unwrap(), "0");
    assert_eq!(decoded.claims.get("role").unwrap(), "false");
}

#[test]
fn login_with_wrong_password_is_invalid_credentials() {
    let mut db = UserRepo::new();
    user_signup(&mut db, new_user("a@b.com", "hunter2")).unwrap();
    let secret = "server-secret".to_string();
    let res = user_login(&db, "a@b.com".to_string(), "wrong".to_string(), &secret).unwrap_err();
    assert!(!res.success);
    assert_eq!(res.error.unwrap(), "Invalid password");
}

#[test]
fn login_with_unknown_email_is_user_not_found() {
    let db = UserRepo::new();
    let secret = "server-secret".to_string();
    let res = user_login(&db, "x@y.com".to_string(), "pw".to_string(), &secret).unwrap_err();
    assert!(!res.success);
    assert_eq!(res.error.unwrap(), "User not found");
}

#[test]
fn login_rejects_empty_credentials() {
    let db = UserRepo::new();
    let secret = "server-secret".to_string();
    let res = user_login(&db, String::new(), "pw".to_string(), &secret).unwrap_err();
    assert_eq!(res.message, "Email and password are required");
    let res2 = user_login(&db, "a@b.com".to_string(), String::new(), &secret).unwrap_err();
    assert_eq!(res2.message, "Email and password are required");
}

#[test]
fn login_against_a_non_bcrypt_stored_string_is_a_verify_failure() {
    // A record written around the signup path can hold a stored string that
    // is no bcrypt hash; login reports that apart from a wrong password.
    let db = UserRepo {
        users: vec![User {
            id: Some(0),
            username: "guest".to_string(),
            email: "a@b.com".to_string(),
            password: "plainly-stored".to_string(),
            total_booked_rooms: vec![],
            is_admin: false,
        }],
        next_id: 1,
    };
    let secret = "server-secret".to_string();
    let res = user_login(&db, "a@b.com".to_string(), "plainly-stored".to_string(), &secret)
        .unwrap_err();
    assert!(!res.success);
    assert_eq!(res.error.unwrap(), "Error verifying password");
}

#[test]
fn get_user_by_email_and_validations() {
    let mut db = UserRepo::new();
    user_signup(&mut db, new_user("a@b.com", "hunter2")).unwrap();
    let found = get_user_using_email(&db, "a@b.com".to_string()).unwrap();
    assert_eq!(found.data.unwrap().id, Some(0));
    let empty = get_user_using_email(&db, String::new()).unwrap_err();
    assert_eq!(empty.message, "Email is required");
    let missing = get_user_using_email(&db, "x@y.com".to_string()).unwrap_err();
    assert_eq!(missing.error.unwrap(), "User not found");
}

#[test]
fn get_user_rejects_empty_and_malformed_ids() {
    let db = UserRepo::new();
    let empty = get_user(&db, String::new()).unwrap_err();
    assert_eq!(empty.message, "Id is required");
    let malformed = get_user(&db, "12x".to_string()).unwrap_err();
    assert_eq!(malformed.error.unwrap(), "malformed id");
}
