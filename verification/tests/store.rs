use auth_validator::error::ErrorMessage;
use auth_validator::models::{User, UserRole};
use auth_validator::store::{position_of_email, position_of_id, Users};

fn user(id: &str, email: &str) -> User {
    User {
        id: id.to_string(),
        name: "Ann".to_string(),
        email: email.to_string(),
        password: "hash".to_string(),
        role: UserRole::User,
        verified: false,
        created_at: None,
        updated_at: None,
    }
}

#[test]
fn a_new_store_is_empty() {
    let users = Users::new();
    assert_eq!(users.len(), 0);
    assert!(users.find_by_email("a@x.com").is_none());
    assert!(users.find_by_id("u1").is_none());
}

#[test]
fn a_saved_identity_is_found_with_its_moments() {
    let mut users = Users::new();
    assert_eq!(users.save(user("u1", "a@x.com"), 77), Ok(()));
    assert_eq!(users.len(), 1);
    let found = users.find_by_email("a@x.com").unwrap();
    assert_eq!(found.id, "u1");
    assert_eq!(found.created_at, Some(77));
    assert_eq!(found.updated_at, Some(77));
    assert_eq!(users.find_by_id("u1").unwrap().get_email(), "a@x.com");
    assert!(users.find_by_id("u2").is_none());
    assert!(users.find_by_email("A@x.com").is_none());
}

#[test]
fn an_address_in_use_is_refused() {
    let mut users = Users::new();
    users.save(user("u1", "a@x.com"), 1).unwrap();
    assert_eq!(users.save(user("u2", "a@x.com"), 2), Err(ErrorMessage::EmailExists));
    assert_eq!(users.len(), 1);
    assert_eq!(users.find_by_email("a@x.com").unwrap().id, "u1");
    assert_eq!(users.save(user("u1", "a@x.com"), 3), Err(ErrorMessage::EmailExists));
    assert_eq!(users.find_by_id("u1").unwrap().updated_at, Some(1));
}

#[test]
fn an_id_in_use_is_written_anew() {
    let mut users = Users::new();
    users.save(user("u1", "a@x.com"), 1).unwrap();
    users.save(user("u2", "b@x.com"), 2).unwrap();
    assert_eq!(users.save(user("u1", "c@x.com"), 3), Ok(()));
    assert_eq!(users.len(), 2);
    assert_eq!(users.find_by_id("u1").unwrap().email, "c@x.com");
    assert!(users.find_by_email("a@x.com").is_none());
    assert_eq!(users.page(1, 10)[0].id, "u1");
}

#[test]
fn the_moment_of_making_is_kept() {
    let mut users = Users::new();
    let mut early = user("u1", "a@x.com");
    early.created_at = Some(5);
    users.save(early, 9).unwrap();
    let found = users.find_by_id("u1").unwrap();
    assert_eq!(found.created_at, Some(5));
    assert_eq!(found.updated_at, Some(9));
}

#[test]
fn updates_change_one_field_of_one_identity() {
    let mut users = Users::new();
    users.save(user("u1", "a@x.com"), 1).unwrap();
    users.save(user("u2", "b@x.com"), 2).unwrap();
    let renamed = users.update_name("u2", "Bob").unwrap();
    assert_eq!(renamed.name, "Bob");
    assert_eq!(renamed.email, "b@x.com");
    assert_eq!(users.find_by_id("u2").unwrap().name, "Bob");
    assert_eq!(users.find_by_id("u1").unwrap().name, "Ann");
    let promoted = users.update_role("u1", UserRole::Admin).unwrap();
    assert_eq!(promoted.role, UserRole::Admin);
    assert_eq!(users.find_by_id("u2").unwrap().role, UserRole::User);
    let changed = users.update_password("u1", "new-hash").unwrap();
    assert_eq!(changed.password, "new-hash");
    assert_eq!(changed.role, UserRole::Admin);
    assert_eq!(users.find_by_id("u2").unwrap().password, "hash");
    assert_eq!(users.len(), 2);
}

#[test]
fn updates_of_an_unknown_id_change_nothing() {
    let mut users = Users::new();
    users.save(user("u1", "a@x.com"), 1).unwrap();
    assert!(users.update_name("u9", "Bob").is_none());
    assert!(users.update_role("u9", UserRole::Admin).is_none());
    assert!(users.update_password("u9", "x").is_none());
    let kept = users.find_by_id("u1").unwrap();
    assert_eq!(kept.name, "Ann");
    assert_eq!(kept.role, UserRole::User);
    assert_eq!(kept.password, "hash");
}

#[test]
fn pages_are_cut_in_order() {
    let mut users = Users::new();
    for i in 0..7 {
        users.save(user(&format!("u{}", i), &format!("{}@x.com", i)), i).unwrap();
    }
    let ids = |page: Vec<User>| page.iter().map(|u| u.id.clone()).collect::<Vec<String>>();
    assert_eq!(ids(users.page(1, 3)), vec!["u0", "u1", "u2"]);
    assert_eq!(ids(users.page(2, 3)), vec!["u3", "u4", "u5"]);
    assert_eq!(ids(users.page(3, 3)), vec!["u6"]);
    assert!(users.page(4, 3).is_empty());
    assert_eq!(users.page(1, 50).len(), 7);
    assert!(users.page(1, 0).is_empty());
    assert!(users.page(usize::MAX, usize::MAX).is_empty());
    assert_eq!(users.page(1, usize::MAX).len(), 7);
}

#[test]
fn positions_are_of_the_first_match() {
    let list = vec![user("u1", "a@x.com"), user("u2", "b@x.com")];
    assert_eq!(position_of_email(&list, "b@x.com"), Some(1));
    assert_eq!(position_of_email(&list, "c@x.com"), None);
    assert_eq!(position_of_id(&list, "u1"), Some(0));
    assert_eq!(position_of_id(&list, ""), None);
}
