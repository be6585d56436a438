use rust_typestate::password_manager::{PasswordManager, PasswordManagerBuilder, Unlocked};

fn sorted(mut v: Vec<(String, String)>) -> Vec<(String, String)> {
    v.sort();
    v
}

fn unlocked(manager: rust_typestate::password_manager::PasswordManager, master: &str) -> PasswordManager<Unlocked> {
    match manager.unlock(master) {
        Ok(u) => u,
        Err(_) => panic!("the master password should unlock the store"),
    }
}

#[test]
fn hunter2_scenario() {
    let build = || {
        PasswordManagerBuilder::new()
            .with_master_password("Hunter2")
            .with_account("a@example.com", "Bees123")
            .build()
    };
    let store = unlocked(build(), "Hunter2");
    assert_eq!(store.get_password("a@example.com"), Some(String::from("Bees123")));
    assert_eq!(store.get_password("nobody"), None);

    let still_locked = match build().unlock("wrong") {
        Ok(_) => panic!("a wrong master password must not unlock the store"),
        Err(locked) => locked,
    };
    let store = unlocked(still_locked, "Hunter2");
    assert_eq!(store.get_password("a@example.com"), Some(String::from("Bees123")));
}

#[test]
fn empty_master_password_unlocks_with_empty_candidate_only() {
    let manager = PasswordManagerBuilder::new().with_master_password("").build();
    let manager = match manager.unlock(" ") {
        Ok(_) => panic!("a blank is not the empty master password"),
        Err(locked) => locked,
    };
    assert!(manager.unlock("").is_ok());
}

#[test]
fn unlock_is_case_sensitive() {
    let manager = PasswordManagerBuilder::new().with_master_password("Hunter2").build();
    assert!(manager.unlock("hunter2").is_err());
}

#[test]
fn later_with_account_overwrites_earlier() {
    let store = unlocked(
        PasswordManagerBuilder::new()
            .with_account("me", "first")
            .with_master_password("m")
            .with_account("other", "x")
            .with_account("me", "second")
            .build(),
        "m",
    );
    assert_eq!(store.get_password("me"), Some(String::from("second")));
    assert_eq!(store.get_password("other"), Some(String::from("x")));
    assert_eq!(store.get_password("never"), None);
    assert_eq!(store.get_passwords().len(), 2);
}

#[test]
fn default_builder_is_empty() {
    let store = unlocked(
        PasswordManagerBuilder::default().with_master_password("m").build(),
        "m",
    );
    assert!(store.get_passwords().is_empty());
}

#[test]
fn insert_adds_and_overwrites() {
    let mut store = unlocked(
        PasswordManagerBuilder::new()
            .with_master_password("m")
            .with_account("a", "1")
            .build(),
        "m",
    );
    store.insert("b", "2");
    store.insert("a", "3");
    assert_eq!(store.get_password("a"), Some(String::from("3")));
    assert_eq!(store.get_password("b"), Some(String::from("2")));
    assert_eq!(
        sorted(store.get_passwords()),
        vec![
            (String::from("a"), String::from("3")),
            (String::from("b"), String::from("2")),
        ]
    );
}

#[test]
fn lock_then_unlock_keeps_entries() {
    let mut store = unlocked(
        PasswordManagerBuilder::new()
            .with_master_password("m")
            .with_account("a", "1")
            .build(),
        "m",
    );
    store.insert("b", "2");
    let before = sorted(store.get_passwords());
    let locked = store.lock();
    let locked = match locked.unlock("not m") {
        Ok(_) => panic!("a wrong master password must not unlock the store"),
        Err(l) => l,
    };
    let store = unlocked(locked, "m");
    assert_eq!(sorted(store.get_passwords()), before);
}

#[test]
fn get_passwords_returns_a_copy() {
    let store = unlocked(
        PasswordManagerBuilder::new()
            .with_master_password("m")
            .with_account("a", "1")
            .build(),
        "m",
    );
    let mut copy = store.get_passwords();
    copy[0].1 = String::from("changed");
    copy.push((String::from("z"), String::from("9")));
    assert_eq!(store.get_password("a"), Some(String::from("1")));
    assert_eq!(store.get_password("z"), None);
    assert_eq!(
        store.get_passwords(),
        vec![(String::from("a"), String::from("1"))]
    );
}
