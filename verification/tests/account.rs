use bridge_daemon::account::{Account, Accounts};

#[test]
fn test_get_free_account_id() {
    let mut accounts = Accounts::new();

    // empty
    assert_eq!(accounts.get_free_account_id(), 0);

    // add accounts
    accounts.add(
        "matrix".into(),
        "test-user1".into(),
        "test-password1".into(),
    );
    // -> accounts: 0
    assert_eq!(accounts.get_free_account_id(), 1);
    accounts.add(
        "matrix".into(),
        "test-user2".into(),
        "test-password2".into(),
    );
    // -> accounts: 0, 1
    assert_eq!(accounts.get_free_account_id(), 2);
    accounts.add(
        "matrix".into(),
        "test-user3".into(),
        "test-password3".into(),
    );
    // -> accounts: 0, 1, 2
    assert_eq!(accounts.get_free_account_id(), 3);

    // remove first and middle account
    accounts.remove(&0);
    // -> accounts: 1, 2
    assert_eq!(accounts.get_free_account_id(), 0);
    accounts.remove(&1);
    // -> accounts: 2
    assert_eq!(accounts.get_free_account_id(), 0);

    // add accounts again
    accounts.add(
        "matrix".into(),
        "test-user1".into(),
        "test-password1".into(),
    );
    // -> accounts: 0, 2
    assert_eq!(accounts.get_free_account_id(), 1);
    accounts.add(
        "matrix".into(),
        "test-user2".into(),
        "test-password2".into(),
    );
    // -> accounts: 0, 1, 2
    assert_eq!(accounts.get_free_account_id(), 3);

    // remove middle and first accounts
    accounts.remove(&1);
    // -> accounts: 0, 2
    assert_eq!(accounts.get_free_account_id(), 1);
    accounts.remove(&0);
    // -> accounts: 2
    assert_eq!(accounts.get_free_account_id(), 0);
}

#[test]
fn add_returns_the_smallest_free_id() {
    let mut accounts = Accounts::new();
    assert_eq!(accounts.add("matrix".into(), "a".into(), "pa".into()), 0);
    assert_eq!(accounts.add("matrix".into(), "b".into(), "pb".into()), 1);
    assert_eq!(accounts.add("matrix".into(), "c".into(), "pc".into()), 2);
    accounts.remove(&0);
    accounts.remove(&1);
    assert_eq!(accounts.add("matrix".into(), "d".into(), "pd".into()), 0);
    accounts.remove(&0);
    assert_eq!(accounts.add("matrix".into(), "e".into(), "pe".into()), 0);
}

#[test]
fn remove_of_an_absent_id_changes_nothing() {
    let mut accounts = Accounts::new();
    accounts.add("matrix".into(), "a".into(), "pa".into());
    accounts.remove(&7);
    assert_eq!(
        accounts.list(),
        vec![Account::new(0, "matrix".into(), "a".into(), "pa".into())]
    );
}

#[test]
fn list_is_in_the_order_of_the_ids() {
    let mut accounts = Accounts::new();
    accounts.load(vec![
        Account::new(9, "matrix".into(), "nine".into(), "p9".into()),
        Account::new(2, "matrix".into(), "two".into(), "p2".into()),
        Account::new(40, "matrix".into(), "forty".into(), "p40".into()),
        Account::new(0, "matrix".into(), "zero".into(), "p0".into()),
    ]);
    let ids: Vec<u32> = accounts.list().iter().map(|account| account.id).collect();
    assert_eq!(ids, vec![0, 2, 9, 40]);
    assert_eq!(accounts.get_free_account_id(), 1);
}

#[test]
fn load_lets_a_later_account_replace_an_earlier_one() {
    let mut accounts = Accounts::new();
    accounts.load(vec![
        Account::new(3, "matrix".into(), "first".into(), "p".into()),
        Account::new(3, "matrix".into(), "second".into(), "q".into()),
    ]);
    assert_eq!(
        accounts.list(),
        vec![Account::new(3, "matrix".into(), "second".into(), "q".into())]
    );
}

#[test]
fn a_fresh_registry_loaded_from_a_listing_lists_the_same() {
    let mut accounts = Accounts::new();
    accounts.add("matrix".into(), "user1@example.org".into(), "secret1".into());
    accounts.add("matrix".into(), "user2@example.org".into(), "secret2".into());
    let saved = accounts.list();

    let mut restored = Accounts::new();
    restored.load(saved.clone());
    assert_eq!(restored.list(), saved);
    assert_eq!(restored.list(), accounts.list());
}

#[test]
fn an_account_reports_the_fixed_status() {
    let account = Account::new(0, "matrix".into(), "a".into(), "pa".into());
    assert_eq!(account.get_status(), "offline");
}
