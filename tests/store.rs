use codex_switcher::settings::{
    get_notification_settings, reset_notification_history, update_notification_settings,
    validate_settings,
};
use codex_switcher::storage::{
    add_account, get_account, get_accounts_file, get_active_account, get_config_dir,
    remove_account, set_active_account, touch_account, update_account_metadata,
    update_last_notifications, StoreError,
};
use codex_switcher::types::{
    AccountInfo, AccountsStore, AuthMode, LastNotifications, NotificationSettings, StoredAccount,
};

fn store_with(names: &[&str]) -> (AccountsStore, Vec<String>) {
    let mut store = AccountsStore::default();
    let mut ids = Vec::new();
    for n in names {
        let a = StoredAccount::new_api_key(n.to_string(), "sk".to_string());
        ids.push(a.id.clone());
        add_account(&mut store, a).unwrap();
    }
    (store, ids)
}

#[test]
fn paths_under_home() {
    assert_eq!(get_config_dir(Some("/home/u")).unwrap(), "/home/u/.codex-switcher");
    assert_eq!(get_accounts_file(Some("/home/u")).unwrap(), "/home/u/.codex-switcher/accounts.json");
    assert!(matches!(get_accounts_file(None), Err(StoreError::NoHomeDir)));
}

#[test]
fn first_account_becomes_active() {
    let (store, ids) = store_with(&["a", "b"]);
    assert_eq!(store.version, 2);
    assert_eq!(store.accounts.len(), 2);
    assert_eq!(store.active_account_id.as_deref(), Some(ids[0].as_str()));
}

#[test]
fn duplicate_name_is_refused() {
    let (mut store, _) = store_with(&["a"]);
    let dup = StoredAccount::new_api_key("a".to_string(), "k".to_string());
    match add_account(&mut store, dup) {
        Err(StoreError::DuplicateName { name }) => assert_eq!(name, "a"),
        other => panic!("unexpected {:?}", other),
    }
    assert_eq!(store.accounts.len(), 1);
}

#[test]
fn removing_active_account_moves_activity() {
    let (mut store, ids) = store_with(&["a", "b", "c"]);
    remove_account(&mut store, &ids[0]).unwrap();
    assert_eq!(store.accounts.len(), 2);
    assert_eq!(store.active_account_id.as_deref(), Some(ids[1].as_str()));
    remove_account(&mut store, &ids[2]).unwrap();
    assert_eq!(store.active_account_id.as_deref(), Some(ids[1].as_str()));
    remove_account(&mut store, &ids[1]).unwrap();
    assert_eq!(store.active_account_id, None);
    assert!(matches!(remove_account(&mut store, "nope"), Err(StoreError::NotFound { .. })));
}

#[test]
fn active_account_is_set_and_read() {
    let (mut store, ids) = store_with(&["a", "b"]);
    set_active_account(&mut store, &ids[1]).unwrap();
    assert!(matches!(set_active_account(&mut store, "zz"), Err(StoreError::NotFound { .. })));
    let active = get_active_account(store.clone()).unwrap();
    assert_eq!(active.name, "b");
    let info = AccountInfo::from_stored(&active, store.active_account_id.as_deref());
    assert!(info.is_active);
    assert_eq!(info.auth_mode, AuthMode::ApiKey);
    assert_eq!(get_account(store.clone(), &ids[0]).unwrap().name, "a");
    assert!(get_account(store, "zz").is_none());
}

#[test]
fn metadata_update_rules() {
    let (mut store, ids) = store_with(&["a", "b"]);
    assert!(matches!(
        update_account_metadata(&mut store, &ids[0], Some("b".to_string()), None, None),
        Err(StoreError::DuplicateName { .. })
    ));
    update_account_metadata(&mut store, &ids[0], Some("a".to_string()), Some("e@x".to_string()), None).unwrap();
    update_account_metadata(&mut store, &ids[0], Some("c".to_string()), None, Some("pro".to_string())).unwrap();
    assert_eq!(store.accounts[0].name, "c");
    assert_eq!(store.accounts[0].email.as_deref(), Some("e@x"));
    assert_eq!(store.accounts[0].plan_type.as_deref(), Some("pro"));
    assert!(matches!(
        update_account_metadata(&mut store, "zz", None, None, None),
        Err(StoreError::NotFound { .. })
    ));
}

#[test]
fn touch_and_notification_history() {
    let (mut store, ids) = store_with(&["a"]);
    assert!(touch_account(&mut store, &ids[0], 1234));
    assert_eq!(store.accounts[0].last_used_at, Some(1234));
    assert!(!touch_account(&mut store, "zz", 1));
    let last = LastNotifications { primary: Some(5), secondary: None, credits: Some(6) };
    assert!(update_last_notifications(&mut store, &ids[0], &last));
    assert_eq!(store.accounts[0].last_notifications, last);
    reset_notification_history(&mut store, &ids[0]).unwrap();
    assert_eq!(store.accounts[0].last_notifications, LastNotifications::default());
    assert_eq!(reset_notification_history(&mut store, "zz"), Err("Account not found: zz".to_string()));
}

#[test]
fn settings_validation() {
    let ok = NotificationSettings::default();
    assert_eq!(ok.primary_threshold, Some(80));
    assert_eq!(ok.credits_threshold, Some(20));
    assert_eq!(ok.min_interval_minutes, 60);
    assert!(validate_settings(&ok).is_ok());
    let over = NotificationSettings { primary_threshold: Some(101), ..ok };
    assert_eq!(validate_settings(&over), Err("primary_threshold must be between 0 and 100".to_string()));
    let over = NotificationSettings { secondary_threshold: Some(200), ..ok };
    assert_eq!(validate_settings(&over), Err("secondary_threshold must be between 0 and 100".to_string()));
    let over = NotificationSettings { credits_threshold: Some(255), ..ok };
    assert_eq!(validate_settings(&over), Err("credits_threshold must be between 0 and 100".to_string()));
    let zero = NotificationSettings { min_interval_minutes: 0, ..ok };
    assert_eq!(validate_settings(&zero), Err("min_interval_minutes must be at least 1".to_string()));
    let edge = NotificationSettings { primary_threshold: Some(100), min_interval_minutes: 1, ..ok };
    assert!(validate_settings(&edge).is_ok());
}

#[test]
fn settings_are_stored_per_account() {
    let (mut store, ids) = store_with(&["a"]);
    let s = NotificationSettings { enabled: true, ..NotificationSettings::default() };
    update_notification_settings(&mut store, &ids[0], s).unwrap();
    assert_eq!(get_notification_settings(&store, &ids[0]).unwrap(), s);
    assert_eq!(get_notification_settings(&store, "x"), Err("Account not found: x".to_string()));
    let bad = NotificationSettings { min_interval_minutes: 0, ..s };
    assert!(update_notification_settings(&mut store, &ids[0], bad).is_err());
}
