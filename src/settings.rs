//! Per-account notification settings: their validation and where the store
//! keeps them.
use vstd::prelude::*;
use vstd::string::StringExecFns;
use crate::storage::{find_by_id, first_with_id, has_id};
use crate::types::{AccountsStore, LastNotifications, NotificationSettings, StoredAccount};

verus! {

/// The first rule that the settings break, as the user is told it; `None`
/// where they break none. Thresholds are percentages, and notifications are
/// at least a minute apart.
pub open spec fn settings_problem(s: NotificationSettings) -> Option<Seq<char>> {
    if s.primary_threshold matches Some(t) && t > 100 {
        Some("primary_threshold must be between 0 and 100"@)
    } else if s.secondary_threshold matches Some(t) && t > 100 {
        Some("secondary_threshold must be between 0 and 100"@)
    } else if s.credits_threshold matches Some(t) && t > 100 {
        Some("credits_threshold must be between 0 and 100"@)
    } else if s.min_interval_minutes < 1 {
        Some("min_interval_minutes must be at least 1"@)
    } else {
        None
    }
}

/// Checks notification settings.
pub fn validate_settings(settings: &NotificationSettings) -> (r: Result<(), String>)
    ensures
        match settings_problem(*settings) {
            None => r is Ok,
            Some(m) => r matches Err(e) && e@ == m,
        },
{
    if let Some(threshold) = settings.primary_threshold {
        if threshold > 100 {
            return Err(String::from_str("primary_threshold must be between 0 and 100"));
        }
    }
    if let Some(threshold) = settings.secondary_threshold {
        if threshold > 100 {
            return Err(String::from_str("secondary_threshold must be between 0 and 100"));
        }
    }
    if let Some(threshold) = settings.credits_threshold {
        if threshold > 100 {
            return Err(String::from_str("credits_threshold must be between 0 and 100"));
        }
    }
    if settings.min_interval_minutes < 1 {
        return Err(String::from_str("min_interval_minutes must be at least 1"));
    }
    Ok(())
}

/// The text of a missing account.
pub open spec fn not_found_text(id: Seq<char>) -> Seq<char> {
    "Account not found: "@ + id
}

fn not_found(account_id: &str) -> (r: String)
    ensures
        r@ == not_found_text(account_id@),
{
    let mut t = String::from_str("Account not found: ");
    t.append(account_id);
    t
}

/// Replaces the notification settings of the first account with an id,
/// once they pass validation.
pub fn update_notification_settings(
    store: &mut AccountsStore,
    account_id: &str,
    settings: NotificationSettings,
) -> (r: Result<(), String>)
    ensures
        settings_problem(settings) matches Some(m) ==> (r matches Err(e) && e@ == m && *final(store)
            == *old(store)),
        settings_problem(settings) is None && !has_id(old(store).accounts@, account_id@) ==> (
        r matches Err(e) && e@ == not_found_text(account_id@) && *final(store) == *old(store)),
        settings_problem(settings) is None && has_id(old(store).accounts@, account_id@) ==> (
        r is Ok && exists|i: int|
            first_with_id(old(store).accounts@, account_id@, i) && final(store).accounts@ == old(
                store,
            ).accounts@.update(
                i,
                StoredAccount { notification_settings: settings, ..old(store).accounts@[i] },
            )),
        final(store).version == old(store).version,
        final(store).active_account_id == old(store).active_account_id,
{
    validate_settings(&settings)?;
    match find_by_id(&store.accounts, account_id) {
        Some(i) => {
            store.accounts[i].notification_settings = settings;
            assert(store.accounts@ =~= old(store).accounts@.update(
                i as int,
                StoredAccount { notification_settings: settings, ..old(store).accounts@[i as int] },
            ));
            Ok(())
        },
        None => Err(not_found(account_id)),
    }
}

/// The notification settings of the first account with an id.
pub fn get_notification_settings(store: &AccountsStore, account_id: &str) -> (r: Result<
    NotificationSettings,
    String,
>)
    ensures
        !has_id(store.accounts@, account_id@) ==> (r matches Err(e) && e@ == not_found_text(
            account_id@,
        )),
        has_id(store.accounts@, account_id@) ==> (r matches Ok(s) && exists|i: int|
            first_with_id(store.accounts@, account_id@, i) && s
                == store.accounts@[i].notification_settings),
{
    match find_by_id(&store.accounts, account_id) {
        Some(i) => Ok(store.accounts[i].notification_settings),
        None => Err(not_found(account_id)),
    }
}

/// Forgets when the first account with an id last notified, so that its
/// thresholds may notify again at once.
pub fn reset_notification_history(store: &mut AccountsStore, account_id: &str) -> (r: Result<
    (),
    String,
>)
    ensures
        !has_id(old(store).accounts@, account_id@) ==> (r matches Err(e) && e@ == not_found_text(
            account_id@,
        ) && *final(store) == *old(store)),
        has_id(old(store).accounts@, account_id@) ==> (r is Ok && exists|i: int|
            first_with_id(old(store).accounts@, account_id@, i) && final(store).accounts@ == old(
                store,
            ).accounts@.update(
                i,
                StoredAccount {
                    last_notifications: LastNotifications {
                        primary: None,
                        secondary: None,
                        credits: None,
                    },
                    ..old(store).accounts@[i]
                },
            )),
        final(store).version == old(store).version,
        final(store).active_account_id == old(store).active_account_id,
{
    match find_by_id(&store.accounts, account_id) {
        Some(i) => {
            store.accounts[i].last_notifications = LastNotifications::default();
            assert(store.accounts@ =~= old(store).accounts@.update(
                i as int,
                StoredAccount {
                    last_notifications: LastNotifications {
                        primary: None,
                        secondary: None,
                        credits: None,
                    },
                    ..old(store).accounts@[i as int]
                },
            ));
            Ok(())
        },
        None => Err(not_found(account_id)),
    }
}

} // verus!
