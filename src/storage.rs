//! Operations on the account store. Reading and writing the store's file is
//! left to the caller; these functions change the store in memory.
use vstd::prelude::*;
use vstd::string::StringExecFns;
use crate::types::{
    opt_view, str_eq, AccountsStore, LastNotifications, StoredAccount,
};

verus! {

/// Why a store operation was refused.
#[derive(Debug, Clone)]
pub enum StoreError {
    /// The home directory is unknown.
    NoHomeDir,
    /// Another account already has this name.
    DuplicateName { name: String },
    /// No account has this id.
    NotFound { id: String },
}

/// The directory under the home directory that holds the store.
pub const CONFIG_DIR_NAME: &'static str = ".codex-switcher";

/// The store's file name.
pub const ACCOUNTS_FILE_NAME: &'static str = "accounts.json";

pub open spec fn config_dir_of(home: Seq<char>) -> Seq<char> {
    home + "/"@ + CONFIG_DIR_NAME@
}

/// The configuration directory under a home directory.
pub fn get_config_dir(home: Option<&str>) -> (r: Result<String, StoreError>)
    ensures
        match home {
            Some(h) => r matches Ok(p) && p@ == config_dir_of(h@),
            None => r matches Err(StoreError::NoHomeDir),
        },
{
    match home {
        Some(h) => {
            let mut p = String::from_str(h);
            p.append("/");
            p.append(CONFIG_DIR_NAME);
            Ok(p)
        },
        None => Err(StoreError::NoHomeDir),
    }
}

/// The path of the store's file under a home directory.
pub fn get_accounts_file(home: Option<&str>) -> (r: Result<String, StoreError>)
    ensures
        match home {
            Some(h) => r matches Ok(p) && p@ == config_dir_of(h@) + "/"@ + ACCOUNTS_FILE_NAME@,
            None => r matches Err(StoreError::NoHomeDir),
        },
{
    let mut p = get_config_dir(home)?;
    p.append("/");
    p.append(ACCOUNTS_FILE_NAME);
    Ok(p)
}

pub open spec fn has_id(s: Seq<StoredAccount>, id: Seq<char>) -> bool {
    exists|i: int| 0 <= i < s.len() && (#[trigger] s[i]).id@ == id
}

/// `i` is the first position of an account with this id.
pub open spec fn first_with_id(s: Seq<StoredAccount>, id: Seq<char>, i: int) -> bool {
    &&& 0 <= i < s.len()
    &&& s[i].id@ == id
    &&& forall|j: int| 0 <= j < i ==> (#[trigger] s[j]).id@ != id
}

/// Another account than the one with `id` has the name `name`.
pub open spec fn name_taken_by_other(s: Seq<StoredAccount>, id: Seq<char>, name: Seq<char>) -> bool {
    exists|i: int| 0 <= i < s.len() && (#[trigger] s[i]).id@ != id && s[i].name@ == name
}

pub open spec fn has_name(s: Seq<StoredAccount>, name: Seq<char>) -> bool {
    exists|i: int| 0 <= i < s.len() && (#[trigger] s[i]).name@ == name
}

/// The accounts without those that have this id, in their order.
pub open spec fn without_id(s: Seq<StoredAccount>, id: Seq<char>) -> Seq<StoredAccount>
    decreases s.len(),
{
    if s.len() == 0 {
        s
    } else if s.last().id@ == id {
        without_id(s.drop_last(), id)
    } else {
        without_id(s.drop_last(), id).push(s.last())
    }
}

/// Finds the first account with an id.
pub(crate) fn find_by_id(accounts: &Vec<StoredAccount>, id: &str) -> (r: Option<usize>)
    ensures
        r matches Some(i) ==> first_with_id(accounts@, id@, i as int),
        r is None ==> !has_id(accounts@, id@),
{
    let mut i: usize = 0;
    while i < accounts.len()
        invariant
            i <= accounts@.len(),
            forall|j: int| 0 <= j < i ==> (#[trigger] accounts@[j]).id@ != id@,
        decreases accounts@.len() - i,
    {
        if str_eq(accounts[i].id.as_str(), id) {
            return Some(i);
        }
        i = i + 1;
    }
    None
}

/// Whether an account has a name.
fn find_name(accounts: &Vec<StoredAccount>, name: &str) -> (r: bool)
    ensures
        r == has_name(accounts@, name@),
{
    let mut i: usize = 0;
    while i < accounts.len()
        invariant
            i <= accounts@.len(),
            forall|j: int| 0 <= j < i ==> (#[trigger] accounts@[j]).name@ != name@,
        decreases accounts@.len() - i,
    {
        if str_eq(accounts[i].name.as_str(), name) {
            return true;
        }
        i = i + 1;
    }
    false
}

/// Whether an account other than the one with `id` has a name.
fn find_name_elsewhere(accounts: &Vec<StoredAccount>, id: &str, name: &str) -> (r: bool)
    ensures
        r == name_taken_by_other(accounts@, id@, name@),
{
    let mut i: usize = 0;
    while i < accounts.len()
        invariant
            i <= accounts@.len(),
            forall|j: int|
                0 <= j < i ==> !((#[trigger] accounts@[j]).id@ != id@ && accounts@[j].name@
                    == name@),
        decreases accounts@.len() - i,
    {
        if !str_eq(accounts[i].id.as_str(), id) && str_eq(accounts[i].name.as_str(), name) {
            return true;
        }
        i = i + 1;
    }
    false
}

/// Adds an account whose name no other account has, and hands back a copy
/// of it; the first account added becomes the active one.
pub fn add_account(store: &mut AccountsStore, account: StoredAccount) -> (r: Result<
    StoredAccount,
    StoreError,
>)
    ensures
        has_name(old(store).accounts@, account.name@) ==> (r matches Err(
            StoreError::DuplicateName { name },
        ) && name@ == account.name@ && *final(store) == *old(store)),
        !has_name(old(store).accounts@, account.name@) ==> (r matches Ok(a) && a == account
            && final(store).accounts@ == old(store).accounts@.push(account)
            && final(store).version == old(store).version
            && opt_view(final(store).active_account_id) == if old(store).accounts@.len() == 0 {
            Some(account.id@)
        } else {
            opt_view(old(store).active_account_id)
        }),
{
    if find_name(&store.accounts, account.name.as_str()) {
        return Err(StoreError::DuplicateName { name: account.name.clone() });
    }
    let copy = account.duplicate();
    store.accounts.push(account);
    if store.accounts.len() == 1 {
        store.active_account_id = Some(copy.id.clone());
    }
    Ok(copy)
}

/// Removes every account with an id. Where the active account goes, the
/// first remaining account becomes active, or none where none remains.
pub fn remove_account(store: &mut AccountsStore, account_id: &str) -> (r: Result<(), StoreError>)
    ensures
        !has_id(old(store).accounts@, account_id@) ==> (r matches Err(
            StoreError::NotFound { id },
        ) && id@ == account_id@ && *final(store) == *old(store)),
        has_id(old(store).accounts@, account_id@) ==> (r is Ok && final(store).accounts@
            == without_id(old(store).accounts@, account_id@) && final(store).version == old(
            store,
        ).version && opt_view(final(store).active_account_id) == if opt_view(
            old(store).active_account_id,
        ) == Some(account_id@) {
            if final(store).accounts@.len() == 0 {
                None
            } else {
                Some(final(store).accounts@[0].id@)
            }
        } else {
            opt_view(old(store).active_account_id)
        }),
{
    if find_by_id(&store.accounts, account_id).is_none() {
        return Err(StoreError::NotFound { id: String::from_str(account_id) });
    }
    let ghost orig = store.accounts@;
    let ghost mut k: int = 0;
    let mut i: usize = 0;
    while i < store.accounts.len()
        invariant
            0 <= k <= orig.len(),
            store.version == old(store).version,
            store.active_account_id == old(store).active_account_id,
            i as int == without_id(orig.take(k), account_id@).len(),
            store.accounts@ == without_id(orig.take(k), account_id@) + orig.skip(k),
        decreases store.accounts@.len() - i,
    {
        let ghost w = without_id(orig.take(k), account_id@);
        proof {
            assert(orig.take(k + 1).drop_last() =~= orig.take(k));
            assert(store.accounts@[i as int] == orig[k]);
        }
        if str_eq(store.accounts[i].id.as_str(), account_id) {
            store.accounts.remove(i);
            proof {
                assert(store.accounts@ =~= w + orig.skip(k + 1));
            }
        } else {
            i = i + 1;
            proof {
                assert(store.accounts@ =~= w.push(orig[k]) + orig.skip(k + 1));
            }
        }
        proof {
            k = k + 1;
        }
    }
    proof {
        assert(orig.take(k) =~= orig);
        assert(store.accounts@ =~= without_id(orig, account_id@));
    }
    let was_active = match &store.active_account_id {
        Some(active) => str_eq(active.as_str(), account_id),
        None => false,
    };
    if was_active {
        if store.accounts.len() > 0 {
            store.active_account_id = Some(store.accounts[0].id.clone());
        } else {
            store.active_account_id = None;
        }
    }
    Ok(())
}

/// Makes the account with an id the active one.
pub fn set_active_account(store: &mut AccountsStore, account_id: &str) -> (r: Result<(), StoreError>)
    ensures
        !has_id(old(store).accounts@, account_id@) ==> (r matches Err(
            StoreError::NotFound { id },
        ) && id@ == account_id@ && *final(store) == *old(store)),
        has_id(old(store).accounts@, account_id@) ==> (r is Ok && final(store).accounts
            == old(store).accounts && final(store).version == old(store).version
            && opt_view(final(store).active_account_id) == Some(account_id@)),
{
    if find_by_id(&store.accounts, account_id).is_none() {
        return Err(StoreError::NotFound { id: String::from_str(account_id) });
    }
    store.active_account_id = Some(String::from_str(account_id));
    Ok(())
}

/// The first account with an id, taken out of the store.
pub fn get_account(store: AccountsStore, account_id: &str) -> (r: Option<StoredAccount>)
    ensures
        !has_id(store.accounts@, account_id@) ==> r is None,
        has_id(store.accounts@, account_id@) ==> (r matches Some(a) && exists|i: int|
            first_with_id(store.accounts@, account_id@, i) && a == store.accounts@[i]),
{
    match find_by_id(&store.accounts, account_id) {
        Some(i) => {
            let mut accounts = store.accounts;
            Some(accounts.remove(i))
        },
        None => None,
    }
}

/// The active account, taken out of the store; none where no account is
/// active or the active id names no account.
pub fn get_active_account(store: AccountsStore) -> (r: Option<StoredAccount>)
    ensures
        match store.active_account_id {
            None => r is None,
            Some(id) => if has_id(store.accounts@, id@) {
                r matches Some(a) && exists|i: int|
                    first_with_id(store.accounts@, id@, i) && a == store.accounts@[i]
            } else {
                r is None
            },
        },
{
    match &store.active_account_id {
        None => None,
        Some(id) => {
            let id = id.clone();
            get_account(store, id.as_str())
        },
    }
}

/// Records that the first account with an id was used at `now`; tells
/// whether there was such an account.
pub fn touch_account(store: &mut AccountsStore, account_id: &str, now: i64) -> (r: bool)
    ensures
        r == has_id(old(store).accounts@, account_id@),
        !r ==> *final(store) == *old(store),
        r ==> exists|i: int|
            first_with_id(old(store).accounts@, account_id@, i) && final(store).accounts@ == old(
                store,
            ).accounts@.update(i, StoredAccount { last_used_at: Some(now), ..old(store).accounts@[i] }),
        final(store).version == old(store).version,
        final(store).active_account_id == old(store).active_account_id,
{
    match find_by_id(&store.accounts, account_id) {
        Some(i) => {
            store.accounts[i].last_used_at = Some(now);
            assert(store.accounts@ =~= old(store).accounts@.update(i as int, StoredAccount { last_used_at: Some(now), ..old(store).accounts@[i as int] }));
            true
        },
        None => false,
    }
}

/// An account with the given metadata laid over it: a name, email or plan
/// type that is given replaces the old one.
pub open spec fn with_metadata(
    a: StoredAccount,
    name: Option<String>,
    email: Option<String>,
    plan_type: Option<String>,
) -> StoredAccount {
    StoredAccount {
        name: match name {
            Some(n) => n,
            None => a.name,
        },
        email: if email is Some {
            email
        } else {
            a.email
        },
        plan_type: if plan_type is Some {
            plan_type
        } else {
            a.plan_type
        },
        ..a
    }
}

/// Renames and relabels the first account with an id. A new name that
/// another account already has is refused before anything changes.
pub fn update_account_metadata(
    store: &mut AccountsStore,
    account_id: &str,
    name: Option<String>,
    email: Option<String>,
    plan_type: Option<String>,
) -> (r: Result<(), StoreError>)
    ensures
        (name matches Some(n) && name_taken_by_other(old(store).accounts@, account_id@, n@)) ==> (
        r matches Err(StoreError::DuplicateName { name: e }) && e == name.unwrap() && *final(store)
            == *old(store)),
        !(name matches Some(n) && name_taken_by_other(old(store).accounts@, account_id@, n@))
            && !has_id(old(store).accounts@, account_id@) ==> (r matches Err(
            StoreError::NotFound { id },
        ) && id@ == account_id@ && *final(store) == *old(store)),
        !(name matches Some(n) && name_taken_by_other(old(store).accounts@, account_id@, n@))
            && has_id(old(store).accounts@, account_id@) ==> (r is Ok && exists|i: int|
            first_with_id(old(store).accounts@, account_id@, i) && final(store).accounts@ == old(
                store,
            ).accounts@.update(i, with_metadata(old(store).accounts@[i], name, email, plan_type))),
        final(store).version == old(store).version,
        final(store).active_account_id == old(store).active_account_id,
{
    if let Some(new_name) = &name {
        if find_name_elsewhere(&store.accounts, account_id, new_name.as_str()) {
            return Err(StoreError::DuplicateName { name: new_name.clone() });
        }
    }
    let i = match find_by_id(&store.accounts, account_id) {
        Some(i) => i,
        None => {
            return Err(StoreError::NotFound { id: String::from_str(account_id) });
        },
    };
    let ghost before = store.accounts@;
    let ghost target = with_metadata(before[i as int], name, email, plan_type);
    if let Some(new_name) = name {
        store.accounts[i].name = new_name;
    }
    if email.is_some() {
        store.accounts[i].email = email;
    }
    if plan_type.is_some() {
        store.accounts[i].plan_type = plan_type;
    }
    assert(store.accounts@ =~= before.update(i as int, target));
    Ok(())
}

/// Records when the first account with an id last notified; tells whether
/// there was such an account.
pub fn update_last_notifications(
    store: &mut AccountsStore,
    account_id: &str,
    last_notifications: &LastNotifications,
) -> (r: bool)
    ensures
        r == has_id(old(store).accounts@, account_id@),
        !r ==> *final(store) == *old(store),
        r ==> exists|i: int|
            first_with_id(old(store).accounts@, account_id@, i) && final(store).accounts@ == old(
                store,
            ).accounts@.update(
                i,
                StoredAccount { last_notifications: *last_notifications, ..old(store).accounts@[i] },
            ),
        final(store).version == old(store).version,
        final(store).active_account_id == old(store).active_account_id,
{
    match find_by_id(&store.accounts, account_id) {
        Some(i) => {
            store.accounts[i].last_notifications = *last_notifications;
            assert(store.accounts@ =~= old(store).accounts@.update(
                i as int,
                StoredAccount {
                    last_notifications: *last_notifications,
                    ..old(store).accounts@[i as int]
                },
            ));
            true
        },
        None => false,
    }
}

} // verus!
