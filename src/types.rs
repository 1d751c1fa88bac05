//! The account records that a login produces and the store keeps.
use vstd::prelude::*;
use vstd::string::StringExecFns;
use crate::codec::{fresh_uuid, now_millis};

verus! {

/// Exact equality of two texts.
pub fn str_eq(a: &str, b: &str) -> (r: bool)
    ensures
        r == (a@ == b@),
{
    String::from_str(a) == String::from_str(b)
}

/// How an account authenticates.
#[derive(Debug, Clone, Copy, PartialEq, Eq, Structural)]
pub enum AuthMode {
    ApiKey,
    ChatGPT,
}

/// The credentials of an account.
#[derive(Debug, Clone)]
pub enum AuthData {
    ApiKey { key: String },
    ChatGPT {
        id_token: String,
        access_token: String,
        refresh_token: String,
        account_id: Option<String>,
    },
}

/// Per-account notification settings.
#[derive(Debug, Clone, Copy, PartialEq, Eq, Structural)]
pub struct NotificationSettings {
    pub enabled: bool,
    pub primary_threshold: Option<u8>,
    pub secondary_threshold: Option<u8>,
    pub credits_threshold: Option<u8>,
    pub min_interval_minutes: u8,
}

impl Default for NotificationSettings {
    fn default() -> (r: Self)
        ensures
            r == (NotificationSettings {
                enabled: false,
                primary_threshold: Some(80),
                secondary_threshold: Some(80),
                credits_threshold: Some(20),
                min_interval_minutes: 60,
            }),
    {
        NotificationSettings {
            enabled: false,
            primary_threshold: Some(80),
            secondary_threshold: Some(80),
            credits_threshold: Some(20),
            min_interval_minutes: 60,
        }
    }
}

/// When each threshold last notified, in milliseconds since the Unix epoch.
#[derive(Debug, Clone, Copy, PartialEq, Eq, Structural)]
pub struct LastNotifications {
    pub primary: Option<i64>,
    pub secondary: Option<i64>,
    pub credits: Option<i64>,
}

impl Default for LastNotifications {
    fn default() -> (r: Self)
        ensures
            r == (LastNotifications { primary: None, secondary: None, credits: None }),
    {
        LastNotifications { primary: None, secondary: None, credits: None }
    }
}

/// A stored account with its metadata and credentials. Times are in
/// milliseconds since the Unix epoch.
#[derive(Debug, Clone)]
pub struct StoredAccount {
    pub id: String,
    pub name: String,
    pub email: Option<String>,
    pub plan_type: Option<String>,
    pub auth_mode: AuthMode,
    pub auth_data: AuthData,
    pub created_at: i64,
    pub last_used_at: Option<i64>,
    pub notification_settings: NotificationSettings,
    pub last_notifications: LastNotifications,
}

pub open spec fn default_settings() -> NotificationSettings {
    NotificationSettings {
        enabled: false,
        primary_threshold: Some(80),
        secondary_threshold: Some(80),
        credits_threshold: Some(20),
        min_interval_minutes: 60,
    }
}

pub open spec fn no_notifications() -> LastNotifications {
    LastNotifications { primary: None, secondary: None, credits: None }
}

/// The view of an optional text.
pub open spec fn opt_view(o: Option<String>) -> Option<Seq<char>> {
    match o {
        Some(s) => Some(s@),
        None => None,
    }
}

impl StoredAccount {
    /// A fresh account that holds an API key.
    pub fn new_api_key(name: String, api_key: String) -> (r: Self)
        ensures
            r.id@.len() == 36,
            r.name == name,
            r.email is None,
            r.plan_type is None,
            r.auth_mode == AuthMode::ApiKey,
            r.auth_data == (AuthData::ApiKey { key: api_key }),
            r.last_used_at is None,
            r.notification_settings == default_settings(),
            r.last_notifications == no_notifications(),
    {
        StoredAccount {
            id: fresh_uuid(),
            name,
            email: None,
            plan_type: None,
            auth_mode: AuthMode::ApiKey,
            auth_data: AuthData::ApiKey { key: api_key },
            created_at: now_millis(),
            last_used_at: None,
            notification_settings: NotificationSettings::default(),
            last_notifications: LastNotifications::default(),
        }
    }

    /// A fresh account that holds the tokens of an OAuth login.
    pub fn new_chatgpt(
        name: String,
        email: Option<String>,
        plan_type: Option<String>,
        id_token: String,
        access_token: String,
        refresh_token: String,
        account_id: Option<String>,
    ) -> (r: Self)
        ensures
            r.id@.len() == 36,
            r.name == name,
            r.email == email,
            r.plan_type == plan_type,
            r.auth_mode == AuthMode::ChatGPT,
            r.auth_data == (AuthData::ChatGPT { id_token, access_token, refresh_token, account_id }),
            r.last_used_at is None,
            r.notification_settings == default_settings(),
            r.last_notifications == no_notifications(),
    {
        StoredAccount {
            id: fresh_uuid(),
            name,
            email,
            plan_type,
            auth_mode: AuthMode::ChatGPT,
            auth_data: AuthData::ChatGPT { id_token, access_token, refresh_token, account_id },
            created_at: now_millis(),
            last_used_at: None,
            notification_settings: NotificationSettings::default(),
            last_notifications: LastNotifications::default(),
        }
    }
}

impl AuthData {
    /// A copy of these credentials.
    pub fn duplicate(&self) -> (r: Self)
        ensures
            r == *self,
    {
        match self {
            AuthData::ApiKey { key } => AuthData::ApiKey { key: key.clone() },
            AuthData::ChatGPT { id_token, access_token, refresh_token, account_id } => {
                AuthData::ChatGPT {
                    id_token: id_token.clone(),
                    access_token: access_token.clone(),
                    refresh_token: refresh_token.clone(),
                    account_id: account_id.clone(),
                }
            },
        }
    }
}

impl StoredAccount {
    /// A copy of this account.
    pub fn duplicate(&self) -> (r: Self)
        ensures
            r == *self,
    {
        StoredAccount {
            id: self.id.clone(),
            name: self.name.clone(),
            email: self.email.clone(),
            plan_type: self.plan_type.clone(),
            auth_mode: self.auth_mode,
            auth_data: self.auth_data.duplicate(),
            created_at: self.created_at,
            last_used_at: self.last_used_at,
            notification_settings: self.notification_settings,
            last_notifications: self.last_notifications,
        }
    }
}

/// All stored accounts and which one is active.
#[derive(Debug, Clone)]
pub struct AccountsStore {
    pub version: u32,
    pub accounts: Vec<StoredAccount>,
    pub active_account_id: Option<String>,
}

impl Default for AccountsStore {
    fn default() -> (r: Self)
        ensures
            r.version == 2,
            r.accounts@.len() == 0,
            r.active_account_id is None,
    {
        AccountsStore { version: 2, accounts: Vec::new(), active_account_id: None }
    }
}

/// Token data in the command-line client's `auth.json`.
#[derive(Debug, Clone)]
pub struct TokenData {
    pub id_token: String,
    pub access_token: String,
    pub refresh_token: String,
    pub account_id: Option<String>,
}

/// The command-line client's `auth.json`; `last_refresh` in milliseconds
/// since the Unix epoch.
#[derive(Debug, Clone)]
pub struct AuthDotJson {
    pub openai_api_key: Option<String>,
    pub tokens: Option<TokenData>,
    pub last_refresh: Option<i64>,
}

/// What the user interface is shown of an account, without credentials.
#[derive(Debug, Clone)]
pub struct AccountInfo {
    pub id: String,
    pub name: String,
    pub email: Option<String>,
    pub plan_type: Option<String>,
    pub auth_mode: AuthMode,
    pub is_active: bool,
    pub created_at: i64,
    pub last_used_at: Option<i64>,
}

impl AccountInfo {
    pub fn from_stored(account: &StoredAccount, active_id: Option<&str>) -> (r: Self)
        ensures
            r.id == account.id,
            r.name == account.name,
            r.email == account.email,
            r.plan_type == account.plan_type,
            r.auth_mode == account.auth_mode,
            r.is_active == (active_id matches Some(a) && a@ == account.id@),
            r.created_at == account.created_at,
            r.last_used_at == account.last_used_at,
    {
        let is_active = match active_id {
            Some(a) => str_eq(a, account.id.as_str()),
            None => false,
        };
        AccountInfo {
            id: account.id.clone(),
            name: account.name.clone(),
            email: account.email.clone(),
            plan_type: account.plan_type.clone(),
            auth_mode: account.auth_mode,
            is_active,
            created_at: account.created_at,
            last_used_at: account.last_used_at,
        }
    }
}

/// What the login flow hands its caller when it starts.
#[derive(Debug, Clone)]
pub struct OAuthLoginInfo {
    pub auth_url: String,
    pub callback_port: u16,
}

/// The credits part of a usage report.
#[derive(Debug, Clone)]
pub struct CreditStatusDetails {
    pub has_credits: bool,
    pub unlimited: bool,
    pub balance: Option<String>,
}

} // verus!
