//! Account switching for the Codex command-line client, and the OAuth login
//! that adds an account: PKCE codes and the authorization URL, validation of
//! the provider's redirect to a loopback listener, the token exchange's
//! request and answer, the identity token's claims, the single pending
//! login, and the account store's rules.

pub mod codec;
pub mod types;
pub mod pkce;
pub mod claims;
pub mod callback;
pub mod flow;
pub mod storage;
pub mod settings;
pub mod process;
