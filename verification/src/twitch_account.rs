//! The Twitch account that a user has linked.

use vstd::prelude::*;

verus! {

#[verifier::external_type_specification]
#[verifier::external_body]
pub struct ExNaiveDateTime(chrono::NaiveDateTime);

/// A user's linked Twitch account, with its OAuth tokens.
#[derive(Debug, Clone)]
pub struct TwitchAccount {
    pub id: String,
    pub username: String,
    pub access_token: Option<String>,
    pub refresh_token: Option<String>,
    pub access_token_expires_at: Option<chrono::NaiveDateTime>,
    pub account_id: Option<String>,
}

/// The Twitch id of the account, empty where none is recorded.
pub open spec fn account_id_or_empty(account: TwitchAccount) -> Seq<char> {
    match account.account_id {
        Some(id) => id@,
        None => Seq::empty(),
    }
}

impl TwitchAccount {
    /// The Twitch id of the account, empty where none is recorded.
    pub fn account_id_or_default(&self) -> (id: String)
        ensures
            id@ == account_id_or_empty(*self),
    {
        match &self.account_id {
            Some(id) => id.clone(),
            None => String::new(),
        }
    }
}

} // verus!
