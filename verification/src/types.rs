//! Plain data exchanged with the API that the client's logic reads or
//! writes: stream requests, user preferences, OAuth tokens.

use vstd::prelude::*;
use crate::time::UtcTime;

verus! {

/// Stream request
#[derive(Debug, Clone)]
pub struct StreamRequest {
    pub service: String,
    pub command: String,
    pub requestid: u64,
    pub schwab_client_customer_id: String,
    pub schwab_client_correl_id: String,
    /// Named parameters in the order they were given; a later entry with
    /// the same name takes the place of an earlier one.
    pub parameters: Option<Vec<(String, String)>>,
}

/// Stream requests wrapper
#[derive(Debug, Clone)]
pub struct StreamRequests {
    pub requests: Vec<StreamRequest>,
}

/// User preferences
#[derive(Debug, Clone)]
pub struct UserPreferences {
    pub accounts: Option<Vec<AccountPreferences>>,
    pub streamer_info: Option<Vec<StreamerInfo>>,
    pub offers: Option<Vec<Offer>>,
}

/// Account preferences
#[derive(Debug, Clone)]
pub struct AccountPreferences {
    pub account_number: String,
    pub primary_account: bool,
    /// The account's type (the API's `type` field).
    pub account_type: String,
    pub nickname: Option<String>,
    pub account_color: Option<String>,
    pub display_account_number: bool,
    pub auto_position_effect: bool,
}

/// Streamer information
#[derive(Debug, Clone)]
pub struct StreamerInfo {
    pub streamer_socket_url: String,
    pub schwab_client_customer_id: String,
    pub schwab_client_correl_id: String,
    pub schwab_client_channel: String,
    pub schwab_client_function_id: String,
}

/// Offer information
#[derive(Debug, Clone)]
pub struct Offer {
    pub level2_permissions: bool,
    pub mkt_data_permission: String,
}

/// Token response from OAuth
#[derive(Debug, Clone)]
pub struct TokenResponse {
    pub access_token: String,
    pub refresh_token: String,
    pub id_token: String,
    pub token_type: String,
    pub expires_in: i64,
    pub scope: String,
    pub refresh_token_expires_in: i64,
}

/// Saved token information
#[derive(Debug, Clone)]
pub struct SavedTokens {
    pub access_token_issued: UtcTime,
    pub refresh_token_issued: UtcTime,
    pub token_dictionary: TokenResponse,
}

/// The views of named parameters.
pub open spec fn param_views(p: Seq<(String, String)>) -> Seq<(Seq<char>, Seq<char>)> {
    p.map_values(|e: (String, String)| (e.0@, e.1@))
}

/// The value of the last parameter named `name`, if any.
pub open spec fn param_lookup(p: Seq<(Seq<char>, Seq<char>)>, name: Seq<char>) -> Option<Seq<char>>
    decreases p.len(),
{
    if p.len() == 0 {
        None
    } else if p.last().0 == name {
        Some(p.last().1)
    } else {
        param_lookup(p.drop_last(), name)
    }
}

impl StreamerInfo {
    /// A field-by-field copy.
    pub fn copy(&self) -> (c: StreamerInfo)
        ensures
            c == *self,
    {
        StreamerInfo {
            streamer_socket_url: self.streamer_socket_url.clone(),
            schwab_client_customer_id: self.schwab_client_customer_id.clone(),
            schwab_client_correl_id: self.schwab_client_correl_id.clone(),
            schwab_client_channel: self.schwab_client_channel.clone(),
            schwab_client_function_id: self.schwab_client_function_id.clone(),
        }
    }
}

} // verus!
