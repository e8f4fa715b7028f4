//! The client: where the API lives, how to authenticate, how to retry, and
//! the address of each resource.

use vstd::prelude::*;

use crate::settings::{effective_settings, RetryData, RetrySettings};
use crate::text::joined;

verus! {

/// Header that carries the API key.
pub const API_KEY_HEADER: &'static str = "X-API-KEY";

pub struct WegLiApiClient {
    api_url: String,
    api_token: String,
    /// Retry settings for exponential backoff; `None` selects the default
    /// (initial_backoff_ms: 300, max_retries: 5, backoff_multiplier: 2).
    /// Set max_retries to 0 to turn retrying off.
    pub retry_settings: Option<RetrySettings>,
}

impl WegLiApiClient {
    /// The base address of the API.
    pub closed spec fn url(&self) -> Seq<char> {
        self.api_url@
    }

    /// The API key.
    pub closed spec fn token(&self) -> Seq<char> {
        self.api_token@
    }

    /// The retry policy chosen at construction, if any.
    pub closed spec fn policy(&self) -> Option<RetrySettings> {
        self.retry_settings
    }

    pub fn new(api_url: &String, api_token: &String, retry_settings: Option<RetrySettings>) -> (r: Self)
        ensures
            r.url() == api_url@,
            r.token() == api_token@,
            r.policy() == retry_settings,
    {
        WegLiApiClient { api_url: api_url.clone(), api_token: api_token.clone(), retry_settings }
    }

    pub fn api_url(&self) -> (r: &String)
        ensures
            r@ == self.url(),
    {
        &self.api_url
    }

    pub fn api_token(&self) -> (r: &String)
        ensures
            r@ == self.token(),
    {
        &self.api_token
    }

    /// The state in which each call chain of this client starts.
    pub fn retry_data(&self) -> (r: RetryData)
        ensures
            r.retry_count == 0,
            r.settings == effective_settings(self.policy()),
    {
        RetryData::start(&self.retry_settings)
    }

    /// Address of one notice of the authenticated user.
    pub fn notice_url(&self, notice_token: &str) -> (r: String)
        ensures
            r@ == self.url() + "/notices/"@ + notice_token@,
    {
        joined(&joined(&self.api_url, "/notices/"), notice_token)
    }

    /// Address of all notices of the authenticated user.
    pub fn notices_url(&self) -> (r: String)
        ensures
            r@ == self.url() + "/notices"@,
    {
        joined(&self.api_url, "/notices")
    }

    /// Address of one charge.
    pub fn charge_url(&self, tbnr: &str) -> (r: String)
        ensures
            r@ == self.url() + "/charges/"@ + tbnr@,
    {
        joined(&joined(&self.api_url, "/charges/"), tbnr)
    }

    /// Address of all charges.
    pub fn charges_url(&self) -> (r: String)
        ensures
            r@ == self.url() + "/charges"@,
    {
        joined(&self.api_url, "/charges")
    }

    /// Address of one district.
    pub fn district_url(&self, zip: &str) -> (r: String)
        ensures
            r@ == self.url() + "/districts/"@ + zip@,
    {
        joined(&joined(&self.api_url, "/districts/"), zip)
    }

    /// Address of all districts.
    pub fn districts_url(&self) -> (r: String)
        ensures
            r@ == self.url() + "/districts"@,
    {
        joined(&self.api_url, "/districts")
    }

    /// Address of the public exports, or of those of the authenticated user.
    pub fn exports_url(&self, public: bool) -> (r: String)
        ensures
            r@ == if public {
                self.url() + "/exports/public"@
            } else {
                self.url() + "/exports"@
            },
    {
        if public {
            joined(&self.api_url, "/exports/public")
        } else {
            joined(&self.api_url, "/exports")
        }
    }
}

} // verus!
