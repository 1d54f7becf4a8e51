//! The account records: the payload that a sign-in yields, the stored
//! account, and the answer to the start of a browser sign-in.

use vstd::prelude::*;
use crate::json::{JsonValue, Json, opt_json, clone_json};
use crate::text::opt_text;

verus! {

/// What a completed sign-in yields, ready to be stored as an account.
#[derive(Debug)]
pub struct CursorOAuthCompletePayload {
    pub email: String,
    pub user_id: Option<String>,
    pub login_provider: Option<String>,
    pub access_token: String,
    pub refresh_token: Option<String>,
    pub token_type: Option<String>,
    pub expires_at: Option<i64>,
    pub idc_region: Option<String>,
    pub issuer_url: Option<String>,
    pub client_id: Option<String>,
    pub scopes: Option<Vec<String>>,
    pub login_hint: Option<String>,
    pub plan_name: Option<String>,
    pub plan_tier: Option<String>,
    pub credits_total: Option<i64>,
    pub credits_used: Option<i64>,
    pub bonus_total: Option<i64>,
    pub bonus_used: Option<i64>,
    pub usage_reset_at: Option<i64>,
    pub bonus_expire_days: Option<i64>,
    pub cursor_auth_token_raw: Option<JsonValue>,
    pub cursor_profile_raw: Option<JsonValue>,
    pub cursor_usage_raw: Option<JsonValue>,
}

/// The model of a payload: every text by its characters, every JSON value by
/// its model.
pub struct PayloadView {
    pub email: Seq<char>,
    pub user_id: Option<Seq<char>>,
    pub login_provider: Option<Seq<char>>,
    pub access_token: Seq<char>,
    pub refresh_token: Option<Seq<char>>,
    pub token_type: Option<Seq<char>>,
    pub expires_at: Option<i64>,
    pub idc_region: Option<Seq<char>>,
    pub issuer_url: Option<Seq<char>>,
    pub client_id: Option<Seq<char>>,
    pub scopes: Option<Seq<Seq<char>>>,
    pub login_hint: Option<Seq<char>>,
    pub plan_name: Option<Seq<char>>,
    pub plan_tier: Option<Seq<char>>,
    pub credits_total: Option<i64>,
    pub credits_used: Option<i64>,
    pub bonus_total: Option<i64>,
    pub bonus_used: Option<i64>,
    pub usage_reset_at: Option<i64>,
    pub bonus_expire_days: Option<i64>,
    pub cursor_auth_token_raw: Option<Json>,
    pub cursor_profile_raw: Option<Json>,
    pub cursor_usage_raw: Option<Json>,
}

/// The model of an optional owned JSON value.
pub open spec fn opt_json_value(o: Option<JsonValue>) -> Option<Json> {
    match o {
        Some(v) => Some(v@),
        None => None,
    }
}

impl View for CursorOAuthCompletePayload {
    type V = PayloadView;

    open spec fn view(&self) -> PayloadView {
        PayloadView {
            email: self.email@,
            user_id: self.user_id.deep_view(),
            login_provider: self.login_provider.deep_view(),
            access_token: self.access_token@,
            refresh_token: self.refresh_token.deep_view(),
            token_type: self.token_type.deep_view(),
            expires_at: self.expires_at,
            idc_region: self.idc_region.deep_view(),
            issuer_url: self.issuer_url.deep_view(),
            client_id: self.client_id.deep_view(),
            scopes: self.scopes.deep_view(),
            login_hint: self.login_hint.deep_view(),
            plan_name: self.plan_name.deep_view(),
            plan_tier: self.plan_tier.deep_view(),
            credits_total: self.credits_total,
            credits_used: self.credits_used,
            bonus_total: self.bonus_total,
            bonus_used: self.bonus_used,
            usage_reset_at: self.usage_reset_at,
            bonus_expire_days: self.bonus_expire_days,
            cursor_auth_token_raw: opt_json_value(self.cursor_auth_token_raw),
            cursor_profile_raw: opt_json_value(self.cursor_profile_raw),
            cursor_usage_raw: opt_json_value(self.cursor_usage_raw),
        }
    }
}

/// A stored account: its id and the sign-in data it was made from.
#[derive(Debug)]
pub struct CursorAccount {
    pub id: String,
    pub email: String,
    pub user_id: Option<String>,
    pub login_provider: Option<String>,
    pub access_token: String,
    pub refresh_token: Option<String>,
    pub token_type: Option<String>,
    pub expires_at: Option<i64>,
    pub idc_region: Option<String>,
    pub issuer_url: Option<String>,
    pub client_id: Option<String>,
    pub scopes: Option<Vec<String>>,
    pub login_hint: Option<String>,
    pub plan_name: Option<String>,
    pub plan_tier: Option<String>,
    pub credits_total: Option<i64>,
    pub credits_used: Option<i64>,
    pub bonus_total: Option<i64>,
    pub bonus_used: Option<i64>,
    pub usage_reset_at: Option<i64>,
    pub bonus_expire_days: Option<i64>,
    pub cursor_auth_token_raw: Option<JsonValue>,
    pub cursor_profile_raw: Option<JsonValue>,
    pub cursor_usage_raw: Option<JsonValue>,
}

/// The model of an account: its id and the model of its sign-in data.
pub struct AccountView {
    pub id: Seq<char>,
    pub data: PayloadView,
}

impl View for CursorAccount {
    type V = AccountView;

    open spec fn view(&self) -> AccountView {
        AccountView {
            id: self.id@,
            data: PayloadView {
                email: self.email@,
                user_id: self.user_id.deep_view(),
                login_provider: self.login_provider.deep_view(),
                access_token: self.access_token@,
                refresh_token: self.refresh_token.deep_view(),
                token_type: self.token_type.deep_view(),
                expires_at: self.expires_at,
                idc_region: self.idc_region.deep_view(),
                issuer_url: self.issuer_url.deep_view(),
                client_id: self.client_id.deep_view(),
                scopes: self.scopes.deep_view(),
                login_hint: self.login_hint.deep_view(),
                plan_name: self.plan_name.deep_view(),
                plan_tier: self.plan_tier.deep_view(),
                credits_total: self.credits_total,
                credits_used: self.credits_used,
                bonus_total: self.bonus_total,
                bonus_used: self.bonus_used,
                usage_reset_at: self.usage_reset_at,
                bonus_expire_days: self.bonus_expire_days,
                cursor_auth_token_raw: opt_json_value(self.cursor_auth_token_raw),
                cursor_profile_raw: opt_json_value(self.cursor_profile_raw),
                cursor_usage_raw: opt_json_value(self.cursor_usage_raw),
            },
        }
    }
}

/// What the start of a browser sign-in answers.
#[derive(Debug, Clone)]
pub struct CursorOAuthStartResponse {
    pub login_id: String,
    pub user_code: String,
    pub verification_uri: String,
    pub verification_uri_complete: Option<String>,
    pub expires_in: u64,
    pub interval_seconds: u64,
    pub callback_url: Option<String>,
}

/// A copy of an optional text.
pub fn clone_opt_string(o: &Option<String>) -> (r: Option<String>)
    ensures
        r.deep_view() == o.deep_view(),
{
    match o {
        Some(s) => Some(s.clone()),
        None => None,
    }
}

/// A copy of an optional list of texts.
pub fn clone_opt_strings(o: &Option<Vec<String>>) -> (r: Option<Vec<String>>)
    ensures
        r.deep_view() == o.deep_view(),
{
    match o {
        Some(v) => {
            let mut out: Vec<String> = Vec::new();
            let mut i: usize = 0;
            while i < v.len()
                invariant
                    0 <= i <= v@.len(),
                    out@.len() == i,
                    forall|j: int| 0 <= j < i ==> #[trigger] out@[j]@ == v@[j]@,
                decreases v@.len() - i,
            {
                out.push(v[i].clone());
                i = i + 1;
            }
            assert(out.deep_view() =~= v.deep_view());
            Some(out)
        },
        None => None,
    }
}

/// A copy of an optional JSON value.
pub fn clone_opt_json(o: &Option<JsonValue>) -> (r: Option<JsonValue>)
    ensures
        opt_json_value(r) == opt_json_value(*o),
{
    match o {
        Some(v) => Some(clone_json(v)),
        None => None,
    }
}

} // verus!
