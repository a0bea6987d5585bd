//! A user's preferences: how they are shown, and which changes are accepted.
use vstd::prelude::*;
use crate::error::{invalid_field, is_invalid_field, GatewayError};
use crate::ids::Uuid;
use crate::time::Timestamp;

verus! {

/// A user's stored preferences. The chat mode and theme are held by their
/// wire names (such as `rdf-emb` and `dark`).
#[derive(Debug, Clone)]
pub struct UserSettings {
    pub user_id: Uuid,
    pub default_chat_mode: Option<String>,
    pub default_k: Option<i32>,
    pub default_lang: Option<String>,
    pub theme: Option<String>,
    pub created_at: Timestamp,
    pub updated_at: Timestamp,
}

/// A user's preferences as the API presents them.
#[derive(Debug, Clone)]
pub struct UserSettingsResponse {
    pub default_chat_mode: Option<String>,
    pub default_k: Option<i32>,
    pub default_lang: Option<String>,
    pub theme: Option<String>,
}

impl UserSettingsResponse {
    /// The presented preferences of a stored record.
    pub fn from_settings(value: UserSettings) -> (r: Self)
        ensures
            r.default_chat_mode == value.default_chat_mode,
            r.default_k == value.default_k,
            r.default_lang == value.default_lang,
            r.theme == value.theme,
    {
        UserSettingsResponse {
            default_chat_mode: value.default_chat_mode,
            default_k: value.default_k,
            default_lang: value.default_lang,
            theme: value.theme,
        }
    }

    /// The preferences of a user who stored none, or stored ones: nothing
    /// set for the former.
    pub fn from_stored(value: Option<UserSettings>) -> (r: Self)
        ensures
            match value {
                Some(v) => r.default_chat_mode == v.default_chat_mode && r.default_k == v.default_k
                    && r.default_lang == v.default_lang && r.theme == v.theme,
                None => r.default_chat_mode is None && r.default_k is None && r.default_lang is None
                    && r.theme is None,
            },
    {
        match value {
            Some(v) => UserSettingsResponse::from_settings(v),
            None => UserSettingsResponse {
                default_chat_mode: None,
                default_k: None,
                default_lang: None,
                theme: None,
            },
        }
    }
}

/// A change to a user's preferences; absent fields are left unset.
#[derive(Debug, Clone)]
pub struct UpdateUserSettingsRequest {
    pub default_chat_mode: Option<String>,
    pub default_k: Option<i32>,
    pub default_lang: Option<String>,
    pub theme: Option<String>,
}

/// The preferences to store.
#[derive(Debug, Clone)]
pub struct UpdateUserSettingsParams {
    pub default_chat_mode: Option<String>,
    pub default_k: Option<i32>,
    pub default_lang: Option<String>,
    pub theme: Option<String>,
}

/// The preferences a change stores: all its fields as they are, once the
/// number of search results, when given, is positive.
pub fn settings_update_params(payload: UpdateUserSettingsRequest) -> (r: Result<
    UpdateUserSettingsParams,
    GatewayError,
>)
    ensures
        (payload.default_k matches Some(k) && k <= 0) ==> (r matches Err(e) && is_invalid_field(
            e,
            "default_k"@,
            "must be greater than zero"@,
        )),
        !(payload.default_k matches Some(k) && k <= 0) ==> (r matches Ok(p) && p.default_chat_mode
            == payload.default_chat_mode && p.default_k == payload.default_k && p.default_lang
            == payload.default_lang && p.theme == payload.theme),
{
    if let Some(k) = payload.default_k {
        if k <= 0 {
            return Err(invalid_field("default_k", "must be greater than zero"));
        }
    }
    Ok(
        UpdateUserSettingsParams {
            default_chat_mode: payload.default_chat_mode,
            default_k: payload.default_k,
            default_lang: payload.default_lang,
            theme: payload.theme,
        },
    )
}

} // verus!
