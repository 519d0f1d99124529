//! The cloud streaming backend: configuration and readiness for the
//! duplex recognizer session. The session itself is the state machine
//! in the session module; its result stream is mapped here into the
//! unified form.

use vstd::prelude::*;

use crate::client;
use crate::provider::{AsrError, AsrResult, ProviderStatus};

verus! {

/// Credentials for the streaming recognizer. The secret key is
/// optional: without one the handshake uses the plain bearer form.
#[derive(Clone, Debug)]
pub struct DoubaoConfig {
    pub app_id: String,
    pub access_token: String,
    pub secret_key: String,
}

impl Default for DoubaoConfig {
    fn default() -> (r: DoubaoConfig)
        ensures
            r.app_id@.len() == 0,
            r.access_token@.len() == 0,
            r.secret_key@.len() == 0,
    {
        DoubaoConfig {
            app_id: String::new(),
            access_token: String::new(),
            secret_key: String::new(),
        }
    }
}

impl DoubaoConfig {
    /// Configured exactly when both the app id and the access token
    /// are present.
    pub fn is_configured(&self) -> (r: bool)
        ensures
            r == (self.app_id@.len() > 0 && self.access_token@.len() > 0),
    {
        !self.app_id.as_str().is_empty() && !self.access_token.as_str().is_empty()
    }
}

/// The cloud streaming backend.
pub struct DoubaoProvider {
    pub config: DoubaoConfig,
}

impl DoubaoProvider {
    pub fn new(config: DoubaoConfig) -> (r: DoubaoProvider)
        ensures
            r.config.app_id@ == config.app_id@,
            r.config.access_token@ == config.access_token@,
            r.config.secret_key@ == config.secret_key@,
    {
        DoubaoProvider { config }
    }

    pub fn id(&self) -> (r: &'static str)
        ensures
            r@ == ("doubao")@,
    {
        "doubao"
    }

    pub fn display_name(&self) -> (r: &'static str)
        ensures
            r@ == ("豆包语音识别")@,
    {
        "豆包语音识别"
    }

    /// Ready exactly when the app id and token are both configured.
    pub fn status(&self) -> (r: ProviderStatus)
        ensures
            (self.config.app_id@.len() > 0 && self.config.access_token@.len() > 0) ==> r
                == ProviderStatus::Ready,
            !(self.config.app_id@.len() > 0 && self.config.access_token@.len() > 0) ==> r
                == ProviderStatus::NeedsConfiguration,
    {
        if self.config.is_configured() {
            ProviderStatus::Ready
        } else {
            ProviderStatus::NeedsConfiguration
        }
    }

    /// Fails on the first missing credential: the app id, then the
    /// access token.
    pub fn validate(&self) -> (r: Result<(), AsrError>)
        ensures
            r is Ok <==> (self.config.app_id@.len() > 0 && self.config.access_token@.len() > 0),
            self.config.app_id@.len() == 0 ==> (r.unwrap_err() matches AsrError::Configuration(m)
                && m@ == ("App ID 不能为空")@),
            self.config.app_id@.len() > 0 && self.config.access_token@.len() == 0 ==> (
            r.unwrap_err() matches AsrError::Configuration(m) && m@ == (
            "Access Token 不能为空")@),
    {
        if self.config.app_id.as_str().is_empty() {
            return Err(AsrError::Configuration(String::from_str("App ID 不能为空")));
        }
        if self.config.access_token.as_str().is_empty() {
            return Err(AsrError::Configuration(String::from_str("Access Token 不能为空")));
        }
        Ok(())
    }

    /// The credentials as the wire client takes them.
    pub fn client(&self) -> (r: client::AsrClient)
        ensures
            r.app_id@ == self.config.app_id@,
            r.access_token@ == self.config.access_token@,
            r.secret_key@ == self.config.secret_key@,
    {
        client::AsrClient::new(
            self.config.app_id.clone(),
            self.config.access_token.clone(),
            self.config.secret_key.clone(),
        )
    }
}

/// Maps one wire-session result into the unified form: the text
/// unchanged, final exactly when the wire result was not an interim
/// ("prefetch") guess.
pub fn convert_result(internal: client::AsrResult) -> (r: AsrResult)
    ensures
        r.text@ == internal.text@,
        r.is_final == !internal.is_prefetch,
{
    AsrResult { text: internal.text, is_final: !internal.is_prefetch }
}

} // verus!
