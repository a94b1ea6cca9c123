//! The settings of the synchronisation.

use vstd::prelude::*;
use vstd::string::StringExecFns;
use crate::error::{ErrorView, FeishuSyncError};
use crate::url::{parse_feishu_base_url, parsed_url};

verus! {

/// Where the remote table is and how to log in to it.
#[derive(Debug, PartialEq, Eq)]
pub struct FeishuConfig {
    pub app_id: String,
    pub app_secret: String,
    /// The address of the table as the user gave it.
    pub base_url: String,
    /// The container of the table, taken from the address.
    pub app_token: String,
    /// The table within the container, taken from the address.
    pub table_id: String,
    pub enabled: bool,
}

/// The content of a [`FeishuConfig`].
pub struct ConfigView {
    pub app_id: Seq<char>,
    pub app_secret: Seq<char>,
    pub base_url: Seq<char>,
    pub app_token: Seq<char>,
    pub table_id: Seq<char>,
    pub enabled: bool,
}

impl View for FeishuConfig {
    type V = ConfigView;

    open spec fn view(&self) -> ConfigView {
        ConfigView {
            app_id: self.app_id@,
            app_secret: self.app_secret@,
            base_url: self.base_url@,
            app_token: self.app_token@,
            table_id: self.table_id@,
            enabled: self.enabled,
        }
    }
}

/// What stands in for the secret where the settings are shown.
pub open spec fn hidden_secret() -> Seq<char> {
    "********"@
}

/// The settings for a table given by its address: the container and the
/// table are taken from the address, and the synchronisation is switched on.
pub open spec fn settings_for(app_id: Seq<char>, app_secret: Seq<char>, base_url: Seq<char>) -> Result<
    ConfigView,
    ErrorView,
> {
    match parsed_url(base_url) {
        Ok((app_token, table_id)) => Ok(
            ConfigView { app_id, app_secret, base_url, app_token, table_id, enabled: true },
        ),
        Err(e) => Err(e),
    }
}

/// The content of the outcome of making settings.
pub open spec fn settings_view(outcome: Result<FeishuConfig, FeishuSyncError>) -> Result<ConfigView, ErrorView> {
    match outcome {
        Ok(config) => Ok(config@),
        Err(e) => Err(e@),
    }
}

impl Clone for FeishuConfig {
    fn clone(&self) -> (copy: Self)
        ensures
            copy == *self,
    {
        FeishuConfig {
            app_id: self.app_id.clone(),
            app_secret: self.app_secret.clone(),
            base_url: self.base_url.clone(),
            app_token: self.app_token.clone(),
            table_id: self.table_id.clone(),
            enabled: self.enabled,
        }
    }
}

impl FeishuConfig {
    /// Makes the settings for a table given by its address. Fails where the
    /// address names no container or no table; settings that are made name
    /// both.
    pub fn for_table(app_id: String, app_secret: String, base_url: String) -> (outcome: Result<
        FeishuConfig,
        FeishuSyncError,
    >)
        ensures
            settings_view(outcome) == settings_for(app_id@, app_secret@, base_url@),
            outcome is Ok ==> outcome->Ok_0@.app_token.len() > 0 && outcome->Ok_0@.table_id.len() > 0,
    {
        match parse_feishu_base_url(base_url.as_str()) {
            Ok((app_token, table_id)) => Ok(
                FeishuConfig { app_id, app_secret, base_url, app_token, table_id, enabled: true },
            ),
            Err(e) => Err(e),
        }
    }

    /// The settings as they may be shown: the same, but for the secret, which
    /// is replaced by "********".
    pub fn masked(&self) -> (shown: FeishuConfig)
        ensures
            shown@ == (ConfigView { app_secret: hidden_secret(), ..self@ }),
    {
        FeishuConfig {
            app_id: self.app_id.clone(),
            app_secret: String::from_str("********"),
            base_url: self.base_url.clone(),
            app_token: self.app_token.clone(),
            table_id: self.table_id.clone(),
            enabled: self.enabled,
        }
    }
}

} // verus!
