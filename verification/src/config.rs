//! The settings that the interactive front end reads.
use vstd::prelude::*;

use crate::messages::QueueMode;
use crate::policy::{
    resolution, resolve_extension_policy_with_metadata, ExtensionPolicy, ExtensionPolicyConfig,
    ResolvedExtensionPolicy,
};
use crate::text::{copy_text, opt_chars, same_text, str_chars};

verus! {

broadcast use vstd::string::group_string_axioms;

/// The mode that a setting names; one message at a time unless it is `all`.
pub open spec fn queue_mode_of(mode: Option<Seq<char>>) -> QueueMode {
    if mode == Some("all"@) {
        QueueMode::All
    } else {
        QueueMode::OneAtATime
    }
}

/// Reads a queue mode from a setting.
pub fn parse_queue_mode_or_default(mode: Option<&str>) -> (r: QueueMode)
    ensures
        r == queue_mode_of(str_chars(mode)),
{
    match mode {
        Some(mode) => if same_text(mode, "all") {
            QueueMode::All
        } else {
            QueueMode::OneAtATime
        },
        None => QueueMode::OneAtATime,
    }
}

/// Settings.
#[derive(Debug, PartialEq)]
pub struct Config {
    pub steering_mode: Option<String>,
    pub follow_up_mode: Option<String>,
    /// Whether the session is compacted when it grows too long. It is unless set otherwise.
    pub compaction_enabled: Option<bool>,
    /// What extensions may do.
    pub extension_policy: Option<ExtensionPolicyConfig>,
}

impl Config {
    pub open spec fn steering(self) -> QueueMode {
        queue_mode_of(opt_chars(self.steering_mode))
    }

    pub open spec fn follow_up(self) -> QueueMode {
        queue_mode_of(opt_chars(self.follow_up_mode))
    }

    pub open spec fn compacts(self) -> bool {
        self.compaction_enabled != Some(false)
    }

    /// The mode of the steering queue.
    pub fn steering_queue_mode(&self) -> (r: QueueMode)
        ensures
            r == self.steering(),
    {
        match &self.steering_mode {
            Some(mode) => parse_queue_mode_or_default(Some(mode.as_str())),
            None => parse_queue_mode_or_default(None),
        }
    }

    /// The mode of the follow-up queue.
    pub fn follow_up_queue_mode(&self) -> (r: QueueMode)
        ensures
            r == self.follow_up(),
    {
        match &self.follow_up_mode {
            Some(mode) => parse_queue_mode_or_default(Some(mode.as_str())),
            None => parse_queue_mode_or_default(None),
        }
    }

    /// Whether the session is compacted when it grows too long.
    pub fn compaction_enabled(&self) -> (r: bool)
        ensures
            r == self.compacts(),
    {
        match self.compaction_enabled {
            Some(enabled) => enabled,
            None => true,
        }
    }

    /// Chooses the policy for extensions, and tells how it was chosen. The command line outweighs
    /// the environment, and that outweighs these settings.
    pub fn resolve_extension_policy_with_metadata(
        &self,
        cli: Option<&str>,
        env: Option<&str>,
        env_opt_in: Option<bool>,
    ) -> (r: ResolvedExtensionPolicy)
        ensures
            r@ == resolution(
                str_chars(cli),
                str_chars(env),
                env_opt_in,
                self.extension_policy,
            ),
    {
        match &self.extension_policy {
            Some(settings) => resolve_extension_policy_with_metadata(
                cli,
                env,
                env_opt_in,
                Some(settings),
            ),
            None => resolve_extension_policy_with_metadata(cli, env, env_opt_in, None),
        }
    }

    /// Chooses the policy for extensions.
    pub fn resolve_extension_policy(
        &self,
        cli: Option<&str>,
        env: Option<&str>,
        env_opt_in: Option<bool>,
    ) -> (r: ExtensionPolicy)
        ensures
            r@ == resolution(
                str_chars(cli),
                str_chars(env),
                env_opt_in,
                self.extension_policy,
            ).policy,
    {
        self.resolve_extension_policy_with_metadata(cli, env, env_opt_in).policy
    }
}

impl Clone for Config {
    fn clone(&self) -> (r: Config)
        ensures
            r == *self,
    {
        Config {
            steering_mode: copy_text(&self.steering_mode),
            follow_up_mode: copy_text(&self.follow_up_mode),
            compaction_enabled: self.compaction_enabled,
            extension_policy: match &self.extension_policy {
                Some(settings) => Some(settings.clone()),
                None => None,
            },
        }
    }
}

impl Default for Config {
    fn default() -> (r: Config)
        ensures
            r.steering_mode is None,
            r.follow_up_mode is None,
            r.compaction_enabled is None,
            r.extension_policy is None,
    {
        Config {
            steering_mode: None,
            follow_up_mode: None,
            compaction_enabled: None,
            extension_policy: None,
        }
    }
}

/// Only the setting `all` takes all waiting messages at once. Compaction is on unless it is set
/// off.
pub proof fn law_settings(config: Config)
    ensures
        config.steering() is All <==> (config.steering_mode matches Some(mode) && mode@ == "all"@),
        config.follow_up() is All <==> (config.follow_up_mode matches Some(mode) && mode@
            == "all"@),
        config.compaction_enabled is None ==> config.compacts(),
        config.compaction_enabled matches Some(enabled) ==> config.compacts() == enabled,
{
}

/// A setting is read as `all` or as one at a time.
pub proof fn law_queue_mode_setting(mode: Option<Seq<char>>)
    ensures
        queue_mode_of(mode) is All <==> (mode matches Some(name) && name == "all"@),
{
}

} // verus!
