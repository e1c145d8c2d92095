//! Config locks: what a session's configuration comes to, in a form that can be replayed.

use vstd::prelude::*;

use crate::order::StringMap;
use crate::permissions::PermissionsToml;
use crate::text::{opt_view, same_text};

verus! {

// ---------------------------------------------------------------------------
// Configurations
// ---------------------------------------------------------------------------

/// The debug settings of a configuration.
#[derive(Debug, PartialEq, Eq)]
pub struct DebugToml {
    /// The controls of the config lock itself.
    pub config_lockfile: Option<String>,
    /// The other debug settings, as text.
    pub other: Option<String>,
}

/// A configuration. Settings that choose one of several named values hold the name.
#[derive(Debug, PartialEq, Eq)]
pub struct ConfigToml {
    pub model: Option<String>,
    pub model_reasoning_effort: Option<String>,
    pub model_reasoning_summary: Option<String>,
    pub service_tier: Option<String>,
    pub instructions: Option<String>,
    pub developer_instructions: Option<String>,
    pub compact_prompt: Option<String>,
    pub personality: Option<String>,
    pub approval_policy: Option<String>,
    pub approvals_reviewer: Option<String>,
    pub profile: Option<String>,
    pub profiles: StringMap<String>,
    pub debug: Option<DebugToml>,
    pub model_instructions_file: Option<String>,
    pub experimental_instructions_file: Option<String>,
    pub experimental_compact_prompt_file: Option<String>,
    pub model_catalog_json: Option<String>,
    pub sandbox_mode: Option<String>,
    pub sandbox_workspace_write: Option<String>,
    pub default_permissions: Option<String>,
    pub permissions: Option<PermissionsToml>,
    pub experimental_use_unified_exec_tool: Option<bool>,
    pub experimental_use_freeform_apply_patch: Option<bool>,
    /// The settings that a lock takes over as they are, as text.
    pub other: String,
}

/// What a session decided while it was set up.
pub struct SessionConfiguration {
    pub model: String,
    pub reasoning_effort: Option<String>,
    pub model_reasoning_summary: Option<String>,
    /// The service tier that the session's request value stands for, where it stands for one.
    pub service_tier: Option<String>,
    pub base_instructions: String,
    pub developer_instructions: Option<String>,
    pub compact_prompt: Option<String>,
    pub personality: Option<String>,
    pub approval_policy: String,
    pub approvals_reviewer: String,
    /// The session belongs to an agent that another one started.
    pub is_non_root_agent: bool,
    /// Whether a lock takes over what the session resolved from the model catalog.
    pub save_fields_resolved_from_model_catalog: bool,
}

/// The settings that a session resolves.
#[verifier::ext_equal]
pub struct ResolvedView {
    pub model: Option<Seq<char>>,
    pub model_reasoning_effort: Option<Seq<char>>,
    pub model_reasoning_summary: Option<Seq<char>>,
    pub service_tier: Option<Seq<char>>,
    pub instructions: Option<Seq<char>>,
    pub developer_instructions: Option<Seq<char>>,
    pub compact_prompt: Option<Seq<char>>,
    pub personality: Option<Seq<char>>,
    pub approval_policy: Option<Seq<char>>,
    pub approvals_reviewer: Option<Seq<char>>,
}

/// The settings that a lock drops: they produced the session's values, or belong to the machine or
/// to the lock itself.
#[verifier::ext_equal]
pub struct InputsView {
    pub profile: Option<Seq<char>>,
    pub profiles: Map<Seq<char>, String>,
    pub config_lockfile: Option<Seq<char>>,
    pub model_instructions_file: Option<Seq<char>>,
    pub experimental_instructions_file: Option<Seq<char>>,
    pub experimental_compact_prompt_file: Option<Seq<char>>,
    pub model_catalog_json: Option<Seq<char>>,
    pub sandbox_mode: Option<Seq<char>>,
    pub sandbox_workspace_write: Option<Seq<char>>,
    pub default_permissions: Option<Seq<char>>,
    pub permissions: Option<PermissionsToml>,
    pub experimental_use_unified_exec_tool: Option<bool>,
    pub experimental_use_freeform_apply_patch: Option<bool>,
}

/// A configuration by its parts.
#[verifier::ext_equal]
pub struct ConfigView {
    pub resolved: ResolvedView,
    pub inputs: InputsView,
    /// There are debug settings.
    pub has_debug: bool,
    pub other_debug: Option<Seq<char>>,
    pub other: Seq<char>,
}

impl View for ConfigToml {
    type V = ConfigView;

    open spec fn view(&self) -> ConfigView {
        ConfigView {
            resolved: ResolvedView {
                model: opt_view(self.model),
                model_reasoning_effort: opt_view(self.model_reasoning_effort),
                model_reasoning_summary: opt_view(self.model_reasoning_summary),
                service_tier: opt_view(self.service_tier),
                instructions: opt_view(self.instructions),
                developer_instructions: opt_view(self.developer_instructions),
                compact_prompt: opt_view(self.compact_prompt),
                personality: opt_view(self.personality),
                approval_policy: opt_view(self.approval_policy),
                approvals_reviewer: opt_view(self.approvals_reviewer),
            },
            inputs: InputsView {
                profile: opt_view(self.profile),
                profiles: self.profiles@,
                config_lockfile: match self.debug {
                    Some(debug) => opt_view(debug.config_lockfile),
                    None => None,
                },
                model_instructions_file: opt_view(self.model_instructions_file),
                experimental_instructions_file: opt_view(self.experimental_instructions_file),
                experimental_compact_prompt_file: opt_view(self.experimental_compact_prompt_file),
                model_catalog_json: opt_view(self.model_catalog_json),
                sandbox_mode: opt_view(self.sandbox_mode),
                sandbox_workspace_write: opt_view(self.sandbox_workspace_write),
                default_permissions: opt_view(self.default_permissions),
                permissions: self.permissions,
                experimental_use_unified_exec_tool: self.experimental_use_unified_exec_tool,
                experimental_use_freeform_apply_patch: self.experimental_use_freeform_apply_patch,
            },
            has_debug: self.debug is Some,
            other_debug: match self.debug {
                Some(debug) => opt_view(debug.other),
                None => None,
            },
            other: self.other@,
        }
    }
}

// ---------------------------------------------------------------------------
// Making a lock
// ---------------------------------------------------------------------------

/// What a session resolved.
pub open spec fn resolved_by(session: SessionConfiguration) -> ResolvedView {
    ResolvedView {
        model: Some(session.model@),
        model_reasoning_effort: opt_view(session.reasoning_effort),
        model_reasoning_summary: opt_view(session.model_reasoning_summary),
        service_tier: opt_view(session.service_tier),
        instructions: Some(session.base_instructions@),
        developer_instructions: opt_view(session.developer_instructions),
        compact_prompt: opt_view(session.compact_prompt),
        personality: opt_view(session.personality),
        approval_policy: Some(session.approval_policy@),
        approvals_reviewer: Some(session.approvals_reviewer@),
    }
}

/// No inputs at all.
pub open spec fn no_inputs() -> InputsView {
    InputsView {
        profile: None,
        profiles: Map::empty(),
        config_lockfile: None,
        model_instructions_file: None,
        experimental_instructions_file: None,
        experimental_compact_prompt_file: None,
        model_catalog_json: None,
        sandbox_mode: None,
        sandbox_workspace_write: None,
        default_permissions: None,
        permissions: None,
        experimental_use_unified_exec_tool: None,
        experimental_use_freeform_apply_patch: None,
    }
}

/// The configuration with what the session resolved.
pub open spec fn with_resolved(config: ConfigView, resolved: ResolvedView) -> ConfigView {
    ConfigView { resolved, ..config }
}

/// The configuration without its inputs.
pub open spec fn without_inputs(config: ConfigView) -> ConfigView {
    ConfigView { inputs: no_inputs(), ..config }
}

/// Saves what the session chose from the model catalog, the collaboration mode and the prompt
/// setup. These values are not always in the layers of the configuration, so they come from the
/// session where the lock should stand on its own.
pub fn save_session_resolved_fields(session: &SessionConfiguration, lock: &mut ConfigToml)
    ensures
        final(lock)@ == with_resolved(old(lock)@, resolved_by(*session)),
{
    lock.model = Some(session.model.clone());
    lock.model_reasoning_effort = session.reasoning_effort.clone();
    lock.model_reasoning_summary = session.model_reasoning_summary.clone();
    lock.service_tier = session.service_tier.clone();
    lock.instructions = Some(session.base_instructions.clone());
    lock.developer_instructions = session.developer_instructions.clone();
    lock.compact_prompt = session.compact_prompt.clone();
    lock.personality = session.personality.clone();
    lock.approval_policy = Some(session.approval_policy.clone());
    lock.approvals_reviewer = Some(session.approvals_reviewer.clone());
}

/// Drops the profile, debug-control, file and environment inputs: a lock holds values that can be
/// replayed, not what produced them.
pub fn drop_lockfile_inputs(lock: &mut ConfigToml)
    ensures
        final(lock)@ == without_inputs(old(lock)@),
{
    lock.profile = None;
    lock.profiles = StringMap::new();
    let debug = lock.debug.take();
    lock.debug = match debug {
        Some(debug) => Some(DebugToml { config_lockfile: None, other: debug.other }),
        None => None,
    };
    lock.model_instructions_file = None;
    lock.experimental_instructions_file = None;
    lock.experimental_compact_prompt_file = None;
    lock.model_catalog_json = None;
    lock.sandbox_mode = None;
    lock.sandbox_workspace_write = None;
    lock.default_permissions = None;
    lock.permissions = None;
    lock.experimental_use_unified_exec_tool = None;
    lock.experimental_use_freeform_apply_patch = None;
}

/// The configuration that a lock holds, from the session's materialized configuration.
pub open spec fn locked(session: SessionConfiguration, config: ConfigView) -> ConfigView {
    if session.save_fields_resolved_from_model_catalog {
        without_inputs(with_resolved(config, resolved_by(session)))
    } else {
        without_inputs(config)
    }
}

/// The configuration that a lock holds, from the session's materialized configuration.
pub fn session_configuration_to_lock_config_toml(
    session: &SessionConfiguration,
    materialized: ConfigToml,
) -> (lock: ConfigToml)
    ensures
        lock@ == locked(*session, materialized@),
{
    let mut lock = materialized;
    if session.save_fields_resolved_from_model_catalog {
        save_session_resolved_fields(session, &mut lock);
    }
    drop_lockfile_inputs(&mut lock);
    lock
}

/// Locking what a lock holds gives the same lock.
pub proof fn locking_is_idempotent(session: SessionConfiguration, config: ConfigView)
    ensures
        locked(session, locked(session, config)) == locked(session, config),
{
}

/// A lock does not depend on the inputs that it drops.
pub proof fn lock_ignores_inputs(session: SessionConfiguration, a: ConfigView, b: ConfigView)
    requires
        without_inputs(a) == without_inputs(b),
    ensures
        locked(session, a) == locked(session, b),
{
    assert(a.resolved == without_inputs(a).resolved && b.resolved == without_inputs(b).resolved);
    assert(a.has_debug == without_inputs(a).has_debug && b.has_debug == without_inputs(
        b,
    ).has_debug);
    assert(a.other_debug == without_inputs(a).other_debug && b.other_debug == without_inputs(
        b,
    ).other_debug);
    assert(a.other == without_inputs(a).other && b.other == without_inputs(b).other);
}

/// What the session resolved is in the lock exactly where it is to be saved; otherwise the lock
/// keeps what the configuration says.
pub proof fn lock_holds_resolved_fields(session: SessionConfiguration, config: ConfigView)
    ensures
        locked(session, config).resolved == if session.save_fields_resolved_from_model_catalog {
            resolved_by(session)
        } else {
            config.resolved
        },
        locked(session, config).inputs == no_inputs(),
        locked(session, config).other == config.other,
{
}

// ---------------------------------------------------------------------------
// Replaying a lock
// ---------------------------------------------------------------------------

/// A lock: its format, the program that made it, and its configuration as it is written.
#[derive(Clone, Debug, PartialEq, Eq)]
pub struct ConfigLockfileToml {
    pub version: u32,
    pub codex_version: String,
    pub config: String,
}

/// How a lock is replayed.
#[derive(Clone, Copy, Debug, PartialEq, Eq, Structural)]
pub struct ConfigLockReplayOptions {
    pub allow_codex_version_mismatch: bool,
}

impl Default for ConfigLockReplayOptions {
    fn default() -> (out: Self)
        ensures
            !out.allow_codex_version_mismatch,
    {
        ConfigLockReplayOptions { allow_codex_version_mismatch: false }
    }
}

/// Why a lock cannot be replayed.
#[derive(Clone, Copy, Debug, PartialEq, Eq, Structural)]
pub enum ReplayFault {
    CodexVersion,
    Config,
}

/// What keeps a lock from being replayed: it was made by another version of the program, unless
/// that is allowed, or the session's configuration is another one.
pub open spec fn replay_fault(
    expected: ConfigLockfileToml,
    actual: ConfigLockfileToml,
    options: ConfigLockReplayOptions,
) -> Option<ReplayFault> {
    if !options.allow_codex_version_mismatch && expected.codex_version@ != actual.codex_version@ {
        Some(ReplayFault::CodexVersion)
    } else if expected.version != actual.version || expected.config@ != actual.config@ {
        Some(ReplayFault::Config)
    } else {
        None
    }
}

/// The message of a lock that cannot be replayed.
pub open spec fn replay_message(
    fault: ReplayFault,
    expected: ConfigLockfileToml,
    actual: ConfigLockfileToml,
) -> Seq<char> {
    match fault {
        ReplayFault::CodexVersion => "config lock Codex version mismatch: lock was made by "@
            + expected.codex_version@ + ", this is "@ + actual.codex_version@
            + "; set debug.config_lockfile.allow_codex_version_mismatch=true to replay it anyway"@,
        ReplayFault::Config =>
            "replayed effective config does not match config lock\n--- expected\n"@
            + expected.config@ + "\n--- actual\n"@ + actual.config@,
    }
}

/// Checks that a session's lock is the one that it replays.
pub fn validate_config_lock_replay(
    expected: &ConfigLockfileToml,
    actual: &ConfigLockfileToml,
    options: ConfigLockReplayOptions,
) -> (out: Result<(), String>)
    ensures
        match replay_fault(*expected, *actual, options) {
            None => out is Ok,
            Some(fault) => out is Err && out->Err_0@ == replay_message(fault, *expected, *actual),
        },
{
    if !options.allow_codex_version_mismatch && !same_text(
        expected.codex_version.as_str(),
        actual.codex_version.as_str(),
    ) {
        let mut message = "config lock Codex version mismatch: lock was made by ".to_string();
        message.append(expected.codex_version.as_str());
        message.append(", this is ");
        message.append(actual.codex_version.as_str());
        message.append(
            "; set debug.config_lockfile.allow_codex_version_mismatch=true to replay it anyway",
        );
        return Err(message);
    }
    if expected.version != actual.version || !same_text(
        expected.config.as_str(),
        actual.config.as_str(),
    ) {
        let mut message = "replayed effective config does not match config lock\n--- expected\n".to_string();
        message.append(expected.config.as_str());
        message.append("\n--- actual\n");
        message.append(actual.config.as_str());
        return Err(message);
    }
    Ok(())
}

/// Every lock can be replayed by the session that it came from.
pub proof fn lock_replays_itself(lock: ConfigLockfileToml, options: ConfigLockReplayOptions)
    ensures
        replay_fault(lock, lock, options) is None,
{
}

/// The session has to replay a lock: one was given, and the session is not that of an agent that
/// another one started.
pub fn validates_config_lock(session: &SessionConfiguration, has_lock: bool) -> (yes: bool)
    ensures
        yes == (has_lock && !session.is_non_root_agent),
{
    has_lock && !session.is_non_root_agent
}

/// What the user is told about a session that does not replay its lock.
pub const REPLAY_FAILED: &'static str = "config lock replay validation failed";

/// Why a session is not accepted.
#[derive(Clone, Debug, PartialEq, Eq)]
pub enum LockCheckError {
    /// The lock of the session could not be made, for this reason.
    NotMade(String),
    /// The session does not replay its lock, for this reason.
    NotReplayed(String),
}

/// Why a session is not accepted.
pub enum LockCheckErrorView {
    NotMade(Seq<char>),
    NotReplayed(Seq<char>),
}

impl View for LockCheckError {
    type V = LockCheckErrorView;

    open spec fn view(&self) -> LockCheckErrorView {
        match self {
            LockCheckError::NotMade(reason) => LockCheckErrorView::NotMade(reason@),
            LockCheckError::NotReplayed(reason) => LockCheckErrorView::NotReplayed(reason@),
        }
    }
}

impl LockCheckErrorView {
    /// What the user is told.
    pub open spec fn text(self) -> Seq<char> {
        match self {
            LockCheckErrorView::NotMade(reason) => reason,
            LockCheckErrorView::NotReplayed(_) => REPLAY_FAILED@,
        }
    }

    /// What the user is told, with the reason behind it.
    pub open spec fn full_text(self) -> Seq<char> {
        match self {
            LockCheckErrorView::NotMade(reason) => reason,
            LockCheckErrorView::NotReplayed(reason) => REPLAY_FAILED@ + ": "@ + reason,
        }
    }
}

impl LockCheckError {
    /// What the user is told.
    pub fn message(&self) -> (out: String)
        ensures
            out@ == self@.text(),
    {
        match self {
            LockCheckError::NotMade(reason) => reason.clone(),
            LockCheckError::NotReplayed(_) => REPLAY_FAILED.to_string(),
        }
    }

    /// What the user is told, with the reason behind it.
    pub fn full_message(&self) -> (out: String)
        ensures
            out@ == self@.full_text(),
    {
        match self {
            LockCheckError::NotMade(reason) => reason.clone(),
            LockCheckError::NotReplayed(reason) => {
                let mut out = REPLAY_FAILED.to_string();
                out.append(": ");
                out.append(reason.as_str());
                out
            },
        }
    }
}

/// Why a session is not accepted, where it is not. That of an agent that another one started is,
/// and so is one without a lock; any other has to be able to make its lock and to replay the one
/// that it was given.
pub open spec fn lock_check(
    is_non_root_agent: bool,
    expected: Option<ConfigLockfileToml>,
    actual: Result<ConfigLockfileToml, String>,
    options: ConfigLockReplayOptions,
) -> Option<LockCheckErrorView> {
    match expected {
        Some(expected) => if is_non_root_agent {
            None
        } else {
            match actual {
                Err(reason) => Some(LockCheckErrorView::NotMade(reason@)),
                Ok(actual) => match replay_fault(expected, actual, options) {
                    Some(fault) => Some(
                        LockCheckErrorView::NotReplayed(replay_message(fault, expected, actual)),
                    ),
                    None => None,
                },
            }
        },
        None => None,
    }
}

/// Decides whether a session is accepted. `expected` is the lock that it was given, where it was
/// given one, and `actual` is its own lock.
pub fn validate_config_lock_if_configured(
    session: &SessionConfiguration,
    expected: &Option<ConfigLockfileToml>,
    actual: &Result<ConfigLockfileToml, String>,
    options: ConfigLockReplayOptions,
) -> (out: Result<(), LockCheckError>)
    ensures
        match lock_check(session.is_non_root_agent, *expected, *actual, options) {
            None => out is Ok,
            Some(error) => out matches Err(found) && found@ == error,
        },
{
    if !validates_config_lock(session, expected.is_some()) {
        return Ok(());
    }
    match (expected, actual) {
        (Some(expected), Ok(actual)) => {
            match validate_config_lock_replay(expected, actual, options) {
                Ok(()) => Ok(()),
                Err(reason) => Err(LockCheckError::NotReplayed(reason)),
            }
        },
        (Some(_), Err(reason)) => Err(LockCheckError::NotMade(reason.clone())),
        (None, _) => Ok(()),
    }
}

/// A session that another agent started is accepted whatever lock there is, and so is one that
/// replays its own lock.
pub proof fn sessions_that_are_accepted(
    is_non_root_agent: bool,
    lock: ConfigLockfileToml,
    actual: Result<ConfigLockfileToml, String>,
    options: ConfigLockReplayOptions,
)
    requires
        is_non_root_agent || actual == Ok::<ConfigLockfileToml, String>(lock),
    ensures
        lock_check(is_non_root_agent, Some(lock), actual, options) is None,
{
}

/// The name of the file to which a conversation's lock is exported.
pub fn export_file_name(conversation: &str) -> (out: String)
    ensures
        out@ == conversation@ + ".config.lock.toml"@,
{
    let mut out = conversation.to_string();
    out.append(".config.lock.toml");
    out
}

} // verus!
