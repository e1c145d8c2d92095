//! What holds of locks and of the personality.

use vstd::prelude::*;

use crate::config_lock::{
    lock_check, locked, replay_fault, replay_message, ConfigLockReplayOptions, ConfigLockfileToml,
    ConfigView, LockCheckErrorView, ReplayFault, SessionConfiguration,
};
use crate::laws::{
    pair_at_end, piece_at_end, piece_of_itself, piece_of_left, triple_at_end,
};
use crate::personality::{migration_for, Personality};
use crate::split::has_text;
use crate::text::opt_view;

verus! {

// ---------------------------------------------------------------------------
// Locks
// ---------------------------------------------------------------------------

/// A lock holds what the session came to: its model with all that belongs to it, its instructions
/// and prompts, its personality, and who approves what, whatever the configuration said.
pub proof fn locks_hold_what_the_session_came_to(
    session: SessionConfiguration,
    config: ConfigView,
)
    requires
        session.save_fields_resolved_from_model_catalog,
    ensures
        ({
            let lock = locked(session, config).resolved;
            &&& lock.model == Some(session.model@)
            &&& lock.model_reasoning_effort == opt_view(session.reasoning_effort)
            &&& lock.model_reasoning_summary == opt_view(session.model_reasoning_summary)
            &&& lock.service_tier == opt_view(session.service_tier)
            &&& lock.instructions == Some(session.base_instructions@)
            &&& lock.developer_instructions == opt_view(session.developer_instructions)
            &&& lock.compact_prompt == opt_view(session.compact_prompt)
            &&& lock.personality == opt_view(session.personality)
            &&& lock.approval_policy == Some(session.approval_policy@)
            &&& lock.approvals_reviewer == Some(session.approvals_reviewer@)
        }),
{
}

/// Where the session does not save what it came to, the lock keeps what the configuration said.
pub proof fn locks_keep_what_was_configured(session: SessionConfiguration, config: ConfigView)
    requires
        !session.save_fields_resolved_from_model_catalog,
    ensures
        locked(session, config).resolved == config.resolved,
{
}

/// A lock drops the profile and the profiles, the controls of the lock itself, all files that were
/// read, the sandbox, the permissions and the old switches, and keeps everything else.
pub proof fn locks_drop_where_values_came_from(session: SessionConfiguration, config: ConfigView)
    ensures
        ({
            let lock = locked(session, config);
            &&& lock.inputs.profile is None
            &&& forall|name: Seq<char>| !#[trigger] lock.inputs.profiles.contains_key(name)
            &&& lock.inputs.config_lockfile is None
            &&& lock.inputs.model_instructions_file is None
            &&& lock.inputs.experimental_instructions_file is None
            &&& lock.inputs.experimental_compact_prompt_file is None
            &&& lock.inputs.model_catalog_json is None
            &&& lock.inputs.sandbox_mode is None
            &&& lock.inputs.sandbox_workspace_write is None
            &&& lock.inputs.default_permissions is None
            &&& lock.inputs.permissions is None
            &&& lock.inputs.experimental_use_unified_exec_tool is None
            &&& lock.inputs.experimental_use_freeform_apply_patch is None
            &&& lock.has_debug == config.has_debug
            &&& lock.other_debug == config.other_debug
            &&& lock.other == config.other
        }),
{
}

/// A lock is replayed exactly where both locks have the same version and the same configuration,
/// and were made by the same program or may differ in that.
pub proof fn locks_are_replayed(
    expected: ConfigLockfileToml,
    actual: ConfigLockfileToml,
    options: ConfigLockReplayOptions,
)
    ensures
        replay_fault(expected, actual, options) is None <==> expected.version == actual.version
            && expected.config@ == actual.config@ && (expected.codex_version@
            == actual.codex_version@ || options.allow_codex_version_mismatch),
        !options.allow_codex_version_mismatch && expected.codex_version@ != actual.codex_version@
            ==> replay_fault(expected, actual, options) == Some(ReplayFault::CodexVersion),
        (options.allow_codex_version_mismatch || expected.codex_version@ == actual.codex_version@)
            && (expected.version != actual.version || expected.config@ != actual.config@)
            ==> replay_fault(expected, actual, options) == Some(ReplayFault::Config),
{
}

/// A complaint about a lock names what differs.
pub proof fn replay_faults_are_told(expected: ConfigLockfileToml, actual: ConfigLockfileToml)
    ensures
        has_text(
            replay_message(ReplayFault::CodexVersion, expected, actual),
            "config lock Codex version mismatch: lock was made by "@ + expected.codex_version@
                + ", this is "@,
        ),
        has_text(
            replay_message(ReplayFault::CodexVersion, expected, actual),
            ", this is "@ + actual.codex_version@,
        ),
        has_text(
            replay_message(ReplayFault::Config, expected, actual),
            expected.config@ + "\n--- actual\n"@ + actual.config@,
        ),
{
    broadcast use {piece_of_itself, piece_of_left, piece_at_end, pair_at_end, triple_at_end};

}

/// Only a session of its own that was given a lock is held to it: it has to be able to make its
/// own, and that has to replay the one it was given.
pub proof fn sessions_are_held_to_their_locks(
    non_root: bool,
    expected: ConfigLockfileToml,
    actual: Result<ConfigLockfileToml, String>,
    options: ConfigLockReplayOptions,
)
    ensures
        lock_check(non_root, None, actual, options) is None,
        lock_check(true, Some(expected), actual, options) is None,
        actual is Err ==> lock_check(false, Some(expected), actual, options) == Some(
            LockCheckErrorView::NotMade(actual->Err_0@),
        ),
        actual is Ok && replay_fault(expected, actual->Ok_0, options) is None ==> lock_check(
            false,
            Some(expected),
            actual,
            options,
        ) is None,
        actual is Ok && replay_fault(expected, actual->Ok_0, options) is Some ==> lock_check(
            false,
            Some(expected),
            actual,
            options,
        ) == Some(
            LockCheckErrorView::NotReplayed(
                replay_message(
                    replay_fault(expected, actual->Ok_0, options)->0,
                    expected,
                    actual->Ok_0,
                ),
            ),
        ),
{
}

/// A session that is refused is told why.
pub proof fn refusals_are_told(reason: Seq<char>)
    ensures
        LockCheckErrorView::NotMade(reason).text() == reason,
        LockCheckErrorView::NotMade(reason).full_text() == reason,
        LockCheckErrorView::NotReplayed(reason).text() == "config lock replay validation failed"@,
        LockCheckErrorView::NotReplayed(reason).full_text()
            == "config lock replay validation failed"@ + ": "@ + reason,
{
}

// ---------------------------------------------------------------------------
// The personality
// ---------------------------------------------------------------------------

/// The usual personality is set exactly for a user who was not asked before, chose none and has
/// used the program. Whoever was not asked before is not asked again.
pub proof fn old_users_get_the_usual_personality(
    marker: bool,
    chosen: Option<Personality>,
    sessions: bool,
    archived: bool,
)
    ensures
        ({
            let step = migration_for(marker, chosen, sessions, archived);
            let applies = !marker && chosen is None && (sessions || archived);
            &&& applies <==> step.set_personality == Some(Personality::Pragmatic)
            &&& !applies <==> step.set_personality is None
            &&& step.write_marker <==> !marker
            &&& step.status is SkippedMarker <==> marker
            &&& step.status is SkippedExplicitPersonality <==> !marker && chosen is Some
            &&& step.status is SkippedNoSessions <==> !marker && chosen is None && !sessions
                && !archived
            &&& step.status is Applied <==> applies
        }),
{
}

} // verus!
