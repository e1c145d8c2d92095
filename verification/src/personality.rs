//! The one-time step that gives existing users the personality that they are used to.

use vstd::prelude::*;

verus! {

/// How the assistant speaks.
#[derive(Clone, Copy, Debug, PartialEq, Eq, Structural)]
pub enum Personality {
    Friendly,
    Pragmatic,
}

/// The name of the file that says that the step was taken.
pub const PERSONALITY_MIGRATION_FILENAME: &'static str = ".personality_migration";

/// What came of the step.
#[derive(Clone, Copy, Debug, PartialEq, Eq, Structural)]
pub enum PersonalityMigrationStatus {
    SkippedMarker,
    SkippedExplicitPersonality,
    SkippedNoSessions,
    Applied,
}

/// What to do: the status to report, whether to write the marker, and the personality to set.
#[derive(Clone, Copy, Debug, PartialEq, Eq, Structural)]
pub struct PersonalityMigration {
    pub status: PersonalityMigrationStatus,
    pub write_marker: bool,
    pub set_personality: Option<Personality>,
}

/// The step for a user: nothing more where the marker is there; only the marker where a
/// personality is chosen or there are no sessions; and else the pragmatic personality.
pub open spec fn migration_for(
    marker: bool,
    chosen: Option<Personality>,
    sessions: bool,
    archived_sessions: bool,
) -> PersonalityMigration {
    if marker {
        PersonalityMigration {
            status: PersonalityMigrationStatus::SkippedMarker,
            write_marker: false,
            set_personality: None,
        }
    } else if chosen is Some {
        PersonalityMigration {
            status: PersonalityMigrationStatus::SkippedExplicitPersonality,
            write_marker: true,
            set_personality: None,
        }
    } else if !sessions && !archived_sessions {
        PersonalityMigration {
            status: PersonalityMigrationStatus::SkippedNoSessions,
            write_marker: true,
            set_personality: None,
        }
    } else {
        PersonalityMigration {
            status: PersonalityMigrationStatus::Applied,
            write_marker: true,
            set_personality: Some(Personality::Pragmatic),
        }
    }
}

/// The step for a user: whether the marker is there, the personality that the configuration
/// chooses, and whether there are sessions or archived sessions.
pub fn maybe_migrate_personality(
    marker: bool,
    chosen: Option<Personality>,
    sessions: bool,
    archived_sessions: bool,
) -> (out: PersonalityMigration)
    ensures
        out == migration_for(marker, chosen, sessions, archived_sessions),
{
    if marker {
        PersonalityMigration {
            status: PersonalityMigrationStatus::SkippedMarker,
            write_marker: false,
            set_personality: None,
        }
    } else if chosen.is_some() {
        PersonalityMigration {
            status: PersonalityMigrationStatus::SkippedExplicitPersonality,
            write_marker: true,
            set_personality: None,
        }
    } else if !sessions && !archived_sessions {
        PersonalityMigration {
            status: PersonalityMigrationStatus::SkippedNoSessions,
            write_marker: true,
            set_personality: None,
        }
    } else {
        PersonalityMigration {
            status: PersonalityMigrationStatus::Applied,
            write_marker: true,
            set_personality: Some(Personality::Pragmatic),
        }
    }
}

/// After the step the marker is there, so the step is taken at most once; and a chosen personality
/// is never replaced.
pub proof fn migration_happens_once(
    marker: bool,
    chosen: Option<Personality>,
    sessions: bool,
    archived_sessions: bool,
    later_chosen: Option<Personality>,
    later_sessions: bool,
    later_archived: bool,
)
    ensures
        marker || migration_for(marker, chosen, sessions, archived_sessions).write_marker,
        migration_for(
            marker || migration_for(marker, chosen, sessions, archived_sessions).write_marker,
            later_chosen,
            later_sessions,
            later_archived,
        ).set_personality is None,
        chosen is Some ==> migration_for(
            marker,
            chosen,
            sessions,
            archived_sessions,
        ).set_personality is None,
{
}

} // verus!
