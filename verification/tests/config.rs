use codex_teams::config_lock::{
    drop_lockfile_inputs, export_file_name, session_configuration_to_lock_config_toml,
    validate_config_lock_if_configured, validate_config_lock_replay, validates_config_lock,
    ConfigLockReplayOptions, ConfigLockfileToml, ConfigToml, DebugToml, LockCheckError,
    SessionConfiguration,
};
use codex_teams::order::StringMap;
use codex_teams::personality::{
    maybe_migrate_personality, Personality, PersonalityMigrationStatus,
};

fn text(value: &str) -> Option<String> {
    Some(value.to_string())
}

fn materialized() -> ConfigToml {
    let mut profiles = StringMap::new();
    profiles.insert("work".to_string(), "model = \"a\"".to_string());
    ConfigToml {
        model: None,
        model_reasoning_effort: None,
        model_reasoning_summary: None,
        service_tier: None,
        instructions: None,
        developer_instructions: None,
        compact_prompt: None,
        personality: None,
        approval_policy: None,
        approvals_reviewer: None,
        profile: text("work"),
        profiles,
        debug: Some(DebugToml { config_lockfile: text("/lock"), other: text("kept") }),
        model_instructions_file: text("/m"),
        experimental_instructions_file: text("/e"),
        experimental_compact_prompt_file: text("/c"),
        model_catalog_json: text("/j"),
        sandbox_mode: text("read-only"),
        sandbox_workspace_write: text("w"),
        default_permissions: text("p"),
        permissions: None,
        experimental_use_unified_exec_tool: Some(true),
        experimental_use_freeform_apply_patch: Some(false),
        other: "[memories]\n".to_string(),
    }
}

fn session(save: bool) -> SessionConfiguration {
    SessionConfiguration {
        model: "gpt".to_string(),
        reasoning_effort: text("high"),
        model_reasoning_summary: None,
        service_tier: text("flex"),
        base_instructions: "resolved instructions".to_string(),
        developer_instructions: text("resolved developer instructions"),
        compact_prompt: text("resolved compact prompt"),
        personality: text("pragmatic"),
        approval_policy: "never".to_string(),
        approvals_reviewer: "user".to_string(),
        is_non_root_agent: false,
        save_fields_resolved_from_model_catalog: save,
    }
}

fn lockfile(config: &str) -> ConfigLockfileToml {
    ConfigLockfileToml {
        version: 1,
        codex_version: "current".to_string(),
        config: config.to_string(),
    }
}

#[test]
fn lock_contains_prompts() {
    let lock = session_configuration_to_lock_config_toml(&session(true), materialized());
    assert_eq!(lock.instructions, text("resolved instructions"));
    assert_eq!(lock.developer_instructions, text("resolved developer instructions"));
    assert_eq!(lock.compact_prompt, text("resolved compact prompt"));
    assert_eq!(lock.model, text("gpt"));
    assert_eq!(lock.model_reasoning_effort, text("high"));
    assert_eq!(lock.service_tier, text("flex"));
    assert_eq!(lock.personality, text("pragmatic"));
    assert_eq!(lock.approval_policy, text("never"));
    assert_eq!(lock.approvals_reviewer, text("user"));
    assert_eq!(lock.profile, None);
    assert!(lock.profiles.is_empty());
    assert_eq!(lock.debug, Some(DebugToml { config_lockfile: None, other: text("kept") }));
    assert_eq!(lock.model_instructions_file, None);
    assert_eq!(lock.sandbox_mode, None);
    assert_eq!(lock.experimental_use_unified_exec_tool, None);
    assert_eq!(lock.other, "[memories]\n");
}

#[test]
fn lock_skips_session_values_when_model_catalog_fields_are_not_saved() {
    let lock = session_configuration_to_lock_config_toml(&session(false), materialized());
    assert_eq!(lock.model, None);
    assert_eq!(lock.model_reasoning_effort, None);
    assert_eq!(lock.model_reasoning_summary, None);
    assert_eq!(lock.service_tier, None);
    assert_eq!(lock.instructions, None);
    assert_eq!(lock.developer_instructions, None);
    assert_eq!(lock.compact_prompt, None);
    assert_eq!(lock.personality, None);
    assert_eq!(lock.approval_policy, None);
    assert_eq!(lock.approvals_reviewer, None);
}

#[test]
fn locking_a_lock_changes_nothing() {
    let once = session_configuration_to_lock_config_toml(&session(true), materialized());
    let mut twice = session_configuration_to_lock_config_toml(
        &session(true),
        session_configuration_to_lock_config_toml(&session(true), materialized()),
    );
    assert_eq!(once, twice);
    drop_lockfile_inputs(&mut twice);
    assert_eq!(once, twice);
}

#[test]
fn lock_validation_reports_config_diff() {
    let expected = lockfile("model = \"gpt\"\n");
    let actual = lockfile("model = \"different-model\"\n");
    let message =
        validate_config_lock_replay(&expected, &actual, ConfigLockReplayOptions::default())
            .expect_err("config drift should fail");
    assert!(message.contains("replayed effective config does not match config lock"));
    assert!(message.contains("model = "));
}

#[test]
fn lock_validation_rejects_codex_version_mismatch_by_default() {
    let mut expected = lockfile("");
    expected.codex_version = "older-version".to_string();
    let message =
        validate_config_lock_replay(&expected, &lockfile(""), ConfigLockReplayOptions::default())
            .expect_err("version drift should fail");
    assert!(message.contains("config lock Codex version mismatch"));
    assert!(message.contains("debug.config_lockfile.allow_codex_version_mismatch=true"));
}

#[test]
fn lock_validation_can_ignore_codex_version_mismatch() {
    let mut expected = lockfile("");
    expected.codex_version = "older-version".to_string();
    validate_config_lock_replay(
        &expected,
        &lockfile(""),
        ConfigLockReplayOptions { allow_codex_version_mismatch: true },
    )
    .expect("version drift should be ignored");
    validate_config_lock_replay(&expected, &expected, ConfigLockReplayOptions::default())
        .expect("a lock replays itself");
}

#[test]
fn only_root_sessions_replay_locks() {
    let mut sc = session(true);
    assert!(validates_config_lock(&sc, true));
    assert!(!validates_config_lock(&sc, false));
    sc.is_non_root_agent = true;
    assert!(!validates_config_lock(&sc, true));
    assert_eq!(export_file_name("c-1"), "c-1.config.lock.toml");
}

#[test]
fn sessions_are_held_to_their_locks() {
    let options = ConfigLockReplayOptions::default();
    let mut sc = session(true);
    let lock = Some(lockfile("a = 1\n"));
    let same: Result<ConfigLockfileToml, String> = Ok(lockfile("a = 1\n"));
    let other: Result<ConfigLockfileToml, String> = Ok(lockfile("a = 2\n"));
    let failed: Result<ConfigLockfileToml, String> = Err("no toml".to_string());
    assert_eq!(validate_config_lock_if_configured(&sc, &lock, &same, options), Ok(()));
    assert_eq!(validate_config_lock_if_configured(&sc, &None, &other, options), Ok(()));
    assert_eq!(validate_config_lock_if_configured(&sc, &None, &failed, options), Ok(()));
    let error = validate_config_lock_if_configured(&sc, &lock, &other, options)
        .expect_err("another configuration");
    assert_eq!(error.message(), "config lock replay validation failed");
    assert!(error
        .full_message()
        .starts_with("config lock replay validation failed: replayed effective config"));
    let error = validate_config_lock_if_configured(&sc, &lock, &failed, options)
        .expect_err("no lock of its own");
    assert_eq!(error, LockCheckError::NotMade("no toml".to_string()));
    assert_eq!(error.message(), "no toml");
    assert_eq!(error.full_message(), "no toml");
    sc.is_non_root_agent = true;
    assert_eq!(validate_config_lock_if_configured(&sc, &lock, &other, options), Ok(()));
    assert_eq!(validate_config_lock_if_configured(&sc, &lock, &failed, options), Ok(()));
}

#[test]
fn applies_when_sessions_exist_and_no_personality() {
    let step = maybe_migrate_personality(false, None, true, false);
    assert_eq!(step.status, PersonalityMigrationStatus::Applied);
    assert!(step.write_marker);
    assert_eq!(step.set_personality, Some(Personality::Pragmatic));
}

#[test]
fn applies_when_only_archived_sessions_exist_and_no_personality() {
    let step = maybe_migrate_personality(false, None, false, true);
    assert_eq!(step.status, PersonalityMigrationStatus::Applied);
    assert!(step.write_marker);
    assert_eq!(step.set_personality, Some(Personality::Pragmatic));
}

#[test]
fn skips_when_marker_exists() {
    let step = maybe_migrate_personality(true, None, true, true);
    assert_eq!(step.status, PersonalityMigrationStatus::SkippedMarker);
    assert_eq!(step.set_personality, None);
    assert!(!step.write_marker);
}

#[test]
fn skips_when_personality_explicit() {
    let step = maybe_migrate_personality(false, Some(Personality::Friendly), true, true);
    assert_eq!(step.status, PersonalityMigrationStatus::SkippedExplicitPersonality);
    assert!(step.write_marker);
    assert_eq!(step.set_personality, None);
}

#[test]
fn skips_when_no_sessions() {
    let step = maybe_migrate_personality(false, None, false, false);
    assert_eq!(step.status, PersonalityMigrationStatus::SkippedNoSessions);
    assert!(step.write_marker);
    assert_eq!(step.set_personality, None);
}
