use argon2::password_hash::{PasswordHasher, SaltString};
use argon2::Argon2;
use borg_vinculum::auth::verify_login;
use borg_vinculum::create::{
    create_failure, create_stats_from, render_progress_line, CreateRequest,
};
use borg_vinculum::drone_config::{config_mode_too_broad, log_level_name, run_config_of};
use borg_vinculum::drone_config::BorgConfig;
use borg_vinculum::drone_config::Config;
use borg_vinculum::drones::{
    auth_drone_check, delete_drone_check, generate_drone_token, key_file_mode_insecure,
    lookup_drone_check, validate_create_drone, CreateDroneRequest, DroneRecord,
};
use borg_vinculum::handler::ApiError;
use borg_vinculum::report::State;
use borg_vinculum::vinculum_config::rsh_option;

fn create_request(name: &str) -> CreateDroneRequest {
    CreateDroneRequest {
        name: name.to_string(),
        repository: "user@example.com:server/one".to_string(),
        passphrase: "secret".to_string(),
    }
}

#[test]
fn drone_creation_is_validated_in_order() {
    assert!(matches!(
        validate_create_drone(&create_request(""), 0, 0),
        Err(ApiError::InvalidName)
    ));
    assert!(matches!(
        validate_create_drone(&create_request("one"), 1, 0),
        Err(ApiError::NameAlreadyExists)
    ));
    assert!(matches!(
        validate_create_drone(&create_request("one"), 0, 1),
        Err(ApiError::RepositoryAlreadyExists)
    ));
    assert!(validate_create_drone(&create_request("one"), 0, 0).is_ok());
}

#[test]
fn drone_tokens_are_255_alphanumeric_characters() {
    let token = generate_drone_token();
    assert_eq!(token.chars().count(), 255);
    assert!(token.chars().all(|c| c.is_ascii_alphanumeric()));
    assert_ne!(generate_drone_token(), token);
}

#[test]
fn delete_and_lookup_checks() {
    assert!(matches!(delete_drone_check(0), Err(ApiError::InvalidUuid)));
    assert!(delete_drone_check(1).is_ok());

    let record = DroneRecord {
        name: "one".to_string(),
        active: true,
        token: "tok".to_string(),
        repository: "repo".to_string(),
        passphrase: "pass".to_string(),
    };
    assert!(matches!(lookup_drone_check(None), Err(ApiError::InvalidUuid)));
    assert_eq!(lookup_drone_check(Some(record.clone())).unwrap().name, "one");
    assert!(matches!(auth_drone_check(None), Err(ApiError::Unauthenticated)));
    assert_eq!(auth_drone_check(Some(record)).unwrap().token, "tok");
}

#[test]
fn login_verifies_the_password_against_the_stored_hash() {
    let salt = SaltString::encode_b64(b"somesalthere").unwrap();
    let hash = Argon2::default()
        .hash_password(b"hunter2", &salt)
        .unwrap()
        .to_string();

    assert!(verify_login(b"hunter2", Some(&hash)).is_ok());
    assert!(matches!(
        verify_login(b"wrong", Some(&hash)),
        Err(ApiError::LoginFailed)
    ));
    assert!(matches!(verify_login(b"hunter2", None), Err(ApiError::LoginFailed)));
    let garbage = "not-a-phc-hash".to_string();
    assert!(matches!(
        verify_login(b"hunter2", Some(&garbage)),
        Err(ApiError::InvalidHash(_))
    ));
}

#[test]
fn config_file_permissions_rule() {
    assert!(!config_mode_too_broad(0o100600));
    assert!(!config_mode_too_broad(0o100400));
    assert!(!config_mode_too_broad(0o100640));
    assert!(config_mode_too_broad(0o100604));
    assert!(config_mode_too_broad(0o100620));
    assert!(config_mode_too_broad(0o100666));
}

#[test]
fn key_file_permissions_rule() {
    assert!(!key_file_mode_insecure(0o600));
    assert!(!key_file_mode_insecure(0o400));
    assert!(key_file_mode_insecure(0o640));
    assert!(key_file_mode_insecure(0o601));
    assert!(key_file_mode_insecure(0o700));
}

#[test]
fn log_level_follows_verbosity() {
    assert_eq!(log_level_name(0), "info");
    assert_eq!(log_level_name(1), "debug");
    assert_eq!(log_level_name(2), "trace");
    assert_eq!(log_level_name(9), "trace");
}

#[test]
fn rsh_option_quotes_the_key_path() {
    assert_eq!(
        rsh_option("/etc/vinculum/key").unwrap(),
        "ssh -i /etc/vinculum/key -o 'StrictHostKeyChecking accept-new'"
    );
    // a path with a space must be quoted, not passed through
    let spaced = rsh_option("/etc/my vinculum/key").unwrap();
    assert_ne!(
        spaced,
        "ssh -i /etc/my vinculum/key -o 'StrictHostKeyChecking accept-new'"
    );
    assert!(spaced.starts_with("ssh -i "));
    assert!(spaced.ends_with(" -o 'StrictHostKeyChecking accept-new'"));
    // a nul character cannot be quoted
    assert!(rsh_option("/etc/\u{0}key").is_none());
}

#[test]
fn create_request_fixes_the_policy_flags() {
    let borg = BorgConfig {
        remote_path: Some("/usr/local/bin/borg".to_string()),
        pattern_file_path: "/etc/borg-drone/patterns".to_string(),
        repository: "user@example.com:server/one".to_string(),
        passphrase: "secret".to_string(),
    };
    let request = CreateRequest::from_config(&borg);
    assert_eq!(request.repository, "user@example.com:server/one");
    assert_eq!(request.archive, "{utcnow}");
    assert_eq!(request.passphrase, "secret");
    assert_eq!(request.pattern_file_path, "/etc/borg-drone/patterns");
    assert_eq!(request.remote_path.as_deref(), Some("/usr/local/bin/borg"));
    assert!(request.compression_lz4);
    assert!(request.sparse);
    assert!(!request.exclude_caches);
    assert!(!request.numeric_ids);
    assert!(!request.read_special);
    assert!(!request.no_xattrs);
    assert!(!request.no_acls);
    assert!(!request.no_flags);
}

#[test]
fn create_stats_and_failure_report() {
    let stats = create_stats_from(10, 5, 2, 42, 60);
    assert_eq!(stats.original_size, 10);
    assert_eq!(stats.compressed_size, 5);
    assert_eq!(stats.deduplicated_size, 2);
    assert_eq!(stats.nfiles, 42);
    assert_eq!(stats.duration, 60);

    let report = create_failure("repository does not exist");
    assert_eq!(report.state, State::Create);
    assert_eq!(report.custom.as_deref(), Some("repository does not exist"));
    assert!(report.stdout.is_none());
    assert!(report.stderr.is_none());
}

#[test]
fn progress_lines_scale_the_sizes() {
    // below one kilobyte the unit stays in plain bytes
    assert_eq!(
        render_progress_line(500, 120, 0, "/etc/motd"),
        "O: 500 B, C: 120 B, D: 0 B, Path: /etc/motd"
    );
    // larger sizes are scaled, so the raw number must not appear as-is
    let scaled = render_progress_line(2_000_000, 1_500, 0, "/var/lib/db");
    assert_eq!(scaled, "O: 2.00 MB, C: 1.50 KB, D: 0 B, Path: /var/lib/db");
}

#[test]
fn run_config_is_built_from_config_and_flags() {
    let config = Config {
        vinculum_address: "https://vinculum.example.com".to_string(),
        vinculum_token: "tok".to_string(),
        pre_hook: "echo pre".to_string(),
        post_hook: "".to_string(),
        borg: BorgConfig {
            remote_path: None,
            pattern_file_path: "/etc/borg-drone/patterns".to_string(),
            repository: "repo".to_string(),
            passphrase: "pass".to_string(),
        },
    };
    let run = run_config_of(&config, true, false);
    assert_eq!(run.pre_hook, "echo pre");
    assert_eq!(run.post_hook, "");
    assert!(run.dry_run);
    assert!(!run.progress);
}

#[test]
fn state_messages() {
    assert_eq!(State::PreHook.message(), "pre hook");
    assert_eq!(State::Create.message(), "archive creation");
    assert_eq!(State::PostHook.message(), "post hook");
}
