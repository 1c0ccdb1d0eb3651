use checklints::cli::Cli;
use checklints::env::EnvVars;
use checklints::settings::{prefix_key, MaybeSettings, Settings, SettingsError};

fn no_args() -> Cli {
    Cli {
        verbose: false,
        checks: Vec::new(),
        project_dir: None,
        no_read_cache: false,
        no_write_cache: false,
        no_cache: false,
        clear_cache: false,
        no_user_checklists: false,
        fail_fast: false,
        external_checklist: Vec::new(),
        external_template: Vec::new(),
    }
}

#[test]
fn prefix_key_uses_crate_name() {
    assert_eq!(prefix_key("FAIL_FAST"), "CHECKLINTS_FAIL_FAST");
}

#[test]
fn defaults_build() {
    let s = Settings::builder().build().unwrap();
    assert!(s.user_checklists());
    assert!(!s.fail_fast());
    assert!(!s.no_read_cache());
    assert!(!s.no_write_cache());
    assert!(!s.clear_cache());
}

#[test]
fn empty_layer_names_first_missing_option() {
    let e = MaybeSettings::empty().to_settings().unwrap_err();
    assert_eq!(e, SettingsError::NotSet { option: "user_checklists".to_string() });
    let mut m = MaybeSettings::empty();
    m.user_checklists = Some(true);
    m.fail_fast = Some(false);
    m.no_read_cache = Some(false);
    assert_eq!(
        m.to_settings().unwrap_err(),
        SettingsError::NotSet { option: "no_write_cache".to_string() }
    );
}

#[test]
fn no_cache_implies_no_read_and_no_write() {
    let mut m = MaybeSettings::empty();
    m.user_checklists = Some(true);
    m.fail_fast = Some(false);
    m.no_cache = Some(true);
    m.clear_cache = Some(false);
    let s = m.to_settings().unwrap();
    assert!(s.no_read_cache());
    assert!(s.no_write_cache());
}

#[test]
fn args_override_defaults() {
    let mut args = no_args();
    args.fail_fast = true;
    args.no_user_checklists = true;
    let s = Settings::builder().arg_layer(args).build().unwrap();
    assert!(s.fail_fast());
    assert!(!s.user_checklists());
}

#[test]
fn env_layer_reads_prefixed_variables() {
    let env = EnvVars::from_pairs(vec![
        ("CHECKLINTS_FAIL_FAST".to_string(), "1".to_string()),
        ("CHECKLINTS_CLEAR_CACHE".to_string(), "".to_string()),
        ("OTHER".to_string(), "x".to_string()),
    ]);
    let s = Settings::builder().env_layer(&env).build().unwrap();
    assert!(s.fail_fast());
    assert!(s.clear_cache());
    assert!(!s.no_read_cache());
}

#[test]
fn later_layer_wins() {
    let mut a = MaybeSettings::empty();
    a.fail_fast = Some(true);
    let mut b = MaybeSettings::empty();
    b.fail_fast = Some(false);
    b.clear_cache = Some(true);
    a.layer(b);
    assert_eq!(a.fail_fast, Some(false));
    assert_eq!(a.clear_cache, Some(true));
    assert_eq!(a.no_cache, None);
}
