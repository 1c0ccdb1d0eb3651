use checklints::env::EnvVars;
use checklints::evaluate::{
    CheckObservation, DirObservation, EvalError, FileObservation, Observation,
};
use checklints::model::{
    Check, CheckType, Condition, DirectoryCheck, FileCheck, Requirement, VarCheck,
};
use checklints::status::{Reason, StatusStatus};

fn file_check(contents: Option<&str>, contains: &[&str], template: Option<&str>) -> FileCheck {
    FileCheck {
        path: "proj/README.md".to_string(),
        contents: contents.map(|s| s.to_string()),
        contains: contains.iter().map(|s| s.to_string()).collect(),
        template: template.map(|s| s.to_string()),
    }
}

fn file_obs(actual: &str) -> FileObservation {
    FileObservation { is_file: true, contents: Some(actual.to_string()), rendered_template: None }
}

fn main_reason(s: &StatusStatus) -> String {
    match s {
        StatusStatus::Fail { reason }
        | StatusStatus::Skip { reason }
        | StatusStatus::NotImplemented { reason } => reason.main().clone(),
        StatusStatus::Pass => "pass".to_string(),
    }
}

#[test]
fn exact_contents_are_trimmed() {
    let fc = file_check(Some("hello\n"), &[], None);
    let st = fc.do_check(&file_obs("hello")).unwrap();
    assert!(st.is_success());
    assert!(!st.is_cached());
}

#[test]
fn differing_contents_fail_with_diff() {
    let fc = file_check(Some("hello"), &[], None);
    let st = fc.do_check(&file_obs("goodbye")).unwrap();
    assert_eq!(main_reason(&st.status), "Contents differ");
    match &st.status {
        StatusStatus::Fail { reason } => assert!(reason.secondary().is_some()),
        _ => panic!("expected a failure"),
    }
}

#[test]
fn missing_file_fails() {
    let fc = file_check(None, &[], None);
    let obs = FileObservation { is_file: false, contents: None, rendered_template: None };
    let st = fc.do_check(&obs).unwrap();
    assert_eq!(
        st.status,
        StatusStatus::Fail {
            reason: Reason::new(
                "Path is not a valid file".to_string(),
                Some("proj/README.md".to_string())
            )
        }
    );
}

#[test]
fn first_missing_fragment_is_reported() {
    let fc = file_check(None, &["alpha", "beta", "gamma"], None);
    let st = fc.do_check(&file_obs("alpha and gamma")).unwrap();
    assert_eq!(
        st.status,
        StatusStatus::Fail {
            reason: Reason::new(
                "Expected fragment not found in file".to_string(),
                Some("proj/README.md\nbeta".to_string())
            )
        }
    );
}

#[test]
fn template_is_compared() {
    let fc = file_check(None, &[], Some("tmpl.md"));
    let mut obs = file_obs("name: x\n");
    obs.rendered_template = Some(Ok("name: x".to_string()));
    assert!(fc.do_check(&obs).unwrap().is_success());
    obs.rendered_template = Some(Ok("name: y".to_string()));
    let st = fc.do_check(&obs).unwrap();
    assert_eq!(main_reason(&st.status), "Populated template does not match file");
    obs.rendered_template = Some(Err("no such template".to_string()));
    assert_eq!(
        fc.do_check(&obs).unwrap_err(),
        EvalError::Template { message: "no such template".to_string() }
    );
}

#[test]
fn unreadable_file_is_an_error() {
    let fc = file_check(Some("x"), &[], None);
    let obs = FileObservation { is_file: true, contents: None, rendered_template: None };
    assert_eq!(
        fc.do_check(&obs).unwrap_err(),
        EvalError::Unreadable { path: "proj/README.md".to_string() }
    );
}

#[test]
fn directory_missing_entry_fails() {
    let dc = DirectoryCheck {
        path: "proj".to_string(),
        contents: Vec::new(),
        contains: vec!["README.md".to_string()],
    };
    let obs = DirObservation { is_dir: true, entries: Some(vec!["src".to_string()]) };
    let st = dc.do_check(&obs).unwrap();
    assert_eq!(
        st.status,
        StatusStatus::Fail {
            reason: Reason::new(
                "Expected entry not found in directory".to_string(),
                Some("dir: proj, path: proj/README.md".to_string())
            )
        }
    );
}

#[test]
fn directory_listing_is_a_set() {
    let dc = DirectoryCheck {
        path: "proj".to_string(),
        contents: vec!["a".to_string(), "b".to_string()],
        contains: vec!["b".to_string()],
    };
    let same = DirObservation { is_dir: true, entries: Some(vec!["b".to_string(), "a".to_string()]) };
    assert!(dc.do_check(&same).unwrap().is_success());
    let more = DirObservation {
        is_dir: true,
        entries: Some(vec!["b".to_string(), "a".to_string(), "c".to_string()]),
    };
    assert_eq!(main_reason(&dc.do_check(&more).unwrap().status), "Contents differ");
    let not_dir = DirObservation { is_dir: false, entries: None };
    assert_eq!(
        main_reason(&dc.do_check(&not_dir).unwrap().status),
        "Path is not a valid directory"
    );
}

fn plain_check(ct: CheckType) -> Check {
    Check { check: ct, description: None, conditions: Vec::new(), requirements: Vec::new() }
}

#[test]
fn varset_is_not_implemented() {
    let c = plain_check(CheckType::VarSet(VarCheck { key: "HOME".to_string(), value: None }));
    let obs = CheckObservation { main: Observation::Nothing, conditions: Vec::new() };
    let st = c.do_check(&obs, &Vec::new(), &"a.toml".to_string()).unwrap();
    assert!(!st.is_skipped());
    assert!(!st.is_failure());
    assert_eq!(
        st.status,
        StatusStatus::NotImplemented {
            reason: Reason::new("Not implemented".to_string(), Some("varset check".to_string()))
        }
    );
}

#[test]
fn failing_condition_skips_check() {
    let mut c = plain_check(CheckType::File(file_check(Some("x"), &[], None)));
    c.conditions.push(Condition {
        description: None,
        condition: CheckType::File(file_check(None, &[], None)),
    });
    let obs = CheckObservation {
        main: Observation::File(file_obs("y")),
        conditions: vec![Observation::File(FileObservation {
            is_file: false,
            contents: None,
            rendered_template: None,
        })],
    };
    let st = c.do_check(&obs, &Vec::new(), &"a.toml".to_string()).unwrap();
    assert!(st.is_skipped());
    assert_eq!(main_reason(&st.status), "Path is not a valid file");
}

#[test]
fn first_unmet_requirement_fails_check() {
    let mut c = plain_check(CheckType::File(file_check(None, &[], None)));
    c.requirements.push(Requirement::Env { key: "A".to_string() });
    c.requirements.push(Requirement::Env { key: "B".to_string() });
    let obs = CheckObservation { main: Observation::File(file_obs("y")), conditions: Vec::new() };
    let st = c.do_check(&obs, &vec![true, false], &"a.toml".to_string()).unwrap();
    assert_eq!(
        st.status,
        StatusStatus::Fail {
            reason: Reason::new(
                "Env var 'B' not set".to_string(),
                Some("Required for a check in a.toml".to_string())
            )
        }
    );
    assert!(c.do_check(&obs, &vec![true, true], &"a.toml".to_string()).unwrap().is_success());
}

#[test]
fn env_requirement_reads_snapshot() {
    let env = EnvVars::from_pairs(vec![("HOME".to_string(), "/root".to_string())]);
    let set = Requirement::Env { key: "HOME".to_string() };
    assert!(set.do_check(&env, &"a.toml".to_string()).is_success());
    let unset = Requirement::Env { key: "NOPE".to_string() };
    assert!(unset.do_check(&env, &"a.toml".to_string()).is_failure());
    let c = plain_check(CheckType::File(file_check(None, &[], None)));
    let mut c2 = c.clone();
    c2.requirements.push(unset);
    assert_eq!(c2.probe_requirements(&env), vec![false]);
}

#[test]
fn missing_command_requirement_fails() {
    let r = Requirement::Command { command: "surely-not-an-installed-program".to_string() };
    let st = r.do_check(&EnvVars::new(), &"a.toml".to_string());
    assert_eq!(
        main_reason(&st.status),
        "Command not found 'surely-not-an-installed-program'"
    );
}

#[test]
fn description_falls_back_to_summary() {
    let c = plain_check(CheckType::File(file_check(Some("hi"), &["a"], None)));
    assert_eq!(
        c.description(),
        "File proj/README.md: must exist, must contain [\"a\"], contents must exactly match \"hi\""
    );
    let mut d = c.clone();
    d.description = Some("readme".to_string());
    assert_eq!(d.description(), "readme");
}

#[test]
fn leading_whitespace_is_trimmed() {
    let fc = file_check(Some("  hello"), &[], None);
    assert!(fc.do_check(&file_obs("hello\n\n")).unwrap().is_success());
}

#[test]
fn defaults_for_codes() {
    assert_eq!(checklints::model::default_exit_code(), 0);
    assert_eq!(checklints::model::default_http_status(), 200);
}

#[test]
fn templates_resolve_against_checklist_dir() {
    let checks = vec![
        plain_check(CheckType::File(file_check(None, &[], Some("t/readme.j2")))),
        plain_check(CheckType::File(file_check(None, &[], None))),
        plain_check(CheckType::File(file_check(None, &[], Some("/abs/x.j2")))),
    ];
    let cl = checklints::model::Checklist {
        path: "proj/.checklists/base.toml".to_string(),
        facts: Vec::new(),
        conditions: Vec::new(),
        checks,
        requirements: Vec::new(),
    };
    assert_eq!(cl.templates(), vec!["proj/.checklists/t/readme.j2", "/abs/x.j2"]);
}

#[test]
fn template_of_root_checklist_resolves_under_root() {
    let cl = checklints::model::Checklist {
        path: "/base.toml".to_string(),
        facts: Vec::new(),
        conditions: Vec::new(),
        checks: vec![plain_check(CheckType::File(file_check(None, &[], Some("t.j2"))))],
        requirements: Vec::new(),
    };
    assert_eq!(cl.templates(), vec!["/t.j2"]);
    assert_eq!(checklints::text::parent_of("a/b/c.toml"), "a/b");
    assert_eq!(checklints::text::parent_of("c.toml"), "");
}
