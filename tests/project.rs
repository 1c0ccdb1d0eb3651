use checklints::cache::Cache;
use checklints::env::EnvVars;
use checklints::evaluate::{CheckObservation, FileObservation, Observation};
use checklints::keyed::StrMap;
use checklints::model::{Check, CheckType, Checklist, Fact, FactValue, FileCheck};
use checklints::project::{
    is_checklist_name, project_checklist_dirs, project_checklist_files, Action, Phase, Project,
};
use checklints::settings::Settings;

fn literal_fact(key: &str, value: &str) -> Fact {
    Fact {
        key: key.to_string(),
        value: FactValue::Literal { value: value.to_string() },
        requirements: Vec::new(),
    }
}

fn checklist(facts: Vec<Fact>, checks: Vec<Check>) -> Checklist {
    Checklist {
        path: "proj/checklist.toml".to_string(),
        facts,
        conditions: Vec::new(),
        checks,
        requirements: Vec::new(),
    }
}

fn readme_check() -> Check {
    Check {
        check: CheckType::File(FileCheck {
            path: "proj/README.md".to_string(),
            contents: Some("hi".to_string()),
            contains: Vec::new(),
            template: None,
        }),
        description: Some("readme".to_string()),
        conditions: Vec::new(),
        requirements: Vec::new(),
    }
}

fn cache_with_facts(pairs: Vec<(&str, &str)>) -> Cache {
    let facts = StrMap::from_pairs(pairs.into_iter().map(|(k, v)| (k.to_string(), v.to_string())).collect());
    Cache::new("/tmp/c", "proj".to_string(), facts)
}

/// Steps until the engine asks for outside work.
fn step(p: &mut Project) -> Action {
    loop {
        let a = p.next();
        if a != Action::Continue {
            return a;
        }
    }
}

#[test]
fn changed_facts_wipe_cache_before_checks() {
    let lists = vec![checklist(vec![literal_fact("name", "new")], vec![readme_check()])];
    let cache = cache_with_facts(vec![("name", "old")]);
    let mut p = Project::new(lists, Settings::new(), EnvVars::new(), cache);
    let a = step(&mut p);
    assert_eq!(a, Action::WipeCache { dir: "/tmp/c/proj".to_string() });
    assert_eq!(p.phase(), Phase::AwaitWipe);
    p.cache_wiped();
    assert_eq!(p.phase(), Phase::Checks { list: 0, check: 0 });
    assert!(p.cache().facts().same_as(p.facts()));
    assert_eq!(step(&mut p), Action::ObserveCheck { list: 0, check: 0 });
}

#[test]
fn unchanged_facts_keep_cache() {
    let lists = vec![checklist(vec![literal_fact("name", "same")], vec![readme_check()])];
    let cache = cache_with_facts(vec![("name", "same")]);
    let mut p = Project::new(lists, Settings::new(), EnvVars::new(), cache);
    assert_eq!(step(&mut p), Action::ObserveCheck { list: 0, check: 0 });
}

#[test]
fn run_records_statuses_and_saves() {
    let lists = vec![checklist(Vec::new(), vec![readme_check()])];
    let mut p = Project::new(lists, Settings::new(), EnvVars::new(), cache_with_facts(Vec::new()));
    assert_eq!(step(&mut p), Action::ObserveCheck { list: 0, check: 0 });
    let obs = CheckObservation {
        main: Observation::File(FileObservation {
            is_file: true,
            contents: Some("hi\n".to_string()),
            rendered_template: None,
        }),
        conditions: Vec::new(),
    };
    p.check_observed(obs, Some("h".to_string()));
    assert_eq!(step(&mut p), Action::SaveCache);
    p.saved();
    assert_eq!(step(&mut p), Action::Finished);
    assert_eq!(p.statuses().exit_code(), 0);
    assert_eq!(p.cache().path_entries().len(), 1);
}

#[test]
fn env_fact_must_be_set() {
    let fact = Fact {
        key: "user".to_string(),
        value: FactValue::Env { key: "SOME_UNSET_VARIABLE".to_string() },
        requirements: Vec::new(),
    };
    let lists = vec![checklist(vec![fact], Vec::new())];
    let mut p = Project::new(lists, Settings::new(), EnvVars::new(), cache_with_facts(Vec::new()));
    assert_eq!(
        step(&mut p),
        Action::Abort { message: "Env var 'SOME_UNSET_VARIABLE' not set".to_string() }
    );
}

#[test]
fn command_fact_needs_output() {
    let fact = Fact {
        key: "v".to_string(),
        value: FactValue::Command { command: "echo 1".to_string() },
        requirements: Vec::new(),
    };
    let lists = vec![checklist(vec![fact.clone()], Vec::new())];
    let mut p = Project::new(lists, Settings::new(), EnvVars::new(), cache_with_facts(Vec::new()));
    assert_eq!(step(&mut p), Action::RunFactCommand { command: "echo 1".to_string() });
    p.fact_output(Ok(Some("1".to_string())));
    assert_eq!(p.facts().get(&"v".to_string()), Some("1".to_string()));

    let lists = vec![checklist(vec![fact], Vec::new())];
    let mut q = Project::new(lists, Settings::new(), EnvVars::new(), cache_with_facts(Vec::new()));
    step(&mut q);
    q.fact_output(Ok(None));
    assert_eq!(
        step(&mut q),
        Action::Abort { message: "Command produced empty output".to_string() }
    );
}

#[test]
fn checklist_locations() {
    assert_eq!(
        project_checklist_dirs("/p"),
        vec!["/p/.checklists", "/p/checklists", "/p/checks", "/p/.checks"]
    );
    assert_eq!(project_checklist_files("/p/"), vec!["/p/.checklist.toml", "/p/checklist.toml"]);
    assert!(is_checklist_name("base.toml"));
    assert!(!is_checklist_name(".toml"));
    assert!(!is_checklist_name("base.yaml"));
}

#[test]
fn fail_fast_stops_after_first_failure() {
    let mut settings = Settings::new();
    settings.fail_fast = true;
    let lists = vec![checklist(Vec::new(), vec![readme_check(), readme_check()])];
    let mut p = Project::new(lists, settings, EnvVars::new(), cache_with_facts(Vec::new()));
    assert_eq!(step(&mut p), Action::ObserveCheck { list: 0, check: 0 });
    let obs = CheckObservation {
        main: Observation::File(FileObservation { is_file: false, contents: None, rendered_template: None }),
        conditions: Vec::new(),
    };
    p.check_observed(obs, None);
    assert_eq!(step(&mut p), Action::SaveCache);
    assert_ne!(p.statuses().exit_code(), 0);
}

#[test]
fn unset_requirement_aborts_fact() {
    let mut fact = literal_fact("name", "x");
    fact.requirements.push(checklints::model::Requirement::Env { key: "NOT_SET_HERE".to_string() });
    let lists = vec![checklist(vec![fact], vec![readme_check()])];
    let mut p = Project::new(lists, Settings::new(), EnvVars::new(), cache_with_facts(Vec::new()));
    assert!(matches!(step(&mut p), Action::Abort { .. }));
    assert_eq!(p.phase(), Phase::Aborted);
}

#[test]
fn without_fail_fast_every_check_runs() {
    let lists = vec![checklist(Vec::new(), vec![readme_check(), readme_check()])];
    let mut p = Project::new(lists, Settings::new(), EnvVars::new(), cache_with_facts(Vec::new()));
    assert_eq!(step(&mut p), Action::ObserveCheck { list: 0, check: 0 });
    let missing = || CheckObservation {
        main: Observation::File(FileObservation { is_file: false, contents: None, rendered_template: None }),
        conditions: Vec::new(),
    };
    p.check_observed(missing(), None);
    assert_eq!(p.phase(), Phase::Checks { list: 0, check: 1 });
    assert_eq!(step(&mut p), Action::ObserveCheck { list: 0, check: 1 });
    p.check_observed(missing(), None);
    assert_eq!(step(&mut p), Action::SaveCache);
}
