use checklints::command::{bytes_to_maybe_str, split_stages, Output, Pipeline, PipelineError, XCommand};

fn words(c: &XCommand) -> Vec<String> {
    let mut w = vec![c.program.clone()];
    w.extend(c.args.iter().cloned());
    w
}

#[test]
fn splits_on_unquoted_bars() {
    assert_eq!(split_stages("a | b|c"), vec!["a ", " b", "c"]);
    assert_eq!(split_stages("echo 'a|b' | tr a b"), vec!["echo 'a|b' ", " tr a b"]);
    assert_eq!(split_stages("echo a\\|b"), vec!["echo a\\|b"]);
    assert_eq!(split_stages(""), vec![""]);
}

#[test]
fn pipeline_words_per_stage() {
    let p = Pipeline::new("echo hello world | tr a-z A-Z").unwrap();
    assert_eq!(words(&p.first), vec!["echo", "hello", "world"]);
    assert_eq!(p.rest.len(), 1);
    assert_eq!(words(&p.rest[0]), vec!["tr", "a-z", "A-Z"]);
}

#[test]
fn unknown_program_fails_before_running() {
    let r = Pipeline::new("echo hi | surely-not-an-installed-program");
    assert_eq!(
        r.unwrap_err(),
        PipelineError::NotFound { program: "surely-not-an-installed-program".to_string() }
    );
}

#[test]
fn empty_stage_is_invalid() {
    assert!(matches!(Pipeline::new("echo hi |  "), Err(PipelineError::Invalid { .. })));
    assert!(matches!(Pipeline::new("echo 'unbalanced"), Err(PipelineError::Invalid { .. })));
}

#[test]
fn blank_output_reads_as_none() {
    assert_eq!(bytes_to_maybe_str(b"  \n"), None);
    assert_eq!(bytes_to_maybe_str(b"  hi \n"), Some("hi".to_string()));
    let o = Output::new(3, b"out\n", b"");
    assert_eq!(o.code(), 3);
    assert_eq!(o.stdout().map(|s| s.as_str()), Some("out"));
    assert!(o.stderr().is_none());
}
