use flf::job::process_job;
use flf::job::Job;
use flf::job::JobError;

fn lines(patterns: &[&str]) -> Vec<String> {
    patterns.iter().map(|l| l.to_string()).collect()
}

#[test]
fn test_job_processing() {
    // The root directory owns an ignore file with the rule `foo/`; its
    // children are `foo` (pruned) and `bar` (kept).
    let job = Job { path: "dir".to_string(), ignore_context: None };
    let children = lines(&["dir/foo", "dir/bar"]);
    let out = process_job(job, Some(&lines(&["foo/"])), &children).unwrap();

    assert_eq!(out.patterns, Some(vec!["dir/**/foo/".to_string()]));
    assert_eq!(out.child_jobs.len(), 1);
    assert!(out.child_jobs[0].path == "dir/bar");

    // The surviving `bar` job: no ignore file there, so no pattern list, and
    // with no subdirectories nothing is enqueued.
    let bar_job = out.child_jobs.into_iter().next().unwrap();
    let no_children: Vec<String> = Vec::new();
    let out = process_job(bar_job, None, &no_children).unwrap();

    assert!(out.patterns.is_none());
    assert!(out.child_jobs.is_empty());
}

#[test]
fn test_inherited_rules_prune_grandchildren() {
    // The rule `foo/` of the root ignore file prunes `foo` below `bar` too,
    // through the context the `bar` job inherited.
    let root_job = Job { path: "dir".to_string(), ignore_context: None };
    let children = lines(&["dir/bar"]);
    let out = process_job(root_job, Some(&lines(&["foo/"])), &children).unwrap();
    assert_eq!(out.child_jobs.len(), 1);

    let bar_job = out.child_jobs.into_iter().next().unwrap();
    let grandchildren = lines(&["dir/bar/foo", "dir/bar/baz"]);
    let out = process_job(bar_job, None, &grandchildren).unwrap();
    assert!(out.patterns.is_none());
    assert_eq!(out.child_jobs.len(), 1);
    assert!(out.child_jobs[0].path == "dir/bar/baz");
}

#[test]
fn test_deeper_negation_overrides_inherited_rule() {
    // Chain precedence: the root ignores `foo*` and `bar*`; a subdirectory's
    // own file whitelists `bar*`, which overrides the inherited rule for its
    // children while `foo*` keeps ignoring.
    let root_job = Job { path: "dir".to_string(), ignore_context: None };
    let root_rules = lines(&["/ignore_dir*", "!/ignore_dir_white", "foo*", "bar*"]);
    let children = lines(&["ignore_dir1", "ignore_dir2", "ignore_dir_white", "sub_dir"]);
    let out = process_job(root_job, Some(&root_rules), &children).unwrap();

    let kept: Vec<&str> = out.child_jobs.iter().map(|j| j.path.as_str()).collect();
    assert_eq!(kept, ["ignore_dir_white", "sub_dir"]);

    let sub_job = out.child_jobs.into_iter().nth(1).unwrap();
    assert!(sub_job.path == "sub_dir");
    let sub_children = lines(&["foo_dir", "bar_dir"]);
    let out = process_job(sub_job, Some(&lines(&["!bar*"])), &sub_children).unwrap();

    let kept: Vec<&str> = out.child_jobs.iter().map(|j| j.path.as_str()).collect();
    assert_eq!(kept, ["bar_dir"]);
}

#[test]
fn test_bad_rule_body_stops_the_job() {
    let job = Job { path: "dir".to_string(), ignore_context: None };
    let no_children: Vec<String> = Vec::new();
    let result = process_job(job, Some(&lines(&["ok", "!"])), &no_children);
    match result {
        Err(JobError::Rule(e)) => assert_eq!(e.line_index, 1),
        _ => panic!("expected a rule-body error"),
    }
}

#[test]
fn test_invalid_glob_stops_the_job() {
    let job = Job { path: "dir".to_string(), ignore_context: None };
    let no_children: Vec<String> = Vec::new();
    let result = process_job(job, Some(&lines(&["foo[z-a]"])), &no_children);
    assert!(matches!(result, Err(JobError::Matcher(_))));
}
