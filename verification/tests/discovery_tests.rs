use mirror_sync::RepositoryDetails;
use mirror_sync::collect_valid;
use mirror_sync::is_job_file;
use mirror_sync::select_job_files;

fn details(name: &str) -> RepositoryDetails {
    RepositoryDetails::new(
        name.to_string(),
        "src.example/repo.git".to_string(),
        "dst.example/repo.git".to_string(),
    )
    .unwrap()
}

#[test]
fn job_files_are_recognized_by_extension() {
    assert!(is_job_file("alpha.toml"));
    assert!(is_job_file("a.toml"));
    assert!(is_job_file("many.dots.toml"));
    assert!(!is_job_file("alpha.txt"));
    assert!(!is_job_file("alpha.toml.bak"));
    assert!(!is_job_file("alphatoml"));
    assert!(!is_job_file("alpha.TOML"));
    assert!(!is_job_file(".toml"));
    assert!(!is_job_file(""));
}

#[test]
fn discovery_keeps_only_definition_files_in_order() {
    let names = vec![
        "alpha.toml".to_string(),
        "readme.md".to_string(),
        ".toml".to_string(),
        "beta.toml".to_string(),
        "notes".to_string(),
    ];
    let kept = select_job_files(&names);
    assert_eq!(kept, vec!["alpha.toml".to_string(), "beta.toml".to_string()]);
}

#[test]
fn discovery_with_no_matching_files_yields_nothing() {
    let names = vec!["readme.md".to_string(), "archive.tar".to_string()];
    let kept = select_job_files(&names);
    assert!(kept.is_empty());
}

#[test]
fn a_malformed_definition_is_skipped_without_aborting_discovery() {
    let loaded = vec![Some(details("alpha")), None, Some(details("beta"))];
    let jobs = collect_valid(loaded);
    assert_eq!(jobs.len(), 2);
    assert_eq!(jobs[0].name, "alpha");
    assert_eq!(jobs[1].name, "beta");
}

#[test]
fn a_definition_missing_a_field_is_rejected_with_its_name() {
    let err = RepositoryDetails::new("alpha".to_string(), "".to_string(), "t".to_string())
        .unwrap_err();
    assert_eq!(err.name, "alpha");

    let err = RepositoryDetails::new("".to_string(), "s".to_string(), "t".to_string())
        .unwrap_err();
    assert_eq!(err.name, "");

    assert!(RepositoryDetails::new("a".to_string(), "s".to_string(), "".to_string()).is_err());
    let ok = RepositoryDetails::new("a".to_string(), "s".to_string(), "t".to_string()).unwrap();
    assert_eq!(ok.name, "a");
    assert_eq!(ok.source, "s");
    assert_eq!(ok.target, "t");
}

#[test]
fn a_duplicate_name_within_one_cycle_is_dropped() {
    let first = RepositoryDetails::new(
        "alpha".to_string(),
        "first.example/repo.git".to_string(),
        "dst.example/repo.git".to_string(),
    )
    .unwrap();
    let second = RepositoryDetails::new(
        "alpha".to_string(),
        "second.example/repo.git".to_string(),
        "dst.example/repo.git".to_string(),
    )
    .unwrap();
    let jobs = vec![first, second, details("beta")];
    let unique = mirror_sync::unique_by_name(jobs);
    assert_eq!(unique.len(), 2);
    // The first definition of the name wins; the later one is dropped.
    assert_eq!(unique[0].name, "alpha");
    assert_eq!(unique[0].source, "first.example/repo.git");
    assert_eq!(unique[1].name, "beta");
}

#[test]
fn workspace_path_is_derived_from_the_name() {
    let job = details("alpha");
    assert_eq!(job.workspace_path(), "workspace/alpha");
}

#[test]
fn error_description_carries_name_and_cause() {
    let job = details("alpha");
    let err = job.wrap_err("boom".to_string());
    assert_eq!(err.name, "alpha");
    assert_eq!(err.cause, "boom");
    assert_eq!(err.describe(), "alpha: mirroring failed: boom");
}
