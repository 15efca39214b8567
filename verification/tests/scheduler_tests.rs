use mirror_sync::Cycle;
use mirror_sync::Error;
use mirror_sync::JobEvent;
use mirror_sync::RepositoryDetails;
use mirror_sync::Status;
use mirror_sync::classify;

fn details(name: &str) -> RepositoryDetails {
    RepositoryDetails::new(
        name.to_string(),
        "src.example/repo.git".to_string(),
        "dst.example/repo.git".to_string(),
    )
    .unwrap()
}

#[test]
fn at_most_the_bound_is_in_flight() {
    let jobs = vec![details("a"), details("b"), details("c")];
    let mut cycle = Cycle::new(jobs, 2);

    assert_eq!(cycle.in_flight(), 0);
    assert!(cycle.can_admit());
    let first = cycle.start_next();
    assert_eq!(cycle.in_flight(), 1);
    assert!(cycle.can_admit());
    let second = cycle.start_next();
    // Both slots are taken: the third job must wait.
    assert_eq!(cycle.in_flight(), 2);
    assert!(!cycle.can_admit());

    cycle.complete(classify(first.name, JobEvent::Finished(Ok(()))));
    assert!(cycle.can_admit());
    let third = cycle.start_next();
    assert!(!cycle.can_admit());

    cycle.complete(classify(second.name, JobEvent::Finished(Ok(()))));
    cycle.complete(classify(third.name, JobEvent::Finished(Ok(()))));
    assert!(cycle.done());
    assert_eq!(cycle.outcomes().len(), 3);
}

#[test]
fn jobs_are_admitted_from_the_end_of_the_pending_list() {
    let jobs = vec![details("a"), details("b")];
    let mut cycle = Cycle::new(jobs, 1);
    let first = cycle.start_next();
    assert_eq!(first.name, "b");
    cycle.complete(classify(first.name, JobEvent::Finished(Ok(()))));
    let second = cycle.start_next();
    assert_eq!(second.name, "a");
}

#[test]
fn a_timed_out_job_frees_its_slot_and_the_cycle_proceeds() {
    let jobs = vec![details("slow"), details("next")];
    let mut cycle = Cycle::new(jobs, 1);

    let slow = cycle.start_next();
    assert_eq!(slow.name, "next");
    assert!(!cycle.can_admit());
    let outcome = classify(slow.name, JobEvent::DeadlineElapsed);
    assert!(matches!(outcome.status, Status::TimedOut));
    cycle.complete(outcome);

    // The timeout released the slot: the remaining job runs.
    assert!(cycle.can_admit());
    let rest = cycle.start_next();
    cycle.complete(classify(rest.name, JobEvent::Finished(Ok(()))));
    assert!(cycle.done());

    let outcomes = cycle.outcomes();
    assert_eq!(outcomes.len(), 2);
    assert_eq!(outcomes[0].name, "next");
    assert!(matches!(outcomes[0].status, Status::TimedOut));
    assert!(matches!(outcomes[1].status, Status::Synced));
}

#[test]
fn one_failure_does_not_touch_another_outcome() {
    let jobs = vec![details("good"), details("bad")];
    let mut cycle = Cycle::new(jobs, 2);

    let bad = cycle.start_next();
    let good = cycle.start_next();
    assert_eq!(bad.name, "bad");
    assert_eq!(good.name, "good");

    let failure = Error { name: "bad".to_string(), cause: "source location invalid".to_string() };
    cycle.complete(classify(bad.name, JobEvent::Finished(Err(failure))));
    cycle.complete(classify(good.name, JobEvent::Finished(Ok(()))));
    assert!(cycle.done());

    let outcomes = cycle.outcomes();
    assert_eq!(outcomes.len(), 2);
    assert_eq!(outcomes[0].name, "bad");
    match &outcomes[0].status {
        Status::SyncFailed(e) => {
            assert_eq!(e.name, "bad");
            assert_eq!(e.cause, "source location invalid");
        }
        other => panic!("expected a failure, got {:?}", other),
    }
    assert_eq!(outcomes[1].name, "good");
    assert!(matches!(outcomes[1].status, Status::Synced));
}

#[test]
fn classification_of_each_event() {
    let synced = classify("a".to_string(), JobEvent::Finished(Ok(())));
    assert_eq!(synced.name, "a");
    assert!(matches!(synced.status, Status::Synced));

    let err = Error { name: "a".to_string(), cause: "no route".to_string() };
    let failed = classify("a".to_string(), JobEvent::Finished(Err(err)));
    match failed.status {
        Status::SyncFailed(e) => assert_eq!(e.cause, "no route"),
        other => panic!("expected a failure, got {:?}", other),
    }

    let timed = classify("a".to_string(), JobEvent::DeadlineElapsed);
    assert!(matches!(timed.status, Status::TimedOut));

    let lost = classify("a".to_string(), JobEvent::ExecutionLost);
    match lost.status {
        Status::SyncFailed(e) => assert_eq!(e.name, "a"),
        other => panic!("expected a failure, got {:?}", other),
    }
}

#[test]
fn an_elapsed_deadline_on_a_real_timer_classifies_as_timed_out() {
    let runtime = tokio::runtime::Builder::new_current_thread().enable_time().build().unwrap();
    let raced = runtime.block_on(async {
        tokio::time::timeout(
            std::time::Duration::from_millis(20),
            tokio::time::sleep(std::time::Duration::from_secs(30)),
        )
        .await
    });
    let event = match raced {
        Ok(_) => JobEvent::Finished(Ok(())),
        Err(_) => JobEvent::DeadlineElapsed,
    };
    let outcome = classify("slow".to_string(), event);
    assert!(matches!(outcome.status, Status::TimedOut));
}

#[test]
fn a_busy_name_is_not_readmitted() {
    let jobs = vec![details("a"), details("b"), details("c")];
    let busy = vec!["b".to_string()];
    let runnable = mirror_sync::runnable_jobs(jobs, &busy);
    assert_eq!(runnable.len(), 2);
    assert_eq!(runnable[0].name, "a");
    assert_eq!(runnable[1].name, "c");

    let none_busy: Vec<String> = Vec::new();
    let all = mirror_sync::runnable_jobs(vec![details("a")], &none_busy);
    assert_eq!(all.len(), 1);
    assert_eq!(all[0].name, "a");
}

#[test]
fn an_empty_discovery_finishes_immediately() {
    let cycle = Cycle::new(Vec::new(), 4);
    assert!(!cycle.can_admit());
    assert!(cycle.done());
    assert!(cycle.outcomes().is_empty());
}
