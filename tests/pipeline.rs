use nodle_submit::pipeline::{chunk_bounds, Action, Event, SubmissionPipeline, MAX_USERS_ONE_BLOCK};

/// Runs a pipeline against a node that rejects the submission of `reject`
/// and fails the finality of the chunks in `fail`, and returns the actions.
fn drive(n: usize, batch: usize, first_nonce: u64, reject: Option<usize>, fail: &[usize]) -> (Vec<Action>, SubmissionPipeline) {
    let mut p = SubmissionPipeline::new(n, batch, first_nonce);
    let mut actions = Vec::new();
    loop {
        let a = p.next_action();
        actions.push(a);
        let e = match a {
            Action::Submit { chunk, .. } if Some(chunk) == reject => Event::Rejected,
            Action::Submit { .. } => Event::Accepted,
            Action::AwaitFinality { chunk, .. } if fail.contains(&chunk) => Event::FinalityFailed,
            Action::AwaitFinality { .. } => Event::Finalized,
            Action::Finish => break,
        };
        p.on_event(e);
    }
    (actions, p)
}

#[test]
fn workload_1200_in_batches_of_500() {
    assert_eq!(MAX_USERS_ONE_BLOCK, 500);
    assert_eq!(chunk_bounds(1200, 500), vec![(0, 500), (500, 1000), (1000, 1200)]);
    let (actions, p) = drive(1200, 500, 17, None, &[]);
    assert_eq!(
        actions,
        vec![
            Action::Submit { chunk: 0, nonce: 17 },
            Action::Submit { chunk: 1, nonce: 18 },
            Action::Submit { chunk: 2, nonce: 19 },
            Action::AwaitFinality { chunk: 0, nonce: 17 },
            Action::AwaitFinality { chunk: 1, nonce: 18 },
            Action::AwaitFinality { chunk: 2, nonce: 19 },
            Action::Finish,
        ]
    );
    assert_eq!(p.rejected_chunk(), None);
    assert!(p.finality_failures().is_empty());
}

#[test]
fn chunk_bounds_edges() {
    assert_eq!(chunk_bounds(0, 500), vec![]);
    assert_eq!(chunk_bounds(1, 500), vec![(0, 1)]);
    assert_eq!(chunk_bounds(500, 500), vec![(0, 500)]);
    assert_eq!(chunk_bounds(501, 500), vec![(0, 500), (500, 501)]);
    assert_eq!(chunk_bounds(3, 1), vec![(0, 1), (1, 2), (2, 3)]);
}

#[test]
fn empty_workload_finishes_at_once() {
    let (actions, _) = drive(0, 500, 3, None, &[]);
    assert_eq!(actions, vec![Action::Finish]);
}

#[test]
fn rejection_stops_submissions_and_drains_earlier_chunks() {
    let (actions, p) = drive(5, 1, 100, Some(2), &[]);
    assert_eq!(
        actions,
        vec![
            Action::Submit { chunk: 0, nonce: 100 },
            Action::Submit { chunk: 1, nonce: 101 },
            Action::Submit { chunk: 2, nonce: 102 },
            Action::AwaitFinality { chunk: 0, nonce: 100 },
            Action::AwaitFinality { chunk: 1, nonce: 101 },
            Action::Finish,
        ]
    );
    assert_eq!(p.rejected_chunk(), Some(2));
}

#[test]
fn rejection_of_first_chunk_drains_nothing() {
    let (actions, p) = drive(3, 1, 0, Some(0), &[]);
    assert_eq!(actions, vec![Action::Submit { chunk: 0, nonce: 0 }, Action::Finish]);
    assert_eq!(p.rejected_chunk(), Some(0));
}

#[test]
fn finality_failure_does_not_stop_the_drain() {
    let (actions, p) = drive(3, 1, 9, None, &[0, 2]);
    assert_eq!(actions.len(), 7);
    assert_eq!(actions[5], Action::AwaitFinality { chunk: 2, nonce: 11 });
    assert_eq!(p.finality_failures(), vec![0, 2]);
}

#[test]
fn unrelated_event_changes_nothing() {
    let mut p = SubmissionPipeline::new(2, 1, 5);
    p.on_event(Event::Finalized);
    assert_eq!(p.next_action(), Action::Submit { chunk: 0, nonce: 5 });
    p.on_event(Event::Accepted);
    assert_eq!(p.next_action(), Action::Submit { chunk: 1, nonce: 6 });
}

#[test]
fn nonce_near_the_top_of_u64() {
    let (actions, _) = drive(2, 1, u64::MAX - 2, None, &[]);
    assert_eq!(actions[1], Action::Submit { chunk: 1, nonce: u64::MAX - 1 });
}
