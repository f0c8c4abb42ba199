//! Scenario tests for the poll-loop state machine: call counts, linear
//! backoff, redirect following, terminal errors, and the timeout budget.

use flipside::flipside::{PollDecision, PollState};
use flipside::rpc::{query_run_wf, response_wf, GetQueryRunResult, QueryRun, QueryState};

fn make_run(id: &str, state: QueryState) -> QueryRun {
    QueryRun {
        id: id.to_string(),
        sql_statement_id: "stmt-1".to_string(),
        state,
        path: "s3://results/stmt-1".to_string(),
        file_count: None,
        last_file_number: None,
        file_names: None,
        error_name: None,
        error_message: None,
        error_data: None,
        external_query_id: None,
        data_source_query_id: None,
        data_source_session_id: None,
        started_at: None,
        query_running_ended_at: None,
        query_streaming_ended_at: None,
        ended_at: None,
        row_count: None,
        total_size: None,
        tags: Vec::new(),
        data_source_id: "ds-1".to_string(),
        user_id: "user-1".to_string(),
        created_at: "2024-01-01T00:00:00Z".to_string(),
        updated_at: "2024-01-01T00:00:00Z".to_string(),
        archived_at: None,
        rows_per_result_set: 0,
        statement_timeout_seconds: 0,
        abort_detached_query: false,
    }
}

fn make_failed_run(id: &str, state: QueryState, name: &str, message: &str, data: &str) -> QueryRun {
    let mut run = make_run(id, state);
    run.error_name = Some(name.to_string());
    run.error_message = Some(message.to_string());
    run.error_data = Some(data.to_string());
    run
}

fn plain_response(run: QueryRun) -> GetQueryRunResult {
    GetQueryRunResult { query_run: run, redirected_to_query_run: None }
}

/// Drives a poll loop over canned responses, mirroring how a caller uses the
/// state machine: one classify per response, collecting sleeps, until a
/// terminal decision.
fn drive(
    st: &mut PollState,
    responses: Vec<GetQueryRunResult>,
) -> (usize, Vec<u64>, Vec<String>, Option<PollDecision>) {
    let mut calls = 0usize;
    let mut sleeps: Vec<u64> = Vec::new();
    let mut targets: Vec<String> = Vec::new();
    for resp in responses {
        calls += 1;
        assert!(response_wf(&resp));
        match st.classify(resp) {
            PollDecision::Continue(run, sleep_ms) => {
                sleeps.push(sleep_ms);
                targets.push(run.id);
            }
            terminal => return (calls, sleeps, targets, Some(terminal)),
        }
    }
    (calls, sleeps, targets, None)
}

#[test]
fn poll_loop_makes_n_plus_one_calls_with_linear_backoff() {
    let n: usize = 3;
    let mut responses: Vec<GetQueryRunResult> = Vec::new();
    for _ in 0..n {
        responses.push(plain_response(make_run("run-a", QueryState::QueryStateRunning)));
    }
    responses.push(plain_response(make_run("run-a", QueryState::QueryStateSuccess)));

    let mut st = PollState::new(500, 1_000_000);
    let (calls, sleeps, _, outcome) = drive(&mut st, responses);

    assert_eq!(calls, n + 1);
    assert_eq!(sleeps, vec![500, 1000, 1500]);
    match outcome {
        Some(PollDecision::Done(run)) => assert_eq!(run.id, "run-a"),
        _ => panic!("expected the loop to end on the success run"),
    }
}

#[test]
fn nonterminal_states_all_continue() {
    let states = [
        QueryState::QueryStateReady,
        QueryState::QueryStateRunning,
        QueryState::QueryStateStreamingResults,
    ];
    for state in states {
        let mut st = PollState::new(250, 1_000_000);
        let d = st.classify(plain_response(make_run("run-a", state)));
        assert!(matches!(d, PollDecision::Continue(_, 250)));
    }
}

#[test]
fn redirect_switches_the_poll_target_permanently() {
    let first = GetQueryRunResult {
        query_run: make_run("run-a", QueryState::QueryStateRunning),
        redirected_to_query_run: Some(make_run("run-b", QueryState::QueryStateRunning)),
    };
    let responses = vec![
        first,
        plain_response(make_run("run-b", QueryState::QueryStateRunning)),
        plain_response(make_run("run-b", QueryState::QueryStateSuccess)),
    ];

    let mut st = PollState::new(500, 1_000_000);
    let (calls, _, targets, outcome) = drive(&mut st, responses);

    assert_eq!(calls, 3);
    assert_eq!(targets, vec!["run-b".to_string(), "run-b".to_string()]);
    match outcome {
        Some(PollDecision::Done(run)) => assert_eq!(run.id, "run-b"),
        _ => panic!("expected the loop to end on the redirected run"),
    }
}

#[test]
fn failed_run_yields_exactly_its_error_fields() {
    let run = make_failed_run(
        "run-a",
        QueryState::QueryStateFailed,
        "SqlCompilationError",
        "syntax error at line 1",
        "{\"line\":1}",
    );
    let mut st = PollState::new(500, 1_000_000);
    match st.classify(plain_response(run)) {
        PollDecision::Failed(e) => {
            assert_eq!(e.name, "SqlCompilationError");
            assert_eq!(e.message, "syntax error at line 1");
            assert_eq!(e.data, "{\"line\":1}");
        }
        _ => panic!("expected a Failed decision"),
    }
}

#[test]
fn cancelled_run_behaves_like_failed() {
    let run = make_failed_run(
        "run-a",
        QueryState::QueryStateCancelled,
        "QueryRunCancelled",
        "canceled by user",
        "",
    );
    let mut st = PollState::new(500, 1_000_000);
    match st.classify(plain_response(run)) {
        PollDecision::Failed(e) => {
            assert_eq!(e.name, "QueryRunCancelled");
            assert_eq!(e.message, "canceled by user");
            assert_eq!(e.data, "");
        }
        _ => panic!("expected a Failed decision"),
    }
}

#[test]
fn timeout_fires_after_the_budget_not_earlier() {
    // Interval 500 ms, budget 1000 ms, a run that never reaches a terminal
    // state: the elapsed clock after each sleep is 500, then 1500; only the
    // second check exceeds the budget.
    let mut st = PollState::new(500, 1000);
    let mut elapsed: u64 = 0;
    let mut timed_out: Option<u64> = None;
    for _ in 0..10 {
        let d = st.classify(plain_response(make_run("run-a", QueryState::QueryStateRunning)));
        match d {
            PollDecision::Continue(_, sleep_ms) => {
                elapsed += sleep_ms;
                if let Some(e) = st.check_timeout(elapsed) {
                    timed_out = Some(e);
                    break;
                }
            }
            _ => panic!("the run never terminates"),
        }
    }
    assert_eq!(timed_out, Some(1500));
    assert!(timed_out.unwrap() >= 1000);
}

#[test]
fn timeout_needs_strictly_more_than_the_budget() {
    let st = PollState::new(500, 1000);
    assert_eq!(st.check_timeout(999), None);
    assert_eq!(st.check_timeout(1000), None);
    assert_eq!(st.check_timeout(1001), Some(1001));
}

#[test]
fn run_invariant_accepts_only_matching_error_fields() {
    // A terminal-error state without the error triple breaks the invariant.
    assert!(!query_run_wf(&make_run("run-a", QueryState::QueryStateFailed)));
    // A terminal-error state with the triple satisfies it.
    assert!(query_run_wf(&make_failed_run(
        "run-a",
        QueryState::QueryStateFailed,
        "e",
        "m",
        "d"
    )));
    // A non-terminal state with the triple breaks it.
    assert!(!query_run_wf(&make_failed_run(
        "run-a",
        QueryState::QueryStateRunning,
        "e",
        "m",
        "d"
    )));
    // A plain running run satisfies it.
    assert!(query_run_wf(&make_run("run-a", QueryState::QueryStateRunning)));
}

#[test]
fn response_invariant_checks_the_designated_run() {
    // The redirected run is the one observed, so it is the one checked.
    let bad_redirect = GetQueryRunResult {
        query_run: make_run("run-a", QueryState::QueryStateRunning),
        redirected_to_query_run: Some(make_run("run-b", QueryState::QueryStateFailed)),
    };
    assert!(!response_wf(&bad_redirect));

    let good_redirect = GetQueryRunResult {
        query_run: make_run("run-a", QueryState::QueryStateRunning),
        redirected_to_query_run: Some(make_run("run-b", QueryState::QueryStateRunning)),
    };
    assert!(response_wf(&good_redirect));
}
