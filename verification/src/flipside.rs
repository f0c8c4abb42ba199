//! The query-run lifecycle: a caller's `Query`, effective defaults, the
//! create-run request, the poll-loop state machine with linear backoff,
//! timeout, and redirect following, and the results request.

use vstd::prelude::*;

use crate::defaults::{
    DATA_PROVIDER, DATA_SOURCE, MAX_AGE_MINUTES, PAGE_NUMBER, PAGE_SIZE, RETRY_INTERVAL_MS,
    TIMEOUT_MS, TTL_MINUTES,
};
use crate::rpc::{
    observed_run, is_nonterminal, is_terminal_err, is_terminal_ok, CreateQueryRunParams, FilterKey,
    GetQueryRunResult, GetQueryRunResultsParams, Pagination, QueryFormat, QueryRun, QueryState,
    SortBy,
};

verus! {

/// A caller's query specification. Every optional field falls back to a
/// process-wide default. Immutable once submitted.
pub struct Query {
    /// SQL text to execute; opaque to this library.
    pub sql: String,
    /// The maximum age of a cached result, in minutes, the caller accepts.
    pub max_age_minutes: Option<u64>,
    /// Cache override: `Some(false)` forces re-execution.
    pub cached: Option<bool>,
    /// Wall-clock budget for a blocking run, in milliseconds.
    pub timeout_ms: Option<u64>,
    /// Interval between two status polls, in milliseconds.
    pub retry_interval_ms: Option<u64>,
    /// The data source to execute against.
    pub data_source: Option<String>,
    /// The owner of the data source.
    pub data_provider: Option<String>,
}

impl Query {
    /// The effective acceptable cache age: zero when the cache is bypassed,
    /// else the caller's value, else the default.
    pub open spec fn spec_max_age_minutes(self) -> u64 {
        if self.cached == Some(false) {
            0
        } else {
            match self.max_age_minutes {
                Some(m) => m,
                None => MAX_AGE_MINUTES,
            }
        }
    }

    /// The effective stored-result lifetime in hours: the effective cache age
    /// when it exceeds the default lifetime in minutes, else that default,
    /// divided (integer division) by 60.
    pub open spec fn spec_ttl_hours(self) -> int {
        (if self.spec_max_age_minutes() > 60 {
            self.spec_max_age_minutes() as int
        } else {
            TTL_MINUTES as int
        }) / 60
    }

    /// The effective wall-clock budget in milliseconds.
    pub open spec fn spec_timeout_ms(self) -> u64 {
        match self.timeout_ms {
            Some(t) => t,
            None => TIMEOUT_MS,
        }
    }

    /// The effective poll interval in milliseconds.
    pub open spec fn spec_retry_interval_ms(self) -> u64 {
        match self.retry_interval_ms {
            Some(r) => r,
            None => RETRY_INTERVAL_MS,
        }
    }

    /// Effective acceptable cache age. A bypassed cache forces zero, whatever
    /// the caller supplied for `max_age_minutes`.
    pub fn get_max_age_minutes(&self) -> (r: u64)
        ensures
            r == self.spec_max_age_minutes(),
            self.cached == Some(false) ==> r == 0,
    {
        match self.cached {
            Some(false) => 0,
            _ => match self.max_age_minutes {
                Some(m) => m,
                None => MAX_AGE_MINUTES,
            },
        }
    }

    /// Effective stored-result lifetime in hours. For an effective cache age
    /// of at most 60 minutes this is the default lifetime over 60; above 60
    /// it is the cache age over 60 — the stored result never outlives its
    /// acceptable age floor.
    pub fn get_ttl_hours(&self) -> (r: u64)
        ensures
            r == self.spec_ttl_hours(),
            self.spec_max_age_minutes() <= 60 ==> r == TTL_MINUTES / 60,
            self.spec_max_age_minutes() > 60 ==> r == self.spec_max_age_minutes() / 60,
    {
        let max_age_minutes = self.get_max_age_minutes();
        (if max_age_minutes > 60 {
            max_age_minutes
        } else {
            TTL_MINUTES
        }) / 60
    }

    /// Effective wall-clock budget in milliseconds.
    pub fn get_timeout_ms(&self) -> (r: u64)
        ensures
            r == self.spec_timeout_ms(),
    {
        match self.timeout_ms {
            Some(t) => t,
            None => TIMEOUT_MS,
        }
    }

    /// Effective poll interval in milliseconds.
    pub fn get_retry_interval_ms(&self) -> (r: u64)
        ensures
            r == self.spec_retry_interval_ms(),
    {
        match self.retry_interval_ms {
            Some(r) => r,
            None => RETRY_INTERVAL_MS,
        }
    }
}

/// The structured failure a run reports in a terminal-error state.
pub struct ExecutionError {
    pub name: String,
    pub message: String,
    pub data: String,
}

/// A remote-declared application error.
pub struct RemoteError {
    pub code: i64,
    pub message: String,
    pub data: Option<String>,
}

/// A transport or protocol failure of a single remote call. Never retried by
/// this library.
pub enum RpcError {
    /// The request could not be sent or the connection failed.
    Connection(String),
    /// The response could not be decoded, or it broke the run invariant.
    MalformedResponse(String),
    /// The service itself declared an error on the call.
    Remote(RemoteError),
}

/// The closed set of failures a blocking run can end in.
pub enum QueryRunError {
    /// A remote call failed; the run's fate is unknown.
    RpcError(RpcError),
    /// The wall-clock budget was exceeded while polling; carries the elapsed
    /// milliseconds. The remote run is left running.
    Timeout(u64),
    /// The run itself reached Failed or Cancelled.
    ExecutionError(ExecutionError),
}

/// Builds the create-run request from a query and the defaults: resolved
/// cache age and lifetime, the SQL as given, an empty tag map, and the
/// caller's data source and provider or their defaults.
pub fn build_create_params(query: Query) -> (p: CreateQueryRunParams)
    ensures
        p.result_ttl_hours == query.spec_ttl_hours(),
        p.max_age_minutes == query.spec_max_age_minutes(),
        p.sql == query.sql,
        p.tags@ == Seq::<(String, Option<String>)>::empty(),
        p.data_source@ == (match query.data_source {
            Some(s) => s@,
            None => DATA_SOURCE@,
        }),
        p.data_provider@ == (match query.data_provider {
            Some(s) => s@,
            None => DATA_PROVIDER@,
        }),
{
    let result_ttl_hours = query.get_ttl_hours();
    let max_age_minutes = query.get_max_age_minutes();
    let Query { sql, data_source, data_provider, .. } = query;
    CreateQueryRunParams {
        result_ttl_hours,
        max_age_minutes,
        sql,
        tags: Vec::new(),
        data_source: match data_source {
            Some(s) => s,
            None => String::from_str(DATA_SOURCE),
        },
        data_provider: match data_provider {
            Some(s) => s,
            None => String::from_str(DATA_PROVIDER),
        },
    }
}

/// The page a results request effectively asks for: the caller's, or the
/// default page number and size.
pub open spec fn spec_effective_page(page: Option<Pagination>) -> Pagination {
    match page {
        Some(pg) => pg,
        None => Pagination { number: PAGE_NUMBER, size: PAGE_SIZE },
    }
}

/// Builds a results request against a given run id: CSV-oriented format,
/// the supplied sort and filter lists, and the effective page.
pub fn build_results_params(
    query_run_id: String,
    page: Option<Pagination>,
    filters: Vec<Vec<(FilterKey, String)>>,
    sort_by: Vec<SortBy>,
) -> (p: GetQueryRunResultsParams)
    ensures
        p.query_run_id == query_run_id,
        p.format is Csv,
        p.sort_by == sort_by,
        p.filters == filters,
        p.page == Some(spec_effective_page(page)),
{
    GetQueryRunResultsParams {
        query_run_id,
        format: QueryFormat::Csv,
        sort_by,
        filters,
        page: Some(
            match page {
                Some(pg) => pg,
                None => Pagination { number: PAGE_NUMBER, size: PAGE_SIZE },
            },
        ),
    }
}

/// Builds the results request from a fresh status response: the request is
/// issued against the run the response designates — the redirected run when
/// one is present — never against a stale id.
pub fn results_request_for(
    resp: GetQueryRunResult,
    page: Option<Pagination>,
    filters: Vec<Vec<(FilterKey, String)>>,
    sort_by: Vec<SortBy>,
) -> (p: GetQueryRunResultsParams)
    ensures
        p.query_run_id == observed_run(resp).id,
        p.format is Csv,
        p.sort_by == sort_by,
        p.filters == filters,
        p.page == Some(spec_effective_page(page)),
{
    let run = crate::rpc::resolve_run(resp);
    build_results_params(run.id, page, filters, sort_by)
}

/// The local state a poll loop owns: the configured interval and budget, and
/// the next sleep, which grows by one interval after every poll (linear
/// backoff).
pub struct PollState {
    pub retry_interval_ms: u64,
    pub timeout_ms: u64,
    pub next_sleep_ms: u64,
}

/// What one status response tells the poll loop to do next.
pub enum PollDecision {
    /// The run succeeded; polling ends with this run.
    Done(QueryRun),
    /// The run reached Failed or Cancelled; polling ends with its error.
    Failed(ExecutionError),
    /// The run is still going: observe this run from now on, sleep the given
    /// number of milliseconds, then poll its id again.
    Continue(QueryRun, u64),
}

/// How one poll advances the loop state: the next sleep grows by one
/// interval, saturating at the largest representable value.
pub open spec fn spec_step(st: PollState) -> PollState {
    PollState {
        next_sleep_ms: if st.next_sleep_ms + st.retry_interval_ms > u64::MAX {
            u64::MAX
        } else {
            (st.next_sleep_ms + st.retry_interval_ms) as u64
        },
        ..st
    }
}

impl PollState {
    /// A fresh loop state: the first sleep is one interval.
    pub fn new(retry_interval_ms: u64, timeout_ms: u64) -> (s: Self)
        ensures
            s.retry_interval_ms == retry_interval_ms,
            s.timeout_ms == timeout_ms,
            s.next_sleep_ms == retry_interval_ms,
    {
        PollState { retry_interval_ms, timeout_ms, next_sleep_ms: retry_interval_ms }
    }

    /// Classifies one status response. The run the response designates (the
    /// redirected run when one is present) becomes the run observed from now
    /// on: it is the one returned, failed with, or polled next. A non-terminal
    /// state yields the current sleep and grows the next one by one interval.
    pub fn classify(&mut self, resp: GetQueryRunResult) -> (d: PollDecision)
        requires
            observed_run(resp).wf(),
        ensures
            *final(self) == spec_step(*old(self)),
            (match d {
                PollDecision::Done(r) => is_terminal_ok(observed_run(resp).state) && r
                    == observed_run(resp),
                PollDecision::Failed(e) => is_terminal_err(observed_run(resp).state)
                    && Some(e.name) == observed_run(resp).error_name
                    && Some(e.message) == observed_run(resp).error_message
                    && Some(e.data) == observed_run(resp).error_data,
                PollDecision::Continue(r, sleep_ms) => is_nonterminal(observed_run(resp).state)
                    && r == observed_run(resp)
                    && sleep_ms == old(self).next_sleep_ms,
            }),
    {
        let sleep_ms = self.next_sleep_ms;
        self.next_sleep_ms = if self.next_sleep_ms <= u64::MAX - self.retry_interval_ms {
            self.next_sleep_ms + self.retry_interval_ms
        } else {
            u64::MAX
        };
        let run = crate::rpc::resolve_run(resp);
        match run.state {
            QueryState::QueryStateSuccess => PollDecision::Done(run),
            QueryState::QueryStateFailed | QueryState::QueryStateCancelled => {
                PollDecision::Failed(
                    ExecutionError {
                        name: run.error_name.unwrap(),
                        message: run.error_message.unwrap(),
                        data: run.error_data.unwrap(),
                    },
                )
            },
            _ => PollDecision::Continue(run, sleep_ms),
        }
    }

    /// The budget test a loop applies after each sleep: the budget is
    /// exceeded exactly when the elapsed wall-clock time is strictly above
    /// it, and the elapsed value is carried out unchanged.
    pub fn check_timeout(&self, elapsed_ms: u64) -> (r: Option<u64>)
        ensures
            r == (if elapsed_ms > self.timeout_ms {
                Some(elapsed_ms)
            } else {
                None::<u64>
            }),
    {
        if elapsed_ms > self.timeout_ms {
            Some(elapsed_ms)
        } else {
            None
        }
    }
}

/// How many status calls a poll loop makes on this response sequence: one per
/// response up to and including the first terminal one.
pub open spec fn poll_calls(resps: Seq<GetQueryRunResult>) -> int
    decreases resps.len(),
{
    if resps.len() == 0 {
        0
    } else if is_nonterminal(observed_run(resps[0]).state) {
        1 + poll_calls(resps.drop_first())
    } else {
        1
    }
}

/// The sleeps a poll loop performs on this response sequence, starting from
/// the given loop state: one sleep after every non-terminal response.
pub open spec fn poll_sleeps(st: PollState, resps: Seq<GetQueryRunResult>) -> Seq<u64>
    decreases resps.len(),
{
    if resps.len() == 0 {
        Seq::empty()
    } else if is_nonterminal(observed_run(resps[0]).state) {
        seq![st.next_sleep_ms] + poll_sleeps(spec_step(st), resps.drop_first())
    } else {
        Seq::empty()
    }
}

/// The run a poll loop ends on: the one designated by the first terminal
/// response, if the sequence reaches one.
pub open spec fn poll_outcome(resps: Seq<GetQueryRunResult>) -> Option<QueryRun>
    decreases resps.len(),
{
    if resps.len() == 0 {
        None
    } else if is_nonterminal(observed_run(resps[0]).state) {
        poll_outcome(resps.drop_first())
    } else {
        Some(observed_run(resps[0]))
    }
}

/// Law: a fresh poll loop that sees n non-terminal responses and then a
/// success makes exactly n + 1 status calls, sleeps the strictly increasing
/// arithmetic sequence interval, 2·interval, ..., n·interval, and ends on the
/// success run — provided the whole backoff stays representable.
pub proof fn lemma_linear_backoff(st: PollState, resps: Seq<GetQueryRunResult>, n: int)
    requires
        0 <= n,
        resps.len() == n + 1,
        forall|i: int| 0 <= i < n ==> is_nonterminal(observed_run(#[trigger] resps[i]).state),
        is_terminal_ok(observed_run(resps[n]).state),
        st.next_sleep_ms == st.retry_interval_ms,
        st.retry_interval_ms * (n + 1) <= u64::MAX,
    ensures
        poll_calls(resps) == n + 1,
        poll_outcome(resps) == Some(observed_run(resps[n])),
        poll_sleeps(st, resps) =~= Seq::new(
            n as nat,
            |i: int| (st.retry_interval_ms * (i + 1)) as u64,
        ),
{
    assert(st.retry_interval_ms == st.retry_interval_ms * (0 + 1)) by (nonlinear_arith);
    lemma_backoff_from(st, resps, n, 0);
}

/// Backoff induction step: a loop that has already slept k times continues
/// the arithmetic sequence where it stands.
proof fn lemma_backoff_from(st: PollState, resps: Seq<GetQueryRunResult>, n: int, k: int)
    requires
        0 <= n,
        0 <= k,
        resps.len() == n + 1,
        forall|i: int| 0 <= i < n ==> is_nonterminal(observed_run(#[trigger] resps[i]).state),
        is_terminal_ok(observed_run(resps[n]).state),
        st.next_sleep_ms == st.retry_interval_ms * (k + 1),
        st.retry_interval_ms * (k + n + 1) <= u64::MAX,
    ensures
        poll_calls(resps) == n + 1,
        poll_outcome(resps) == Some(observed_run(resps[n])),
        poll_sleeps(st, resps) =~= Seq::new(
            n as nat,
            |i: int| (st.retry_interval_ms * (k + i + 1)) as u64,
        ),
    decreases n,
{
    if n == 0 {
    } else {
        let rest = resps.drop_first();
        let iv = st.retry_interval_ms as int;
        assert(iv * (k + 2) <= iv * (k + n + 1) && iv * (k + 1) <= iv * (k + n + 1) && iv * (k + 1)
            + iv == iv * (k + 2)) by (nonlinear_arith)
            requires
                0 <= iv,
                0 <= k,
                1 <= n,
        ;
        assert(spec_step(st).next_sleep_ms == iv * (k + 2));
        lemma_backoff_from(spec_step(st), rest, n - 1, k + 1);
        let whole = poll_sleeps(st, resps);
        let tail = poll_sleeps(spec_step(st), rest);
        let want = Seq::new(n as nat, |i: int| (st.retry_interval_ms * (k + i + 1)) as u64);
        assert forall|j: int| 0 <= j < n implies whole[j] == want[j] by {
            if j > 0 {
                assert(whole[j] == tail[j - 1]);
                assert(k + 1 + (j - 1) + 1 == k + j + 1);
            }
        }
        assert(whole =~= want);
    }
}

/// Law: a terminal outcome reached over responses that all designate runs
/// with one id is itself a run with that id.
proof fn lemma_outcome_id(resps: Seq<GetQueryRunResult>, b: QueryRun)
    requires
        forall|i: int| 0 <= i < resps.len() ==> observed_run(#[trigger] resps[i]).id == b.id,
    ensures
        (match poll_outcome(resps) {
            Some(r) => r.id == b.id,
            None => true,
        }),
    decreases resps.len(),
{
    if resps.len() == 0 {
    } else if is_nonterminal(observed_run(resps[0]).state) {
        lemma_outcome_id(resps.drop_first(), b);
    }
}

/// Law: when the first status response redirects to run b and every later
/// response answers about b, the whole rest of the loop is about b — each
/// poll's next target (the run its response designates, whose id the loop
/// polls next) carries b's id, and a terminal outcome, if reached, is a run
/// with b's id.
pub proof fn lemma_redirect_followed(resps: Seq<GetQueryRunResult>, b: QueryRun)
    requires
        resps.len() > 0,
        resps[0].redirected_to_query_run == Some(b),
        forall|i: int| 1 <= i < resps.len() ==> observed_run(#[trigger] resps[i]).id == b.id,
    ensures
        forall|i: int| 0 <= i < resps.len() ==> observed_run(#[trigger] resps[i]).id == b.id,
        (match poll_outcome(resps) {
            Some(r) => r.id == b.id,
            None => true,
        }),
{
    assert(observed_run(resps[0]) == b);
    lemma_outcome_id(resps, b);
}

} // verus!
