//! Typed records and enumerations matching the remote contract: query states,
//! the query-run entity, column metadata, pagination, filters, and the
//! parameter/result records of the four remote calls.

use vstd::prelude::*;

verus! {

/// The rows of a results page are loosely typed JSON records; the library
/// carries them through without inspecting them.
/// Relies on serde_json::Value only as an opaque value type.
#[verifier::external_type_specification]
#[verifier::external_body]
pub struct ExValue(serde_json::Value);

/// The state a query run is in. Ready, Running and StreamingResults are
/// non-terminal (polling continues); Success is terminal-ok; Failed and
/// Cancelled are terminal-error.
#[derive(Clone, Copy, Debug, PartialEq, Eq, Structural)]
pub enum QueryState {
    QueryStateReady,
    QueryStateRunning,
    QueryStateSuccess,
    QueryStateFailed,
    QueryStateStreamingResults,
    QueryStateCancelled,
}

/// Success is the only state that ends a poll loop with a result.
pub open spec fn is_terminal_ok(s: QueryState) -> bool {
    s is QueryStateSuccess
}

/// Failed and Cancelled end a poll loop with an execution error.
pub open spec fn is_terminal_err(s: QueryState) -> bool {
    s is QueryStateFailed || s is QueryStateCancelled
}

/// Ready, Running and StreamingResults keep the poll loop going.
pub open spec fn is_nonterminal(s: QueryState) -> bool {
    !is_terminal_ok(s) && !is_terminal_err(s)
}

/// The request record the service stores for a submitted query.
#[derive(Clone, Debug)]
pub struct QueryRequest {
    pub id: String,
    pub sql_statement_id: String,
    pub user_id: String,
    pub tags: Vec<(String, Option<String>)>,
    pub max_age_minutes: u64,
    pub result_ttl_hours: u64,
    pub user_skip_cache: bool,
    pub triggered_query_run: bool,
    pub query_run_id: String,
    pub created_at: String,
    pub updated_at: String,
}

/// The service reports result files either as one name or as a list.
#[derive(Clone, Debug)]
pub enum FileNames {
    Single(String),
    Multiple(Vec<String>),
}

impl FileNames {
    /// The file list a value stands for: a single name is a one-element list.
    pub open spec fn spec_vec(self) -> Seq<String> {
        match self {
            FileNames::Single(s) => seq![s],
            FileNames::Multiple(v) => v@,
        }
    }

    /// Flattens either form into a plain list of file names.
    pub fn into(self) -> (v: Vec<String>)
        ensures
            v@ == self.spec_vec(),
    {
        match self {
            FileNames::Single(s) => vec![s],
            FileNames::Multiple(v) => v,
        }
    }
}

/// A query run as the service reports it. The error triple is present if and
/// only if the state is terminal-error; `wf` states that invariant.
#[derive(Clone, Debug)]
pub struct QueryRun {
    pub id: String,
    pub sql_statement_id: String,
    pub state: QueryState,
    pub path: String,
    pub file_count: Option<usize>,
    pub last_file_number: Option<usize>,
    pub file_names: Option<FileNames>,
    pub error_name: Option<String>,
    pub error_message: Option<String>,
    pub error_data: Option<String>,
    pub external_query_id: Option<String>,
    pub data_source_query_id: Option<String>,
    pub data_source_session_id: Option<String>,
    pub started_at: Option<String>,
    pub query_running_ended_at: Option<String>,
    pub query_streaming_ended_at: Option<String>,
    pub ended_at: Option<String>,
    pub row_count: Option<usize>,
    pub total_size: Option<String>,
    pub tags: Vec<(String, Option<String>)>,
    pub data_source_id: String,
    pub user_id: String,
    pub created_at: String,
    pub updated_at: String,
    pub archived_at: Option<String>,
    pub rows_per_result_set: usize,
    pub statement_timeout_seconds: u64,
    pub abort_detached_query: bool,
}

impl QueryRun {
    /// All three error fields are populated.
    pub open spec fn error_fields_present(self) -> bool {
        self.error_name is Some && self.error_message is Some && self.error_data is Some
    }

    /// The run invariant: the error triple is populated exactly in the
    /// terminal-error states.
    pub open spec fn wf(self) -> bool {
        is_terminal_err(self.state) <==> self.error_fields_present()
    }
}

/// Checks the run invariant on a value received from the wire.
pub fn query_run_wf(run: &QueryRun) -> (b: bool)
    ensures
        b == run.wf(),
{
    let terminal_err = match run.state {
        QueryState::QueryStateFailed | QueryState::QueryStateCancelled => true,
        _ => false,
    };
    let present = run.error_name.is_some() && run.error_message.is_some()
        && run.error_data.is_some();
    terminal_err == present
}

/// Column names and types of a statement's result set.
#[derive(Clone, Debug)]
pub struct ColumnMetadata {
    pub types: Vec<String>,
    pub columns: Vec<String>,
    pub col_type_map: Vec<(String, String)>,
}

/// The SQL statement a run executes.
#[derive(Clone, Debug)]
pub struct SqlStatement {
    pub id: String,
    pub statement_hash: String,
    pub sql: String,
    pub column_metadata: ColumnMetadata,
    pub user_id: String,
    pub tags: Vec<(String, Option<String>)>,
    pub created_at: String,
    pub updated_at: String,
}

/// Result of the create-run call.
#[derive(Clone, Debug)]
pub struct CreateQueryRunResult {
    pub query_request: QueryRequest,
    pub query_run: QueryRun,
    pub sql_statement: SqlStatement,
}

/// One sort criterion on a results request.
#[derive(Clone, Debug)]
pub struct SortBy {
    pub column: String,
    pub direction: String,
}

/// The keys a filter entry may carry: the column it applies to plus one
/// comparator.
#[derive(Clone, Copy, Debug, PartialEq, Eq, Structural)]
pub enum FilterKey {
    Column,
    Eq,
    Neq,
    Gt,
    Gte,
    Lt,
    Lte,
    Like,
    In,
    NotIn,
}

/// A 1-based page request.
#[derive(Clone, Copy, Debug, PartialEq, Eq, Structural)]
pub struct Pagination {
    pub number: usize,
    pub size: usize,
}

/// The type the service assigns to a result column.
#[derive(Clone, Copy, Debug, PartialEq, Eq, Structural)]
pub enum ColumnType {
    String,
    Number,
    Date,
    Object,
    Array,
    Boolean,
    Unknown,
}

/// Where a returned page sits in the full result set.
#[derive(Clone, Copy, Debug, PartialEq, Eq, Structural)]
pub struct PaginationDetails {
    pub current_page_number: usize,
    pub current_page_size: usize,
    pub total_rows: usize,
    pub total_pages: usize,
}

/// One page of results, together with the run that actually produced it
/// (which may differ from the run requested, due to redirect).
#[derive(Clone, Debug)]
pub struct GetQueryRunResultsResult {
    pub column_names: Vec<String>,
    pub column_types: Vec<ColumnType>,
    pub rows: Vec<serde_json::Value>,
    pub page: PaginationDetails,
    pub original_query_run: QueryRun,
    pub redirected_to_query_run: Option<QueryRun>,
}

/// Result of a single status fetch: the run asked about, and, when the
/// service reassigned the work to a prior cached execution, that other run.
#[derive(Clone, Debug)]
pub struct GetQueryRunResult {
    pub query_run: QueryRun,
    pub redirected_to_query_run: Option<QueryRun>,
}

/// The run a status response tells the caller to observe from now on: the
/// redirected run when one is present, otherwise the run asked about.
pub open spec fn observed_run(resp: GetQueryRunResult) -> QueryRun {
    match resp.redirected_to_query_run {
        Some(r) => r,
        None => resp.query_run,
    }
}

/// Checks the run invariant on the run a status response designates.
pub fn response_wf(resp: &GetQueryRunResult) -> (b: bool)
    ensures
        b == observed_run(*resp).wf(),
{
    match &resp.redirected_to_query_run {
        Some(r) => query_run_wf(r),
        None => query_run_wf(&resp.query_run),
    }
}

/// Picks the run a status response designates.
pub fn resolve_run(resp: GetQueryRunResult) -> (r: QueryRun)
    ensures
        r == observed_run(resp),
{
    match resp.redirected_to_query_run {
        Some(r) => r,
        None => resp.query_run,
    }
}

/// Result of the cancel call.
#[derive(Clone, Debug)]
pub struct CancelQueryRunResult {
    pub canceled_query_run: QueryRun,
}

/// The encoding results are requested in.
#[derive(Clone, Copy, Debug, PartialEq, Eq, Structural)]
pub enum QueryFormat {
    Json,
    Csv,
}

/// Parameters of the get-results call. A filter entry is an ordered mapping
/// from filter key to value; entries are combined with AND.
#[derive(Clone, Debug)]
pub struct GetQueryRunResultsParams {
    pub query_run_id: String,
    pub format: QueryFormat,
    pub sort_by: Vec<SortBy>,
    pub filters: Vec<Vec<(FilterKey, String)>>,
    pub page: Option<Pagination>,
}

/// Parameters of the create-run call.
#[derive(Clone, Debug)]
pub struct CreateQueryRunParams {
    pub result_ttl_hours: u64,
    pub max_age_minutes: u64,
    pub sql: String,
    pub tags: Vec<(String, Option<String>)>,
    pub data_source: String,
    pub data_provider: String,
}

/// Parameters of the calls that name a run by id.
#[derive(Clone, Debug)]
pub struct QueryRunIdParams {
    pub query_run_id: String,
}

} // verus!
