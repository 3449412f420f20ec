//! Running a query: create it, ask for its result, and poll until the result is complete.
use vstd::prelude::*;
use crate::errors::JsonField;
use crate::paths::{collection_path, collection_path_spec, item_path, item_path_spec, Resource};
use crate::text::{decimal, push_decimal};
use crate::timestamp::Timestamp;

verus! {

/// One calculation of a query.
#[derive(Clone, Debug)]
pub struct Calculation {
    pub op: String,
    pub column: Option<String>,
    pub alias: String,
}

/// One ordering of a query's results.
#[derive(Clone, Debug)]
pub struct Order {
    pub op: Option<String>,
    pub column: Option<String>,
    pub order: String,
}

/// One filter of a query: a column, an operator and the value compared with.
#[derive(Debug)]
pub struct Filter {
    pub column: String,
    pub op: String,
    pub value: serde_json::Value,
}

/// A saved query.
#[derive(Debug)]
pub struct Query {
    pub id: String,
    pub query_url: String,
    pub query_style: String,
    pub calculations: Vec<Calculation>,
    pub filters: Vec<Filter>,
    pub breakdowns: Vec<String>,
    pub orders: Vec<Order>,
    pub limit: Option<i32>,
    pub time_range: Option<i64>,
    pub start_time: Option<Timestamp>,
    pub end_time: Option<Timestamp>,
    pub granularity: Option<i64>,
}

/// The state of a query run, and its data once complete.
#[derive(Debug)]
pub struct QueryResult {
    pub query_result_id: String,
    pub query_url: String,
    pub complete: bool,
    pub links: Option<QueryResultLinks>,
    pub data: Option<QueryData>,
}

/// The data of a complete query result.
#[derive(Debug)]
pub struct QueryData {
    pub series: Vec<QuerySeries>,
    pub is_time_series: bool,
    pub query: Query,
}

/// One series of a result: its time bucket, if any, and its points.
#[derive(Debug)]
pub struct QuerySeries {
    pub time: Option<Timestamp>,
    pub data: Vec<QueryDataPoint>,
}

/// One point of a series: each named value it carries, one entry per name.
#[derive(Debug)]
pub struct QueryDataPoint {
    pub values: Vec<(String, serde_json::Value)>,
}

/// Where a query result and its graph can be fetched.
#[derive(Clone, Debug)]
pub struct QueryResultLinks {
    pub query_result: String,
    pub graph_image: Option<String>,
}

pub const MISSING_QUERY_ID: &'static str = "Failed to get query ID from response";
pub const MISSING_RESULT_ID: &'static str = "Failed to get query result ID from response";

/// The text of a required string field, or the given failure when it is absent
/// or not a string.
pub fn required_text(field: JsonField, missing: &str) -> (r: Result<String, String>)
    ensures
        match field {
            JsonField::Text(t) => r == Ok::<String, String>(t),
            _ => (r matches Err(m) && m@ == missing@),
        },
{
    match field {
        JsonField::Text(t) => Ok(t),
        _ => Err(String::from_str(missing)),
    }
}

/// The path a query is created at.
pub fn query_path(dataset: &str) -> (r: String)
    ensures
        r@ == collection_path_spec(Resource::Queries, dataset@),
{
    collection_path(Resource::Queries, dataset)
}

/// The path a query result is requested at.
pub fn result_path(dataset: &str) -> (r: String)
    ensures
        r@ == collection_path_spec(Resource::QueryResults, dataset@),
{
    collection_path(Resource::QueryResults, dataset)
}

/// The path a query result is polled at.
pub fn poll_path(dataset: &str, result_id: &str) -> (r: String)
    ensures
        r@ == item_path_spec(Resource::QueryResults, dataset@, result_id@),
{
    item_path(Resource::QueryResults, dataset, result_id)
}

/// What to tell the user when the result is not waited for.
pub open spec fn no_wait_spec(dataset: Seq<char>, result_id: Seq<char>) -> Seq<Seq<char>> {
    seq![
        "Query result ID: "@ + result_id,
        "Use 'apiary query-results get --dataset "@ + dataset + " --id "@ + result_id
            + "' to check status"@,
    ]
}

/// What to tell the user when the result is not waited for.
pub fn no_wait_lines(dataset: &str, result_id: &str) -> (r: Vec<String>)
    ensures
        crate::table::views(r@) == no_wait_spec(dataset@, result_id@),
{
    let mut first = String::from_str("Query result ID: ");
    first.append(result_id);
    let mut second = String::from_str("Use 'apiary query-results get --dataset ");
    second.append(dataset);
    second.append(" --id ");
    second.append(result_id);
    second.append("' to check status");
    let mut r: Vec<String> = Vec::new();
    r.push(first);
    r.push(second);
    assert(crate::table::views(r@) =~= no_wait_spec(dataset@, result_id@));
    r
}

/// What the poller does next.
#[derive(Clone, Debug)]
pub enum PollAction {
    /// Fetch the result once more.
    Fetch,
    /// Give up, with this message.
    TimedOut(String),
}

/// The message of a poll that ran out of time.
pub open spec fn timed_out_text(timeout: u64) -> Seq<char> {
    "Query timed out after "@ + decimal(timeout as nat) + " seconds"@
}

/// Polling a query result once a second until it is complete or the time is up.
#[derive(Clone, Copy, Debug)]
pub struct QueryPoll {
    pub elapsed: u64,
    pub timeout: u64,
}

impl QueryPoll {
    /// A poll that has not waited yet.
    pub fn new(timeout: u64) -> (r: Self)
        ensures
            r.elapsed == 0,
            r.timeout == timeout,
    {
        QueryPoll { elapsed: 0, timeout }
    }

    /// The poll never waits past its timeout.
    pub open spec fn wf(&self) -> bool {
        self.elapsed <= self.timeout
    }

    /// Fetch while time remains; time out once the seconds waited reach the timeout.
    pub fn next_action(&self) -> (r: PollAction)
        ensures
            self.elapsed >= self.timeout ==> (r matches PollAction::TimedOut(m) && m@ == timed_out_text(
                self.timeout,
            )),
            self.elapsed < self.timeout ==> r is Fetch,
    {
        if self.elapsed >= self.timeout {
            let mut m = String::from_str("Query timed out after ");
            push_decimal(&mut m, self.timeout);
            m.append(" seconds");
            PollAction::TimedOut(m)
        } else {
            PollAction::Fetch
        }
    }

    /// Takes in a fetched result's `complete` flag: returns whether the result
    /// is complete; if not, one more second is waited.
    pub fn observe(&mut self, complete: Option<bool>) -> (done: bool)
        requires
            old(self).wf(),
            old(self).elapsed < old(self).timeout,
        ensures
            done == (complete == Some(true)),
            final(self).timeout == old(self).timeout,
            done ==> final(self).elapsed == old(self).elapsed,
            !done ==> final(self).elapsed == old(self).elapsed + 1,
            final(self).wf(),
    {
        match complete {
            Some(true) => true,
            _ => {
                self.elapsed = self.elapsed + 1;
                false
            },
        }
    }
}

} // verus!
