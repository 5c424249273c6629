//! What the admin endpoints compute from their requests: search filters and
//! windows, autocomplete prefixes, index lists and the re-index query.
use vstd::prelude::*;
use vstd::string::*;
use crate::event::Events;
use crate::rest::Success;
use crate::text::{remove_all, remove_all_spec};

verus! {

/// The filter of a search: a JSON path match on the data where a query is
/// given, else a condition that always holds.
pub open spec fn search_condition_spec(query: Option<Seq<char>>) -> Seq<char> {
    match query {
        Some(q) => "\"data\" @@ '"@ + q + "'"@,
        None => "1 = 1"@,
    }
}

/// The JSON path match `"data" @@ '<query>'` that searches and reports filter with.
pub fn jsonpath_condition(query: &str) -> (r: String)
    ensures
        r@ == search_condition_spec(Some(query@)),
{
    let mut r = String::from_str("\"data\" @@ '");
    r.append(query);
    r.append("'");
    r
}

/// The filter of a search.
pub fn search_condition(query: &Option<String>) -> (r: String)
    ensures
        r@ == search_condition_spec(match query {
            Some(q) => Some(q@),
            None => None,
        }),
{
    match query {
        Some(q) => jsonpath_condition(q.as_str()),
        None => String::from_str("1 = 1"),
    }
}

/// How many entries a search returns and how many it skips: 10 and 0 unless
/// given.
pub fn search_window(take: Option<u64>, skip: Option<u64>) -> (r: (u64, u64))
    ensures
        r.0 == (match take {
            Some(t) => t,
            None => 10,
        }),
        r.1 == (match skip {
            Some(s) => s,
            None => 0,
        }),
{
    let t: u64 = match take {
        Some(t) => t,
        None => 10,
    };
    let s: u64 = match skip {
        Some(s) => s,
        None => 0,
    };
    (t, s)
}

/// The path prefix that autocompletion looks up: the typed text with every
/// `$.` taken out.
pub fn autocomplete_prefix(typed: &str) -> (r: String)
    ensures
        r@ == remove_all_spec(typed@, "$."@),
{
    remove_all(typed, "$.")
}

/// How many paths autocompletion offers: 10 unless given.
pub fn autocomplete_limit(limit: Option<u64>) -> (r: u64)
    ensures
        r == (match limit {
            Some(l) => l,
            None => 10,
        }),
{
    match limit {
        Some(l) => l,
        None => 10,
    }
}

/// The names of the indexes that have one, in their order.
pub open spec fn named_spec(names: Seq<Option<String>>) -> Seq<Seq<char>>
    decreases names.len(),
{
    if names.len() == 0 {
        Seq::<Seq<char>>::empty()
    } else {
        match names.last() {
            Some(n) => named_spec(names.drop_last()).push(n@),
            None => named_spec(names.drop_last()),
        }
    }
}

/// The names of the indexes that have one, in their order.
pub fn index_names(names: &Vec<Option<String>>) -> (r: Vec<String>)
    ensures
        r@.map_values(|s: String| s@) == named_spec(names@),
{
    let mut r: Vec<String> = Vec::new();
    let mut i: usize = 0;
    while i < names.len()
        invariant
            i <= names.len(),
            r@.map_values(|s: String| s@) == named_spec(names@.take(i as int)),
        decreases names.len() - i,
    {
        assert(names@.take(i + 1).drop_last() =~= names@.take(i as int));
        let ghost before = r@;
        match &names[i] {
            Some(n) => {
                r.push(n.clone());
                assert(r@.map_values(|s: String| s@) =~= before.map_values(|s: String| s@).push(
                    n@,
                ));
            },
            None => {},
        }
        i = i + 1;
    }
    assert(names@.take(names.len() as int) =~= names@);
    r
}

pub open spec fn reindex_sql_spec(schema: Seq<char>, index: Seq<char>) -> Seq<char> {
    "SELECT DISTINCT jsonb_recursive(\"data\") AS path FROM \""@ + schema + "\".\""@ + index + "\" \n                    WHERE ( \n                        (SELECT count(\"timestamp\") FROM log_structs WHERE \"index\"=$1 ) = 0 \n                        OR timestamp > (SELECT \"timestamp\" FROM log_structs WHERE \"index\" = $1 ORDER BY \"timestamp\" DESC LIMIT 1 )\n                    )"@
}

/// The query that collects the JSON paths of the entries of `schema.index`
/// stored since the index's structure was last collected.
pub fn reindex_sql(schema: &str, index: &str) -> (r: String)
    ensures
        r@ == reindex_sql_spec(schema@, index@),
{
    let mut r = String::from_str("SELECT DISTINCT jsonb_recursive(\"data\") AS path FROM \"");
    r.append(schema);
    r.append("\".\"");
    r.append(index);
    r.append("\" \n                    WHERE ( \n                        (SELECT count(\"timestamp\") FROM log_structs WHERE \"index\"=$1 ) = 0 \n                        OR timestamp > (SELECT \"timestamp\" FROM log_structs WHERE \"index\" = $1 ORDER BY \"timestamp\" DESC LIMIT 1 )\n                    )");
    r
}

/// The answer once a re-index has been started.
pub fn reindex_started() -> (r: Success)
    ensures
        r.message@ == "Job reindex start"@,
{
    Success::from_text("Job reindex start")
}

/// The statement that records one JSON path of an index (`$1` the index's
/// name, `$2` the path), refreshing its time where it is already known.
pub fn path_record_sql() -> (r: String)
    ensures
        r@ == "INSERT INTO log_structs (\"index\", path) VALUES ($1, $2) ON CONFLICT (\"index\", path) DO UPDATE SET timestamp = CURRENT_TIMESTAMP"@,
{
    String::from_str(
        "INSERT INTO log_structs (\"index\", path) VALUES ($1, $2) ON CONFLICT (\"index\", path) DO UPDATE SET timestamp = CURRENT_TIMESTAMP",
    )
}

/// Where the re-index task stands between two steps.
pub enum ReindexState {
    /// Waiting for a re-index event.
    Idle,
    /// Looking up the index that the event names.
    LookingUp { index: String },
    /// Collecting the paths of the index's entries (`reindex_sql`); `name` is
    /// the name stored with the index.
    Collecting { index: String, name: Option<String> },
    /// Opening the transaction that records the collected paths.
    Opening { name: Option<String>, paths: Vec<String> },
}

/// What the re-index task hears back from the bus and the database.
pub enum ReindexInput {
    /// An event from the bus.
    Event(Events),
    /// The index was found, with the name stored with it.
    IndexFound { name: Option<String> },
    /// No index has that name.
    IndexMissing,
    /// The paths of the entries were collected.
    PathsCollected { paths: Vec<String> },
    /// The transaction was opened.
    Opened,
    /// The step failed.
    Failed,
}

/// What the re-index task does next.
pub enum ReindexAction {
    /// Wait for the next event.
    Wait,
    /// Look the index up by its name.
    LookUp { index: String },
    /// Collect the paths of the index's entries.
    Collect { index: String },
    /// Open a transaction.
    Open,
    /// Record each path under `name` (`path_record_sql`) and commit; then
    /// wait for the next event.
    Record { name: Option<String>, paths: Vec<String> },
}

/// One step of the re-index task: a re-index event starts a run, each
/// answer that lets the run go on leads to the next step, and anything else
/// (another event, a missing index, a failure) ends the run.
pub open spec fn reindex_next(state: ReindexState, input: ReindexInput) -> (
    ReindexState,
    ReindexAction,
) {
    match state {
        ReindexState::Idle => match input {
            ReindexInput::Event(Events::ReIndex { index }) => (
                ReindexState::LookingUp { index },
                ReindexAction::LookUp { index },
            ),
            _ => (ReindexState::Idle, ReindexAction::Wait),
        },
        ReindexState::LookingUp { index } => match input {
            ReindexInput::IndexFound { name } => (
                ReindexState::Collecting { index, name },
                ReindexAction::Collect { index },
            ),
            _ => (ReindexState::Idle, ReindexAction::Wait),
        },
        ReindexState::Collecting { index: _, name } => match input {
            ReindexInput::PathsCollected { paths } => (
                ReindexState::Opening { name, paths },
                ReindexAction::Open,
            ),
            _ => (ReindexState::Idle, ReindexAction::Wait),
        },
        ReindexState::Opening { name, paths } => match input {
            ReindexInput::Opened => (ReindexState::Idle, ReindexAction::Record { name, paths }),
            _ => (ReindexState::Idle, ReindexAction::Wait),
        },
    }
}

/// The re-index task's step, as `reindex_next` says.
pub fn reindex_step(state: ReindexState, input: ReindexInput) -> (r: (ReindexState, ReindexAction))
    ensures
        r == reindex_next(state, input),
{
    match state {
        ReindexState::Idle => match input {
            ReindexInput::Event(Events::ReIndex { index }) => {
                let again = index.clone();
                (ReindexState::LookingUp { index }, ReindexAction::LookUp { index: again })
            },
            _ => (ReindexState::Idle, ReindexAction::Wait),
        },
        ReindexState::LookingUp { index } => match input {
            ReindexInput::IndexFound { name } => {
                let again = index.clone();
                (ReindexState::Collecting { index, name }, ReindexAction::Collect { index: again })
            },
            _ => (ReindexState::Idle, ReindexAction::Wait),
        },
        ReindexState::Collecting { index: _, name } => match input {
            ReindexInput::PathsCollected { paths } => (
                ReindexState::Opening { name, paths },
                ReindexAction::Open,
            ),
            _ => (ReindexState::Idle, ReindexAction::Wait),
        },
        ReindexState::Opening { name, paths } => match input {
            ReindexInput::Opened => (ReindexState::Idle, ReindexAction::Record { name, paths }),
            _ => (ReindexState::Idle, ReindexAction::Wait),
        },
    }
}

/// A whole re-index run: from an idle task, a re-index event for `index`,
/// the index found with `name`, its `paths` collected and the transaction
/// opened lead to recording exactly those paths under that name, after which
/// the task is idle again.
pub proof fn reindex_run_records(index: String, name: Option<String>, paths: Vec<String>)
    ensures
        ({
            let (s1, a1) = reindex_next(
                ReindexState::Idle,
                ReindexInput::Event(Events::ReIndex { index }),
            );
            let (s2, a2) = reindex_next(s1, ReindexInput::IndexFound { name });
            let (s3, a3) = reindex_next(s2, ReindexInput::PathsCollected { paths });
            let (s4, a4) = reindex_next(s3, ReindexInput::Opened);
            &&& a1 == ReindexAction::LookUp { index }
            &&& a2 == ReindexAction::Collect { index }
            &&& a3 == ReindexAction::Open
            &&& a4 == ReindexAction::Record { name, paths }
            &&& s4 == ReindexState::Idle
        }),
{
}

/// A failure at any step ends the run: the task is idle and waits for the
/// next event.
pub proof fn failure_ends_run(state: ReindexState)
    ensures
        reindex_next(state, ReindexInput::Failed) == (ReindexState::Idle, ReindexAction::Wait),
{
}

/// The JSON path filter of a search or a report holds the query itself,
/// character for character, after `"data" @@ '` and before a closing `'`,
/// whatever characters the query holds.
pub proof fn query_kept_verbatim(q: Seq<char>)
    ensures
        ({
            let c = search_condition_spec(Some(q));
            &&& c.len() == q.len() + 12
            &&& c.take(11) == seq!['"', 'd', 'a', 't', 'a', '"', ' ', '@', '@', ' ', '\'']
            &&& c.subrange(11, c.len() - 1) == q
            &&& c.last() == '\''
        }),
{
    reveal_strlit("\"data\" @@ '");
    reveal_strlit("'");
    let c = search_condition_spec(Some(q));
    assert(c.take(11) =~= seq!['"', 'd', 'a', 't', 'a', '"', ' ', '@', '@', ' ', '\'']);
    assert(c.subrange(11, c.len() - 1) =~= q);
}

/// The part of the re-index condition that holds while no path of the index
/// has been recorded yet.
pub open spec fn no_path_recorded_sql() -> Seq<char> {
    "(SELECT count(\"timestamp\") FROM log_structs WHERE \"index\"=$1 ) = 0"@
}

/// The part of the re-index condition that holds for an entry newer than the
/// newest recorded path of the index.
pub open spec fn newer_than_recorded_sql() -> Seq<char> {
    "timestamp > (SELECT \"timestamp\" FROM log_structs WHERE \"index\" = $1 ORDER BY \"timestamp\" DESC LIMIT 1 )"@
}

/// The re-index query selects the paths of the entries for which either no
/// path of the index is recorded yet or which are newer than the newest
/// recorded path: the two conditions joined by `OR`, so every entry of an
/// index whose paths were never collected is taken.
pub proof fn reindex_takes_all_until_first_record(schema: Seq<char>, index: Seq<char>)
    ensures
        reindex_sql_spec(schema, index) == "SELECT DISTINCT jsonb_recursive(\"data\") AS path FROM \""@
            + schema + "\".\""@ + index + "\" \n                    WHERE ( \n                        "@
            + no_path_recorded_sql() + " \n                        OR "@ + newer_than_recorded_sql()
            + "\n                    )"@,
{
    reveal_strlit("SELECT DISTINCT jsonb_recursive(\"data\") AS path FROM \"");
    reveal_strlit("\".\"");
    reveal_strlit("\" \n                    WHERE ( \n                        (SELECT count(\"timestamp\") FROM log_structs WHERE \"index\"=$1 ) = 0 \n                        OR timestamp > (SELECT \"timestamp\" FROM log_structs WHERE \"index\" = $1 ORDER BY \"timestamp\" DESC LIMIT 1 )\n                    )");
    reveal_strlit("\" \n                    WHERE ( \n                        ");
    reveal_strlit("(SELECT count(\"timestamp\") FROM log_structs WHERE \"index\"=$1 ) = 0");
    reveal_strlit(" \n                        OR ");
    reveal_strlit("timestamp > (SELECT \"timestamp\" FROM log_structs WHERE \"index\" = $1 ORDER BY \"timestamp\" DESC LIMIT 1 )");
    reveal_strlit("\n                    )");
    assert(reindex_sql_spec(schema, index) =~= "SELECT DISTINCT jsonb_recursive(\"data\") AS path FROM \""@
        + schema + "\".\""@ + index + "\" \n                    WHERE ( \n                        "@
        + no_path_recorded_sql() + " \n                        OR "@ + newer_than_recorded_sql()
        + "\n                    )"@);
}

/// Every index that has a name is listed, with no bound on their number: the
/// list is as long as the number of named indexes, a named index added at the
/// end adds its name at the end, and an unnamed one adds nothing.
pub proof fn every_named_index_listed(names: Seq<Option<String>>, n: String)
    ensures
        named_spec(names).len() == names.filter(|o: Option<String>| o is Some).len(),
        named_spec(names.push(Some(n))) == named_spec(names).push(n@),
        named_spec(names.push(None)) == named_spec(names),
    decreases names.len(),
{
    assert(names.push(Some(n)).drop_last() =~= names);
    assert(names.push(None::<String>).drop_last() =~= names);
    if names.len() > 0 {
        every_named_index_listed(names.drop_last(), n);
        let named = |o: Option<String>| o is Some;
        reveal(Seq::filter);
        assert(names.filter(named) == if named(names.last()) {
            names.drop_last().filter(named).push(names.last())
        } else {
            names.drop_last().filter(named)
        });
    }
}

} // verus!
