//! The read-only operations: configuration, message lookup, cursor-based
//! listing of both stores, and the derived gas summary. Queries never
//! mutate and never touch the authorization gate.

use vstd::prelude::*;
use vstd::arithmetic::div_mod::lemma_div_pos_is_pos;
use vstd::string::StrSliceExecFns;

use crate::contract::tx_count_of;
use crate::kv::{cut_idx, find_cut, kv_get, lemma_cut_props, lookup};
use crate::text::count_commas;
use crate::types::{ConfigResponse, ContractError, ContractStore, GasSummary, ListMessagesResponse,
    MessageResponse, QueryAnswer, QueryMsg, TestRunResponse, TestRunsResponse, TestRunStats};

verus! {

/// The limit requested by the caller, defaulted and clamped to the
/// operation's hard cap.
pub open spec fn eff_limit(limit: Option<u32>, dflt: int, cap: int) -> int {
    let l = match limit {
        Option::Some(x) => x as int,
        Option::None => dflt,
    };
    if l > cap {
        cap
    } else {
        l
    }
}

/// Where a scan continuing after the cursor starts: at the front without a
/// cursor, at the first key strictly above it otherwise.
pub open spec fn start_of<V>(s: Seq<(String, V)>, start_after: Option<String>) -> int {
    match start_after {
        Option::Some(c) => cut_idx(s, c@),
        Option::None => 0,
    }
}

/// What the configuration query reports: the owner, the run counter and
/// the last-run time, verbatim.
pub open spec fn config_resp(store: ContractStore, c: ConfigResponse) -> bool {
    &&& c.owner@ == store.state.owner@
    &&& c.test_count == store.state.test_run_count
    &&& c.last_test == store.state.last_test_timestamp
}

/// Reports the contract configuration.
pub fn query_config(store: &ContractStore) -> (r: ConfigResponse)
    ensures
        config_resp(*store, r),
{
    ConfigResponse {
        owner: store.state.owner.clone(),
        test_count: store.state.test_run_count,
        last_test: store.state.last_test_timestamp,
    }
}

/// What a message lookup reports: the stored record under the id, or
/// not-found exactly when the id is unbound.
pub open spec fn message_resp(store: ContractStore, id: Seq<char>, m: MessageResponse) -> bool {
    &&& (lookup(store.messages@, id) matches Some(rec) && m.content@ == rec.content@ && m.length
        == rec.length && m.time == rec.stored_at)
    &&& m.id@ == id
}

/// Looks a message up by id.
pub fn query_message(store: &ContractStore, id: String) -> (r: Result<
    MessageResponse,
    ContractError,
>)
    requires
        store.wf(),
    ensures
        match r {
            Result::Ok(m) => message_resp(*store, id@, m),
            Result::Err(e) => lookup(store.messages@, id@) is None && e is NotFound,
        },
{
    match kv_get(&store.messages, id.as_str()) {
        Some(message) => Ok(
            MessageResponse {
                content: message.content.clone(),
                length: message.length,
                time: message.stored_at,
                id,
            },
        ),
        None => Err(ContractError::NotFound {}),
    }
}

/// What a message listing reports: up to the clamped limit of records,
/// taken in ascending key order strictly after the cursor, each copied
/// verbatim, with the page's count.
pub open spec fn list_messages_resp(
    store: ContractStore,
    start_after: Option<String>,
    limit: Option<u32>,
    r: ListMessagesResponse,
) -> bool {
    let s = store.messages@;
    let lo = start_of(s, start_after);
    let lim = eff_limit(limit, 10, 30);
    let take = if s.len() - lo > lim {
        lim
    } else {
        s.len() - lo
    };
    &&& r.msgs@.len() == take
    &&& r.count == take
    &&& forall|j: int|
        0 <= j < take ==> {
            &&& (#[trigger] r.msgs@[j]).id@ == s[lo + j].0@
            &&& r.msgs@[j].content@ == s[lo + j].1.content@
            &&& r.msgs@[j].length == s[lo + j].1.length
            &&& r.msgs@[j].time == s[lo + j].1.stored_at
        }
}

/// Lists messages in ascending key order, strictly after the cursor.
pub fn query_list_messages(
    store: &ContractStore,
    start_after: Option<String>,
    limit: Option<u32>,
) -> (r: ListMessagesResponse)
    requires
        store.wf(),
    ensures
        list_messages_resp(*store, start_after, limit, r),
{
    let lim_u32: u32 = match &limit {
        Some(l) => if *l > 30 {
            30
        } else {
            *l
        },
        None => 10,
    };
    let lim: usize = lim_u32 as usize;
    let lo: usize = match &start_after {
        Some(c) => find_cut(&store.messages, c.as_str()),
        None => 0,
    };
    proof {
        match start_after {
            Option::Some(c) => lemma_cut_props(store.messages@, c@),
            Option::None => {},
        }
    }
    let n: usize = store.messages.len();
    let end: usize = if n - lo > lim {
        lo + lim
    } else {
        n
    };
    let mut out: Vec<MessageResponse> = Vec::new();
    let mut j: usize = lo;
    while j < end
        invariant
            lo <= j <= end <= n,
            n == store.messages@.len(),
            out@.len() == j - lo,
            forall|t: int|
                0 <= t < out@.len() ==> {
                    &&& (#[trigger] out@[t]).id@ == store.messages@[lo + t].0@
                    &&& out@[t].content@ == store.messages@[lo + t].1.content@
                    &&& out@[t].length == store.messages@[lo + t].1.length
                    &&& out@[t].time == store.messages@[lo + t].1.stored_at
                },
        decreases end - j,
    {
        let e = &store.messages[j];
        out.push(
            MessageResponse {
                id: e.0.clone(),
                content: e.1.content.clone(),
                length: e.1.length,
                time: e.1.stored_at,
            },
        );
        j += 1;
    }
    let count: u64 = out.len() as u64;
    ListMessagesResponse { msgs: out, count }
}

/// What a test-run listing reports: up to the clamped limit of records,
/// taken in descending key order, all strictly after the cursor, each
/// copied verbatim with its derived transaction count.
pub open spec fn test_runs_resp(
    store: ContractStore,
    start_after: Option<String>,
    limit: Option<u32>,
    r: TestRunsResponse,
) -> bool {
    let s = store.test_runs@;
    let lo = start_of(s, start_after);
    let lim = eff_limit(limit, 5, 20);
    let take = if s.len() - lo > lim {
        lim
    } else {
        s.len() - lo
    };
    &&& r.runs@.len() == take
    &&& forall|j: int|
        0 <= j < take ==> {
            &&& (#[trigger] r.runs@[j]).id@ == s[s.len() - 1 - j].0@
            &&& r.runs@[j].time == s[s.len() - 1 - j].1.timestamp
            &&& r.runs@[j].count == s[s.len() - 1 - j].1.message_count
            &&& r.runs@[j].gas == s[s.len() - 1 - j].1.total_gas
            &&& r.runs@[j].avg_gas == s[s.len() - 1 - j].1.avg_gas_per_byte
            &&& r.runs@[j].chain@ == s[s.len() - 1 - j].1.chain_id@
            &&& r.runs@[j].tx_count == tx_count_of(s[s.len() - 1 - j].1.tx_proof)
        }
}

/// Lists test runs in descending key order, strictly after the cursor.
pub fn query_test_runs(
    store: &ContractStore,
    start_after: Option<String>,
    limit: Option<u32>,
) -> (r: TestRunsResponse)
    requires
        store.wf(),
    ensures
        test_runs_resp(*store, start_after, limit, r),
{
    let lim_u32: u32 = match &limit {
        Some(l) => if *l > 20 {
            20
        } else {
            *l
        },
        None => 5,
    };
    let lim: usize = lim_u32 as usize;
    let lo: usize = match &start_after {
        Some(c) => find_cut(&store.test_runs, c.as_str()),
        None => 0,
    };
    proof {
        match start_after {
            Option::Some(c) => lemma_cut_props(store.test_runs@, c@),
            Option::None => {},
        }
    }
    let n: usize = store.test_runs.len();
    let take: usize = if n - lo > lim {
        lim
    } else {
        n - lo
    };
    let mut out: Vec<TestRunResponse> = Vec::new();
    let mut j: usize = 0;
    while j < take
        invariant
            0 <= j <= take,
            take <= n - lo,
            lo <= n,
            n == store.test_runs@.len(),
            store.wf(),
            out@.len() == j,
            forall|t: int|
                0 <= t < out@.len() ==> {
                    &&& (#[trigger] out@[t]).id@ == store.test_runs@[n - 1 - t].0@
                    &&& out@[t].time == store.test_runs@[n - 1 - t].1.timestamp
                    &&& out@[t].count == store.test_runs@[n - 1 - t].1.message_count
                    &&& out@[t].gas == store.test_runs@[n - 1 - t].1.total_gas
                    &&& out@[t].avg_gas == store.test_runs@[n - 1 - t].1.avg_gas_per_byte
                    &&& out@[t].chain@ == store.test_runs@[n - 1 - t].1.chain_id@
                    &&& out@[t].tx_count == tx_count_of(store.test_runs@[n - 1 - t].1.tx_proof)
                },
        decreases take - j,
    {
        let e = &store.test_runs[n - 1 - j];
        let tx_count: u32 = match &e.1.tx_proof {
            Some(p) => {
                proof {
                    assert(store.test_runs@[n - 1 - j].1.wf());
                    crate::text::lemma_comma_count_bounds(p@);
                }
                (count_commas(p.as_str()) + 1) as u32
            },
            None => 0,
        };
        out.push(
            TestRunResponse {
                id: e.0.clone(),
                time: e.1.timestamp,
                count: e.1.message_count,
                gas: e.1.total_gas,
                avg_gas: e.1.avg_gas_per_byte,
                chain: e.1.chain_id.clone(),
                tx_count,
            },
        );
        j += 1;
    }
    TestRunsResponse { runs: out }
}

/// Total message count over a sequence of test-run records.
pub open spec fn sum_count(rs: Seq<TestRunStats>) -> int
    decreases rs.len(),
{
    if rs.len() == 0 {
        0
    } else {
        sum_count(rs.drop_last()) + rs.last().message_count
    }
}

/// Total gas over a sequence of test-run records.
pub open spec fn sum_gas(rs: Seq<TestRunStats>) -> int
    decreases rs.len(),
{
    if rs.len() == 0 {
        0
    } else {
        sum_gas(rs.drop_last()) + rs.last().total_gas
    }
}

/// Bytes estimated from one record: its gas divided by its average gas
/// per byte (floor), or zero when that average is zero.
pub open spec fn bytes_of(t: TestRunStats) -> int {
    if t.avg_gas_per_byte != 0 {
        (t.total_gas as int) / (t.avg_gas_per_byte as int)
    } else {
        0
    }
}

/// Total estimated bytes over a sequence of test-run records.
pub open spec fn sum_bytes(rs: Seq<TestRunStats>) -> int
    decreases rs.len(),
{
    if rs.len() == 0 {
        0
    } else {
        sum_bytes(rs.drop_last()) + bytes_of(rs.last())
    }
}

/// The test-run records of a store, in key order.
pub open spec fn run_vals(store: ContractStore) -> Seq<TestRunStats> {
    store.test_runs@.map_values(|p: (String, TestRunStats)| p.1)
}

/// One record contributes non-negatively to every aggregate.
proof fn lemma_terms_nonneg(t: TestRunStats)
    ensures
        bytes_of(t) >= 0,
{
    if t.avg_gas_per_byte != 0 {
        lemma_div_pos_is_pos(t.total_gas as int, t.avg_gas_per_byte as int);
    }
}

/// Aggregates of the next prefix: one record's worth more.
proof fn lemma_sum_step(rs: Seq<TestRunStats>, i: int)
    requires
        0 <= i < rs.len(),
    ensures
        sum_count(rs.take(i + 1)) == sum_count(rs.take(i)) + rs[i].message_count,
        sum_gas(rs.take(i + 1)) == sum_gas(rs.take(i)) + rs[i].total_gas,
        sum_bytes(rs.take(i + 1)) == sum_bytes(rs.take(i)) + bytes_of(rs[i]),
{
    assert(rs.take(i + 1).drop_last() =~= rs.take(i));
    assert(rs.take(i + 1).last() == rs[i]);
}

/// Every aggregate is non-negative.
proof fn lemma_sums_nonneg(rs: Seq<TestRunStats>)
    ensures
        0 <= sum_count(rs),
        0 <= sum_gas(rs),
        0 <= sum_bytes(rs),
    decreases rs.len(),
{
    if rs.len() > 0 {
        lemma_sums_nonneg(rs.drop_last());
        lemma_terms_nonneg(rs.last());
    }
}

/// A prefix never exceeds the whole.
proof fn lemma_sum_prefix_le(rs: Seq<TestRunStats>, i: int)
    requires
        0 <= i <= rs.len(),
    ensures
        sum_count(rs.take(i)) <= sum_count(rs),
        sum_gas(rs.take(i)) <= sum_gas(rs),
        sum_bytes(rs.take(i)) <= sum_bytes(rs),
    decreases rs.len() - i,
{
    if i == rs.len() {
        assert(rs.take(i) =~= rs);
    } else {
        lemma_sum_step(rs, i);
        lemma_terms_nonneg(rs[i]);
        lemma_sum_prefix_le(rs, i + 1);
    }
}

/// What the gas summary reports: the sums of message counts and gas, the
/// guarded per-record byte estimates, and the two guarded ratios.
pub open spec fn gas_summary_resp(store: ContractStore, r: GasSummary) -> bool {
    let rs = run_vals(store);
    &&& r.msg_count == sum_count(rs)
    &&& r.total_gas == sum_gas(rs)
    &&& r.total_bytes == sum_bytes(rs)
    &&& r.avg_gas == if sum_count(rs) > 0 {
        sum_gas(rs) / sum_count(rs)
    } else {
        0
    }
    &&& r.gas_per_byte == if sum_bytes(rs) > 0 {
        sum_gas(rs) / sum_bytes(rs)
    } else {
        0
    }
}

/// Computes the gas summary by scanning every test-run record.
pub fn query_gas_summary(store: &ContractStore) -> (r: GasSummary)
    requires
        store.wf(),
        sum_count(run_vals(*store)) <= u64::MAX,
        sum_gas(run_vals(*store)) <= u128::MAX,
        sum_bytes(run_vals(*store)) <= u64::MAX,
    ensures
        gas_summary_resp(*store, r),
{
    let ghost rs = run_vals(*store);
    let n: usize = store.test_runs.len();
    let mut total_messages: u64 = 0;
    let mut total_gas: u128 = 0;
    let mut total_bytes: u128 = 0;
    let mut i: usize = 0;
    proof {
        assert(rs.take(0) =~= Seq::<TestRunStats>::empty());
    }
    while i < n
        invariant
            0 <= i <= n,
            n == store.test_runs@.len(),
            rs == run_vals(*store),
            rs.len() == n,
            sum_count(rs) <= u64::MAX,
            sum_gas(rs) <= u128::MAX,
            sum_bytes(rs) <= u64::MAX,
            total_messages == sum_count(rs.take(i as int)),
            total_gas == sum_gas(rs.take(i as int)),
            total_bytes == sum_bytes(rs.take(i as int)),
        decreases n - i,
    {
        let e = &store.test_runs[i];
        proof {
            assert(rs[i as int] == store.test_runs@[i as int].1);
            lemma_sum_step(rs, i as int);
            lemma_sum_prefix_le(rs, i as int + 1);
            lemma_terms_nonneg(rs[i as int]);
        }
        total_messages = total_messages + e.1.message_count;
        total_gas = total_gas + e.1.total_gas;
        if e.1.avg_gas_per_byte != 0 {
            let run_bytes: u128 = e.1.total_gas / e.1.avg_gas_per_byte;
            total_bytes = total_bytes + run_bytes;
        }
        i += 1;
    }
    proof {
        assert(rs.take(n as int) =~= rs);
    }
    let avg_gas: u128 = if total_messages > 0 {
        total_gas / (total_messages as u128)
    } else {
        0
    };
    let gas_per_byte: u128 = if total_bytes > 0 {
        total_gas / total_bytes
    } else {
        0
    };
    GasSummary {
        msg_count: total_messages,
        total_gas,
        avg_gas,
        total_bytes: total_bytes as u64,
        gas_per_byte,
    }
}

/// Routes a tagged read-only operation to its handler.
pub fn query(store: &ContractStore, msg: QueryMsg) -> (r: Result<QueryAnswer, ContractError>)
    requires
        store.wf(),
        msg is GetGasSummary ==> sum_count(run_vals(*store)) <= u64::MAX && sum_gas(
            run_vals(*store),
        ) <= u128::MAX && sum_bytes(run_vals(*store)) <= u64::MAX,
    ensures
        match msg {
            QueryMsg::GetConfig {  } => (r matches Ok(QueryAnswer::Config(c)) && config_resp(
                *store,
                c,
            )),
            QueryMsg::GetMessage { id } => match r {
                Result::Ok(a) => a matches QueryAnswer::Message(m) && message_resp(*store, id@, m),
                Result::Err(e) => lookup(store.messages@, id@) is None && e is NotFound,
            },
            QueryMsg::ListMessages { start_after, limit } => (r matches Ok(
                QueryAnswer::Messages(m),
            ) && list_messages_resp(*store, start_after, limit, m)),
            QueryMsg::GetTestRuns { start_after, limit } => (r matches Ok(QueryAnswer::TestRuns(t))
                && test_runs_resp(*store, start_after, limit, t)),
            QueryMsg::GetGasSummary {  } => (r matches Ok(QueryAnswer::Summary(g))
                && gas_summary_resp(*store, g)),
        },
{
    match msg {
        QueryMsg::GetConfig {} => Ok(QueryAnswer::Config(query_config(store))),
        QueryMsg::GetMessage { id } => match query_message(store, id) {
            Ok(m) => Ok(QueryAnswer::Message(m)),
            Err(e) => Err(e),
        },
        QueryMsg::ListMessages { start_after, limit } => Ok(
            QueryAnswer::Messages(query_list_messages(store, start_after, limit)),
        ),
        QueryMsg::GetTestRuns { start_after, limit } => Ok(
            QueryAnswer::TestRuns(query_test_runs(store, start_after, limit)),
        ),
        QueryMsg::GetGasSummary {} => Ok(QueryAnswer::Summary(query_gas_summary(store))),
    }
}

} // verus!
