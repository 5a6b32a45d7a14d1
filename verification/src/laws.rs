//! Laws relating the operations: what a store makes a later lookup return,
//! how fixed-length normalization shapes a record, the idempotence of
//! deletion, how consecutive pages of a listing meet, and what a bulk
//! clear leaves for the aggregator.

use vstd::prelude::*;

use crate::contract::{clear_data_post, delete_message_post, fixed_msg_id, msg_id,
    record_test_run_post, store_fixed_length_post, store_message_post};
use crate::kv::{lemma_cut_at, lemma_cut_props, lookup};
use crate::order::lex_lt;
use crate::queries::{gas_summary_resp, list_messages_resp, message_resp, start_of};
use crate::text::is_blank;
use crate::types::{ContractError, ContractStore, Env, GasSummary, ListMessagesResponse,
    MessageInfo, MessageResponse, Response, MAX_MESSAGE_SIZE};

verus! {

/// Storing a message within the size limit succeeds, and a lookup of the
/// derived id then reports the very content stored, with a length equal
/// to its character count.
pub proof fn lemma_store_then_get(
    pre: ContractStore,
    post: ContractStore,
    env: Env,
    content: String,
    r: Result<Response, ContractError>,
    m: MessageResponse,
)
    requires
        pre.wf(),
        content@.len() <= MAX_MESSAGE_SIZE,
        store_message_post(pre, post, env, content, r),
        message_resp(post, msg_id(env.height), m),
    ensures
        r is Ok,
        m.content@ == content@,
        m.length == content@.len(),
        m.time == env.time,
{
}

/// A fixed-length store within the size limit succeeds and records
/// exactly the target many characters: a left-anchored truncation of the
/// input when it is longer, the input itself followed by spaces when it
/// is shorter or equal.
pub proof fn lemma_fixed_length_normalizes(
    pre: ContractStore,
    post: ContractStore,
    env: Env,
    content: String,
    target_length: u64,
    r: Result<Response, ContractError>,
)
    requires
        pre.wf(),
        target_length <= MAX_MESSAGE_SIZE,
        store_fixed_length_post(pre, post, env, content, target_length, r),
    ensures
        r is Ok,
        lookup(post.messages@, fixed_msg_id(env.height, target_length)) matches Some(rec) && {
            &&& rec.length == target_length
            &&& rec.content@.len() == target_length
            &&& (content@.len() >= target_length ==> rec.content@ == content@.take(
                target_length as int,
            ))
            &&& (content@.len() <= target_length ==> {
                &&& rec.content@.take(content@.len() as int) == content@
                &&& forall|i: int|
                    content@.len() <= i < target_length ==> rec.content@[i] == ' '
            })
        },
{
    let rec = lookup(post.messages@, fixed_msg_id(env.height, target_length))->Some_0;
    let t = target_length as int;
    crate::text::lemma_fixed_content_len(content@, t);
    if content@.len() <= t {
        assert(rec.content@.take(content@.len() as int) =~= content@);
    } else {
        assert(rec.content@ == content@.take(t));
    }
}

/// Deleting an id under which nothing is stored succeeds and is a no-op:
/// the owner's delete of an absent message leaves every part of the state
/// as it was.
pub proof fn lemma_delete_absent_is_noop(
    pre: ContractStore,
    post: ContractStore,
    info: MessageInfo,
    id: String,
    r: Result<Response, ContractError>,
)
    requires
        pre.wf(),
        info.sender@ == pre.state.owner@,
        lookup(pre.messages@, id@) is None,
        delete_message_post(pre, post, info, id, r),
    ensures
        r is Ok,
        post.messages@ == pre.messages@,
        post.test_runs@ == pre.test_runs@,
        post.state == pre.state,
{
}

/// A listed page of messages is strictly ascending in key order, and
/// every key on it lies strictly above the cursor.
pub proof fn lemma_list_page_keys(
    store: ContractStore,
    start_after: Option<String>,
    limit: Option<u32>,
    r: ListMessagesResponse,
)
    requires
        store.wf(),
        list_messages_resp(store, start_after, limit, r),
    ensures
        forall|a: int, b: int|
            0 <= a < b < r.msgs@.len() ==> lex_lt(
                (#[trigger] r.msgs@[a]).id@,
                (#[trigger] r.msgs@[b]).id@,
            ),
        start_after matches Some(c) ==> forall|j: int|
            0 <= j < r.msgs@.len() ==> lex_lt(c@, (#[trigger] r.msgs@[j]).id@),
{
    let s = store.messages@;
    let lo = start_of(s, start_after);
    match start_after {
        Option::Some(c) => {
            lemma_cut_props(s, c@);
        },
        Option::None => {},
    }
}

/// Listing again with the last returned key as the new cursor yields
/// exactly the records that follow the previous page: consecutive pages
/// meet with no overlap and no gap.
pub proof fn lemma_list_pages_adjacent(
    store: ContractStore,
    start_after: Option<String>,
    limit: Option<u32>,
    r: ListMessagesResponse,
    cursor: String,
    limit2: Option<u32>,
    r2: ListMessagesResponse,
)
    requires
        store.wf(),
        list_messages_resp(store, start_after, limit, r),
        r.msgs@.len() > 0,
        cursor@ == r.msgs@[r.msgs@.len() - 1].id@,
        list_messages_resp(store, Some(cursor), limit2, r2),
    ensures
        start_of(store.messages@, Some(cursor)) == start_of(store.messages@, start_after)
            + r.msgs@.len(),
        forall|j: int|
            0 <= j < r2.msgs@.len() ==> (#[trigger] r2.msgs@[j]).id@ == store.messages@[start_of(
                store.messages@,
                start_after,
            ) + r.msgs@.len() + j].0@,
{
    let s = store.messages@;
    let lo = start_of(s, start_after);
    let len = r.msgs@.len() as int;
    match start_after {
        Option::Some(c) => {
            lemma_cut_props(s, c@);
        },
        Option::None => {},
    }
    assert(cursor@ == s[lo + len - 1].0@);
    lemma_cut_at(s, lo + len - 1);
}

/// A bulk clear by the owner succeeds, empties both stores, resets the
/// run counter, and makes the gas summary report zero in every field.
pub proof fn lemma_clear_then_summary(
    pre: ContractStore,
    post: ContractStore,
    env: Env,
    info: MessageInfo,
    r: Result<Response, ContractError>,
    g: GasSummary,
)
    requires
        pre.wf(),
        info.sender@ == pre.state.owner@,
        clear_data_post(pre, post, env, info, r),
        gas_summary_resp(post, g),
    ensures
        r is Ok,
        post.messages@.len() == 0,
        post.test_runs@.len() == 0,
        post.state.test_run_count == 0,
        g.msg_count == 0,
        g.total_gas == 0,
        g.avg_gas == 0,
        g.total_bytes == 0,
        g.gas_per_byte == 0,
{
    lemma_summary_of_empty(post, g);
}

/// Recording a test run with valid fields but a caller other than the
/// owner always fails with the unauthorized error and leaves the whole
/// state unchanged.
pub proof fn lemma_record_non_owner_rejected(
    pre: ContractStore,
    post: ContractStore,
    env: Env,
    info: MessageInfo,
    run_id: String,
    count: u64,
    gas: u128,
    avg_gas: u128,
    chain: String,
    tx_proof: Option<String>,
    r: Result<Response, ContractError>,
)
    requires
        pre.wf(),
        info.sender@ != pre.state.owner@,
        !is_blank(run_id@),
        !is_blank(chain@),
        !(gas == 0 && count > 0),
        record_test_run_post(pre, post, env, info, run_id, count, gas, avg_gas, chain, tx_proof, r),
    ensures
        r matches Err(e) && e is Unauthorized,
        post == pre,
{
}

/// With no recorded runs the gas summary is zero in every field.
pub proof fn lemma_summary_of_empty(store: ContractStore, g: GasSummary)
    requires
        store.test_runs@.len() == 0,
        gas_summary_resp(store, g),
    ensures
        g.msg_count == 0,
        g.total_gas == 0,
        g.avg_gas == 0,
        g.total_bytes == 0,
        g.gas_per_byte == 0,
{
    assert(crate::queries::run_vals(store).len() == 0);
}

} // verus!
