//! The mutating operations: message storage (plain and fixed-length),
//! test-run recording, bulk clear, and single-message deletion, each with a
//! full description of its outcome — when it succeeds, which error it
//! returns otherwise, what it writes, and the audit attributes it emits.

use vstd::prelude::*;
use vstd::string::StrSliceExecFns;
use vstd::string::StringExecFns;

use crate::kv::{lookup, lb_idx, lemma_lb_props, kv_upsert, kv_remove};
use crate::text::{dec_digits, is_blank, check_blank, comma_count, count_commas, fixed_content,
    lemma_comma_count_bounds, normalize_content, render_u128, render_u64};
use crate::types::{Attribute, ContractError, ContractStore, Env, ExecuteMsg, InstantiateMsg,
    MessageInfo, Response, State, StoredMessage, TestRunStats, MAX_MESSAGE_SIZE};

verus! {

/// The id under which a plain store at the given height records its
/// message: one message per height, colliding heights overwrite.
pub open spec fn msg_id(height: u64) -> Seq<char> {
    "msg_"@ + dec_digits(height as int)
}

/// The id of a fixed-length store: derived from the height and the target
/// length, so fixed-length stores at one height collide only when their
/// targets agree.
pub open spec fn fixed_msg_id(height: u64, target: u64) -> Seq<char> {
    "msg_"@ + dec_digits(height as int) + "_"@ + dec_digits(target as int)
}

/// Number of comma-separated entries of an optional comma-joined list:
/// zero when absent, commas plus one when present.
pub open spec fn tx_count_of(tx_proof: Option<String>) -> int {
    match tx_proof {
        Option::Some(p) => comma_count(p@) + 1,
        Option::None => 0,
    }
}

fn make_msg_id(height: u64) -> (r: String)
    ensures
        r@ == msg_id(height),
{
    let mut s = "msg_".to_owned();
    let d = render_u64(height);
    s.append(d.as_str());
    proof {
        assert(s@ =~= msg_id(height));
    }
    s
}

fn make_fixed_msg_id(height: u64, target: u64) -> (r: String)
    ensures
        r@ == fixed_msg_id(height, target),
{
    let mut s = "msg_".to_owned();
    let d = render_u64(height);
    s.append(d.as_str());
    s.append("_");
    let t = render_u64(target);
    s.append(t.as_str());
    proof {
        assert(s@ =~= fixed_msg_id(height, target));
    }
    s
}

fn attr(key: &str, value: String) -> (a: Attribute)
    ensures
        a.key@ == key@,
        a.value@ == value@,
{
    Attribute { key: key.to_owned(), value }
}

/// The outcome of creation: a fresh instance owned by the caller, with
/// empty stores and a zero run counter.
pub fn instantiate(_env: &Env, info: &MessageInfo, _msg: InstantiateMsg) -> (r: (
    ContractStore,
    Response,
))
    ensures
        r.0.wf(),
        r.0.state.owner@ == info.sender@,
        r.0.state.test_run_count == 0,
        r.0.state.last_test_timestamp is None,
        r.0.messages@.len() == 0,
        r.0.test_runs@.len() == 0,
        r.1.attributes@.len() == 2,
        r.1.attributes@[0].key@ == "method"@ && r.1.attributes@[0].value@ == "instantiate"@,
        r.1.attributes@[1].key@ == "owner"@ && r.1.attributes@[1].value@ == info.sender@,
{
    let store = ContractStore {
        state: State {
            owner: info.sender.clone(),
            test_run_count: 0,
            last_test_timestamp: None,
        },
        messages: Vec::new(),
        test_runs: Vec::new(),
    };
    let mut attrs: Vec<Attribute> = Vec::new();
    attrs.push(attr("method", "instantiate".to_owned()));
    attrs.push(attr("owner", info.sender.clone()));
    (store, Response { attributes: attrs })
}

/// What storing a plain message does: succeeds exactly when the content is
/// within the size limit, records it under the height-derived id with its
/// character count and the call time, touches nothing else, and reports
/// the action, the id and the length.
pub open spec fn store_message_post(
    pre: ContractStore,
    post: ContractStore,
    env: Env,
    content: String,
    r: Result<Response, ContractError>,
) -> bool {
    &&& (r is Ok <==> content@.len() <= MAX_MESSAGE_SIZE)
    &&& match r {
        Result::Ok(resp) => {
            &&& post.wf()
            &&& post.state == pre.state
            &&& post.test_runs@ == pre.test_runs@
            &&& lookup(post.messages@, msg_id(env.height)) == Some(
                StoredMessage {
                    content: content,
                    length: content@.len() as u64,
                    stored_at: env.time,
                },
            )
            &&& forall|k: Seq<char>|
                k != msg_id(env.height) ==> lookup(post.messages@, k) == lookup(pre.messages@, k)
            &&& resp.attributes@.len() == 3
            &&& resp.attributes@[0].key@ == "action"@ && resp.attributes@[0].value@
                == "store_message"@
            &&& resp.attributes@[1].key@ == "id"@ && resp.attributes@[1].value@ == msg_id(
                env.height,
            )
            &&& resp.attributes@[2].key@ == "length"@ && resp.attributes@[2].value@ == dec_digits(
                content@.len() as int,
            )
        },
        Result::Err(e) => {
            &&& post == pre
            &&& (e matches ContractError::MessageTooLarge { size, max } && size == content@.len()
                && max == MAX_MESSAGE_SIZE)
        },
    }
}

/// Stores a message under the id derived from the current height.
pub fn execute_store_message(
    store: &mut ContractStore,
    env: &Env,
    _info: &MessageInfo,
    content: String,
) -> (r: Result<Response, ContractError>)
    requires
        old(store).wf(),
    ensures
        store_message_post(*old(store), *final(store), *env, content, r),
{
    let length_chars: usize = content.as_str().unicode_len();
    let length: u64 = length_chars as u64;
    if length > MAX_MESSAGE_SIZE {
        return Err(ContractError::MessageTooLarge { size: length, max: MAX_MESSAGE_SIZE });
    }
    let id = make_msg_id(env.height);
    let id_attr = id.clone();
    let message = StoredMessage { content, length, stored_at: env.time };
    kv_upsert(&mut store.messages, id, message);
    proof {
        let pre = old(store).messages@;
        let post = store.messages@;
        lemma_lb_props(pre, msg_id(env.height));
        let p = lb_idx(pre, msg_id(env.height));
        assert forall|i: int| 0 <= i < post.len() implies (#[trigger] post[i].1).wf() by {
            if p < pre.len() && pre[p].0@ == msg_id(env.height) {
                if i != p {
                    assert(post[i] == pre[i]);
                }
            } else {
                if i < p {
                    assert(post[i] == pre[i]);
                } else if i > p {
                    assert(post[i] == pre[i - 1]);
                }
            }
        }
    }
    let mut attrs: Vec<Attribute> = Vec::new();
    attrs.push(attr("action", "store_message".to_owned()));
    attrs.push(attr("id", id_attr));
    attrs.push(attr("length", render_u64(length)));
    Ok(Response { attributes: attrs })
}

/// What a fixed-length store does: succeeds exactly when the target length
/// is within the size limit, records the normalized content — exactly the
/// target many characters — under the id derived from height and target,
/// and reports the action, the id and the target length.
pub open spec fn store_fixed_length_post(
    pre: ContractStore,
    post: ContractStore,
    env: Env,
    content: String,
    target_length: u64,
    r: Result<Response, ContractError>,
) -> bool {
    &&& (r is Ok <==> target_length <= MAX_MESSAGE_SIZE)
    &&& match r {
        Result::Ok(resp) => {
            &&& post.wf()
            &&& post.state == pre.state
            &&& post.test_runs@ == pre.test_runs@
            &&& (lookup(post.messages@, fixed_msg_id(env.height, target_length)) matches Some(m)
                && m.content@ == fixed_content(content@, target_length as int) && m.length
                == target_length && m.stored_at == env.time)
            &&& forall|k: Seq<char>|
                k != fixed_msg_id(env.height, target_length) ==> lookup(post.messages@, k)
                    == lookup(pre.messages@, k)
            &&& resp.attributes@.len() == 3
            &&& resp.attributes@[0].key@ == "action"@ && resp.attributes@[0].value@
                == "store_fixed_length"@
            &&& resp.attributes@[1].key@ == "id"@ && resp.attributes@[1].value@ == fixed_msg_id(
                env.height,
                target_length,
            )
            &&& resp.attributes@[2].key@ == "length"@ && resp.attributes@[2].value@ == dec_digits(
                target_length as int,
            )
        },
        Result::Err(e) => {
            &&& post == pre
            &&& (e matches ContractError::MessageTooLarge { size, max } && size == target_length
                && max == MAX_MESSAGE_SIZE)
        },
    }
}

/// Stores a message normalized to exactly the target length: truncated
/// when longer, right-padded with spaces when shorter.
pub fn execute_store_fixed_length(
    store: &mut ContractStore,
    env: &Env,
    _info: &MessageInfo,
    content: String,
    target_length: u64,
) -> (r: Result<Response, ContractError>)
    requires
        old(store).wf(),
    ensures
        store_fixed_length_post(*old(store), *final(store), *env, content, target_length, r),
{
    if target_length > MAX_MESSAGE_SIZE {
        return Err(ContractError::MessageTooLarge { size: target_length, max: MAX_MESSAGE_SIZE });
    }
    let id = make_fixed_msg_id(env.height, target_length);
    let id_attr = id.clone();
    let adjusted = normalize_content(content.as_str(), target_length as usize);
    proof {
        crate::text::lemma_fixed_content_len(content@, target_length as int);
    }
    let message = StoredMessage {
        content: adjusted,
        length: target_length,
        stored_at: env.time,
    };
    kv_upsert(&mut store.messages, id, message);
    proof {
        let pre = old(store).messages@;
        let post = store.messages@;
        let k0 = fixed_msg_id(env.height, target_length);
        lemma_lb_props(pre, k0);
        let p = lb_idx(pre, k0);
        assert forall|i: int| 0 <= i < post.len() implies (#[trigger] post[i].1).wf() by {
            if p < pre.len() && pre[p].0@ == k0 {
                if i != p {
                    assert(post[i] == pre[i]);
                }
            } else {
                if i < p {
                    assert(post[i] == pre[i]);
                } else if i > p {
                    assert(post[i] == pre[i - 1]);
                }
            }
        }
    }
    let mut attrs: Vec<Attribute> = Vec::new();
    attrs.push(attr("action", "store_fixed_length".to_owned()));
    attrs.push(attr("id", id_attr));
    attrs.push(attr("length", render_u64(target_length)));
    Ok(Response { attributes: attrs })
}

/// What recording a test run does: the fields are validated in order (run
/// id, chain id, gas), then the caller must be the owner; on success the
/// record is stored under the run id, the run counter advances, the
/// last-run time is set, and the action, run id, count, gas and derived
/// transaction count are reported.
pub open spec fn record_test_run_post(
    pre: ContractStore,
    post: ContractStore,
    env: Env,
    info: MessageInfo,
    run_id: String,
    count: u64,
    gas: u128,
    avg_gas: u128,
    chain: String,
    tx_proof: Option<String>,
    r: Result<Response, ContractError>,
) -> bool {
    &&& (r is Ok <==> (!is_blank(run_id@) && !is_blank(chain@) && !(gas == 0 && count > 0)
        && info.sender@ == pre.state.owner@))
    &&& match r {
        Result::Ok(resp) => {
            &&& post.wf()
            &&& post.state.owner == pre.state.owner
            &&& post.state.test_run_count == pre.state.test_run_count + 1
            &&& post.state.last_test_timestamp == Some(env.time)
            &&& post.messages@ == pre.messages@
            &&& lookup(post.test_runs@, run_id@) == Some(
                TestRunStats {
                    timestamp: env.time,
                    message_count: count,
                    total_gas: gas,
                    avg_gas_per_byte: avg_gas,
                    chain_id: chain,
                    tx_proof: tx_proof,
                },
            )
            &&& forall|k: Seq<char>|
                k != run_id@ ==> lookup(post.test_runs@, k) == lookup(pre.test_runs@, k)
            &&& resp.attributes@.len() == 5
            &&& resp.attributes@[0].key@ == "action"@ && resp.attributes@[0].value@
                == "record_test_run"@
            &&& resp.attributes@[1].key@ == "run_id"@ && resp.attributes@[1].value@ == run_id@
            &&& resp.attributes@[2].key@ == "count"@ && resp.attributes@[2].value@ == dec_digits(
                count as int,
            )
            &&& resp.attributes@[3].key@ == "gas"@ && resp.attributes@[3].value@ == dec_digits(
                gas as int,
            )
            &&& resp.attributes@[4].key@ == "tx_count"@ && resp.attributes@[4].value@
                == dec_digits(tx_count_of(tx_proof))
        },
        Result::Err(e) => {
            &&& post == pre
            &&& if is_blank(run_id@) {
                e matches ContractError::InvalidRunId(m) && m@ == "Run ID cannot be empty"@
            } else if is_blank(chain@) {
                e matches ContractError::InvalidChainId(m) && m@ == "Chain ID cannot be empty"@
            } else if gas == 0 && count > 0 {
                e matches ContractError::InvalidGasValue(m) && m@
                    == "Gas cannot be zero for non-empty test runs"@
            } else {
                e is Unauthorized
            }
        },
    }
}

/// Records test-run statistics (owner only).
pub fn execute_record_test_run(
    store: &mut ContractStore,
    env: &Env,
    info: &MessageInfo,
    run_id: String,
    count: u64,
    gas: u128,
    avg_gas: u128,
    chain: String,
    tx_proof: Option<String>,
) -> (r: Result<Response, ContractError>)
    requires
        old(store).wf(),
        old(store).state.test_run_count < u64::MAX,
        tx_proof matches Some(p) ==> p@.len() < u32::MAX,
    ensures
        record_test_run_post(
            *old(store),
            *final(store),
            *env,
            *info,
            run_id,
            count,
            gas,
            avg_gas,
            chain,
            tx_proof,
            r,
        ),
{
    if check_blank(run_id.as_str()) {
        return Err(ContractError::InvalidRunId("Run ID cannot be empty".to_owned()));
    }
    if check_blank(chain.as_str()) {
        return Err(ContractError::InvalidChainId("Chain ID cannot be empty".to_owned()));
    }
    if gas == 0 && count > 0 {
        return Err(
            ContractError::InvalidGasValue("Gas cannot be zero for non-empty test runs".to_owned()),
        );
    }
    if !crate::kv::key_eq(info.sender.as_str(), store.state.owner.as_str()) {
        return Err(ContractError::Unauthorized {});
    }
    let tx_count: u32 = match &tx_proof {
        Some(p) => {
            proof {
                lemma_comma_count_bounds(p@);
            }
            (count_commas(p.as_str()) + 1) as u32
        },
        None => 0,
    };
    let run_id_attr = run_id.clone();
    let record = TestRunStats {
        timestamp: env.time,
        message_count: count,
        total_gas: gas,
        avg_gas_per_byte: avg_gas,
        chain_id: chain,
        tx_proof: tx_proof,
    };
    kv_upsert(&mut store.test_runs, run_id, record);
    store.state.test_run_count = store.state.test_run_count + 1;
    store.state.last_test_timestamp = Some(env.time);
    proof {
        let pre = old(store).test_runs@;
        let post = store.test_runs@;
        lemma_lb_props(pre, run_id@);
        let p = lb_idx(pre, run_id@);
        assert forall|i: int| 0 <= i < post.len() implies (#[trigger] post[i].1).wf() by {
            if p < pre.len() && pre[p].0@ == run_id@ {
                if i != p {
                    assert(post[i] == pre[i]);
                }
            } else {
                if i < p {
                    assert(post[i] == pre[i]);
                } else if i > p {
                    assert(post[i] == pre[i - 1]);
                }
            }
        }
    }
    let mut attrs: Vec<Attribute> = Vec::new();
    attrs.push(attr("action", "record_test_run".to_owned()));
    attrs.push(attr("run_id", run_id_attr));
    attrs.push(attr("count", render_u64(count)));
    attrs.push(attr("gas", render_u128(gas)));
    attrs.push(attr("tx_count", render_u64(tx_count as u64)));
    Ok(Response { attributes: attrs })
}

/// What the bulk clear does: owner only; on success both stores are
/// emptied, the run counter resets to zero, the last-run time is set to
/// the call time, the owner is preserved, and the action and time are
/// reported.
pub open spec fn clear_data_post(
    pre: ContractStore,
    post: ContractStore,
    env: Env,
    info: MessageInfo,
    r: Result<Response, ContractError>,
) -> bool {
    &&& (r is Ok <==> info.sender@ == pre.state.owner@)
    &&& match r {
        Result::Ok(resp) => {
            &&& post.wf()
            &&& post.state.owner == pre.state.owner
            &&& post.state.test_run_count == 0
            &&& post.state.last_test_timestamp == Some(env.time)
            &&& post.messages@.len() == 0
            &&& post.test_runs@.len() == 0
            &&& resp.attributes@.len() == 2
            &&& resp.attributes@[0].key@ == "action"@ && resp.attributes@[0].value@
                == "clear_data"@
            &&& resp.attributes@[1].key@ == "time"@ && resp.attributes@[1].value@ == dec_digits(
                env.time as int,
            )
        },
        Result::Err(e) => {
            &&& post == pre
            &&& e is Unauthorized
        },
    }
}

/// Removes every message and test run and resets the run counter (owner
/// only).
pub fn execute_clear_data(store: &mut ContractStore, env: &Env, info: &MessageInfo) -> (r: Result<
    Response,
    ContractError,
>)
    requires
        old(store).wf(),
    ensures
        clear_data_post(*old(store), *final(store), *env, *info, r),
{
    if !crate::kv::key_eq(info.sender.as_str(), store.state.owner.as_str()) {
        return Err(ContractError::Unauthorized {});
    }
    store.messages = Vec::new();
    store.test_runs = Vec::new();
    store.state.test_run_count = 0;
    store.state.last_test_timestamp = Some(env.time);
    let mut attrs: Vec<Attribute> = Vec::new();
    attrs.push(attr("action", "clear_data".to_owned()));
    attrs.push(attr("time", render_u64(env.time)));
    Ok(Response { attributes: attrs })
}

/// What deleting a message does: owner only; on success the id is no
/// longer bound — deleting an absent id succeeds and changes nothing —
/// every other record is untouched, and the action and id are reported.
pub open spec fn delete_message_post(
    pre: ContractStore,
    post: ContractStore,
    info: MessageInfo,
    id: String,
    r: Result<Response, ContractError>,
) -> bool {
    &&& (r is Ok <==> info.sender@ == pre.state.owner@)
    &&& match r {
        Result::Ok(resp) => {
            &&& post.wf()
            &&& post.state == pre.state
            &&& post.test_runs@ == pre.test_runs@
            &&& lookup(post.messages@, id@) is None
            &&& forall|k: Seq<char>|
                k != id@ ==> lookup(post.messages@, k) == lookup(pre.messages@, k)
            &&& (lookup(pre.messages@, id@) is None ==> post.messages@ == pre.messages@)
            &&& resp.attributes@.len() == 2
            &&& resp.attributes@[0].key@ == "action"@ && resp.attributes@[0].value@
                == "delete_message"@
            &&& resp.attributes@[1].key@ == "id"@ && resp.attributes@[1].value@ == id@
        },
        Result::Err(e) => {
            &&& post == pre
            &&& e is Unauthorized
        },
    }
}

/// Removes one message by id; a no-op when the id is absent (owner only).
pub fn execute_delete_message(store: &mut ContractStore, info: &MessageInfo, id: String) -> (r:
    Result<Response, ContractError>)
    requires
        old(store).wf(),
    ensures
        delete_message_post(*old(store), *final(store), *info, id, r),
{
    if !crate::kv::key_eq(info.sender.as_str(), store.state.owner.as_str()) {
        return Err(ContractError::Unauthorized {});
    }
    kv_remove(&mut store.messages, id.as_str());
    proof {
        let pre = old(store).messages@;
        let post = store.messages@;
        lemma_lb_props(pre, id@);
        let p = lb_idx(pre, id@);
        crate::kv::lemma_lookup_lb(pre, id@);
        assert forall|i: int| 0 <= i < post.len() implies (#[trigger] post[i].1).wf() by {
            if p < pre.len() && pre[p].0@ == id@ {
                if i < p {
                    assert(post[i] == pre[i]);
                } else {
                    assert(post[i] == pre[i + 1]);
                }
            }
        }
    }
    let mut attrs: Vec<Attribute> = Vec::new();
    attrs.push(attr("action", "delete_message".to_owned()));
    attrs.push(attr("id", id));
    Ok(Response { attributes: attrs })
}

/// Routes a tagged mutating operation to its handler.
pub fn execute(
    store: &mut ContractStore,
    env: &Env,
    info: &MessageInfo,
    msg: ExecuteMsg,
) -> (r: Result<Response, ContractError>)
    requires
        old(store).wf(),
        msg is RecordTestRun ==> old(store).state.test_run_count < u64::MAX,
        (msg matches ExecuteMsg::RecordTestRun { tx_proof: Some(p), .. } ==> p@.len() < u32::MAX),
    ensures
        match msg {
            ExecuteMsg::StoreMessage { content } => store_message_post(
                *old(store),
                *final(store),
                *env,
                content,
                r,
            ),
            ExecuteMsg::StoreFixedLength { content, length } => store_fixed_length_post(
                *old(store),
                *final(store),
                *env,
                content,
                length,
                r,
            ),
            ExecuteMsg::RecordTestRun { run_id, count, gas, avg_gas, chain, tx_proof } => record_test_run_post(
                *old(store),
                *final(store),
                *env,
                *info,
                run_id,
                count,
                gas,
                avg_gas,
                chain,
                tx_proof,
                r,
            ),
            ExecuteMsg::ClearData {  } => clear_data_post(*old(store), *final(store), *env, *info, r),
            ExecuteMsg::DeleteMessage { id } => delete_message_post(
                *old(store),
                *final(store),
                *info,
                id,
                r,
            ),
        },
{
    match msg {
        ExecuteMsg::StoreMessage { content } => execute_store_message(store, env, info, content),
        ExecuteMsg::StoreFixedLength { content, length } => execute_store_fixed_length(
            store,
            env,
            info,
            content,
            length,
        ),
        ExecuteMsg::RecordTestRun { run_id, count, gas, avg_gas, chain, tx_proof } => execute_record_test_run(
            store,
            env,
            info,
            run_id,
            count,
            gas,
            avg_gas,
            chain,
            tx_proof,
        ),
        ExecuteMsg::ClearData {} => execute_clear_data(store, env, info),
        ExecuteMsg::DeleteMessage { id } => execute_delete_message(store, info, id),
    }
}

} // verus!
