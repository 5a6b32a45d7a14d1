//! The mutating operations end to end: creation, plain and fixed-length
//! stores, test-run recording, deletion and the bulk clear.

use msgledger::{execute, instantiate, query, ContractError, Env, ExecuteMsg, InstantiateMsg,
    MessageInfo, QueryAnswer, QueryMsg, MAX_MESSAGE_SIZE};

fn test_env() -> Env {
    Env { height: 12345, time: 1571797419 }
}

fn info(sender: &str) -> MessageInfo {
    MessageInfo { sender: sender.to_string() }
}

#[test]
fn proper_initialization() {
    let env = test_env();
    let creator = info("creator");

    let (store, res) = instantiate(&env, &creator, InstantiateMsg {});
    assert_eq!(res.attributes.len(), 2);

    assert_eq!(store.state.owner, "creator");
    assert_eq!(store.state.test_run_count, 0);
    assert_eq!(store.state.last_test_timestamp, None);
}

#[test]
fn store_message() {
    let env = test_env();
    let creator = info("creator");
    let (mut store, _) = instantiate(&env, &creator, InstantiateMsg {});

    // Store valid message
    let res = execute(
        &mut store,
        &env,
        &creator,
        ExecuteMsg::StoreMessage { content: "test message".to_string() },
    )
    .unwrap();
    assert_eq!(res.attributes.len(), 3);

    // Test too large message
    let large_msg = "x".repeat((MAX_MESSAGE_SIZE + 1) as usize);
    let err = execute(
        &mut store,
        &env,
        &creator,
        ExecuteMsg::StoreMessage { content: large_msg },
    )
    .unwrap_err();

    // Should return MessageTooLarge error
    match err {
        ContractError::MessageTooLarge { size, max } => {
            assert_eq!(size, MAX_MESSAGE_SIZE + 1);
            assert_eq!(max, MAX_MESSAGE_SIZE);
        }
        e => panic!("unexpected error: {:?}", e),
    }
}

#[test]
fn fixed_length_message() {
    let env = test_env();
    let creator = info("creator");
    let (mut store, _) = instantiate(&env, &creator, InstantiateMsg {});

    // Test padding (content shorter than target)
    let res = execute(
        &mut store,
        &env,
        &creator,
        ExecuteMsg::StoreFixedLength { content: "test".to_string(), length: 10 },
    )
    .unwrap();
    assert_eq!(res.attributes.len(), 3);

    // Check the message was stored correctly
    let msg_id = res.attributes[1].value.clone(); // id attribute
    let query_res = match query(&store, QueryMsg::GetMessage { id: msg_id }).unwrap() {
        QueryAnswer::Message(m) => m,
        a => panic!("unexpected answer: {:?}", a),
    };
    assert_eq!(query_res.length, 10);
    assert_eq!(query_res.content, "test      "); // 4 chars + 6 spaces

    // Test truncation (content longer than target)
    let res = execute(
        &mut store,
        &env,
        &creator,
        ExecuteMsg::StoreFixedLength {
            content: "this is a longer test".to_string(),
            length: 7,
        },
    )
    .unwrap();

    let msg_id = res.attributes[1].value.clone();
    let query_res = match query(&store, QueryMsg::GetMessage { id: msg_id }).unwrap() {
        QueryAnswer::Message(m) => m,
        a => panic!("unexpected answer: {:?}", a),
    };
    assert_eq!(query_res.length, 7);
    assert_eq!(query_res.content, "this is"); // truncated to 7 chars
}

#[test]
fn test_clear_data() {
    let env = test_env();
    let creator = info("creator");
    let (mut store, _) = instantiate(&env, &creator, InstantiateMsg {});

    // Store some test data
    execute(
        &mut store,
        &env,
        &creator,
        ExecuteMsg::StoreMessage { content: "test1".to_string() },
    )
    .unwrap();

    execute(
        &mut store,
        &env,
        &creator,
        ExecuteMsg::StoreMessage { content: "test2".to_string() },
    )
    .unwrap();

    // Record a test run
    execute(
        &mut store,
        &env,
        &creator,
        ExecuteMsg::RecordTestRun {
            run_id: "test_run_1".to_string(),
            count: 2,
            gas: 100000,
            avg_gas: 50000,
            chain: "test-chain".to_string(),
            tx_proof: Some("tx1,tx2".to_string()),
        },
    )
    .unwrap();

    // Test unauthorized clear
    let unauth = info("someone_else");
    let err = execute(&mut store, &env, &unauth, ExecuteMsg::ClearData {}).unwrap_err();

    // Should return Unauthorized error
    match err {
        ContractError::Unauthorized {} => {}
        e => panic!("unexpected error: {:?}", e),
    }

    // Test authorized clear
    let res = execute(&mut store, &env, &creator, ExecuteMsg::ClearData {}).unwrap();
    assert_eq!(res.attributes.len(), 2);

    // Verify data was cleared - count should be 0
    let config = match query(&store, QueryMsg::GetConfig {}).unwrap() {
        QueryAnswer::Config(c) => c,
        a => panic!("unexpected answer: {:?}", a),
    };
    assert_eq!(config.test_count, 0);

    // Verify gas summary is reset
    let summary = match query(&store, QueryMsg::GetGasSummary {}).unwrap() {
        QueryAnswer::Summary(s) => s,
        a => panic!("unexpected answer: {:?}", a),
    };
    assert_eq!(summary.msg_count, 0);
    assert_eq!(summary.total_gas, 0);
}

#[test]
fn store_message_derives_id_and_length() {
    let env = Env { height: 100, time: 7 };
    let creator = info("alice");
    let (mut store, _) = instantiate(&env, &creator, InstantiateMsg {});

    let res = execute(
        &mut store,
        &env,
        &creator,
        ExecuteMsg::StoreMessage { content: "hello".to_string() },
    )
    .unwrap();
    assert_eq!(res.attributes[0].key, "action");
    assert_eq!(res.attributes[0].value, "store_message");
    assert_eq!(res.attributes[1].key, "id");
    assert_eq!(res.attributes[1].value, "msg_100");
    assert_eq!(res.attributes[2].key, "length");
    assert_eq!(res.attributes[2].value, "5");

    let m = match query(&store, QueryMsg::GetMessage { id: "msg_100".to_string() }).unwrap() {
        QueryAnswer::Message(m) => m,
        a => panic!("unexpected answer: {:?}", a),
    };
    assert_eq!(m.content, "hello");
    assert_eq!(m.length, 5);
    assert_eq!(m.time, 7);
}

#[test]
fn store_at_same_height_overwrites() {
    let env = Env { height: 42, time: 1 };
    let creator = info("alice");
    let (mut store, _) = instantiate(&env, &creator, InstantiateMsg {});

    execute(
        &mut store,
        &env,
        &creator,
        ExecuteMsg::StoreMessage { content: "first".to_string() },
    )
    .unwrap();
    execute(
        &mut store,
        &env,
        &creator,
        ExecuteMsg::StoreMessage { content: "second".to_string() },
    )
    .unwrap();

    let m = match query(&store, QueryMsg::GetMessage { id: "msg_42".to_string() }).unwrap() {
        QueryAnswer::Message(m) => m,
        a => panic!("unexpected answer: {:?}", a),
    };
    assert_eq!(m.content, "second");

    let page = match query(
        &store,
        QueryMsg::ListMessages { start_after: None, limit: None },
    )
    .unwrap()
    {
        QueryAnswer::Messages(p) => p,
        a => panic!("unexpected answer: {:?}", a),
    };
    assert_eq!(page.count, 1);
}

#[test]
fn fixed_length_ids_do_not_collide_across_targets() {
    let env = Env { height: 9, time: 1 };
    let creator = info("alice");
    let (mut store, _) = instantiate(&env, &creator, InstantiateMsg {});

    let res = execute(
        &mut store,
        &env,
        &creator,
        ExecuteMsg::StoreFixedLength { content: "ab".to_string(), length: 4 },
    )
    .unwrap();
    assert_eq!(res.attributes[1].value, "msg_9_4");

    let res = execute(
        &mut store,
        &env,
        &creator,
        ExecuteMsg::StoreFixedLength { content: "ab".to_string(), length: 2 },
    )
    .unwrap();
    assert_eq!(res.attributes[1].value, "msg_9_2");

    let page = match query(
        &store,
        QueryMsg::ListMessages { start_after: None, limit: None },
    )
    .unwrap()
    {
        QueryAnswer::Messages(p) => p,
        a => panic!("unexpected answer: {:?}", a),
    };
    assert_eq!(page.count, 2);
}

#[test]
fn fixed_length_too_large_rejected() {
    let env = test_env();
    let creator = info("creator");
    let (mut store, _) = instantiate(&env, &creator, InstantiateMsg {});

    let err = execute(
        &mut store,
        &env,
        &creator,
        ExecuteMsg::StoreFixedLength {
            content: "x".to_string(),
            length: MAX_MESSAGE_SIZE + 1,
        },
    )
    .unwrap_err();
    match err {
        ContractError::MessageTooLarge { size, max } => {
            assert_eq!(size, MAX_MESSAGE_SIZE + 1);
            assert_eq!(max, MAX_MESSAGE_SIZE);
        }
        e => panic!("unexpected error: {:?}", e),
    }
}

#[test]
fn delete_message_removes_and_is_idempotent() {
    let env = Env { height: 5, time: 3 };
    let creator = info("alice");
    let (mut store, _) = instantiate(&env, &creator, InstantiateMsg {});

    execute(
        &mut store,
        &env,
        &creator,
        ExecuteMsg::StoreMessage { content: "keep me".to_string() },
    )
    .unwrap();

    // Non-owner may not delete
    let err = execute(
        &mut store,
        &env,
        &info("mallory"),
        ExecuteMsg::DeleteMessage { id: "msg_5".to_string() },
    )
    .unwrap_err();
    match err {
        ContractError::Unauthorized {} => {}
        e => panic!("unexpected error: {:?}", e),
    }

    // Owner delete removes the record
    let res = execute(
        &mut store,
        &env,
        &creator,
        ExecuteMsg::DeleteMessage { id: "msg_5".to_string() },
    )
    .unwrap();
    assert_eq!(res.attributes[0].value, "delete_message");
    assert_eq!(res.attributes[1].value, "msg_5");

    match query(&store, QueryMsg::GetMessage { id: "msg_5".to_string() }) {
        Err(ContractError::NotFound {}) => {}
        r => panic!("unexpected result: {:?}", r),
    }

    // Deleting the now-absent id still succeeds (no-op)
    let res = execute(
        &mut store,
        &env,
        &creator,
        ExecuteMsg::DeleteMessage { id: "msg_5".to_string() },
    )
    .unwrap();
    assert_eq!(res.attributes.len(), 2);
}
