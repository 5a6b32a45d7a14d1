//! The read-only operations and the test-run store: validation of record
//! fields, pagination in both directions, and the derived gas summary.

use msgledger::{execute, instantiate, query, ContractError, Env, ExecuteMsg, InstantiateMsg,
    MessageInfo, QueryAnswer, QueryMsg};

fn info(sender: &str) -> MessageInfo {
    MessageInfo { sender: sender.to_string() }
}

fn record_msg(run_id: &str, count: u64, gas: u128, avg_gas: u128) -> ExecuteMsg {
    ExecuteMsg::RecordTestRun {
        run_id: run_id.to_string(),
        count,
        gas,
        avg_gas,
        chain: "chain-1".to_string(),
        tx_proof: None,
    }
}

fn messages_page(
    store: &msgledger::ContractStore,
    start_after: Option<&str>,
    limit: Option<u32>,
) -> msgledger::ListMessagesResponse {
    let msg = QueryMsg::ListMessages {
        start_after: start_after.map(|s| s.to_string()),
        limit,
    };
    match query(store, msg).unwrap() {
        QueryAnswer::Messages(p) => p,
        a => panic!("unexpected answer: {:?}", a),
    }
}

#[test]
fn config_after_instantiation() {
    let env = Env { height: 1, time: 2 };
    let (store, _) = instantiate(&env, &info("alice"), InstantiateMsg {});
    let config = match query(&store, QueryMsg::GetConfig {}).unwrap() {
        QueryAnswer::Config(c) => c,
        a => panic!("unexpected answer: {:?}", a),
    };
    assert_eq!(config.owner, "alice");
    assert_eq!(config.test_count, 0);
    assert_eq!(config.last_test, None);
}

#[test]
fn record_validates_fields_in_order() {
    let env = Env { height: 1, time: 2 };
    let owner = info("alice");
    let (mut store, _) = instantiate(&env, &owner, InstantiateMsg {});

    // Blank run id (whitespace only trims to empty)
    let err = execute(&mut store, &env, &owner, record_msg("   ", 1, 10, 1)).unwrap_err();
    match err {
        ContractError::InvalidRunId(m) => assert_eq!(m, "Run ID cannot be empty"),
        e => panic!("unexpected error: {:?}", e),
    }

    // Blank chain id
    let err = execute(
        &mut store,
        &env,
        &owner,
        ExecuteMsg::RecordTestRun {
            run_id: "r1".to_string(),
            count: 1,
            gas: 10,
            avg_gas: 1,
            chain: "".to_string(),
            tx_proof: None,
        },
    )
    .unwrap_err();
    match err {
        ContractError::InvalidChainId(m) => assert_eq!(m, "Chain ID cannot be empty"),
        e => panic!("unexpected error: {:?}", e),
    }

    // Zero gas with nonzero count
    let err = execute(&mut store, &env, &owner, record_msg("r1", 3, 0, 0)).unwrap_err();
    match err {
        ContractError::InvalidGasValue(m) => {
            assert_eq!(m, "Gas cannot be zero for non-empty test runs")
        }
        e => panic!("unexpected error: {:?}", e),
    }

    // Field validation comes before the owner gate
    let err = execute(&mut store, &env, &info("bob"), record_msg("  ", 1, 10, 1)).unwrap_err();
    match err {
        ContractError::InvalidRunId(_) => {}
        e => panic!("unexpected error: {:?}", e),
    }
}

#[test]
fn record_by_non_owner_rejected() {
    let env = Env { height: 1, time: 2 };
    let owner = info("alice");
    let (mut store, _) = instantiate(&env, &owner, InstantiateMsg {});

    let err = execute(&mut store, &env, &info("bob"), record_msg("r1", 1, 10, 1)).unwrap_err();
    match err {
        ContractError::Unauthorized {} => {}
        e => panic!("unexpected error: {:?}", e),
    }

    // State is untouched
    let config = match query(&store, QueryMsg::GetConfig {}).unwrap() {
        QueryAnswer::Config(c) => c,
        a => panic!("unexpected answer: {:?}", a),
    };
    assert_eq!(config.test_count, 0);
    assert_eq!(config.last_test, None);
}

#[test]
fn record_updates_state_and_reports_tx_count() {
    let env = Env { height: 1, time: 99 };
    let owner = info("alice");
    let (mut store, _) = instantiate(&env, &owner, InstantiateMsg {});

    let res = execute(
        &mut store,
        &env,
        &owner,
        ExecuteMsg::RecordTestRun {
            run_id: "run-a".to_string(),
            count: 3,
            gas: 600,
            avg_gas: 2,
            chain: "chain-1".to_string(),
            tx_proof: Some("tx1,tx2,tx3".to_string()),
        },
    )
    .unwrap();
    assert_eq!(res.attributes[0].value, "record_test_run");
    assert_eq!(res.attributes[1].value, "run-a");
    assert_eq!(res.attributes[2].value, "3");
    assert_eq!(res.attributes[3].value, "600");
    assert_eq!(res.attributes[4].value, "3"); // three comma-separated entries
    let config = match query(&store, QueryMsg::GetConfig {}).unwrap() {
        QueryAnswer::Config(c) => c,
        a => panic!("unexpected answer: {:?}", a),
    };
    assert_eq!(config.test_count, 1);
    assert_eq!(config.last_test, Some(99));
}

#[test]
fn gas_summary_zero_and_one_record() {
    let env = Env { height: 1, time: 2 };
    let owner = info("alice");
    let (mut store, _) = instantiate(&env, &owner, InstantiateMsg {});

    // Zero records: every field is zero
    let summary = match query(&store, QueryMsg::GetGasSummary {}).unwrap() {
        QueryAnswer::Summary(s) => s,
        a => panic!("unexpected answer: {:?}", a),
    };
    assert_eq!(summary.msg_count, 0);
    assert_eq!(summary.total_gas, 0);
    assert_eq!(summary.avg_gas, 0);
    assert_eq!(summary.total_bytes, 0);
    assert_eq!(summary.gas_per_byte, 0);

    // One record: count 5, gas 1000, avg gas per byte 10
    execute(&mut store, &env, &owner, record_msg("r1", 5, 1000, 10)).unwrap();
    let summary = match query(&store, QueryMsg::GetGasSummary {}).unwrap() {
        QueryAnswer::Summary(s) => s,
        a => panic!("unexpected answer: {:?}", a),
    };
    assert_eq!(summary.msg_count, 5);
    assert_eq!(summary.total_gas, 1000);
    assert_eq!(summary.total_bytes, 100);
    assert_eq!(summary.avg_gas, 200);
    assert_eq!(summary.gas_per_byte, 10);
}

#[test]
fn gas_summary_skips_zero_average_records() {
    let env = Env { height: 1, time: 2 };
    let owner = info("alice");
    let (mut store, _) = instantiate(&env, &owner, InstantiateMsg {});

    execute(&mut store, &env, &owner, record_msg("r1", 2, 100, 10)).unwrap();
    // A record whose average gas per byte is zero contributes no bytes
    execute(&mut store, &env, &owner, record_msg("r2", 4, 300, 0)).unwrap();

    let summary = match query(&store, QueryMsg::GetGasSummary {}).unwrap() {
        QueryAnswer::Summary(s) => s,
        a => panic!("unexpected answer: {:?}", a),
    };
    assert_eq!(summary.msg_count, 6);
    assert_eq!(summary.total_gas, 400);
    assert_eq!(summary.total_bytes, 10);
    assert_eq!(summary.avg_gas, 66); // 400 / 6, floored
    assert_eq!(summary.gas_per_byte, 40);
}

#[test]
fn list_messages_paginates_in_ascending_order() {
    let owner = info("alice");
    let env0 = Env { height: 10, time: 1 };
    let (mut store, _) = instantiate(&env0, &owner, InstantiateMsg {});

    // Heights 10..22 give ids msg_10 .. msg_21; their ascending *string*
    // order is msg_10, msg_11, ..., msg_21 (same-width numbers).
    for h in 10..22u64 {
        let env = Env { height: h, time: 1 };
        execute(
            &mut store,
            &env,
            &owner,
            ExecuteMsg::StoreMessage { content: format!("m{}", h) },
        )
        .unwrap();
    }

    // Default page size is 10
    let page = messages_page(&store, None, None);
    assert_eq!(page.count, 10);
    assert_eq!(page.msgs[0].id, "msg_10");
    assert_eq!(page.msgs[9].id, "msg_19");
    for w in page.msgs.windows(2) {
        assert!(w[0].id < w[1].id);
    }

    // The next page starts right after the previous one's last key
    let page2 = messages_page(&store, Some("msg_19"), None);
    assert_eq!(page2.count, 2);
    assert_eq!(page2.msgs[0].id, "msg_20");
    assert_eq!(page2.msgs[1].id, "msg_21");

    // An explicit limit clamps the page
    let page3 = messages_page(&store, None, Some(3));
    assert_eq!(page3.count, 3);
    assert_eq!(page3.msgs[2].id, "msg_12");

    // A cursor excludes itself
    let page4 = messages_page(&store, Some("msg_15"), Some(2));
    assert_eq!(page4.count, 2);
    assert_eq!(page4.msgs[0].id, "msg_16");
    assert_eq!(page4.msgs[1].id, "msg_17");
}

#[test]
fn list_messages_limit_is_capped() {
    let owner = info("alice");
    let env0 = Env { height: 10, time: 1 };
    let (mut store, _) = instantiate(&env0, &owner, InstantiateMsg {});

    for h in 100..140u64 {
        let env = Env { height: h, time: 1 };
        execute(
            &mut store,
            &env,
            &owner,
            ExecuteMsg::StoreMessage { content: "x".to_string() },
        )
        .unwrap();
    }

    // The hard cap for messages is 30
    let page = messages_page(&store, None, Some(50));
    assert_eq!(page.count, 30);
}

#[test]
fn test_runs_list_in_descending_order() {
    let env = Env { height: 1, time: 2 };
    let owner = info("alice");
    let (mut store, _) = instantiate(&env, &owner, InstantiateMsg {});

    for name in ["run-a", "run-b", "run-c", "run-d", "run-e", "run-f", "run-g"] {
        execute(&mut store, &env, &owner, record_msg(name, 1, 10, 1)).unwrap();
    }

    // Default page size is 5, descending by run id
    let runs = match query(
        &store,
        QueryMsg::GetTestRuns { start_after: None, limit: None },
    )
    .unwrap()
    {
        QueryAnswer::TestRuns(t) => t.runs,
        a => panic!("unexpected answer: {:?}", a),
    };
    assert_eq!(runs.len(), 5);
    assert_eq!(runs[0].id, "run-g");
    assert_eq!(runs[4].id, "run-c");

    // The cursor is an exclusive lower bound: only keys above it are listed
    let runs = match query(
        &store,
        QueryMsg::GetTestRuns { start_after: Some("run-e".to_string()), limit: None },
    )
    .unwrap()
    {
        QueryAnswer::TestRuns(t) => t.runs,
        a => panic!("unexpected answer: {:?}", a),
    };
    assert_eq!(runs.len(), 2);
    assert_eq!(runs[0].id, "run-g");
    assert_eq!(runs[1].id, "run-f");
}

#[test]
fn test_run_tx_counts_derived() {
    let env = Env { height: 1, time: 2 };
    let owner = info("alice");
    let (mut store, _) = instantiate(&env, &owner, InstantiateMsg {});

    execute(
        &mut store,
        &env,
        &owner,
        ExecuteMsg::RecordTestRun {
            run_id: "r1".to_string(),
            count: 1,
            gas: 10,
            avg_gas: 1,
            chain: "c".to_string(),
            tx_proof: Some("a,b".to_string()),
        },
    )
    .unwrap();
    execute(&mut store, &env, &owner, record_msg("r2", 1, 10, 1)).unwrap();

    let runs = match query(
        &store,
        QueryMsg::GetTestRuns { start_after: None, limit: None },
    )
    .unwrap()
    {
        QueryAnswer::TestRuns(t) => t.runs,
        a => panic!("unexpected answer: {:?}", a),
    };
    assert_eq!(runs.len(), 2);
    assert_eq!(runs[0].id, "r2");
    assert_eq!(runs[0].tx_count, 0);
    assert_eq!(runs[1].id, "r1");
    assert_eq!(runs[1].tx_count, 2);
}

#[test]
fn clear_after_stores_and_run() {
    let owner = info("alice");
    let env = Env { height: 7, time: 50 };
    let (mut store, _) = instantiate(&env, &owner, InstantiateMsg {});

    execute(
        &mut store,
        &Env { height: 7, time: 50 },
        &owner,
        ExecuteMsg::StoreMessage { content: "one".to_string() },
    )
    .unwrap();
    execute(
        &mut store,
        &Env { height: 8, time: 51 },
        &owner,
        ExecuteMsg::StoreMessage { content: "two".to_string() },
    )
    .unwrap();
    execute(&mut store, &env, &owner, record_msg("r1", 2, 20, 2)).unwrap();

    let res = execute(
        &mut store,
        &Env { height: 9, time: 60 },
        &owner,
        ExecuteMsg::ClearData {},
    )
    .unwrap();
    assert_eq!(res.attributes[0].value, "clear_data");
    assert_eq!(res.attributes[1].value, "60");

    let page = messages_page(&store, None, None);
    assert_eq!(page.count, 0);
    assert!(page.msgs.is_empty());

    let summary = match query(&store, QueryMsg::GetGasSummary {}).unwrap() {
        QueryAnswer::Summary(s) => s,
        a => panic!("unexpected answer: {:?}", a),
    };
    assert_eq!(summary.msg_count, 0);

    let config = match query(&store, QueryMsg::GetConfig {}).unwrap() {
        QueryAnswer::Config(c) => c,
        a => panic!("unexpected answer: {:?}", a),
    };
    assert_eq!(config.owner, "alice");
    assert_eq!(config.test_count, 0);
    assert_eq!(config.last_test, Some(60));
}

#[test]
fn store_message_at_size_boundary() {
    let env = Env { height: 1, time: 2 };
    let owner = info("alice");
    let (mut store, _) = instantiate(&env, &owner, InstantiateMsg {});

    // Exactly the maximum is accepted
    let content = "y".repeat(msgledger::MAX_MESSAGE_SIZE as usize);
    let res = execute(
        &mut store,
        &env,
        &owner,
        ExecuteMsg::StoreMessage { content },
    )
    .unwrap();
    assert_eq!(res.attributes[2].value, "10000");
}

#[test]
fn fixed_length_zero_target() {
    let env = Env { height: 3, time: 2 };
    let owner = info("alice");
    let (mut store, _) = instantiate(&env, &owner, InstantiateMsg {});

    let res = execute(
        &mut store,
        &env,
        &owner,
        ExecuteMsg::StoreFixedLength { content: "ab".to_string(), length: 0 },
    )
    .unwrap();
    assert_eq!(res.attributes[1].value, "msg_3_0");

    let m = match query(&store, QueryMsg::GetMessage { id: "msg_3_0".to_string() }).unwrap() {
        QueryAnswer::Message(m) => m,
        a => panic!("unexpected answer: {:?}", a),
    };
    assert_eq!(m.content, "");
    assert_eq!(m.length, 0);
}

#[test]
fn empty_tx_proof_string_counts_one_entry() {
    let env = Env { height: 1, time: 2 };
    let owner = info("alice");
    let (mut store, _) = instantiate(&env, &owner, InstantiateMsg {});

    // A present but empty list still has one (empty) comma-separated entry
    let res = execute(
        &mut store,
        &env,
        &owner,
        ExecuteMsg::RecordTestRun {
            run_id: "r1".to_string(),
            count: 1,
            gas: 10,
            avg_gas: 1,
            chain: "c".to_string(),
            tx_proof: Some("".to_string()),
        },
    )
    .unwrap();
    assert_eq!(res.attributes[4].value, "1");
}

#[test]
fn blank_fields_with_other_whitespace_rejected() {
    let env = Env { height: 1, time: 2 };
    let owner = info("alice");
    let (mut store, _) = instantiate(&env, &owner, InstantiateMsg {});

    let err = execute(&mut store, &env, &owner, record_msg("\t\n \r", 1, 10, 1)).unwrap_err();
    match err {
        ContractError::InvalidRunId(_) => {}
        e => panic!("unexpected error: {:?}", e),
    }

    // A run id with any non-whitespace character passes that check
    let res = execute(&mut store, &env, &owner, record_msg(" r ", 1, 10, 1));
    assert!(res.is_ok());
}

#[test]
fn get_message_not_found() {
    let env = Env { height: 1, time: 2 };
    let (store, _) = instantiate(&env, &info("alice"), InstantiateMsg {});
    match query(&store, QueryMsg::GetMessage { id: "msg_1".to_string() }) {
        Err(ContractError::NotFound {}) => {}
        r => panic!("unexpected result: {:?}", r),
    }
}
