//! A small ledger-hosted data-recording service: a keyed message store with
//! deterministic id derivation and fixed-length content normalization, an
//! append-only test-run statistics store with cursor-based pagination, a
//! derived gas-summary aggregator, and an owner-authorization gate.
//!
//! The host execution environment (storage backend, transport encoding,
//! identity validation) sits outside this crate; every operation here is a
//! pure function from an explicit contract state and a call context to a new
//! state and a structured outcome.

pub mod contract;
pub mod kv;
pub mod laws;
pub mod order;
pub mod queries;
pub mod text;
pub mod types;

pub use contract::{execute, execute_clear_data, execute_delete_message, execute_record_test_run,
    execute_store_fixed_length, execute_store_message, instantiate};
pub use queries::{query, query_config, query_gas_summary, query_list_messages, query_message,
    query_test_runs};
pub use types::{Attribute, ConfigResponse, ContractError, ContractStore, Env, ExecuteMsg,
    GasSummary, InstantiateMsg, ListMessagesResponse, MessageInfo, MessageResponse, QueryAnswer,
    QueryMsg, Response, State, StoredMessage, TestRunResponse, TestRunsResponse, TestRunStats,
    MAX_MESSAGE_SIZE};
