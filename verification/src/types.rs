//! The data model: the singleton contract state, the two record kinds, the
//! tagged operations, the structured outcomes, and the error taxonomy.
//!
//! Gas magnitudes are carried as plain 128-bit integers and caller
//! identities as plain strings: the host validates identities and wraps
//! values for transport outside this crate.

use vstd::prelude::*;

use crate::kv::keys_sorted;

verus! {

/// Largest accepted message length (in characters), for both plain and
/// fixed-length stores.
pub const MAX_MESSAGE_SIZE: u64 = 10000;

/// Why a call failed. Every validation failure aborts the call with no
/// partial write.
#[derive(Debug)]
pub enum ContractError {
    /// The caller of a gated operation is not the owner.
    Unauthorized {},
    /// Normalized content did not match the requested target length; an
    /// internal-consistency defect, not a user error.
    InvalidMessageLength { length: u64, expected: u64 },
    /// Content or target length exceeds `MAX_MESSAGE_SIZE`.
    MessageTooLarge { size: u64, max: u64 },
    /// A run id that trims down to the empty string.
    InvalidRunId(String),
    /// A chain id that trims down to the empty string.
    InvalidChainId(String),
    /// Zero gas reported together with a nonzero message count.
    InvalidGasValue(String),
    /// A lookup by id found no record.
    NotFound {},
}

/// The singleton contract state.
#[derive(Debug)]
pub struct State {
    /// Identity set once at creation; never changes.
    pub owner: String,
    /// Number of test runs recorded since creation or the last clear.
    pub test_run_count: u64,
    /// Time of the most recent recorded or cleared run, in seconds.
    pub last_test_timestamp: Option<u64>,
}

/// One stored message.
#[derive(Debug)]
pub struct StoredMessage {
    pub content: String,
    /// Character count of `content`.
    pub length: u64,
    /// Time of creation, in seconds.
    pub stored_at: u64,
}

/// One recorded test run.
#[derive(Debug)]
pub struct TestRunStats {
    /// Time of recording, in seconds.
    pub timestamp: u64,
    pub message_count: u64,
    pub total_gas: u128,
    pub avg_gas_per_byte: u128,
    pub chain_id: String,
    /// Comma-joined transaction references, if any were supplied.
    pub tx_proof: Option<String>,
}

/// Creation carries no data beyond the caller identity.
#[derive(Debug)]
pub struct InstantiateMsg {}

/// The mutating operations.
#[derive(Debug)]
pub enum ExecuteMsg {
    /// Store a message of any length (up to the maximum).
    StoreMessage { content: String },
    /// Store a message normalized to exactly `length` characters:
    /// truncated if longer, right-padded with spaces if shorter.
    StoreFixedLength { content: String, length: u64 },
    /// Record aggregated test-run data (owner only).
    RecordTestRun {
        run_id: String,
        count: u64,
        gas: u128,
        avg_gas: u128,
        chain: String,
        tx_proof: Option<String>,
    },
    /// Remove every message and test run (owner only).
    ClearData {},
    /// Remove one message; a no-op when the id is absent (owner only).
    DeleteMessage { id: String },
}

/// The read-only operations.
#[derive(Debug)]
pub enum QueryMsg {
    GetConfig {},
    GetMessage { id: String },
    ListMessages { start_after: Option<String>, limit: Option<u32> },
    GetTestRuns { start_after: Option<String>, limit: Option<u32> },
    GetGasSummary {},
}

#[derive(Debug)]
pub struct ConfigResponse {
    pub owner: String,
    pub test_count: u64,
    pub last_test: Option<u64>,
}

#[derive(Debug)]
pub struct MessageResponse {
    pub id: String,
    pub content: String,
    pub length: u64,
    pub time: u64,
}

#[derive(Debug)]
pub struct ListMessagesResponse {
    pub msgs: Vec<MessageResponse>,
    /// The count of the returned page.
    pub count: u64,
}

#[derive(Debug)]
pub struct TestRunResponse {
    pub id: String,
    pub time: u64,
    pub count: u64,
    pub gas: u128,
    pub avg_gas: u128,
    pub chain: String,
    /// Number of comma-separated transaction references; derived, not stored.
    pub tx_count: u32,
}

#[derive(Debug)]
pub struct TestRunsResponse {
    pub runs: Vec<TestRunResponse>,
}

/// Aggregates derived by scanning every test-run record.
#[derive(Debug)]
pub struct GasSummary {
    pub msg_count: u64,
    pub total_gas: u128,
    pub avg_gas: u128,
    pub total_bytes: u64,
    pub gas_per_byte: u128,
}

/// The answer of a read-only operation, routed by the operation's tag.
#[derive(Debug)]
pub enum QueryAnswer {
    Config(ConfigResponse),
    Message(MessageResponse),
    Messages(ListMessagesResponse),
    TestRuns(TestRunsResponse),
    Summary(GasSummary),
}

/// One human-readable key/value pair describing an action taken.
#[derive(Debug)]
pub struct Attribute {
    pub key: String,
    pub value: String,
}

/// The outcome of a successful mutating operation: an ordered audit trail
/// of attributes.
#[derive(Debug)]
pub struct Response {
    pub attributes: Vec<Attribute>,
}

/// Host-supplied call context: the current block.
#[derive(Debug)]
pub struct Env {
    pub height: u64,
    /// Current time, in seconds.
    pub time: u64,
}

/// Host-supplied caller context: an opaque, already-validated identity.
#[derive(Debug)]
pub struct MessageInfo {
    pub sender: String,
}

/// One contract instance: the singleton state and the two keyed stores.
#[derive(Debug)]
pub struct ContractStore {
    pub state: State,
    /// Message records, sorted by id.
    pub messages: Vec<(String, StoredMessage)>,
    /// Test-run records, sorted by run id.
    pub test_runs: Vec<(String, TestRunStats)>,
}

impl StoredMessage {
    /// The declared length equals the character count of the content.
    pub open spec fn wf(self) -> bool {
        self.length == self.content@.len()
    }
}

impl TestRunStats {
    /// Zero gas is recorded only for runs with no messages, and a
    /// transaction-proof list is short enough for its derived entry count
    /// to fit the reported 32-bit field.
    pub open spec fn wf(self) -> bool {
        &&& (self.total_gas == 0 ==> self.message_count == 0)
        &&& (self.tx_proof matches Some(p) ==> p@.len() < u32::MAX)
    }
}

impl ContractStore {
    /// Both stores are sorted by key and every record is well formed.
    pub open spec fn wf(self) -> bool {
        &&& keys_sorted(self.messages@)
        &&& keys_sorted(self.test_runs@)
        &&& forall|i: int| 0 <= i < self.messages@.len() ==> (#[trigger] self.messages@[i].1).wf()
        &&& forall|i: int|
            0 <= i < self.test_runs@.len() ==> (#[trigger] self.test_runs@[i].1).wf()
    }
}

} // verus!
