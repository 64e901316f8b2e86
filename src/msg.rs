use vstd::prelude::*;
use crate::state::State;

verus! {

pub struct InstantiateMsg {
    pub admin: String,
    pub token_address: String,
    pub total_supply: u128,
    pub airdrop_amount: u128,
}

pub enum ExecuteMsg {
    Claim {},
    ChangeAdmin { address: String },
    UpdateConfig { state: State },
    WithdrawTokenByAdmin {},
}

pub struct MigrateMsg {}

/// A coin sent along with a request.
#[derive(Debug)]
pub struct Coin {
    pub denom: String,
    pub amount: u128,
}

/// An instruction to execute `msg` on the contract at `contract_addr`,
/// sending no funds along.
#[derive(Debug)]
pub struct WasmExecute {
    pub contract_addr: String,
    pub msg: Vec<u8>,
}

/// The instructions an operation hands back to the host.
#[derive(Debug)]
pub struct Response {
    pub messages: Vec<WasmExecute>,
}

/// `resp` carries exactly one instruction: execute `payload` on `token`.
pub open spec fn pays(resp: Response, token: Seq<char>, payload: Seq<u8>) -> bool {
    &&& resp.messages@.len() == 1
    &&& resp.messages@[0].contract_addr@ == token
    &&& resp.messages@[0].msg@ == payload
}

} // verus!
