use vstd::prelude::*;
use crate::codec::{cw20_transfer_json, encode_transfer};
use crate::error::ContractError;
use crate::msg::{pays, Coin, ExecuteMsg, InstantiateMsg, MigrateMsg, Response, WasmExecute};
use crate::state::{
    has_claimed, lemma_sum_paid_prefix, lemma_sum_paid_step, records_distinct, sum_paid, SaleInfo,
    State, UserInfo,
};

verus! {

/// The name under which this contract stores its version.
pub const CONTRACT_NAME: &'static str = "BANANA_SALE";

/// The only coin denomination the ledger accepts.
pub const JUNO: &'static str = "ujuno";

/// The ledger: its configuration, the running total and the claim records.
pub struct Contract {
    pub config: State,
    pub sale_info: SaleInfo,
    pub users: Vec<UserInfo>,
}

impl Contract {
    /// The total handed out so far.
    pub open spec fn total(self) -> u128 {
        self.sale_info.total_aridropped_amount
    }

    /// The total stays within the supply, equals what the records paid out,
    /// and no address holds two records.
    pub open spec fn wf(self) -> bool {
        &&& self.total() <= self.config.total_supply
        &&& self.total() == sum_paid(self.users@)
        &&& records_distinct(self.users@)
    }

    /// One more allotment would exceed the supply.
    pub open spec fn over_supply(self) -> bool {
        self.config.airdrop_amount + self.total() > self.config.total_supply
    }

    /// What is left to distribute.
    pub open spec fn leftover(self) -> u128 {
        (self.config.total_supply - self.total()) as u128
    }
}

/// The outcome of a claim by `sender` on `pre`: the supply check comes
/// first, then the one-claim-per-address check, and only when both pass are
/// the total and the records changed, together.
pub open spec fn claim_post(
    pre: Contract,
    post: Contract,
    sender: Seq<char>,
    r: Result<Response, ContractError>,
) -> bool {
    if pre.over_supply() {
        r == Err::<Response, ContractError>(ContractError::NoEnoughTokens {}) && post == pre
    } else if has_claimed(pre.users@, sender) {
        r == Err::<Response, ContractError>(ContractError::AlreadyClaimed {}) && post == pre
    } else {
        &&& r is Ok
        &&& pays(
            r->Ok_0,
            pre.config.token_address@,
            cw20_transfer_json(sender, pre.config.airdrop_amount),
        )
        &&& post.config == pre.config
        &&& post.total() == pre.total() + pre.config.airdrop_amount
        &&& post.users@.len() == pre.users@.len() + 1
        &&& post.users@.drop_last() == pre.users@
        &&& post.users@.last().address@ == sender
        &&& post.users@.last().is_claimed
        &&& post.users@.last().amount == pre.config.airdrop_amount
    }
}

/// The outcome of a request by `sender` to make `address` the administrator;
/// `address_valid` says whether the host accepted `address`.
pub open spec fn change_admin_post(
    pre: Contract,
    post: Contract,
    sender: Seq<char>,
    address: String,
    address_valid: bool,
    r: Result<Response, ContractError>,
) -> bool {
    if sender != pre.config.admin@ {
        r == Err::<Response, ContractError>(ContractError::Unauthorized {}) && post == pre
    } else if !address_valid {
        r == Err::<Response, ContractError>(ContractError::WrongConfig {}) && post == pre
    } else {
        &&& r is Ok
        &&& r->Ok_0.messages@.len() == 0
        &&& post == (Contract { config: State { admin: address, ..pre.config }, ..pre })
    }
}

/// The outcome of a request by `sender` to replace the configuration by
/// `state`; `addresses_valid` says whether the host accepted both addresses
/// of `state`. Malformed addresses, and a supply below what was already
/// handed out, are refused.
pub open spec fn update_config_post(
    pre: Contract,
    post: Contract,
    sender: Seq<char>,
    state: State,
    addresses_valid: bool,
    r: Result<Response, ContractError>,
) -> bool {
    if sender != pre.config.admin@ {
        r == Err::<Response, ContractError>(ContractError::Unauthorized {}) && post == pre
    } else if !addresses_valid || state.total_supply < pre.total() {
        r == Err::<Response, ContractError>(ContractError::WrongConfig {}) && post == pre
    } else {
        &&& r is Ok
        &&& r->Ok_0.messages@.len() == 0
        &&& post == (Contract { config: state, ..pre })
    }
}

/// The outcome of a request by `sender` to send the leftover to the
/// administrator. The ledger itself never changes.
pub open spec fn withdraw_post(
    pre: Contract,
    post: Contract,
    sender: Seq<char>,
    r: Result<Response, ContractError>,
) -> bool {
    &&& post == pre
    &&& sender != pre.config.admin@ ==> r == Err::<Response, ContractError>(
        ContractError::Unauthorized {},
    )
    &&& sender == pre.config.admin@ ==> {
        &&& r is Ok
        &&& pays(
            r->Ok_0,
            pre.config.token_address@,
            cw20_transfer_json(pre.config.admin@, pre.leftover()),
        )
    }
}

/// The outcome of any request `msg` by `sender` on `pre`; `addresses_valid`
/// says whether the host accepted every address that `msg` carries.
pub open spec fn execute_post(
    pre: Contract,
    post: Contract,
    sender: Seq<char>,
    msg: ExecuteMsg,
    addresses_valid: bool,
    r: Result<Response, ContractError>,
) -> bool {
    match msg {
        ExecuteMsg::Claim {} => claim_post(pre, post, sender, r),
        ExecuteMsg::ChangeAdmin { address } => change_admin_post(
            pre,
            post,
            sender,
            address,
            addresses_valid,
            r,
        ),
        ExecuteMsg::UpdateConfig { state } => update_config_post(
            pre,
            post,
            sender,
            state,
            addresses_valid,
            r,
        ),
        ExecuteMsg::WithdrawTokenByAdmin {} => withdraw_post(pre, post, sender, r),
    }
}

/// Fails with `Unauthorized` unless `sender` is the administrator of `config`.
pub fn authcheck(config: &State, sender: &String) -> (r: Result<(), ContractError>)
    ensures
        sender@ == config.admin@ ==> r is Ok,
        sender@ != config.admin@ ==> r == Err::<(), ContractError>(ContractError::Unauthorized {}),
{
    if sender.eq(&config.admin) {
        Ok(())
    } else {
        Err(ContractError::Unauthorized {})
    }
}

/// The response that carries the encoded transfer `payload` to `token`, or
/// the encoding error.
pub fn transfer_response(token: &String, payload: Result<Vec<u8>, cosmwasm_std::StdError>) -> (r:
    Result<Response, ContractError>)
    ensures
        match payload {
            Ok(bytes) => r is Ok && pays(r->Ok_0, token@, bytes@),
            Err(e) => r == Err::<Response, ContractError>(ContractError::Std(e)),
        },
{
    match payload {
        Ok(bytes) => {
            let mut messages: Vec<WasmExecute> = Vec::new();
            messages.push(WasmExecute { contract_addr: token.clone(), msg: bytes });
            Ok(Response { messages })
        },
        Err(e) => Err(ContractError::Std(e)),
    }
}

impl Contract {
    /// Whether the ledger is well formed, as `wf` states it.
    pub fn is_well_formed(&self) -> (r: bool)
        ensures
            r == self.wf(),
    {
        let total = self.sale_info.total_aridropped_amount;
        if total > self.config.total_supply {
            return false;
        }
        let n = self.users.len();
        let mut acc: u128 = 0;
        let mut i: usize = 0;
        while i < n
            invariant
                n == self.users@.len(),
                0 <= i <= n,
                acc == sum_paid(self.users@.take(i as int)),
                acc <= total,
                total == self.total(),
            decreases n - i,
        {
            proof {
                lemma_sum_paid_step(self.users@, i as int);
            }
            let next = acc.checked_add(self.users[i].amount);
            if next.is_none() || next.unwrap() > total {
                proof {
                    lemma_sum_paid_prefix(self.users@, i + 1);
                }
                return false;
            }
            acc = next.unwrap();
            i = i + 1;
        }
        proof {
            assert(self.users@.take(n as int) =~= self.users@);
        }
        if acc != total {
            return false;
        }
        let mut i: usize = 0;
        while i < n
            invariant
                n == self.users@.len(),
                0 <= i <= n,
                forall|a: int| 0 <= a < i ==> #[trigger] self.users@[a].is_claimed,
                forall|a: int, b: int|
                    0 <= a < b < n && a < i ==> #[trigger] self.users@[a].address@
                        != #[trigger] self.users@[b].address@,
            decreases n - i,
        {
            if !self.users[i].is_claimed {
                return false;
            }
            let mut j: usize = i + 1;
            while j < n
                invariant
                    n == self.users@.len(),
                    0 <= i < n,
                    i + 1 <= j <= n,
                    forall|b: int| i < b < j ==> self.users@[i as int].address@
                        != #[trigger] self.users@[b].address@,
                decreases n - j,
            {
                if self.users[i].address.eq(&self.users[j].address) {
                    return false;
                }
                j = j + 1;
            }
            i = i + 1;
        }
        true
    }

    /// The position of the record of `addr`, if it has one.
    fn find_user(&self, addr: &String) -> (r: Option<usize>)
        ensures
            r is None <==> !has_claimed(self.users@, addr@),
            r is Some ==> r->0 < self.users@.len() && self.users@[r->0 as int].address@ == addr@,
    {
        let mut i: usize = 0;
        while i < self.users.len()
            invariant
                0 <= i <= self.users@.len(),
                forall|k: int| 0 <= k < i ==> self.users@[k].address@ != addr@,
            decreases self.users@.len() - i,
        {
            if self.users[i].address.eq(addr) {
                return Some(i);
            }
            i = i + 1;
        }
        None
    }

    /// Whether `addr` holds a claim record.
    pub fn is_claimed(&self, addr: &String) -> (r: bool)
        ensures
            r == has_claimed(self.users@, addr@),
    {
        self.find_user(addr).is_some()
    }

    /// The claim record of `addr`, if it has one.
    pub fn query_user_info(&self, addr: &String) -> (r: Option<UserInfo>)
        requires
            self.wf(),
        ensures
            r is None <==> !has_claimed(self.users@, addr@),
            r is Some ==> {
                let u = r->0;
                &&& u.address@ == addr@
                &&& u.is_claimed
                &&& exists|i: int|
                    0 <= i < self.users@.len() && #[trigger] self.users@[i].address@ == addr@
                        && self.users@[i].amount == u.amount
            },
    {
        match self.find_user(addr) {
            None => None,
            Some(i) => {
                let u = &self.users[i];
                Some(UserInfo { address: u.address.clone(), is_claimed: u.is_claimed, amount: u.amount })
            },
        }
    }

    /// How much has been handed out so far.
    pub fn query_sale_info(&self) -> (r: SaleInfo)
        ensures
            r == self.sale_info,
    {
        self.sale_info
    }

    /// Claims the allotment for `sender`: reserves it against the supply and
    /// records the claimant as one step, then hands back the transfer.
    pub fn execute_claim(&mut self, sender: &String) -> (r: Result<Response, ContractError>)
        requires
            old(self).wf(),
        ensures
            claim_post(*old(self), *final(self), sender@, r),
            final(self).wf(),
    {
        let amount = self.config.airdrop_amount;
        let total = self.sale_info.total_aridropped_amount;
        let fits = match amount.checked_add(total) {
            Some(sum) => sum <= self.config.total_supply,
            None => false,
        };
        if !fits {
            return Err(ContractError::NoEnoughTokens {});
        }
        if self.is_claimed(sender) {
            return Err(ContractError::AlreadyClaimed {});
        }
        let payload = encode_transfer(sender, amount);
        let resp = match transfer_response(&self.config.token_address, payload) {
            Ok(resp) => resp,
            Err(e) => return Err(e),
        };
        let ghost pre = *self;
        self.sale_info.total_aridropped_amount = total + amount;
        self.users.push(UserInfo { address: sender.clone(), is_claimed: true, amount });
        proof {
            assert(self.users@.drop_last() =~= pre.users@);
        }
        Ok(resp)
    }

    /// Makes `address` the administrator, if `sender` is the administrator
    /// and the host accepted `address` (`address_valid`).
    pub fn execute_change_admin(
        &mut self,
        sender: &String,
        address: String,
        address_valid: bool,
    ) -> (r: Result<Response, ContractError>)
        requires
            old(self).wf(),
        ensures
            change_admin_post(*old(self), *final(self), sender@, address, address_valid, r),
            final(self).wf(),
    {
        if let Err(e) = authcheck(&self.config, sender) {
            return Err(e);
        }
        if !address_valid {
            return Err(ContractError::WrongConfig {});
        }
        self.config.admin = address;
        Ok(Response { messages: Vec::new() })
    }

    /// Replaces the configuration by `state`, if `sender` is the
    /// administrator, the host accepted both addresses of `state`
    /// (`addresses_valid`) and `state` leaves room for what was handed out.
    pub fn execute_update_config(
        &mut self,
        sender: &String,
        state: State,
        addresses_valid: bool,
    ) -> (r: Result<Response, ContractError>)
        requires
            old(self).wf(),
        ensures
            update_config_post(*old(self), *final(self), sender@, state, addresses_valid, r),
            final(self).wf(),
    {
        if let Err(e) = authcheck(&self.config, sender) {
            return Err(e);
        }
        if !addresses_valid || state.total_supply < self.sale_info.total_aridropped_amount {
            return Err(ContractError::WrongConfig {});
        }
        self.config = state;
        Ok(Response { messages: Vec::new() })
    }

    /// Hands the leftover of the supply to the administrator, if `sender` is
    /// the administrator. The total handed out stays as it is.
    pub fn execute_withdraw_token_by_admin(&self, sender: &String) -> (r: Result<
        Response,
        ContractError,
    >)
        requires
            self.wf(),
        ensures
            withdraw_post(*self, *self, sender@, r),
    {
        if let Err(e) = authcheck(&self.config, sender) {
            return Err(e);
        }
        let leftover = self.config.total_supply - self.sale_info.total_aridropped_amount;
        let payload = encode_transfer(&self.config.admin, leftover);
        transfer_response(&self.config.token_address, payload)
    }
}

/// Sets up the ledger from `msg`. `admin_valid` and `token_valid` say
/// whether the host accepted the two addresses of `msg`.
pub fn instantiate(msg: InstantiateMsg, admin_valid: bool, token_valid: bool) -> (r: Result<
    (Contract, Response),
    ContractError,
>)
    ensures
        !(admin_valid && token_valid) ==> r == Err::<(Contract, Response), ContractError>(
            ContractError::WrongConfig {},
        ),
        admin_valid && token_valid ==> r is Ok,
        r is Ok ==> {
            let (c, resp) = r->Ok_0;
            &&& c.wf()
            &&& c.config == (State {
                admin: msg.admin,
                token_address: msg.token_address,
                total_supply: msg.total_supply,
                airdrop_amount: msg.airdrop_amount,
            })
            &&& c.total() == 0
            &&& c.users@.len() == 0
            &&& resp.messages@.len() == 0
        },
{
    if !admin_valid || !token_valid {
        return Err(ContractError::WrongConfig {});
    }
    let config = State {
        admin: msg.admin,
        token_address: msg.token_address,
        total_supply: msg.total_supply,
        airdrop_amount: msg.airdrop_amount,
    };
    let contract = Contract {
        config,
        sale_info: SaleInfo { total_aridropped_amount: 0 },
        users: Vec::new(),
    };
    Ok((contract, Response { messages: Vec::new() }))
}

/// Runs the request `msg` of `sender` on the ledger; `addresses_valid` says
/// whether the host accepted every address that `msg` carries.
pub fn execute(
    contract: &mut Contract,
    sender: &String,
    msg: ExecuteMsg,
    addresses_valid: bool,
) -> (r: Result<Response, ContractError>)
    requires
        old(contract).wf(),
    ensures
        execute_post(*old(contract), *final(contract), sender@, msg, addresses_valid, r),
        final(contract).wf(),
{
    match msg {
        ExecuteMsg::Claim {} => contract.execute_claim(sender),
        ExecuteMsg::ChangeAdmin { address } => {
            contract.execute_change_admin(sender, address, addresses_valid)
        },
        ExecuteMsg::UpdateConfig { state } => {
            contract.execute_update_config(sender, state, addresses_valid)
        },
        ExecuteMsg::WithdrawTokenByAdmin {} => contract.execute_withdraw_token_by_admin(sender),
    }
}

/// Accepts a migration only from a deployment stored under this contract's
/// name, `stored_contract` being the name found in storage.
pub fn migrate(stored_contract: String, _msg: MigrateMsg) -> (r: Result<Response, ContractError>)
    ensures
        stored_contract@ == CONTRACT_NAME@ ==> r is Ok && r->Ok_0.messages@.len() == 0,
        stored_contract@ != CONTRACT_NAME@ ==> r == Err::<Response, ContractError>(
            ContractError::CannotMigrate { previous_contract: stored_contract },
        ),
{
    let name = CONTRACT_NAME.to_owned();
    if stored_contract.eq(&name) {
        Ok(Response { messages: Vec::new() })
    } else {
        Err(ContractError::CannotMigrate { previous_contract: stored_contract })
    }
}

/// The single coin of `funds`, which must be of the accepted denomination.
pub fn get_coin_info(funds: &Vec<Coin>) -> (r: Result<Coin, ContractError>)
    ensures
        funds@.len() != 1 ==> r == Err::<Coin, ContractError>(ContractError::SeveralCoinsSent {}),
        funds@.len() == 1 && funds@[0].denom@ != JUNO@ ==> r == Err::<Coin, ContractError>(
            ContractError::InvalidCoin {},
        ),
        funds@.len() == 1 && funds@[0].denom@ == JUNO@ ==> r is Ok && r->Ok_0.denom@ == JUNO@
            && r->Ok_0.amount == funds@[0].amount,
{
    if funds.len() != 1 {
        return Err(ContractError::SeveralCoinsSent {});
    }
    let juno = JUNO.to_owned();
    if !funds[0].denom.eq(&juno) {
        return Err(ContractError::InvalidCoin {});
    }
    Ok(Coin { denom: funds[0].denom.clone(), amount: funds[0].amount })
}

} // verus!
