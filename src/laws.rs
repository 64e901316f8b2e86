use vstd::prelude::*;
use crate::contract::{claim_post, execute_post, Contract};
use crate::error::ContractError;
use crate::msg::{ExecuteMsg, Response};
use crate::state::{has_claimed, sum_paid};

verus! {

/// Every request keeps the ledger well formed: after any sequence of
/// requests the total handed out stays within the supply and equals the sum
/// of what the claim records paid out.
pub proof fn lemma_supply_cap_kept(
    pre: Contract,
    post: Contract,
    sender: Seq<char>,
    msg: ExecuteMsg,
    addresses_valid: bool,
    r: Result<Response, ContractError>,
)
    requires
        pre.wf(),
        execute_post(pre, post, sender, msg, addresses_valid, r),
    ensures
        post.wf(),
        post.total() <= post.config.total_supply,
        post.total() == sum_paid(post.users@),
{
    if msg is Claim && !pre.over_supply() && !has_claimed(pre.users@, sender) && r is Ok {
        let n = post.users@.len() - 1;
        assert forall|i: int, j: int| 0 <= i < j < post.users@.len() implies
            #[trigger] post.users@[i].address@ != #[trigger] post.users@[j].address@ by {
            assert(post.users@.drop_last()[i] == post.users@[i]);
            if j == n {
                assert(pre.users@[i].address@ != sender);
            } else {
                assert(post.users@.drop_last()[j] == post.users@[j]);
            }
        }
        assert forall|i: int| 0 <= i < post.users@.len() implies #[trigger] post.users@[i].is_claimed by {
            if i < n {
                assert(post.users@.drop_last()[i] == post.users@[i]);
            }
        }
    }
}

/// A request that fails leaves the ledger exactly as it was: in particular a
/// claim that cannot be reserved against the supply creates no record.
pub proof fn lemma_failure_changes_nothing(
    pre: Contract,
    post: Contract,
    sender: Seq<char>,
    msg: ExecuteMsg,
    addresses_valid: bool,
    r: Result<Response, ContractError>,
)
    requires
        execute_post(pre, post, sender, msg, addresses_valid, r),
        r is Err,
    ensures
        post == pre,
{
}

/// An address that holds a claim record can never claim again: the claim
/// fails, changes nothing, and fails with `AlreadyClaimed` whenever the
/// supply would still allow an allotment.
pub proof fn lemma_claimed_address_cannot_claim(
    pre: Contract,
    post: Contract,
    sender: Seq<char>,
    r: Result<Response, ContractError>,
)
    requires
        has_claimed(pre.users@, sender),
        claim_post(pre, post, sender, r),
    ensures
        r is Err,
        post == pre,
        !pre.over_supply() ==> r == Err::<Response, ContractError>(ContractError::AlreadyClaimed {}),
{
}

/// A successful claim leaves a record for the claimant.
pub proof fn lemma_claim_records_claimant(
    pre: Contract,
    post: Contract,
    sender: Seq<char>,
    r: Result<Response, ContractError>,
)
    requires
        claim_post(pre, post, sender, r),
        r is Ok,
    ensures
        has_claimed(post.users@, sender),
{
    assert(post.users@[post.users@.len() - 1].address@ == sender);
}

/// Claim records are permanent: no request removes one.
pub proof fn lemma_records_are_permanent(
    pre: Contract,
    post: Contract,
    sender: Seq<char>,
    msg: ExecuteMsg,
    addresses_valid: bool,
    r: Result<Response, ContractError>,
    addr: Seq<char>,
)
    requires
        execute_post(pre, post, sender, msg, addresses_valid, r),
        has_claimed(pre.users@, addr),
    ensures
        has_claimed(post.users@, addr),
{
    let i = choose|i: int| 0 <= i < pre.users@.len() && #[trigger] pre.users@[i].address@ == addr;
    if msg is Claim && post != pre {
        assert(post.users@.drop_last()[i] == post.users@[i]);
    }
    assert(post.users@[i].address@ == addr);
}

/// Only the administrator can change the administrator, replace the
/// configuration or withdraw: anyone else gets `Unauthorized` and the ledger
/// stays as it was.
pub proof fn lemma_admin_gating(
    pre: Contract,
    post: Contract,
    sender: Seq<char>,
    msg: ExecuteMsg,
    addresses_valid: bool,
    r: Result<Response, ContractError>,
)
    requires
        !(msg is Claim),
        sender != pre.config.admin@,
        execute_post(pre, post, sender, msg, addresses_valid, r),
    ensures
        r == Err::<Response, ContractError>(ContractError::Unauthorized {}),
        post == pre,
{
}

/// `states` is a run of the ledger: each state comes from the one before it
/// by the request `msgs[k]` of `senders[k]`, whose addresses the host
/// accepted when `valid[k]` holds, answered by `results[k]`.
pub open spec fn is_run(
    states: Seq<Contract>,
    senders: Seq<Seq<char>>,
    msgs: Seq<ExecuteMsg>,
    valid: Seq<bool>,
    results: Seq<Result<Response, ContractError>>,
) -> bool {
    &&& states.len() == msgs.len() + 1
    &&& senders.len() == msgs.len()
    &&& valid.len() == msgs.len()
    &&& results.len() == msgs.len()
    &&& forall|k: int|
        0 <= k < msgs.len() ==> execute_post(
            #[trigger] states[k],
            states[k + 1],
            senders[k],
            msgs[k],
            valid[k],
            results[k],
        )
}

/// Along any run that starts well formed, every state is well formed, so the
/// total handed out never exceeds the supply.
pub proof fn lemma_supply_cap_over_run(
    states: Seq<Contract>,
    senders: Seq<Seq<char>>,
    msgs: Seq<ExecuteMsg>,
    valid: Seq<bool>,
    results: Seq<Result<Response, ContractError>>,
    k: int,
)
    requires
        is_run(states, senders, msgs, valid, results),
        states[0].wf(),
        0 <= k < states.len(),
    ensures
        states[k].wf(),
        states[k].total() <= states[k].config.total_supply,
    decreases k,
{
    if k > 0 {
        lemma_supply_cap_over_run(states, senders, msgs, valid, results, k - 1);
        lemma_supply_cap_kept(
            states[k - 1],
            states[k],
            senders[k - 1],
            msgs[k - 1],
            valid[k - 1],
            results[k - 1],
        );
    }
}

/// Along any run, an address that holds a claim record keeps it.
pub proof fn lemma_record_kept_over_run(
    states: Seq<Contract>,
    senders: Seq<Seq<char>>,
    msgs: Seq<ExecuteMsg>,
    valid: Seq<bool>,
    results: Seq<Result<Response, ContractError>>,
    i: int,
    k: int,
    addr: Seq<char>,
)
    requires
        is_run(states, senders, msgs, valid, results),
        0 <= i <= k < states.len(),
        has_claimed(states[i].users@, addr),
    ensures
        has_claimed(states[k].users@, addr),
    decreases k - i,
{
    if i < k {
        lemma_records_are_permanent(
            states[i],
            states[i + 1],
            senders[i],
            msgs[i],
            valid[i],
            results[i],
            addr,
        );
        lemma_record_kept_over_run(states, senders, msgs, valid, results, i + 1, k, addr);
    }
}

/// Along any run, no address succeeds in claiming twice.
pub proof fn lemma_at_most_one_claim_over_run(
    states: Seq<Contract>,
    senders: Seq<Seq<char>>,
    msgs: Seq<ExecuteMsg>,
    valid: Seq<bool>,
    results: Seq<Result<Response, ContractError>>,
    i: int,
    k: int,
)
    requires
        is_run(states, senders, msgs, valid, results),
        0 <= i < k < msgs.len(),
        msgs[i] is Claim,
        msgs[k] is Claim,
        senders[i] == senders[k],
        results[i] is Ok,
    ensures
        results[k] is Err,
        states[k + 1] == states[k],
{
    assert(execute_post(states[i], states[i + 1], senders[i], msgs[i], valid[i], results[i]));
    lemma_claim_records_claimant(states[i], states[i + 1], senders[i], results[i]);
    lemma_record_kept_over_run(states, senders, msgs, valid, results, i + 1, k, senders[i]);
    assert(execute_post(states[k], states[k + 1], senders[k], msgs[k], valid[k], results[k]));
    lemma_claimed_address_cannot_claim(states[k], states[k + 1], senders[k], results[k]);
}

} // verus!
