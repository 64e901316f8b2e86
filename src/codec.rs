use vstd::prelude::*;

verus! {

/// The JSON bytes of a cw20 `Transfer` message for `recipient` and `amount`.
pub uninterp spec fn cw20_transfer_json(recipient: Seq<char>, amount: u128) -> Seq<u8>;

/// Relies on `cosmwasm_std::to_json_binary` applied to
/// `cw20::Cw20ExecuteMsg::Transfer`: serialising this message never fails
/// (strings and `Uint128` amounts always encode), and the bytes depend on the
/// recipient and the amount alone.
#[verifier::external_body]
pub(crate) fn encode_transfer(recipient: &String, amount: u128) -> (r: Result<Vec<u8>, cosmwasm_std::StdError>)
    ensures
        r is Ok,
        r->Ok_0@ == cw20_transfer_json(recipient@, amount),
{
    let msg = cw20::Cw20ExecuteMsg::Transfer {
        recipient: recipient.clone(),
        amount: cosmwasm_std::Uint128::new(amount),
    };
    cosmwasm_std::to_json_binary(&msg).map(|b| b.to_vec())
}

} // verus!
