use vstd::prelude::*;

verus! {

/// The configuration of the ledger.
#[derive(Clone, Debug)]
pub struct State {
    pub admin: String,
    pub token_address: String,
    pub total_supply: u128,
    pub airdrop_amount: u128,
}

/// How much has been handed out so far.
#[derive(Clone, Copy, Debug, PartialEq, Eq)]
pub struct SaleInfo {
    pub total_aridropped_amount: u128,
}

/// The permanent record of one successful claim.
#[derive(Clone, Debug)]
pub struct UserInfo {
    pub address: String,
    pub is_claimed: bool,
    /// The allotment paid out by that claim.
    pub amount: u128,
}

/// Whether some record of `users` belongs to `addr`.
pub open spec fn has_claimed(users: Seq<UserInfo>, addr: Seq<char>) -> bool {
    exists|i: int| 0 <= i < users.len() && #[trigger] users[i].address@ == addr
}

/// The amounts of all records added up.
pub open spec fn sum_paid(users: Seq<UserInfo>) -> int
    decreases users.len(),
{
    if users.len() == 0 {
        0
    } else {
        sum_paid(users.drop_last()) + users.last().amount
    }
}

/// No address holds two records, and each record marks a claim.
pub open spec fn records_distinct(users: Seq<UserInfo>) -> bool {
    &&& forall|i: int| 0 <= i < users.len() ==> #[trigger] users[i].is_claimed
    &&& forall|i: int, j: int|
        0 <= i < j < users.len() ==> #[trigger] users[i].address@ != #[trigger] users[j].address@
}

/// The amounts of a prefix add up to no more than those of the whole.
pub proof fn lemma_sum_paid_prefix(users: Seq<UserInfo>, i: int)
    requires
        0 <= i <= users.len(),
    ensures
        sum_paid(users.take(i)) <= sum_paid(users),
    decreases users.len(),
{
    if i < users.len() {
        lemma_sum_paid_prefix(users.drop_last(), i);
        assert(users.drop_last().take(i) =~= users.take(i));
    } else {
        assert(users.take(i) =~= users);
    }
}

/// Adding up one more record of a prefix.
pub proof fn lemma_sum_paid_step(users: Seq<UserInfo>, i: int)
    requires
        0 <= i < users.len(),
    ensures
        sum_paid(users.take(i + 1)) == sum_paid(users.take(i)) + users[i].amount,
{
    assert(users.take(i + 1).drop_last() =~= users.take(i));
}

} // verus!
