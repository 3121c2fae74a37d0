//! Holding the account states that a trace claims against those that local
//! execution arrived at.
//!
//! A difference between the two is an expected outcome, not a failure: every
//! claim is looked at and every difference is reported. Only a local state
//! that could not be read ends the check early.

use crate::primitives::{Address, B256, U256};
use vstd::prelude::*;

verus! {

/// An account as local execution left it.
#[derive(Clone, Copy, Debug, PartialEq, Eq)]
pub struct AccountInfo {
    pub balance: U256,
    pub nonce: u64,
    /// The hash of the code under the Poseidon scheme.
    pub code_hash: B256,
    /// The hash of the code under the Keccak scheme.
    pub keccak_code_hash: B256,
    /// Whether the account has code.
    pub has_code: bool,
}

/// An account as the trace claims it to be after the block.
///
/// A code hash of zero, under either scheme, is no hash: it says that the
/// account has no code and is empty otherwise too.
#[derive(Clone, Copy, Debug, PartialEq, Eq)]
pub struct AccountPostState {
    pub address: Address,
    pub balance: U256,
    pub nonce: u64,
    pub poseidon_code_hash: B256,
    pub keccak_code_hash: B256,
}

/// What reading the local state at a claim's address gave.
#[derive(Clone, Copy, Debug, PartialEq, Eq)]
pub enum AccountLookup {
    Found(AccountInfo),
    /// The local state holds no such account.
    Absent,
    /// The local state could not be read.
    Failed,
}

/// A claim together with what the local state holds at its address.
#[derive(Clone, Copy, Debug, PartialEq, Eq)]
pub struct CheckedAccount {
    pub claim: AccountPostState,
    pub local: AccountLookup,
}

/// One field of one account in which claim and local state differ, with both
/// values.
#[derive(Clone, Copy, Debug, PartialEq, Eq)]
pub enum Mismatch {
    Balance { address: Address, local: U256, claimed: U256 },
    Nonce { address: Address, local: u64, claimed: u64 },
    PoseidonCodeHash { address: Address, local: B256, claimed: B256 },
    KeccakCodeHash { address: Address, local: B256, claimed: B256 },
}

/// How far a local balance is from the claimed one, and on which side.
#[derive(Clone, Copy, Debug, PartialEq, Eq)]
pub struct BalanceGap {
    /// Whether the local balance is the lower one.
    pub local_is_lower: bool,
    pub amount: U256,
}

/// Why a check ended before every claim was looked at.
#[derive(Clone, Copy, Debug, PartialEq, Eq)]
pub enum PostCheckError {
    /// The local state could not be read for the claim at `index`.
    AccessorFailed { index: usize, address: Address },
}

/// Every difference between the claims and the local state, in the order of
/// the claims; for one account in the order balance, nonce, Poseidon code
/// hash, Keccak code hash.
#[derive(Clone, Debug, PartialEq, Eq)]
pub struct PostCheckReport {
    pub mismatches: Vec<Mismatch>,
}

impl AccountInfo {
    /// The account that the local state holds where it holds none: no balance,
    /// nonce zero, no code, and no code hash under either scheme.
    pub open spec fn spec_empty() -> AccountInfo {
        AccountInfo {
            balance: U256::spec_zero(),
            nonce: 0,
            code_hash: B256::spec_zero(),
            keccak_code_hash: B256::spec_zero(),
            has_code: false,
        }
    }

    /// The account that the local state holds where it holds none.
    #[verifier::when_used_as_spec(spec_empty)]
    pub fn empty() -> (r: AccountInfo)
        ensures
            r == AccountInfo::spec_empty(),
            r.spec_is_empty(),
    {
        AccountInfo {
            balance: U256::zero(),
            nonce: 0,
            code_hash: B256::zero(),
            keccak_code_hash: B256::zero(),
            has_code: false,
        }
    }

    /// Whether the account is empty: no code, nonce zero and no balance.
    pub open spec fn spec_is_empty(&self) -> bool {
        !self.has_code && self.nonce == 0 && self.balance@ == 0
    }

    /// Whether the account is empty: no code, nonce zero and no balance.
    #[verifier::when_used_as_spec(spec_is_empty)]
    pub fn is_empty(&self) -> (r: bool)
        ensures
            r == self.spec_is_empty(),
    {
        !self.has_code && self.nonce == 0 && self.balance.is_zero()
    }
}

/// The account that a lookup stands for: an absent account is the empty one.
/// A failed lookup stands for none.
pub open spec fn local_account(lookup: AccountLookup) -> AccountInfo {
    match lookup {
        AccountLookup::Found(account) => account,
        _ => AccountInfo::spec_empty(),
    }
}

/// Whether a claimed code hash agrees with the local account, whose hash
/// under the same scheme is `local_hash`: a claim of zero asks for an empty
/// account, any other for that very hash.
pub open spec fn code_hash_agrees(claimed: B256, local_hash: B256, local: AccountInfo) -> bool {
    if claimed.spec_is_zero() {
        local.spec_is_empty()
    } else {
        local_hash == claimed
    }
}

/// Whether all four claimed fields agree with the local account.
pub open spec fn claim_agrees(local: AccountInfo, claim: AccountPostState) -> bool {
    &&& local.balance@ == claim.balance@
    &&& local.nonce == claim.nonce
    &&& code_hash_agrees(claim.poseidon_code_hash, local.code_hash, local)
    &&& code_hash_agrees(claim.keccak_code_hash, local.keccak_code_hash, local)
}

/// The differences between one claim and the local account, each field judged
/// by itself.
pub open spec fn account_mismatches(local: AccountInfo, claim: AccountPostState) -> Seq<Mismatch> {
    let balance = if local.balance@ != claim.balance@ {
        seq![
            Mismatch::Balance {
                address: claim.address,
                local: local.balance,
                claimed: claim.balance,
            },
        ]
    } else {
        Seq::empty()
    };
    let nonce = if local.nonce != claim.nonce {
        seq![Mismatch::Nonce { address: claim.address, local: local.nonce, claimed: claim.nonce }]
    } else {
        Seq::empty()
    };
    let poseidon = if !code_hash_agrees(claim.poseidon_code_hash, local.code_hash, local) {
        seq![
            Mismatch::PoseidonCodeHash {
                address: claim.address,
                local: local.code_hash,
                claimed: claim.poseidon_code_hash,
            },
        ]
    } else {
        Seq::empty()
    };
    let keccak = if !code_hash_agrees(claim.keccak_code_hash, local.keccak_code_hash, local) {
        seq![
            Mismatch::KeccakCodeHash {
                address: claim.address,
                local: local.keccak_code_hash,
                claimed: claim.keccak_code_hash,
            },
        ]
    } else {
        Seq::empty()
    };
    balance + nonce + poseidon + keccak
}

/// The differences of all the accounts, in their order.
pub open spec fn all_mismatches(accounts: Seq<CheckedAccount>) -> Seq<Mismatch>
    decreases accounts.len(),
{
    if accounts.len() == 0 {
        Seq::empty()
    } else {
        all_mismatches(accounts.drop_last()) + account_mismatches(
            local_account(accounts.last().local),
            accounts.last().claim,
        )
    }
}

/// The place of the first account whose lookup failed, if any did.
pub open spec fn first_failed(accounts: Seq<CheckedAccount>) -> Option<int>
    decreases accounts.len(),
{
    if accounts.len() == 0 {
        None
    } else {
        match first_failed(accounts.drop_last()) {
            Some(i) => Some(i),
            None => if accounts.last().local is Failed {
                Some(accounts.len() - 1)
            } else {
                None
            },
        }
    }
}

impl Mismatch {
    /// The account that the difference is in.
    pub fn address(&self) -> (r: Address)
        ensures
            r == match *self {
                Mismatch::Balance { address, .. } => address,
                Mismatch::Nonce { address, .. } => address,
                Mismatch::PoseidonCodeHash { address, .. } => address,
                Mismatch::KeccakCodeHash { address, .. } => address,
            },
    {
        match self {
            Mismatch::Balance { address, .. } => *address,
            Mismatch::Nonce { address, .. } => *address,
            Mismatch::PoseidonCodeHash { address, .. } => *address,
            Mismatch::KeccakCodeHash { address, .. } => *address,
        }
    }

    /// For a difference in balance, on which side the local balance is and
    /// how far off.
    pub fn balance_gap(&self) -> (r: Option<BalanceGap>)
        ensures
            match *self {
                Mismatch::Balance { local, claimed, .. } => {
                    &&& r matches Some(gap)
                    &&& gap.local_is_lower == (local@ < claimed@)
                    &&& gap.amount@ == if local@ < claimed@ {
                        claimed@ - local@
                    } else {
                        local@ - claimed@
                    }
                },
                _ => r is None,
            },
    {
        match self {
            Mismatch::Balance { local, claimed, .. } => Some(
                BalanceGap { local_is_lower: local.lt(claimed), amount: local.abs_diff(claimed) },
            ),
            _ => None,
        }
    }
}

impl PostCheckReport {
    /// Whether claims and local state agree in everything.
    pub fn is_ok(&self) -> (r: bool)
        ensures
            r == (self.mismatches@.len() == 0),
    {
        self.mismatches.len() == 0
    }
}

/// Whether a claimed code hash agrees with the local account.
pub fn check_code_hash(claimed: &B256, local_hash: &B256, local: &AccountInfo) -> (r: bool)
    ensures
        r == code_hash_agrees(*claimed, *local_hash, *local),
{
    if claimed.is_zero() {
        local.is_empty()
    } else {
        local_hash.equals(claimed)
    }
}

/// Appends to `out` the differences between one claim and the local account.
pub fn check_account(local: &AccountInfo, claim: &AccountPostState, out: &mut Vec<Mismatch>)
    ensures
        final(out)@ == old(out)@ + account_mismatches(*local, *claim),
{
    let ghost before = out@;
    if !local.balance.equals(&claim.balance) {
        out.push(
            Mismatch::Balance {
                address: claim.address,
                local: local.balance,
                claimed: claim.balance,
            },
        );
    }
    if local.nonce != claim.nonce {
        out.push(
            Mismatch::Nonce { address: claim.address, local: local.nonce, claimed: claim.nonce },
        );
    }
    if !check_code_hash(&claim.poseidon_code_hash, &local.code_hash, local) {
        out.push(
            Mismatch::PoseidonCodeHash {
                address: claim.address,
                local: local.code_hash,
                claimed: claim.poseidon_code_hash,
            },
        );
    }
    if !check_code_hash(&claim.keccak_code_hash, &local.keccak_code_hash, local) {
        out.push(
            Mismatch::KeccakCodeHash {
                address: claim.address,
                local: local.keccak_code_hash,
                claimed: claim.keccak_code_hash,
            },
        );
    }
    assert(out@ =~= before + account_mismatches(*local, *claim));
}

/// Holds every claim against the local state.
///
/// Where a lookup failed, the check ends with the first such account and no
/// report. Else every claim is looked at, and the report holds every
/// difference found: it is empty exactly when claims and local state agree.
pub fn post_check(accounts: &Vec<CheckedAccount>) -> (r: Result<PostCheckReport, PostCheckError>)
    ensures
        match r {
            Ok(report) => first_failed(accounts@) is None && report.mismatches@ == all_mismatches(
                accounts@,
            ),
            Err(PostCheckError::AccessorFailed { index, address }) => first_failed(accounts@)
                == Some(index as int) && index < accounts.len() && address
                == accounts[index as int].claim.address,
        },
{
    let mut mismatches: Vec<Mismatch> = Vec::new();
    let mut i: usize = 0;
    while i < accounts.len()
        invariant
            i <= accounts.len(),
            first_failed(accounts@.take(i as int)) is None,
            mismatches@ == all_mismatches(accounts@.take(i as int)),
        decreases accounts.len() - i,
    {
        assert(accounts@.take(i + 1).drop_last() == accounts@.take(i as int));
        let local: AccountInfo = match accounts[i].local {
            AccountLookup::Found(account) => account,
            AccountLookup::Absent => AccountInfo::empty(),
            AccountLookup::Failed => {
                proof {
                    lemma_first_failed_prefix(accounts@, i + 1);
                }
                return Err(
                    PostCheckError::AccessorFailed { index: i, address: accounts[i].claim.address },
                );
            },
        };
        check_account(&local, &accounts[i].claim, &mut mismatches);
        i = i + 1;
    }
    assert(accounts@.take(i as int) == accounts@);
    Ok(PostCheckReport { mismatches })
}

/// The check goes through exactly when no lookup failed; else it ends with
/// the first account whose lookup failed.
pub proof fn lemma_first_failed(accounts: Seq<CheckedAccount>)
    ensures
        first_failed(accounts) is None <==> forall|i: int|
            0 <= i < accounts.len() ==> !((#[trigger] accounts[i]).local is Failed),
        first_failed(accounts) matches Some(k) ==> {
            &&& 0 <= k < accounts.len()
            &&& accounts[k].local is Failed
            &&& forall|i: int| 0 <= i < k ==> !((#[trigger] accounts[i]).local is Failed)
        },
    decreases accounts.len(),
{
    if accounts.len() > 0 {
        let rest = accounts.drop_last();
        lemma_first_failed(rest);
        assert(forall|i: int| 0 <= i < rest.len() ==> rest[i] == accounts[i]);
        if first_failed(rest) is None && !(accounts.last().local is Failed) {
            assert forall|i: int| 0 <= i < accounts.len() implies !((
            #[trigger] accounts[i]).local is Failed) by {
                if i < rest.len() {
                    assert(rest[i] == accounts[i]);
                }
            }
        }
    }
}

/// A failed lookup among the first `n` accounts is the first failed lookup of
/// all of them.
pub proof fn lemma_first_failed_prefix(accounts: Seq<CheckedAccount>, n: int)
    requires
        0 <= n <= accounts.len(),
        first_failed(accounts.take(n)) is Some,
    ensures
        first_failed(accounts) == first_failed(accounts.take(n)),
    decreases accounts.len() - n,
{
    if n < accounts.len() {
        assert(accounts.take(n + 1).drop_last() == accounts.take(n));
        lemma_first_failed_prefix(accounts, n + 1);
    } else {
        assert(accounts.take(n) == accounts);
    }
}

/// One account brings no difference exactly when all four claimed fields
/// agree with it.
pub proof fn lemma_account_agrees(local: AccountInfo, claim: AccountPostState)
    ensures
        account_mismatches(local, claim).len() == 0 <==> claim_agrees(local, claim),
        account_mismatches(local, claim).len() <= 4,
{
}

/// The report is empty exactly when every claim agrees with the local state
/// in all four fields.
pub proof fn lemma_report_empty_iff_agree(accounts: Seq<CheckedAccount>)
    ensures
        all_mismatches(accounts).len() == 0 <==> forall|i: int|
            0 <= i < accounts.len() ==> claim_agrees(
                local_account((#[trigger] accounts[i]).local),
                accounts[i].claim,
            ),
    decreases accounts.len(),
{
    if accounts.len() > 0 {
        let rest = accounts.drop_last();
        lemma_report_empty_iff_agree(rest);
        lemma_account_agrees(local_account(accounts.last().local), accounts.last().claim);
        assert(forall|i: int| 0 <= i < rest.len() ==> rest[i] == accounts[i]);
        if all_mismatches(accounts).len() == 0 {
            assert forall|i: int| 0 <= i < accounts.len() implies claim_agrees(
                local_account((#[trigger] accounts[i]).local),
                accounts[i].claim,
            ) by {
                if i < rest.len() {
                    assert(rest[i] == accounts[i]);
                }
            }
        }
    }
}

/// Where one account differs in its nonce and in nothing else, and every
/// other account agrees, the report holds one entry: that nonce, under that
/// account's address. The other accounts are looked at all the same.
pub proof fn lemma_single_nonce_mismatch(accounts: Seq<CheckedAccount>, k: int)
    requires
        0 <= k < accounts.len(),
        forall|i: int|
            0 <= i < accounts.len() && i != k ==> claim_agrees(
                local_account((#[trigger] accounts[i]).local),
                accounts[i].claim,
            ),
        ({
            let local = local_account(accounts[k].local);
            let claim = accounts[k].claim;
            &&& local.nonce != claim.nonce
            &&& local.balance@ == claim.balance@
            &&& code_hash_agrees(claim.poseidon_code_hash, local.code_hash, local)
            &&& code_hash_agrees(claim.keccak_code_hash, local.keccak_code_hash, local)
        }),
    ensures
        all_mismatches(accounts) == seq![
            Mismatch::Nonce {
                address: accounts[k].claim.address,
                local: local_account(accounts[k].local).nonce,
                claimed: accounts[k].claim.nonce,
            },
        ],
    decreases accounts.len(),
{
    let rest = accounts.drop_last();
    let n = accounts.len() - 1;
    assert(forall|i: int| 0 <= i < n ==> rest[i] == accounts[i]);
    if k == n {
        lemma_report_empty_iff_agree(rest);
        assert(all_mismatches(rest) =~= Seq::<Mismatch>::empty());
        assert(all_mismatches(accounts) =~= account_mismatches(
            local_account(accounts[k].local),
            accounts[k].claim,
        ));
    } else {
        lemma_single_nonce_mismatch(rest, k);
        lemma_account_agrees(local_account(accounts.last().local), accounts.last().claim);
        assert(account_mismatches(local_account(accounts.last().local), accounts.last().claim)
            =~= Seq::<Mismatch>::empty());
        assert(all_mismatches(accounts) =~= all_mismatches(rest));
    }
}

/// Whether the Poseidon code hash is reported does not depend on anything
/// that is claimed of the Keccak code hash, nor the other way round. A claim
/// of zero for an account that has code is always reported, under the scheme
/// that claimed it.
pub proof fn lemma_code_hashes_are_judged_apart(
    local: AccountInfo,
    claim: AccountPostState,
    other_hash: B256,
)
    ensures
        ({
            let poseidon = Mismatch::PoseidonCodeHash {
                address: claim.address,
                local: local.code_hash,
                claimed: claim.poseidon_code_hash,
            };
            let keccak = Mismatch::KeccakCodeHash {
                address: claim.address,
                local: local.keccak_code_hash,
                claimed: claim.keccak_code_hash,
            };
            let with_keccak = AccountPostState { keccak_code_hash: other_hash, ..claim };
            let with_poseidon = AccountPostState { poseidon_code_hash: other_hash, ..claim };
            &&& account_mismatches(local, claim).contains(poseidon) == account_mismatches(
                local,
                with_keccak,
            ).contains(poseidon)
            &&& account_mismatches(local, claim).contains(keccak) == account_mismatches(
                local,
                with_poseidon,
            ).contains(keccak)
            &&& claim.poseidon_code_hash.spec_is_zero() && local.has_code ==> account_mismatches(
                local,
                claim,
            ).contains(poseidon)
            &&& claim.keccak_code_hash.spec_is_zero() && local.has_code ==> account_mismatches(
                local,
                claim,
            ).contains(keccak)
        }),
{
    let poseidon = Mismatch::PoseidonCodeHash {
        address: claim.address,
        local: local.code_hash,
        claimed: claim.poseidon_code_hash,
    };
    let keccak = Mismatch::KeccakCodeHash {
        address: claim.address,
        local: local.keccak_code_hash,
        claimed: claim.keccak_code_hash,
    };
    let with_keccak = AccountPostState { keccak_code_hash: other_hash, ..claim };
    let with_poseidon = AccountPostState { poseidon_code_hash: other_hash, ..claim };
    lemma_mismatch_membership(local, claim);
    lemma_mismatch_membership(local, with_keccak);
    lemma_mismatch_membership(local, with_poseidon);
}

/// Which entries the differences of one account hold: one for each field
/// that disagrees, and no other.
pub proof fn lemma_mismatch_membership(local: AccountInfo, claim: AccountPostState)
    ensures
        forall|m: Mismatch| #[trigger]
            account_mismatches(local, claim).contains(m) <==> {
                ||| (local.balance@ != claim.balance@ && m == Mismatch::Balance {
                    address: claim.address,
                    local: local.balance,
                    claimed: claim.balance,
                })
                ||| (local.nonce != claim.nonce && m == Mismatch::Nonce {
                    address: claim.address,
                    local: local.nonce,
                    claimed: claim.nonce,
                })
                ||| (!code_hash_agrees(claim.poseidon_code_hash, local.code_hash, local) && m
                    == Mismatch::PoseidonCodeHash {
                    address: claim.address,
                    local: local.code_hash,
                    claimed: claim.poseidon_code_hash,
                })
                ||| (!code_hash_agrees(claim.keccak_code_hash, local.keccak_code_hash, local) && m
                    == Mismatch::KeccakCodeHash {
                    address: claim.address,
                    local: local.keccak_code_hash,
                    claimed: claim.keccak_code_hash,
                })
            },
{
    let s = account_mismatches(local, claim);
    let balance = Mismatch::Balance {
        address: claim.address,
        local: local.balance,
        claimed: claim.balance,
    };
    let nonce = Mismatch::Nonce {
        address: claim.address,
        local: local.nonce,
        claimed: claim.nonce,
    };
    let poseidon = Mismatch::PoseidonCodeHash {
        address: claim.address,
        local: local.code_hash,
        claimed: claim.poseidon_code_hash,
    };
    let keccak = Mismatch::KeccakCodeHash {
        address: claim.address,
        local: local.keccak_code_hash,
        claimed: claim.keccak_code_hash,
    };
    let b = local.balance@ != claim.balance@;
    let n = local.nonce != claim.nonce;
    let p = !code_hash_agrees(claim.poseidon_code_hash, local.code_hash, local);
    let k = !code_hash_agrees(claim.keccak_code_hash, local.keccak_code_hash, local);
    let nb: int = if b { 1 } else { 0 };
    let nn: int = if n { 1 } else { 0 };
    let np: int = if p { 1 } else { 0 };
    assert(s.len() == nb + nn + np + if k { 1int } else { 0int });
    if b {
        assert(s[0] == balance);
    }
    if n {
        assert(s[nb] == nonce);
    }
    if p {
        assert(s[nb + nn] == poseidon);
    }
    if k {
        assert(s[nb + nn + np] == keccak);
    }
    assert forall|m: Mismatch| #[trigger] s.contains(m) implies (b && m == balance) || (n && m
        == nonce) || (p && m == poseidon) || (k && m == keccak) by {
        let i = choose|i: int| 0 <= i < s.len() && s[i] == m;
        assert(0 <= i < s.len());
    }
}

} // verus!
