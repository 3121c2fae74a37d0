//! The proofs of a trace as a node hands them out: one list of fragments for
//! every account that the block touches, and one for every storage slot.
//!
//! A node store takes fragments one by one and does not ask which path a
//! fragment belongs to. So the per-account and per-slot lists are laid out as
//! one list, which holds every fragment of every list.

use crate::bytes::{byte_strings, copy_bytes};
use crate::primitives::{Address, B256};
use vstd::prelude::*;

verus! {

/// The proof of one account: the trie nodes on the path to it.
#[derive(Clone, Debug, PartialEq, Eq)]
pub struct AccountProof {
    pub address: Address,
    pub fragments: Vec<Vec<u8>>,
}

/// The proof of one storage slot: the trie nodes on the path to it.
#[derive(Clone, Debug, PartialEq, Eq)]
pub struct SlotProof {
    pub key: B256,
    pub fragments: Vec<Vec<u8>>,
}

/// The proofs of the storage slots of one account.
#[derive(Clone, Debug, PartialEq, Eq)]
pub struct StorageProofs {
    pub address: Address,
    pub slots: Vec<SlotProof>,
}

/// The state roots around a block and the proofs that open the state before
/// it.
#[derive(Clone, Debug, PartialEq, Eq)]
pub struct StorageTrace {
    pub root_before: B256,
    pub root_after: B256,
    pub proofs: Vec<AccountProof>,
    pub storage_proofs: Vec<StorageProofs>,
}

/// The proof of one storage slot, with the account that the slot is of.
pub struct SlotProofEntry {
    pub address: Address,
    pub key: B256,
    pub fragments: Seq<Seq<u8>>,
}

/// The fragments of all account proofs, account after account.
pub open spec fn account_fragments(proofs: Seq<AccountProof>) -> Seq<Seq<u8>>
    decreases proofs.len(),
{
    if proofs.len() == 0 {
        Seq::empty()
    } else {
        account_fragments(proofs.drop_last()) + byte_strings(proofs.last().fragments@)
    }
}

/// The fragments of the slot proofs of one account, slot after slot.
pub open spec fn slot_fragments(slots: Seq<SlotProof>) -> Seq<Seq<u8>>
    decreases slots.len(),
{
    if slots.len() == 0 {
        Seq::empty()
    } else {
        slot_fragments(slots.drop_last()) + byte_strings(slots.last().fragments@)
    }
}

/// The fragments of all slot proofs, account after account.
pub open spec fn storage_fragments(accounts: Seq<StorageProofs>) -> Seq<Seq<u8>>
    decreases accounts.len(),
{
    if accounts.len() == 0 {
        Seq::empty()
    } else {
        storage_fragments(accounts.drop_last()) + slot_fragments(accounts.last().slots@)
    }
}

/// Every fragment of a trace: those of the account proofs, then those of the
/// slot proofs.
pub open spec fn all_fragments(trace: StorageTrace) -> Seq<Seq<u8>> {
    account_fragments(trace.proofs@) + storage_fragments(trace.storage_proofs@)
}

/// The slot proofs of one account, each with the account's address.
pub open spec fn slot_entries(address: Address, slots: Seq<SlotProof>) -> Seq<SlotProofEntry> {
    Seq::new(
        slots.len(),
        |i: int|
            SlotProofEntry {
                address,
                key: slots[i].key,
                fragments: byte_strings(slots[i].fragments@),
            },
    )
}

/// The slot proofs of all accounts, account after account.
pub open spec fn storage_entries(accounts: Seq<StorageProofs>) -> Seq<SlotProofEntry>
    decreases accounts.len(),
{
    if accounts.len() == 0 {
        Seq::empty()
    } else {
        storage_entries(accounts.drop_last()) + slot_entries(
            accounts.last().address,
            accounts.last().slots@,
        )
    }
}

/// What a list of slot proofs with their accounts holds.
pub open spec fn entries_view(list: Seq<(Address, B256, &Vec<Vec<u8>>)>) -> Seq<SlotProofEntry> {
    Seq::new(
        list.len(),
        |i: int|
            SlotProofEntry {
                address: list[i].0,
                key: list[i].1,
                fragments: byte_strings(list[i].2@),
            },
    )
}

/// The account proofs of a trace, one entry for each account, in the order of
/// the trace.
pub fn collect_account_proofs(trace: &StorageTrace) -> (r: Vec<(Address, &Vec<Vec<u8>>)>)
    ensures
        r.len() == trace.proofs.len(),
        forall|i: int|
            0 <= i < r.len() ==> (#[trigger] r[i]).0 == trace.proofs[i].address && *r[i].1
                == trace.proofs[i].fragments,
{
    let mut r: Vec<(Address, &Vec<Vec<u8>>)> = Vec::new();
    let mut i: usize = 0;
    while i < trace.proofs.len()
        invariant
            i <= trace.proofs.len(),
            r.len() == i,
            forall|j: int|
                0 <= j < i ==> (#[trigger] r[j]).0 == trace.proofs[j].address && *r[j].1
                    == trace.proofs[j].fragments,
        decreases trace.proofs.len() - i,
    {
        r.push((trace.proofs[i].address, &trace.proofs[i].fragments));
        i = i + 1;
    }
    r
}

/// The slot proofs of a trace, one entry for each slot of each account, in
/// the order of the trace.
pub fn collect_storage_proofs(trace: &StorageTrace) -> (r: Vec<(Address, B256, &Vec<Vec<u8>>)>)
    ensures
        entries_view(r@) == storage_entries(trace.storage_proofs@),
{
    let mut r: Vec<(Address, B256, &Vec<Vec<u8>>)> = Vec::new();
    let mut i: usize = 0;
    assert(entries_view(r@) =~= storage_entries(trace.storage_proofs@.take(0)));
    while i < trace.storage_proofs.len()
        invariant
            i <= trace.storage_proofs.len(),
            entries_view(r@) == storage_entries(trace.storage_proofs@.take(i as int)),
        decreases trace.storage_proofs.len() - i,
    {
        let account = &trace.storage_proofs[i];
        let ghost before = entries_view(r@);
        let mut k: usize = 0;
        assert(before + slot_entries(account.address, account.slots@.take(0)) =~= before);
        while k < account.slots.len()
            invariant
                k <= account.slots.len(),
                entries_view(r@) == before + slot_entries(
                    account.address,
                    account.slots@.take(k as int),
                ),
            decreases account.slots.len() - k,
        {
            let ghost held = entries_view(r@);
            r.push((account.address, account.slots[k].key, &account.slots[k].fragments));
            assert(entries_view(r@) =~= held.push(
                SlotProofEntry {
                    address: account.address,
                    key: account.slots[k as int].key,
                    fragments: byte_strings(account.slots[k as int].fragments@),
                },
            ));
            assert(slot_entries(account.address, account.slots@.take(k + 1)) =~= slot_entries(
                account.address,
                account.slots@.take(k as int),
            ).push(
                SlotProofEntry {
                    address: account.address,
                    key: account.slots[k as int].key,
                    fragments: byte_strings(account.slots[k as int].fragments@),
                },
            ));
            k = k + 1;
        }
        assert(account.slots@.take(k as int) == account.slots@);
        assert(trace.storage_proofs@.take(i + 1).drop_last() == trace.storage_proofs@.take(
            i as int,
        ));
        assert(trace.storage_proofs@.take(i + 1).last() == *account);
        i = i + 1;
    }
    assert(trace.storage_proofs@.take(i as int) == trace.storage_proofs@);
    r
}

/// Appends a copy of every fragment of `fragments` to `out`.
fn append_fragments(out: &mut Vec<Vec<u8>>, fragments: &Vec<Vec<u8>>)
    ensures
        byte_strings(final(out)@) == byte_strings(old(out)@) + byte_strings(fragments@),
{
    let ghost before = byte_strings(out@);
    let mut i: usize = 0;
    assert(byte_strings(out@) =~= before + byte_strings(fragments@).take(0));
    while i < fragments.len()
        invariant
            i <= fragments.len(),
            byte_strings(out@) == before + byte_strings(fragments@).take(i as int),
        decreases fragments.len() - i,
    {
        let ghost held = byte_strings(out@);
        let copy = copy_bytes(&fragments[i]);
        out.push(copy);
        assert(byte_strings(out@) =~= held.push(fragments[i as int]@));
        assert(byte_strings(fragments@).take(i + 1) =~= byte_strings(fragments@).take(
            i as int,
        ).push(fragments[i as int]@));
        i = i + 1;
    }
    assert(byte_strings(fragments@).take(i as int) =~= byte_strings(fragments@));
}

/// Every fragment of a trace in one list: those of the account proofs, then
/// those of the slot proofs, each list in the order of the trace.
pub fn flatten_proofs(trace: &StorageTrace) -> (r: Vec<Vec<u8>>)
    ensures
        byte_strings(r@) == all_fragments(*trace),
{
    let mut r: Vec<Vec<u8>> = Vec::new();
    let mut i: usize = 0;
    assert(byte_strings(r@) =~= account_fragments(trace.proofs@.take(0)));
    while i < trace.proofs.len()
        invariant
            i <= trace.proofs.len(),
            byte_strings(r@) == account_fragments(trace.proofs@.take(i as int)),
        decreases trace.proofs.len() - i,
    {
        append_fragments(&mut r, &trace.proofs[i].fragments);
        assert(trace.proofs@.take(i + 1).drop_last() == trace.proofs@.take(i as int));
        i = i + 1;
    }
    assert(trace.proofs@.take(i as int) == trace.proofs@);
    let ghost accounts = byte_strings(r@);
    let mut i: usize = 0;
    assert(accounts + storage_fragments(trace.storage_proofs@.take(0)) =~= accounts);
    while i < trace.storage_proofs.len()
        invariant
            i <= trace.storage_proofs.len(),
            byte_strings(r@) == accounts + storage_fragments(trace.storage_proofs@.take(i as int)),
        decreases trace.storage_proofs.len() - i,
    {
        let account = &trace.storage_proofs[i];
        let ghost before = byte_strings(r@);
        let mut k: usize = 0;
        assert(before + slot_fragments(account.slots@.take(0)) =~= before);
        while k < account.slots.len()
            invariant
                k <= account.slots.len(),
                byte_strings(r@) == before + slot_fragments(account.slots@.take(k as int)),
            decreases account.slots.len() - k,
        {
            append_fragments(&mut r, &account.slots[k].fragments);
            assert(account.slots@.take(k + 1).drop_last() == account.slots@.take(k as int));
            assert(before + (slot_fragments(account.slots@.take(k as int))
                + byte_strings(account.slots[k as int].fragments@)) =~= (before + slot_fragments(
                account.slots@.take(k as int),
            )) + byte_strings(account.slots[k as int].fragments@));
            k = k + 1;
        }
        assert(account.slots@.take(k as int) == account.slots@);
        assert(trace.storage_proofs@.take(i + 1).drop_last() == trace.storage_proofs@.take(
            i as int,
        ));
        assert(accounts + (storage_fragments(trace.storage_proofs@.take(i as int))
            + slot_fragments(account.slots@)) =~= (accounts + storage_fragments(
            trace.storage_proofs@.take(i as int),
        )) + slot_fragments(account.slots@));
        i = i + 1;
    }
    assert(trace.storage_proofs@.take(i as int) == trace.storage_proofs@);
    r
}

/// The one list leaves no fragment out: every fragment of every account proof
/// is in it.
pub proof fn lemma_account_fragment_is_kept(trace: StorageTrace, a: int, f: int)
    requires
        0 <= a < trace.proofs.len(),
        0 <= f < trace.proofs[a].fragments.len(),
    ensures
        all_fragments(trace).contains(trace.proofs[a].fragments[f]@),
{
    lemma_account_fragments_contain(trace.proofs@, a, f);
    let all = all_fragments(trace);
    let part = account_fragments(trace.proofs@);
    let at = choose|i: int| 0 <= i < part.len() && part[i] == trace.proofs[a].fragments[f]@;
    assert(all[at] == part[at]);
}

/// The one list leaves no fragment out: every fragment of every slot proof is
/// in it.
pub proof fn lemma_slot_fragment_is_kept(trace: StorageTrace, a: int, s: int, f: int)
    requires
        0 <= a < trace.storage_proofs.len(),
        0 <= s < trace.storage_proofs[a].slots.len(),
        0 <= f < trace.storage_proofs[a].slots[s].fragments.len(),
    ensures
        all_fragments(trace).contains(trace.storage_proofs[a].slots[s].fragments[f]@),
{
    lemma_storage_fragments_contain(trace.storage_proofs@, a, s, f);
    let all = all_fragments(trace);
    let head = account_fragments(trace.proofs@);
    let part = storage_fragments(trace.storage_proofs@);
    let wanted = trace.storage_proofs[a].slots[s].fragments[f]@;
    let at = choose|i: int| 0 <= i < part.len() && part[i] == wanted;
    assert(all[head.len() + at] == part[at]);
}

/// Every fragment of an account proof is among the fragments of all of them.
proof fn lemma_account_fragments_contain(proofs: Seq<AccountProof>, a: int, f: int)
    requires
        0 <= a < proofs.len(),
        0 <= f < proofs[a].fragments.len(),
    ensures
        account_fragments(proofs).contains(proofs[a].fragments[f]@),
    decreases proofs.len(),
{
    let rest = account_fragments(proofs.drop_last());
    let last = byte_strings(proofs.last().fragments@);
    let all = account_fragments(proofs);
    if a == proofs.len() - 1 {
        assert(all[rest.len() + f] == last[f]);
    } else {
        lemma_account_fragments_contain(proofs.drop_last(), a, f);
        let at = choose|i: int| 0 <= i < rest.len() && rest[i] == proofs[a].fragments[f]@;
        assert(all[at] == rest[at]);
    }
}

/// Every fragment of a slot proof is among the fragments of all slots.
proof fn lemma_slot_fragments_contain(slots: Seq<SlotProof>, s: int, f: int)
    requires
        0 <= s < slots.len(),
        0 <= f < slots[s].fragments.len(),
    ensures
        slot_fragments(slots).contains(slots[s].fragments[f]@),
    decreases slots.len(),
{
    let rest = slot_fragments(slots.drop_last());
    let last = byte_strings(slots.last().fragments@);
    let all = slot_fragments(slots);
    if s == slots.len() - 1 {
        assert(all[rest.len() + f] == last[f]);
    } else {
        lemma_slot_fragments_contain(slots.drop_last(), s, f);
        let at = choose|i: int| 0 <= i < rest.len() && rest[i] == slots[s].fragments[f]@;
        assert(all[at] == rest[at]);
    }
}

/// Every fragment of a slot proof is among the fragments of all accounts'
/// slots.
proof fn lemma_storage_fragments_contain(accounts: Seq<StorageProofs>, a: int, s: int, f: int)
    requires
        0 <= a < accounts.len(),
        0 <= s < accounts[a].slots.len(),
        0 <= f < accounts[a].slots[s].fragments.len(),
    ensures
        storage_fragments(accounts).contains(accounts[a].slots[s].fragments[f]@),
    decreases accounts.len(),
{
    let rest = storage_fragments(accounts.drop_last());
    let last = slot_fragments(accounts.last().slots@);
    let all = storage_fragments(accounts);
    let wanted = accounts[a].slots[s].fragments[f]@;
    if a == accounts.len() - 1 {
        lemma_slot_fragments_contain(accounts.last().slots@, s, f);
        let at = choose|i: int| 0 <= i < last.len() && last[i] == wanted;
        assert(all[rest.len() + at] == last[at]);
    } else {
        lemma_storage_fragments_contain(accounts.drop_last(), a, s, f);
        let at = choose|i: int| 0 <= i < rest.len() && rest[i] == wanted;
        assert(all[at] == rest[at]);
    }
}

} // verus!
