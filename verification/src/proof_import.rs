//! The order in which the proof fragments of a block are handed to a node
//! store, and when to stop.
//!
//! The store is not reached from here. The caller hands over one fragment at
//! a time and reports back whether the store took it; this module decides
//! what comes next. Every fragment is tried, in order, until the store
//! refuses one: that ends the import as failed.

use vstd::prelude::*;

verus! {

/// What the caller is to do next.
#[derive(Clone, Copy, Debug, PartialEq, Eq)]
pub enum ImportAction {
    /// Hand the fragment at `index` to the store and report the outcome.
    Import { index: usize },
    /// Every fragment is in the store.
    Finish,
    /// The store refused the fragment at `index`: give up with its error.
    Abort { index: usize },
}

/// How far the import of a block's proof fragments has come.
#[derive(Clone, Copy, Debug, PartialEq, Eq)]
pub struct ProofImport {
    total: usize,
    attempted: usize,
    failed: bool,
}

/// Where the first refusal stands among the outcomes, if there is one.
pub open spec fn first_refusal(outcomes: Seq<bool>) -> Option<int>
    decreases outcomes.len(),
{
    if outcomes.len() == 0 {
        None
    } else {
        match first_refusal(outcomes.drop_last()) {
            Some(i) => Some(i),
            None => if outcomes.last() {
                None
            } else {
                Some(outcomes.len() - 1)
            },
        }
    }
}

impl ProofImport {
    /// The number of fragments to import.
    pub closed spec fn total(&self) -> nat {
        self.total as nat
    }

    /// The number of fragments handed to the store so far.
    pub closed spec fn attempted(&self) -> nat {
        self.attempted as nat
    }

    /// Whether the store refused the last fragment it was handed.
    pub closed spec fn failed(&self) -> bool {
        self.failed
    }

    /// No more fragments are handed over than there are, and a refusal is the
    /// refusal of a fragment. Every state that this module hands out is so.
    #[verifier::type_invariant]
    pub closed spec fn wf(&self) -> bool {
        &&& self.attempted <= self.total
        &&& self.failed ==> self.attempted > 0
    }

    /// What the caller is to do next: nothing more after a refusal, else the
    /// next fragment while there is one.
    pub open spec fn spec_next_action(&self) -> ImportAction {
        if self.failed() {
            ImportAction::Abort { index: (self.attempted() - 1) as usize }
        } else if self.attempted() < self.total() {
            ImportAction::Import { index: self.attempted() as usize }
        } else {
            ImportAction::Finish
        }
    }

    /// The state after the outcome `stored` is reported: one more fragment
    /// was handed over, where one was asked for. A report that nothing asked
    /// for changes nothing.
    pub open spec fn spec_record(self, stored: bool) -> ProofImport {
        if self.spec_next_action() is Import {
            ProofImport::spec_at(self.total(), self.attempted() + 1, !stored)
        } else {
            self
        }
    }

    /// The state with the given counts.
    pub closed spec fn spec_at(total: nat, attempted: nat, failed: bool) -> ProofImport {
        ProofImport { total: total as usize, attempted: attempted as usize, failed }
    }

    /// The state after the outcomes are reported one by one, from the start.
    pub open spec fn spec_after(total: usize, outcomes: Seq<bool>) -> ProofImport
        decreases outcomes.len(),
    {
        if outcomes.len() == 0 {
            ProofImport::spec_at(total as nat, 0, false)
        } else {
            ProofImport::spec_after(total, outcomes.drop_last()).spec_record(outcomes.last())
        }
    }

    /// The import of `total` fragments, none of them handed over yet.
    pub fn new(total: usize) -> (r: ProofImport)
        ensures
            r == ProofImport::spec_at(total as nat, 0, false),
            r.total() == total,
            r.attempted() == 0,
            !r.failed(),
    {
        ProofImport { total, attempted: 0, failed: false }
    }

    /// What the caller is to do next.
    pub fn next_action(&self) -> (r: ImportAction)
        ensures
            r == self.spec_next_action(),
    {
        proof {
            use_type_invariant(self);
        }
        if self.failed {
            ImportAction::Abort { index: self.attempted - 1 }
        } else if self.attempted < self.total {
            ImportAction::Import { index: self.attempted }
        } else {
            ImportAction::Finish
        }
    }

    /// Takes the store's answer for the fragment that `next_action` asked to
    /// import.
    pub fn record(&mut self, stored: bool)
        ensures
            *final(self) == old(self).spec_record(stored),
            final(self).total() == old(self).total(),
            old(self).spec_next_action() is Import ==> final(self).attempted() == old(
                self,
            ).attempted() + 1 && final(self).failed() == !stored,
    {
        proof {
            use_type_invariant(&*self);
        }
        if !self.failed && self.attempted < self.total {
            *self = ProofImport {
                total: self.total,
                attempted: self.attempted + 1,
                failed: !stored,
            };
        }
    }
}

/// The counts of a state are the counts it was made with.
pub proof fn lemma_spec_at(total: usize, attempted: usize, failed: bool)
    ensures
        ProofImport::spec_at(total as nat, attempted as nat, failed).total() == total,
        ProofImport::spec_at(total as nat, attempted as nat, failed).attempted() == attempted,
        ProofImport::spec_at(total as nat, attempted as nat, failed).failed() == failed,
{
}

/// Driven by the store's answers, the import asks for the fragments in
/// order, one for each answer, as long as the store takes them. It finishes
/// when all are taken, and it fails exactly when the store refuses one: with
/// the first refusal, whatever is reported after it.
pub proof fn lemma_import_run(total: usize, outcomes: Seq<bool>)
    requires
        outcomes.len() <= total,
    ensures
        ProofImport::spec_after(total, outcomes).wf(),
        ProofImport::spec_after(total, outcomes).total() == total,
        ProofImport::spec_after(total, outcomes).spec_next_action() == match first_refusal(
            outcomes,
        ) {
            Some(i) => ImportAction::Abort { index: i as usize },
            None => if outcomes.len() < total {
                ImportAction::Import { index: outcomes.len() as usize }
            } else {
                ImportAction::Finish
            },
        },
        first_refusal(outcomes) matches Some(i) ==> 0 <= i < outcomes.len() && !outcomes[i]
            && ProofImport::spec_after(total, outcomes).attempted() == i + 1,
        first_refusal(outcomes) is None ==> ProofImport::spec_after(total, outcomes).attempted()
            == outcomes.len(),
        first_refusal(outcomes) is None <==> forall|i: int|
            0 <= i < outcomes.len() ==> outcomes[i],
    decreases outcomes.len(),
{
    if outcomes.len() > 0 {
        let rest = outcomes.drop_last();
        lemma_import_run(total, rest);
        assert(forall|i: int| 0 <= i < rest.len() ==> rest[i] == outcomes[i]);
        let before = ProofImport::spec_after(total, rest);
        if first_refusal(rest) is None {
            lemma_spec_at(total, (before.attempted() + 1) as usize, !outcomes.last());
        }
    } else {
        lemma_spec_at(total, 0, false);
    }
}

} // verus!
