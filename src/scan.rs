//! The invariant verifier: scans indices upward from zero, stops at the first
//! index missing from `Secondary`, and checks that every index before it is
//! present in `Primary` too.
//!
//! The scan is a state machine: it asks for one existence check at a time
//! (`next_action`) and is told the answer (`answer`), so that any store can
//! be scanned with it.

use vstd::prelude::*;
use crate::partition::Partition;
use crate::store::{MemStore, StoreModel};

verus! {

/// The outcome of a verification scan.
#[derive(Clone, Copy, Debug, PartialEq, Eq, Structural)]
pub enum Verdict {
    /// Every index below `gap` is present in both partitions; `gap` is the
    /// first index missing from `Secondary`, or the scan ceiling.
    Consistent { gap: usize },
    /// `index` is present in `Secondary` but missing from `Primary`.
    Violation { index: usize },
}

/// The verdict of a scan that starts at index `i` and stops at `ceiling`.
pub open spec fn scan_from(s: StoreModel, i: usize, ceiling: usize) -> Verdict
    decreases ceiling - i,
{
    if i >= ceiling {
        Verdict::Consistent { gap: ceiling }
    } else if !s.has_record(Partition::Secondary, i) {
        Verdict::Consistent { gap: i }
    } else if !s.has_record(Partition::Primary, i) {
        Verdict::Violation { index: i }
    } else {
        scan_from(s, (i + 1) as usize, ceiling)
    }
}

/// The verdict of a full scan of store `s`, from index zero up to `ceiling`.
pub open spec fn verdict_of(s: StoreModel, ceiling: usize) -> Verdict {
    scan_from(s, 0, ceiling)
}

/// What the verifier needs next.
#[derive(Clone, Copy, Debug, PartialEq, Eq, Structural)]
pub enum VerifyAction {
    /// Check whether record `index` exists in `partition`, and pass the
    /// answer to `Verifier::answer`.
    Probe { partition: Partition, index: usize },
    /// The scan is over.
    Finished(Verdict),
}

/// Where the scan stands.
#[derive(Clone, Copy, Debug, PartialEq, Eq, Structural)]
pub enum ScanStage {
    AskSecondary,
    AskPrimary,
    Done(Verdict),
}

/// The verifier's state: the index under examination and what it waits for.
#[derive(Clone, Copy, Debug, PartialEq, Eq, Structural)]
pub struct Verifier {
    pub ceiling: usize,
    pub next: usize,
    pub stage: ScanStage,
}

impl Verifier {
    /// The verifier's state before any check, for a scan bounded by `ceiling`.
    pub open spec fn start(ceiling: usize) -> Verifier {
        if ceiling == 0 {
            Verifier { ceiling, next: 0, stage: ScanStage::Done(Verdict::Consistent { gap: 0 }) }
        } else {
            Verifier { ceiling, next: 0, stage: ScanStage::AskSecondary }
        }
    }

    /// Whether the scan is over.
    pub open spec fn is_done(self) -> bool {
        self.stage is Done
    }

    /// The action that the verifier asks for in this state.
    pub open spec fn action(self) -> VerifyAction {
        match self.stage {
            ScanStage::AskSecondary => VerifyAction::Probe {
                partition: Partition::Secondary,
                index: self.next,
            },
            ScanStage::AskPrimary => VerifyAction::Probe {
                partition: Partition::Primary,
                index: self.next,
            },
            ScanStage::Done(v) => VerifyAction::Finished(v),
        }
    }

    /// The state after the pending check answered `present`.
    pub open spec fn after(self, present: bool) -> Verifier {
        match self.stage {
            ScanStage::AskSecondary => if present {
                Verifier { stage: ScanStage::AskPrimary, ..self }
            } else {
                Verifier { stage: ScanStage::Done(Verdict::Consistent { gap: self.next }), ..self }
            },
            ScanStage::AskPrimary => if !present {
                Verifier { stage: ScanStage::Done(Verdict::Violation { index: self.next }), ..self }
            } else if self.next + 1 >= self.ceiling {
                Verifier {
                    next: self.ceiling,
                    stage: ScanStage::Done(Verdict::Consistent { gap: self.ceiling }),
                    ..self
                }
            } else {
                Verifier { next: (self.next + 1) as usize, stage: ScanStage::AskSecondary, ..self }
            },
            ScanStage::Done(_) => self,
        }
    }

    /// The state is one that a scan of store `s` reaches: what remains of
    /// the scan leads to the verdict of the full scan.
    pub open spec fn consistent_with(self, s: StoreModel) -> bool {
        &&& self.next <= self.ceiling
        &&& match self.stage {
            ScanStage::AskSecondary => self.next < self.ceiling && scan_from(
                s,
                self.next,
                self.ceiling,
            ) == verdict_of(s, self.ceiling),
            ScanStage::AskPrimary => self.next < self.ceiling && s.has_record(
                Partition::Secondary,
                self.next,
            ) && scan_from(s, self.next, self.ceiling) == verdict_of(s, self.ceiling),
            ScanStage::Done(v) => v == verdict_of(s, self.ceiling),
        }
    }

    /// How much of the scan is left, at most.
    pub open spec fn remaining(self) -> nat {
        match self.stage {
            ScanStage::Done(_) => 0,
            ScanStage::AskPrimary => (2 * (self.ceiling - self.next) - 1) as nat,
            ScanStage::AskSecondary => 2 * (self.ceiling - self.next) as nat,
        }
    }

    /// A verifier about to scan indices `0..ceiling`.
    pub fn new(ceiling: usize) -> (r: Verifier)
        ensures
            r == Verifier::start(ceiling),
    {
        if ceiling == 0 {
            Verifier { ceiling, next: 0, stage: ScanStage::Done(Verdict::Consistent { gap: 0 }) }
        } else {
            Verifier { ceiling, next: 0, stage: ScanStage::AskSecondary }
        }
    }

    /// The check that the verifier needs next, or its verdict.
    pub fn next_action(&self) -> (r: VerifyAction)
        ensures
            r == self.action(),
    {
        match self.stage {
            ScanStage::AskSecondary => VerifyAction::Probe {
                partition: Partition::Secondary,
                index: self.next,
            },
            ScanStage::AskPrimary => VerifyAction::Probe {
                partition: Partition::Primary,
                index: self.next,
            },
            ScanStage::Done(v) => VerifyAction::Finished(v),
        }
    }

    /// Takes the answer of the pending existence check.
    pub fn answer(&mut self, present: bool)
        requires
            old(self).next <= old(self).ceiling,
        ensures
            *final(self) == old(self).after(present),
    {
        match self.stage {
            ScanStage::AskSecondary => {
                if present {
                    self.stage = ScanStage::AskPrimary;
                } else {
                    self.stage = ScanStage::Done(Verdict::Consistent { gap: self.next });
                }
            },
            ScanStage::AskPrimary => {
                if !present {
                    self.stage = ScanStage::Done(Verdict::Violation { index: self.next });
                } else if self.ceiling - self.next <= 1 {
                    self.next = self.ceiling;
                    self.stage = ScanStage::Done(Verdict::Consistent { gap: self.ceiling });
                } else {
                    self.next = self.next + 1;
                    self.stage = ScanStage::AskSecondary;
                }
            },
            ScanStage::Done(_) => {},
        }
    }
}

/// A fresh verifier is consistent with every store.
pub proof fn start_is_consistent(s: StoreModel, ceiling: usize)
    ensures
        Verifier::start(ceiling).consistent_with(s),
{
}

/// Answering the pending check truthfully against store `s` keeps the
/// verifier consistent with `s`, and brings the scan closer to its end.
pub proof fn answer_keeps_consistent(v: Verifier, s: StoreModel, present: bool)
    requires
        v.consistent_with(s),
        !v.is_done(),
        v.action() matches VerifyAction::Probe { partition, index } ==> present == s.has_record(
            partition,
            index,
        ),
    ensures
        v.after(present).consistent_with(s),
        v.after(present).remaining() < v.remaining(),
{
}

/// What a verdict claims of store `s` for a scan bounded by `ceiling`.
pub open spec fn verdict_holds(s: StoreModel, v: Verdict, ceiling: usize) -> bool {
    match v {
        Verdict::Consistent { gap } => {
            &&& gap <= ceiling
            &&& forall|j: usize|
                j < gap ==> #[trigger] s.has_record(Partition::Secondary, j) && s.has_record(
                    Partition::Primary,
                    j,
                )
            &&& gap < ceiling ==> !s.has_record(Partition::Secondary, gap)
        },
        Verdict::Violation { index } => {
            &&& index < ceiling
            &&& s.has_record(Partition::Secondary, index)
            &&& !s.has_record(Partition::Primary, index)
            &&& forall|j: usize|
                j < index ==> #[trigger] s.has_record(Partition::Secondary, j) && s.has_record(
                    Partition::Primary,
                    j,
                )
        },
    }
}

proof fn lemma_scan_from_holds(s: StoreModel, i: usize, ceiling: usize)
    requires
        i <= ceiling,
        forall|j: usize|
            j < i ==> #[trigger] s.has_record(Partition::Secondary, j) && s.has_record(
                Partition::Primary,
                j,
            ),
    ensures
        verdict_holds(s, scan_from(s, i, ceiling), ceiling),
    decreases ceiling - i,
{
    if i < ceiling && s.has_record(Partition::Secondary, i) && s.has_record(Partition::Primary, i) {
        assert forall|j: usize| j < i + 1 implies #[trigger] s.has_record(
            Partition::Secondary,
            j,
        ) && s.has_record(Partition::Primary, j) by {
            if j == i {
            }
        }
        lemma_scan_from_holds(s, (i + 1) as usize, ceiling);
    }
}

/// The verdict is exact. A `Consistent` verdict means that every index below
/// the gap is present in both partitions, so that no secondary record below
/// the gap lacks its primary record, and that the gap itself, when below the
/// ceiling, is missing from `Secondary`. A `Violation` verdict names the
/// first index below the gap whose secondary record is present while its
/// primary record is missing.
pub proof fn verdict_is_exact(s: StoreModel, ceiling: usize)
    ensures
        verdict_holds(s, verdict_of(s, ceiling), ceiling),
{
    lemma_scan_from_holds(s, 0, ceiling);
}

proof fn lemma_scans_agree_up_to(s: StoreModel, t: StoreModel, i: usize, g: usize, ceiling: usize)
    requires
        i <= g < ceiling,
        !s.has_record(Partition::Secondary, g),
        forall|j: usize|
            j <= g ==> #[trigger] s.has_record(Partition::Secondary, j) == t.has_record(
                Partition::Secondary,
                j,
            ),
        forall|j: usize|
            j < g ==> #[trigger] s.has_record(Partition::Primary, j) == t.has_record(
                Partition::Primary,
                j,
            ),
    ensures
        scan_from(s, i, ceiling) == scan_from(t, i, ceiling),
    decreases g - i,
{
    assert(s.has_record(Partition::Secondary, i) == t.has_record(Partition::Secondary, i));
    if i < g {
        assert(s.has_record(Partition::Primary, i) == t.has_record(Partition::Primary, i));
        lemma_scans_agree_up_to(s, t, (i + 1) as usize, g, ceiling);
    }
}

/// The scan stops at the first gap: when index `g` is missing from
/// `Secondary`, the verdict depends on nothing at or past `g` but that
/// absence. Two stores that agree on `Secondary` up to `g` and on `Primary`
/// below `g` get the same verdict, whatever they hold beyond.
pub proof fn scan_stops_at_gap(s: StoreModel, t: StoreModel, g: usize, ceiling: usize)
    requires
        g < ceiling,
        !s.has_record(Partition::Secondary, g),
        forall|j: usize|
            j <= g ==> #[trigger] s.has_record(Partition::Secondary, j) == t.has_record(
                Partition::Secondary,
                j,
            ),
        forall|j: usize|
            j < g ==> #[trigger] s.has_record(Partition::Primary, j) == t.has_record(
                Partition::Primary,
                j,
            ),
    ensures
        verdict_of(s, ceiling) == verdict_of(t, ceiling),
{
    lemma_scans_agree_up_to(s, t, 0, g, ceiling);
}

/// Verification is idempotent: two complete scans with the same ceiling,
/// each answered truthfully by the same unmodified store, end with the same
/// verdict, and so with the same gap and the same pass or fail.
pub proof fn repeated_scans_agree(s: StoreModel, first: Verifier, second: Verifier)
    requires
        first.ceiling == second.ceiling,
        first.consistent_with(s),
        second.consistent_with(s),
        first.is_done(),
        second.is_done(),
    ensures
        first.action() == second.action(),
        first.action() == VerifyAction::Finished(verdict_of(s, first.ceiling)),
{
}

/// Runs a complete scan of `store`, bounded by `ceiling`.
pub fn verify_store(store: &MemStore, ceiling: usize) -> (r: Verdict)
    ensures
        r == verdict_of(store@, ceiling),
{
    let mut v = Verifier::new(ceiling);
    loop
        invariant
            v.consistent_with(store@),
            v.ceiling == ceiling,
        decreases v.remaining(),
    {
        match v.next_action() {
            VerifyAction::Finished(verdict) => {
                return verdict;
            },
            VerifyAction::Probe { partition, index } => {
                let present = store.has_record(partition, index);
                proof {
                    answer_keeps_consistent(v, store@, present);
                }
                v.answer(present);
            },
        }
    }
}

} // verus!
