//! The flag and confirmation ceremony that a batch of safety verdicts must
//! pass before anything is removed.
//!
//! The decision is a pure function of the verdicts, the flags and the answers
//! the user has given so far. When it needs another answer it says which
//! question to ask; the caller asks, appends the answer and decides again.
//! Every audit record that the ceremony writes up to that point comes back
//! with the decision, in order.

use vstd::prelude::*;
use crate::config::Config;
use crate::safety::{SafetyTier, SafetyVerdict};

verus! {

/// The command-line flags that take part in the ceremony.
#[derive(Debug, Clone, Copy, Default, PartialEq, Eq, Structural)]
pub struct SafetyFlags {
    pub is_interactive: bool,
    pub allow_protected: bool,
    pub no_preserve_root: bool,
    pub force: bool,
    pub permanent: bool,
    pub verbose: bool,
}

/// The outcome recorded in the audit log for one item.
#[derive(Debug, Clone, Copy, PartialEq, Eq, Structural)]
pub enum AuditResult {
    DeniedPermanentOnT0,
    DeniedMissingT0Flags,
    AllowedT0Override,
    DeniedPermanentOnT1,
    AllowedT1BulkFlags,
    DeniedT1BulkPrompt,
    AllowedT1BulkPrompt,
    DeniedT1BulkNonTty,
    AllowedT1Flag,
    DeniedT1Prompt,
    AllowedT1Prompt,
    DeniedT1NonTty,
    DeniedT2Prompt,
    AllowedT2Prompt,
    DeniedT2NonTty,
    AllowedT2Force,
    DeniedT3Prompt,
    AllowedT3Prompt,
    DeniedT3NonTty,
    AllowedT3Flag,
}

/// The text stored in the audit log for an outcome.
pub open spec fn audit_label(r: AuditResult) -> Seq<char> {
    match r {
        AuditResult::DeniedPermanentOnT0 => "DENIED_PERMANENT_ON_T0"@,
        AuditResult::DeniedMissingT0Flags => "DENIED_MISSING_T0_FLAGS"@,
        AuditResult::AllowedT0Override => "ALLOWED_T0_OVERRIDE"@,
        AuditResult::DeniedPermanentOnT1 => "DENIED_PERMANENT_ON_T1"@,
        AuditResult::AllowedT1BulkFlags => "ALLOWED_T1_BULK_FLAGS"@,
        AuditResult::DeniedT1BulkPrompt => "DENIED_T1_BULK_PROMPT"@,
        AuditResult::AllowedT1BulkPrompt => "ALLOWED_T1_BULK_PROMPT"@,
        AuditResult::DeniedT1BulkNonTty => "DENIED_T1_BULK_NON_TTY"@,
        AuditResult::AllowedT1Flag => "ALLOWED_T1_FLAG"@,
        AuditResult::DeniedT1Prompt => "DENIED_T1_PROMPT"@,
        AuditResult::AllowedT1Prompt => "ALLOWED_T1_PROMPT"@,
        AuditResult::DeniedT1NonTty => "DENIED_T1_NON_TTY"@,
        AuditResult::DeniedT2Prompt => "DENIED_T2_PROMPT"@,
        AuditResult::AllowedT2Prompt => "ALLOWED_T2_PROMPT"@,
        AuditResult::DeniedT2NonTty => "DENIED_T2_NON_TTY"@,
        AuditResult::AllowedT2Force => "ALLOWED_T2_FORCE"@,
        AuditResult::DeniedT3Prompt => "DENIED_T3_PROMPT"@,
        AuditResult::AllowedT3Prompt => "ALLOWED_T3_PROMPT"@,
        AuditResult::DeniedT3NonTty => "DENIED_T3_NON_TTY"@,
        AuditResult::AllowedT3Flag => "ALLOWED_T3_FLAG"@,
    }
}

impl AuditResult {
    /// The text stored in the audit log.
    pub fn as_str(&self) -> (r: &'static str)
        ensures
            r@ == audit_label(*self),
    {
        match self {
            AuditResult::DeniedPermanentOnT0 => "DENIED_PERMANENT_ON_T0",
            AuditResult::DeniedMissingT0Flags => "DENIED_MISSING_T0_FLAGS",
            AuditResult::AllowedT0Override => "ALLOWED_T0_OVERRIDE",
            AuditResult::DeniedPermanentOnT1 => "DENIED_PERMANENT_ON_T1",
            AuditResult::AllowedT1BulkFlags => "ALLOWED_T1_BULK_FLAGS",
            AuditResult::DeniedT1BulkPrompt => "DENIED_T1_BULK_PROMPT",
            AuditResult::AllowedT1BulkPrompt => "ALLOWED_T1_BULK_PROMPT",
            AuditResult::DeniedT1BulkNonTty => "DENIED_T1_BULK_NON_TTY",
            AuditResult::AllowedT1Flag => "ALLOWED_T1_FLAG",
            AuditResult::DeniedT1Prompt => "DENIED_T1_PROMPT",
            AuditResult::AllowedT1Prompt => "ALLOWED_T1_PROMPT",
            AuditResult::DeniedT1NonTty => "DENIED_T1_NON_TTY",
            AuditResult::DeniedT2Prompt => "DENIED_T2_PROMPT",
            AuditResult::AllowedT2Prompt => "ALLOWED_T2_PROMPT",
            AuditResult::DeniedT2NonTty => "DENIED_T2_NON_TTY",
            AuditResult::AllowedT2Force => "ALLOWED_T2_FORCE",
            AuditResult::DeniedT3Prompt => "DENIED_T3_PROMPT",
            AuditResult::AllowedT3Prompt => "ALLOWED_T3_PROMPT",
            AuditResult::DeniedT3NonTty => "DENIED_T3_NON_TTY",
            AuditResult::AllowedT3Flag => "ALLOWED_T3_FLAG",
        }
    }
}

/// One audit record: the index of the verdict and the outcome for it.
#[derive(Debug, Clone, Copy, PartialEq, Eq, Structural)]
pub struct AuditEntry {
    pub item: usize,
    pub result: AuditResult,
}

/// A question the ceremony needs answered (yes or no) before it goes on.
#[derive(Debug, Clone, Copy, PartialEq, Eq, Structural)]
pub enum SafetyPrompt {
    /// Move a bulk of T1 items (how many, and their total size) to storage?
    T1Bulk { count: usize, total_size: u128 },
    /// Move the T1 item to storage?
    T1 { item: usize },
    /// Remove the T2 item (permanently, or into storage)?
    T2 { item: usize, permanent: bool },
    /// Move the T3 item to storage?
    T3 { item: usize },
}

/// Why the ceremony refused the batch.
#[derive(Debug, Clone, Copy, PartialEq, Eq, Structural)]
pub enum SafetyDenial {
    PermanentOnT0 { item: usize },
    MissingT0Flags { item: usize },
    PermanentOnT1 { item: usize },
    Cancelled,
    T1BulkNonInteractive,
    T1NonInteractive { item: usize },
    T2NonInteractive { item: usize },
    T3NonInteractive { item: usize },
}

/// Where the ceremony stands.
#[derive(Debug, Clone, Copy, PartialEq, Eq, Structural)]
pub enum SafetyStatus {
    /// Another answer is needed.
    Ask(SafetyPrompt),
    /// Every item may go.
    Allowed,
    /// The batch is refused.
    Denied(SafetyDenial),
}

/// The audit records written so far and where the ceremony stands.
#[derive(Debug, Clone)]
pub struct SafetyReview {
    pub audits: Vec<AuditEntry>,
    pub status: SafetyStatus,
}

/// How far a phase of the ceremony got.
pub enum Step {
    /// Done; this many answers were used.
    Next(nat),
    Ask(SafetyPrompt),
    Deny(SafetyDenial),
}

/// The audit records and the step of one phase.
pub struct PhaseOutcome {
    pub audits: Seq<AuditEntry>,
    pub step: Step,
}

/// Which per-item question a phase asks.
pub enum PromptKind {
    T1,
    T2 { permanent: bool },
    T3,
}

pub open spec fn prompt_for(kind: PromptKind, item: usize) -> SafetyPrompt {
    match kind {
        PromptKind::T1 => SafetyPrompt::T1 { item },
        PromptKind::T2 { permanent } => SafetyPrompt::T2 { item, permanent },
        PromptKind::T3 => SafetyPrompt::T3 { item },
    }
}

/// The positions of the verdicts with tier `t`, in order.
pub open spec fn indices_of(tiers: Seq<SafetyTier>, t: SafetyTier) -> Seq<usize>
    decreases tiers.len(),
{
    if tiers.len() == 0 {
        Seq::<usize>::empty()
    } else {
        let prev = indices_of(tiers.drop_last(), t);
        if tiers.last() == t {
            prev.push((tiers.len() - 1) as usize)
        } else {
            prev
        }
    }
}

/// The total size of the listed verdicts.
pub open spec fn total_size(sizes: Seq<u64>, items: Seq<usize>) -> int
    decreases items.len(),
{
    if items.len() == 0 {
        0
    } else {
        total_size(sizes, items.drop_last()) + sizes[items.last() as int]
    }
}

/// One audit record for each listed item, all with the same result.
pub open spec fn entries(items: Seq<usize>, result: AuditResult) -> Seq<AuditEntry> {
    Seq::new(items.len(), |k: int| AuditEntry { item: items[k], result })
}

pub open spec fn entry(item: usize, result: AuditResult) -> Seq<AuditEntry> {
    seq![AuditEntry { item, result }]
}

pub open spec fn bump(s: Step, n: nat) -> Step {
    match s {
        Step::Next(k) => Step::Next(k + n),
        other => other,
    }
}

/// Asking about each item in turn: a yes records `allow` and goes on, a no
/// records `deny` and cancels, and a missing answer is asked for.
pub open spec fn ask_each(items: Seq<usize>, answers: Seq<bool>, allow: AuditResult, deny: AuditResult, kind: PromptKind) -> PhaseOutcome
    decreases items.len(),
{
    if items.len() == 0 {
        PhaseOutcome { audits: Seq::empty(), step: Step::Next(0) }
    } else if answers.len() == 0 {
        PhaseOutcome { audits: Seq::empty(), step: Step::Ask(prompt_for(kind, items[0])) }
    } else if !answers[0] {
        PhaseOutcome { audits: entry(items[0], deny), step: Step::Deny(SafetyDenial::Cancelled) }
    } else {
        let rest = ask_each(items.skip(1), answers.skip(1), allow, deny, kind);
        PhaseOutcome { audits: entry(items[0], allow) + rest.audits, step: bump(rest.step, 1) }
    }
}

/// T0 items pass only with `--no-preserve-root --allow-protected --force`
/// and never for a permanent deletion.
pub open spec fn t0_phase(tiers: Seq<SafetyTier>, flags: SafetyFlags) -> PhaseOutcome {
    let items = indices_of(tiers, SafetyTier::T0Refuse);
    if items.len() == 0 {
        PhaseOutcome { audits: Seq::empty(), step: Step::Next(0) }
    } else if flags.permanent {
        PhaseOutcome {
            audits: entry(items[0], AuditResult::DeniedPermanentOnT0),
            step: Step::Deny(SafetyDenial::PermanentOnT0 { item: items[0] }),
        }
    } else if !flags.no_preserve_root || !flags.allow_protected || !flags.force {
        PhaseOutcome {
            audits: entry(items[0], AuditResult::DeniedMissingT0Flags),
            step: Step::Deny(SafetyDenial::MissingT0Flags { item: items[0] }),
        }
    } else {
        PhaseOutcome { audits: entries(items, AuditResult::AllowedT0Override), step: Step::Next(0) }
    }
}

/// More T1 items than `bulk_count`, or more than 1 GiB of them.
pub open spec fn is_bulk(sizes: Seq<u64>, items: Seq<usize>, bulk_count: usize) -> bool {
    items.len() > bulk_count || total_size(sizes, items) > 1073741824
}

/// T1 items are never deleted permanently; a bulk of them needs
/// `--allow-protected --force` or one confirmation, a few of them need
/// `--allow-protected` or a confirmation each; without a terminal there is
/// no confirmation.
pub open spec fn t1_phase(tiers: Seq<SafetyTier>, sizes: Seq<u64>, flags: SafetyFlags, bulk_count: usize, answers: Seq<bool>) -> PhaseOutcome {
    let items = indices_of(tiers, SafetyTier::T1ProtectedRoot);
    if items.len() == 0 {
        PhaseOutcome { audits: Seq::empty(), step: Step::Next(0) }
    } else if flags.permanent {
        PhaseOutcome {
            audits: entry(items[0], AuditResult::DeniedPermanentOnT1),
            step: Step::Deny(SafetyDenial::PermanentOnT1 { item: items[0] }),
        }
    } else if is_bulk(sizes, items, bulk_count) {
        if flags.allow_protected && flags.force {
            PhaseOutcome { audits: entries(items, AuditResult::AllowedT1BulkFlags), step: Step::Next(0) }
        } else if flags.is_interactive {
            if answers.len() == 0 {
                PhaseOutcome {
                    audits: Seq::empty(),
                    step: Step::Ask(SafetyPrompt::T1Bulk {
                        count: items.len() as usize,
                        total_size: total_size(sizes, items) as u128,
                    }),
                }
            } else if !answers[0] {
                PhaseOutcome {
                    audits: entry(items[0], AuditResult::DeniedT1BulkPrompt),
                    step: Step::Deny(SafetyDenial::Cancelled),
                }
            } else {
                PhaseOutcome { audits: entries(items, AuditResult::AllowedT1BulkPrompt), step: Step::Next(1) }
            }
        } else {
            PhaseOutcome {
                audits: entry(items[0], AuditResult::DeniedT1BulkNonTty),
                step: Step::Deny(SafetyDenial::T1BulkNonInteractive),
            }
        }
    } else if flags.allow_protected {
        PhaseOutcome { audits: entries(items, AuditResult::AllowedT1Flag), step: Step::Next(0) }
    } else if flags.is_interactive {
        ask_each(items, answers, AuditResult::AllowedT1Prompt, AuditResult::DeniedT1Prompt, PromptKind::T1)
    } else {
        PhaseOutcome {
            audits: entry(items[0], AuditResult::DeniedT1NonTty),
            step: Step::Deny(SafetyDenial::T1NonInteractive { item: items[0] }),
        }
    }
}

/// T2 items need `--force` or a confirmation each.
pub open spec fn t2_phase(tiers: Seq<SafetyTier>, flags: SafetyFlags, answers: Seq<bool>) -> PhaseOutcome {
    let items = indices_of(tiers, SafetyTier::T2Sensitive);
    if items.len() == 0 {
        PhaseOutcome { audits: Seq::empty(), step: Step::Next(0) }
    } else if flags.force {
        PhaseOutcome { audits: entries(items, AuditResult::AllowedT2Force), step: Step::Next(0) }
    } else if flags.is_interactive {
        ask_each(items, answers, AuditResult::AllowedT2Prompt, AuditResult::DeniedT2Prompt,
            PromptKind::T2 { permanent: flags.permanent })
    } else {
        PhaseOutcome {
            audits: entry(items[0], AuditResult::DeniedT2NonTty),
            step: Step::Deny(SafetyDenial::T2NonInteractive { item: items[0] }),
        }
    }
}

/// T3 items need `--force`, `--allow-protected` or a confirmation each.
pub open spec fn t3_phase(tiers: Seq<SafetyTier>, flags: SafetyFlags, answers: Seq<bool>) -> PhaseOutcome {
    let items = indices_of(tiers, SafetyTier::T3SemiProtected);
    if items.len() == 0 {
        PhaseOutcome { audits: Seq::empty(), step: Step::Next(0) }
    } else if flags.force || flags.allow_protected {
        PhaseOutcome { audits: entries(items, AuditResult::AllowedT3Flag), step: Step::Next(0) }
    } else if flags.is_interactive {
        ask_each(items, answers, AuditResult::AllowedT3Prompt, AuditResult::DeniedT3Prompt, PromptKind::T3)
    } else {
        PhaseOutcome {
            audits: entry(items[0], AuditResult::DeniedT3NonTty),
            step: Step::Deny(SafetyDenial::T3NonInteractive { item: items[0] }),
        }
    }
}

/// The status a phase's step leaves the ceremony in, when it stops there.
pub open spec fn stop_status(s: Step) -> SafetyStatus {
    match s {
        Step::Ask(p) => SafetyStatus::Ask(p),
        Step::Deny(d) => SafetyStatus::Denied(d),
        Step::Next(_) => SafetyStatus::Allowed,
    }
}

/// The whole ceremony: T0, then T1, T2 and T3 items, each phase using the
/// answers that the phases before it left.
pub open spec fn ceremony(tiers: Seq<SafetyTier>, sizes: Seq<u64>, flags: SafetyFlags, bulk_count: usize, answers: Seq<bool>) -> (Seq<AuditEntry>, SafetyStatus) {
    let p0 = t0_phase(tiers, flags);
    if !(p0.step is Next) {
        (p0.audits, stop_status(p0.step))
    } else {
        let p1 = t1_phase(tiers, sizes, flags, bulk_count, answers);
        let a1 = p0.audits + p1.audits;
        match p1.step {
            Step::Next(u1) => {
                let rest1 = answers.skip(u1 as int);
                let p2 = t2_phase(tiers, flags, rest1);
                let a2 = a1 + p2.audits;
                match p2.step {
                    Step::Next(u2) => {
                        let p3 = t3_phase(tiers, flags, rest1.skip(u2 as int));
                        (a2 + p3.audits, stop_status(p3.step))
                    },
                    other => (a2, stop_status(other)),
                }
            },
            other => (a1, stop_status(other)),
        }
    }
}

/// The tiers of the verdicts.
pub open spec fn tiers_of(v: Seq<SafetyVerdict>) -> Seq<SafetyTier> {
    Seq::new(v.len(), |k: int| v[k].tier)
}

/// The sizes of the verdicts.
pub open spec fn sizes_of(v: Seq<SafetyVerdict>) -> Seq<u64> {
    Seq::new(v.len(), |k: int| v[k].size)
}

} // verus!

verus! {

/// A phase's step as the code carries it.
enum PhaseStep {
    Next(usize),
    Ask(SafetyPrompt),
    Deny(SafetyDenial),
}

impl PhaseStep {
    spec fn model(self) -> Step {
        match self {
            PhaseStep::Next(n) => Step::Next(n as nat),
            PhaseStep::Ask(p) => Step::Ask(p),
            PhaseStep::Deny(d) => Step::Deny(d),
        }
    }
}

pub(crate) proof fn lemma_indices_of(tiers: Seq<SafetyTier>, t: SafetyTier)
    requires
        tiers.len() <= usize::MAX,
    ensures
        forall|k: int| 0 <= k < indices_of(tiers, t).len() ==>
            (#[trigger] indices_of(tiers, t)[k]) < tiers.len() && tiers[indices_of(tiers, t)[k] as int] == t,
        indices_of(tiers, t).len() <= tiers.len(),
    decreases tiers.len(),
{
    if tiers.len() > 0 {
        lemma_indices_of(tiers.drop_last(), t);
        let prev = indices_of(tiers.drop_last(), t);
        assert forall|k: int| 0 <= k < indices_of(tiers, t).len() implies
            (#[trigger] indices_of(tiers, t)[k]) < tiers.len() && tiers[indices_of(tiers, t)[k] as int] == t by {
            if k < prev.len() {
                assert(indices_of(tiers, t)[k] == prev[k]);
                assert(tiers.drop_last()[prev[k] as int] == tiers[prev[k] as int]);
            } else {
                assert(tiers.last() == t);
                assert(indices_of(tiers, t)[k] == (tiers.len() - 1) as usize);
            }
        }
    }
}

/// The positions of the verdicts with tier `t`.
fn indices_with(verdicts: &[SafetyVerdict], t: SafetyTier) -> (r: Vec<usize>)
    ensures
        r@ == indices_of(tiers_of(verdicts@), t),
{
    let ghost tiers = tiers_of(verdicts@);
    let mut r: Vec<usize> = Vec::new();
    let mut i: usize = 0;
    assert(tiers.take(0) =~= Seq::<SafetyTier>::empty());
    while i < verdicts.len()
        invariant
            i <= verdicts.len(),
            tiers == tiers_of(verdicts@),
            r@ == indices_of(tiers.take(i as int), t),
        decreases verdicts.len() - i,
    {
        assert(tiers.take(i + 1).drop_last() =~= tiers.take(i as int));
        assert(tiers.take(i + 1).last() == verdicts@[i as int].tier);
        if verdicts[i].tier == t {
            r.push(i);
        }
        i += 1;
    }
    assert(tiers.take(verdicts.len() as int) =~= tiers);
    r
}

/// The total size of the listed verdicts.
fn sum_sizes(verdicts: &[SafetyVerdict], items: &Vec<usize>) -> (r: u128)
    requires
        forall|k: int| 0 <= k < items@.len() ==> (#[trigger] items@[k]) < verdicts@.len(),
    ensures
        r == total_size(sizes_of(verdicts@), items@),
{
    let ghost sizes = sizes_of(verdicts@);
    let mut total: u128 = 0;
    let mut k: usize = 0;
    assert(items@.take(0) =~= Seq::<usize>::empty());
    while k < items.len()
        invariant
            k <= items.len(),
            sizes == sizes_of(verdicts@),
            forall|j: int| 0 <= j < items@.len() ==> (#[trigger] items@[j]) < verdicts@.len(),
            total == total_size(sizes, items@.take(k as int)),
            total <= k * 18446744073709551615u128,
        decreases items.len() - k,
    {
        assert(items@.take(k + 1).drop_last() =~= items@.take(k as int));
        assert(k * 18446744073709551615u128 + 18446744073709551615u128 <= 340282366920938463463374607431768211455u128) by {
            assert(k < 18446744073709551616);
        }
        total = total + verdicts[items[k]].size as u128;
        k += 1;
    }
    assert(items@.take(items.len() as int) =~= items@);
    total
}

/// Appends one record with `result` for each listed item.
fn push_entries(audits: &mut Vec<AuditEntry>, items: &Vec<usize>, result: AuditResult)
    ensures
        final(audits)@ == old(audits)@ + entries(items@, result),
{
    let mut k: usize = 0;
    while k < items.len()
        invariant
            k <= items.len(),
            audits@ == old(audits)@ + entries(items@.take(k as int), result),
        decreases items.len() - k,
    {
        audits.push(AuditEntry { item: items[k], result });
        k += 1;
        assert(audits@ =~= old(audits)@ + entries(items@.take(k as int), result));
    }
    assert(items@.take(items.len() as int) =~= items@);
}

/// Appends one record.
fn push_entry(audits: &mut Vec<AuditEntry>, item: usize, result: AuditResult)
    ensures
        final(audits)@ == old(audits)@ + entry(item, result),
{
    audits.push(AuditEntry { item, result });
    assert(audits@ =~= old(audits)@ + entry(item, result));
}

proof fn lemma_ask_each_unfold(items: Seq<usize>, answers: Seq<bool>, allow: AuditResult, deny: AuditResult, kind: PromptKind, j: int)
    requires
        0 <= j < items.len(),
        j <= answers.len(),
    ensures
        j < answers.len() && answers[j] ==> ({
            let here = ask_each(items.skip(j), answers.skip(j), allow, deny, kind);
            let next = ask_each(items.skip(j + 1), answers.skip(j + 1), allow, deny, kind);
            here.audits == entry(items[j], allow) + next.audits && here.step == bump(next.step, 1)
        }),
        j < answers.len() && !answers[j] ==> ({
            let here = ask_each(items.skip(j), answers.skip(j), allow, deny, kind);
            here.audits == entry(items[j], deny) && here.step == Step::Deny(SafetyDenial::Cancelled)
        }),
        j == answers.len() ==> ({
            let here = ask_each(items.skip(j), answers.skip(j), allow, deny, kind);
            here.audits == Seq::<AuditEntry>::empty() && here.step == Step::Ask(prompt_for(kind, items[j]))
        }),
{
    assert(items.skip(j).skip(1) =~= items.skip(j + 1));
    if j < answers.len() {
        assert(answers.skip(j).skip(1) =~= answers.skip(j + 1));
        assert(answers.skip(j)[0] == answers[j]);
    } else {
        assert(answers.skip(j).len() == 0);
    }
    assert(items.skip(j)[0] == items[j]);
}

/// Asks about each listed item in turn (see `ask_each`).
fn ask_each_exec(items: &Vec<usize>, answers: &[bool], allow: AuditResult, deny: AuditResult, kind_t2: Option<bool>, t1: bool, audits: &mut Vec<AuditEntry>) -> (s: PhaseStep)
    ensures
        ({
            let kind = if t1 { PromptKind::T1 } else { match kind_t2 { Some(p) => PromptKind::T2 { permanent: p }, None => PromptKind::T3 } };
            let spec_out = ask_each(items@, answers@, allow, deny, kind);
            final(audits)@ == old(audits)@ + spec_out.audits && s.model() == spec_out.step
        }),
{
    let ghost kind = if t1 { PromptKind::T1 } else { match kind_t2 { Some(p) => PromptKind::T2 { permanent: p }, None => PromptKind::T3 } };
    let ghost whole = ask_each(items@, answers@, allow, deny, kind);
    let mut j: usize = 0;
    assert(items@.skip(0) =~= items@);
    assert(answers@.skip(0) =~= answers@);
    assert(items@.take(0) =~= Seq::<usize>::empty());
    assert(entries(items@.take(0), allow) =~= Seq::<AuditEntry>::empty());
    assert(whole.audits =~= entries(items@.take(0), allow) + whole.audits);
    while j < items.len()
        invariant
            j <= items.len(),
            j <= answers.len(),
            whole == ask_each(items@, answers@, allow, deny, kind),
            kind == (if t1 { PromptKind::T1 } else { match kind_t2 { Some(p) => PromptKind::T2 { permanent: p }, None => PromptKind::T3 } }),
            audits@ == old(audits)@ + entries(items@.take(j as int), allow),
            whole.audits == entries(items@.take(j as int), allow)
                + ask_each(items@.skip(j as int), answers@.skip(j as int), allow, deny, kind).audits,
            whole.step == bump(ask_each(items@.skip(j as int), answers@.skip(j as int), allow, deny, kind).step, j as nat),
        decreases items.len() - j,
    {
        proof { lemma_ask_each_unfold(items@, answers@, allow, deny, kind, j as int); }
        let item = items[j];
        if j >= answers.len() {
            let p = if t1 {
                SafetyPrompt::T1 { item }
            } else {
                match kind_t2 {
                    Some(permanent) => SafetyPrompt::T2 { item, permanent },
                    None => SafetyPrompt::T3 { item },
                }
            };
            assert(whole.audits =~= entries(items@.take(j as int), allow));
            return PhaseStep::Ask(p);
        }
        if !answers[j] {
            push_entry(audits, item, deny);
            assert(audits@ =~= old(audits)@ + whole.audits);
            return PhaseStep::Deny(SafetyDenial::Cancelled);
        }
        push_entry(audits, item, allow);
        proof {
            assert(entries(items@.take(j + 1), allow) =~= entries(items@.take(j as int), allow) + entry(items@[j as int], allow));
            let next = ask_each(items@.skip(j + 1), answers@.skip(j + 1), allow, deny, kind);
            assert(whole.audits =~= entries(items@.take(j + 1), allow) + next.audits);
            assert(whole.step == bump(next.step, (j + 1) as nat)) by {
                match next.step {
                    Step::Next(k) => {},
                    _ => {},
                }
            }
        }
        j += 1;
    }
    proof {
        assert(items@.skip(items.len() as int) =~= Seq::<usize>::empty());
        assert(items@.take(items.len() as int) =~= items@);
        let rest = ask_each(items@.skip(j as int), answers@.skip(j as int), allow, deny, kind);
        assert(rest.audits =~= Seq::<AuditEntry>::empty());
        assert(whole.audits =~= entries(items@, allow));
    }
    PhaseStep::Next(items.len())
}

} // verus!

verus! {

fn t0_exec(verdicts: &[SafetyVerdict], flags: &SafetyFlags, audits: &mut Vec<AuditEntry>) -> (s: PhaseStep)
    ensures
        final(audits)@ == old(audits)@ + t0_phase(tiers_of(verdicts@), *flags).audits,
        s.model() == t0_phase(tiers_of(verdicts@), *flags).step,
{
    let items = indices_with(verdicts, SafetyTier::T0Refuse);
    if items.len() == 0 {
        assert(audits@ =~= old(audits)@ + Seq::<AuditEntry>::empty());
        return PhaseStep::Next(0);
    }
    if flags.permanent {
        push_entry(audits, items[0], AuditResult::DeniedPermanentOnT0);
        return PhaseStep::Deny(SafetyDenial::PermanentOnT0 { item: items[0] });
    }
    if !flags.no_preserve_root || !flags.allow_protected || !flags.force {
        push_entry(audits, items[0], AuditResult::DeniedMissingT0Flags);
        return PhaseStep::Deny(SafetyDenial::MissingT0Flags { item: items[0] });
    }
    push_entries(audits, &items, AuditResult::AllowedT0Override);
    PhaseStep::Next(0)
}

fn t1_exec(verdicts: &[SafetyVerdict], flags: &SafetyFlags, bulk_count: usize, answers: &[bool], audits: &mut Vec<AuditEntry>) -> (s: PhaseStep)
    ensures
        final(audits)@ == old(audits)@ + t1_phase(tiers_of(verdicts@), sizes_of(verdicts@), *flags, bulk_count, answers@).audits,
        s.model() == t1_phase(tiers_of(verdicts@), sizes_of(verdicts@), *flags, bulk_count, answers@).step,
{
    let items = indices_with(verdicts, SafetyTier::T1ProtectedRoot);
    assert(tiers_of(verdicts@).len() == verdicts.len());
    proof { lemma_indices_of(tiers_of(verdicts@), SafetyTier::T1ProtectedRoot); }
    if items.len() == 0 {
        assert(audits@ =~= old(audits)@ + Seq::<AuditEntry>::empty());
        return PhaseStep::Next(0);
    }
    if flags.permanent {
        push_entry(audits, items[0], AuditResult::DeniedPermanentOnT1);
        return PhaseStep::Deny(SafetyDenial::PermanentOnT1 { item: items[0] });
    }
    let total = sum_sizes(verdicts, &items);
    let bulk = items.len() > bulk_count || total > 1073741824u128;
    if bulk {
        if flags.allow_protected && flags.force {
            push_entries(audits, &items, AuditResult::AllowedT1BulkFlags);
            return PhaseStep::Next(0);
        }
        if flags.is_interactive {
            if answers.len() == 0 {
                assert(audits@ =~= old(audits)@ + Seq::<AuditEntry>::empty());
                return PhaseStep::Ask(SafetyPrompt::T1Bulk { count: items.len(), total_size: total });
            }
            if !answers[0] {
                push_entry(audits, items[0], AuditResult::DeniedT1BulkPrompt);
                return PhaseStep::Deny(SafetyDenial::Cancelled);
            }
            push_entries(audits, &items, AuditResult::AllowedT1BulkPrompt);
            return PhaseStep::Next(1);
        }
        push_entry(audits, items[0], AuditResult::DeniedT1BulkNonTty);
        return PhaseStep::Deny(SafetyDenial::T1BulkNonInteractive);
    }
    if flags.allow_protected {
        push_entries(audits, &items, AuditResult::AllowedT1Flag);
        return PhaseStep::Next(0);
    }
    if flags.is_interactive {
        return ask_each_exec(&items, answers, AuditResult::AllowedT1Prompt, AuditResult::DeniedT1Prompt, None, true, audits);
    }
    push_entry(audits, items[0], AuditResult::DeniedT1NonTty);
    PhaseStep::Deny(SafetyDenial::T1NonInteractive { item: items[0] })
}

fn t2_exec(verdicts: &[SafetyVerdict], flags: &SafetyFlags, answers: &[bool], audits: &mut Vec<AuditEntry>) -> (s: PhaseStep)
    ensures
        final(audits)@ == old(audits)@ + t2_phase(tiers_of(verdicts@), *flags, answers@).audits,
        s.model() == t2_phase(tiers_of(verdicts@), *flags, answers@).step,
{
    let items = indices_with(verdicts, SafetyTier::T2Sensitive);
    if items.len() == 0 {
        assert(audits@ =~= old(audits)@ + Seq::<AuditEntry>::empty());
        return PhaseStep::Next(0);
    }
    if flags.force {
        push_entries(audits, &items, AuditResult::AllowedT2Force);
        return PhaseStep::Next(0);
    }
    if flags.is_interactive {
        return ask_each_exec(&items, answers, AuditResult::AllowedT2Prompt, AuditResult::DeniedT2Prompt, Some(flags.permanent), false, audits);
    }
    push_entry(audits, items[0], AuditResult::DeniedT2NonTty);
    PhaseStep::Deny(SafetyDenial::T2NonInteractive { item: items[0] })
}

fn t3_exec(verdicts: &[SafetyVerdict], flags: &SafetyFlags, answers: &[bool], audits: &mut Vec<AuditEntry>) -> (s: PhaseStep)
    ensures
        final(audits)@ == old(audits)@ + t3_phase(tiers_of(verdicts@), *flags, answers@).audits,
        s.model() == t3_phase(tiers_of(verdicts@), *flags, answers@).step,
{
    let items = indices_with(verdicts, SafetyTier::T3SemiProtected);
    if items.len() == 0 {
        assert(audits@ =~= old(audits)@ + Seq::<AuditEntry>::empty());
        return PhaseStep::Next(0);
    }
    if flags.force || flags.allow_protected {
        push_entries(audits, &items, AuditResult::AllowedT3Flag);
        return PhaseStep::Next(0);
    }
    if flags.is_interactive {
        return ask_each_exec(&items, answers, AuditResult::AllowedT3Prompt, AuditResult::DeniedT3Prompt, None, false, audits);
    }
    push_entry(audits, items[0], AuditResult::DeniedT3NonTty);
    PhaseStep::Deny(SafetyDenial::T3NonInteractive { item: items[0] })
}

fn stop(s: PhaseStep) -> (r: SafetyStatus)
    ensures
        r == stop_status(s.model()),
{
    match s {
        PhaseStep::Next(_) => SafetyStatus::Allowed,
        PhaseStep::Ask(p) => SafetyStatus::Ask(p),
        PhaseStep::Deny(d) => SafetyStatus::Denied(d),
    }
}

/// The ceremony for `verdicts` under `flags`, with `bulk_count` as the
/// largest number of T1 items that is not a bulk, given the answers so far.
pub fn review_ceremony(verdicts: &[SafetyVerdict], flags: &SafetyFlags, bulk_count: usize, answers: &[bool]) -> (r: SafetyReview)
    ensures
        (r.audits@, r.status) == ceremony(tiers_of(verdicts@), sizes_of(verdicts@), *flags, bulk_count, answers@),
{
    let ghost tiers = tiers_of(verdicts@);
    let ghost sizes = sizes_of(verdicts@);
    let mut audits: Vec<AuditEntry> = Vec::new();
    let s0 = t0_exec(verdicts, flags, &mut audits);
    assert(audits@ =~= t0_phase(tiers, *flags).audits);
    match s0 {
        PhaseStep::Next(_) => {},
        other => {
            return SafetyReview { audits, status: stop(other) };
        },
    }
    let s1 = t1_exec(verdicts, flags, bulk_count, answers, &mut audits);
    let used1 = match s1 {
        PhaseStep::Next(n) => n,
        other => {
            return SafetyReview { audits, status: stop(other) };
        },
    };
    let ghost p1 = t1_phase(tiers, sizes, *flags, bulk_count, answers@);
    proof { lemma_t1_uses_available(tiers, sizes, *flags, bulk_count, answers@); }
    let rest1 = vstd::slice::slice_subrange(answers, used1, answers.len());
    assert(rest1@ =~= answers@.skip(used1 as int));
    let s2 = t2_exec(verdicts, flags, rest1, &mut audits);
    let used2 = match s2 {
        PhaseStep::Next(n) => n,
        other => {
            return SafetyReview { audits, status: stop(other) };
        },
    };
    proof { lemma_ask_each_uses_available_t2(tiers, *flags, rest1@); }
    let rest2 = vstd::slice::slice_subrange(rest1, used2, rest1.len());
    assert(rest2@ =~= rest1@.skip(used2 as int));
    let s3 = t3_exec(verdicts, flags, rest2, &mut audits);
    SafetyReview { audits, status: stop(s3) }
}

proof fn lemma_ask_each_uses_available(items: Seq<usize>, answers: Seq<bool>, allow: AuditResult, deny: AuditResult, kind: PromptKind)
    ensures
        ask_each(items, answers, allow, deny, kind).step matches Step::Next(n) ==> n <= answers.len(),
    decreases items.len(),
{
    if items.len() > 0 && answers.len() > 0 && answers[0] {
        lemma_ask_each_uses_available(items.skip(1), answers.skip(1), allow, deny, kind);
    }
}

proof fn lemma_t1_uses_available(tiers: Seq<SafetyTier>, sizes: Seq<u64>, flags: SafetyFlags, bulk_count: usize, answers: Seq<bool>)
    ensures
        t1_phase(tiers, sizes, flags, bulk_count, answers).step matches Step::Next(n) ==> n <= answers.len(),
{
    let items = indices_of(tiers, SafetyTier::T1ProtectedRoot);
    lemma_ask_each_uses_available(items, answers, AuditResult::AllowedT1Prompt, AuditResult::DeniedT1Prompt, PromptKind::T1);
}

proof fn lemma_ask_each_uses_available_t2(tiers: Seq<SafetyTier>, flags: SafetyFlags, answers: Seq<bool>)
    ensures
        t2_phase(tiers, flags, answers).step matches Step::Next(n) ==> n <= answers.len(),
{
    let items = indices_of(tiers, SafetyTier::T2Sensitive);
    lemma_ask_each_uses_available(items, answers, AuditResult::AllowedT2Prompt, AuditResult::DeniedT2Prompt,
        PromptKind::T2 { permanent: flags.permanent });
}

} // verus!

verus! {

proof fn lemma_indices_nonempty(tiers: Seq<SafetyTier>, t: SafetyTier, k: int)
    requires
        0 <= k < tiers.len(),
        tiers[k] == t,
    ensures
        indices_of(tiers, t).len() > 0,
    decreases tiers.len(),
{
    if k < tiers.len() - 1 {
        assert(tiers.drop_last()[k] == t);
        lemma_indices_nonempty(tiers.drop_last(), t, k);
    }
}

proof fn lemma_indices_empty(tiers: Seq<SafetyTier>, t: SafetyTier)
    requires
        forall|k: int| 0 <= k < tiers.len() ==> tiers[k] != t,
    ensures
        indices_of(tiers, t).len() == 0,
    decreases tiers.len(),
{
    if tiers.len() > 0 {
        assert(tiers[tiers.len() - 1] != t);
        lemma_indices_empty(tiers.drop_last(), t);
    }
}

/// The first position of `t` comes first among the positions of `t`.
proof fn lemma_indices_first(tiers: Seq<SafetyTier>, t: SafetyTier, i: int)
    requires
        tiers.len() <= usize::MAX,
        0 <= i < tiers.len(),
        tiers[i] == t,
        forall|j: int| 0 <= j < i ==> tiers[j] != t,
    ensures
        indices_of(tiers, t).len() > 0,
        indices_of(tiers, t)[0] == i,
    decreases tiers.len(),
{
    let prev = indices_of(tiers.drop_last(), t);
    if i == tiers.len() - 1 {
        lemma_indices_empty(tiers.drop_last(), t);
        assert(tiers.last() == t);
    } else {
        assert(tiers.drop_last()[i] == t);
        assert forall|j: int| 0 <= j < i implies tiers.drop_last()[j] != t by {
            assert(tiers.drop_last()[j] == tiers[j]);
        }
        lemma_indices_first(tiers.drop_last(), t, i);
    }
}

/// Without a terminal, a batch that holds a T3 item is allowed only with
/// `--force` or `--allow-protected`.
pub proof fn t3_items_need_a_flag_without_a_terminal(
    tiers: Seq<SafetyTier>,
    sizes: Seq<u64>,
    flags: SafetyFlags,
    bulk_count: usize,
    answers: Seq<bool>,
    k: int,
)
    requires
        !flags.is_interactive,
        0 <= k < tiers.len(),
        tiers[k] == SafetyTier::T3SemiProtected,
    ensures
        ceremony(tiers, sizes, flags, bulk_count, answers).1 == SafetyStatus::Allowed ==> flags.force || flags.allow_protected,
{
    lemma_indices_nonempty(tiers, SafetyTier::T3SemiProtected, k);
}

/// Without a terminal, `--force` or `--allow-protected`, a batch whose only
/// protected items are T3 items is refused at its first T3 item, with one
/// audit record `DENIED_T3_NON_TTY` for that item.
pub proof fn t3_items_are_refused_in_scripts(
    tiers: Seq<SafetyTier>,
    sizes: Seq<u64>,
    flags: SafetyFlags,
    bulk_count: usize,
    answers: Seq<bool>,
    i: int,
)
    requires
        !flags.is_interactive,
        !flags.force,
        !flags.allow_protected,
        tiers.len() <= usize::MAX,
        0 <= i < tiers.len(),
        tiers[i] == SafetyTier::T3SemiProtected,
        forall|j: int| 0 <= j < i ==> tiers[j] != SafetyTier::T3SemiProtected,
        forall|j: int| 0 <= j < tiers.len() ==> tiers[j] == SafetyTier::T3SemiProtected || tiers[j] == SafetyTier::Standard,
    ensures
        ceremony(tiers, sizes, flags, bulk_count, answers) == (
            seq![AuditEntry { item: i as usize, result: AuditResult::DeniedT3NonTty }],
            SafetyStatus::Denied(SafetyDenial::T3NonInteractive { item: i as usize }),
        ),
        audit_label(AuditResult::DeniedT3NonTty) == "DENIED_T3_NON_TTY"@,
{
    lemma_indices_empty(tiers, SafetyTier::T0Refuse);
    lemma_indices_empty(tiers, SafetyTier::T1ProtectedRoot);
    lemma_indices_empty(tiers, SafetyTier::T2Sensitive);
    lemma_indices_first(tiers, SafetyTier::T3SemiProtected, i);
    let e = Seq::<AuditEntry>::empty();
    let last = seq![AuditEntry { item: i as usize, result: AuditResult::DeniedT3NonTty }];
    assert(e + e + e + last =~= last);
}

/// A permanent deletion that touches a T0 or T1 item is refused, whatever
/// the other flags and answers.
pub proof fn permanent_deletion_of_protected_is_refused(tiers: Seq<SafetyTier>, sizes: Seq<u64>, flags: SafetyFlags, bulk_count: usize, answers: Seq<bool>, k: int)
    requires
        flags.permanent,
        0 <= k < tiers.len(),
        tiers[k] == SafetyTier::T0Refuse || tiers[k] == SafetyTier::T1ProtectedRoot,
    ensures
        ceremony(tiers, sizes, flags, bulk_count, answers).1 is Denied,
{
    if tiers[k] == SafetyTier::T0Refuse {
        lemma_indices_nonempty(tiers, SafetyTier::T0Refuse, k);
    } else {
        lemma_indices_nonempty(tiers, SafetyTier::T1ProtectedRoot, k);
    }
}

/// Without a terminal the ceremony never asks a question: it allows or
/// refuses on the flags alone.
pub proof fn non_interactive_never_asks(tiers: Seq<SafetyTier>, sizes: Seq<u64>, flags: SafetyFlags, bulk_count: usize, answers: Seq<bool>)
    requires
        !flags.is_interactive,
    ensures
        !(ceremony(tiers, sizes, flags, bulk_count, answers).1 is Ask),
{
}

/// With `--no-preserve-root --allow-protected --force` and no permanent
/// deletion, every batch is allowed without a question.
pub proof fn full_override_allows_everything(tiers: Seq<SafetyTier>, sizes: Seq<u64>, flags: SafetyFlags, bulk_count: usize, answers: Seq<bool>)
    requires
        flags.no_preserve_root,
        flags.allow_protected,
        flags.force,
        !flags.permanent,
    ensures
        ceremony(tiers, sizes, flags, bulk_count, answers).1 == SafetyStatus::Allowed,
{
}

/// A batch of standard paths passes with no audit record and no question.
pub proof fn standard_paths_pass_silently(tiers: Seq<SafetyTier>, sizes: Seq<u64>, flags: SafetyFlags, bulk_count: usize, answers: Seq<bool>)
    requires
        forall|k: int| 0 <= k < tiers.len() ==> tiers[k] == SafetyTier::Standard,
    ensures
        ceremony(tiers, sizes, flags, bulk_count, answers) == (Seq::<AuditEntry>::empty(), SafetyStatus::Allowed),
{
    lemma_indices_empty(tiers, SafetyTier::T0Refuse);
    lemma_indices_empty(tiers, SafetyTier::T1ProtectedRoot);
    lemma_indices_empty(tiers, SafetyTier::T2Sensitive);
    lemma_indices_empty(tiers, SafetyTier::T3SemiProtected);
    let e = Seq::<AuditEntry>::empty();
    assert(e + e + e + e =~= e);
}

proof fn lemma_ask_each_decided(items: Seq<usize>, answers: Seq<bool>, extra: Seq<bool>, allow: AuditResult, deny: AuditResult, kind: PromptKind)
    requires
        !(ask_each(items, answers, allow, deny, kind).step is Ask),
    ensures
        ask_each(items, answers + extra, allow, deny, kind) == ask_each(items, answers, allow, deny, kind),
    decreases items.len(),
{
    if items.len() > 0 {
        assert((answers + extra)[0] == answers[0]);
        if answers[0] {
            assert((answers + extra).skip(1) =~= answers.skip(1) + extra);
            lemma_ask_each_decided(items.skip(1), answers.skip(1), extra, allow, deny, kind);
        }
    }
}

proof fn lemma_ask_each_decided_uses(items: Seq<usize>, answers: Seq<bool>, allow: AuditResult, deny: AuditResult, kind: PromptKind)
    ensures
        ask_each(items, answers, allow, deny, kind).step matches Step::Next(n) ==> n <= answers.len(),
    decreases items.len(),
{
    if items.len() > 0 && answers.len() > 0 && answers[0] {
        lemma_ask_each_decided_uses(items.skip(1), answers.skip(1), allow, deny, kind);
    }
}

/// Once the ceremony has decided (allowed or refused), answering more
/// questions changes neither the decision nor the audit records.
pub proof fn decided_ceremony_ignores_further_answers(tiers: Seq<SafetyTier>, sizes: Seq<u64>, flags: SafetyFlags, bulk_count: usize, answers: Seq<bool>, extra: Seq<bool>)
    requires
        !(ceremony(tiers, sizes, flags, bulk_count, answers).1 is Ask),
    ensures
        ceremony(tiers, sizes, flags, bulk_count, answers + extra) == ceremony(tiers, sizes, flags, bulk_count, answers),
{
    let all = answers + extra;
    let i1 = indices_of(tiers, SafetyTier::T1ProtectedRoot);
    let i2 = indices_of(tiers, SafetyTier::T2Sensitive);
    let i3 = indices_of(tiers, SafetyTier::T3SemiProtected);
    let p0 = t0_phase(tiers, flags);
    if p0.step is Next {
        let p1 = t1_phase(tiers, sizes, flags, bulk_count, answers);
        if answers.len() > 0 {
            assert(all[0] == answers[0]);
        }
        if !flags.permanent && !is_bulk(sizes, i1, bulk_count) && !flags.allow_protected && flags.is_interactive && i1.len() > 0 {
            if !(p1.step is Ask) {
                lemma_ask_each_decided(i1, answers, extra, AuditResult::AllowedT1Prompt, AuditResult::DeniedT1Prompt, PromptKind::T1);
            }
        }
        lemma_ask_each_decided_uses(i1, answers, AuditResult::AllowedT1Prompt, AuditResult::DeniedT1Prompt, PromptKind::T1);
        assert(t1_phase(tiers, sizes, flags, bulk_count, all).step is Ask ==> p1.step is Ask);
        if !(p1.step is Ask) {
            assert(t1_phase(tiers, sizes, flags, bulk_count, all) == p1);
        }
        if let Step::Next(u1) = p1.step {
            lemma_t1_uses_available(tiers, sizes, flags, bulk_count, answers);
            let r1 = answers.skip(u1 as int);
            assert(all.skip(u1 as int) =~= r1 + extra);
            let p2 = t2_phase(tiers, flags, r1);
            let kind2 = PromptKind::T2 { permanent: flags.permanent };
            if !flags.force && flags.is_interactive && i2.len() > 0 && !(p2.step is Ask) {
                lemma_ask_each_decided(i2, r1, extra, AuditResult::AllowedT2Prompt, AuditResult::DeniedT2Prompt, kind2);
            }
            if !(p2.step is Ask) {
                assert(t2_phase(tiers, flags, r1 + extra) == p2);
            }
            if let Step::Next(u2) = p2.step {
                lemma_ask_each_uses_available_t2(tiers, flags, r1);
                let r2 = r1.skip(u2 as int);
                assert((r1 + extra).skip(u2 as int) =~= r2 + extra);
                let p3 = t3_phase(tiers, flags, r2);
                if !flags.force && !flags.allow_protected && flags.is_interactive && i3.len() > 0 && !(p3.step is Ask) {
                    lemma_ask_each_decided(i3, r2, extra, AuditResult::AllowedT3Prompt, AuditResult::DeniedT3Prompt, PromptKind::T3);
                }
                if !(p3.step is Ask) {
                    assert(t3_phase(tiers, flags, r2 + extra) == p3);
                }
            }
        }
    }
}

} // verus!

verus! {

/// Runs the ceremony over `verdicts` with the given flags and the answers
/// given so far, using the bulk threshold of `config` (see `ceremony`).
pub fn verify_safety(verdicts: &[SafetyVerdict], flags: &SafetyFlags, config: &Config, answers: &[bool]) -> (r: SafetyReview)
    ensures
        (r.audits@, r.status) == ceremony(tiers_of(verdicts@), sizes_of(verdicts@), *flags, config.safety.bulk_count, answers@),
{
    review_ceremony(verdicts, flags, config.safety.bulk_count, answers)
}

impl SafetyReview {
    /// The ceremony allowed the batch.
    pub fn is_allowed(&self) -> (r: bool)
        ensures
            r == (self.status == SafetyStatus::Allowed),
    {
        match self.status {
            SafetyStatus::Allowed => true,
            _ => false,
        }
    }

    /// The ceremony refused the batch.
    pub fn is_denied(&self) -> (r: bool)
        ensures
            r == (self.status is Denied),
    {
        match self.status {
            SafetyStatus::Denied(_) => true,
            _ => false,
        }
    }
}

} // verus!
