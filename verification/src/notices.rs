//! What the safety ceremony says: the questions it asks, how an answer is
//! read, the message of each refusal, and the audit record of each
//! decision.

use vstd::prelude::*;
use crate::ceremony::{
    ask_each, audit_label, ceremony, indices_of, stop_status, t0_phase, t1_phase, t2_phase, t3_phase, AuditResult,
    PhaseOutcome, PromptKind, SafetyDenial, SafetyFlags, SafetyPrompt, SafetyStatus, Step,
};
use crate::safety::SafetyTier;
use crate::numfmt::{decimal, decimal_string};
use crate::safety::{tier_label, SafetyVerdict};
use crate::sizes::{bytes_brief_text, format_bytes_brief};
use crate::text::{append_chars, chars_of, concat3, lowercase, string_of, to_lowercase, trim_chars, trim_white};

verus! {

/// The normalized paths of the verdicts.
pub open spec fn paths_of(v: Seq<SafetyVerdict>) -> Seq<Seq<char>> {
    Seq::new(v.len(), |i: int| v[i].normalized_path@)
}

/// The verdict that a question is about lies within the batch, and a bulk
/// total fits in 64 bits.
pub open spec fn prompt_fits(p: SafetyPrompt, n: nat) -> bool {
    match p {
        SafetyPrompt::T1Bulk { total_size, .. } => total_size <= u64::MAX,
        SafetyPrompt::T1 { item } => item < n,
        SafetyPrompt::T2 { item, .. } => item < n,
        SafetyPrompt::T3 { item } => item < n,
    }
}

/// The question put to the user.
pub open spec fn prompt_message(p: SafetyPrompt, paths: Seq<Seq<char>>) -> Seq<char> {
    match p {
        SafetyPrompt::T1Bulk { count, total_size } => "rinode: T1 bulk operation detected ("@ + decimal(count as nat)
            + " protected items, "@ + bytes_brief_text(total_size as u64) + "). Move to storage? [y/N]: "@,
        SafetyPrompt::T1 { item } => "rinode: '"@ + paths[item as int]
            + "' is a T1 protected path. Move to storage? [y/N]: "@,
        SafetyPrompt::T2 { item, permanent } => if permanent {
            "rinode: WARNING: '"@ + paths[item as int]
                + "' contains sensitive credentials. Permanently delete from disk? [y/N]: "@
        } else {
            "rinode: WARNING: '"@ + paths[item as int]
                + "' contains sensitive credentials. Move to storage (will remain in vault until purged)? [y/N]: "@
        },
        SafetyPrompt::T3 { item } => "rinode: '"@ + paths[item as int]
            + "' is in a T3 semi-protected path (/opt or /srv). Move to storage? [y/N]: "@,
    }
}

/// The question for a prompt of the ceremony (see `prompt_message`).
pub fn prompt_text(prompt: SafetyPrompt, verdicts: &[SafetyVerdict]) -> (r: String)
    requires
        prompt_fits(prompt, verdicts@.len()),
    ensures
        r@ == prompt_message(prompt, paths_of(verdicts@)),
{
    match prompt {
        SafetyPrompt::T1Bulk { count, total_size } => {
            let mut out = chars_of("rinode: T1 bulk operation detected (");
            let c = chars_of(decimal_string(count as u64).as_str());
            let mid = chars_of(" protected items, ");
            let size = chars_of(format_bytes_brief(total_size as u64).as_str());
            let tail = chars_of("). Move to storage? [y/N]: ");
            append_chars(&mut out, c.as_slice());
            append_chars(&mut out, mid.as_slice());
            append_chars(&mut out, size.as_slice());
            append_chars(&mut out, tail.as_slice());
            string_of(out.as_slice())
        },
        SafetyPrompt::T1 { item } => {
            let p = chars_of(verdicts[item].normalized_path.as_str());
            concat3("rinode: '", p.as_slice(), "' is a T1 protected path. Move to storage? [y/N]: ")
        },
        SafetyPrompt::T2 { item, permanent } => {
            let p = chars_of(verdicts[item].normalized_path.as_str());
            if permanent {
                concat3(
                    "rinode: WARNING: '",
                    p.as_slice(),
                    "' contains sensitive credentials. Permanently delete from disk? [y/N]: ",
                )
            } else {
                concat3(
                    "rinode: WARNING: '",
                    p.as_slice(),
                    "' contains sensitive credentials. Move to storage (will remain in vault until purged)? [y/N]: ",
                )
            }
        },
        SafetyPrompt::T3 { item } => {
            let p = chars_of(verdicts[item].normalized_path.as_str());
            concat3(
                "rinode: '",
                p.as_slice(),
                "' is in a T3 semi-protected path (/opt or /srv). Move to storage? [y/N]: ",
            )
        },
    }
}

/// An answer is yes when, trimmed and lowercased, it is `y` or `yes`.
pub open spec fn is_yes(line: Seq<char>) -> bool {
    let a = lowercase(trim_white(line));
    a == "y"@ || a == "yes"@
}

/// Reads a typed answer (see `is_yes`).
pub fn answer_is_yes(line: &str) -> (r: bool)
    ensures
        r == is_yes(line@),
{
    let c = chars_of(line);
    let t = trim_chars(c.as_slice());
    let ts = string_of(t.as_slice());
    let l = to_lowercase(ts.as_str());
    let lc = chars_of(l.as_str());
    let y = chars_of("y");
    let yes = chars_of("yes");
    crate::text::chars_eq(lc.as_slice(), y.as_slice()) || crate::text::chars_eq(lc.as_slice(), yes.as_slice())
}

/// The verdict that a refusal is about lies within the batch.
pub open spec fn denial_fits(d: SafetyDenial, n: nat) -> bool {
    match d {
        SafetyDenial::PermanentOnT0 { item } => item < n,
        SafetyDenial::MissingT0Flags { item } => item < n,
        SafetyDenial::PermanentOnT1 { item } => item < n,
        SafetyDenial::T1NonInteractive { item } => item < n,
        SafetyDenial::T2NonInteractive { item } => item < n,
        SafetyDenial::T3NonInteractive { item } => item < n,
        _ => true,
    }
}

/// The message of a refusal.
pub open spec fn denial_message(d: SafetyDenial, paths: Seq<Seq<char>>) -> Seq<char> {
    match d {
        SafetyDenial::PermanentOnT0 { item } => "refusing to permanently delete T0 protected path '"@ + paths[item as int]
            + "' (vaulting required, --no-storage is not permitted)"@,
        SafetyDenial::MissingT0Flags { item } => "refusing to remove T0 protected path '"@ + paths[item as int]
            + "'. Overriding requires: --no-preserve-root --allow-protected --force"@,
        SafetyDenial::PermanentOnT1 { item } => "refusing to permanently delete T1 protected path '"@ + paths[item as int]
            + "' (vaulting required, --no-storage is not permitted)"@,
        SafetyDenial::Cancelled => "operation cancelled by user"@,
        SafetyDenial::T1BulkNonInteractive =>
            "refusing bulk deletion of T1 protected items in non-interactive session. Requires: --allow-protected --force"@,
        SafetyDenial::T1NonInteractive { item } => "refusing to remove T1 protected path '"@ + paths[item as int]
            + "' in non-interactive session. Use --allow-protected to proceed"@,
        SafetyDenial::T2NonInteractive { item } => "refusing to remove T2 sensitive path '"@ + paths[item as int]
            + "' without confirmation. Use -f / --force to confirm in scripts"@,
        SafetyDenial::T3NonInteractive { item } => "refusing to remove T3 semi-protected path '"@ + paths[item as int]
            + "' in non-interactive session. Use -f / --force or --allow-protected"@,
    }
}

/// The message of a refusal of the ceremony (see `denial_message`).
pub fn denial_text(denial: SafetyDenial, verdicts: &[SafetyVerdict]) -> (r: String)
    requires
        denial_fits(denial, verdicts@.len()),
    ensures
        r@ == denial_message(denial, paths_of(verdicts@)),
{
    match denial {
        SafetyDenial::PermanentOnT0 { item } => {
            let p = chars_of(verdicts[item].normalized_path.as_str());
            concat3(
                "refusing to permanently delete T0 protected path '",
                p.as_slice(),
                "' (vaulting required, --no-storage is not permitted)",
            )
        },
        SafetyDenial::MissingT0Flags { item } => {
            let p = chars_of(verdicts[item].normalized_path.as_str());
            concat3(
                "refusing to remove T0 protected path '",
                p.as_slice(),
                "'. Overriding requires: --no-preserve-root --allow-protected --force",
            )
        },
        SafetyDenial::PermanentOnT1 { item } => {
            let p = chars_of(verdicts[item].normalized_path.as_str());
            concat3(
                "refusing to permanently delete T1 protected path '",
                p.as_slice(),
                "' (vaulting required, --no-storage is not permitted)",
            )
        },
        SafetyDenial::Cancelled => "operation cancelled by user".to_owned(),
        SafetyDenial::T1BulkNonInteractive => {
            "refusing bulk deletion of T1 protected items in non-interactive session. Requires: --allow-protected --force".to_owned()
        },
        SafetyDenial::T1NonInteractive { item } => {
            let p = chars_of(verdicts[item].normalized_path.as_str());
            concat3(
                "refusing to remove T1 protected path '",
                p.as_slice(),
                "' in non-interactive session. Use --allow-protected to proceed",
            )
        },
        SafetyDenial::T2NonInteractive { item } => {
            let p = chars_of(verdicts[item].normalized_path.as_str());
            concat3(
                "refusing to remove T2 sensitive path '",
                p.as_slice(),
                "' without confirmation. Use -f / --force to confirm in scripts",
            )
        },
        SafetyDenial::T3NonInteractive { item } => {
            let p = chars_of(verdicts[item].normalized_path.as_str());
            concat3(
                "refusing to remove T3 semi-protected path '",
                p.as_slice(),
                "' in non-interactive session. Use -f / --force or --allow-protected",
            )
        },
    }
}

/// The flags named in an audit record, in a fixed order, separated by
/// spaces.
pub open spec fn flag_words(f: SafetyFlags) -> Seq<Seq<char>> {
    let a = if f.allow_protected { seq!["--allow-protected"@] } else { Seq::empty() };
    let b = if f.no_preserve_root { seq!["--no-preserve-root"@] } else { Seq::empty() };
    let c = if f.force { seq!["-f/--force"@] } else { Seq::empty() };
    let d = if f.permanent { seq!["-p/--permanent"@] } else { Seq::empty() };
    a + b + c + d
}

/// The words joined with single spaces.
pub open spec fn joined(words: Seq<Seq<char>>) -> Seq<char>
    decreases words.len(),
{
    if words.len() == 0 {
        Seq::empty()
    } else if words.len() == 1 {
        words[0]
    } else {
        joined(words.drop_last()) + seq![' '] + words.last()
    }
}

/// One record of the safety audit log.
#[derive(Debug, Clone)]
pub struct SafetyAuditRecord {
    pub timestamp: String,
    pub uid: u32,
    pub euid: u32,
    pub pid: u32,
    pub ppid: u32,
    pub cwd: String,
    pub canonical_path: String,
    pub tier: String,
    pub flags: String,
    pub result: String,
}

/// Where the process stood when it decided: the time (RFC 3339), the real
/// and effective user ids, the process and parent process ids, and the
/// working directory.
#[derive(Debug, Clone)]
pub struct ProcessContext {
    pub timestamp: String,
    pub uid: u32,
    pub euid: u32,
    pub pid: u32,
    pub ppid: u32,
    pub cwd: String,
}

fn push_word(out: &mut Vec<char>, Ghost(words): Ghost<Seq<Seq<char>>>, first: bool, w: &str) -> (next: Ghost<Seq<Seq<char>>>)
    requires
        old(out)@ == joined(words),
        first == (words.len() == 0),
    ensures
        next@ == words.push(w@),
        final(out)@ == joined(next@),
{
    let ghost nw = words.push(w@);
    assert(nw.drop_last() =~= words);
    let c = chars_of(w);
    if first {
        assert(old(out)@ =~= Seq::<char>::empty());
        append_chars(out, c.as_slice());
        assert(out@ =~= joined(nw));
    } else {
        out.push(' ');
        append_chars(out, c.as_slice());
        assert(out@ =~= joined(nw));
    }
    Ghost(nw)
}

/// The flags of an audit record (see `flag_words`).
pub fn flags_text(flags: &SafetyFlags) -> (r: String)
    ensures
        r@ == joined(flag_words(*flags)),
{
    let mut out: Vec<char> = Vec::new();
    let ghost mut words: Seq<Seq<char>> = Seq::empty();
    let mut first = true;
    assert(out@ =~= joined(words));
    if flags.allow_protected {
        let Ghost(w) = push_word(&mut out, Ghost(words), first, "--allow-protected");
        proof { words = w; }
        first = false;
    }
    if flags.no_preserve_root {
        let Ghost(w) = push_word(&mut out, Ghost(words), first, "--no-preserve-root");
        proof { words = w; }
        first = false;
    }
    if flags.force {
        let Ghost(w) = push_word(&mut out, Ghost(words), first, "-f/--force");
        proof { words = w; }
        first = false;
    }
    if flags.permanent {
        let Ghost(w) = push_word(&mut out, Ghost(words), first, "-p/--permanent");
        proof { words = w; }
    }
    assert(words =~= flag_words(*flags));
    string_of(out.as_slice())
}

/// Builds a log line for the ceremony's outcome on a path: where the path
/// really leads (else its normalized form), its tier, the flags given and
/// the outcome, next to who ran the command and from where.
pub fn audit_record(verdict: &SafetyVerdict, flags: &SafetyFlags, result: AuditResult, ctx: ProcessContext) -> (r: SafetyAuditRecord)
    ensures
        r.timestamp@ == ctx.timestamp@,
        r.uid == ctx.uid,
        r.euid == ctx.euid,
        r.pid == ctx.pid,
        r.ppid == ctx.ppid,
        r.cwd@ == ctx.cwd@,
        r.canonical_path@ == (match verdict.canonical_path {
            Some(c) => c@,
            None => verdict.normalized_path@,
        }),
        r.tier@ == tier_label(verdict.tier),
        r.flags@ == joined(flag_words(*flags)),
        r.result@ == audit_label(result),
{
    let canonical = match &verdict.canonical_path {
        Some(c) => c.clone(),
        None => verdict.normalized_path.clone(),
    };
    SafetyAuditRecord {
        timestamp: ctx.timestamp,
        uid: ctx.uid,
        euid: ctx.euid,
        pid: ctx.pid,
        ppid: ctx.ppid,
        cwd: ctx.cwd,
        canonical_path: canonical,
        tier: verdict.tier.as_str().to_owned(),
        flags: flags_text(flags),
        result: result.as_str().to_owned(),
    }
}

/// A phase's step speaks only of verdicts below `n`.
pub open spec fn step_fits(s: Step, n: nat) -> bool {
    match s {
        Step::Ask(p) => (p is T1Bulk) || prompt_fits(p, n),
        Step::Deny(d) => denial_fits(d, n),
        Step::Next(_) => true,
    }
}

proof fn lemma_ask_each_fits(items: Seq<usize>, answers: Seq<bool>, allow: AuditResult, deny: AuditResult, kind: PromptKind, n: nat)
    requires
        forall|k: int| 0 <= k < items.len() ==> (#[trigger] items[k]) < n,
    ensures
        step_fits(ask_each(items, answers, allow, deny, kind).step, n),
    decreases items.len(),
{
    if items.len() > 0 && answers.len() > 0 && answers[0] {
        assert forall|k: int| 0 <= k < items.skip(1).len() implies (#[trigger] items.skip(1)[k]) < n by {
            assert(items.skip(1)[k] == items[k + 1]);
        }
        lemma_ask_each_fits(items.skip(1), answers.skip(1), allow, deny, kind, n);
    }
}

/// Every question that the safety ceremony asks and every refusal it gives
/// is about a verdict of the batch, so that its text can always be written
/// (a bulk question speaks of the batch as a whole).
pub proof fn ceremony_speaks_of_the_batch(
    tiers: Seq<SafetyTier>,
    sizes: Seq<u64>,
    flags: SafetyFlags,
    bulk_count: usize,
    answers: Seq<bool>,
)
    requires
        tiers.len() <= usize::MAX,
    ensures
        ceremony(tiers, sizes, flags, bulk_count, answers).1 matches SafetyStatus::Ask(p) ==> (p is T1Bulk) || prompt_fits(
            p,
            tiers.len(),
        ),
        ceremony(tiers, sizes, flags, bulk_count, answers).1 matches SafetyStatus::Denied(d) ==> denial_fits(d, tiers.len()),
{
    let n = tiers.len();
    crate::ceremony::lemma_indices_of(tiers, SafetyTier::T0Refuse);
    crate::ceremony::lemma_indices_of(tiers, SafetyTier::T1ProtectedRoot);
    crate::ceremony::lemma_indices_of(tiers, SafetyTier::T2Sensitive);
    crate::ceremony::lemma_indices_of(tiers, SafetyTier::T3SemiProtected);
    let i1 = indices_of(tiers, SafetyTier::T1ProtectedRoot);
    let i2 = indices_of(tiers, SafetyTier::T2Sensitive);
    let i3 = indices_of(tiers, SafetyTier::T3SemiProtected);
    assert(step_fits(t0_phase(tiers, flags).step, n));
    lemma_ask_each_fits(i1, answers, AuditResult::AllowedT1Prompt, AuditResult::DeniedT1Prompt, PromptKind::T1, n);
    assert(step_fits(t1_phase(tiers, sizes, flags, bulk_count, answers).step, n));
    let p1 = t1_phase(tiers, sizes, flags, bulk_count, answers);
    if let Step::Next(u1) = p1.step {
        let rest1 = answers.skip(u1 as int);
        lemma_ask_each_fits(i2, rest1, AuditResult::AllowedT2Prompt, AuditResult::DeniedT2Prompt,
            PromptKind::T2 { permanent: flags.permanent }, n);
        assert(step_fits(t2_phase(tiers, flags, rest1).step, n));
        if let Step::Next(u2) = t2_phase(tiers, flags, rest1).step {
            let rest2 = rest1.skip(u2 as int);
            lemma_ask_each_fits(i3, rest2, AuditResult::AllowedT3Prompt, AuditResult::DeniedT3Prompt, PromptKind::T3, n);
            assert(step_fits(t3_phase(tiers, flags, rest2).step, n));
        }
    }
}

} // verus!
