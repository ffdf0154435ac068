//! The decisions and texts of the command-line subcommands: what `rm`
//! reports, how `ls` lays out its table, what `inspect` shows, which entries
//! `purge` takes and when it fails, and what `exclude` does.

use vstd::prelude::*;
use crate::config::{ExclusionKind, ExclusionsConfig};
use crate::numfmt::{decimal, decimal_string, mode_octal, octal_padded, octal_width, signed_decimal, signed_decimal_string};
use crate::path::{file_name, file_name_of};
use crate::records::{EntryRecord, LINK_SYMLINK, STATUS_EXCLUDED, STATUS_PRESERVED, STATUS_PURGED, STATUS_RESTORED};
use crate::sizes::{bytes_text, format_bytes};
use crate::text::{cat, cat_spec, str_eq};

verus! {

/// The line printed for an item that `rm` removed: permanently removed
/// items say so.
pub open spec fn removal_message(e: EntryRecord) -> Seq<char> {
    if e.status@ == STATUS_PURGED@ {
        "Deleted ["@ + signed_decimal(e.id as int) + "] '"@ + e.filename@ + "' permanently (inode: "@
            + decimal(e.inode_no as nat) + ", size: "@ + bytes_text(e.file_size) + ")"@
    } else {
        "Deleted ["@ + signed_decimal(e.id as int) + "] '"@ + e.filename@ + "' (inode: "@
            + decimal(e.inode_no as nat) + ", size: "@ + bytes_text(e.file_size) + ")"@
    }
}

/// The line printed for an item that `rm` removed (see `removal_message`).
pub fn removal_line(entry: &EntryRecord) -> (r: String)
    ensures
        r@ == removal_message(*entry),
{
    let id = signed_decimal_string(entry.id);
    let ino = decimal_string(entry.inode_no);
    let size = format_bytes(entry.file_size);
    let purged = str_eq(entry.status.as_str(), STATUS_PURGED);
    let how = if purged { "' permanently (inode: " } else { "' (inode: " };
    let r = cat(&["Deleted [", id.as_str(), "] '", entry.filename.as_str(), how, ino.as_str(), ", size: ", size.as_str(), ")"]);
    proof {
        reveal_with_fuel(cat_spec, 10);
    }
    assert(r@ =~= removal_message(*entry));
    r
}

/// The count as text.
fn count_text(n: u128) -> (r: String)
    ensures
        r@ == decimal(n as nat),
{
    let mut v: Vec<char> = Vec::new();
    crate::numfmt::push_decimal(&mut v, n);
    assert(v@ =~= decimal(n as nat));
    crate::text::string_of(v.as_slice())
}

/// The closing line of `rm`, from how many items were kept in the vault,
/// removed permanently and excluded by a rule; nothing when there were none.
pub open spec fn removal_summary_text(preserved: nat, permanent: nat, excluded: nat) -> Option<Seq<char>> {
    let undo = ". Run 'rinode ls' or 'rinode restore <id>' to undo."@;
    if preserved > 0 {
        if permanent > 0 || excluded > 0 {
            let details = if permanent > 0 && excluded > 0 {
                decimal(permanent) + " permanently, "@ + decimal(excluded) + " excluded"@
            } else if permanent > 0 {
                decimal(permanent) + " permanently"@
            } else {
                decimal(excluded) + " excluded"@
            };
            Some("Deleted "@ + decimal(preserved + permanent) + " item(s) ("@ + details + ")"@ + undo)
        } else {
            Some("Deleted "@ + decimal(preserved) + " item(s)"@ + undo)
        }
    } else if permanent > 0 {
        if excluded > 0 {
            Some("Deleted "@ + decimal(permanent) + " item(s) permanently ("@ + decimal(excluded)
                + " excluded, tracked in history)."@)
        } else {
            Some("Deleted "@ + decimal(permanent) + " item(s) permanently (tracked in history)."@)
        }
    } else if excluded > 0 {
        Some("Deleted 0 item(s) ("@ + decimal(excluded) + " excluded)."@)
    } else {
        None
    }
}

/// The closing line of `rm` (see `removal_summary_text`).
pub fn removal_summary(preserved: u64, permanent: u64, excluded: u64) -> (r: Option<String>)
    ensures
        match r {
            Some(s) => removal_summary_text(preserved as nat, permanent as nat, excluded as nat) == Some(s@),
            None => removal_summary_text(preserved as nat, permanent as nat, excluded as nat) is None,
        },
{
    let p = count_text(permanent as u128);
    let e = count_text(excluded as u128);
    proof {
        reveal_with_fuel(cat_spec, 10);
    }
    let undo = ". Run 'rinode ls' or 'rinode restore <id>' to undo.";
    if preserved > 0 {
        if permanent > 0 || excluded > 0 {
            let total = count_text(preserved as u128 + permanent as u128);
            let r = if permanent > 0 && excluded > 0 {
                cat(&["Deleted ", total.as_str(), " item(s) (", p.as_str(), " permanently, ", e.as_str(), " excluded", ")", undo])
            } else if permanent > 0 {
                cat(&["Deleted ", total.as_str(), " item(s) (", p.as_str(), " permanently", ")", undo])
            } else {
                cat(&["Deleted ", total.as_str(), " item(s) (", e.as_str(), " excluded", ")", undo])
            };
            assert(Some(r@) =~= removal_summary_text(preserved as nat, permanent as nat, excluded as nat));
            Some(r)
        } else {
            let k = count_text(preserved as u128);
            let r = cat(&["Deleted ", k.as_str(), " item(s)", undo]);
            assert(Some(r@) =~= removal_summary_text(preserved as nat, permanent as nat, excluded as nat));
            Some(r)
        }
    } else if permanent > 0 {
        let r = if excluded > 0 {
            cat(&["Deleted ", p.as_str(), " item(s) permanently (", e.as_str(), " excluded, tracked in history)."])
        } else {
            cat(&["Deleted ", p.as_str(), " item(s) permanently (tracked in history)."])
        };
        assert(Some(r@) =~= removal_summary_text(preserved as nat, permanent as nat, excluded as nat));
        Some(r)
    } else if excluded > 0 {
        let r = cat(&["Deleted 0 item(s) (", e.as_str(), " excluded)."]);
        assert(Some(r@) =~= removal_summary_text(preserved as nat, permanent as nat, excluded as nat));
        Some(r)
    } else {
        None
    }
}

/// How `ls` fits its table to the terminal: how many directories of the
/// original path to show, and how long a name may be. Without a known width
/// the table is laid out for a wide terminal.
pub open spec fn layout_for(width: Option<usize>, all: bool) -> (usize, usize) {
    match width {
        Some(w) => if w >= 135 {
            (2, 36)
        } else if w >= 115 {
            (2, 28)
        } else if w >= 100 {
            (1, if all { 20 } else { 24 })
        } else if w >= 80 {
            (1, if all { 15 } else { 18 })
        } else {
            let spare = if all { if w >= 80 { w - 80 } else { 0 } } else { if w >= 68 { w - 68 } else { 0 } };
            (1, (if spare > 14 { spare } else { 14 }) as usize)
        },
        None => (2, 26),
    }
}

/// The layout of the `ls` table (see `layout_for`).
pub fn listing_layout(width: Option<usize>, all: bool) -> (r: (usize, usize))
    ensures
        r == layout_for(width, all),
{
    match width {
        Some(w) => if w >= 135 {
            (2, 36)
        } else if w >= 115 {
            (2, 28)
        } else if w >= 100 {
            (1, if all { 20 } else { 24 })
        } else if w >= 80 {
            (1, if all { 15 } else { 18 })
        } else {
            let spare = if all { w.saturating_sub(80) } else { w.saturating_sub(68) };
            (1, if spare > 14 { spare } else { 14 })
        },
        None => (2, 26),
    }
}

/// The size shown for an entry: a directory or a link has none.
pub open spec fn size_label(e: EntryRecord) -> Seq<char> {
    if e.is_directory {
        "<DIR>"@
    } else if e.link_type@ == LINK_SYMLINK@ {
        "<SYMLINK>"@
    } else {
        bytes_text(e.file_size)
    }
}

/// The size shown for an entry (see `size_label`).
pub fn size_cell(entry: &EntryRecord) -> (r: String)
    ensures
        r@ == size_label(*entry),
{
    if entry.is_directory {
        "<DIR>".to_owned()
    } else if str_eq(entry.link_type.as_str(), LINK_SYMLINK) {
        "<SYMLINK>".to_owned()
    } else {
        format_bytes(entry.file_size)
    }
}

/// The status shown to users: an item kept in the vault is `DELETED`.
pub open spec fn status_label(status: Seq<char>) -> Seq<char> {
    if status == STATUS_PRESERVED@ {
        "DELETED"@
    } else {
        status
    }
}

/// The status shown to users (see `status_label`).
pub fn status_cell(status: &str) -> (r: String)
    ensures
        r@ == status_label(status@),
{
    if str_eq(status, STATUS_PRESERVED) {
        "DELETED".to_owned()
    } else {
        status.to_owned()
    }
}

/// Where `inspect` says the item is stored.
pub open spec fn storage_label(e: EntryRecord) -> Seq<char> {
    if e.status@ == STATUS_EXCLUDED@ {
        "(none - excluded by rule)"@
    } else if e.status@ == STATUS_PURGED@ && e.vault_path@.len() == 0 {
        "(none - permanently unlinked)"@
    } else if e.vault_path@.len() == 0 {
        "(none)"@
    } else {
        e.vault_path@
    }
}

/// Where the item is stored (see `storage_label`).
pub fn storage_location(entry: &EntryRecord) -> (r: String)
    ensures
        r@ == storage_label(*entry),
{
    if str_eq(entry.status.as_str(), STATUS_EXCLUDED) {
        "(none - excluded by rule)".to_owned()
    } else if str_eq(entry.status.as_str(), STATUS_PURGED) && crate::text::chars_of(entry.vault_path.as_str()).len() == 0 {
        "(none - permanently unlinked)".to_owned()
    } else if crate::text::chars_of(entry.vault_path.as_str()).len() == 0 {
        "(none)".to_owned()
    } else {
        entry.vault_path.clone()
    }
}

/// Whether `purge` takes an entry it was asked for.
#[derive(Debug, Clone, Copy, PartialEq, Eq, Structural)]
pub enum PurgeCheck {
    /// The entry was purged before; it is skipped.
    AlreadyPurged,
    /// The entry was excluded by a rule and never stored.
    NeverStored,
    /// The entry was restored and nothing of it is left in storage.
    NotInStorage,
    /// The entry is purged.
    Purge,
}

/// An entry is taken unless it was purged or excluded, or restored with
/// nothing left in storage (`in_storage` is looked up only for restored
/// entries).
pub open spec fn purge_check_of(e: EntryRecord, in_storage: bool) -> PurgeCheck {
    if e.status@ == STATUS_PURGED@ {
        PurgeCheck::AlreadyPurged
    } else if e.status@ == STATUS_EXCLUDED@ {
        PurgeCheck::NeverStored
    } else if e.status@ == STATUS_RESTORED@ && !in_storage {
        PurgeCheck::NotInStorage
    } else {
        PurgeCheck::Purge
    }
}

/// Only a restored entry needs its stored copy looked up before a purge.
pub fn purge_needs_storage_check(entry: &EntryRecord) -> (r: bool)
    ensures
        r == (entry.status@ == STATUS_RESTORED@),
{
    str_eq(entry.status.as_str(), STATUS_RESTORED)
}

/// Decides whether `purge` takes the entry (see `purge_check_of`).
pub fn purge_check(entry: &EntryRecord, in_storage: bool) -> (r: PurgeCheck)
    ensures
        r == purge_check_of(*entry, in_storage),
{
    if str_eq(entry.status.as_str(), STATUS_PURGED) {
        PurgeCheck::AlreadyPurged
    } else if str_eq(entry.status.as_str(), STATUS_EXCLUDED) {
        PurgeCheck::NeverStored
    } else if str_eq(entry.status.as_str(), STATUS_RESTORED) && !in_storage {
        PurgeCheck::NotInStorage
    } else {
        PurgeCheck::Purge
    }
}

/// What `purge` says of a skipped entry, and whether the skip counts as a
/// failure. With `force` it says nothing and nothing fails; an entry that
/// was purged before is never a failure.
pub open spec fn skip_notice(check: PurgeCheck, e: EntryRecord, force: bool) -> (Option<Seq<char>>, bool) {
    if force {
        (None, false)
    } else {
        match check {
            PurgeCheck::AlreadyPurged => (
                Some("rinode: entry ["@ + signed_decimal(e.id as int) + "] '"@ + e.filename@ + "' is already purged."@),
                false,
            ),
            PurgeCheck::NeverStored => (
                Some("rinode: entry ["@ + signed_decimal(e.id as int) + "] was excluded and never stored in storage."@),
                true,
            ),
            PurgeCheck::NotInStorage => (
                Some("rinode: entry ["@ + signed_decimal(e.id as int) + "] '"@ + e.filename@
                    + "' was already restored and is not in storage."@),
                true,
            ),
            PurgeCheck::Purge => (None, false),
        }
    }
}

/// The text of an optional message.
pub open spec fn opt_chars(o: Option<String>) -> Option<Seq<char>> {
    match o {
        Some(s) => Some(s@),
        None => None,
    }
}

/// What `purge` says of a skipped entry (see `skip_notice`).
pub fn purge_skip_notice(check: PurgeCheck, entry: &EntryRecord, force: bool) -> (r: (Option<String>, bool))
    ensures
        (opt_chars(r.0), r.1) == skip_notice(check, *entry, force),
{
    if force {
        return (None, false);
    }
    let id = signed_decimal_string(entry.id);
    proof {
        reveal_with_fuel(cat_spec, 6);
    }
    match check {
        PurgeCheck::AlreadyPurged => {
            let m = cat(&["rinode: entry [", id.as_str(), "] '", entry.filename.as_str(), "' is already purged."]);
            assert(m@ =~= "rinode: entry ["@ + signed_decimal(entry.id as int) + "] '"@ + entry.filename@ + "' is already purged."@);
            (Some(m), false)
        },
        PurgeCheck::NeverStored => {
            let m = cat(&["rinode: entry [", id.as_str(), "] was excluded and never stored in storage."]);
            assert(m@ =~= "rinode: entry ["@ + signed_decimal(entry.id as int) + "] was excluded and never stored in storage."@);
            (Some(m), true)
        },
        PurgeCheck::NotInStorage => {
            let m = cat(&["rinode: entry [", id.as_str(), "] '", entry.filename.as_str(), "' was already restored and is not in storage."]);
            assert(m@ =~= "rinode: entry ["@ + signed_decimal(entry.id as int) + "] '"@ + entry.filename@
                + "' was already restored and is not in storage."@);
            (Some(m), true)
        },
        PurgeCheck::Purge => (None, false),
    }
}

/// Among the entries with the name asked for, `purge` takes the first one
/// still kept in the vault, else the first one.
pub fn pick_purge_match(matches: Vec<EntryRecord>) -> (r: Option<EntryRecord>)
    ensures
        match r {
            Some(e) => {
                ||| (exists|i: int| 0 <= i < matches@.len() && matches@[i] == e && e.status@ == STATUS_PRESERVED@
                    && forall|j: int| 0 <= j < i ==> #[trigger] matches@[j].status@ != STATUS_PRESERVED@)
                ||| (e == matches@[0] && matches@.len() > 0
                    && forall|j: int| 0 <= j < matches@.len() ==> #[trigger] matches@[j].status@ != STATUS_PRESERVED@)
            },
            None => matches@.len() == 0,
        },
{
    let mut v = matches;
    let mut i: usize = 0;
    while i < v.len()
        invariant
            v@ == matches@,
            i <= v@.len(),
            forall|j: int| 0 <= j < i ==> #[trigger] v@[j].status@ != STATUS_PRESERVED@,
        decreases v.len() - i,
    {
        if str_eq(v[i].status.as_str(), STATUS_PRESERVED) {
            let e = v.remove(i);
            assert(matches@[i as int] == e);
            return Some(e);
        }
        i += 1;
    }
    if v.len() == 0 {
        None
    } else {
        let e = v.remove(0);
        assert(matches@[0] == e);
        Some(e)
    }
}

/// The line printed for a purged entry.
pub fn purge_done_line(entry: &EntryRecord) -> (r: String)
    ensures
        r@ == "Purged ["@ + signed_decimal(entry.id as int) + "] '"@ + entry.filename@ + "' from storage."@,
{
    let id = signed_decimal_string(entry.id);
    let r = cat(&["Purged [", id.as_str(), "] '", entry.filename.as_str(), "' from storage."]);
    proof {
        reveal_with_fuel(cat_spec, 6);
    }
    assert(r@ =~= "Purged ["@ + signed_decimal(entry.id as int) + "] '"@ + entry.filename@ + "' from storage."@);
    r
}

/// The line printed when a purge failed with `error`.
pub fn purge_failed_line(entry: &EntryRecord, error: &str) -> (r: String)
    ensures
        r@ == "rinode: failed to purge ["@ + signed_decimal(entry.id as int) + "] '"@ + entry.filename@ + "': "@ + error@,
{
    let id = signed_decimal_string(entry.id);
    let r = cat(&["rinode: failed to purge [", id.as_str(), "] '", entry.filename.as_str(), "': ", error]);
    proof {
        reveal_with_fuel(cat_spec, 7);
    }
    assert(r@ =~= "rinode: failed to purge ["@ + signed_decimal(entry.id as int) + "] '"@ + entry.filename@ + "': "@ + error@);
    r
}

/// The line printed when nothing matches a purge target.
pub fn purge_no_match_line(target: &str) -> (r: String)
    ensures
        r@ == "rinode: no entry found matching '"@ + target@ + "'"@,
{
    let r = cat(&["rinode: no entry found matching '", target, "'"]);
    proof {
        reveal_with_fuel(cat_spec, 4);
    }
    assert(r@ =~= "rinode: no entry found matching '"@ + target@ + "'"@);
    r
}

/// `purge` with targets exits with failure only when something failed,
/// nothing was purged and `--force` was not given.
pub fn purge_fails(had_error: bool, force: bool, purged: u64) -> (r: bool)
    ensures
        r == (had_error && !force && purged == 0),
{
    had_error && !force && purged == 0
}

/// The age in days past which `purge` removes entries: all of them with
/// `--all`, else the days asked for, else the configured retention.
pub fn retention_days(all: bool, days: Option<u32>, configured: u32) -> (r: u32)
    ensures
        r == (if all {
            0
        } else {
            match days {
                Some(d) => d,
                None => configured,
            }
        }),
{
    if all {
        0
    } else {
        match days {
            Some(d) => d,
            None => configured,
        }
    }
}

/// The closing line of `purge` without targets.
pub fn expired_summary(purged: u64) -> (r: String)
    ensures
        r@ == "Purged "@ + decimal(purged as nat) + " expired file(s) from storage."@,
{
    let n = decimal_string(purged);
    let r = cat(&["Purged ", n.as_str(), " expired file(s) from storage."]);
    proof {
        reveal_with_fuel(cat_spec, 4);
    }
    assert(r@ =~= "Purged "@ + decimal(purged as nat) + " expired file(s) from storage."@);
    r
}

/// The line printed after a restore.
pub fn restored_line(entry: &EntryRecord) -> (r: String)
    ensures
        r@ == "Restored ["@ + signed_decimal(entry.id as int) + "] '"@ + entry.filename@ + "' to '"@
            + entry.original_path@ + "'"@,
{
    let id = signed_decimal_string(entry.id);
    let r = cat(&["Restored [", id.as_str(), "] '", entry.filename.as_str(), "' to '", entry.original_path.as_str(), "'"]);
    proof {
        reveal_with_fuel(cat_spec, 8);
    }
    assert(r@ =~= "Restored ["@ + signed_decimal(entry.id as int) + "] '"@ + entry.filename@ + "' to '"@
        + entry.original_path@ + "'"@);
    r
}

/// What `exclude` was asked to do. A test wins over a removal, a removal
/// over a listing, a listing over a new rule; with nothing asked it lists
/// the rules and shows how to use it.
#[derive(Debug, Clone, PartialEq, Eq)]
pub enum ExcludeAction {
    Test(String),
    Remove(String),
    List,
    Add(String),
    Usage,
}

/// Decides what `exclude` does (see `ExcludeAction`).
pub fn exclude_action(pattern: Option<String>, list: bool, test: Option<String>, remove: Option<String>) -> (r: ExcludeAction)
    ensures
        match test {
            Some(t) => r matches ExcludeAction::Test(x) && x@ == t@,
            None => match remove {
                Some(t) => r matches ExcludeAction::Remove(x) && x@ == t@,
                None => if list {
                    r == ExcludeAction::List
                } else {
                    match pattern {
                        Some(p) => r matches ExcludeAction::Add(x) && x@ == p@,
                        None => r == ExcludeAction::Usage,
                    }
                },
            },
        },
{
    if let Some(t) = test {
        return ExcludeAction::Test(t);
    }
    if let Some(t) = remove {
        return ExcludeAction::Remove(t);
    }
    if list {
        return ExcludeAction::List;
    }
    match pattern {
        Some(p) => ExcludeAction::Add(p),
        None => ExcludeAction::Usage,
    }
}

/// The name of a kind of rule.
pub open spec fn kind_text(k: ExclusionKind) -> Seq<char> {
    match k {
        ExclusionKind::SystemPath => "System path prefix"@,
        ExclusionKind::PathRegex => "Path regex pattern"@,
        ExclusionKind::FilenameRegex => "Filename regex pattern"@,
    }
}

/// The name of a kind of rule (see `kind_text`).
pub fn kind_label(kind: ExclusionKind) -> (r: &'static str)
    ensures
        r@ == kind_text(kind),
{
    match kind {
        ExclusionKind::SystemPath => "System path prefix",
        ExclusionKind::PathRegex => "Path regex pattern",
        ExclusionKind::FilenameRegex => "Filename regex pattern",
    }
}

/// The file name tested against the filename rules: the last component of
/// the sample path, or nothing.
pub fn sample_file_name(sample: &str) -> (r: String)
    ensures
        r@ == (match file_name(sample@) {
            Some(n) => n,
            None => Seq::empty(),
        }),
{
    let c = crate::text::chars_of(sample);
    match file_name_of(c.as_slice()) {
        Some(n) => crate::text::string_of(n.as_slice()),
        None => String::new(),
    }
}

/// The texts of a list of strings.
pub open spec fn line_texts(v: Seq<String>) -> Seq<Seq<char>> {
    Seq::new(v.len(), |i: int| v[i]@)
}

/// One section of the rules listing: its title, then each rule behind a
/// bullet, or `(none)`.
pub open spec fn section_lines(title: Seq<char>, rules: Seq<Seq<char>>) -> Seq<Seq<char>> {
    seq![title] + if rules.len() == 0 {
        seq!["  (none)"@]
    } else {
        Seq::new(rules.len(), |i: int| "  • "@ + rules[i])
    }
}

/// The listing of the active rules.
pub open spec fn rules_listing_lines(system: Seq<Seq<char>>, path: Seq<Seq<char>>, file: Seq<Seq<char>>) -> Seq<Seq<char>> {
    seq!["rinode active exclusion rules"@, "------------------------------------------------------------"@]
        + section_lines("System Paths (Prefix match):"@, system)
        + seq![Seq::<char>::empty()]
        + section_lines("Path Patterns (Regex match):"@, path)
        + seq![Seq::<char>::empty()]
        + section_lines("Filename Patterns (Regex match):"@, file)
}

fn push_line(out: &mut Vec<String>, line: String)
    ensures
        line_texts(final(out)@) == line_texts(old(out)@).push(line@),
{
    let ghost before = line_texts(out@);
    out.push(line);
    assert(line_texts(out@) =~= before.push(line@));
}

fn push_section(out: &mut Vec<String>, title: &str, rules: &Vec<String>)
    ensures
        line_texts(final(out)@) == line_texts(old(out)@) + section_lines(title@, line_texts(rules@)),
{
    let ghost start = line_texts(out@);
    push_line(out, title.to_owned());
    if rules.len() == 0 {
        push_line(out, "  (none)".to_owned());
        assert(line_texts(out@) =~= start + section_lines(title@, line_texts(rules@)));
        return;
    }
    let mut i: usize = 0;
    while i < rules.len()
        invariant
            i <= rules@.len(),
            rules@.len() > 0,
            line_texts(out@) == start + seq![title@] + Seq::new(i as nat, |k: int| "  • "@ + rules@[k]@),
        decreases rules.len() - i,
    {
        let c = crate::text::chars_of(rules[i].as_str());
        let line = crate::text::concat3("  • ", c.as_slice(), "");
        proof {
            reveal_strlit("");
        }
        push_line(out, line);
        i += 1;
        assert(line_texts(out@) =~= start + seq![title@] + Seq::new(i as nat, |k: int| "  • "@ + rules@[k]@));
    }
    assert(line_texts(out@) =~= start + section_lines(title@, line_texts(rules@)));
}

/// The listing of the active rules (see `rules_listing_lines`).
pub fn rules_listing(rules: &ExclusionsConfig) -> (r: Vec<String>)
    ensures
        line_texts(r@) == rules_listing_lines(
            line_texts(rules.system_paths@),
            line_texts(rules.path_regex@),
            line_texts(rules.filename_regex@),
        ),
{
    let mut out: Vec<String> = Vec::new();
    assert(line_texts(out@) =~= Seq::<Seq<char>>::empty());
    push_line(&mut out, "rinode active exclusion rules".to_owned());
    push_line(&mut out, "------------------------------------------------------------".to_owned());
    push_section(&mut out, "System Paths (Prefix match):", &rules.system_paths);
    push_line(&mut out, String::new());
    push_section(&mut out, "Path Patterns (Regex match):", &rules.path_regex);
    push_line(&mut out, String::new());
    push_section(&mut out, "Filename Patterns (Regex match):", &rules.filename_regex);
    assert(line_texts(out@) =~= rules_listing_lines(
        line_texts(rules.system_paths@),
        line_texts(rules.path_regex@),
        line_texts(rules.filename_regex@),
    ));
    out
}

/// The times of an entry, written for the reader's time zone.
pub struct EntryTimes {
    pub deleted: String,
    pub restored: Option<String>,
    pub purged: Option<String>,
}

/// The report of `inspect` on an entry.
pub open spec fn inspect_report(e: EntryRecord, deleted: Seq<char>, restored: Option<Seq<char>>, purged: Option<Seq<char>>) -> Seq<Seq<char>> {
    seq![
        "Inode Metadata for Entry #"@ + signed_decimal(e.id as int),
        "-----------------------------------------"@,
        "  Filename:          "@ + e.filename@,
        "  Original Path:     "@ + e.original_path@,
        "  Inode Number:      "@ + decimal(e.inode_no as nat),
        "  Mount/Device:      "@ + decimal(e.dev_major as nat) + ":"@ + decimal(e.dev_minor as nat) + " (mnt_id: "@
            + decimal(e.mnt_id as nat) + ")"@,
        "  File Size:         "@ + bytes_text(e.file_size) + " ("@ + decimal(e.file_size as nat) + " bytes)"@,
        "  Permissions (Oct): "@ + octal_padded(e.mode as nat, octal_width(e.mode)),
        "  Owner UID / GID:   "@ + decimal(e.uid as nat) + " / "@ + decimal(e.gid as nat),
        "  Link / Move Type:  "@ + e.link_type@,
        "  Status:            "@ + e.status@,
        "  Deleted At:        "@ + deleted,
    ] + (match restored {
        Some(t) => seq!["  Restored At:       "@ + t],
        None => Seq::empty(),
    }) + (match purged {
        Some(t) => seq!["  Purged At:         "@ + t],
        None => Seq::empty(),
    }) + (match e.symlink_target {
        Some(t) => seq!["  Symlink Target:    "@ + t@],
        None => Seq::empty(),
    }) + (match e.quick_fingerprint {
        Some(f) => seq!["  Fast Fingerprint:  "@ + f@],
        None => Seq::empty(),
    }) + seq!["  Vault Location:    "@ + storage_label(e)]
}

fn line2(a: &str, b: &str) -> (r: String)
    ensures
        r@ == a@ + b@,
{
    let r = cat(&[a, b]);
    proof {
        reveal_with_fuel(cat_spec, 3);
    }
    assert(r@ =~= a@ + b@);
    r
}

/// The report of `inspect` (see `inspect_report`), with the times already
/// written out.
pub fn inspect_lines(entry: &EntryRecord, times: &EntryTimes) -> (r: Vec<String>)
    ensures
        line_texts(r@) == inspect_report(
            *entry,
            times.deleted@,
            opt_chars(times.restored),
            opt_chars(times.purged),
        ),
{
    let mut out: Vec<String> = Vec::new();
    let ghost start = line_texts(out@);
    assert(start =~= Seq::<Seq<char>>::empty());
    let id = signed_decimal_string(entry.id);
    push_line(&mut out, line2("Inode Metadata for Entry #", id.as_str()));
    push_line(&mut out, "-----------------------------------------".to_owned());
    push_line(&mut out, line2("  Filename:          ", entry.filename.as_str()));
    push_line(&mut out, line2("  Original Path:     ", entry.original_path.as_str()));
    let ino = decimal_string(entry.inode_no);
    push_line(&mut out, line2("  Inode Number:      ", ino.as_str()));
    let maj = decimal_string(entry.dev_major as u64);
    let min = decimal_string(entry.dev_minor as u64);
    let mnt = decimal_string(entry.mnt_id);
    let dev = cat(&["  Mount/Device:      ", maj.as_str(), ":", min.as_str(), " (mnt_id: ", mnt.as_str(), ")"]);
    proof {
        reveal_with_fuel(cat_spec, 8);
    }
    assert(dev@ =~= "  Mount/Device:      "@ + decimal(entry.dev_major as nat) + ":"@ + decimal(entry.dev_minor as nat)
        + " (mnt_id: "@ + decimal(entry.mnt_id as nat) + ")"@);
    push_line(&mut out, dev);
    let size = format_bytes(entry.file_size);
    let bytes = decimal_string(entry.file_size);
    let sz = cat(&["  File Size:         ", size.as_str(), " (", bytes.as_str(), " bytes)"]);
    assert(sz@ =~= "  File Size:         "@ + bytes_text(entry.file_size) + " ("@ + decimal(entry.file_size as nat)
        + " bytes)"@);
    push_line(&mut out, sz);
    let mode = mode_octal(entry.mode);
    push_line(&mut out, line2("  Permissions (Oct): ", mode.as_str()));
    let uid = decimal_string(entry.uid as u64);
    let gid = decimal_string(entry.gid as u64);
    let owner = cat(&["  Owner UID / GID:   ", uid.as_str(), " / ", gid.as_str()]);
    assert(owner@ =~= "  Owner UID / GID:   "@ + decimal(entry.uid as nat) + " / "@ + decimal(entry.gid as nat));
    push_line(&mut out, owner);
    push_line(&mut out, line2("  Link / Move Type:  ", entry.link_type.as_str()));
    push_line(&mut out, line2("  Status:            ", entry.status.as_str()));
    push_line(&mut out, line2("  Deleted At:        ", times.deleted.as_str()));
    match &times.restored {
        Some(t) => push_line(&mut out, line2("  Restored At:       ", t.as_str())),
        None => {},
    }
    match &times.purged {
        Some(t) => push_line(&mut out, line2("  Purged At:         ", t.as_str())),
        None => {},
    }
    match &entry.symlink_target {
        Some(t) => push_line(&mut out, line2("  Symlink Target:    ", t.as_str())),
        None => {},
    }
    match &entry.quick_fingerprint {
        Some(f) => push_line(&mut out, line2("  Fast Fingerprint:  ", f.as_str())),
        None => {},
    }
    let loc = storage_location(entry);
    push_line(&mut out, line2("  Vault Location:    ", loc.as_str()));
    assert(line_texts(out@) =~= inspect_report(
        *entry,
        times.deleted@,
        opt_chars(times.restored),
        opt_chars(times.purged),
    ));
    out
}

/// `purge` never takes an entry that was purged before or that was never
/// stored, and takes every other entry that still has a stored copy.
pub proof fn purge_takes_only_stored_entries(e: EntryRecord, in_storage: bool)
    ensures
        (e.status@ == STATUS_PURGED@ || e.status@ == STATUS_EXCLUDED@) ==> purge_check_of(e, in_storage) != PurgeCheck::Purge,
        (e.status@ != STATUS_PURGED@ && e.status@ != STATUS_EXCLUDED@ && in_storage) ==> purge_check_of(e, in_storage)
            == PurgeCheck::Purge,
{
}

} // verus!
