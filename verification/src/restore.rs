//! Restoring a vaulted entry: which entries can come back, what to do with
//! an existing destination, and how the item is brought back. The moves
//! themselves are made by the caller.

use vstd::prelude::*;
use crate::records::{
    stored_as, EntryRecord, NewEntry, LINK_COPY, LINK_RENAME_MOVE, LINK_SYMLINK, STATUS_EXCLUDED, STATUS_PRESERVED,
    STATUS_PURGED,
};
use crate::inode::StatxInfo;
use crate::storage::storage_candidates;
use crate::vault::vaulted;
use crate::numfmt::{signed_decimal, signed_decimal_string};
use crate::text::{chars_of, concat3, str_eq};
use crate::inode::opt_view;

verus! {

/// The value of a string of ASCII digits.
pub open spec fn digits_value(s: Seq<char>) -> int
    decreases s.len(),
{
    if s.len() == 0 {
        0
    } else {
        digits_value(s.drop_last()) * 10 + ((s.last() as u32) - ('0' as u32))
    }
}

/// Every character is an ASCII digit.
pub open spec fn all_digits(s: Seq<char>) -> bool {
    forall|i: int| 0 <= i < s.len() ==> '0' <= #[trigger] s[i] && s[i] <= '9'
}

/// The integer that `str::parse::<i64>` reads from `s`: an optional `+` or
/// `-`, then at least one ASCII digit and nothing else, with a value that
/// fits in an `i64`.
pub open spec fn parse_i64(s: Seq<char>) -> Option<i64> {
    let neg = s.len() > 0 && s[0] == '-';
    let body = if s.len() > 0 && (s[0] == '-' || s[0] == '+') { s.skip(1) } else { s };
    let v = if neg { -digits_value(body) } else { digits_value(body) };
    if body.len() == 0 || !all_digits(body) {
        None
    } else if i64::MIN <= v <= i64::MAX {
        Some(v as i64)
    } else {
        None
    }
}

proof fn lemma_digits_value_grows(s: Seq<char>, i: int)
    requires
        0 <= i <= s.len(),
        all_digits(s),
    ensures
        0 <= digits_value(s.take(i)) <= digits_value(s),
    decreases s.len() - i,
{
    if i < s.len() {
        lemma_digits_value_grows(s, i + 1);
        assert(s.take(i + 1).drop_last() =~= s.take(i));
        assert(s.take(i + 1).last() == s[i]);
    } else {
        assert(s.take(i) =~= s);
        lemma_digits_value_nonneg(s);
    }
}

proof fn lemma_digits_value_nonneg(s: Seq<char>)
    requires
        all_digits(s),
    ensures
        digits_value(s) >= 0,
    decreases s.len(),
{
    if s.len() > 0 {
        assert(all_digits(s.drop_last())) by {
            assert forall|i: int| 0 <= i < s.drop_last().len() implies '0' <= #[trigger] s.drop_last()[i] && s.drop_last()[i] <= '9' by {
                assert(s.drop_last()[i] == s[i]);
            }
        }
        lemma_digits_value_nonneg(s.drop_last());
        assert(s[s.len() - 1] == s.last());
    }
}

/// Reads a decimal `i64` as `str::parse::<i64>` does (see `parse_i64`).
pub fn parse_entry_id(identifier: &str) -> (r: Option<i64>)
    ensures
        r == parse_i64(identifier@),
{
    let s = chars_of(identifier);
    let neg = s.len() > 0 && s[0] == '-';
    let start: usize = if s.len() > 0 && (s[0] == '-' || s[0] == '+') { 1 } else { 0 };
    let ghost body = if s@.len() > 0 && (s@[0] == '-' || s@[0] == '+') { s@.skip(1) } else { s@ };
    assert(body =~= s@.skip(start as int));
    if start >= s.len() {
        return None;
    }
    let mut value: i128 = 0;
    let mut i: usize = start;
    assert(body.take(0) =~= Seq::<char>::empty());
    while i < s.len()
        invariant
            start <= i <= s.len(),
            s@ == identifier@,
            body == (if s@.len() > 0 && (s@[0] == '-' || s@[0] == '+') { s@.skip(1) } else { s@ }),
            body == s@.skip(start as int),
            all_digits(body.take(i - start)),
            value == digits_value(body.take(i - start)),
            0 <= value <= 9223372036854775808,
        decreases s.len() - i,
    {
        let c = s[i];
        if c < '0' || c > '9' {
            assert(!all_digits(body)) by {
                assert(body[i - start] == c);
            }
            return None;
        }
        assert(body.take(i + 1 - start).drop_last() =~= body.take(i - start));
        assert(body.take(i + 1 - start).last() == c);
        assert(all_digits(body.take(i + 1 - start))) by {
            assert forall|k: int| 0 <= k < body.take(i + 1 - start).len() implies
                '0' <= #[trigger] body.take(i + 1 - start)[k] && body.take(i + 1 - start)[k] <= '9' by {
                if k < i - start {
                    assert(body.take(i + 1 - start)[k] == body.take(i - start)[k]);
                }
            }
        }
        value = value * 10 + ((c as u32) - ('0' as u32)) as i128;
        assert(value == digits_value(body.take(i + 1 - start)));
        if value > 9223372036854775808 {
            proof {
                if all_digits(body) {
                    lemma_digits_value_grows(body, i + 1 - start);
                }
            }
            return None;
        }
        i += 1;
    }
    assert(body.take(s.len() - start) =~= body);
    assert(value == digits_value(body));
    assert(body.len() > 0);
    if neg {
        Some((0 - value) as i64)
    } else if value > 9223372036854775807 {
        None
    } else {
        Some(value as i64)
    }
}

/// What the user asked to restore: an entry id, or a name to search for.
#[derive(Debug, Clone, PartialEq, Eq)]
pub enum RestoreTarget {
    Id(i64),
    Name(String),
}

/// An identifier that reads as an integer is an entry id; anything else is
/// a name.
pub fn restore_target(identifier: &str) -> (r: RestoreTarget)
    ensures
        match r {
            RestoreTarget::Id(id) => parse_i64(identifier@) == Some(id),
            RestoreTarget::Name(n) => parse_i64(identifier@) is None && n@ == identifier@,
        },
{
    match parse_entry_id(identifier) {
        Some(id) => RestoreTarget::Id(id),
        None => RestoreTarget::Name(identifier.to_owned()),
    }
}

/// Why an entry is not restored.
#[derive(Debug, Clone, PartialEq, Eq)]
pub enum RestoreRefusal {
    /// No entry has this id.
    IdNotFound(i64),
    /// No entry has this name.
    NoMatch(String),
    /// The entry (named here) was excluded by a rule and never vaulted.
    Excluded(String),
    /// The entry (named here) was removed for good.
    Purged(String),
    /// Something already stands at this original path.
    DestinationExists(String),
    /// The vaulted copy recorded at this path is gone.
    StorageMissing(String),
}

/// A refusal, with its texts as character sequences.
pub enum RefusalView {
    IdNotFound(i64),
    NoMatch(Seq<char>),
    Excluded(Seq<char>),
    Purged(Seq<char>),
    DestinationExists(Seq<char>),
    StorageMissing(Seq<char>),
}

impl View for RestoreRefusal {
    type V = RefusalView;

    open spec fn view(&self) -> RefusalView {
        match self {
            RestoreRefusal::IdNotFound(id) => RefusalView::IdNotFound(*id),
            RestoreRefusal::NoMatch(s) => RefusalView::NoMatch(s@),
            RestoreRefusal::Excluded(s) => RefusalView::Excluded(s@),
            RestoreRefusal::Purged(s) => RefusalView::Purged(s@),
            RestoreRefusal::DestinationExists(s) => RefusalView::DestinationExists(s@),
            RestoreRefusal::StorageMissing(s) => RefusalView::StorageMissing(s@),
        }
    }
}

/// The message shown for a refusal.
pub open spec fn refusal_text(r: RefusalView) -> Seq<char> {
    match r {
        RefusalView::IdNotFound(id) => "Entry with ID "@ + signed_decimal(id as int) + " not found"@,
        RefusalView::NoMatch(n) => "No deleted entries found matching '"@ + n + "'"@,
        RefusalView::Excluded(n) => "Cannot restore '"@ + n
            + "': file was excluded by config and permanently unlinked without vaulting"@,
        RefusalView::Purged(n) => "Cannot restore '"@ + n
            + "': file was permanently unlinked and not stored in storage"@,
        RefusalView::DestinationExists(p) => "Destination '"@ + p
            + "' already exists. Use --force to overwrite."@,
        RefusalView::StorageMissing(p) => "Storage file '"@ + p + "' is missing on disk"@,
    }
}

impl RestoreRefusal {
    /// The message shown for the refusal.
    pub fn message(&self) -> (r: String)
        ensures
            r@ == refusal_text(self@),
    {
        match self {
            RestoreRefusal::IdNotFound(id) => {
                let digits = chars_of(signed_decimal_string(*id).as_str());
                concat3("Entry with ID ", digits.as_slice(), " not found")
            },
            RestoreRefusal::NoMatch(n) => {
                let t = chars_of(n.as_str());
                concat3("No deleted entries found matching '", t.as_slice(), "'")
            },
            RestoreRefusal::Excluded(n) => {
                let t = chars_of(n.as_str());
                concat3(
                    "Cannot restore '",
                    t.as_slice(),
                    "': file was excluded by config and permanently unlinked without vaulting",
                )
            },
            RestoreRefusal::Purged(n) => {
                let t = chars_of(n.as_str());
                concat3(
                    "Cannot restore '",
                    t.as_slice(),
                    "': file was permanently unlinked and not stored in storage",
                )
            },
            RestoreRefusal::DestinationExists(p) => {
                let t = chars_of(p.as_str());
                concat3("Destination '", t.as_slice(), "' already exists. Use --force to overwrite.")
            },
            RestoreRefusal::StorageMissing(p) => {
                let t = chars_of(p.as_str());
                concat3("Storage file '", t.as_slice(), "' is missing on disk")
            },
        }
    }
}

/// The entry that a restore request names: the one with the id, or the
/// first (most recent) of those with the name.
pub fn select_entry(target: &RestoreTarget, by_id: Option<EntryRecord>, matches: Vec<EntryRecord>) -> (r: Result<EntryRecord, RestoreRefusal>)
    ensures
        match target {
            RestoreTarget::Id(id) => match by_id {
                Some(e) => r == Ok::<EntryRecord, RestoreRefusal>(e),
                None => r matches Err(RestoreRefusal::IdNotFound(x)) && x == *id,
            },
            RestoreTarget::Name(n) => if matches@.len() == 0 {
                r matches Err(RestoreRefusal::NoMatch(m)) && m@ == n@
            } else {
                r == Ok::<EntryRecord, RestoreRefusal>(matches@[0])
            },
        },
{
    match target {
        RestoreTarget::Id(id) => match by_id {
            Some(e) => Ok(e),
            None => Err(RestoreRefusal::IdNotFound(*id)),
        },
        RestoreTarget::Name(n) => {
            let mut matches = matches;
            if matches.len() == 0 {
                Err(RestoreRefusal::NoMatch(n.clone()))
            } else {
                Ok(matches.remove(0))
            }
        },
    }
}

/// Whether the entry can come back at all: excluded and purged entries were
/// never kept.
pub open spec fn restorable(e: EntryRecord) -> Result<(), RefusalView> {
    if e.status@ == STATUS_EXCLUDED@ {
        Err(RefusalView::Excluded(e.filename@))
    } else if e.status@ == STATUS_PURGED@ {
        Err(RefusalView::Purged(e.filename@))
    } else {
        Ok(())
    }
}

/// Refuses entries that were excluded or purged.
pub fn check_restorable(entry: &EntryRecord) -> (r: Result<(), RestoreRefusal>)
    ensures
        match r {
            Ok(()) => restorable(*entry) is Ok,
            Err(e) => restorable(*entry) == Err::<(), RefusalView>(e@),
        },
{
    if str_eq(entry.status.as_str(), STATUS_EXCLUDED) {
        Err(RestoreRefusal::Excluded(entry.filename.clone()))
    } else if str_eq(entry.status.as_str(), STATUS_PURGED) {
        Err(RestoreRefusal::Purged(entry.filename.clone()))
    } else {
        Ok(())
    }
}

/// What stands at the original path when a restore begins.
#[derive(Debug, Clone, Copy, PartialEq, Eq)]
pub struct DestinationState {
    /// Something is there (a link counts by what it points to).
    pub exists: bool,
    /// It is a directory, or a link to one.
    pub is_dir: bool,
    /// It is a symbolic link.
    pub is_symlink: bool,
}

/// What to remove from the original path before restoring.
#[derive(Debug, Clone, Copy, PartialEq, Eq)]
pub enum Clearing {
    /// Leave the destination alone.
    Keep,
    /// Remove the directory and all it holds.
    RemoveTree,
    /// Remove the file or link; a failure is ignored.
    RemoveFile,
}

/// The entry was a symbolic link.
pub open spec fn is_link_entry(e: EntryRecord) -> bool {
    e.link_type@ == LINK_SYMLINK@
}

/// How an existing destination is handled: with `force` it is cleared
/// (links are replaced when they are made), without `force` a link entry or
/// a file kept in the vault is refused; a plain consuming restore leaves the
/// refusal to the no-replace rename.
pub open spec fn clearing(e: EntryRecord, keep_vault: bool, force: bool, d: DestinationState) -> Result<Clearing, RefusalView> {
    if force && d.exists && !is_link_entry(e) {
        if d.is_dir && !d.is_symlink {
            Ok(Clearing::RemoveTree)
        } else {
            Ok(Clearing::RemoveFile)
        }
    } else if !force && d.exists && is_link_entry(e) {
        Err(RefusalView::DestinationExists(e.original_path@))
    } else if !force && d.exists && keep_vault && !e.is_directory {
        Err(RefusalView::DestinationExists(e.original_path@))
    } else {
        Ok(Clearing::Keep)
    }
}

/// Decides what to do with the destination (see `clearing`).
pub fn clear_destination(entry: &EntryRecord, keep_vault: bool, force: bool, dest: DestinationState) -> (r: Result<Clearing, RestoreRefusal>)
    ensures
        match r {
            Ok(c) => clearing(*entry, keep_vault, force, dest) == Ok::<Clearing, RefusalView>(c),
            Err(e) => clearing(*entry, keep_vault, force, dest) == Err::<Clearing, RefusalView>(e@),
        },
{
    let is_link = str_eq(entry.link_type.as_str(), LINK_SYMLINK);
    if force && dest.exists && !is_link {
        if dest.is_dir && !dest.is_symlink {
            Ok(Clearing::RemoveTree)
        } else {
            Ok(Clearing::RemoveFile)
        }
    } else if !force && dest.exists && is_link {
        Err(RestoreRefusal::DestinationExists(entry.original_path.clone()))
    } else if !force && dest.exists && keep_vault && !entry.is_directory {
        Err(RestoreRefusal::DestinationExists(entry.original_path.clone()))
    } else {
        Ok(Clearing::Keep)
    }
}

/// Only a vaulted file or directory needs its stored copy found.
pub fn needs_storage(entry: &EntryRecord) -> (r: bool)
    ensures
        r == !is_link_entry(*entry),
{
    !str_eq(entry.link_type.as_str(), LINK_SYMLINK)
}

/// How the item comes back.
#[derive(Debug, Clone, PartialEq, Eq)]
pub enum RestoreMethod {
    /// Make a symbolic link to `target`, removing what is there first when
    /// `remove_first`.
    Symlink { target: String, remove_first: bool },
    /// Copy the stored file back (reflink when possible), keeping the stored
    /// copy, then set these permission bits and the recorded owner.
    SnapshotCopy { from: String, permissions: u32 },
    /// Rename the stored item back; without `replace` the rename fails
    /// rather than overwrite.
    Rename { from: String, replace: bool },
}

/// A restore method, with its texts as character sequences.
pub enum MethodView {
    Symlink { target: Seq<char>, remove_first: bool },
    SnapshotCopy { from: Seq<char>, permissions: u32 },
    Rename { from: Seq<char>, replace: bool },
}

impl View for RestoreMethod {
    type V = MethodView;

    open spec fn view(&self) -> MethodView {
        match self {
            RestoreMethod::Symlink { target, remove_first } => MethodView::Symlink { target: target@, remove_first: *remove_first },
            RestoreMethod::SnapshotCopy { from, permissions } => MethodView::SnapshotCopy { from: from@, permissions: *permissions },
            RestoreMethod::Rename { from, replace } => MethodView::Rename { from: from@, replace: *replace },
        }
    }
}

/// The recorded link target, or the empty text when none was kept.
pub open spec fn link_target_text(e: EntryRecord) -> Seq<char> {
    match e.symlink_target {
        Some(t) => t@,
        None => Seq::empty(),
    }
}

/// How the entry comes back, given where its stored copy was found
/// (`storage`, looked up only for entries that are not links).
pub open spec fn method(e: EntryRecord, keep_vault: bool, force: bool, storage: Option<Seq<char>>) -> Result<MethodView, RefusalView> {
    if is_link_entry(e) {
        Ok(MethodView::Symlink { target: link_target_text(e), remove_first: force })
    } else {
        match storage {
            None => Err(RefusalView::StorageMissing(e.vault_path@)),
            Some(from) => if keep_vault && !e.is_directory {
                Ok(MethodView::SnapshotCopy { from, permissions: (e.mode as u32) & 4095u32 })
            } else {
                Ok(MethodView::Rename { from, replace: force })
            },
        }
    }
}

/// Decides how the entry comes back (see `method`).
pub fn restore_method(entry: &EntryRecord, keep_vault: bool, force: bool, storage: Option<String>) -> (r: Result<RestoreMethod, RestoreRefusal>)
    ensures
        match r {
            Ok(m) => method(*entry, keep_vault, force, opt_view(storage)) == Ok::<MethodView, RefusalView>(m@),
            Err(e) => method(*entry, keep_vault, force, opt_view(storage)) == Err::<MethodView, RefusalView>(e@),
        },
{
    if str_eq(entry.link_type.as_str(), LINK_SYMLINK) {
        let target = match &entry.symlink_target {
            Some(t) => t.clone(),
            None => String::new(),
        };
        return Ok(RestoreMethod::Symlink { target, remove_first: force });
    }
    match storage {
        None => Err(RestoreRefusal::StorageMissing(entry.vault_path.clone())),
        Some(from) => if keep_vault && !entry.is_directory {
            Ok(RestoreMethod::SnapshotCopy { from, permissions: (entry.mode as u32) & 4095u32 })
        } else {
            Ok(RestoreMethod::Rename { from, replace: force })
        },
    }
}

/// An entry that was excluded by a rule or purged is never brought back:
/// the refusal names it.
pub proof fn unkept_entries_are_never_restored(e: EntryRecord)
    requires
        e.status@ == STATUS_EXCLUDED@ || e.status@ == STATUS_PURGED@,
    ensures
        restorable(e) is Err,
        restorable(e) matches Err(RefusalView::Excluded(n)) ==> n == e.filename@,
        restorable(e) matches Err(RefusalView::Purged(n)) ==> n == e.filename@,
{
}

/// Without `force`, nothing that stands at the original path is removed or
/// overwritten: the destination is kept, a link is made only where nothing
/// is, and the stored item is renamed back only where the rename may not
/// replace.
pub proof fn restore_without_force_never_overwrites(
    e: EntryRecord,
    keep_vault: bool,
    d: DestinationState,
    storage: Option<Seq<char>>,
)
    ensures
        clearing(e, keep_vault, false, d) is Ok ==> clearing(e, keep_vault, false, d) == Ok::<Clearing, RefusalView>(Clearing::Keep),
        method(e, keep_vault, false, storage) matches Ok(MethodView::Symlink { remove_first, .. }) ==> !remove_first,
        method(e, keep_vault, false, storage) matches Ok(MethodView::Rename { replace, .. }) ==> !replace,
        d.exists && is_link_entry(e) ==> clearing(e, keep_vault, false, d) == Err::<Clearing, RefusalView>(
            RefusalView::DestinationExists(e.original_path@),
        ),
        d.exists && keep_vault && !e.is_directory ==> clearing(e, keep_vault, false, d) is Err,
{
}

/// A restore that keeps the vault copy never moves the stored file away:
/// a vaulted file comes back by a copy.
pub proof fn keeping_the_vault_copies(e: EntryRecord, force: bool, from: Seq<char>)
    requires
        !is_link_entry(e),
        !e.is_directory,
    ensures
        method(e, true, force, Some(from)) == Ok::<MethodView, RefusalView>(
            MethodView::SnapshotCopy { from, permissions: (e.mode as u32) & 4095u32 },
        ),
{
}

/// An entry kept in the vault comes back where it was: it is restorable, a
/// free destination needs no clearing, and the item is renamed back (or
/// copied, keeping the vault copy of a file) from wherever its stored copy
/// was found; a link is made again with the target it had.
pub proof fn kept_entries_come_back(e: EntryRecord, keep_vault: bool, force: bool, stored: Seq<char>)
    requires
        e.status@ == STATUS_PRESERVED@,
    ensures
        restorable(e) is Ok,
        clearing(e, keep_vault, force, DestinationState { exists: false, is_dir: false, is_symlink: false })
            == Ok::<Clearing, RefusalView>(Clearing::Keep),
        !is_link_entry(e) ==> (match method(e, keep_vault, force, Some(stored)) {
            Ok(MethodView::Rename { from, replace }) => from == stored && replace == force,
            Ok(MethodView::SnapshotCopy { from, .. }) => from == stored && keep_vault,
            _ => false,
        }),
        is_link_entry(e) ==> method(e, keep_vault, force, Some(stored)) == Ok::<MethodView, RefusalView>(
            MethodView::Symlink { target: link_target_text(e), remove_first: force },
        ),
{
    reveal_strlit("PRESERVED");
    reveal_strlit("EXCLUDED");
    reveal_strlit("PURGED");
    assert(STATUS_PRESERVED@ != STATUS_EXCLUDED@) by {
        assert(STATUS_PRESERVED@[1] != STATUS_EXCLUDED@[1]);
    }
    assert(STATUS_PRESERVED@ != STATUS_PURGED@) by {
        assert(STATUS_PRESERVED@.len() != STATUS_PURGED@.len());
    }
}

/// What is preserved comes back: the record of an item moved into the vault
/// is restorable; when nothing stands at its original path, nothing there is
/// cleared; the first place looked for the stored item is the path it was
/// moved to; and from there, unless the vault copy is kept, the item is
/// renamed back, without replacing anything, to the path it was removed
/// from (a rename on one filesystem keeps the recorded inode). A kept copy
/// of a file is copied back instead, with the recorded permission bits.
pub proof fn preserved_items_come_back(
    e: NewEntry,
    rec: EntryRecord,
    info: StatxInfo,
    path: Seq<char>,
    name: Seq<char>,
    vault_path: Seq<char>,
    copied: bool,
    deleted_at: Seq<char>,
    keep_vault: bool,
)
    requires
        vaulted(e, info, path, name, vault_path, copied, deleted_at),
        stored_as(e, rec),
    ensures
        restorable(rec) is Ok,
        clearing(rec, keep_vault, false, DestinationState { exists: false, is_dir: false, is_symlink: false })
            == Ok::<Clearing, RefusalView>(Clearing::Keep),
        storage_candidates(rec.vault_path@)[0] == vault_path,
        rec.original_path@ == path,
        rec.inode_no == info.ino && rec.dev_major == info.dev_major && rec.dev_minor == info.dev_minor,
        !(keep_vault && !info.is_dir) ==> method(rec, keep_vault, false, Some(vault_path))
            == Ok::<MethodView, RefusalView>(MethodView::Rename { from: vault_path, replace: false }),
        keep_vault && !info.is_dir ==> method(rec, keep_vault, false, Some(vault_path))
            == Ok::<MethodView, RefusalView>(MethodView::SnapshotCopy { from: vault_path, permissions: (info.mode as u32) & 4095u32 }),
{
    reveal_strlit("SYMLINK");
    reveal_strlit("COPY");
    reveal_strlit("RENAME_MOVE");
    assert(LINK_COPY@ != LINK_SYMLINK@) by {
        assert(LINK_COPY@.len() != LINK_SYMLINK@.len());
    }
    assert(LINK_RENAME_MOVE@ != LINK_SYMLINK@) by {
        assert(LINK_RENAME_MOVE@.len() != LINK_SYMLINK@.len());
    }
    kept_entries_come_back(rec, keep_vault, false, vault_path);
}

} // verus!
