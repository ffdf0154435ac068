//! The SQL text of the metadata database's reads.

use vstd::prelude::*;
use crate::numfmt::decimal;
use crate::text::{cat, cat_spec};

verus! {

/// The columns read for every entry, in the order the records take them.
pub const SELECT_COLS: &'static str = "id, dev_major, dev_minor, mnt_id, inode_no, original_path, filename, file_size, mode, uid, gid, quick_fingerprint, vault_path, deleted_at, status, is_directory, symlink_target, link_type, restored_at, purged_at";

/// `LIMIT n`, or nothing.
pub open spec fn limit_clause(limit: Option<usize>) -> Seq<char> {
    match limit {
        Some(n) => "LIMIT "@ + decimal(n as nat),
        None => Seq::empty(),
    }
}

fn limit_text(limit: Option<usize>) -> (r: String)
    ensures
        r@ == limit_clause(limit),
{
    match limit {
        Some(n) => {
            let d = crate::numfmt::decimal_string(n as u64);
            let r = cat(&["LIMIT ", d.as_str()]);
            proof {
                reveal_with_fuel(cat_spec, 3);
            }
            assert(r@ =~= limit_clause(limit));
            r
        },
        None => String::new(),
    }
}

/// The entries kept in the vault, the most recently removed first.
pub open spec fn active_sql(limit: Option<usize>) -> Seq<char> {
    "SELECT "@ + SELECT_COLS@ + " FROM entries WHERE status = 'PRESERVED' ORDER BY deleted_at DESC "@ + limit_clause(limit)
}

/// The query for the entries kept in the vault (see `active_sql`).
pub fn active_query(limit: Option<usize>) -> (r: String)
    ensures
        r@ == active_sql(limit),
{
    let l = limit_text(limit);
    let r = cat(&["SELECT ", SELECT_COLS, " FROM entries WHERE status = 'PRESERVED' ORDER BY deleted_at DESC ", l.as_str()]);
    proof {
        reveal_with_fuel(cat_spec, 5);
    }
    assert(r@ =~= active_sql(limit));
    r
}

/// The entries restored, purged or excluded, the most recent event first.
pub open spec fn history_sql(limit: Option<usize>) -> Seq<char> {
    "SELECT "@ + SELECT_COLS@
        + " FROM entries WHERE status IN ('RESTORED', 'PURGED', 'EXCLUDED') ORDER BY COALESCE(purged_at, restored_at, deleted_at) DESC, id DESC "@
        + limit_clause(limit)
}

/// The query for the history (see `history_sql`).
pub fn history_query(limit: Option<usize>) -> (r: String)
    ensures
        r@ == history_sql(limit),
{
    let l = limit_text(limit);
    let r = cat(&[
        "SELECT ",
        SELECT_COLS,
        " FROM entries WHERE status IN ('RESTORED', 'PURGED', 'EXCLUDED') ORDER BY COALESCE(purged_at, restored_at, deleted_at) DESC, id DESC ",
        l.as_str(),
    ]);
    proof {
        reveal_with_fuel(cat_spec, 5);
    }
    assert(r@ =~= history_sql(limit));
    r
}

/// Every entry, the newest first.
pub open spec fn all_sql(limit: Option<usize>) -> Seq<char> {
    "SELECT "@ + SELECT_COLS@ + " FROM entries ORDER BY id DESC "@ + limit_clause(limit)
}

/// The query for every entry (see `all_sql`).
pub fn all_query(limit: Option<usize>) -> (r: String)
    ensures
        r@ == all_sql(limit),
{
    let l = limit_text(limit);
    let r = cat(&["SELECT ", SELECT_COLS, " FROM entries ORDER BY id DESC ", l.as_str()]);
    proof {
        reveal_with_fuel(cat_spec, 5);
    }
    assert(r@ =~= all_sql(limit));
    r
}

/// The pattern that finds an entry by the end of its original path.
pub fn path_suffix_pattern(name: &str) -> (r: String)
    ensures
        r@ == "%"@ + name@,
{
    let r = cat(&["%", name]);
    proof {
        reveal_with_fuel(cat_spec, 3);
    }
    assert(r@ =~= "%"@ + name@);
    r
}

} // verus!
