//! Where a vaulted entry lives on disk: the storage path recorded for it,
//! or the place it moved to when the storage directories were renamed.

use vstd::prelude::*;
use crate::text::{append_chars, chars_of, chars_occur_at, occurs_at, string_of};

verus! {

/// `s` with every occurrence of `from` replaced by `to`, scanning from the
/// left without overlaps, as `str::replace` does for a non-empty `from`.
pub open spec fn replace_all(s: Seq<char>, from: Seq<char>, to: Seq<char>) -> Seq<char>
    decreases s.len(),
{
    if from.len() == 0 || s.len() == 0 {
        s
    } else if from.len() <= s.len() && s.take(from.len() as int) == from {
        to + replace_all(s.skip(from.len() as int), from, to)
    } else {
        seq![s[0]] + replace_all(s.skip(1), from, to)
    }
}

/// Replaces every occurrence of `from` in `s` by `to`.
pub fn replace_text(s: &str, from: &str, to: &str) -> (r: String)
    requires
        from@.len() > 0,
    ensures
        r@ == replace_all(s@, from@, to@),
{
    let sc = chars_of(s);
    let fc = chars_of(from);
    let tc = chars_of(to);
    let mut out: Vec<char> = Vec::new();
    let mut i: usize = 0;
    assert(sc@.skip(0) =~= sc@);
    while i < sc.len()
        invariant
            i <= sc.len(),
            sc@ == s@,
            fc@ == from@,
            tc@ == to@,
            fc@.len() > 0,
            out@ + replace_all(sc@.skip(i as int), fc@, tc@) == replace_all(sc@, fc@, tc@),
        decreases sc.len() - i,
    {
        let ghost rest = sc@.skip(i as int);
        if chars_occur_at(sc.as_slice(), fc.as_slice(), i) {
            assert(rest.take(fc@.len() as int) =~= sc@.subrange(i as int, i + fc@.len()));
            assert(rest.skip(fc@.len() as int) =~= sc@.skip(i + fc@.len()));
            let ghost before = out@;
            append_chars(&mut out, tc.as_slice());
            assert(before + replace_all(rest, fc@, tc@) =~= out@ + replace_all(sc@.skip(i + fc@.len()), fc@, tc@));
            i += fc.len();
        } else {
            assert(!(fc@.len() <= rest.len() && rest.take(fc@.len() as int) == fc@)) by {
                if fc@.len() <= rest.len() && rest.take(fc@.len() as int) == fc@ {
                    assert(sc@.subrange(i as int, i + fc@.len()) =~= rest.take(fc@.len() as int));
                }
            }
            assert(rest.skip(1) =~= sc@.skip(i + 1));
            let ghost before = out@;
            out.push(sc[i]);
            assert(before + replace_all(rest, fc@, tc@) =~= out@ + replace_all(sc@.skip(i + 1), fc@, tc@));
            i += 1;
        }
    }
    assert(sc@.skip(sc.len() as int) =~= Seq::<char>::empty());
    assert(out@ + Seq::<char>::empty() =~= out@);
    string_of(out.as_slice())
}

/// The places where an entry recorded at `recorded` may now be, after the
/// storage directories were renamed, in the order they are tried after the
/// recorded path itself.
pub open spec fn legacy_candidates(recorded: Seq<char>) -> Seq<Seq<char>> {
    seq![
        replace_all(recorded, "/recent-inode/vault/"@, "/rinode/storage/"@),
        replace_all(recorded, "/recent-inode/"@, "/rinode/"@),
        replace_all(recorded, "/.rinode-vault/"@, "/.rinode-storage/"@),
        replace_all(recorded, "/rinode/storage/"@, "/recent-inode/vault/"@),
        replace_all(recorded, "/.rinode-storage/"@, "/.rinode-vault/"@),
    ]
}

/// The older-layout rewrites of a recorded storage path (see
/// `legacy_candidates`).
pub fn storage_path_candidates(recorded_path: &str) -> (r: Vec<String>)
    ensures
        r@.len() == 5,
        forall|k: int| 0 <= k < 5 ==> #[trigger] r@[k]@ == legacy_candidates(recorded_path@)[k],
{
    proof {
        reveal_strlit("/recent-inode/vault/");
        reveal_strlit("/recent-inode/");
        reveal_strlit("/.rinode-vault/");
        reveal_strlit("/rinode/storage/");
        reveal_strlit("/.rinode-storage/");
    }
    let mut r: Vec<String> = Vec::new();
    r.push(replace_text(recorded_path, "/recent-inode/vault/", "/rinode/storage/"));
    r.push(replace_text(recorded_path, "/recent-inode/", "/rinode/"));
    r.push(replace_text(recorded_path, "/.rinode-vault/", "/.rinode-storage/"));
    r.push(replace_text(recorded_path, "/rinode/storage/", "/recent-inode/vault/"));
    r.push(replace_text(recorded_path, "/.rinode-storage/", "/.rinode-vault/"));
    r
}

/// Calls `std::path::Path::exists` on `p`. The answer depends on the
/// filesystem at the moment of the call, so nothing is stated about it.
#[verifier::external_body]
fn path_exists(p: &str) -> bool {
    std::path::Path::new(p).exists()
}

/// The recorded path followed by its older-layout rewrites.
pub open spec fn storage_candidates(recorded: Seq<char>) -> Seq<Seq<char>> {
    seq![recorded] + legacy_candidates(recorded)
}

/// The first candidate at or after `k` marked as existing, if any.
pub open spec fn first_existing_from(candidates: Seq<Seq<char>>, exists: Seq<bool>, k: int) -> Option<Seq<char>>
    decreases candidates.len() - k,
{
    if k < 0 || k >= candidates.len() || k >= exists.len() {
        None
    } else if exists[k] {
        Some(candidates[k])
    } else {
        first_existing_from(candidates, exists, k + 1)
    }
}

/// Given which of the six storage candidates of `recorded_path` exist (the
/// recorded path first, then the older-layout rewrites in order), the first
/// one that does.
pub fn first_existing(recorded_path: &str, exists: &[bool]) -> (r: Option<String>)
    ensures
        match r {
            Some(p) => first_existing_from(storage_candidates(recorded_path@), exists@, 0) == Some(p@),
            None => first_existing_from(storage_candidates(recorded_path@), exists@, 0) is None,
        },
{
    let legacy = storage_path_candidates(recorded_path);
    let ghost all = storage_candidates(recorded_path@);
    let mut k: usize = 0;
    while k < 6 && k < exists.len()
        invariant
            k <= 6,
            legacy@.len() == 5,
            all == storage_candidates(recorded_path@),
            forall|j: int| 0 <= j < 5 ==> #[trigger] legacy@[j]@ == legacy_candidates(recorded_path@)[j],
            first_existing_from(all, exists@, 0) == first_existing_from(all, exists@, k as int),
        decreases 6 - k,
    {
        if exists[k] {
            if k == 0 {
                return Some(recorded_path.to_owned());
            }
            assert(all[k as int] == legacy_candidates(recorded_path@)[k - 1]);
            return Some(legacy[k - 1].clone());
        }
        k += 1;
    }
    None
}

/// The path where a vaulted entry recorded at `recorded_path` can be found:
/// the recorded path if it exists, else the first older-layout rewrite that
/// exists, else `None`. Which of them exist is asked of the filesystem, once
/// per candidate; whatever it answers, the result is what `first_existing`
/// gives for those answers, so it is one of the candidates.
pub fn resolve_storage_path(recorded_path: &str) -> (r: Option<String>)
    ensures
        exists|answers: Seq<bool>| #![auto] answers.len() == 6 && match r {
            Some(p) => first_existing_from(storage_candidates(recorded_path@), answers, 0) == Some(p@),
            None => first_existing_from(storage_candidates(recorded_path@), answers, 0) is None,
        },
        match r {
            Some(p) => exists|k: int| 0 <= k < 6 && p@ == storage_candidates(recorded_path@)[k],
            None => true,
        },
{
    let legacy = storage_path_candidates(recorded_path);
    let mut exists: Vec<bool> = Vec::new();
    exists.push(path_exists(recorded_path));
    let mut i: usize = 0;
    while i < legacy.len()
        invariant
            i <= legacy.len(),
            exists@.len() == i + 1,
        decreases legacy.len() - i,
    {
        exists.push(path_exists(legacy[i].as_str()));
        i += 1;
    }
    let r = first_existing(recorded_path, exists.as_slice());
    proof {
        lemma_first_existing_is_candidate(storage_candidates(recorded_path@), exists@, 0);
        assert(exists@.len() == 6);
    }
    r
}

proof fn lemma_first_existing_is_candidate(candidates: Seq<Seq<char>>, exists: Seq<bool>, k: int)
    requires
        0 <= k,
    ensures
        first_existing_from(candidates, exists, k) matches Some(p) ==>
            exists|j: int| 0 <= j < candidates.len() && p == candidates[j],
    decreases candidates.len() - k,
{
    if k < candidates.len() && k < exists.len() && !exists[k] {
        lemma_first_existing_is_candidate(candidates, exists, k + 1);
    }
}

} // verus!
