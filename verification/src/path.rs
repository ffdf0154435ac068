//! Lexical path handling: splitting a path into its slash-separated pieces,
//! resolving `.` and `..` without touching the filesystem, and the few
//! `std::path` operations the rest of the library needs, all on plain text.

use vstd::prelude::*;
use crate::text::{append_chars, chars_of, string_of};

verus! {

/// The pieces of `s` between slashes, in order: `"a//b"` has the pieces
/// `"a"`, `""` and `"b"`; `"/a"` has `""` and `"a"`.
pub open spec fn segments(s: Seq<char>) -> Seq<Seq<char>>
    decreases s.len(),
{
    if s.len() == 0 {
        seq![Seq::<char>::empty()]
    } else {
        let prev = segments(s.drop_last());
        if s.last() == '/' {
            prev.push(Seq::<char>::empty())
        } else {
            prev.update(prev.len() - 1, prev.last().push(s.last()))
        }
    }
}

/// The piece `"."`.
pub open spec fn is_cur_dir(seg: Seq<char>) -> bool {
    seg == seq!['.']
}

/// The piece `".."`.
pub open spec fn is_parent_dir(seg: Seq<char>) -> bool {
    seg == seq!['.', '.']
}

/// One step of lexical resolution: empty pieces and `.` change nothing, `..`
/// drops the last name (if any), any other piece is appended.
pub open spec fn resolve_step(names: Seq<Seq<char>>, seg: Seq<char>) -> Seq<Seq<char>> {
    if seg.len() == 0 || is_cur_dir(seg) {
        names
    } else if is_parent_dir(seg) {
        if names.len() > 0 {
            names.drop_last()
        } else {
            names
        }
    } else {
        names.push(seg)
    }
}

/// The names left after resolving the pieces `segs` from left to right.
pub open spec fn resolve(segs: Seq<Seq<char>>) -> Seq<Seq<char>>
    decreases segs.len(),
{
    if segs.len() == 0 {
        Seq::<Seq<char>>::empty()
    } else {
        resolve_step(resolve(segs.drop_last()), segs.last())
    }
}

/// The names joined with single slashes.
pub open spec fn join_names(names: Seq<Seq<char>>) -> Seq<char>
    decreases names.len(),
{
    if names.len() == 0 {
        Seq::<char>::empty()
    } else if names.len() == 1 {
        names[0]
    } else {
        join_names(names.drop_last()) + seq!['/'] + names.last()
    }
}

/// A path is absolute when it begins with a slash.
pub open spec fn is_absolute(s: Seq<char>) -> bool {
    s.len() > 0 && s[0] == '/'
}

/// The lexically normalized form of `s`: `.` pieces and repeated slashes are
/// dropped, each `..` removes the name before it (never climbing above the
/// start), and an empty result becomes `"/"`.
pub open spec fn normalize(s: Seq<char>) -> Seq<char> {
    let names = resolve(segments(s));
    if is_absolute(s) {
        seq!['/'] + join_names(names)
    } else if names.len() == 0 {
        seq!['/']
    } else {
        join_names(names)
    }
}

pub proof fn lemma_segments_len(s: Seq<char>)
    ensures
        segments(s).len() >= 1,
    decreases s.len(),
{
    if s.len() > 0 {
        lemma_segments_len(s.drop_last());
    }
}

/// Adds the piece `seg` to the resolved names, as one step of `resolve`.
fn push_segment(names: &mut Vec<Vec<char>>, Ghost(model): Ghost<Seq<Seq<char>>>, seg: Vec<char>) -> (next: Ghost<Seq<Seq<char>>>)
    requires
        old(names)@.len() == model.len(),
        forall|k: int| 0 <= k < model.len() ==> #[trigger] old(names)@[k]@ == model[k],
    ensures
        next@ == resolve_step(model, seg@),
        final(names)@.len() == next@.len(),
        forall|k: int| 0 <= k < next@.len() ==> #[trigger] final(names)@[k]@ == next@[k],
{
    if seg.len() == 0 || (seg.len() == 1 && seg[0] == '.') {
        proof {
            if seg.len() == 1 {
                assert(seg@ =~= seq!['.']);
            }
        }
        Ghost(model)
    } else if seg.len() == 2 && seg[0] == '.' && seg[1] == '.' {
        assert(seg@ =~= seq!['.', '.']);
        if names.len() > 0 {
            names.pop();
            Ghost(model.drop_last())
        } else {
            Ghost(model)
        }
    } else {
        proof {
            assert(!is_cur_dir(seg@)) by {
                if seg@ == seq!['.'] {
                    assert(seg@.len() == 1);
                }
            }
            assert(!is_parent_dir(seg@)) by {
                if seg@ == seq!['.', '.'] {
                    assert(seg@.len() == 2 && seg@[0] == '.' && seg@[1] == '.');
                }
            }
        }
        let ghost s = seg@;
        names.push(seg);
        Ghost(model.push(s))
    }
}

/// Lexically normalizes `path`: resolves `.` and `..` pieces and repeated
/// slashes without touching the filesystem.
pub fn normalize_lexical(path: &str) -> (r: String)
    ensures
        r@ == normalize(path@),
{
    let cs = chars_of(path);
    let mut names: Vec<Vec<char>> = Vec::new();
    let ghost mut model: Seq<Seq<char>> = Seq::empty();
    let mut cur: Vec<char> = Vec::new();
    let mut i: usize = 0;
    while i < cs.len()
        invariant
            i <= cs.len(),
            cs@ == path@,
            names@.len() == model.len(),
            forall|k: int| 0 <= k < model.len() ==> #[trigger] names@[k]@ == model[k],
            segments(cs@.take(i as int)).len() >= 1,
            model == resolve(segments(cs@.take(i as int)).drop_last()),
            cur@ == segments(cs@.take(i as int)).last(),
        decreases cs.len() - i,
    {
        let ghost before = cs@.take(i as int);
        let ghost after = cs@.take(i + 1);
        assert(after.drop_last() =~= before);
        if cs[i] == '/' {
            let seg = cur;
            cur = Vec::new();
            let Ghost(next) = push_segment(&mut names, Ghost(model), seg);
            proof {
                model = next;
                assert(segments(after).drop_last() =~= segments(before));
            }
        } else {
            cur.push(cs[i]);
            proof {
                assert(segments(after).drop_last() =~= segments(before).drop_last());
            }
        }
        i += 1;
    }
    assert(cs@.take(cs.len() as int) =~= cs@);
    let ghost segs = segments(cs@);
    assert(segs.drop_last().push(segs.last()) =~= segs);
    let Ghost(fin) = push_segment(&mut names, Ghost(model), cur);
    assert(fin == resolve(segs));
    let absolute = cs.len() > 0 && cs[0] == '/';
    let mut out: Vec<char> = Vec::new();
    if absolute {
        out.push('/');
    }
    let ghost lead: Seq<char> = out@;
    let mut j: usize = 0;
    while j < names.len()
        invariant
            j <= names.len(),
            names@.len() == fin.len(),
            forall|k: int| 0 <= k < fin.len() ==> #[trigger] names@[k]@ == fin[k],
            out@ == lead + join_names(fin.take(j as int)),
        decreases names.len() - j,
    {
        let ghost prefix = fin.take(j as int);
        assert(fin.take(j + 1).drop_last() =~= prefix);
        if j > 0 {
            out.push('/');
        }
        append_chars(&mut out, names[j].as_slice());
        proof {
            if j == 0 {
                assert(join_names(fin.take(1)) == fin[0]);
                assert(out@ =~= lead + join_names(fin.take(j + 1)));
            } else {
                assert(out@ =~= lead + join_names(fin.take(j + 1)));
            }
        }
        j += 1;
    }
    assert(fin.take(names.len() as int) =~= fin);
    if !absolute && names.len() == 0 {
        out.push('/');
        assert(out@ =~= seq!['/']);
    } else if absolute {
        assert(lead =~= seq!['/']);
    } else {
        assert(lead =~= Seq::<char>::empty());
        assert(out@ =~= join_names(fin));
    }
    string_of(out.as_slice())
}

} // verus!

verus! {

/// A name that survives normalization: non-empty, slash-free, and neither
/// `.` nor `..`.
pub open spec fn is_plain_name(n: Seq<char>) -> bool {
    n.len() > 0 && !n.contains('/') && !is_cur_dir(n) && !is_parent_dir(n)
}

proof fn lemma_segments_have_no_slash(s: Seq<char>)
    ensures
        forall|k: int| 0 <= k < segments(s).len() ==> !(#[trigger] segments(s)[k]).contains('/'),
    decreases s.len(),
{
    lemma_segments_len(s);
    if s.len() > 0 {
        lemma_segments_have_no_slash(s.drop_last());
        lemma_segments_len(s.drop_last());
        let prev = segments(s.drop_last());
        if s.last() != '/' {
            assert forall|k: int| 0 <= k < segments(s).len() implies !(#[trigger] segments(s)[k]).contains('/') by {
                if k == prev.len() - 1 {
                    let piece = prev.last().push(s.last());
                    assert(segments(s)[k] == piece);
                    if piece.contains('/') {
                        let j = choose|j: int| 0 <= j < piece.len() && piece[j] == '/';
                        if j < prev.last().len() {
                            assert(prev.last().contains('/'));
                        }
                    }
                }
            }
        } else {
            assert forall|k: int| 0 <= k < segments(s).len() implies !(#[trigger] segments(s)[k]).contains('/') by {
                if k < prev.len() {
                    assert(segments(s)[k] == prev[k]);
                }
            }
        }
    }
}

proof fn lemma_resolve_plain(segs: Seq<Seq<char>>)
    requires
        forall|k: int| 0 <= k < segs.len() ==> !(#[trigger] segs[k]).contains('/'),
    ensures
        forall|k: int| 0 <= k < resolve(segs).len() ==> is_plain_name(#[trigger] resolve(segs)[k]),
    decreases segs.len(),
{
    if segs.len() > 0 {
        let init = segs.drop_last();
        assert forall|k: int| 0 <= k < init.len() implies !(#[trigger] init[k]).contains('/') by {
            assert(init[k] == segs[k]);
        }
        lemma_resolve_plain(init);
        let prev = resolve(init);
        let last = segs.last();
        assert(!last.contains('/')) by {
            assert(segs[segs.len() - 1] == last);
        }
        assert forall|k: int| 0 <= k < resolve(segs).len() implies is_plain_name(#[trigger] resolve(segs)[k]) by {
            if last.len() == 0 || is_cur_dir(last) {
                assert(resolve(segs)[k] == prev[k]);
            } else if is_parent_dir(last) {
                if prev.len() > 0 {
                    assert(resolve(segs)[k] == prev[k]);
                } else {
                    assert(resolve(segs)[k] == prev[k]);
                }
            } else {
                if k < prev.len() {
                    assert(resolve(segs)[k] == prev[k]);
                } else {
                    assert(resolve(segs)[k] == last);
                }
            }
        }
    }
}

proof fn lemma_resolve_of_plain_names(names: Seq<Seq<char>>)
    requires
        forall|k: int| 0 <= k < names.len() ==> is_plain_name(#[trigger] names[k]),
    ensures
        resolve(names) == names,
        resolve(seq![Seq::<char>::empty()] + names) == names,
    decreases names.len(),
{
    if names.len() == 0 {
        let one = seq![Seq::<char>::empty()];
        assert(one + names =~= one);
        assert(one.drop_last() =~= Seq::<Seq<char>>::empty());
        assert(resolve(one) == resolve_step(resolve(Seq::<Seq<char>>::empty()), Seq::<char>::empty()));
        assert(resolve(one) =~= names);
    } else {
        let init = names.drop_last();
        lemma_resolve_of_plain_names(init);
        let with_lead = seq![Seq::<char>::empty()] + names;
        assert(with_lead.drop_last() =~= seq![Seq::<char>::empty()] + init);
        assert(init.push(names.last()) =~= names);
    }
}

proof fn lemma_segments_append_no_slash(pre: Seq<char>, b: Seq<char>)
    requires
        !b.contains('/'),
    ensures
        segments(pre + b).len() == segments(pre).len(),
        segments(pre + b) == segments(pre).update(segments(pre).len() - 1, segments(pre).last() + b),
    decreases b.len(),
{
    lemma_segments_len(pre);
    if b.len() == 0 {
        assert(pre + b =~= pre);
        assert(segments(pre).last() + b =~= segments(pre).last());
        assert(segments(pre).update(segments(pre).len() - 1, segments(pre).last()) =~= segments(pre));
    } else {
        let b0 = b.drop_last();
        assert(!b0.contains('/')) by {
            if b0.contains('/') {
                let j = choose|j: int| 0 <= j < b0.len() && b0[j] == '/';
                assert(b[j] == '/');
            }
        }
        lemma_segments_append_no_slash(pre, b0);
        assert((pre + b).drop_last() =~= pre + b0);
        assert((pre + b).last() == b.last());
        assert(b.last() != '/') by {
            assert(b[b.len() - 1] == b.last());
        }
        assert(segments(pre).last() + b0 + seq![b.last()] =~= segments(pre).last() + b);
        assert((segments(pre).last() + b0).push(b.last()) =~= segments(pre).last() + b);
        assert(segments(pre + b) =~= segments(pre).update(segments(pre).len() - 1, segments(pre).last() + b));
    }
}

proof fn lemma_segments_of_join(pre: Seq<char>, names: Seq<Seq<char>>)
    requires
        names.len() >= 1,
        forall|k: int| 0 <= k < names.len() ==> !(#[trigger] names[k]).contains('/'),
    ensures
        segments(pre + join_names(names)) == segments(pre).update(segments(pre).len() - 1, segments(pre).last() + names[0]) + names.skip(1),
    decreases names.len(),
{
    lemma_segments_len(pre);
    if names.len() == 1 {
        lemma_segments_append_no_slash(pre, names[0]);
        assert(names.skip(1) =~= Seq::<Seq<char>>::empty());
        let lhs = segments(pre).update(segments(pre).len() - 1, segments(pre).last() + names[0]);
        assert(lhs + names.skip(1) =~= lhs);
    } else {
        let init = names.drop_last();
        assert forall|k: int| 0 <= k < init.len() implies !(#[trigger] init[k]).contains('/') by {
            assert(init[k] == names[k]);
        }
        lemma_segments_of_join(pre, init);
        let x = pre + join_names(init);
        let last = names.last();
        assert(!last.contains('/')) by {
            assert(names[names.len() - 1] == last);
        }
        assert(pre + join_names(names) =~= x.push('/') + last);
        lemma_segments_append_no_slash(x.push('/'), last);
        assert(x.push('/').drop_last() =~= x);
        lemma_segments_len(x);
        assert(segments(x.push('/')) == segments(x).push(Seq::<char>::empty()));
        assert(Seq::<char>::empty() + last =~= last);
        assert(init[0] == names[0]);
        let head = segments(pre).update(segments(pre).len() - 1, segments(pre).last() + names[0]);
        assert(head + init.skip(1) + seq![last] =~= head + names.skip(1));
        assert(segments(x.push('/')).update(segments(x.push('/')).len() - 1, segments(x.push('/')).last() + last)
            =~= segments(x).push(last));
    }
}

proof fn lemma_join_first_char(names: Seq<Seq<char>>)
    requires
        names.len() >= 1,
        names[0].len() > 0,
    ensures
        join_names(names).len() > 0,
        join_names(names)[0] == names[0][0],
    decreases names.len(),
{
    if names.len() > 1 {
        lemma_join_first_char(names.drop_last());
    }
}

/// Normalizing twice gives the same path as normalizing once.
pub proof fn normalize_is_idempotent(s: Seq<char>)
    ensures
        normalize(normalize(s)) == normalize(s),
{
    let names = resolve(segments(s));
    lemma_segments_have_no_slash(s);
    lemma_resolve_plain(segments(s));
    let n = normalize(s);
    let slash = seq!['/'];
    assert(segments(Seq::<char>::empty()) == seq![Seq::<char>::empty()]);
    assert(slash.drop_last() =~= Seq::<char>::empty());
    assert(segments(slash) =~= seq![Seq::<char>::empty(), Seq::<char>::empty()]);
    assert(resolve(segments(slash)) =~= Seq::<Seq<char>>::empty()) by {
        let one = seq![Seq::<char>::empty()];
        assert(segments(slash).drop_last() =~= one);
        assert(one.drop_last() =~= Seq::<Seq<char>>::empty());
        assert(resolve(one) == resolve_step(resolve(Seq::<Seq<char>>::empty()), Seq::<char>::empty()));
        assert(resolve(one) =~= Seq::<Seq<char>>::empty());
    }
    if names.len() == 0 {
        if is_absolute(s) {
            assert(n =~= slash);
        }
        assert(n == slash);
        assert(join_names(Seq::<Seq<char>>::empty()) =~= Seq::<char>::empty());
        assert(slash + Seq::<char>::empty() =~= slash);
    } else {
        assert forall|k: int| 0 <= k < names.len() implies !(#[trigger] names[k]).contains('/') by {
            assert(is_plain_name(names[k]));
        }
        lemma_resolve_of_plain_names(names);
        if is_absolute(s) {
            lemma_segments_of_join(slash, names);
            assert(segments(n) =~= seq![Seq::<char>::empty()] + names) by {
                assert(Seq::<char>::empty() + names[0] =~= names[0]);
                assert(seq![Seq::<char>::empty(), Seq::<char>::empty()].update(1, names[0])
                    + names.skip(1) =~= seq![Seq::<char>::empty()] + names);
            }
            assert(is_absolute(n));
        } else {
            lemma_segments_of_join(Seq::<char>::empty(), names);
            assert(Seq::<char>::empty() + join_names(names) =~= join_names(names));
            assert(segments(n) =~= names) by {
                assert(Seq::<char>::empty() + names[0] =~= names[0]);
                assert(seq![Seq::<char>::empty()].update(0, names[0]) + names.skip(1) =~= names);
            }
            lemma_join_first_char(names);
            assert(names[0].contains(names[0][0]));
            assert(!is_absolute(n));
        }
    }
}

/// A normalized path is never empty, stays absolute when the input was, and
/// holds only plain names: no `.`, no `..` and no empty piece between slashes.
pub proof fn normalized_path_is_clean(s: Seq<char>)
    ensures
        normalize(s).len() > 0,
        is_absolute(s) ==> is_absolute(normalize(s)),
        normalize(s) == seq!['/'] || (forall|k: int|
            0 <= k < segments(normalize(s)).len() && (k > 0 || !is_absolute(normalize(s)))
                ==> is_plain_name(#[trigger] segments(normalize(s))[k])),
{
    let names = resolve(segments(s));
    lemma_segments_have_no_slash(s);
    lemma_resolve_plain(segments(s));
    let n = normalize(s);
    let slash = seq!['/'];
    if names.len() == 0 {
        if is_absolute(s) {
            assert(n =~= slash);
        }
    } else {
        assert forall|k: int| 0 <= k < names.len() implies !(#[trigger] names[k]).contains('/') by {
            assert(is_plain_name(names[k]));
        }
        assert(segments(Seq::<char>::empty()) == seq![Seq::<char>::empty()]);
        assert(slash.drop_last() =~= Seq::<char>::empty());
        assert(segments(slash) =~= seq![Seq::<char>::empty(), Seq::<char>::empty()]);
        lemma_join_first_char(names);
        if is_absolute(s) {
            lemma_segments_of_join(slash, names);
            assert(segments(n) =~= seq![Seq::<char>::empty()] + names) by {
                assert(Seq::<char>::empty() + names[0] =~= names[0]);
                assert(seq![Seq::<char>::empty(), Seq::<char>::empty()].update(1, names[0])
                    + names.skip(1) =~= seq![Seq::<char>::empty()] + names);
            }
            assert(is_absolute(n));
            assert forall|k: int| 0 <= k < segments(n).len() && (k > 0 || !is_absolute(n))
                implies is_plain_name(#[trigger] segments(n)[k]) by {
                assert(segments(n)[k] == names[k - 1]);
            }
        } else {
            lemma_segments_of_join(Seq::<char>::empty(), names);
            assert(Seq::<char>::empty() + join_names(names) =~= join_names(names));
            assert(segments(n) =~= names) by {
                assert(Seq::<char>::empty() + names[0] =~= names[0]);
                assert(seq![Seq::<char>::empty()].update(0, names[0]) + names.skip(1) =~= names);
            }
            assert(names[0].contains(names[0][0]));
        }
    }
}

} // verus!

verus! {

/// The pieces kept as path components: everything but empty pieces and `.`.
pub open spec fn kept_pieces(segs: Seq<Seq<char>>) -> Seq<Seq<char>>
    decreases segs.len(),
{
    if segs.len() == 0 {
        Seq::<Seq<char>>::empty()
    } else {
        let prev = kept_pieces(segs.drop_last());
        let last = segs.last();
        if last.len() > 0 && !is_cur_dir(last) {
            prev.push(last)
        } else {
            prev
        }
    }
}

/// The components of `s` in the way `std::path::Path::components` yields them
/// on Unix, each written as text: the root directory as `"/"`, a leading
/// current directory as `"."`, a parent directory as `".."`, and every other
/// component as its name.
pub open spec fn components(s: Seq<char>) -> Seq<Seq<char>> {
    let segs = segments(s);
    let lead = if is_absolute(s) {
        seq![seq!['/']]
    } else if is_cur_dir(segs[0]) {
        seq![seq!['.']]
    } else {
        Seq::<Seq<char>>::empty()
    };
    lead + kept_pieces(segs)
}

/// A component that is a name (neither the root, `.` nor `..`).
pub open spec fn is_normal_component(c: Seq<char>) -> bool {
    c != seq!['/'] && !is_cur_dir(c) && !is_parent_dir(c)
}

/// The last component of `s` when it is a name, as `Path::file_name` gives it.
pub open spec fn file_name(s: Seq<char>) -> Option<Seq<char>> {
    let c = components(s);
    if c.len() > 0 && is_normal_component(c.last()) {
        Some(c.last())
    } else {
        None
    }
}

/// Adds `seg` to the kept components when it is neither empty nor `.`.
fn keep_piece(kept: &mut Vec<Vec<char>>, Ghost(model): Ghost<Seq<Seq<char>>>, seg: Vec<char>) -> (next: Ghost<Seq<Seq<char>>>)
    requires
        old(kept)@.len() == model.len(),
        forall|k: int| 0 <= k < model.len() ==> #[trigger] old(kept)@[k]@ == model[k],
    ensures
        next@ == (if seg@.len() > 0 && !is_cur_dir(seg@) { model.push(seg@) } else { model }),
        final(kept)@.len() == next@.len(),
        forall|k: int| 0 <= k < next@.len() ==> #[trigger] final(kept)@[k]@ == next@[k],
{
    if seg.len() == 0 || (seg.len() == 1 && seg[0] == '.') {
        proof {
            if seg.len() == 1 {
                assert(seg@ =~= seq!['.']);
            }
        }
        Ghost(model)
    } else {
        proof {
            assert(!is_cur_dir(seg@)) by {
                if seg@ == seq!['.'] {
                    assert(seg@.len() == 1);
                }
            }
        }
        let ghost s = seg@;
        kept.push(seg);
        Ghost(model.push(s))
    }
}

/// The components of the path `s` (see `components`).
pub fn components_of(s: &[char]) -> (r: Vec<Vec<char>>)
    ensures
        r@.len() == components(s@).len(),
        forall|k: int| 0 <= k < r@.len() ==> #[trigger] r@[k]@ == components(s@)[k],
{
    let mut kept: Vec<Vec<char>> = Vec::new();
    let ghost mut model: Seq<Seq<char>> = Seq::empty();
    let mut cur: Vec<char> = Vec::new();
    let mut first_piece: Option<Vec<char>> = None;
    let mut i: usize = 0;
    while i < s.len()
        invariant
            i <= s.len(),
            kept@.len() == model.len(),
            forall|k: int| 0 <= k < model.len() ==> #[trigger] kept@[k]@ == model[k],
            segments(s@.take(i as int)).len() >= 1,
            model == kept_pieces(segments(s@.take(i as int)).drop_last()),
            cur@ == segments(s@.take(i as int)).last(),
            match first_piece {
                Some(f) => segments(s@.take(i as int)).len() >= 2 && f@ == segments(s@.take(i as int))[0],
                None => segments(s@.take(i as int)).len() == 1,
            },
        decreases s.len() - i,
    {
        let ghost before = s@.take(i as int);
        let ghost after = s@.take(i + 1);
        assert(after.drop_last() =~= before);
        proof { lemma_segments_len(before); }
        if s[i] == '/' {
            let seg = cur;
            cur = Vec::new();
            if first_piece.is_none() {
                first_piece = Some(seg.clone());
            }
            let Ghost(next) = keep_piece(&mut kept, Ghost(model), seg);
            proof {
                model = next;
                assert(segments(after).drop_last() =~= segments(before));
            }
        } else {
            cur.push(s[i]);
            proof {
                assert(segments(after).drop_last() =~= segments(before).drop_last());
            }
        }
        i += 1;
    }
    assert(s@.take(s.len() as int) =~= s@);
    let ghost segs = segments(s@);
    assert(segs.drop_last().push(segs.last()) =~= segs);
    let first = match first_piece {
        Some(f) => f,
        None => cur.clone(),
    };
    let Ghost(fin) = keep_piece(&mut kept, Ghost(model), cur);
    assert(fin == kept_pieces(segs));
    let mut r: Vec<Vec<char>> = Vec::new();
    let ghost lead = if is_absolute(s@) {
        seq![seq!['/']]
    } else if is_cur_dir(segs[0]) {
        seq![seq!['.']]
    } else {
        Seq::<Seq<char>>::empty()
    };
    if s.len() > 0 && s[0] == '/' {
        let mut root: Vec<char> = Vec::new();
        root.push('/');
        assert(root@ =~= seq!['/']);
        r.push(root);
    } else if first.len() == 1 && first[0] == '.' {
        let mut dot: Vec<char> = Vec::new();
        dot.push('.');
        assert(dot@ =~= seq!['.']);
        assert(first@ =~= seq!['.']);
        r.push(dot);
    } else {
        assert(!is_cur_dir(segs[0])) by {
            if first@ == seq!['.'] {
                assert(first@.len() == 1);
            }
        }
    }
    let mut j: usize = 0;
    while j < kept.len()
        invariant
            j <= kept.len(),
            kept@.len() == fin.len(),
            forall|k: int| 0 <= k < fin.len() ==> #[trigger] kept@[k]@ == fin[k],
            r@.len() == lead.len() + j,
            forall|k: int| 0 <= k < r@.len() ==> #[trigger] r@[k]@ == (lead + fin)[k],
        decreases kept.len() - j,
    {
        r.push(kept[j].clone());
        j += 1;
    }
    r
}

/// The file name of `s`, as `Path::file_name` gives it.
pub fn file_name_of(s: &[char]) -> (r: Option<Vec<char>>)
    ensures
        match r {
            Some(n) => file_name(s@) == Some(n@),
            None => file_name(s@) is None,
        },
{
    let comps = components_of(s);
    if comps.len() == 0 {
        return None;
    }
    let last = &comps[comps.len() - 1];
    let is_root = last.len() == 1 && last[0] == '/';
    let is_cur = last.len() == 1 && last[0] == '.';
    let is_parent = last.len() == 2 && last[0] == '.' && last[1] == '.';
    proof {
        if last@ == seq!['/'] || last@ == seq!['.'] {
            assert(last@.len() == 1);
        }
        if last@ == seq!['.', '.'] {
            assert(last@.len() == 2);
        }
        if is_root {
            assert(last@ =~= seq!['/']);
        }
        if is_cur {
            assert(last@ =~= seq!['.']);
        }
        if is_parent {
            assert(last@ =~= seq!['.', '.']);
        }
    }
    if is_root || is_cur || is_parent {
        None
    } else {
        Some(last.clone())
    }
}

} // verus!

verus! {

/// The position of the last `c` in `s`, or -1 when there is none.
pub open spec fn last_index_of(s: Seq<char>, c: char) -> int
    decreases s.len(),
{
    if s.len() == 0 {
        -1
    } else if s.last() == c {
        s.len() - 1
    } else {
        last_index_of(s.drop_last(), c)
    }
}

pub proof fn lemma_last_index_of(s: Seq<char>, c: char)
    ensures
        -1 <= last_index_of(s, c) < s.len(),
        last_index_of(s, c) >= 0 ==> s[last_index_of(s, c)] == c,
        forall|k: int| last_index_of(s, c) < k < s.len() ==> s[k] != c,
    decreases s.len(),
{
    if s.len() > 0 && s.last() != c {
        let init = s.drop_last();
        lemma_last_index_of(init, c);
        assert forall|k: int| last_index_of(s, c) < k < s.len() implies s[k] != c by {
            if k < s.len() - 1 {
                assert(s[k] == init[k]);
            }
        }
    }
}

/// The position of the last `c` in `s`.
pub fn find_last(s: &[char], c: char) -> (r: Option<usize>)
    ensures
        match r {
            Some(i) => i as int == last_index_of(s@, c),
            None => last_index_of(s@, c) == -1,
        },
{
    proof { lemma_last_index_of(s@, c); }
    assert(s@.take(s.len() as int) =~= s@);
    let mut i: usize = s.len();
    while i > 0
        invariant
            i <= s.len(),
            last_index_of(s@, c) == last_index_of(s@.take(i as int), c),
        decreases i,
    {
        assert(s@.take(i as int).drop_last() =~= s@.take(i - 1));
        assert(s@.take(i as int).last() == s@[i - 1]);
        if s[i - 1] == c {
            return Some(i - 1);
        }
        i -= 1;
    }
    assert(s@.take(0) =~= Seq::<char>::empty());
    None
}

/// A file name split at its last dot into stem and extension, as
/// `Path::file_stem` and `Path::extension` split it: a name without a dot, or
/// whose only dot is its first character, has no extension.
pub open spec fn stem_and_extension(f: Seq<char>) -> (Seq<char>, Option<Seq<char>>) {
    let i = last_index_of(f, '.');
    if i <= 0 {
        (f, None)
    } else {
        (f.take(i), Some(f.skip(i + 1)))
    }
}

/// Splits the file name `f` into stem and extension.
pub fn split_extension(f: &[char]) -> (r: (Vec<char>, Option<Vec<char>>))
    ensures
        r.0@ == stem_and_extension(f@).0,
        match r.1 {
            Some(e) => stem_and_extension(f@).1 == Some(e@),
            None => stem_and_extension(f@).1 is None,
        },
{
    proof { lemma_last_index_of(f@, '.'); }
    let found = find_last(f, '.');
    match found {
        Some(i) if i > 0 => {
            assert(i < f.len());
            let stem = crate::text::chars_slice(f, 0, i);
            let ext = crate::text::chars_slice(f, i + 1, f.len());
            assert(f@.subrange(0, i as int) =~= f@.take(i as int));
            assert(f@.subrange(i + 1, f@.len() as int) =~= f@.skip(i + 1));
            (stem, Some(ext))
        },
        _ => (crate::text::chars_slice(f, 0, f.len()), None),
    }
}

/// `base` joined with `rel` as `PathBuf::push` joins them: an absolute `rel`
/// replaces `base`, otherwise a slash is put between them unless `base` is
/// empty or already ends with one.
pub open spec fn join_path(base: Seq<char>, rel: Seq<char>) -> Seq<char> {
    if is_absolute(rel) {
        rel
    } else if base.len() == 0 || base.last() == '/' {
        base + rel
    } else {
        base + seq!['/'] + rel
    }
}

/// Joins `rel` onto `base` (see `join_path`).
pub fn join_paths(base: &[char], rel: &[char]) -> (r: Vec<char>)
    ensures
        r@ == join_path(base@, rel@),
{
    if rel.len() > 0 && rel[0] == '/' {
        return crate::text::chars_slice(rel, 0, rel.len());
    }
    let mut out = crate::text::chars_slice(base, 0, base.len());
    if base.len() > 0 && base[base.len() - 1] != '/' {
        out.push('/');
    }
    append_chars(&mut out, rel);
    out
}

/// The parent of a path written in normalized form (no repeated, trailing
/// or dot pieces): `None` for `"/"`, the root for a name just below it, and
/// otherwise the text before the last slash (empty for a single relative
/// name). On normalized paths this is what `Path::parent` gives.
pub open spec fn parent_of_normalized(n: Seq<char>) -> Option<Seq<char>> {
    let i = last_index_of(n, '/');
    if n == seq!['/'] {
        None
    } else if i < 0 {
        Some(Seq::<char>::empty())
    } else if i == 0 {
        Some(seq!['/'])
    } else {
        Some(n.take(i))
    }
}

/// The parent of the normalized path `n` (see `parent_of_normalized`).
pub fn parent_of(n: &[char]) -> (r: Option<Vec<char>>)
    ensures
        match r {
            Some(p) => parent_of_normalized(n@) == Some(p@),
            None => parent_of_normalized(n@) is None,
        },
{
    if n.len() == 1 && n[0] == '/' {
        assert(n@ =~= seq!['/']);
        return None;
    }
    proof { lemma_last_index_of(n@, '/'); }
    assert(n@ != seq!['/']) by {
        if n@ == seq!['/'] {
            assert(n@.len() == 1);
        }
    }
    match find_last(n, '/') {
        None => Some(Vec::new()),
        Some(0) => {
            let mut root: Vec<char> = Vec::new();
            root.push('/');
            assert(root@ =~= seq!['/']);
            Some(root)
        },
        Some(i) => {
            let p = crate::text::chars_slice(n, 0, i);
            assert(n@.subrange(0, i as int) =~= n@.take(i as int));
            Some(p)
        },
    }
}

} // verus!
