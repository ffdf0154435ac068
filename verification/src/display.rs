//! Shortened forms of file names and paths for tables.

use vstd::prelude::*;
use crate::path::{components, components_of, file_name, file_name_of, is_normal_component, join_names,
    split_extension, stem_and_extension};
use crate::text::{append_chars, chars_of, string_of};

verus! {

/// The number of bytes of `c` in UTF-8.
pub open spec fn char_utf8_len(c: char) -> int {
    let u = c as u32;
    if u < 0x80 {
        1
    } else if u < 0x800 {
        2
    } else if u < 0x10000 {
        3
    } else {
        4
    }
}

/// The number of bytes of `s` in UTF-8.
pub open spec fn utf8_len(s: Seq<char>) -> int
    decreases s.len(),
{
    if s.len() == 0 {
        0
    } else {
        utf8_len(s.drop_last()) + char_utf8_len(s.last())
    }
}

proof fn lemma_utf8_len_grows(s: Seq<char>)
    ensures
        utf8_len(s) >= s.len(),
    decreases s.len(),
{
    if s.len() > 0 {
        lemma_utf8_len_grows(s.drop_last());
    }
}

/// The UTF-8 length of `s`, or 7 when it is more than 6.
fn utf8_len_upto7(s: &[char]) -> (r: usize)
    ensures
        r <= 7,
        r < 7 ==> r == utf8_len(s@),
        r == 7 ==> utf8_len(s@) >= 7,
{
    let mut total: usize = 0;
    let mut i: usize = 0;
    assert(s@.take(0) =~= Seq::<char>::empty());
    while i < s.len()
        invariant
            i <= s.len(),
            total <= 6,
            total == utf8_len(s@.take(i as int)),
        decreases s.len() - i,
    {
        let u = s[i] as u32;
        let w: usize = if u < 0x80 {
            1
        } else if u < 0x800 {
            2
        } else if u < 0x10000 {
            3
        } else {
            4
        };
        assert(s@.take(i + 1).drop_last() =~= s@.take(i as int));
        if total + w > 6 {
            proof { lemma_utf8_len_prefix(s@, i + 1); }
            return 7;
        }
        total = total + w;
        i += 1;
    }
    assert(s@.take(s.len() as int) =~= s@);
    total
}

proof fn lemma_utf8_len_prefix(s: Seq<char>, i: int)
    requires
        0 <= i <= s.len(),
    ensures
        utf8_len(s) >= utf8_len(s.take(i)),
    decreases s.len() - i,
{
    if i < s.len() {
        lemma_utf8_len_prefix(s, i + 1);
        assert(s.take(i + 1).drop_last() =~= s.take(i));
    } else {
        assert(s.take(i) =~= s);
    }
}

/// The first `n` characters of `s` (all of it when it is shorter).
pub open spec fn first_chars(s: Seq<char>, n: int) -> Seq<char> {
    if n >= s.len() {
        s
    } else if n <= 0 {
        Seq::<char>::empty()
    } else {
        s.take(n)
    }
}

/// `name` shortened to at most `max_len` characters for a table: kept whole
/// when it fits; otherwise, when it has a non-empty extension of at most six
/// bytes and `max_len` leaves room, the beginning of its stem, `...` and the
/// extension; otherwise its first `max_len - 3` characters and `...`.
pub open spec fn display_name(name: Seq<char>, max_len: int) -> Seq<char> {
    let plain = first_chars(name, max_len - 3) + "..."@;
    if name.len() <= max_len {
        name
    } else {
        match file_name(name) {
            Some(f) => {
                let (stem, ext) = stem_and_extension(f);
                match ext {
                    Some(e) => if e.len() > 0 && utf8_len(e) <= 6 && max_len > utf8_len(e) + 4 {
                        first_chars(stem, max_len - (utf8_len(e) + 3)) + "..."@ + e
                    } else {
                        plain
                    },
                    None => plain,
                }
            },
            None => plain,
        }
    }
}

/// A shortened name never takes more than the room it was given (at least
/// the three characters of the ellipsis), and a name that fits is kept as
/// it is.
pub proof fn shortened_names_fit(name: Seq<char>, max_len: int)
    requires
        max_len >= 3,
    ensures
        display_name(name, max_len).len() <= max_len,
        name.len() <= max_len ==> display_name(name, max_len) == name,
{
    if name.len() > max_len {
        reveal_strlit("...");
        if let Some(f) = file_name(name) {
            let (stem, ext) = stem_and_extension(f);
            if let Some(e) = ext {
                lemma_utf8_len_grows(e);
            }
        }
    }
}

/// The first `n` characters of `s`.
fn take_chars(s: &[char], n: usize) -> (r: Vec<char>)
    ensures
        r@ == first_chars(s@, n as int),
{
    let end = if n < s.len() { n } else { s.len() };
    let r = crate::text::chars_slice(s, 0, end);
    assert(r@ =~= first_chars(s@, n as int));
    r
}

/// Shortens a file name to at most `max_len` characters (see `display_name`).
pub fn format_display_name(filename: &str, max_len: usize) -> (r: String)
    ensures
        r@ == display_name(filename@, max_len as int),
{
    let f = chars_of(filename);
    if f.len() <= max_len {
        return filename.to_owned();
    }
    let dots = chars_of("...");
    let cut = if max_len >= 3 { max_len - 3 } else { 0 };
    let mut plain = take_chars(f.as_slice(), cut);
    assert(first_chars(f@, cut as int) == first_chars(f@, max_len - 3));
    append_chars(&mut plain, dots.as_slice());
    match file_name_of(f.as_slice()) {
        Some(name) => {
            let (stem, ext) = split_extension(name.as_slice());
            match ext {
                Some(e) => {
                    let elen = utf8_len_upto7(e.as_slice());
                    if e.len() > 0 && elen <= 6 && max_len > elen + 4 {
                        let mut out = take_chars(stem.as_slice(), max_len - (elen + 3));
                        append_chars(&mut out, dots.as_slice());
                        append_chars(&mut out, e.as_slice());
                        return string_of(out.as_slice());
                    }
                    proof {
                        if e@.len() > 0 && utf8_len(e@) <= 6 {
                            assert(elen < 7);
                        }
                    }
                    string_of(plain.as_slice())
                },
                None => string_of(plain.as_slice()),
            }
        },
        None => string_of(plain.as_slice()),
    }
}

} // verus!

verus! {

/// The names among path components, in order.
pub open spec fn normal_names(comps: Seq<Seq<char>>) -> Seq<Seq<char>>
    decreases comps.len(),
{
    if comps.len() == 0 {
        Seq::<Seq<char>>::empty()
    } else if is_normal_component(comps.last()) {
        normal_names(comps.drop_last()).push(comps.last())
    } else {
        normal_names(comps.drop_last())
    }
}

/// A short form of the directory that holds `path`, for a table: relative to
/// the home directory (written `~`) when the path lies in it, showing at most
/// `max_refs` directory names and `...` for the rest.
pub open spec fn display_path(path: Seq<char>, home: Option<Seq<char>>, max_refs: int) -> Seq<char> {
    let comps = components(path);
    let is_home = match home {
        Some(h) => components(h).len() <= comps.len() && comps.take(components(h).len() as int) == components(h),
        None => false,
    };
    let rel = if is_home { comps.skip(components(home->0).len() as int) } else { comps };
    let parts = normal_names(rel);
    let dirs = parts.drop_last();
    let prefix = if is_home { "~"@ } else { Seq::<char>::empty() };
    if parts.len() == 0 {
        if is_home { "~"@ } else { path }
    } else if dirs.len() == 0 {
        if is_home { "~"@ } else { "/"@ }
    } else if dirs.len() <= max_refs {
        prefix + seq!['/'] + join_names(dirs)
    } else {
        prefix + seq!['/'] + join_names(dirs.take(max_refs)) + "/..."@
    }
}

/// Whether the first components of `comps` are `base`.
fn starts_with_components(comps: &Vec<Vec<char>>, base: &Vec<Vec<char>>) -> (r: bool)
    requires
        true,
    ensures
        r == (base@.len() <= comps@.len() && forall|k: int| 0 <= k < base@.len() ==> #[trigger] comps@[k]@ == base@[k]@),
{
    if base.len() > comps.len() {
        return false;
    }
    let mut i: usize = 0;
    while i < base.len()
        invariant
            i <= base.len() <= comps.len(),
            forall|k: int| 0 <= k < i ==> #[trigger] comps@[k]@ == base@[k]@,
        decreases base.len() - i,
    {
        if !crate::text::chars_eq(comps[i].as_slice(), base[i].as_slice()) {
            return false;
        }
        i += 1;
    }
    true
}

/// The names among `comps[from..]`, in order.
fn names_from(comps: &Vec<Vec<char>>, from: usize, Ghost(model): Ghost<Seq<Seq<char>>>) -> (r: Vec<Vec<char>>)
    requires
        from <= comps@.len(),
        model.len() == comps@.len(),
        forall|k: int| 0 <= k < model.len() ==> #[trigger] comps@[k]@ == model[k],
    ensures
        r@.len() == normal_names(model.skip(from as int)).len(),
        forall|k: int| 0 <= k < r@.len() ==> #[trigger] r@[k]@ == normal_names(model.skip(from as int))[k],
{
    let mut r: Vec<Vec<char>> = Vec::new();
    let mut i: usize = from;
    assert(model.skip(from as int).take(0) =~= Seq::<Seq<char>>::empty());
    while i < comps.len()
        invariant
            from <= i <= comps@.len(),
            model.len() == comps@.len(),
            forall|k: int| 0 <= k < model.len() ==> #[trigger] comps@[k]@ == model[k],
            r@.len() == normal_names(model.skip(from as int).take(i - from)).len(),
            forall|k: int| 0 <= k < r@.len() ==> #[trigger] r@[k]@ == normal_names(model.skip(from as int).take(i - from))[k],
        decreases comps.len() - i,
    {
        let ghost rest = model.skip(from as int);
        assert(rest.take(i + 1 - from).drop_last() =~= rest.take(i - from));
        assert(rest.take(i + 1 - from).last() == model[i as int]);
        let c = &comps[i];
        let special = (c.len() == 1 && (c[0] == '/' || c[0] == '.')) || (c.len() == 2 && c[0] == '.' && c[1] == '.');
        proof {
            if c@ == seq!['/'] || c@ == seq!['.'] {
                assert(c@.len() == 1);
            }
            if c@ == seq!['.', '.'] {
                assert(c@.len() == 2);
            }
            if special {
                if c.len() == 1 {
                    if c@[0] == '/' {
                        assert(c@ =~= seq!['/']);
                    } else {
                        assert(c@ =~= seq!['.']);
                    }
                } else {
                    assert(c@ =~= seq!['.', '.']);
                }
            }
        }
        if !special {
            r.push(comps[i].clone());
        }
        i += 1;
    }
    assert(model.skip(from as int).take(comps.len() - from) =~= model.skip(from as int));
    r
}

/// Joins names with single slashes.
fn join_with_slashes(names: &Vec<Vec<char>>, count: usize, Ghost(model): Ghost<Seq<Seq<char>>>) -> (r: Vec<char>)
    requires
        count <= names@.len(),
        model.len() == names@.len(),
        forall|k: int| 0 <= k < model.len() ==> #[trigger] names@[k]@ == model[k],
    ensures
        r@ == join_names(model.take(count as int)),
{
    let mut out: Vec<char> = Vec::new();
    let mut j: usize = 0;
    assert(join_names(model.take(0)) =~= Seq::<char>::empty());
    while j < count
        invariant
            j <= count <= names@.len(),
            model.len() == names@.len(),
            forall|k: int| 0 <= k < model.len() ==> #[trigger] names@[k]@ == model[k],
            out@ == join_names(model.take(j as int)),
        decreases count - j,
    {
        assert(model.take(j + 1).drop_last() =~= model.take(j as int));
        if j > 0 {
            out.push('/');
        }
        append_chars(&mut out, names[j].as_slice());
        proof {
            if j == 0 {
                assert(out@ =~= join_names(model.take(j + 1)));
            } else {
                assert(out@ =~= join_names(model.take(j + 1)));
            }
        }
        j += 1;
    }
    out
}

/// A short form of the directory holding `original_path`, relative to the
/// home directory `home` when inside it, with at most `max_refs` names (see
/// `display_path`).
pub fn display_path_from(original_path: &str, home: Option<&str>, max_refs: usize) -> (r: String)
    ensures
        r@ == display_path(original_path@, match home { Some(h) => Some(h@), None => None }, max_refs as int),
{
    let ghost home_view = match home { Some(h) => Some(h@), None => None::<Seq<char>> };
    let p = chars_of(original_path);
    let comps = components_of(p.as_slice());
    let ghost cm = components(p@);
    let mut skip: usize = 0;
    let mut is_home = false;
    match home {
        Some(h) => {
            let hchars = chars_of(h);
            let hc = components_of(hchars.as_slice());
            assert(hc@.len() == components(h@).len());
            if starts_with_components(&comps, &hc) {
                is_home = true;
                skip = hc.len();
                assert forall|k: int| 0 <= k < hc@.len() implies cm.take(hc@.len() as int)[k] == components(h@)[k] by {
                    assert(comps@[k]@ == hc@[k]@);
                }
                assert(cm.take(hc@.len() as int) =~= components(h@));
            } else {
                assert(!(components(h@).len() <= cm.len() && cm.take(components(h@).len() as int) == components(h@))) by {
                    if components(h@).len() <= cm.len() && cm.take(components(h@).len() as int) == components(h@) {
                        assert forall|k: int| 0 <= k < hc@.len() implies #[trigger] comps@[k]@ == hc@[k]@ by {
                            assert(cm.take(components(h@).len() as int)[k] == cm[k]);
                        }
                    }
                }
            }
        },
        None => {},
    }
    assert(cm.skip(0) =~= cm);
    let parts = names_from(&comps, skip, Ghost(cm));
    let ghost pm = normal_names(if is_home { cm.skip(components(home_view->0).len() as int) } else { cm });
    assert(parts@.len() == pm.len());
    if parts.len() == 0 {
        if is_home {
            return "~".to_owned();
        }
        return original_path.to_owned();
    }
    let ndirs = parts.len() - 1;
    assert(pm.drop_last().len() == ndirs);
    if ndirs == 0 {
        if is_home {
            return "~".to_owned();
        }
        return "/".to_owned();
    }
    let mut out: Vec<char> = if is_home { chars_of("~") } else { Vec::new() };
    let ghost prefix = out@;
    out.push('/');
    let shown = if ndirs <= max_refs { ndirs } else { max_refs };
    let joined = join_with_slashes(&parts, shown, Ghost(pm));
    append_chars(&mut out, joined.as_slice());
    proof {
        assert(pm.take(shown as int) =~= pm.drop_last().take(shown as int));
        if ndirs <= max_refs {
            assert(pm.drop_last().take(shown as int) =~= pm.drop_last());
        }
    }
    if ndirs > max_refs {
        let tail = chars_of("/...");
        append_chars(&mut out, tail.as_slice());
    }
    string_of(out.as_slice())
}

/// Calls `directories::BaseDirs::new` and gives the home directory it finds,
/// as text. It depends on the environment and the user database, so nothing
/// is stated of it.
#[verifier::external_body]
fn user_home_dir() -> Option<String> {
    directories::BaseDirs::new().map(|b| b.home_dir().to_string_lossy().to_string())
}

/// A short form of the directory holding `original_path` for the user
/// running the program: relative to their home directory when inside it,
/// with at most `max_refs` names (see `display_path`).
pub fn format_display_path(original_path: &str, max_refs: usize) -> (r: String)
    ensures
        exists|home: Option<Seq<char>>| r@ == #[trigger] display_path(original_path@, home, max_refs as int),
{
    let home = user_home_dir();
    match &home {
        Some(h) => display_path_from(original_path, Some(h.as_str()), max_refs),
        None => display_path_from(original_path, None, max_refs),
    }
}

} // verus!
