//! The deletion safety policy: the tier of a path, the verdict for one path,
//! and the flag and confirmation ceremony that a batch of verdicts must pass.

use vstd::prelude::*;
use crate::path::{components, components_of, file_name, file_name_of, is_normal_component, join_path,
    join_paths, normalize, normalize_lexical, parent_of, parent_of_normalized};
use crate::config::Config;
use crate::inode::{opt_view, clone_opt_string, StatxInfo};
use crate::text::{string_views, chars_contain, chars_end_with, chars_eq, chars_of, chars_start_with, has_infix,
    has_prefix, has_suffix, lowercase, to_lowercase};

verus! {

/// How protected a path is, from refused outright to ordinary.
#[derive(Debug, Clone, Copy, PartialEq, Eq, Structural)]
pub enum SafetyTier {
    T0Refuse,
    T1ProtectedRoot,
    T2Sensitive,
    T3SemiProtected,
    Standard,
}

impl SafetyTier {
    /// The label printed for the tier.
    pub fn as_str(&self) -> (r: &'static str)
        ensures
            r@ == tier_label(*self),
    {
        match self {
            SafetyTier::T0Refuse => "T0 (REFUSE)",
            SafetyTier::T1ProtectedRoot => "T1 (PROTECTED ROOT)",
            SafetyTier::T2Sensitive => "T2 (SENSITIVE)",
            SafetyTier::T3SemiProtected => "T3 (SEMI-PROTECTED)",
            SafetyTier::Standard => "Standard",
        }
    }
}

/// The label of each tier.
pub open spec fn tier_label(t: SafetyTier) -> Seq<char> {
    match t {
        SafetyTier::T0Refuse => "T0 (REFUSE)"@,
        SafetyTier::T1ProtectedRoot => "T1 (PROTECTED ROOT)"@,
        SafetyTier::T2Sensitive => "T2 (SENSITIVE)"@,
        SafetyTier::T3SemiProtected => "T3 (SEMI-PROTECTED)"@,
        SafetyTier::Standard => "Standard"@,
    }
}

/// The reason given for each tier in a verdict.
pub open spec fn tier_reason_text(t: SafetyTier) -> Seq<char> {
    match t {
        SafetyTier::T0Refuse => "critical system path or root (T0)"@,
        SafetyTier::T1ProtectedRoot => "protected system directory or mount root (T1)"@,
        SafetyTier::T2Sensitive => "sensitive credentials or private keys (T2)"@,
        SafetyTier::T3SemiProtected => "semi-protected system hierarchy /opt or /srv (T3)"@,
        SafetyTier::Standard => "standard path"@,
    }
}

/// The reason given for a tier in a verdict.
pub fn tier_reason(tier: SafetyTier) -> (r: &'static str)
    ensures
        r@ == tier_reason_text(tier),
{
    match tier {
        SafetyTier::T0Refuse => "critical system path or root (T0)",
        SafetyTier::T1ProtectedRoot => "protected system directory or mount root (T1)",
        SafetyTier::T2Sensitive => "sensitive credentials or private keys (T2)",
        SafetyTier::T3SemiProtected => "semi-protected system hierarchy /opt or /srv (T3)",
        SafetyTier::Standard => "standard path",
    }
}

/// How strict a tier is: 0 for T0 up to 4 for a standard path.
pub open spec fn tier_rank(t: SafetyTier) -> int {
    match t {
        SafetyTier::T0Refuse => 0,
        SafetyTier::T1ProtectedRoot => 1,
        SafetyTier::T2Sensitive => 2,
        SafetyTier::T3SemiProtected => 3,
        SafetyTier::Standard => 4,
    }
}

/// The stricter of two tiers.
pub open spec fn stricter(a: SafetyTier, b: SafetyTier) -> SafetyTier {
    if tier_rank(a) <= tier_rank(b) {
        a
    } else {
        b
    }
}

/// Directories whose whole tree is refused (besides `/` itself).
pub open spec fn t0_roots() -> Seq<Seq<char>> {
    seq!["/proc"@, "/sys"@, "/dev"@, "/run"@]
}

/// Protected system directories.
pub open spec fn t1_roots() -> Seq<Seq<char>> {
    seq!["/etc"@, "/usr"@, "/bin"@, "/sbin"@, "/lib"@, "/lib64"@, "/lib32"@, "/boot"@, "/root"@, "/var"@]
}

/// Semi-protected hierarchies.
pub open spec fn t3_roots() -> Seq<Seq<char>> {
    seq!["/opt"@, "/srv"@]
}

/// `s` is `root` or lies below it.
pub open spec fn is_within(s: Seq<char>, root: Seq<char>) -> bool {
    s == root || has_prefix(s, root.push('/'))
}

/// `s` is within one of `roots`.
pub open spec fn within_any(s: Seq<char>, roots: Seq<Seq<char>>) -> bool {
    exists|k: int| 0 <= k < roots.len() && is_within(s, #[trigger] roots[k])
}

/// The tier of a path by its place in the tree alone.
pub open spec fn classify(s: Seq<char>, extra_protected: Seq<Seq<char>>) -> SafetyTier {
    if s == "/"@ || within_any(s, t0_roots()) {
        SafetyTier::T0Refuse
    } else if s == "/tmp"@ || s == "/var/tmp"@ {
        SafetyTier::T0Refuse
    } else if has_prefix(s, "/tmp/"@) || has_prefix(s, "/var/tmp/"@) {
        SafetyTier::Standard
    } else if within_any(s, t1_roots()) || within_any(s, extra_protected) {
        SafetyTier::T1ProtectedRoot
    } else if within_any(s, t3_roots()) {
        SafetyTier::T3SemiProtected
    } else {
        SafetyTier::Standard
    }
}

/// The character vectors of some text literals.
fn literals(items: &[&str]) -> (r: Vec<Vec<char>>)
    ensures
        r@.len() == items@.len(),
        forall|k: int| 0 <= k < r@.len() ==> #[trigger] r@[k]@ == items@[k]@,
{
    let mut r: Vec<Vec<char>> = Vec::new();
    let mut i: usize = 0;
    while i < items.len()
        invariant
            i <= items.len(),
            r@.len() == i,
            forall|k: int| 0 <= k < i ==> #[trigger] r@[k]@ == items@[k]@,
        decreases items.len() - i,
    {
        r.push(chars_of(items[i]));
        i += 1;
    }
    r
}

/// Whether `s` is `root` or lies below it.
fn within(s: &[char], root: &[char]) -> (r: bool)
    ensures
        r == is_within(s@, root@),
{
    if chars_eq(s, root) {
        return true;
    }
    let mut with_slash = crate::text::chars_slice(root, 0, root.len());
    with_slash.push('/');
    assert(with_slash@ =~= root@.push('/'));
    chars_start_with(s, with_slash.as_slice())
}

/// Whether `s` lies within one of `roots`.
fn within_one_of(s: &[char], roots: &Vec<Vec<char>>, Ghost(model): Ghost<Seq<Seq<char>>>) -> (r: bool)
    requires
        roots@.len() == model.len(),
        forall|k: int| 0 <= k < model.len() ==> #[trigger] roots@[k]@ == model[k],
    ensures
        r == within_any(s@, model),
{
    let mut i: usize = 0;
    while i < roots.len()
        invariant
            i <= roots.len(),
            roots@.len() == model.len(),
            forall|k: int| 0 <= k < model.len() ==> #[trigger] roots@[k]@ == model[k],
            forall|k: int| 0 <= k < i ==> !is_within(s@, #[trigger] model[k]),
        decreases roots.len() - i,
    {
        if within(s, roots[i].as_slice()) {
            assert(is_within(s@, model[i as int]));
            return true;
        }
        i += 1;
    }
    false
}

/// The tier of the path `s` by its place in the tree: the root, `/proc`,
/// `/sys`, `/dev`, `/run` and the directories `/tmp` and `/var/tmp`
/// themselves are T0; what lies inside `/tmp` and `/var/tmp` is standard;
/// system directories and the configured extra protected paths are T1;
/// `/opt` and `/srv` are T3.
pub fn classify_path(s: &[char], extra_protected: &Vec<String>) -> (r: SafetyTier)
    ensures
        r == classify(s@, string_views(extra_protected@)),
{
    let ghost extra = string_views(extra_protected@);
    let mut extra_chars: Vec<Vec<char>> = Vec::new();
    let mut i: usize = 0;
    while i < extra_protected.len()
        invariant
            i <= extra_protected.len(),
            extra_chars@.len() == i,
            extra == string_views(extra_protected@),
            forall|k: int| 0 <= k < i ==> #[trigger] extra_chars@[k]@ == extra[k],
        decreases extra_protected.len() - i,
    {
        extra_chars.push(chars_of(extra_protected[i].as_str()));
        i += 1;
    }
    let t0 = literals(&["/proc", "/sys", "/dev", "/run"]);
    let t1 = literals(&["/etc", "/usr", "/bin", "/sbin", "/lib", "/lib64", "/lib32", "/boot", "/root", "/var"]);
    let t3 = literals(&["/opt", "/srv"]);
    assert(t0_roots() =~= seq!["/proc"@, "/sys"@, "/dev"@, "/run"@]);
    let root = chars_of("/");
    if chars_eq(s, root.as_slice()) || within_one_of(s, &t0, Ghost(t0_roots())) {
        return SafetyTier::T0Refuse;
    }
    let tmp = chars_of("/tmp");
    let var_tmp = chars_of("/var/tmp");
    if chars_eq(s, tmp.as_slice()) || chars_eq(s, var_tmp.as_slice()) {
        return SafetyTier::T0Refuse;
    }
    let tmp_in = chars_of("/tmp/");
    let var_tmp_in = chars_of("/var/tmp/");
    if chars_start_with(s, tmp_in.as_slice()) || chars_start_with(s, var_tmp_in.as_slice()) {
        return SafetyTier::Standard;
    }
    if within_one_of(s, &t1, Ghost(t1_roots())) || within_one_of(s, &extra_chars, Ghost(extra)) {
        return SafetyTier::T1ProtectedRoot;
    }
    if within_one_of(s, &t3, Ghost(t3_roots())) {
        return SafetyTier::T3SemiProtected;
    }
    SafetyTier::Standard
}


} // verus!

verus! {

/// Directory names that hold keys and credentials.
pub open spec fn credential_dirs() -> Seq<Seq<char>> {
    seq![".ssh"@, ".gnupg"@, ".pki"@, ".aws"@]
}

/// Some component of `path` is a credential directory name.
pub open spec fn has_credential_dir(path: Seq<char>) -> bool {
    exists|k: int| 0 <= k < components(path).len() && credential_dirs().contains(#[trigger] components(path)[k])
}

/// A file name that commonly holds a key or a secret.
pub open spec fn is_credential_name(f: Seq<char>) -> bool {
    ||| has_prefix(f, "id_"@)
    ||| has_suffix(f, ".pem"@)
    ||| has_suffix(f, ".key"@)
    ||| has_suffix(f, ".pfx"@)
    ||| has_suffix(f, ".p12"@)
    ||| has_suffix(f, "_rsa"@)
    ||| has_suffix(f, "_ed25519"@)
    ||| f == ".env"@
    ||| has_prefix(f, ".env."@)
}

/// A regular file (mode type bits `0o100000`) with some permission bits set,
/// readable by its owner and closed to group and others.
pub open spec fn is_private_regular_file(mode: u16) -> bool {
    (mode & 0o170000u16) == 0o100000u16 && mode > 0 && (mode & 0o077u16) == 0 && (mode & 0o400u16) != 0
}

/// Lowercased text that mentions a secret.
pub open spec fn mentions_secret(lower: Seq<char>) -> bool {
    has_infix(lower, "secret"@) || has_infix(lower, "credential"@) || has_infix(lower, "token"@)
        || has_infix(lower, "auth"@)
}

/// A path that holds credentials or private keys.
pub open spec fn t2_sensitive(path: Seq<char>, filename: Seq<char>, mode: u16) -> bool {
    ||| has_credential_dir(path)
    ||| path == "/etc/shadow"@
    ||| path == "/etc/gshadow"@
    ||| has_prefix(path, "/etc/sudoers"@)
    ||| is_credential_name(filename)
    ||| (is_private_regular_file(mode) && mentions_secret(lowercase(filename)))
}

/// Whether `s` is one of `items`.
fn one_of(s: &[char], items: &Vec<Vec<char>>, Ghost(model): Ghost<Seq<Seq<char>>>) -> (r: bool)
    requires
        items@.len() == model.len(),
        forall|k: int| 0 <= k < model.len() ==> #[trigger] items@[k]@ == model[k],
    ensures
        r == model.contains(s@),
{
    let mut i: usize = 0;
    while i < items.len()
        invariant
            i <= items.len(),
            items@.len() == model.len(),
            forall|k: int| 0 <= k < model.len() ==> #[trigger] items@[k]@ == model[k],
            forall|k: int| 0 <= k < i ==> model[k] != s@,
        decreases items.len() - i,
    {
        if chars_eq(s, items[i].as_slice()) {
            assert(model[i as int] == s@);
            return true;
        }
        i += 1;
    }
    false
}

/// Whether some text of `needles` occurs in `hay`.
fn contains_any(hay: &[char], needles: &[&str]) -> (r: bool)
    ensures
        r == exists|k: int| 0 <= k < needles@.len() && has_infix(hay@, (#[trigger] needles@[k])@),
{
    let mut i: usize = 0;
    while i < needles.len()
        invariant
            i <= needles.len(),
            forall|k: int| 0 <= k < i ==> !has_infix(hay@, (#[trigger] needles@[k])@),
        decreases needles.len() - i,
    {
        let n = chars_of(needles[i]);
        if chars_contain(hay, n.as_slice()) {
            return true;
        }
        i += 1;
    }
    false
}

/// Whether `f` starts with one of `items`.
fn starts_with_any(f: &[char], items: &[&str]) -> (r: bool)
    ensures
        r == exists|k: int| 0 <= k < items@.len() && has_prefix(f@, (#[trigger] items@[k])@),
{
    let mut i: usize = 0;
    while i < items.len()
        invariant
            i <= items.len(),
            forall|k: int| 0 <= k < i ==> !has_prefix(f@, (#[trigger] items@[k])@),
        decreases items.len() - i,
    {
        let p = chars_of(items[i]);
        if chars_start_with(f, p.as_slice()) {
            return true;
        }
        i += 1;
    }
    false
}

/// Whether `f` ends with one of `items`.
fn ends_with_any(f: &[char], items: &[&str]) -> (r: bool)
    ensures
        r == exists|k: int| 0 <= k < items@.len() && has_suffix(f@, (#[trigger] items@[k])@),
{
    let mut i: usize = 0;
    while i < items.len()
        invariant
            i <= items.len(),
            forall|k: int| 0 <= k < i ==> !has_suffix(f@, (#[trigger] items@[k])@),
        decreases items.len() - i,
    {
        let p = chars_of(items[i]);
        if chars_end_with(f, p.as_slice()) {
            return true;
        }
        i += 1;
    }
    false
}

/// Whether the path `path` (with last component `filename` and mode bits
/// `mode`) holds credentials: it lies in `.ssh`, `.gnupg`, `.pki` or `.aws`,
/// is a system shadow or sudoers file, has a key-like name, or is a private
/// regular file whose lowercased name mentions a secret, credential, token
/// or auth.
pub fn is_t2_sensitive(path: &str, filename: &str, mode: u16) -> (r: bool)
    ensures
        r == t2_sensitive(path@, filename@, mode),
{
    let p = chars_of(path);
    let comps = components_of(p.as_slice());
    let dirs = literals(&[".ssh", ".gnupg", ".pki", ".aws"]);
    assert(credential_dirs() =~= seq![".ssh"@, ".gnupg"@, ".pki"@, ".aws"@]);
    let mut i: usize = 0;
    while i < comps.len()
        invariant
            i <= comps.len(),
            p@ == path@,
            comps@.len() == components(path@).len(),
            forall|k: int| 0 <= k < comps@.len() ==> #[trigger] comps@[k]@ == components(path@)[k],
            dirs@.len() == credential_dirs().len(),
            forall|k: int| 0 <= k < dirs@.len() ==> #[trigger] dirs@[k]@ == credential_dirs()[k],
            forall|k: int| 0 <= k < i ==> !credential_dirs().contains(#[trigger] components(path@)[k]),
        decreases comps.len() - i,
    {
        if one_of(comps[i].as_slice(), &dirs, Ghost(credential_dirs())) {
            assert(credential_dirs().contains(components(path@)[i as int]));
            return true;
        }
        i += 1;
    }
    let shadow = chars_of("/etc/shadow");
    let gshadow = chars_of("/etc/gshadow");
    let sudoers = chars_of("/etc/sudoers");
    if chars_eq(p.as_slice(), shadow.as_slice()) || chars_eq(p.as_slice(), gshadow.as_slice())
        || chars_start_with(p.as_slice(), sudoers.as_slice()) {
        return true;
    }
    let f = chars_of(filename);
    let env = chars_of(".env");
    let prefixes: [&str; 2] = ["id_", ".env."];
    let suffixes: [&str; 6] = [".pem", ".key", ".pfx", ".p12", "_rsa", "_ed25519"];
    let credential_name = starts_with_any(f.as_slice(), &prefixes)
        || ends_with_any(f.as_slice(), &suffixes) || chars_eq(f.as_slice(), env.as_slice());
    proof {
        if credential_name {
            if exists|k: int| 0 <= k < prefixes@.len() && has_prefix(f@, (#[trigger] prefixes@[k])@) {
                let k = choose|k: int| 0 <= k < prefixes@.len() && has_prefix(f@, (#[trigger] prefixes@[k])@);
                assert(k == 0 || k == 1);
            }
            if exists|k: int| 0 <= k < suffixes@.len() && has_suffix(f@, (#[trigger] suffixes@[k])@) {
                let k = choose|k: int| 0 <= k < suffixes@.len() && has_suffix(f@, (#[trigger] suffixes@[k])@);
                assert(0 <= k < 6);
            }
        } else {
            assert(!has_prefix(f@, prefixes@[0]@));
            assert(!has_prefix(f@, prefixes@[1]@));
            assert(!has_suffix(f@, suffixes@[0]@));
            assert(!has_suffix(f@, suffixes@[1]@));
            assert(!has_suffix(f@, suffixes@[2]@));
            assert(!has_suffix(f@, suffixes@[3]@));
            assert(!has_suffix(f@, suffixes@[4]@));
            assert(!has_suffix(f@, suffixes@[5]@));
        }
    }
    if credential_name {
        return true;
    }
    let is_reg = (mode & 0o170000u16) == 0o100000u16;
    if is_reg && mode > 0 && (mode & 0o077u16) == 0 && (mode & 0o400u16) != 0 {
        let lower = to_lowercase(filename);
        let lc = chars_of(lower.as_str());
        let words: [&str; 4] = ["secret", "credential", "token", "auth"];
        let hit = contains_any(lc.as_slice(), &words);
        proof {
            if hit {
                let k = choose|k: int| 0 <= k < words@.len() && has_infix(lc@, (#[trigger] words@[k])@);
                assert(0 <= k < 4);
            } else {
                assert(!has_infix(lc@, words@[0]@));
                assert(!has_infix(lc@, words@[1]@));
                assert(!has_infix(lc@, words@[2]@));
                assert(!has_infix(lc@, words@[3]@));
            }
        }
        return hit;
    }
    false
}

} // verus!

verus! {

/// What the filesystem says about the normalized path being checked: whether
/// it is a symbolic link and where that points, its metadata, the mount id of
/// its parent directory, and its canonical form (each when it could be read).
#[derive(Debug, Clone)]
pub struct PathProbe {
    pub is_symlink: bool,
    pub link_target: Option<String>,
    pub stat: Option<StatxInfo>,
    pub parent_mnt_id: Option<u64>,
    pub canonical: Option<String>,
}

impl PathProbe {
    /// The probe of a path that does not exist.
    pub fn missing() -> (r: PathProbe)
        ensures
            !r.is_symlink,
            r.link_target is None,
            r.stat is None,
            r.parent_mnt_id is None,
            r.canonical is None,
    {
        PathProbe { is_symlink: false, link_target: None, stat: None, parent_mnt_id: None, canonical: None }
    }
}

/// The safety verdict on one path.
#[derive(Debug, Clone)]
pub struct SafetyVerdict {
    pub raw_path: String,
    pub normalized_path: String,
    pub canonical_path: Option<String>,
    pub tier: SafetyTier,
    pub is_mount_root: bool,
    pub is_dir: bool,
    pub size: u64,
    pub is_symlink: bool,
    pub reason: &'static str,
}

/// A verdict as plain values.
pub struct VerdictModel {
    pub raw: Seq<char>,
    pub normalized: Seq<char>,
    pub canonical: Option<Seq<char>>,
    pub tier: SafetyTier,
    pub is_mount_root: bool,
    pub is_dir: bool,
    pub size: u64,
    pub is_symlink: bool,
    pub reason: Seq<char>,
}

impl View for SafetyVerdict {
    type V = VerdictModel;

    open spec fn view(&self) -> VerdictModel {
        VerdictModel {
            raw: self.raw_path@,
            normalized: self.normalized_path@,
            canonical: opt_view(self.canonical_path),
            tier: self.tier,
            is_mount_root: self.is_mount_root,
            is_dir: self.is_dir,
            size: self.size,
            is_symlink: self.is_symlink,
            reason: self.reason@,
        }
    }
}

/// Why a path was refused before any verdict.
#[derive(Debug, Clone, Copy, PartialEq, Eq, Structural)]
pub enum SafetyError {
    /// The path names a `.` or `..` entry.
    DotEntry,
}

impl SafetyError {
    /// The message shown for the refusal.
    pub fn message(&self) -> (r: &'static str)
        ensures
            r@ == "refusing to remove '.' or '..' directory entry"@,
    {
        "refusing to remove '.' or '..' directory entry"
    }
}

/// `s` without its trailing slashes.
pub open spec fn trim_trailing_slashes(s: Seq<char>) -> Seq<char>
    decreases s.len(),
{
    if s.len() > 0 && s.last() == '/' {
        trim_trailing_slashes(s.drop_last())
    } else {
        s
    }
}

/// The path, once its trailing slashes are gone, is `.`, `..` or ends in a
/// `.` or `..` piece.
pub open spec fn is_dot_entry(raw: Seq<char>) -> bool {
    let t = trim_trailing_slashes(raw);
    t == "."@ || t == ".."@ || has_suffix(t, "/."@) || has_suffix(t, "/.."@)
}

/// `raw` made absolute against the working directory `cwd`.
pub open spec fn absolute_of(raw: Seq<char>, cwd: Seq<char>) -> Seq<char> {
    if crate::path::is_absolute(raw) {
        raw
    } else {
        join_path(cwd, raw)
    }
}

/// The directory that a relative link target of `n` is read against.
pub open spec fn link_base(n: Seq<char>) -> Seq<char> {
    match parent_of_normalized(n) {
        Some(p) => p,
        None => "/"@,
    }
}

/// The tier of what a symbolic link points to (standard when the path is no
/// link or its target could not be read).
pub open spec fn link_target_tier(n: Seq<char>, is_symlink: bool, target: Option<Seq<char>>, extra: Seq<Seq<char>>) -> SafetyTier {
    if is_symlink {
        match target {
            Some(t) => classify(normalize(join_path(link_base(n), t)), extra),
            None => SafetyTier::Standard,
        }
    } else {
        SafetyTier::Standard
    }
}

/// The path is a mount root: its metadata was read and either it has no
/// parent or its parent's mount id differs from its own.
pub open spec fn mount_root(n: Seq<char>, stat: Option<StatxInfo>, parent_mnt_id: Option<u64>) -> bool {
    match stat {
        Some(info) => match parent_of_normalized(n) {
            Some(_) => match parent_mnt_id {
                Some(p) => info.mnt_id != p,
                None => false,
            },
            None => true,
        },
        None => false,
    }
}

/// The last name of the normalized path, or the empty text.
pub open spec fn name_or_empty(n: Seq<char>) -> Seq<char> {
    match file_name(n) {
        Some(f) => f,
        None => Seq::<char>::empty(),
    }
}

/// The path belongs to rinode's own storage.
pub open spec fn is_internal_storage(n: Seq<char>) -> bool {
    let f = name_or_empty(n);
    f == ".rinode-storage"@ || f == ".rinode-vault"@ || has_suffix(n, "/.rinode-storage"@)
        || has_suffix(n, "/.rinode-vault"@) || has_infix(n, "/.rinode-storage/"@) || has_infix(n, "/.rinode-vault/"@)
}

/// The path is rinode's metadata database.
pub open spec fn is_internal_database(n: Seq<char>) -> bool {
    name_or_empty(n) == "rinode.db"@ || has_suffix(n, "/rinode.db"@)
}

/// The path is a rinode policy or configuration file.
pub open spec fn is_internal_config(n: Seq<char>) -> bool {
    let f = name_or_empty(n);
    f == "rinode.toml"@ || f == "policy.toml"@ || has_prefix(n, "/etc/rinode"@)
}

/// A verdict that refuses the path outright for the given reason.
pub open spec fn refusal(raw: Seq<char>, n: Seq<char>, canonical: Option<Seq<char>>, mount_root: bool, is_dir: bool, reason: Seq<char>) -> VerdictModel {
    VerdictModel {
        raw,
        normalized: n,
        canonical,
        tier: SafetyTier::T0Refuse,
        is_mount_root: mount_root,
        is_dir,
        size: 0,
        is_symlink: false,
        reason,
    }
}

/// The tier of a path that passed the lexical checks: the stricter of its own
/// tier and its link target's, raised to T1 for a mount root and to T2 for
/// credentials when it would otherwise be standard.
pub open spec fn effective_tier(n: Seq<char>, probe: PathProbe, extra: Seq<Seq<char>>) -> SafetyTier {
    let base = stricter(classify(n, extra), link_target_tier(n, probe.is_symlink, opt_view(probe.link_target), extra));
    let raised = if mount_root(n, probe.stat, probe.parent_mnt_id) && base == SafetyTier::Standard {
        SafetyTier::T1ProtectedRoot
    } else {
        base
    };
    let mode: u16 = match probe.stat { Some(i) => i.mode, None => 0 };
    if raised == SafetyTier::Standard && t2_sensitive(n, name_or_empty(n), mode) {
        SafetyTier::T2Sensitive
    } else {
        raised
    }
}

/// The verdict on `raw` (which is not a dot entry), read against `cwd`.
pub open spec fn expected_verdict(raw: Seq<char>, cwd: Seq<char>, probe: PathProbe, extra: Seq<Seq<char>>) -> VerdictModel {
    let n = normalize(absolute_of(raw, cwd));
    if n == "/"@ {
        refusal(raw, n, Some("/"@), true, true, "root filesystem (/)"@)
    } else if is_internal_storage(n) {
        refusal(raw, n, None, false, true, "rinode internal storage directory"@)
    } else if is_internal_database(n) {
        refusal(raw, n, None, false, false, "rinode metadata database"@)
    } else if is_internal_config(n) {
        refusal(raw, n, None, false, false, "rinode policy or configuration file"@)
    } else {
        let t = effective_tier(n, probe, extra);
        VerdictModel {
            raw,
            normalized: n,
            canonical: opt_view(probe.canonical),
            tier: t,
            is_mount_root: mount_root(n, probe.stat, probe.parent_mnt_id),
            is_dir: match probe.stat { Some(i) => i.is_dir, None => false },
            size: match probe.stat { Some(i) => i.size, None => 0 },
            is_symlink: probe.is_symlink,
            reason: tier_reason_text(t),
        }
    }
}

} // verus!

verus! {

/// `s` without its trailing slashes.
fn trim_slashes_end(s: &[char]) -> (r: Vec<char>)
    ensures
        r@ == trim_trailing_slashes(s@),
{
    let mut end: usize = s.len();
    assert(s@.take(s.len() as int) =~= s@);
    while end > 0 && s[end - 1] == '/'
        invariant
            end <= s.len(),
            trim_trailing_slashes(s@) == trim_trailing_slashes(s@.take(end as int)),
        decreases end,
    {
        assert(s@.take(end as int).drop_last() =~= s@.take(end - 1));
        end -= 1;
    }
    let r = crate::text::chars_slice(s, 0, end);
    assert(s@.subrange(0, end as int) =~= s@.take(end as int));
    r
}

/// Whether `raw` names a `.` or `..` entry.
fn dot_entry(raw: &[char]) -> (r: bool)
    ensures
        r == is_dot_entry(raw@),
{
    let t = trim_slashes_end(raw);
    let dot = chars_of(".");
    let dotdot = chars_of("..");
    let slash_dot = chars_of("/.");
    let slash_dotdot = chars_of("/..");
    chars_eq(t.as_slice(), dot.as_slice()) || chars_eq(t.as_slice(), dotdot.as_slice())
        || chars_end_with(t.as_slice(), slash_dot.as_slice())
        || chars_end_with(t.as_slice(), slash_dotdot.as_slice())
}

/// The absolute, normalized form of `raw` read against `cwd`.
pub fn absolute_normalized(raw_path: &str, cwd: &str) -> (r: String)
    ensures
        r@ == normalize(absolute_of(raw_path@, cwd@)),
{
    let raw = chars_of(raw_path);
    if raw.len() > 0 && raw[0] == '/' {
        normalize_lexical(raw_path)
    } else {
        let c = chars_of(cwd);
        let joined = join_paths(c.as_slice(), raw.as_slice());
        let js = crate::text::string_of(joined.as_slice());
        normalize_lexical(js.as_str())
    }
}

/// A verdict that refuses the path outright.
fn refuse(raw_path: &str, n: String, canonical: Option<String>, mount_root: bool, is_dir: bool, reason: &'static str) -> (r: SafetyVerdict)
    ensures
        r@ == refusal(raw_path@, n@, opt_view(canonical), mount_root, is_dir, reason@),
{
    SafetyVerdict {
        raw_path: raw_path.to_owned(),
        normalized_path: n,
        canonical_path: canonical,
        tier: SafetyTier::T0Refuse,
        is_mount_root: mount_root,
        is_dir,
        size: 0,
        is_symlink: false,
        reason,
    }
}

/// The stricter of two tiers.
fn stricter_of(a: SafetyTier, b: SafetyTier) -> (r: SafetyTier)
    ensures
        r == stricter(a, b),
{
    let ra: u8 = match a {
        SafetyTier::T0Refuse => 0,
        SafetyTier::T1ProtectedRoot => 1,
        SafetyTier::T2Sensitive => 2,
        SafetyTier::T3SemiProtected => 3,
        SafetyTier::Standard => 4,
    };
    let rb: u8 = match b {
        SafetyTier::T0Refuse => 0,
        SafetyTier::T1ProtectedRoot => 1,
        SafetyTier::T2Sensitive => 2,
        SafetyTier::T3SemiProtected => 3,
        SafetyTier::Standard => 4,
    };
    if ra <= rb {
        a
    } else {
        b
    }
}

/// Whether text `s` equals the literal `lit`.
fn is_text(s: &[char], lit: &str) -> (r: bool)
    ensures
        r == (s@ == lit@),
{
    let l = chars_of(lit);
    chars_eq(s, l.as_slice())
}

/// The verdict on `raw_path` against the working directory `cwd`, given what
/// the filesystem says about its normalized form and the extra protected
/// paths of the configuration.
pub fn verdict_for(raw_path: &str, cwd: &str, probe: &PathProbe, extra_protected: &Vec<String>) -> (r: Result<SafetyVerdict, SafetyError>)
    ensures
        match r {
            Err(e) => is_dot_entry(raw_path@) && e == SafetyError::DotEntry,
            Ok(v) => !is_dot_entry(raw_path@)
                && v@ == expected_verdict(raw_path@, cwd@, *probe, string_views(extra_protected@)),
        },
{
    let ghost extra = string_views(extra_protected@);
    let raw = chars_of(raw_path);
    if dot_entry(raw.as_slice()) {
        return Err(SafetyError::DotEntry);
    }
    let normalized = absolute_normalized(raw_path, cwd);
    let n = chars_of(normalized.as_str());
    if is_text(n.as_slice(), "/") {
        return Ok(refuse(raw_path, normalized, Some("/".to_owned()), true, true, "root filesystem (/)"));
    }
    let fname = match file_name_of(n.as_slice()) {
        Some(f) => f,
        None => Vec::new(),
    };
    assert(fname@ == name_or_empty(n@));
    let internal_storage = is_text(fname.as_slice(), ".rinode-storage") || is_text(fname.as_slice(), ".rinode-vault")
        || chars_end_with(n.as_slice(), chars_of("/.rinode-storage").as_slice())
        || chars_end_with(n.as_slice(), chars_of("/.rinode-vault").as_slice())
        || chars_contain(n.as_slice(), chars_of("/.rinode-storage/").as_slice())
        || chars_contain(n.as_slice(), chars_of("/.rinode-vault/").as_slice());
    if internal_storage {
        return Ok(refuse(raw_path, normalized, None, false, true, "rinode internal storage directory"));
    }
    if is_text(fname.as_slice(), "rinode.db") || chars_end_with(n.as_slice(), chars_of("/rinode.db").as_slice()) {
        return Ok(refuse(raw_path, normalized, None, false, false, "rinode metadata database"));
    }
    if is_text(fname.as_slice(), "rinode.toml") || is_text(fname.as_slice(), "policy.toml")
        || chars_start_with(n.as_slice(), chars_of("/etc/rinode").as_slice()) {
        return Ok(refuse(raw_path, normalized, None, false, false, "rinode policy or configuration file"));
    }
    let parent = parent_of(n.as_slice());
    let link_tier = if probe.is_symlink {
        match &probe.link_target {
            Some(target) => {
                let base = match &parent {
                    Some(p) => crate::text::chars_slice(p.as_slice(), 0, p.len()),
                    None => chars_of("/"),
                };
                assert(base@ == link_base(n@));
                let t = chars_of(target.as_str());
                let joined = join_paths(base.as_slice(), t.as_slice());
                let js = crate::text::string_of(joined.as_slice());
                let target_norm = normalize_lexical(js.as_str());
                let tn = chars_of(target_norm.as_str());
                let k = classify_path(tn.as_slice(), extra_protected);
                assert(opt_view(probe.link_target) == Some(target@));
                k
            },
            None => SafetyTier::Standard,
        }
    } else {
        SafetyTier::Standard
    };
    assert(link_tier == link_target_tier(n@, probe.is_symlink, opt_view(probe.link_target), extra));
    let (is_dir, size, mode, is_mount_root) = match probe.stat {
        Some(info) => {
            let is_mnt = match parent {
                Some(_) => match probe.parent_mnt_id {
                    Some(p) => info.mnt_id != p,
                    None => false,
                },
                None => true,
            };
            (info.is_dir, info.size, info.mode, is_mnt)
        },
        None => (false, 0u64, 0u16, false),
    };
    assert(is_mount_root == mount_root(n@, probe.stat, probe.parent_mnt_id));
    let path_tier = classify_path(n.as_slice(), extra_protected);
    let mut tier = stricter_of(path_tier, link_tier);
    if is_mount_root && tier == SafetyTier::Standard {
        tier = SafetyTier::T1ProtectedRoot;
    }
    if tier == SafetyTier::Standard {
        let fname_s = crate::text::string_of(fname.as_slice());
        if is_t2_sensitive(normalized.as_str(), fname_s.as_str(), mode) {
            tier = SafetyTier::T2Sensitive;
        }
    }
    assert(tier == effective_tier(n@, *probe, extra));
    Ok(SafetyVerdict {
        raw_path: raw_path.to_owned(),
        normalized_path: normalized,
        canonical_path: clone_opt_string(&probe.canonical),
        tier,
        is_mount_root,
        is_dir,
        size,
        is_symlink: probe.is_symlink,
        reason: tier_reason(tier),
    })
}

} // verus!

verus! {

/// Resolves one path against the safety policy: refuses `.` and `..`
/// entries, normalizes the path against the working directory `cwd`,
/// refuses the root and rinode's own files, and otherwise grades it by its
/// place in the tree, its symbolic link target, whether it is a mount root,
/// and credential patterns (see `expected_verdict`). `probe` is what the
/// filesystem says about the normalized path.
pub fn resolve_checked(raw_path: &str, cwd: &str, probe: &PathProbe, config: &Config) -> (r: Result<SafetyVerdict, SafetyError>)
    ensures
        match r {
            Err(e) => is_dot_entry(raw_path@) && e == SafetyError::DotEntry,
            Ok(v) => !is_dot_entry(raw_path@)
                && v@ == expected_verdict(raw_path@, cwd@, *probe, string_views(config.safety.extra_protected@)),
        },
{
    verdict_for(raw_path, cwd, probe, &config.safety.extra_protected)
}

/// A path is never less protected than where it lies, nor than what it
/// links to, so a link cannot launder protection away; and a mount root is
/// never a standard path.
pub proof fn protection_is_never_weakened(n: Seq<char>, probe: PathProbe, extra: Seq<Seq<char>>)
    ensures
        tier_rank(effective_tier(n, probe, extra)) <= tier_rank(classify(n, extra)),
        tier_rank(effective_tier(n, probe, extra)) <= tier_rank(
            link_target_tier(n, probe.is_symlink, opt_view(probe.link_target), extra),
        ),
        mount_root(n, probe.stat, probe.parent_mnt_id) ==> effective_tier(n, probe, extra) != SafetyTier::Standard,
{
}

/// The root, rinode's own storage, its database and its configuration are
/// always refused, whatever the filesystem says of them.
pub proof fn rinode_protects_itself(raw: Seq<char>, cwd: Seq<char>, probe: PathProbe, extra: Seq<Seq<char>>)
    ensures
        ({
            let n = normalize(absolute_of(raw, cwd));
            (n == "/"@ || is_internal_storage(n) || is_internal_database(n) || is_internal_config(n))
                ==> expected_verdict(raw, cwd, probe, extra).tier == SafetyTier::T0Refuse
        }),
{
}

/// `s` is `root` or lies below it: it begins with every character of `root`.
proof fn lemma_within_chars(s: Seq<char>, root: Seq<char>)
    requires
        s == root || has_prefix(s, root + "/"@),
    ensures
        root.len() <= s.len(),
        forall|i: int| 0 <= i < root.len() ==> s[i] == root[i],
        is_within(s, root),
{
    reveal_strlit("/");
    assert(root + "/"@ =~= root.push('/'));
    if s != root {
        assert forall|i: int| 0 <= i < root.len() implies s[i] == root[i] by {
            assert(s.take((root.len() + 1) as int)[i] == (root + "/"@)[i]);
        }
    }
}

/// A path within `root` agrees with `root` on its first characters.
proof fn lemma_within_first(s: Seq<char>, root: Seq<char>, i: int)
    requires
        is_within(s, root),
        0 <= i < root.len(),
    ensures
        s[i] == root[i],
{
    if s != root {
        assert(s.take((root.len() + 1) as int)[i] == root.push('/')[i]);
    }
}

/// The system directories `/etc`, `/usr`, `/bin`, `/sbin`, `/lib`, `/lib64`,
/// `/lib32`, `/boot`, `/root` and `/var`, and everything below them, are
/// protected roots (T1), except the scratch directory `/var/tmp` and what it
/// holds.
pub proof fn system_directories_are_protected(s: Seq<char>, root: Seq<char>, extra: Seq<Seq<char>>)
    requires
        root == "/etc"@ || root == "/usr"@ || root == "/bin"@ || root == "/sbin"@ || root == "/lib"@
            || root == "/lib64"@ || root == "/lib32"@ || root == "/boot"@ || root == "/root"@
            || root == "/var"@,
        s == root || has_prefix(s, root + "/"@),
        s != "/var/tmp"@,
        !has_prefix(s, "/var/tmp/"@),
    ensures
        classify(s, extra) == SafetyTier::T1ProtectedRoot,
{
    reveal_strlit("/etc");
    reveal_strlit("/usr");
    reveal_strlit("/bin");
    reveal_strlit("/sbin");
    reveal_strlit("/lib");
    reveal_strlit("/lib64");
    reveal_strlit("/lib32");
    reveal_strlit("/boot");
    reveal_strlit("/root");
    reveal_strlit("/var");
    reveal_strlit("/proc");
    reveal_strlit("/sys");
    reveal_strlit("/dev");
    reveal_strlit("/run");
    reveal_strlit("/tmp");
    reveal_strlit("/tmp/");
    reveal_strlit("/var/tmp");
    reveal_strlit("/var/tmp/");
    reveal_strlit("/");
    reveal_strlit("/opt");
    reveal_strlit("/srv");
    lemma_within_chars(s, root);
    assert(s[0] == root[0] && s[1] == root[1] && s[2] == root[2] && s[3] == root[3]);
    assert(s != "/"@);
    assert(!within_any(s, t0_roots())) by {
        if within_any(s, t0_roots()) {
            let k = choose|k: int| 0 <= k < t0_roots().len() && is_within(s, #[trigger] t0_roots()[k]);
            lemma_within_first(s, t0_roots()[k], 1);
            lemma_within_first(s, t0_roots()[k], 2);
        }
    }
    assert(s != "/tmp"@);
    assert(!has_prefix(s, "/tmp/"@)) by {
        if has_prefix(s, "/tmp/"@) {
            assert(s.take(5)[1] == s[1]);
        }
    }
    if root == "/etc"@ {
        assert(t1_roots()[0] == root);
        assert(is_within(s, t1_roots()[0]));
    } else if root == "/usr"@ {
        assert(t1_roots()[1] == root);
        assert(is_within(s, t1_roots()[1]));
    } else if root == "/bin"@ {
        assert(t1_roots()[2] == root);
        assert(is_within(s, t1_roots()[2]));
    } else if root == "/sbin"@ {
        assert(t1_roots()[3] == root);
        assert(is_within(s, t1_roots()[3]));
    } else if root == "/lib"@ {
        assert(t1_roots()[4] == root);
        assert(is_within(s, t1_roots()[4]));
    } else if root == "/lib64"@ {
        assert(t1_roots()[5] == root);
        assert(is_within(s, t1_roots()[5]));
    } else if root == "/lib32"@ {
        assert(t1_roots()[6] == root);
        assert(is_within(s, t1_roots()[6]));
    } else if root == "/boot"@ {
        assert(t1_roots()[7] == root);
        assert(is_within(s, t1_roots()[7]));
    } else if root == "/root"@ {
        assert(t1_roots()[8] == root);
        assert(is_within(s, t1_roots()[8]));
    } else if root == "/var"@ {
        assert(t1_roots()[9] == root);
        assert(is_within(s, t1_roots()[9]));
    }
}

/// The verdict on a path that lies in one of those system directories (read
/// against the working directory) is at least as strict as T1, whatever the
/// filesystem says of it.
pub proof fn system_directories_are_protected_in_verdicts(
    raw: Seq<char>,
    cwd: Seq<char>,
    probe: PathProbe,
    extra: Seq<Seq<char>>,
    root: Seq<char>,
)
    requires
        root == "/etc"@ || root == "/usr"@ || root == "/bin"@ || root == "/sbin"@ || root == "/lib"@
            || root == "/lib64"@ || root == "/lib32"@ || root == "/boot"@ || root == "/root"@
            || root == "/var"@,
        normalize(absolute_of(raw, cwd)) == root || has_prefix(normalize(absolute_of(raw, cwd)), root + "/"@),
        normalize(absolute_of(raw, cwd)) != "/var/tmp"@,
        !has_prefix(normalize(absolute_of(raw, cwd)), "/var/tmp/"@),
    ensures
        expected_verdict(raw, cwd, probe, extra).tier == SafetyTier::T0Refuse
            || expected_verdict(raw, cwd, probe, extra).tier == SafetyTier::T1ProtectedRoot,
{
    system_directories_are_protected(normalize(absolute_of(raw, cwd)), root, extra);
}

} // verus!
