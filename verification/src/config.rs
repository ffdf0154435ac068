//! Configuration: storage limits, exclusion rules and their compiled
//! patterns, and the rules for adding, removing and testing exclusions.

use vstd::prelude::*;
use crate::patterns::{compile_pattern, pattern_finds, regex_accepts, regex_error, regex_escape, regex_finds,
    escaped, CompiledPattern};
use crate::text::{append_chars, chars_have, chars_of, chars_start_with, concat3, has_prefix, owned_strings,
    string_of, string_views, trim_chars, trim_white};

verus! {

/// Storage limits.
#[derive(Debug, Clone, Copy, PartialEq, Eq, Structural)]
pub struct StorageConfig {
    pub retention_days: u32,
    pub max_vault_size_gb: u64,
    pub max_hash_file_size_mb: u64,
}

fn default_retention_days() -> (r: u32)
    ensures
        r == 14,
{
    14
}

fn default_max_vault_size_gb() -> (r: u64)
    ensures
        r == 20,
{
    20
}

fn default_max_hash_file_size_mb() -> (r: u64)
    ensures
        r == 50,
{
    50
}

/// The exclusion rules as written in the configuration.
#[derive(Debug, Clone)]
pub struct ExclusionsConfig {
    pub system_paths: Vec<String>,
    pub path_regex: Vec<String>,
    pub filename_regex: Vec<String>,
}

/// The system path prefixes excluded by default.
pub open spec fn default_system_path_list() -> Seq<Seq<char>> {
    seq!["/proc"@, "/sys"@, "/dev"@, "/run"@, "/tmp"@]
}

/// The path patterns excluded by default.
pub open spec fn default_path_regex_list() -> Seq<Seq<char>> {
    seq![".*/node_modules/.*"@, ".*/\\.git/(?!config|HEAD).*"@, ".*/target/(debug|release)/.*"@,
        ".*/build/.*"@, ".*/\\.cache/.*"@, ".*/__pycache__/.*"@]
}

/// The file name patterns excluded by default.
pub open spec fn default_filename_regex_list() -> Seq<Seq<char>> {
    seq!["^\\..*\\.swp$"@, ".*~$"@, ".*\\.tmp$"@, "^core(\\.\\d+)?$"@]
}

fn default_system_paths() -> (r: Vec<String>)
    ensures
        string_views(r@) == default_system_path_list(),
{
    let r = owned_strings(&["/proc", "/sys", "/dev", "/run", "/tmp"]);
    assert(string_views(r@) =~= default_system_path_list());
    r
}

fn default_path_regex() -> (r: Vec<String>)
    ensures
        string_views(r@) == default_path_regex_list(),
{
    let r = owned_strings(&[".*/node_modules/.*", ".*/\\.git/(?!config|HEAD).*", ".*/target/(debug|release)/.*",
        ".*/build/.*", ".*/\\.cache/.*", ".*/__pycache__/.*"]);
    assert(string_views(r@) =~= default_path_regex_list());
    r
}

fn default_filename_regex() -> (r: Vec<String>)
    ensures
        string_views(r@) == default_filename_regex_list(),
{
    let r = owned_strings(&["^\\..*\\.swp$", ".*~$", ".*\\.tmp$", "^core(\\.\\d+)?$"]);
    assert(string_views(r@) =~= default_filename_regex_list());
    r
}

/// The configuration file's contents: each table may be missing.
#[derive(Debug, Clone)]
pub struct ConfigRaw {
    pub storage: Option<StorageConfig>,
    pub exclusions: Option<ExclusionsConfig>,
}

/// The three kinds of exclusion rule.
#[derive(Debug, Clone, Copy, PartialEq, Eq, Structural)]
pub enum ExclusionKind {
    SystemPath,
    PathRegex,
    FilenameRegex,
}

/// Settings of the safety ceremony: extra paths to treat as T1, and the
/// largest number of T1 items that is not yet a bulk.
#[derive(Debug, Clone)]
pub struct SafetyConfig {
    pub extra_protected: Vec<String>,
    pub bulk_count: usize,
}

/// The exclusion patterns, compiled.
#[derive(Debug)]
pub struct CompiledRules {
    path_regex: Vec<CompiledPattern>,
    filename_regex: Vec<CompiledPattern>,
}

impl CompiledRules {
    /// The texts of the compiled path patterns.
    pub closed spec fn path_sources(&self) -> Seq<Seq<char>> {
        sources(self.path_regex@)
    }

    /// The texts of the compiled file name patterns.
    pub closed spec fn filename_sources(&self) -> Seq<Seq<char>> {
        sources(self.filename_regex@)
    }

    /// Compiles the path and file name patterns of `e` that compile.
    pub fn compile(e: &ExclusionsConfig) -> (r: CompiledRules)
        ensures
            r.path_sources() == accepted(string_views(e.path_regex@)),
            r.filename_sources() == accepted(string_views(e.filename_regex@)),
    {
        CompiledRules { path_regex: compile_all(&e.path_regex), filename_regex: compile_all(&e.filename_regex) }
    }
}

/// The loaded configuration with its compiled exclusion patterns.
#[derive(Debug)]
pub struct Config {
    pub storage: StorageConfig,
    pub exclusions: ExclusionsConfig,
    pub safety: SafetyConfig,
    pub theme: Option<String>,
    pub compiled: CompiledRules,
}

/// The patterns of `list` that compile, in order.
pub open spec fn accepted(list: Seq<Seq<char>>) -> Seq<Seq<char>>
    decreases list.len(),
{
    if list.len() == 0 {
        Seq::<Seq<char>>::empty()
    } else if regex_accepts(list.last()) {
        accepted(list.drop_last()).push(list.last())
    } else {
        accepted(list.drop_last())
    }
}

/// The texts of compiled patterns.
pub open spec fn sources(v: Seq<CompiledPattern>) -> Seq<Seq<char>> {
    Seq::new(v.len(), |k: int| v[k].source_text())
}

/// Compiles every pattern of `list` that compiles, in order.
fn compile_all(list: &Vec<String>) -> (r: Vec<CompiledPattern>)
    ensures
        sources(r@) == accepted(string_views(list@)),
{
    let ghost all = string_views(list@);
    let mut r: Vec<CompiledPattern> = Vec::new();
    let mut i: usize = 0;
    assert(all.take(0) =~= Seq::<Seq<char>>::empty());
    assert(sources(r@) =~= Seq::<Seq<char>>::empty());
    while i < list.len()
        invariant
            i <= list.len(),
            all == string_views(list@),
            sources(r@) == accepted(all.take(i as int)),
        decreases list.len() - i,
    {
        assert(all.take(i + 1).drop_last() =~= all.take(i as int));
        assert(all.take(i + 1).last() == list@[i as int]@);
        match compile_pattern(list[i].as_str()) {
            Ok(c) => {
                let ghost before = r@;
                r.push(c);
                assert(sources(r@) =~= sources(before).push(list@[i as int]@));
            },
            Err(_) => {},
        }
        i += 1;
    }
    assert(all.take(list.len() as int) =~= all);
    r
}

impl Config {
    /// The compiled patterns are exactly the written patterns that compile.
    pub open spec fn compiled_match_rules(&self) -> bool {
        &&& self.compiled.path_sources() == accepted(string_views(self.exclusions.path_regex@))
        &&& self.compiled.filename_sources() == accepted(string_views(self.exclusions.filename_regex@))
    }
}

/// The configuration used when no file is found: 14 days of retention, a
/// 20 GB vault, fingerprints of files up to 50 MB, and the default exclusions.
pub open spec fn is_default_config(c: Config) -> bool {
    &&& c.storage == StorageConfig { retention_days: 14, max_vault_size_gb: 20, max_hash_file_size_mb: 50 }
    &&& string_views(c.exclusions.system_paths@) == default_system_path_list()
    &&& string_views(c.exclusions.path_regex@) == default_path_regex_list()
    &&& string_views(c.exclusions.filename_regex@) == default_filename_regex_list()
    &&& c.safety.extra_protected@.len() == 0
    &&& c.safety.bulk_count == 10
    &&& c.theme is None
    &&& c.compiled_match_rules()
}

impl Default for Config {
    fn default() -> (r: Config)
        ensures
            is_default_config(r),
    {
        let storage = StorageConfig {
            retention_days: default_retention_days(),
            max_vault_size_gb: default_max_vault_size_gb(),
            max_hash_file_size_mb: default_max_hash_file_size_mb(),
        };
        let exclusions = ExclusionsConfig {
            system_paths: default_system_paths(),
            path_regex: default_path_regex(),
            filename_regex: default_filename_regex(),
        };
        let compiled = CompiledRules::compile(&exclusions);
        Config {
            storage,
            exclusions,
            safety: SafetyConfig { extra_protected: Vec::new(), bulk_count: 10 },
            theme: None,
            compiled,
        }
    }
}

impl Config {
    /// The configuration described by a parsed file: each missing table is
    /// taken from the defaults, and the given exclusion patterns are compiled.
    pub fn from_raw(raw: ConfigRaw) -> (r: Config)
        ensures
            r.storage == (match raw.storage {
                Some(s) => s,
                None => StorageConfig { retention_days: 14, max_vault_size_gb: 20, max_hash_file_size_mb: 50 },
            }),
            match raw.exclusions {
                Some(e) => string_views(r.exclusions.system_paths@) == string_views(e.system_paths@)
                    && string_views(r.exclusions.path_regex@) == string_views(e.path_regex@)
                    && string_views(r.exclusions.filename_regex@) == string_views(e.filename_regex@),
                None => string_views(r.exclusions.system_paths@) == default_system_path_list()
                    && string_views(r.exclusions.path_regex@) == default_path_regex_list()
                    && string_views(r.exclusions.filename_regex@) == default_filename_regex_list(),
            },
            r.safety.extra_protected@.len() == 0,
            r.safety.bulk_count == 10,
            r.theme is None,
            r.compiled_match_rules(),
    {
        let mut cfg = Config::default();
        if let Some(s) = raw.storage {
            cfg.storage = s;
        }
        if let Some(e) = raw.exclusions {
            cfg.compiled = CompiledRules::compile(&e);
            cfg.exclusions = e;
        }
        cfg
    }
}

} // verus!

verus! {

/// The characters `glob_to_regex` writes for one glob character.
pub open spec fn glob_char(c: char) -> Seq<char> {
    if c == '*' {
        seq!['.', '*']
    } else if c == '?' {
        seq!['.']
    } else if c == '.' {
        seq!['\\', '.']
    } else if c == '+' || c == '(' || c == ')' || c == '[' || c == ']' || c == '{' || c == '}' || c == '^'
        || c == '$' || c == '|' || c == '\\' {
        seq!['\\', c]
    } else {
        seq![c]
    }
}

/// The regular-expression text of every glob character, in order.
pub open spec fn glob_body(g: Seq<char>) -> Seq<char>
    decreases g.len(),
{
    if g.len() == 0 {
        Seq::<char>::empty()
    } else {
        glob_body(g.drop_last()) + glob_char(g.last())
    }
}

/// A shell glob as an anchored regular expression: `*` matches anything,
/// `?` one character, and every other character itself.
pub open spec fn glob_regex(g: Seq<char>) -> Seq<char> {
    seq!['^'] + glob_body(g) + seq!['$']
}

/// Converts a shell glob pattern (such as `*.log` or `test??.tmp`) into a
/// regular expression that matches the whole name.
pub fn glob_to_regex(glob: &str) -> (r: String)
    ensures
        r@ == glob_regex(glob@),
{
    let g = chars_of(glob);
    let mut out: Vec<char> = Vec::new();
    out.push('^');
    let mut i: usize = 0;
    assert(g@.take(0) =~= Seq::<char>::empty());
    while i < g.len()
        invariant
            i <= g.len(),
            g@ == glob@,
            out@ == seq!['^'] + glob_body(g@.take(i as int)),
        decreases g.len() - i,
    {
        let c = g[i];
        let ghost before = out@;
        if c == '*' {
            out.push('.');
            out.push('*');
        } else if c == '?' {
            out.push('.');
        } else if c == '.' {
            out.push('\\');
            out.push('.');
        } else if c == '+' || c == '(' || c == ')' || c == '[' || c == ']' || c == '{' || c == '}' || c == '^'
            || c == '$' || c == '|' || c == '\\' {
            out.push('\\');
            out.push(c);
        } else {
            out.push(c);
        }
        assert(g@.take(i + 1).drop_last() =~= g@.take(i as int));
        assert(out@ =~= before + glob_char(c));
        i += 1;
    }
    out.push('$');
    assert(g@.take(g.len() as int) =~= g@);
    string_of(out.as_slice())
}

/// How a typed exclusion is understood: an absolute path without wildcards
/// is a system path prefix; a glob with a slash is a path pattern (allowed to
/// start anywhere); any other glob is a file name pattern; a bare word with
/// no dot or slash is a directory name anywhere in the path; anything else is
/// an exact file name.
pub open spec fn classify_rule(input: Seq<char>) -> (ExclusionKind, Seq<char>) {
    let t = trim_white(input);
    let wild = t.contains('*') || t.contains('?');
    if has_prefix(t, seq!['/']) && !wild {
        (ExclusionKind::SystemPath, crate::safety::trim_trailing_slashes(t))
    } else if t.contains('/') && wild {
        let p = glob_regex(t);
        if has_prefix(p, seq!['^', '.', '*']) {
            (ExclusionKind::PathRegex, p)
        } else if has_prefix(p, seq!['^']) {
            (ExclusionKind::PathRegex, seq!['^', '.', '*'] + p.skip(1))
        } else {
            (ExclusionKind::PathRegex, p)
        }
    } else if wild {
        (ExclusionKind::FilenameRegex, glob_regex(t))
    } else if !t.contains('.') && !t.contains('/') {
        (ExclusionKind::PathRegex, seq!['.', '*', '/'] + escaped(t) + seq!['/', '.', '*'])
    } else {
        (ExclusionKind::FilenameRegex, seq!['^'] + escaped(t) + seq!['$'])
    }
}

/// Typed input with no slash that holds a `?` or a `*` is a glob on file
/// names: the rule is the anchored regular expression of the trimmed glob.
pub proof fn wildcards_make_file_name_globs(input: Seq<char>)
    requires
        !trim_white(input).contains('/'),
        trim_white(input).contains('?') || trim_white(input).contains('*'),
    ensures
        classify_rule(input) == (ExclusionKind::FilenameRegex, seq!['^'] + glob_body(trim_white(input)) + seq!['$']),
{
    assert(!has_prefix(trim_white(input), seq!['/'])) by {
        let t = trim_white(input);
        if has_prefix(t, seq!['/']) {
            assert(t.take(1)[0] == t[0]);
            assert(t[0] == '/');
        }
    }
}

/// A glob is translated piece by piece: `?` becomes `.` (one character),
/// `*` becomes `.*` (any run), a dot is escaped, and letters and digits
/// stand for themselves.
pub proof fn globs_translate_piece_by_piece(a: Seq<char>, b: Seq<char>, c: char)
    ensures
        glob_body(a + b) == glob_body(a) + glob_body(b),
        glob_body(seq!['?']) == seq!['.'],
        glob_body(seq!['*']) == seq!['.', '*'],
        glob_body(seq!['.']) == seq!['\\', '.'],
        ('a' <= c <= 'z' || 'A' <= c <= 'Z' || '0' <= c <= '9') ==> glob_body(seq![c]) == seq![c],
    decreases b.len(),
{
    reveal_with_fuel(glob_body, 2);
    assert(seq!['?'].drop_last() =~= Seq::<char>::empty());
    assert(seq!['*'].drop_last() =~= Seq::<char>::empty());
    assert(seq!['.'].drop_last() =~= Seq::<char>::empty());
    assert(seq![c].drop_last() =~= Seq::<char>::empty());
    assert(glob_body(seq!['?']) =~= seq!['.']);
    assert(glob_body(seq!['*']) =~= seq!['.', '*']);
    assert(glob_body(seq!['.']) =~= seq!['\\', '.']);
    if 'a' <= c <= 'z' || 'A' <= c <= 'Z' || '0' <= c <= '9' {
        assert(glob_body(seq![c]) =~= seq![c]);
    }
    if b.len() > 0 {
        globs_translate_piece_by_piece(a, b.drop_last(), c);
        assert((a + b).drop_last() =~= a + b.drop_last());
        assert((a + b).last() == b.last());
    } else {
        assert(a + b =~= a);
    }
}

/// `s` without its trailing slashes.
fn trim_end_slashes(s: &[char]) -> (r: Vec<char>)
    ensures
        r@ == crate::safety::trim_trailing_slashes(s@),
{
    let mut end: usize = s.len();
    assert(s@.take(s.len() as int) =~= s@);
    while end > 0 && s[end - 1] == '/'
        invariant
            end <= s.len(),
            crate::safety::trim_trailing_slashes(s@) == crate::safety::trim_trailing_slashes(s@.take(end as int)),
        decreases end,
    {
        assert(s@.take(end as int).drop_last() =~= s@.take(end - 1));
        end -= 1;
    }
    let r = crate::text::chars_slice(s, 0, end);
    assert(s@.subrange(0, end as int) =~= s@.take(end as int));
    r
}

impl Config {
    /// Converts a shell glob pattern into an anchored regular expression.
    pub fn glob_to_regex(glob: &str) -> (r: String)
        ensures
            r@ == glob_regex(glob@),
    {
        glob_to_regex(glob)
    }

    /// Sorts typed input into the kind of exclusion rule it stands for and
    /// the rule's text (see `classify_rule`).
    pub fn classify_input(input: &str) -> (r: (ExclusionKind, String))
        ensures
            (r.0, r.1@) == classify_rule(input@),
    {
        let raw = chars_of(input);
        let t = trim_chars(raw.as_slice());
        let ts = string_of(t.as_slice());
        let wild = chars_have(t.as_slice(), '*') || chars_have(t.as_slice(), '?');
        let has_slash = chars_have(t.as_slice(), '/');
        if t.len() > 0 && t[0] == '/' && !wild {
            assert(t@.take(1) =~= seq!['/']);
            assert(has_prefix(t@, seq!['/']));
            let trimmed = trim_end_slashes(t.as_slice());
            return (ExclusionKind::SystemPath, string_of(trimmed.as_slice()));
        }
        assert(!(has_prefix(t@, seq!['/']) && !wild)) by {
            if has_prefix(t@, seq!['/']) {
                assert(t@.take(1)[0] == t@[0]);
            }
        }
        if has_slash && wild {
            let pattern = glob_to_regex(ts.as_str());
            let p = chars_of(pattern.as_str());
            let mut anchored_any: Vec<char> = Vec::new();
            anchored_any.push('^');
            anchored_any.push('.');
            anchored_any.push('*');
            assert(anchored_any@ =~= seq!['^', '.', '*']);
            if chars_start_with(p.as_slice(), anchored_any.as_slice()) {
                return (ExclusionKind::PathRegex, pattern);
            }
            if p.len() > 0 && p[0] == '^' {
                assert(has_prefix(p@, seq!['^'])) by {
                    assert(p@.take(1) =~= seq!['^']);
                }
                let rest = crate::text::chars_slice(p.as_slice(), 1, p.len());
                append_chars(&mut anchored_any, rest.as_slice());
                assert(rest@ =~= p@.skip(1));
                return (ExclusionKind::PathRegex, string_of(anchored_any.as_slice()));
            }
            assert(!has_prefix(p@, seq!['^'])) by {
                if has_prefix(p@, seq!['^']) {
                    assert(p@.take(1)[0] == p@[0]);
                }
            }
            return (ExclusionKind::PathRegex, pattern);
        }
        if wild {
            return (ExclusionKind::FilenameRegex, glob_to_regex(ts.as_str()));
        }
        let esc = regex_escape(ts.as_str());
        let e = chars_of(esc.as_str());
        if !chars_have(t.as_slice(), '.') && !has_slash {
            let mut out: Vec<char> = Vec::new();
            out.push('.');
            out.push('*');
            out.push('/');
            append_chars(&mut out, e.as_slice());
            out.push('/');
            out.push('.');
            out.push('*');
            assert(out@ =~= seq!['.', '*', '/'] + escaped(t@) + seq!['/', '.', '*']);
            return (ExclusionKind::PathRegex, string_of(out.as_slice()));
        }
        let mut out: Vec<char> = Vec::new();
        out.push('^');
        append_chars(&mut out, e.as_slice());
        out.push('$');
        assert(out@ =~= seq!['^'] + escaped(t@) + seq!['$']);
        (ExclusionKind::FilenameRegex, string_of(out.as_slice()))
    }
}

} // verus!

verus! {

/// The first position at or after `i` whose entry is a prefix of `s`
/// (`list.len()` when there is none).
pub open spec fn first_prefix_from(list: Seq<Seq<char>>, s: Seq<char>, i: int) -> int
    decreases list.len() - i,
{
    if i < 0 || i >= list.len() {
        list.len() as int
    } else if has_prefix(s, list[i]) {
        i
    } else {
        first_prefix_from(list, s, i + 1)
    }
}

/// The first position at or after `i` whose pattern matches `s`
/// (`pats.len()` when there is none).
pub open spec fn first_found_from(pats: Seq<Seq<char>>, s: Seq<char>, i: int) -> int
    decreases pats.len() - i,
{
    if i < 0 || i >= pats.len() {
        pats.len() as int
    } else if regex_finds(pats[i], s) {
        i
    } else {
        first_found_from(pats, s, i + 1)
    }
}

/// Which rule excludes a path, if any: the first system path that is a
/// prefix of the path text, else the first compiled path pattern that
/// matches the path, else the first compiled file name pattern that matches
/// the file name. A pattern is reported by its own text, the rule as it was
/// written.
pub open spec fn exclusion_reason(
    system_paths: Seq<Seq<char>>,
    compiled_path: Seq<Seq<char>>,
    compiled_filename: Seq<Seq<char>>,
    path: Seq<char>,
    filename: Seq<char>,
) -> Option<Seq<char>> {
    let i = first_prefix_from(system_paths, path, 0);
    let j = first_found_from(compiled_path, path, 0);
    let k = first_found_from(compiled_filename, filename, 0);
    if i < system_paths.len() {
        Some("system_paths prefix '"@ + system_paths[i] + "'"@)
    } else if j < compiled_path.len() {
        Some("path_regex rule '"@ + compiled_path[j] + "'"@)
    } else if k < compiled_filename.len() {
        Some("filename_regex rule '"@ + compiled_filename[k] + "'"@)
    } else {
        None
    }
}

/// The first system path that is a prefix of `path`.
fn first_prefix(list: &Vec<String>, path: &[char]) -> (r: usize)
    ensures
        r as int == first_prefix_from(string_views(list@), path@, 0),
{
    let ghost l = string_views(list@);
    let mut i: usize = 0;
    while i < list.len()
        invariant
            i <= list.len(),
            l == string_views(list@),
            first_prefix_from(l, path@, 0) == first_prefix_from(l, path@, i as int),
        decreases list.len() - i,
    {
        let p = chars_of(list[i].as_str());
        if chars_start_with(path, p.as_slice()) {
            return i;
        }
        i += 1;
    }
    i
}

/// The first compiled pattern that matches `text`.
fn first_found(pats: &Vec<CompiledPattern>, text: &str) -> (r: usize)
    ensures
        r as int == first_found_from(sources(pats@), text@, 0),
{
    let ghost l = sources(pats@);
    let mut i: usize = 0;
    while i < pats.len()
        invariant
            i <= pats.len(),
            l == sources(pats@),
            first_found_from(l, text@, 0) == first_found_from(l, text@, i as int),
        decreases pats.len() - i,
    {
        if pattern_finds(&pats[i], text) {
            return i;
        }
        i += 1;
    }
    i
}

impl CompiledRules {
    fn first_path_match(&self, text: &str) -> (r: usize)
        ensures
            r as int == first_found_from(self.path_sources(), text@, 0),
    {
        first_found(&self.path_regex, text)
    }

    fn first_filename_match(&self, text: &str) -> (r: usize)
        ensures
            r as int == first_found_from(self.filename_sources(), text@, 0),
    {
        first_found(&self.filename_regex, text)
    }

    fn path_count(&self) -> (r: usize)
        ensures
            r == self.path_sources().len(),
    {
        self.path_regex.len()
    }

    fn filename_count(&self) -> (r: usize)
        ensures
            r == self.filename_sources().len(),
    {
        self.filename_regex.len()
    }
}

impl Config {
    /// Which rule excludes `path` (whose file name is `filename`), described
    /// for display, or `None` (see `exclusion_reason`).
    pub fn test_path(&self, path: &str, filename: &str) -> (r: Option<String>)
        ensures
            crate::inode::opt_view(r) == exclusion_reason(
                string_views(self.exclusions.system_paths@),
                self.compiled.path_sources(),
                self.compiled.filename_sources(),
                path@,
                filename@,
            ),
    {
        let p = chars_of(path);
        let i = first_prefix(&self.exclusions.system_paths, p.as_slice());
        if i < self.exclusions.system_paths.len() {
            let s = chars_of(self.exclusions.system_paths[i].as_str());
            return Some(concat3("system_paths prefix '", s.as_slice(), "'"));
        }
        let j = self.compiled.first_path_match(path);
        if j < self.compiled.path_count() {
            let rule = chars_of(self.compiled.path_regex[j].source());
            return Some(concat3("path_regex rule '", rule.as_slice(), "'"));
        }
        let k = self.compiled.first_filename_match(filename);
        if k < self.compiled.filename_count() {
            let rule = chars_of(self.compiled.filename_regex[k].source());
            return Some(concat3("filename_regex rule '", rule.as_slice(), "'"));
        }
        None
    }

    /// Whether some rule excludes `path` (whose file name is `filename`).
    pub fn is_excluded(&self, path: &str, filename: &str) -> (r: bool)
        ensures
            r == exclusion_reason(
                string_views(self.exclusions.system_paths@),
                self.compiled.path_sources(),
                self.compiled.filename_sources(),
                path@,
                filename@,
            ) is Some,
    {
        self.test_path(path, filename).is_some()
    }
}

} // verus!

verus! {

/// `list` with `v` appended unless it is already there.
pub open spec fn with_rule(list: Seq<Seq<char>>, v: Seq<char>) -> Seq<Seq<char>> {
    if list.contains(v) {
        list
    } else {
        list.push(v)
    }
}

/// The message for a pattern that does not compile.
pub open spec fn invalid_regex_message(v: Seq<char>) -> Seq<char> {
    "Invalid regex '"@ + v + "': "@ + regex_error(v)
}

/// Whether `list` holds `v`.
fn holds_text(list: &Vec<String>, v: &String) -> (r: bool)
    ensures
        r == string_views(list@).contains(v@),
{
    let ghost l = string_views(list@);
    let mut i: usize = 0;
    while i < list.len()
        invariant
            i <= list.len(),
            l == string_views(list@),
            forall|k: int| 0 <= k < i ==> l[k] != v@,
        decreases list.len() - i,
    {
        if list[i] == *v {
            assert(l[i as int] == v@);
            return true;
        }
        i += 1;
    }
    false
}

/// Appends `v` to `list` unless it is already there.
fn add_text(list: &mut Vec<String>, v: String)
    ensures
        string_views(final(list)@) == with_rule(string_views(old(list)@), v@),
{
    if !holds_text(list, &v) {
        let ghost vv = v@;
        list.push(v);
        assert(string_views(list@) =~= string_views(old(list)@).push(vv));
    }
}

/// The message for a pattern that does not compile.
fn invalid_regex(v: &String, err: String) -> (r: String)
    ensures
        r@ == "Invalid regex '"@ + v@ + "': "@ + err@,
{
    let mut out = chars_of("Invalid regex '");
    let vc = chars_of(v.as_str());
    append_chars(&mut out, vc.as_slice());
    let sep = chars_of("': ");
    append_chars(&mut out, sep.as_slice());
    let ec = chars_of(err.as_str());
    append_chars(&mut out, ec.as_slice());
    string_of(out.as_slice())
}

impl Config {
    /// Adds an exclusion rule of the given kind (a rule already present is
    /// not added twice) and recompiles the patterns. A path or file name
    /// pattern that does not compile is refused, and nothing changes.
    pub fn add_rule(&mut self, kind: ExclusionKind, value: String) -> (r: Result<(), String>)
        ensures
            final(self).storage == old(self).storage,
            final(self).theme == old(self).theme,
            final(self).safety.bulk_count == old(self).safety.bulk_count,
            string_views(final(self).safety.extra_protected@) == string_views(old(self).safety.extra_protected@),
            match r {
                Ok(_) => (kind == ExclusionKind::SystemPath || regex_accepts(value@))
                    && final(self).compiled_match_rules()
                    && string_views(final(self).exclusions.system_paths@) == (if kind == ExclusionKind::SystemPath {
                        with_rule(string_views(old(self).exclusions.system_paths@), value@)
                    } else {
                        string_views(old(self).exclusions.system_paths@)
                    })
                    && string_views(final(self).exclusions.path_regex@) == (if kind == ExclusionKind::PathRegex {
                        with_rule(string_views(old(self).exclusions.path_regex@), value@)
                    } else {
                        string_views(old(self).exclusions.path_regex@)
                    })
                    && string_views(final(self).exclusions.filename_regex@) == (if kind == ExclusionKind::FilenameRegex {
                        with_rule(string_views(old(self).exclusions.filename_regex@), value@)
                    } else {
                        string_views(old(self).exclusions.filename_regex@)
                    }),
                Err(m) => kind != ExclusionKind::SystemPath && !regex_accepts(value@)
                    && m@ == invalid_regex_message(value@)
                    && string_views(final(self).exclusions.system_paths@) == string_views(old(self).exclusions.system_paths@)
                    && string_views(final(self).exclusions.path_regex@) == string_views(old(self).exclusions.path_regex@)
                    && string_views(final(self).exclusions.filename_regex@) == string_views(old(self).exclusions.filename_regex@)
                    && final(self).compiled.path_sources() == old(self).compiled.path_sources()
                    && final(self).compiled.filename_sources() == old(self).compiled.filename_sources(),
            },
    {
        match kind {
            ExclusionKind::SystemPath => {
                add_text(&mut self.exclusions.system_paths, value);
            },
            ExclusionKind::PathRegex => {
                match compile_pattern(value.as_str()) {
                    Ok(_) => {},
                    Err(e) => {
                        return Err(invalid_regex(&value, e));
                    },
                }
                add_text(&mut self.exclusions.path_regex, value);
            },
            ExclusionKind::FilenameRegex => {
                match compile_pattern(value.as_str()) {
                    Ok(_) => {},
                    Err(e) => {
                        return Err(invalid_regex(&value, e));
                    },
                }
                add_text(&mut self.exclusions.filename_regex, value);
            },
        }
        self.compiled = CompiledRules::compile(&self.exclusions);
        Ok(())
    }
}

} // verus!

verus! {

/// The first position at or after `i` holding `t` (`list.len()` if none).
pub open spec fn first_equal_from(list: Seq<Seq<char>>, t: Seq<char>, i: int) -> int
    decreases list.len() - i,
{
    if i < 0 || i >= list.len() {
        list.len() as int
    } else if list[i] == t {
        i
    } else {
        first_equal_from(list, t, i + 1)
    }
}

/// The first position at or after `i` whose entry contains `t` (`list.len()`
/// if none).
pub open spec fn first_containing_from(list: Seq<Seq<char>>, t: Seq<char>, i: int) -> int
    decreases list.len() - i,
{
    if i < 0 || i >= list.len() {
        list.len() as int
    } else if crate::text::has_infix(list[i], t) {
        i
    } else {
        first_containing_from(list, t, i + 1)
    }
}

/// One of the three rule lists.
#[derive(Debug, Clone, Copy, PartialEq, Eq, Structural)]
pub enum RuleList {
    SystemPaths,
    PathRegex,
    FilenameRegex,
}

/// Which rule `remove_rule` takes away for `target`: a rule equal to the
/// target (system paths, then path patterns, then file name patterns), else
/// one equal to the target's classified form (same order), else one that
/// contains the target (path patterns, then file name patterns, then system
/// paths).
pub open spec fn rule_to_remove(sys: Seq<Seq<char>>, path: Seq<Seq<char>>, file: Seq<Seq<char>>, target: Seq<char>) -> Option<(RuleList, int)> {
    let c = classify_rule(target).1;
    if first_equal_from(sys, target, 0) < sys.len() {
        Some((RuleList::SystemPaths, first_equal_from(sys, target, 0)))
    } else if first_equal_from(path, target, 0) < path.len() {
        Some((RuleList::PathRegex, first_equal_from(path, target, 0)))
    } else if first_equal_from(file, target, 0) < file.len() {
        Some((RuleList::FilenameRegex, first_equal_from(file, target, 0)))
    } else if first_equal_from(sys, c, 0) < sys.len() {
        Some((RuleList::SystemPaths, first_equal_from(sys, c, 0)))
    } else if first_equal_from(path, c, 0) < path.len() {
        Some((RuleList::PathRegex, first_equal_from(path, c, 0)))
    } else if first_equal_from(file, c, 0) < file.len() {
        Some((RuleList::FilenameRegex, first_equal_from(file, c, 0)))
    } else if first_containing_from(path, target, 0) < path.len() {
        Some((RuleList::PathRegex, first_containing_from(path, target, 0)))
    } else if first_containing_from(file, target, 0) < file.len() {
        Some((RuleList::FilenameRegex, first_containing_from(file, target, 0)))
    } else if first_containing_from(sys, target, 0) < sys.len() {
        Some((RuleList::SystemPaths, first_containing_from(sys, target, 0)))
    } else {
        None
    }
}

/// The list after removing the rule chosen for it, if any.
pub open spec fn after_removal(list: Seq<Seq<char>>, which: RuleList, choice: Option<(RuleList, int)>) -> Seq<Seq<char>> {
    match choice {
        Some((w, k)) => if w == which { list.remove(k) } else { list },
        None => list,
    }
}

/// The first position of `t` in `list`.
fn first_equal(list: &Vec<String>, t: &[char]) -> (r: usize)
    ensures
        r as int == first_equal_from(string_views(list@), t@, 0),
{
    let ghost l = string_views(list@);
    let mut i: usize = 0;
    while i < list.len()
        invariant
            i <= list.len(),
            l == string_views(list@),
            first_equal_from(l, t@, 0) == first_equal_from(l, t@, i as int),
        decreases list.len() - i,
    {
        let e = chars_of(list[i].as_str());
        if crate::text::chars_eq(e.as_slice(), t) {
            return i;
        }
        i += 1;
    }
    i
}

/// The first position whose entry contains `t`.
fn first_containing(list: &Vec<String>, t: &[char]) -> (r: usize)
    ensures
        r as int == first_containing_from(string_views(list@), t@, 0),
{
    let ghost l = string_views(list@);
    let mut i: usize = 0;
    while i < list.len()
        invariant
            i <= list.len(),
            l == string_views(list@),
            first_containing_from(l, t@, 0) == first_containing_from(l, t@, i as int),
        decreases list.len() - i,
    {
        let e = chars_of(list[i].as_str());
        if crate::text::chars_contain(e.as_slice(), t) {
            return i;
        }
        i += 1;
    }
    i
}

/// Removes the entry at `k`.
fn remove_text(list: &mut Vec<String>, k: usize)
    requires
        k < old(list)@.len(),
    ensures
        string_views(final(list)@) == string_views(old(list)@).remove(k as int),
{
    list.remove(k);
    assert(string_views(list@) =~= string_views(old(list)@).remove(k as int));
}

impl Config {
    /// Which rule `remove_rule` would take away for `target`.
    fn find_removal(&self, target: &str) -> (r: Option<(RuleList, usize)>)
        ensures
            match r {
                Some((w, k)) => rule_to_remove(string_views(self.exclusions.system_paths@),
                    string_views(self.exclusions.path_regex@), string_views(self.exclusions.filename_regex@), target@)
                    == Some((w, k as int)),
                None => rule_to_remove(string_views(self.exclusions.system_paths@),
                    string_views(self.exclusions.path_regex@), string_views(self.exclusions.filename_regex@), target@) is None,
            },
    {
        let sys = &self.exclusions.system_paths;
        let path = &self.exclusions.path_regex;
        let file = &self.exclusions.filename_regex;
        let t = chars_of(target);
        let k = first_equal(sys, t.as_slice());
        if k < sys.len() {
            return Some((RuleList::SystemPaths, k));
        }
        let k = first_equal(path, t.as_slice());
        if k < path.len() {
            return Some((RuleList::PathRegex, k));
        }
        let k = first_equal(file, t.as_slice());
        if k < file.len() {
            return Some((RuleList::FilenameRegex, k));
        }
        let (_kind, classified) = Config::classify_input(target);
        let c = chars_of(classified.as_str());
        let k = first_equal(sys, c.as_slice());
        if k < sys.len() {
            return Some((RuleList::SystemPaths, k));
        }
        let k = first_equal(path, c.as_slice());
        if k < path.len() {
            return Some((RuleList::PathRegex, k));
        }
        let k = first_equal(file, c.as_slice());
        if k < file.len() {
            return Some((RuleList::FilenameRegex, k));
        }
        let k = first_containing(path, t.as_slice());
        if k < path.len() {
            return Some((RuleList::PathRegex, k));
        }
        let k = first_containing(file, t.as_slice());
        if k < file.len() {
            return Some((RuleList::FilenameRegex, k));
        }
        let k = first_containing(sys, t.as_slice());
        if k < sys.len() {
            return Some((RuleList::SystemPaths, k));
        }
        None
    }

    /// Removes one rule matching `target` (see `rule_to_remove`) and, when a
    /// rule was removed, recompiles the patterns. Returns whether a rule was
    /// removed.
    pub fn remove_rule(&mut self, target: &str) -> (r: bool)
        ensures
            ({
                let choice = rule_to_remove(string_views(old(self).exclusions.system_paths@),
                    string_views(old(self).exclusions.path_regex@), string_views(old(self).exclusions.filename_regex@), target@);
                &&& r == choice is Some
                &&& string_views(final(self).exclusions.system_paths@)
                    == after_removal(string_views(old(self).exclusions.system_paths@), RuleList::SystemPaths, choice)
                &&& string_views(final(self).exclusions.path_regex@)
                    == after_removal(string_views(old(self).exclusions.path_regex@), RuleList::PathRegex, choice)
                &&& string_views(final(self).exclusions.filename_regex@)
                    == after_removal(string_views(old(self).exclusions.filename_regex@), RuleList::FilenameRegex, choice)
                &&& r ==> final(self).compiled_match_rules()
                &&& !r ==> final(self).compiled.path_sources() == old(self).compiled.path_sources()
                    && final(self).compiled.filename_sources() == old(self).compiled.filename_sources()
            }),
            final(self).storage == old(self).storage,
            final(self).theme == old(self).theme,
            final(self).safety.bulk_count == old(self).safety.bulk_count,
            string_views(final(self).safety.extra_protected@) == string_views(old(self).safety.extra_protected@),
    {
        let choice = self.find_removal(target);
        proof {
            reveal_first_bounds(string_views(self.exclusions.system_paths@), string_views(self.exclusions.path_regex@),
                string_views(self.exclusions.filename_regex@), target@);
        }
        match choice {
            Some((RuleList::SystemPaths, k)) => {
                remove_text(&mut self.exclusions.system_paths, k);
            },
            Some((RuleList::PathRegex, k)) => {
                remove_text(&mut self.exclusions.path_regex, k);
            },
            Some((RuleList::FilenameRegex, k)) => {
                remove_text(&mut self.exclusions.filename_regex, k);
            },
            None => {
                return false;
            },
        }
        self.compiled = CompiledRules::compile(&self.exclusions);
        true
    }
}

proof fn lemma_first_equal_bounds(list: Seq<Seq<char>>, t: Seq<char>, i: int)
    requires
        0 <= i <= list.len(),
    ensures
        i <= first_equal_from(list, t, i) <= list.len(),
    decreases list.len() - i,
{
    if i < list.len() && list[i] != t {
        lemma_first_equal_bounds(list, t, i + 1);
    }
}

proof fn lemma_first_containing_bounds(list: Seq<Seq<char>>, t: Seq<char>, i: int)
    requires
        0 <= i <= list.len(),
    ensures
        i <= first_containing_from(list, t, i) <= list.len(),
    decreases list.len() - i,
{
    if i < list.len() && !crate::text::has_infix(list[i], t) {
        lemma_first_containing_bounds(list, t, i + 1);
    }
}

/// The position `rule_to_remove` picks lies within its list.
proof fn reveal_first_bounds(sys: Seq<Seq<char>>, path: Seq<Seq<char>>, file: Seq<Seq<char>>, target: Seq<char>)
    ensures
        rule_to_remove(sys, path, file, target) matches Some((w, k)) ==> 0 <= k && (
            (w == RuleList::SystemPaths ==> k < sys.len())
            && (w == RuleList::PathRegex ==> k < path.len())
            && (w == RuleList::FilenameRegex ==> k < file.len())),
{
    let c = classify_rule(target).1;
    lemma_first_equal_bounds(sys, target, 0);
    lemma_first_equal_bounds(path, target, 0);
    lemma_first_equal_bounds(file, target, 0);
    lemma_first_equal_bounds(sys, c, 0);
    lemma_first_equal_bounds(path, c, 0);
    lemma_first_equal_bounds(file, c, 0);
    lemma_first_containing_bounds(sys, target, 0);
    lemma_first_containing_bounds(path, target, 0);
    lemma_first_containing_bounds(file, target, 0);
}

proof fn lemma_first_equal_found(list: Seq<Seq<char>>, t: Seq<char>, i: int)
    requires
        0 <= i,
        exists|j: int| i <= j < list.len() && list[j] == t,
    ensures
        first_equal_from(list, t, i) < list.len(),
    decreases list.len() - i,
{
    if list[i] != t {
        let j = choose|j: int| i <= j < list.len() && list[j] == t;
        assert(i + 1 <= j);
        lemma_first_equal_found(list, t, i + 1);
    }
}

proof fn lemma_with_rule_holds(list: Seq<Seq<char>>, v: Seq<char>)
    ensures
        first_equal_from(with_rule(list, v), v, 0) < with_rule(list, v).len(),
{
    let l = with_rule(list, v);
    if list.contains(v) {
        let j = choose|j: int| 0 <= j < list.len() && list[j] == v;
        lemma_first_equal_found(l, v, 0);
    } else {
        assert(l[list.len() as int] == v);
        lemma_first_equal_found(l, v, 0);
    }
}

proof fn lemma_first_equal_absent(list: Seq<Seq<char>>, t: Seq<char>, i: int)
    requires
        0 <= i <= list.len(),
        !list.contains(t),
    ensures
        first_equal_from(list, t, i) == list.len(),
    decreases list.len() - i,
{
    if i < list.len() {
        assert(list[i] != t);
        lemma_first_equal_absent(list, t, i + 1);
    }
}

proof fn lemma_first_equal_pushed(list: Seq<Seq<char>>, t: Seq<char>, i: int)
    requires
        0 <= i <= list.len(),
        !list.contains(t),
    ensures
        first_equal_from(list.push(t), t, i) == list.len(),
    decreases list.len() - i,
{
    let l = list.push(t);
    if i < list.len() {
        assert(l[i] == list[i]);
        assert(list[i] != t);
        lemma_first_equal_pushed(list, t, i + 1);
    } else {
        assert(l[i] == t);
    }
}

/// Adding a rule that none of the lists holds, and then removing the last
/// one, leaves the list as it was.
proof fn lemma_push_then_remove(list: Seq<Seq<char>>, t: Seq<char>)
    ensures
        list.push(t).remove(list.len() as int) == list,
{
    assert(list.push(t).remove(list.len() as int) =~= list);
}

/// Adding a rule from what the user typed and then removing what the user
/// typed leaves the three rule lists as they were, each in its order, when
/// neither the typed text nor the rule made from it was in any list before.
pub proof fn adding_then_removing_a_rule_restores_the_lists(
    sys: Seq<Seq<char>>,
    path: Seq<Seq<char>>,
    file: Seq<Seq<char>>,
    input: Seq<char>,
)
    requires
        !sys.contains(input),
        !path.contains(input),
        !file.contains(input),
        !sys.contains(classify_rule(input).1),
        !path.contains(classify_rule(input).1),
        !file.contains(classify_rule(input).1),
    ensures
        ({
            let (kind, v) = classify_rule(input);
            let sys2 = if kind == ExclusionKind::SystemPath { with_rule(sys, v) } else { sys };
            let path2 = if kind == ExclusionKind::PathRegex { with_rule(path, v) } else { path };
            let file2 = if kind == ExclusionKind::FilenameRegex { with_rule(file, v) } else { file };
            let choice = rule_to_remove(sys2, path2, file2, input);
            &&& choice is Some
            &&& after_removal(sys2, RuleList::SystemPaths, choice) == sys
            &&& after_removal(path2, RuleList::PathRegex, choice) == path
            &&& after_removal(file2, RuleList::FilenameRegex, choice) == file
        }),
{
    let (kind, v) = classify_rule(input);
    lemma_push_then_remove(sys, v);
    lemma_push_then_remove(path, v);
    lemma_push_then_remove(file, v);
    lemma_first_equal_absent(sys, input, 0);
    lemma_first_equal_absent(path, input, 0);
    lemma_first_equal_absent(file, input, 0);
    lemma_first_equal_absent(sys, v, 0);
    lemma_first_equal_absent(path, v, 0);
    lemma_first_equal_absent(file, v, 0);
    match kind {
        ExclusionKind::SystemPath => lemma_added_rule_found(sys, v, input),
        ExclusionKind::PathRegex => lemma_added_rule_found(path, v, input),
        ExclusionKind::FilenameRegex => lemma_added_rule_found(file, v, input),
    }
}

/// In a list that held neither the typed text nor its rule, once the rule is
/// added both are found (if at all) at the added, last position.
proof fn lemma_added_rule_found(list: Seq<Seq<char>>, v: Seq<char>, input: Seq<char>)
    requires
        !list.contains(input),
        !list.contains(v),
    ensures
        with_rule(list, v) == list.push(v),
        first_equal_from(list.push(v), v, 0) == list.len(),
        input == v ==> first_equal_from(list.push(v), input, 0) == list.len(),
        input != v ==> first_equal_from(list.push(v), input, 0) == list.len() + 1,
{
    lemma_first_equal_pushed(list, v, 0);
    if input != v {
        assert(!list.push(v).contains(input)) by {
            if list.push(v).contains(input) {
                let j = choose|j: int| 0 <= j < list.push(v).len() && list.push(v)[j] == input;
                if j < list.len() {
                    assert(list[j] == input);
                }
            }
        }
        lemma_first_equal_absent(list.push(v), input, 0);
    }
}

proof fn lemma_first_containing_found(list: Seq<Seq<char>>, t: Seq<char>, i: int, j: int)
    requires
        0 <= i <= j < list.len(),
        crate::text::has_infix(list[j], t),
    ensures
        first_containing_from(list, t, i) <= j,
        crate::text::has_infix(list[first_containing_from(list, t, i)], t),
    decreases j - i,
{
    if !crate::text::has_infix(list[i], t) {
        lemma_first_containing_found(list, t, i + 1, j);
    }
}

/// `remove_rule` falls back on the rules that contain the target: when no
/// rule is the target itself or the rule the target would be classified
/// as, but some rule in any of the three lists contains the target as a
/// piece of text, one rule is removed, and the rule removed contains the
/// target.
pub proof fn a_rule_containing_the_target_is_removed(
    sys: Seq<Seq<char>>,
    path: Seq<Seq<char>>,
    file: Seq<Seq<char>>,
    target: Seq<char>,
    list: RuleList,
    j: int,
)
    requires
        !sys.contains(target),
        !path.contains(target),
        !file.contains(target),
        !sys.contains(classify_rule(target).1),
        !path.contains(classify_rule(target).1),
        !file.contains(classify_rule(target).1),
        list == RuleList::SystemPaths ==> 0 <= j < sys.len() && crate::text::has_infix(sys[j], target),
        list == RuleList::PathRegex ==> 0 <= j < path.len() && crate::text::has_infix(path[j], target),
        list == RuleList::FilenameRegex ==> 0 <= j < file.len() && crate::text::has_infix(file[j], target),
    ensures
        rule_to_remove(sys, path, file, target) matches Some((w, k)) && (match w {
            RuleList::SystemPaths => 0 <= k < sys.len() && crate::text::has_infix(sys[k], target)
                && after_removal(sys, RuleList::SystemPaths, Some((w, k))).len() == sys.len() - 1,
            RuleList::PathRegex => 0 <= k < path.len() && crate::text::has_infix(path[k], target)
                && after_removal(path, RuleList::PathRegex, Some((w, k))).len() == path.len() - 1,
            RuleList::FilenameRegex => 0 <= k < file.len() && crate::text::has_infix(file[k], target)
                && after_removal(file, RuleList::FilenameRegex, Some((w, k))).len() == file.len() - 1,
        }),
{
    let c = classify_rule(target).1;
    lemma_first_equal_absent(sys, target, 0);
    lemma_first_equal_absent(path, target, 0);
    lemma_first_equal_absent(file, target, 0);
    lemma_first_equal_absent(sys, c, 0);
    lemma_first_equal_absent(path, c, 0);
    lemma_first_equal_absent(file, c, 0);
    lemma_first_containing_bounds(sys, target, 0);
    lemma_first_containing_bounds(path, target, 0);
    lemma_first_containing_bounds(file, target, 0);
    let kp = first_containing_from(path, target, 0);
    let kf = first_containing_from(file, target, 0);
    let ks = first_containing_from(sys, target, 0);
    if kp < path.len() {
        lemma_first_containing_holds(path, target, 0);
    } else if kf < file.len() {
        lemma_first_containing_holds(file, target, 0);
    } else {
        match list {
            RuleList::SystemPaths => lemma_first_containing_found(sys, target, 0, j),
            RuleList::PathRegex => lemma_first_containing_found(path, target, 0, j),
            RuleList::FilenameRegex => lemma_first_containing_found(file, target, 0, j),
        }
        lemma_first_containing_holds(sys, target, 0);
    }
}

/// The entry that `first_containing_from` finds does contain the text.
proof fn lemma_first_containing_holds(list: Seq<Seq<char>>, t: Seq<char>, i: int)
    requires
        0 <= i <= list.len(),
    ensures
        first_containing_from(list, t, i) < list.len() ==> crate::text::has_infix(list[first_containing_from(list, t, i)], t),
    decreases list.len() - i,
{
    if i < list.len() && !crate::text::has_infix(list[i], t) {
        lemma_first_containing_holds(list, t, i + 1);
    }
}

/// A rule added from what the user typed can be removed by typing the same
/// thing again: whatever the lists held, the input then names a rule to
/// remove.
pub proof fn typed_rule_can_be_removed(sys: Seq<Seq<char>>, path: Seq<Seq<char>>, file: Seq<Seq<char>>, input: Seq<char>)
    ensures
        ({
            let (kind, v) = classify_rule(input);
            let sys2 = if kind == ExclusionKind::SystemPath { with_rule(sys, v) } else { sys };
            let path2 = if kind == ExclusionKind::PathRegex { with_rule(path, v) } else { path };
            let file2 = if kind == ExclusionKind::FilenameRegex { with_rule(file, v) } else { file };
            rule_to_remove(sys2, path2, file2, input) is Some
        }),
{
    let (kind, v) = classify_rule(input);
    match kind {
        ExclusionKind::SystemPath => lemma_with_rule_holds(sys, v),
        ExclusionKind::PathRegex => lemma_with_rule_holds(path, v),
        ExclusionKind::FilenameRegex => lemma_with_rule_holds(file, v),
    }
}

} // verus!
