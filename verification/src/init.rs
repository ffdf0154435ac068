//! The shell integration script printed by `rinode init`.

use vstd::prelude::*;
use crate::path::{file_name, file_name_of};
use crate::text::{append_chars, ascii_lower, chars_eq, chars_of, has_infix, has_suffix, lowered, occurs_at, string_of, to_lowercase,
    trim_chars, trim_white};

verus! {

pub const NO_SHELL_MESSAGE: &'static str = "Could not auto-detect shell from $SHELL environment variable.\n\
                     Please specify your shell: rinode init <fish|bash|zsh>\n\n\
                     Setup instructions:\n\
                       Fish (~/.config/fish/config.fish):  rinode init fish | source\n\
                       Bash (~/.bashrc):                   eval \"$(rinode init bash)\"\n\
                       Zsh (~/.zshrc):                     eval \"$(rinode init zsh)\"";

pub const FISH_HEADER: &'static str = "# rinode shell integration for fish\n\
                 # To enable, add this line to ~/.config/fish/config.fish:\n\
                 #   rinode init fish | source\n\n";

pub const BASH_HEADER: &'static str = "# rinode shell integration for bash\n\
                 # To enable, add this line to ~/.bashrc:\n\
                 #   eval \"$(rinode init bash)\"\n\n";

pub const ZSH_HEADER: &'static str = "# rinode shell integration for zsh\n\
                 # To enable, add this line to ~/.zshrc:\n\
                 #   eval \"$(rinode init zsh)\"\n\n";

pub const FISH_FUNCTION_START: &'static str = "function ";

pub const FISH_FUNCTION_MIDDLE: &'static str = " --description \"rinode shortcut\"\n\
                         if test (count $argv) -eq 0\n\
                             rinode tui\n\
                         else if test \"$argv[1]\" = \"ls\"\n\
                             rinode ls $argv[2..-1]\n\
                         else if test \"$argv[1]\" = \"restore\"\n\
                             rinode restore $argv[2..-1]\n\
                         else if test \"$argv[1]\" = \"inspect\"\n\
                             rinode inspect $argv[2..-1]\n\
                         else if test \"$argv[1]\" = \"purge\"\n\
                             rinode purge $argv[2..-1]\n\
                         else\n\
                             rinode rm $argv\n\
                         end\n\
                     end\n\n\
                     # Inherit completions from rinode\n";

pub const FISH_COMPLETE: &'static str = "complete -c ";

pub const FISH_FUNCTION_END: &'static str = " -w rinode\n";

pub const FUNCTION_OPEN: &'static str = "() {\n";

pub const BASH_FUNCTION_MIDDLE: &'static str = "\
                         if [ $# -eq 0 ]; then\n\
                             rinode tui\n\
                         elif [ \"$1\" = \"ls\" ]; then\n\
                             rinode ls \"${@:2}\"\n\
                         elif [ \"$1\" = \"restore\" ]; then\n\
                             rinode restore \"${@:2}\"\n\
                         elif [ \"$1\" = \"inspect\" ]; then\n\
                             rinode inspect \"${@:2}\"\n\
                         elif [ \"$1\" = \"purge\" ]; then\n\
                             rinode purge \"${@:2}\"\n\
                         else\n\
                             rinode rm \"$@\"\n\
                         fi\n\
                     }\n\n\
                     # Inherit bash completion\n";

pub const BASH_COMPLETE: &'static str = "complete -F _rinode ";

pub const BASH_FUNCTION_END: &'static str = " 2>/dev/null || true\n";

pub const ZSH_FUNCTION_MIDDLE: &'static str = "\
                         if [ $# -eq 0 ]; then\n\
                             rinode tui\n\
                         elif [ \"$1\" = \"ls\" ]; then\n\
                             rinode ls \"${@:2}\"\n\
                         elif [ \"$1\" = \"restore\" ]; then\n\
                             rinode restore \"${@:2}\"\n\
                         elif [ \"$1\" = \"inspect\" ]; then\n\
                             rinode inspect \"${@:2}\"\n\
                         elif [ \"$1\" = \"purge\" ]; then\n\
                             rinode purge \"${@:2}\"\n\
                         else\n\
                             rinode rm \"$@\"\n\
                         fi\n\
                     }\n\n\
                     # Inherit zsh completion\n";

pub const ZSH_COMPLETE: &'static str = "compdef _rinode ";

pub const ZSH_FUNCTION_END: &'static str = " 2>/dev/null || true\n";

pub const UNSUPPORTED_START: &'static str = "Unsupported shell '";

pub const UNSUPPORTED_END: &'static str = "'. Supported shells: fish, bash, zsh\n\n\
             Setup instructions:\n\
               Fish (~/.config/fish/config.fish):  rinode init fish | source\n\
               Bash (~/.bashrc):                   eval \"$(rinode init bash)\"\n\
               Zsh (~/.zshrc):                     eval \"$(rinode init zsh)\"";

pub const ALIAS_RM_LINE: &'static str = "\nalias rm=\"rinode rm\"\n";

/// The shell named by the `$SHELL` value `shell_var`, when its file name is
/// `fish`, `bash` or `zsh`.
pub open spec fn shell_from_var(shell_var: Option<Seq<char>>) -> Option<Seq<char>> {
    match shell_var {
        Some(s) => match file_name(s) {
            Some(n) => if n == "fish"@ || n == "bash"@ || n == "zsh"@ {
                Some(n)
            } else {
                None
            },
            None => None,
        },
        None => None,
    }
}

/// Text equality ignoring the case of ASCII letters.
pub open spec fn eq_ignore_ascii_case(a: Seq<char>, b: Seq<char>) -> bool {
    a.len() == b.len() && ascii_lower(a) == ascii_lower(b)
}

/// An alias name that asks for a shortcut function (not empty, `none` or
/// `false`).
pub open spec fn alias_enabled(a: Seq<char>) -> bool {
    a.len() > 0 && !eq_ignore_ascii_case(a, "none"@) && !eq_ignore_ascii_case(a, "false"@)
}

/// The script for a shell (given, or else detected), with a shortcut
/// function named by the trimmed alias when one is asked for, and an `rm`
/// alias when `alias_rm` is set; or the message for a missing or unknown
/// shell.
pub open spec fn init_script(shell_opt: Option<Seq<char>>, detected: Option<Seq<char>>, alias: Seq<char>, alias_rm: bool) -> Result<Seq<char>, Seq<char>> {
    let shell = match shell_opt {
        Some(s) => Some(s),
        None => detected,
    };
    match shell {
        None => Err(NO_SHELL_MESSAGE@),
        Some(sh) => {
            let a = trim_white(alias);
            let has = alias_enabled(a);
            let rm = if alias_rm { ALIAS_RM_LINE@ } else { Seq::<char>::empty() };
            let l = lowered(sh);
            if l == "fish"@ {
                Ok(FISH_HEADER@ + (if has {
                    FISH_FUNCTION_START@ + a + FISH_FUNCTION_MIDDLE@ + FISH_COMPLETE@ + a + FISH_FUNCTION_END@
                } else {
                    Seq::<char>::empty()
                }) + rm)
            } else if l == "bash"@ {
                Ok(BASH_HEADER@ + (if has {
                    a + FUNCTION_OPEN@ + BASH_FUNCTION_MIDDLE@ + BASH_COMPLETE@ + a + BASH_FUNCTION_END@
                } else {
                    Seq::<char>::empty()
                }) + rm)
            } else if l == "zsh"@ {
                Ok(ZSH_HEADER@ + (if has {
                    a + FUNCTION_OPEN@ + ZSH_FUNCTION_MIDDLE@ + ZSH_COMPLETE@ + a + ZSH_FUNCTION_END@
                } else {
                    Seq::<char>::empty()
                }) + rm)
            } else {
                Err(UNSUPPORTED_START@ + sh + UNSUPPORTED_END@)
            }
        },
    }
}

/// The shell named by the value of `$SHELL`, when it is fish, bash or zsh.
pub fn detect_shell(shell_var: Option<&str>) -> (r: Option<String>)
    ensures
        match r {
            Some(s) => shell_from_var(match shell_var { Some(v) => Some(v@), None => None }) == Some(s@),
            None => shell_from_var(match shell_var { Some(v) => Some(v@), None => None }) is None,
        },
{
    match shell_var {
        Some(v) => {
            let c = chars_of(v);
            match file_name_of(c.as_slice()) {
                Some(n) => {
                    if chars_eq(n.as_slice(), chars_of("fish").as_slice()) || chars_eq(n.as_slice(), chars_of("bash").as_slice())
                        || chars_eq(n.as_slice(), chars_of("zsh").as_slice()) {
                        Some(string_of(n.as_slice()))
                    } else {
                        None
                    }
                },
                None => None,
            }
        },
        None => None,
    }
}

/// Whether `a` equals the ASCII text `b` when ASCII case is ignored.
fn eq_ascii_case(a: &[char], b: &str) -> (r: bool)
    ensures
        r == eq_ignore_ascii_case(a@, b@),
{
    let bc = chars_of(b);
    if a.len() != bc.len() {
        return false;
    }
    let mut i: usize = 0;
    while i < a.len()
        invariant
            i <= a.len(),
            a.len() == bc.len(),
            bc@ == b@,
            forall|k: int| 0 <= k < i ==> ascii_lower(a@)[k] == ascii_lower(bc@)[k],
        decreases a.len() - i,
    {
        let x = a[i];
        let y = bc[i];
        let lx = if 'A' <= x && x <= 'Z' { ((x as u32) + 32) as u8 as char } else { x };
        let ly = if 'A' <= y && y <= 'Z' { ((y as u32) + 32) as u8 as char } else { y };
        assert(lx == ascii_lower(a@)[i as int]) by {
            if 'A' <= x && x <= 'Z' {
                assert((((x as u32) + 32) as u8) as char == ((x as u32) + 32) as char);
            }
        }
        assert(ly == ascii_lower(bc@)[i as int]) by {
            if 'A' <= y && y <= 'Z' {
                assert((((y as u32) + 32) as u8) as char == ((y as u32) + 32) as char);
            }
        }
        if lx != ly {
            return false;
        }
        i += 1;
    }
    assert(ascii_lower(a@) =~= ascii_lower(b@));
    true
}

/// The pieces of a shortcut function: the alias after `start`, then the
/// function's body, then the completion command with the alias again.
fn with_alias(out: &mut Vec<char>, start: &str, a: &[char], open: &str, middle: &str, complete: &str, end: &str)
    ensures
        final(out)@ == old(out)@ + start@ + a@ + open@ + middle@ + complete@ + a@ + end@,
{
    append_chars(out, chars_of(start).as_slice());
    append_chars(out, a);
    append_chars(out, chars_of(open).as_slice());
    append_chars(out, chars_of(middle).as_slice());
    append_chars(out, chars_of(complete).as_slice());
    append_chars(out, a);
    append_chars(out, chars_of(end).as_slice());
    assert(out@ =~= old(out)@ + start@ + a@ + open@ + middle@ + complete@ + a@ + end@);
}

/// Generates the shell integration script for `shell_opt`, or for
/// `detected_shell` when no shell is given (see `init_script`).
pub fn generate_init(shell_opt: Option<&str>, detected_shell: Option<String>, alias_name: &str, alias_rm: bool) -> (r: Result<String, String>)
    ensures
        match r {
            Ok(s) => init_script(match shell_opt { Some(x) => Some(x@), None => None },
                match detected_shell { Some(d) => Some(d@), None => None }, alias_name@, alias_rm) == Ok::<Seq<char>, Seq<char>>(s@),
            Err(e) => init_script(match shell_opt { Some(x) => Some(x@), None => None },
                match detected_shell { Some(d) => Some(d@), None => None }, alias_name@, alias_rm) == Err::<Seq<char>, Seq<char>>(e@),
        },
{
    let shell: String = match shell_opt {
        Some(s) => s.to_owned(),
        None => match detected_shell {
            Some(d) => d,
            None => {
                return Err(NO_SHELL_MESSAGE.to_owned());
            },
        },
    };
    let a = trim_chars(chars_of(alias_name).as_slice());
    let has_alias = a.len() > 0 && !eq_ascii_case(a.as_slice(), "none") && !eq_ascii_case(a.as_slice(), "false");
    let lower = to_lowercase(shell.as_str());
    let l = chars_of(lower.as_str());
    proof {
        reveal_strlit("");
    }
    let ghost empty = Seq::<char>::empty();
    let ghost rm = if alias_rm { ALIAS_RM_LINE@ } else { empty };
    let mut out: Vec<char>;
    if chars_eq(l.as_slice(), chars_of("fish").as_slice()) {
        out = chars_of(FISH_HEADER);
        if has_alias {
            with_alias(&mut out, FISH_FUNCTION_START, a.as_slice(), "", FISH_FUNCTION_MIDDLE, FISH_COMPLETE, FISH_FUNCTION_END);
        }
        assert(out@ =~= FISH_HEADER@ + (if has_alias {
            FISH_FUNCTION_START@ + a@ + FISH_FUNCTION_MIDDLE@ + FISH_COMPLETE@ + a@ + FISH_FUNCTION_END@
        } else {
            empty
        }));
    } else if chars_eq(l.as_slice(), chars_of("bash").as_slice()) {
        out = chars_of(BASH_HEADER);
        if has_alias {
            with_alias(&mut out, "", a.as_slice(), FUNCTION_OPEN, BASH_FUNCTION_MIDDLE, BASH_COMPLETE, BASH_FUNCTION_END);
        }
        assert(out@ =~= BASH_HEADER@ + (if has_alias {
            a@ + FUNCTION_OPEN@ + BASH_FUNCTION_MIDDLE@ + BASH_COMPLETE@ + a@ + BASH_FUNCTION_END@
        } else {
            empty
        }));
    } else if chars_eq(l.as_slice(), chars_of("zsh").as_slice()) {
        out = chars_of(ZSH_HEADER);
        if has_alias {
            with_alias(&mut out, "", a.as_slice(), FUNCTION_OPEN, ZSH_FUNCTION_MIDDLE, ZSH_COMPLETE, ZSH_FUNCTION_END);
        }
        assert(out@ =~= ZSH_HEADER@ + (if has_alias {
            a@ + FUNCTION_OPEN@ + ZSH_FUNCTION_MIDDLE@ + ZSH_COMPLETE@ + a@ + ZSH_FUNCTION_END@
        } else {
            empty
        }));
    } else {
        let mut msg = chars_of(UNSUPPORTED_START);
        append_chars(&mut msg, chars_of(shell.as_str()).as_slice());
        append_chars(&mut msg, chars_of(UNSUPPORTED_END).as_slice());
        return Err(string_of(msg.as_slice()));
    }
    let ghost body = out@;
    if alias_rm {
        append_chars(&mut out, chars_of(ALIAS_RM_LINE).as_slice());
    }
    assert(out@ =~= body + rm);
    Ok(string_of(out.as_slice()))
}

/// A stretch of the middle part of a text occurs in the whole text.
proof fn lemma_part_occurs(h: Seq<char>, x: Seq<char>, c: Seq<char>, i: int, j: int)
    requires
        0 <= i <= j <= x.len(),
    ensures
        has_infix(h + x + c, x.subrange(i, j)),
{
    assert((h + x + c).subrange(h.len() + i, h.len() + j) =~= x.subrange(i, j));
    assert(occurs_at(h + x + c, x.subrange(i, j), h.len() + i));
}

/// For fish, bash and zsh (the shell named in any case) the script is
/// produced. When a shortcut is asked for (the trimmed alias is not empty,
/// `none` or `false`), it defines a shell function named by the trimmed
/// alias (`function <alias>` in fish, `<alias>() {` in bash and zsh) and
/// gives that name rinode's completions (`complete -c <alias> -w rinode`,
/// `complete -F _rinode <alias>`, `compdef _rinode <alias>`). When none is
/// asked for, the script is the shell's header alone, followed by the `rm`
/// alias when that is asked for.
pub proof fn scripts_define_the_shortcut(shell: Seq<char>, detected: Option<Seq<char>>, alias: Seq<char>, alias_rm: bool)
    requires
        lowered(shell) == "fish"@ || lowered(shell) == "bash"@ || lowered(shell) == "zsh"@,
    ensures
        init_script(Some(shell), detected, alias, alias_rm) is Ok,
        ({
            let a = trim_white(alias);
            let rm = if alias_rm { "\nalias rm=\"rinode rm\"\n"@ } else { Seq::<char>::empty() };
            match init_script(Some(shell), detected, alias, alias_rm) {
                Ok(script) => {
                    &&& alias_rm ==> has_suffix(script, "\nalias rm=\"rinode rm\"\n"@)
                    &&& (alias_enabled(a) && lowered(shell) == "fish"@) ==> has_infix(script, "function "@ + a)
                        && has_infix(script, "complete -c "@ + a + " -w rinode\n"@)
                    &&& (alias_enabled(a) && lowered(shell) == "bash"@) ==> has_infix(script, a + "() {\n"@)
                        && has_infix(script, "complete -F _rinode "@ + a)
                    &&& (alias_enabled(a) && lowered(shell) == "zsh"@) ==> has_infix(script, a + "() {\n"@)
                        && has_infix(script, "compdef _rinode "@ + a)
                    &&& (!alias_enabled(a) && lowered(shell) == "fish"@) ==> script == FISH_HEADER@ + rm
                    &&& (!alias_enabled(a) && lowered(shell) == "bash"@) ==> script == BASH_HEADER@ + rm
                    &&& (!alias_enabled(a) && lowered(shell) == "zsh"@) ==> script == ZSH_HEADER@ + rm
                },
                Err(_) => false,
            }
        }),
{
    reveal_strlit("fish");
    reveal_strlit("bash");
    reveal_strlit("zsh");
    reveal_strlit("");
    assert("fish"@[0] != "bash"@[0] && "fish"@.len() != "zsh"@.len() && "bash"@.len() != "zsh"@.len());
    let a = trim_white(alias);
    let rm = if alias_rm { ALIAS_RM_LINE@ } else { Seq::<char>::empty() };
    let script = init_script(Some(shell), detected, alias, alias_rm)->Ok_0;
    if alias_rm {
        assert(script.skip(script.len() - rm.len()) =~= rm);
    }
    if alias_enabled(a) {
        if lowered(shell) == "fish"@ {
            let x = FISH_FUNCTION_START@ + a + FISH_FUNCTION_MIDDLE@ + FISH_COMPLETE@ + a + FISH_FUNCTION_END@;
            assert(script =~= FISH_HEADER@ + x + rm);
            let s1: int = FISH_FUNCTION_START@.len() as int;
            let e2: int = x.len() - FISH_FUNCTION_END@.len();
            let s2: int = e2 - a.len() - FISH_COMPLETE@.len();
            lemma_part_occurs(FISH_HEADER@, x, rm, 0, (s1 + a.len()) as int);
            assert(x.subrange(0, (s1 + a.len()) as int) =~= "function "@ + a);
            lemma_part_occurs(FISH_HEADER@, x, rm, s2, x.len() as int);
            assert(x.subrange(s2, x.len() as int) =~= "complete -c "@ + a + " -w rinode\n"@);
        } else if lowered(shell) == "bash"@ {
            let x = a + FUNCTION_OPEN@ + BASH_FUNCTION_MIDDLE@ + BASH_COMPLETE@ + a + BASH_FUNCTION_END@;
            assert(script =~= BASH_HEADER@ + x + rm);
            let e2: int = x.len() - BASH_FUNCTION_END@.len();
            let s2: int = e2 - a.len() - BASH_COMPLETE@.len();
            lemma_part_occurs(BASH_HEADER@, x, rm, 0, (a.len() + FUNCTION_OPEN@.len()) as int);
            assert(x.subrange(0, (a.len() + FUNCTION_OPEN@.len()) as int) =~= a + "() {\n"@);
            lemma_part_occurs(BASH_HEADER@, x, rm, s2, e2);
            assert(x.subrange(s2, e2) =~= "complete -F _rinode "@ + a);

        } else {
            let x = a + FUNCTION_OPEN@ + ZSH_FUNCTION_MIDDLE@ + ZSH_COMPLETE@ + a + ZSH_FUNCTION_END@;
            assert(script =~= ZSH_HEADER@ + x + rm);
            let e2: int = x.len() - ZSH_FUNCTION_END@.len();
            let s2: int = e2 - a.len() - ZSH_COMPLETE@.len();
            lemma_part_occurs(ZSH_HEADER@, x, rm, 0, (a.len() + FUNCTION_OPEN@.len()) as int);
            assert(x.subrange(0, (a.len() + FUNCTION_OPEN@.len()) as int) =~= a + "() {\n"@);
            lemma_part_occurs(ZSH_HEADER@, x, rm, s2, e2);
            assert(x.subrange(s2, e2) =~= "compdef _rinode "@ + a);
        }
    } else {
        assert(script =~= (if lowered(shell) == "fish"@ { FISH_HEADER@ } else if lowered(shell) == "bash"@ {
            BASH_HEADER@
        } else {
            ZSH_HEADER@
        }) + rm);
    }
}

} // verus!
