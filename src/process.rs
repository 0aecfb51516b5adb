//! Quoting of arguments for a native process command line.
use vstd::prelude::*;
use vstd::string::StringExecFns;

use crate::string::{
    lemma_utf16_of_concat, push_chars, push_utf16, string_of_chars, utf16_of,
};

verus! {

/// True when the characters from `i` on are backslashes up to a quote or to the end,
/// so that a backslash just before `i` must be escaped.
pub open spec fn run_ends_at_quote(s: Seq<char>, i: int) -> bool
    decreases s.len() - i,
{
    if i >= s.len() {
        true
    } else if s[i] == '\\' {
        run_ends_at_quote(s, i + 1)
    } else {
        s[i] == '"'
    }
}

/// What the character at `i` becomes inside the quotes.
pub open spec fn escape_piece(s: Seq<char>, i: int) -> Seq<char> {
    if s[i] == '\\' {
        if run_ends_at_quote(s, i + 1) {
            seq!['\\', '\\']
        } else {
            seq!['\\']
        }
    } else if s[i] == '"' {
        seq!['\\', '"']
    } else {
        seq![s[i]]
    }
}

/// The escaped form of the first `n` characters of `s`.
pub open spec fn escaped_prefix(s: Seq<char>, n: int) -> Seq<char>
    decreases n,
{
    if n <= 0 {
        Seq::empty()
    } else {
        escaped_prefix(s, n - 1) + escape_piece(s, n - 1)
    }
}

/// An argument must be quoted when it is empty or holds a space, a tab or a quote.
pub open spec fn needs_quoting(s: Seq<char>) -> bool {
    s.len() == 0 || exists|i: int| 0 <= i < s.len() && (s[i] == ' ' || s[i] == '\t' || s[i] == '"')
}

/// The command-line form of an argument.
pub open spec fn quoted(s: Seq<char>) -> Seq<char> {
    if needs_quoting(s) {
        seq!['"'] + escaped_prefix(s, s.len() as int) + seq!['"']
    } else {
        s
    }
}

/// Within a run of backslashes, every position sees the same end of the run.
proof fn lemma_run_same_end(s: Seq<char>, m: int, j: int)
    requires
        0 <= m <= j <= s.len(),
        forall|k: int| m <= k < j ==> s[k] == '\\',
    ensures
        run_ends_at_quote(s, m) == run_ends_at_quote(s, j),
    decreases j - m,
{
    if m < j {
        lemma_run_same_end(s, m + 1, j);
    }
}

/// Decides whether an argument must be quoted.
pub fn arg_needs_quoting(cs: &Vec<char>) -> (r: bool)
    ensures
        r == needs_quoting(cs@),
{
    if cs.len() == 0 {
        return true;
    }
    let mut i: usize = 0;
    while i < cs.len()
        invariant
            i <= cs@.len(),
            forall|k: int| 0 <= k < i ==> !(cs@[k] == ' ' || cs@[k] == '\t' || cs@[k] == '"'),
        decreases cs@.len() - i,
    {
        let c = cs[i];
        if c == ' ' || c == '\t' || c == '"' {
            return true;
        }
        i = i + 1;
    }
    false
}

/// Quotes and escapes an argument for a native command line, so that the
/// command-line parser reads it back as the same single argument. An argument
/// without space, tab or quote is returned as it is.
pub fn quote_arg(arg: &str) -> (r: String)
    ensures
        r@ == quoted(arg@),
{
    let mut cs: Vec<char> = Vec::new();
    for c in it: arg.chars()
        invariant
            it.seq() == arg@,
            0 <= it.index() <= arg@.len(),
            cs@ == arg@.subrange(0, it.index() as int),
    {
        cs.push(c);
        proof {
            assert(arg@.subrange(0, it.index() + 1) =~= arg@.subrange(0, it.index() as int).push(c));
        }
    }
    proof {
        assert(arg@.subrange(0, arg@.len() as int) =~= arg@);
    }
    if !arg_needs_quoting(&cs) {
        return String::from_str(arg);
    }
    let ghost s = cs@;
    let n = cs.len();
    let mut out: Vec<char> = Vec::new();
    out.push('"');
    let mut i: usize = 0;
    while i < n
        invariant
            n == s.len(),
            cs@ == s,
            i <= n,
            out@ == seq!['"'] + escaped_prefix(s, i as int),
        decreases n - i,
    {
        let c = cs[i];
        if c == '\\' {
            let mut j: usize = i;
            while j < n && cs[j] == '\\'
                invariant
                    n == s.len(),
                    cs@ == s,
                    i <= j <= n,
                    forall|k: int| i <= k < j ==> s[k] == '\\',
                decreases n - j,
            {
                j = j + 1;
            }
            let double = j == n || cs[j] == '"';
            proof {
                assert(run_ends_at_quote(s, j as int) == double);
            }
            let mut k: usize = i;
            while k < j
                invariant
                    n == s.len(),
                    cs@ == s,
                    i <= k <= j <= n,
                    forall|m: int| i <= m < j ==> s[m] == '\\',
                    run_ends_at_quote(s, j as int) == double,
                    out@ == seq!['"'] + escaped_prefix(s, k as int),
                decreases j - k,
            {
                proof {
                    lemma_run_same_end(s, k + 1, j as int);
                }
                out.push('\\');
                if double {
                    out.push('\\');
                }
                proof {
                    assert(escaped_prefix(s, k + 1) == escaped_prefix(s, k as int) + escape_piece(
                        s,
                        k as int,
                    ));
                }
                k = k + 1;
                proof {
                    assert(out@ =~= seq!['"'] + escaped_prefix(s, k as int));
                }
            }
            i = j;
        } else if c == '"' {
            out.push('\\');
            out.push('"');
            i = i + 1;
            proof {
                assert(out@ =~= seq!['"'] + escaped_prefix(s, i as int));
            }
        } else {
            out.push(c);
            i = i + 1;
            proof {
                assert(out@ =~= seq!['"'] + escaped_prefix(s, i as int));
            }
        }
    }
    out.push('"');
    proof {
        assert(out@ =~= quoted(arg@));
    }
    string_of_chars(out)
}

/// Creation flag: the new process gets its own console window.
pub const CREATE_NEW_CONSOLE: u32 = 0x0000_0010;

/// Creation flag: the new process runs without a console window.
pub const CREATE_NO_WINDOW: u32 = 0x0800_0000;

/// A process to start: program, arguments, working directory, creation flags
/// and environment.
pub struct Command {
    program: String,
    args: Vec<String>,
    current_dir: Option<String>,
    creation_flags: u32,
    env: Option<Vec<(String, String)>>,
}

/// What a `Command` holds.
pub struct CommandSpec {
    pub program: Seq<char>,
    pub args: Seq<Seq<char>>,
    pub current_dir: Option<Seq<char>>,
    pub creation_flags: u32,
    /// The variables given to the process, in the order they were set; `None`
    /// when the process inherits the caller's environment.
    pub env: Option<Seq<(Seq<char>, Seq<char>)>>,
}

/// The texts of a sequence of strings.
pub open spec fn texts(v: Seq<String>) -> Seq<Seq<char>> {
    v.map_values(|x: String| x@)
}

/// The texts of a sequence of name-value pairs.
pub open spec fn pair_texts(v: Seq<(String, String)>) -> Seq<(Seq<char>, Seq<char>)> {
    v.map_values(|p: (String, String)| (p.0@, p.1@))
}

/// Each argument quoted and preceded by a space.
pub open spec fn quoted_args(args: Seq<Seq<char>>) -> Seq<char>
    decreases args.len(),
{
    if args.len() == 0 {
        Seq::empty()
    } else {
        quoted_args(args.drop_last()) + seq![' '] + quoted(args.last())
    }
}

/// The command line: the quoted program, then each quoted argument after a space.
pub open spec fn command_line(program: Seq<char>, args: Seq<Seq<char>>) -> Seq<char> {
    quoted(program) + quoted_args(args)
}

/// The text of one environment entry.
pub open spec fn env_entry(name: Seq<char>, value: Seq<char>) -> Seq<char> {
    name + seq!['='] + value
}

/// Each entry as `name=value`, UTF-16 encoded and null-terminated.
pub open spec fn env_entries(env: Seq<(Seq<char>, Seq<char>)>) -> Seq<u16>
    decreases env.len(),
{
    if env.len() == 0 {
        Seq::empty()
    } else {
        env_entries(env.drop_last()) + utf16_of(env_entry(env.last().0, env.last().1)).push(0u16)
    }
}

/// The environment block: the entries followed by one more zero unit.
pub open spec fn env_block(env: Seq<(Seq<char>, Seq<char>)>) -> Seq<u16> {
    env_entries(env).push(0u16)
}

impl View for Command {
    type V = CommandSpec;

    closed spec fn view(&self) -> CommandSpec {
        CommandSpec {
            program: self.program@,
            args: texts(self.args@),
            current_dir: match self.current_dir {
                Some(d) => Some(d@),
                None => None,
            },
            creation_flags: self.creation_flags,
            env: match self.env {
                Some(e) => Some(pair_texts(e@)),
                None => None,
            },
        }
    }
}

impl Command {
    /// A command for `program`, with no arguments, no working directory, no
    /// flags, and the caller's environment.
    pub fn new(program: &str) -> (r: Command)
        ensures
            r@ == (CommandSpec {
                program: program@,
                args: Seq::empty(),
                current_dir: None,
                creation_flags: 0,
                env: None,
            }),
    {
        let r = Command {
            program: String::from_str(program),
            args: Vec::new(),
            current_dir: None,
            creation_flags: 0,
            env: None,
        };
        proof {
            assert(texts(r.args@) =~= Seq::<Seq<char>>::empty());
        }
        r
    }

    /// Adds an argument.
    pub fn arg(self, arg: &str) -> (r: Command)
        ensures
            r@ == (CommandSpec { args: self@.args.push(arg@), ..self@ }),
    {
        let mut c = self;
        let ghost before = c.args@;
        c.args.push(String::from_str(arg));
        proof {
            assert(texts(c.args@) =~= texts(before).push(arg@));
        }
        c
    }

    /// Adds arguments, in order.
    pub fn args(self, args: &[&str]) -> (r: Command)
        ensures
            r@ == (CommandSpec {
                args: self@.args + args@.map_values(|a: &str| a@),
                ..self@
            }),
    {
        let mut c = self;
        let ghost start = c@;
        let mut i: usize = 0;
        while i < args.len()
            invariant
                i <= args@.len(),
                c@ == (CommandSpec {
                    args: start.args + args@.subrange(0, i as int).map_values(|a: &str| a@),
                    ..start
                }),
            decreases args@.len() - i,
        {
            let ghost before = c.args@;
            c.args.push(String::from_str(args[i]));
            proof {
                assert(texts(c.args@) =~= texts(before).push(args@[i as int]@));
                assert(args@.subrange(0, i + 1).map_values(|a: &str| a@) =~= args@.subrange(
                    0,
                    i as int,
                ).map_values(|a: &str| a@).push(args@[i as int]@));
            }
            i = i + 1;
        }
        proof {
            assert(args@.subrange(0, args@.len() as int) =~= args@);
        }
        c
    }

    /// Sets the working directory of the process.
    pub fn current_dir(self, dir: &str) -> (r: Command)
        ensures
            r@ == (CommandSpec { current_dir: Some(dir@), ..self@ }),
    {
        Command { current_dir: Some(String::from_str(dir)), ..self }
    }

    /// Gives the process its own console window.
    pub fn new_console(self) -> (r: Command)
        ensures
            r@ == (CommandSpec { creation_flags: self@.creation_flags | CREATE_NEW_CONSOLE, ..self@ }),
    {
        let flags = self.creation_flags | CREATE_NEW_CONSOLE;
        Command { creation_flags: flags, ..self }
    }

    /// Runs the process without a console window.
    pub fn no_window(self) -> (r: Command)
        ensures
            r@ == (CommandSpec { creation_flags: self@.creation_flags | CREATE_NO_WINDOW, ..self@ }),
    {
        let flags = self.creation_flags | CREATE_NO_WINDOW;
        Command { creation_flags: flags, ..self }
    }

    /// Sets a variable of the process's environment; the process then gets
    /// only the variables set this way.
    pub fn env(self, key: &str, value: &str) -> (r: Command)
        ensures
            r@ == (CommandSpec {
                env: Some(
                    match self@.env {
                        Some(e) => e,
                        None => Seq::empty(),
                    }.push((key@, value@)),
                ),
                ..self@
            }),
    {
        let c = self;
        let mut entries: Vec<(String, String)> = match c.env {
            Some(e) => e,
            None => {
                let fresh: Vec<(String, String)> = Vec::new();
                proof {
                    assert(pair_texts(fresh@) =~= Seq::empty());
                }
                fresh
            },
        };
        let ghost before = entries@;
        entries.push((String::from_str(key), String::from_str(value)));
        proof {
            assert(pair_texts(entries@) =~= pair_texts(before).push((key@, value@)));
        }
        Command { env: Some(entries), ..c }
    }

    /// The creation flags as set.
    pub fn creation_flags(&self) -> (r: u32)
        ensures
            r == self@.creation_flags,
    {
        self.creation_flags
    }

    /// The working directory, if one is set.
    pub fn working_dir(&self) -> (r: Option<&str>)
        ensures
            match self@.current_dir {
                Some(d) => r is Some && r->0@ == d,
                None => r is None,
            },
    {
        match &self.current_dir {
            Some(d) => Some(d.as_str()),
            None => None,
        }
    }

    /// The command line passed to the new process.
    pub fn build_command_line(&self) -> (r: String)
        ensures
            r@ == command_line(self@.program, self@.args),
    {
        let mut out: Vec<char> = Vec::new();
        let program = quote_arg(self.program.as_str());
        push_chars(&mut out, program.as_str());
        let mut i: usize = 0;
        while i < self.args.len()
            invariant
                i <= self.args@.len(),
                out@ == quoted(self.program@) + quoted_args(texts(self.args@).subrange(0, i as int)),
            decreases self.args@.len() - i,
        {
            let quoted_arg = quote_arg(self.args[i].as_str());
            out.push(' ');
            push_chars(&mut out, quoted_arg.as_str());
            proof {
                let t = texts(self.args@);
                assert(t.subrange(0, i + 1).drop_last() =~= t.subrange(0, i as int));
                assert(t.subrange(0, i + 1).last() == self.args@[i as int]@);
                assert(out@ =~= quoted(self.program@) + quoted_args(t.subrange(0, i + 1)));
            }
            i = i + 1;
        }
        proof {
            assert(texts(self.args@).subrange(0, self.args@.len() as int) =~= texts(self.args@));
        }
        string_of_chars(out)
    }

    /// The environment block passed to the new process: each variable as
    /// `name=value` in UTF-16 with a terminator, then one more terminator;
    /// `None` when the caller's environment is inherited.
    pub fn build_env_block(&self) -> (r: Option<Vec<u16>>)
        ensures
            match self@.env {
                Some(e) => r is Some && r->0@ == env_block(e),
                None => r is None,
            },
    {
        match &self.env {
            None => None,
            Some(env) => {
                let mut block: Vec<u16> = Vec::new();
                let mut i: usize = 0;
                while i < env.len()
                    invariant
                        i <= env@.len(),
                        block@ == env_entries(pair_texts(env@).subrange(0, i as int)),
                    decreases env@.len() - i,
                {
                    let ghost before = block@;
                    let (key, value) = &env[i];
                    push_utf16(&mut block, key.as_str());
                    push_utf16(&mut block, "=");
                    push_utf16(&mut block, value.as_str());
                    block.push(0);
                    proof {
                        reveal_strlit("=");
                        let t = pair_texts(env@);
                        assert(t.subrange(0, i + 1).drop_last() =~= t.subrange(0, i as int));
                        assert(t.subrange(0, i + 1).last() == (key@, value@));
                        lemma_utf16_of_concat(key@, seq!['=']);
                        lemma_utf16_of_concat(key@ + seq!['='], value@);
                        assert("="@ =~= seq!['=']);
                        assert(block@ =~= env_entries(t.subrange(0, i + 1)));
                    }
                    i = i + 1;
                }
                block.push(0);
                proof {
                    assert(pair_texts(env@).subrange(0, env@.len() as int) =~= pair_texts(env@));
                }
                Some(block)
            },
        }
    }
}

} // verus!
