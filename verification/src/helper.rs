use vstd::prelude::*;
use crate::text::{chars_of, string_of, starts_with_lit, find_char, find_char_in, parse_unsigned, parse_unsigned_range, str_eq};

verus! {

/// The command line options and the database credentials.
pub struct CLI {
    pub debug: bool,
    pub srcdir: Option<String>,
    pub ifile: Option<String>,
    pub port: u16,
    pub url: Option<String>,
    pub user: String,
    pub password: Option<String>,
}

pub struct CliView {
    pub debug: bool,
    pub srcdir: Option<Seq<char>>,
    pub ifile: Option<Seq<char>>,
    pub port: u16,
    pub url: Option<Seq<char>>,
    pub user: Seq<char>,
    pub password: Option<Seq<char>>,
}

pub open spec fn opt_chars(o: Option<String>) -> Option<Seq<char>> {
    match o {
        Some(s) => Some(s@),
        None => None,
    }
}

impl View for CLI {
    type V = CliView;

    open spec fn view(&self) -> CliView {
        CliView {
            debug: self.debug,
            srcdir: opt_chars(self.srcdir),
            ifile: opt_chars(self.ifile),
            port: self.port,
            url: opt_chars(self.url),
            user: self.user@,
            password: opt_chars(self.password),
        }
    }
}

/// How reading the command line ended.
#[derive(Debug, Clone, Copy, PartialEq, Eq, Structural)]
pub enum ArgsOutcome {
    /// Every argument was taken.
    Parsed,
    /// An argument asked for help, or was not understood: print the help and exit.
    Help,
    /// A port argument did not read as a 16-bit unsigned number.
    BadPort,
}

/// The text after the first `=` of an argument.
pub open spec fn after_eq(a: Seq<char>) -> Seq<char> {
    a.skip(find_char(a, '=') + 1)
}

pub open spec fn starts(a: Seq<char>, p: Seq<char>) -> bool {
    a.len() >= p.len() && a.take(p.len() as int) == p
}

/// The options after one argument, or how reading stops at it.
pub open spec fn arg_step(c: CliView, a: Seq<char>) -> Result<CliView, ArgsOutcome> {
    if a == "-h"@ || a == "--help"@ || a == "-H"@ || a == "--Help"@ {
        Err(ArgsOutcome::Help)
    } else if a == "-d"@ || a == "--debug"@ || a == "-D"@ || a == "--Debug"@ {
        Ok(CliView { debug: true, ..c })
    } else if starts(a, "--src="@) || starts(a, "--SRC="@) {
        Ok(CliView { srcdir: Some(after_eq(a)), ..c })
    } else if starts(a, "--file="@) || starts(a, "--FILE="@) {
        Ok(CliView { ifile: Some(after_eq(a)), ..c })
    } else if starts(a, "--port="@) || starts(a, "-p="@) {
        match parse_unsigned(after_eq(a), u16::MAX as nat) {
            Some(p) => Ok(CliView { port: p as u16, ..c }),
            None => Err(ArgsOutcome::BadPort),
        }
    } else if starts(a, "--url="@) || starts(a, "-u="@) {
        Ok(CliView { url: Some(after_eq(a)), ..c })
    } else {
        Err(ArgsOutcome::Help)
    }
}

/// The options after the arguments, taken in order until one stops the reading.
pub open spec fn args_result(c: CliView, args: Seq<Seq<char>>) -> (CliView, ArgsOutcome)
    decreases args.len(),
{
    if args.len() == 0 {
        (c, ArgsOutcome::Parsed)
    } else {
        match arg_step(c, args[0]) {
            Ok(next) => args_result(next, args.skip(1)),
            Err(o) => (c, o),
        }
    }
}

/// The database user from the environment value, `root` where there is none.
pub open spec fn user_from_env(v: Option<Seq<char>>) -> Seq<char> {
    match v {
        Some(u) => u,
        None => "root"@,
    }
}

/// The database password from the environment value; an empty one is none.
pub open spec fn password_from_env(v: Option<Seq<char>>) -> Option<Seq<char>> {
    match v {
        Some(p) => if p.len() == 0 {
            None
        } else {
            Some(p)
        },
        None => None,
    }
}

fn copy_string(s: &String) -> (r: String)
    ensures
        r@ == s@,
{
    s.clone()
}

/// The text after the first `=`, for an argument that holds one.
fn text_after_eq(a: &Vec<char>) -> (r: Vec<char>)
    requires
        0 <= find_char(a@, '=') < a@.len(),
    ensures
        r@ == after_eq(a@),
{
    let i = match find_char_in(a, '=') {
        Some(i) => i,
        None => 0,
    };
    let n = a.len();
    assert(i < n);
    let mut r: Vec<char> = Vec::new();
    let mut k: usize = i + 1;
    while k < a.len()
        invariant
            i + 1 <= k <= a@.len(),
            i == find_char(a@, '='),
            r@ == a@.subrange(i + 1, k as int),
        decreases a.len() - k,
    {
        r.push(a[k]);
        k = k + 1;
        assert(r@ =~= a@.subrange(i + 1, k as int));
    }
    assert(r@ =~= after_eq(a@));
    r
}

impl CLI {
    /// No debugging, no directories or files, port 8080, no URL, user `root`, no
    /// password.
    pub fn new() -> (c: CLI)
        ensures
            c@ == (CliView {
                debug: false,
                srcdir: None,
                ifile: None,
                port: 8080,
                url: None,
                user: "root"@,
                password: None,
            }),
    {
        CLI {
            debug: false,
            srcdir: None,
            ifile: None,
            port: 8080,
            url: None,
            user: String::from_str("root"),
            password: None,
        }
    }

    /// Takes the database credentials from the environment values and then the
    /// arguments in order, up to the first that asks for help, is not understood, or
    /// gives a port that is not a 16-bit number.
    pub fn Parse_Args(&mut self, args: &Vec<String>, db_username: Option<String>, db_password: Option<String>) -> (o:
        ArgsOutcome)
        ensures
            (final(self)@, o) == args_result(
                CliView {
                    user: user_from_env(opt_chars(db_username)),
                    password: password_from_env(opt_chars(db_password)),
                    ..old(self)@
                },
                args@.map_values(|a: String| a@),
            ),
    {
        self.user = match db_username {
            Some(u) => u,
            None => String::from_str("root"),
        };
        self.password = match db_password {
            Some(p) => if p.as_str().is_empty() {
                None
            } else {
                Some(p)
            },
            None => None,
        };
        let ghost all = args@.map_values(|a: String| a@);
        let mut i: usize = 0;
        proof {
            assert(all.skip(0) =~= all);
        }
        while i < args.len()
            invariant
                i <= args@.len(),
                all == args@.map_values(|a: String| a@),
                args_result(
                    CliView {
                        user: user_from_env(opt_chars(db_username)),
                        password: password_from_env(opt_chars(db_password)),
                        ..old(self)@
                    },
                    all,
                ) == args_result(self@, all.skip(i as int)),
            decreases args.len() - i,
        {
            let a = chars_of(args[i].as_str());
            let ghost c = self@;
            proof {
                assert(all.skip(i as int)[0] == a@);
                assert(all.skip(i as int).skip(1) =~= all.skip(i + 1));
                reveal_strlit("-h");
                reveal_strlit("--help");
                reveal_strlit("-H");
                reveal_strlit("--Help");
                reveal_strlit("-d");
                reveal_strlit("--debug");
                reveal_strlit("-D");
                reveal_strlit("--Debug");
            }
            let s = args[i].as_str();
            if str_eq(s, "-h") || str_eq(s, "--help") || str_eq(s, "-H") || str_eq(s, "--Help") {
                return ArgsOutcome::Help;
            } else if str_eq(s, "-d") || str_eq(s, "--debug") || str_eq(s, "-D") || str_eq(s, "--Debug") {
                self.debug = true;
            } else if starts_with_lit(&a, "--src=") || starts_with_lit(&a, "--SRC=") {
                proof { reveal_strlit("--src="); reveal_strlit("--SRC="); lemma_eq_found(a@, "--src="@); lemma_eq_found(a@, "--SRC="@); }
                self.srcdir = Some(string_of(&text_after_eq(&a)));
            } else if starts_with_lit(&a, "--file=") || starts_with_lit(&a, "--FILE=") {
                proof { reveal_strlit("--file="); reveal_strlit("--FILE="); lemma_eq_found(a@, "--file="@); lemma_eq_found(a@, "--FILE="@); }
                self.ifile = Some(string_of(&text_after_eq(&a)));
            } else if starts_with_lit(&a, "--port=") || starts_with_lit(&a, "-p=") {
                proof { reveal_strlit("--port="); reveal_strlit("-p="); lemma_eq_found(a@, "--port="@); lemma_eq_found(a@, "-p="@); }
                let rest = text_after_eq(&a);
                match parse_unsigned_range(&rest, 0, rest.len(), 65535) {
                    Some(p) => {
                        proof {
                            assert(rest@.subrange(0, rest@.len() as int) =~= rest@);
                        }
                        self.port = p as u16;
                    },
                    None => {
                        proof {
                            assert(rest@.subrange(0, rest@.len() as int) =~= rest@);
                        }
                        return ArgsOutcome::BadPort;
                    },
                }
            } else if starts_with_lit(&a, "--url=") || starts_with_lit(&a, "-u=") {
                proof { reveal_strlit("--url="); reveal_strlit("-u="); lemma_eq_found(a@, "--url="@); lemma_eq_found(a@, "-u="@); }
                self.url = Some(string_of(&text_after_eq(&a)));
            } else {
                return ArgsOutcome::Help;
            }
            i = i + 1;
        }
        proof {
            assert(all.skip(i as int) =~= Seq::<Seq<char>>::empty());
        }
        ArgsOutcome::Parsed
    }
}

/// An argument that starts with a prefix ending in `=` holds an `=`.
proof fn lemma_eq_found(a: Seq<char>, p: Seq<char>)
    requires
        p.len() > 0,
        p.last() == '=',
    ensures
        starts(a, p) ==> 0 <= find_char(a, '=') < a.len(),
{
    if starts(a, p) {
        assert(a.take(p.len() as int)[p.len() - 1] == '=');
        lemma_find_char_at_most(a, '=', p.len() - 1);
    }
}

/// A char that occurs at `k` is first found at `k` or before.
proof fn lemma_find_char_at_most(s: Seq<char>, c: char, k: int)
    requires
        0 <= k < s.len(),
        s[k] == c,
    ensures
        0 <= find_char(s, c) <= k,
    decreases k,
{
    if s[0] != c {
        assert(s.skip(1)[k - 1] == c);
        lemma_find_char_at_most(s.skip(1), c, k - 1);
    }
}

} // verus!
