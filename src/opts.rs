//! Command-line options: what each argument selects, and the checks on the
//! whole set.

use crate::text::views;
use vstd::prelude::*;
use vstd::string::*;

verus! {

/// The options of one run.
pub struct Options {
    /// The refresh interval in seconds, as written (fractions allowed).
    pub time: Option<String>,
    /// The paths whose changes trigger a refresh.
    pub files: Vec<String>,
    pub size: bool,
    pub errexit: bool,
    pub diff: bool,
    pub never: bool,
    /// The file shown, if a file is shown.
    pub file: Option<String>,
    /// The command shown, its words joined by spaces, if a command is shown.
    pub cmd: Option<String>,
}

pub struct OptionsView {
    pub time: Option<Seq<char>>,
    pub files: Seq<Seq<char>>,
    pub size: bool,
    pub errexit: bool,
    pub diff: bool,
    pub never: bool,
    pub file: Option<Seq<char>>,
    pub cmd: Option<Seq<char>>,
}

pub open spec fn opt_text(o: Option<String>) -> Option<Seq<char>> {
    match o {
        Some(s) => Some(s@),
        None => None,
    }
}

impl View for Options {
    type V = OptionsView;

    open spec fn view(&self) -> OptionsView {
        OptionsView {
            time: opt_text(self.time),
            files: views(self.files@),
            size: self.size,
            errexit: self.errexit,
            diff: self.diff,
            never: self.never,
            file: opt_text(self.file),
            cmd: opt_text(self.cmd),
        }
    }
}

/// Why an argument list is refused.
pub enum OptError {
    /// The interval was given twice.
    TimeTwice,
    /// `-t` / `--time` ends the list.
    TimeValue,
    /// `-f` / `--file` ends the list.
    FileValue,
    /// `-d` / `--dir` ends the list.
    DirValue,
    /// An option that is not known (with or without a value).
    Unrecognized(String),
    /// Neither a file nor a command was given.
    NoTarget,
    /// `--never` together with an option that refreshes.
    NeverWithUpdates,
}

/// What an argument list asks for.
pub enum Parsed {
    Run(Options),
    Help,
    Version,
}

pub enum Outcome {
    Run(OptionsView),
    Help,
    Version,
    TimeTwice,
    TimeValue,
    FileValue,
    DirValue,
    Unrecognized(Seq<char>),
    NoTarget,
    NeverWithUpdates,
}

pub open spec fn outcome(r: Result<Parsed, OptError>) -> Outcome {
    match r {
        Ok(Parsed::Run(o)) => Outcome::Run(o@),
        Ok(Parsed::Help) => Outcome::Help,
        Ok(Parsed::Version) => Outcome::Version,
        Err(OptError::TimeTwice) => Outcome::TimeTwice,
        Err(OptError::TimeValue) => Outcome::TimeValue,
        Err(OptError::FileValue) => Outcome::FileValue,
        Err(OptError::DirValue) => Outcome::DirValue,
        Err(OptError::Unrecognized(a)) => Outcome::Unrecognized(a@),
        Err(OptError::NoTarget) => Outcome::NoTarget,
        Err(OptError::NeverWithUpdates) => Outcome::NeverWithUpdates,
    }
}

/// Words joined by single spaces.
pub open spec fn join(words: Seq<Seq<char>>) -> Seq<char>
    decreases words.len(),
{
    if words.len() == 0 {
        Seq::empty()
    } else if words.len() == 1 {
        words[0]
    } else {
        join(words.drop_last()) + seq![' '] + words.last()
    }
}

/// The index of the first `c` in `s` from `i` on, or -1.
pub open spec fn find_from(s: Seq<char>, c: char, i: int) -> int
    decreases s.len() - i,
{
    if i < 0 || i >= s.len() {
        -1
    } else if s[i] == c {
        i
    } else {
        find_from(s, c, i + 1)
    }
}

pub open spec fn is_option(a: Seq<char>) -> bool {
    a.len() > 0 && a[0] == '-'
}

/// Reads the arguments from index `i` on into `o`. Help and version end the
/// reading at once; `--` takes the rest as the command; the first argument
/// that is not an option is the file; an option that is not known is
/// refused.
pub open spec fn scan(args: Seq<Seq<char>>, i: int, o: OptionsView) -> Outcome
    decreases args.len() - i,
{
    if i < 0 || i >= args.len() {
        Outcome::Run(o)
    } else {
        let a = args[i];
        let eq = find_from(a, '=', 0);
        if a == "-h"@ || a == "--help"@ {
            Outcome::Help
        } else if a == "--version"@ {
            Outcome::Version
        } else if a == "-0"@ || a == "--never"@ {
            scan(args, i + 1, OptionsView { never: true, ..o })
        } else if a == "-t"@ || a == "--time"@ {
            if o.time is Some {
                Outcome::TimeTwice
            } else if i + 1 < args.len() {
                scan(args, i + 2, OptionsView { time: Some(args[i + 1]), ..o })
            } else {
                Outcome::TimeValue
            }
        } else if a == "-f"@ || a == "--file"@ {
            if i + 1 < args.len() {
                scan(args, i + 2, OptionsView { files: o.files.push(args[i + 1]), ..o })
            } else {
                Outcome::FileValue
            }
        } else if a == "-d"@ || a == "--dir"@ {
            if i + 1 < args.len() {
                scan(args, i + 2, OptionsView { files: o.files.push(args[i + 1]), ..o })
            } else {
                Outcome::DirValue
            }
        } else if a == "-s"@ || a == "--size"@ {
            scan(args, i + 1, OptionsView { size: true, ..o })
        } else if a == "-e"@ || a == "--errexit"@ {
            scan(args, i + 1, OptionsView { errexit: true, ..o })
        } else if a == "--diff"@ {
            scan(args, i + 1, OptionsView { diff: true, ..o })
        } else if a == "--"@ {
            Outcome::Run(
                OptionsView { cmd: Some(join(args.subrange(i + 1, args.len() as int))), ..o },
            )
        } else if !is_option(a) {
            Outcome::Run(OptionsView { file: Some(a), ..o })
        } else if eq >= 0 {
            let key = a.subrange(0, eq);
            let val = a.subrange(eq + 1, a.len() as int);
            if key == "--time"@ {
                if o.time is Some {
                    Outcome::TimeTwice
                } else {
                    scan(args, i + 1, OptionsView { time: Some(val), ..o })
                }
            } else if key == "--file"@ || key == "--dir"@ {
                scan(args, i + 1, OptionsView { files: o.files.push(val), ..o })
            } else {
                Outcome::Unrecognized(a)
            }
        } else if a.len() >= 2 && a[1] == 't' {
            if o.time is Some {
                Outcome::TimeTwice
            } else {
                scan(args, i + 1, OptionsView { time: Some(a.subrange(2, a.len() as int)), ..o })
            }
        } else {
            Outcome::Unrecognized(a)
        }
    }
}

/// The checks on the whole set: a file or a command is given, `--never`
/// stands alone; a file shown is also watched unless `--never` is set.
pub open spec fn finish(r: Outcome) -> Outcome {
    match r {
        Outcome::Run(o) => if o.cmd is None && o.file is None {
            Outcome::NoTarget
        } else if o.never && (o.files.len() > 0 || o.size || o.time is Some) {
            Outcome::NeverWithUpdates
        } else if o.file is Some && !o.never {
            Outcome::Run(OptionsView { files: o.files.push(o.file.unwrap()), ..o })
        } else {
            Outcome::Run(o)
        },
        other => other,
    }
}

pub open spec fn no_options() -> OptionsView {
    OptionsView {
        time: None,
        files: Seq::empty(),
        size: false,
        errexit: false,
        diff: false,
        never: false,
        file: None,
        cmd: None,
    }
}

/// What the argument list `args` (without the program's name) asks for.
pub open spec fn parse_spec(args: Seq<Seq<char>>) -> Outcome {
    finish(scan(args, 0, no_options()))
}

/// Whether two texts are equal.
fn text_is(a: &str, b: &str) -> (r: bool)
    ensures
        r == (a@ == b@),
{
    let n = a.unicode_len();
    if n != b.unicode_len() {
        return false;
    }
    let mut i: usize = 0;
    while i < n
        invariant
            n == a@.len() == b@.len(),
            i <= n,
            a@.subrange(0, i as int) == b@.subrange(0, i as int),
        decreases n - i,
    {
        if a.get_char(i) != b.get_char(i) {
            assert(a@[i as int] != b@[i as int]);
            return false;
        }
        i = i + 1;
        assert(a@.subrange(0, i as int) =~= a@.subrange(0, i - 1).push(a@[i - 1]));
        assert(b@.subrange(0, i as int) =~= b@.subrange(0, i - 1).push(b@[i - 1]));
    }
    assert(a@ =~= a@.subrange(0, n as int));
    assert(b@ =~= b@.subrange(0, n as int));
    true
}

/// The index of the first `=` in `a`.
fn find_eq(a: &str) -> (r: Option<usize>)
    ensures
        r matches Some(k) ==> k == find_from(a@, '=', 0) && k < a@.len(),
        r is None ==> find_from(a@, '=', 0) == -1,
{
    let n = a.unicode_len();
    let mut i: usize = 0;
    while i < n
        invariant
            n == a@.len(),
            i <= n,
            find_from(a@, '=', 0) == find_from(a@, '=', i as int),
        decreases n - i,
    {
        if a.get_char(i) == '=' {
            return Some(i);
        }
        i = i + 1;
    }
    None
}

/// The arguments from `from` on, joined by spaces.
fn join_from(args: &Vec<String>, from: usize) -> (r: String)
    requires
        from <= args@.len(),
    ensures
        r@ == join(views(args@).subrange(from as int, args@.len() as int)),
{
    let ghost w = views(args@);
    let mut r = String::new();
    let mut i: usize = from;
    proof {
        assert(w.subrange(from as int, from as int) =~= Seq::<Seq<char>>::empty());
    }
    while i < args.len()
        invariant
            from <= i <= args@.len(),
            w == views(args@),
            r@ == join(w.subrange(from as int, i as int)),
        decreases args@.len() - i,
    {
        proof {
            assert(w.subrange(from as int, i + 1).drop_last() =~= w.subrange(from as int, i as int));
            assert(w[i as int] == args@[i as int]@);
        }
        if i > from {
            proof {
                reveal_strlit(" ");
            }
            r.append(" ");
        } else {
            assert(r@ =~= Seq::<char>::empty());
        }
        r.append(args[i].as_str());
        i = i + 1;
        proof {
            if i - 1 == from {
                assert(r@ =~= w.subrange(from as int, i as int)[0]);
            }
        }
    }
    r
}

/// The checks on the whole set, on options read to the end.
fn finish_opts(o: Options) -> (r: Result<Parsed, OptError>)
    ensures
        outcome(r) == finish(Outcome::Run(o@)),
{
    let mut o = o;
    if o.cmd.is_none() && o.file.is_none() {
        return Err(OptError::NoTarget);
    }
    if o.never && (o.files.len() > 0 || o.size || o.time.is_some()) {
        return Err(OptError::NeverWithUpdates);
    }
    if !o.never {
        match &o.file {
            Some(f) => {
                let f = f.clone();
                let ghost before = o@;
                o.files.push(f);
                assert(o@.files =~= before.files.push(before.file.unwrap()));
            },
            None => {},
        }
    }
    Ok(Parsed::Run(o))
}

/// Reads an argument list (without the program's name).
pub fn parse_opts(args: &Vec<String>) -> (r: Result<Parsed, OptError>)
    ensures
        outcome(r) == parse_spec(views(args@)),
{
    let ghost w = views(args@);
    let mut o = Options {
        time: None,
        files: Vec::new(),
        size: false,
        errexit: false,
        diff: false,
        never: false,
        file: None,
        cmd: None,
    };
    assert(o@.files =~= Seq::<Seq<char>>::empty());
    assert(o@ == no_options());
    let n = args.len();
    let mut i: usize = 0;
    while i < n
        invariant
            n == args@.len() == w.len(),
            w == views(args@),
            i <= n,
            scan(w, 0, no_options()) == scan(w, i as int, o@),
        decreases n - i,
    {
        let a = args[i].as_str();
        assert(a@ == w[i as int]);
        let more = i + 1 < n;
        if text_is(a, "-h") || text_is(a, "--help") {
            return Ok(Parsed::Help);
        } else if text_is(a, "--version") {
            return Ok(Parsed::Version);
        } else if text_is(a, "-0") || text_is(a, "--never") {
            o.never = true;
            i = i + 1;
        } else if text_is(a, "-t") || text_is(a, "--time") {
            if o.time.is_some() {
                return Err(OptError::TimeTwice);
            }
            if !more {
                return Err(OptError::TimeValue);
            }
            assert(args@[i + 1]@ == w[i + 1]);
            o.time = Some(args[i + 1].clone());
            i = i + 2;
        } else if text_is(a, "-f") || text_is(a, "--file") || text_is(a, "-d") || text_is(a, "--dir") {
            if !more {
                if text_is(a, "-f") || text_is(a, "--file") {
                    return Err(OptError::FileValue);
                } else {
                    return Err(OptError::DirValue);
                }
            }
            let ghost before = o@;
            o.files.push(args[i + 1].clone());
            assert(o@.files =~= before.files.push(w[i + 1]));
            i = i + 2;
        } else if text_is(a, "-s") || text_is(a, "--size") {
            o.size = true;
            i = i + 1;
        } else if text_is(a, "-e") || text_is(a, "--errexit") {
            o.errexit = true;
            i = i + 1;
        } else if text_is(a, "--diff") {
            o.diff = true;
            i = i + 1;
        } else if text_is(a, "--") {
            o.cmd = Some(join_from(args, i + 1));
            return finish_opts(o);
        } else if a.unicode_len() == 0 || a.get_char(0) != '-' {
            o.file = Some(args[i].clone());
            return finish_opts(o);
        } else {
            match find_eq(a) {
                Some(k) => {
                    let key = a.substring_char(0, k);
                    let val = a.substring_char(k + 1, a.unicode_len());
                    if text_is(key, "--time") {
                        if o.time.is_some() {
                            return Err(OptError::TimeTwice);
                        }
                        o.time = Some(String::from_str(val));
                    } else if text_is(key, "--file") || text_is(key, "--dir") {
                        let ghost before = o@;
                        o.files.push(String::from_str(val));
                        assert(o@.files =~= before.files.push(val@));
                    } else {
                        return Err(OptError::Unrecognized(args[i].clone()));
                    }
                },
                None => {
                    if a.unicode_len() >= 2 && a.get_char(1) == 't' {
                        if o.time.is_some() {
                            return Err(OptError::TimeTwice);
                        }
                        o.time = Some(String::from_str(a.substring_char(2, a.unicode_len())));
                    } else {
                        return Err(OptError::Unrecognized(args[i].clone()));
                    }
                },
            }
            i = i + 1;
        }
    }
    finish_opts(o)
}

} // verus!
