//! Command-line options and the upload address built from them.
use vstd::prelude::*;

verus! {

/// The service used when no `--target` is given.
pub const DEFAULT_TARGET: &'static str = "https://jitstreamer.com";

/// What a dash look-alike stands for: an em dash is the double hyphen that
/// some terminals and editors merge into one character, an en dash a single
/// hyphen.
pub open spec fn dash_piece(c: char) -> Seq<char> {
    if c == '\u{2014}' {
        seq!['-', '-']
    } else if c == '\u{2013}' {
        seq!['-']
    } else {
        seq![c]
    }
}

/// `s` with every em dash replaced by two hyphens and every en dash by one.
pub open spec fn normalized(s: Seq<char>) -> Seq<char>
    decreases s.len(),
{
    if s.len() == 0 {
        Seq::empty()
    } else {
        normalized(s.drop_last()) + dash_piece(s.last())
    }
}

/// Replaces every em dash in `arg` with two hyphens and every en dash with
/// one, so that `\u{2014}target` reads as `--target`.
pub fn normalize_arg(arg: &str) -> (r: String)
    ensures
        r@ == normalized(arg@),
{
    let one = "-";
    let two = "--";
    proof {
        reveal_strlit("-");
        reveal_strlit("--");
    }
    let n = arg.unicode_len();
    let mut r = String::new();
    let mut i: usize = 0;
    while i < n
        invariant
            n == arg@.len(),
            i <= n,
            one@ == seq!['-'],
            two@ == seq!['-', '-'],
            r@ == normalized(arg@.subrange(0, i as int)),
        decreases n - i,
    {
        let c = arg.get_char(i);
        if c == '\u{2014}' {
            r.append(two);
        } else if c == '\u{2013}' {
            r.append(one);
        } else {
            r.append(arg.substring_char(i, i + 1));
        }
        assert(arg@.subrange(0, i + 1).drop_last() =~= arg@.subrange(0, i as int));
        i = i + 1;
    }
    assert(arg@.subrange(0, n as int) =~= arg@);
    r
}

/// Normalizes every argument.
pub fn normalize_args(args: &Vec<String>) -> (r: Vec<String>)
    ensures
        r.len() == args.len(),
        forall|i: int| 0 <= i < args.len() ==> #[trigger] r@[i]@ == normalized(args@[i]@),
{
    let mut r: Vec<String> = Vec::new();
    let mut i: usize = 0;
    while i < args.len()
        invariant
            i <= args.len(),
            r.len() == i,
            forall|j: int| 0 <= j < i ==> #[trigger] r@[j]@ == normalized(args@[j]@),
        decreases args.len() - i,
    {
        r.push(normalize_arg(args[i].as_str()));
        i = i + 1;
    }
    r
}

/// The options that the command line sets.
#[derive(Clone, Debug)]
pub struct CliOptions {
    /// Base address of the pairing service.
    pub target: String,
    /// A help flag was given: print the usage and stop.
    pub help: bool,
    /// An about flag was given before any help flag.
    pub about: bool,
    /// A version flag was given before any help flag.
    pub version: bool,
}

/// The views of the arguments.
pub open spec fn arg_views(args: Seq<String>) -> Seq<Seq<char>> {
    args.map_values(|a: String| a@)
}

pub open spec fn is_target_flag(a: Seq<char>) -> bool {
    a == "--target"@ || a == "-t"@
}

pub open spec fn is_help_flag(a: Seq<char>) -> bool {
    a == "--help"@ || a == "-h"@
}

pub open spec fn is_about_flag(a: Seq<char>) -> bool {
    a == "--about"@ || a == "-a"@
}

pub open spec fn is_version_flag(a: Seq<char>) -> bool {
    a == "--version"@ || a == "-v"@
}

/// Index of the first help flag at or after `from`, or the length when there
/// is none: arguments from there on are not read.
pub open spec fn first_help(args: Seq<Seq<char>>, from: int) -> int
    decreases args.len() - from,
{
    if from >= args.len() {
        args.len() as int
    } else if is_help_flag(args[from]) {
        from
    } else {
        first_help(args, from + 1)
    }
}

/// The target that the first `n` arguments select: the value after the last
/// target flag among them that has a value, else `dflt`.
pub open spec fn target_upto(args: Seq<Seq<char>>, n: int, dflt: Seq<char>) -> Seq<char>
    decreases n,
{
    if n <= 0 {
        dflt
    } else if is_target_flag(args[n - 1]) && n < args.len() {
        args[n]
    } else {
        target_upto(args, n - 1, dflt)
    }
}

/// Reads the options from `args`, the program name first. Flags are read in
/// order up to the first help flag; a target flag takes the next argument as
/// its value, the last one read wins, and one without a value is ignored.
pub fn parse_args(args: &Vec<String>) -> (r: CliOptions)
    ensures
        ({
            let av = arg_views(args@);
            let stop = first_help(av, 0);
            &&& r.help == (stop < av.len())
            &&& r.about == exists|j: int| 0 <= j < stop && #[trigger] is_about_flag(av[j])
            &&& r.version == exists|j: int| 0 <= j < stop && #[trigger] is_version_flag(av[j])
            &&& r.target@ == target_upto(av, stop, DEFAULT_TARGET@)
        }),
{
    let ghost av = arg_views(args@);
    let target_long = String::from_str("--target");
    let target_short = String::from_str("-t");
    let help_long = String::from_str("--help");
    let help_short = String::from_str("-h");
    let about_long = String::from_str("--about");
    let about_short = String::from_str("-a");
    let version_long = String::from_str("--version");
    let version_short = String::from_str("-v");
    let mut target = String::from_str(DEFAULT_TARGET);
    let mut about = false;
    let mut version = false;
    let mut i: usize = 0;
    while i < args.len()
        invariant
            av == arg_views(args@),
            i <= args.len(),
            target_long@ == "--target"@,
            target_short@ == "-t"@,
            help_long@ == "--help"@,
            help_short@ == "-h"@,
            about_long@ == "--about"@,
            about_short@ == "-a"@,
            version_long@ == "--version"@,
            version_short@ == "-v"@,
            first_help(av, 0) == first_help(av, i as int),
            target@ == target_upto(av, i as int, DEFAULT_TARGET@),
            about == exists|j: int| 0 <= j < i && #[trigger] is_about_flag(av[j]),
            version == exists|j: int| 0 <= j < i && #[trigger] is_version_flag(av[j]),
        decreases args.len() - i,
    {
        let a = &args[i];
        assert(a@ == av[i as int]);
        if (*a == target_long || *a == target_short) && i + 1 < args.len() {
            target = args[i + 1].clone();
        }
        if *a == help_long || *a == help_short {
            proof {
                reveal_strlit("--help");
                reveal_strlit("-h");
                reveal_strlit("--target");
                reveal_strlit("-t");
            }
            assert("--help"@.len() != "--target"@.len());
            assert("--help"@.len() != "-t"@.len());
            assert("-h"@.len() != "--target"@.len());
            assert("-h"@[1] != "-t"@[1]);
            assert(!is_target_flag(av[i as int]));
            return CliOptions { target, help: true, about, version };
        }
        if *a == about_long || *a == about_short {
            about = true;
        }
        if *a == version_long || *a == version_short {
            version = true;
        }
        proof {
            if is_about_flag(av[i as int]) {
                assert(0 <= i < i + 1 && is_about_flag(av[i as int]));
            }
            if is_version_flag(av[i as int]) {
                assert(0 <= i < i + 1 && is_version_flag(av[i as int]));
            }
        }
        i = i + 1;
    }
    CliOptions { target, help: false, about, version }
}

/// The address that a pairing record is posted to.
pub open spec fn upload_address(target: Seq<char>, code: Seq<char>) -> Seq<char> {
    target + "/potential_follow_up/"@ + code + seq!['/']
}

/// Builds `{target}/potential_follow_up/{code}/`.
pub fn upload_url(target: &str, code: &str) -> (r: String)
    ensures
        r@ == upload_address(target@, code@),
{
    proof {
        reveal_strlit("/");
    }
    let mut r = String::from_str(target);
    r.append("/potential_follow_up/");
    r.append(code);
    r.append("/");
    r
}

proof fn no_help_from(args: Seq<Seq<char>>, k: int)
    requires
        0 <= k <= args.len(),
        forall|j: int| 0 <= j < args.len() ==> !#[trigger] is_help_flag(args[j]),
    ensures
        first_help(args, k) == args.len(),
    decreases args.len() - k,
{
    if k < args.len() {
        no_help_from(args, k + 1);
    }
}

proof fn last_target_from(args: Seq<Seq<char>>, i: int, n: int)
    requires
        0 <= i,
        i + 1 <= n <= args.len(),
        i + 1 < args.len(),
        is_target_flag(args[i]),
        forall|j: int| i < j < args.len() ==> !#[trigger] is_target_flag(args[j]),
    ensures
        target_upto(args, n, DEFAULT_TARGET@) == args[i + 1],
    decreases n,
{
    if n > i + 1 {
        last_target_from(args, i, n - 1);
    }
}

/// A target flag with a value, with no later target flag and no help flag,
/// replaces the default service address: the upload address is built on the
/// flag's value.
pub proof fn target_flag_sets_upload_base(args: Seq<Seq<char>>, i: int, code: Seq<char>)
    requires
        0 <= i,
        i + 1 < args.len(),
        is_target_flag(args[i]),
        forall|j: int| i < j < args.len() ==> !#[trigger] is_target_flag(args[j]),
        forall|j: int| 0 <= j < args.len() ==> !#[trigger] is_help_flag(args[j]),
    ensures
        first_help(args, 0) == args.len(),
        target_upto(args, first_help(args, 0), DEFAULT_TARGET@) == args[i + 1],
        upload_address(target_upto(args, first_help(args, 0), DEFAULT_TARGET@), code)
            == args[i + 1] + "/potential_follow_up/"@ + code + seq!['/'],
{
    no_help_from(args, 0);
    last_target_from(args, i, args.len() as int);
}

} // verus!
