//! The toolchain command line, built from the options of a run.
use vstd::prelude::*;
use crate::color::{coloring_name, Coloring};
use crate::text::{has_whitespace, is_whitespace, texts};

verus! {

/// The options of one run.
#[derive(Clone, Debug)]
pub struct Args {
    /// Build the test profile.
    pub tests: bool,
    /// Expand the named integration test.
    pub test: Option<String>,
    pub release: bool,
    /// Space- or comma-separated features to activate.
    pub features: Option<String>,
    pub all_features: bool,
    pub no_default_features: bool,
    /// Expand the library target.
    pub lib: bool,
    pub bin: Option<String>,
    pub example: Option<String>,
    pub bench: Option<String>,
    /// Target triple.
    pub target: Option<String>,
    pub target_dir: Option<String>,
    pub manifest_path: Option<String>,
    pub package: Option<String>,
    /// Number of parallel jobs.
    pub jobs: Option<u64>,
    pub verbose: bool,
    /// Explicit color policy.
    pub color: Option<Coloring>,
    pub frozen: bool,
    pub locked: bool,
    /// Flags handed on as `-Z <flag>`.
    pub unstable_flags: Vec<String>,
    /// Path segments of the single item to show.
    pub item: Option<Vec<String>>,
    /// Highlighting theme.
    pub theme: Option<String>,
    /// Skip reformatting.
    pub ugly: bool,
    /// List the available themes and stop.
    pub themes: bool,
}

/// A program and its arguments.
pub struct Line {
    pub bin: String,
    pub args: Vec<String>,
}

impl View for Line {
    type V = (Seq<char>, Seq<Seq<char>>);

    open spec fn view(&self) -> Self::V {
        (self.bin@, texts(self.args@))
    }
}

impl Line {
    /// A line that runs `bin` with no arguments.
    pub fn new(bin: &str) -> (r: Line)
        ensures
            r@ == (bin@, Seq::<Seq<char>>::empty()),
    {
        let r = Line { bin: String::from_str(bin), args: Vec::new() };
        assert(texts(r.args@) =~= Seq::<Seq<char>>::empty());
        r
    }

    /// Appends one argument.
    pub fn arg(&mut self, a: &str)
        ensures
            final(self)@ == (old(self)@.0, old(self)@.1 + seq![a@]),
    {
        self.args.push(String::from_str(a));
        assert(texts(self.args@) =~= texts(old(self).args@) + seq![a@]);
    }

    /// Places an argument before the one at `index`.
    pub fn insert(&mut self, index: usize, a: &str)
        requires
            index <= old(self).args.len(),
        ensures
            final(self)@ == (old(self)@.0, old(self)@.1.insert(index as int, a@)),
    {
        self.args.insert(index, String::from_str(a));
        assert(texts(self.args@) =~= texts(old(self).args@).insert(index as int, a@));
    }

    /// The command as it is shown to the user.
    pub fn render(&self) -> (r: String)
        ensures
            r@ == shown_line(self@.0, self@.1),
    {
        let mut r = self.bin.clone();
        let mut i: usize = 0;
        while i < self.args.len()
            invariant
                i <= self.args.len(),
                r@ == shown_line(self@.0, self@.1.take(i as int)),
            decreases self.args.len() - i,
        {
            let ghost t = self@.1.take(i + 1);
            assert(t.drop_last() =~= self@.1.take(i as int));
            assert(t.last() == self.args@[i as int]@);
            let a = self.args[i].as_str();
            r.append(" ");
            proof {
                reveal_strlit(" ");
                reveal_strlit("'");
            }
            if !has_whitespace(a) {
                r.append(a);
            } else {
                r.append("'");
                r.append(a);
                r.append("'");
            }
            assert(r@ =~= shown_line(self@.0, t));
            i = i + 1;
        }
        assert(self@.1.take(self.args.len() as int) =~= self@.1);
        r
    }
}

/// An argument as it is shown: wrapped in single quotes where it holds
/// whitespace.
pub open spec fn shown_arg(a: Seq<char>) -> Seq<char> {
    if exists|i: int| 0 <= i < a.len() && is_whitespace(#[trigger] a[i]) {
        seq!['\''] + a + seq!['\'']
    } else {
        a
    }
}

/// A command line as it is shown: the program, then each argument after a
/// space.
pub open spec fn shown_line(bin: Seq<char>, args: Seq<Seq<char>>) -> Seq<char>
    decreases args.len(),
{
    if args.len() == 0 {
        bin
    } else {
        shown_line(bin, args.drop_last()) + seq![' '] + shown_arg(args.last())
    }
}

/// The text of an optional string.
pub open spec fn opt_text(v: Option<String>) -> Option<Seq<char>> {
    match v {
        Some(s) => Some(s@),
        None => None,
    }
}

/// `flag` where it is switched on, else nothing.
pub open spec fn flag_if(on: bool, flag: Seq<char>) -> Seq<Seq<char>> {
    if on {
        seq![flag]
    } else {
        Seq::empty()
    }
}

/// `flag` followed by the value, where there is a value.
pub open spec fn valued(flag: Seq<char>, v: Option<Seq<char>>) -> Seq<Seq<char>> {
    match v {
        Some(x) => seq![flag, x],
        None => Seq::empty(),
    }
}

/// The decimal digit `d`.
pub open spec fn digit(d: nat) -> char {
    if d == 0 { '0' } else if d == 1 { '1' } else if d == 2 { '2' } else if d == 3 { '3' }
    else if d == 4 { '4' } else if d == 5 { '5' } else if d == 6 { '6' } else if d == 7 { '7' }
    else if d == 8 { '8' } else { '9' }
}

/// `n` written in decimal, without leading zeros.
pub open spec fn decimal(n: nat) -> Seq<char>
    decreases n,
{
    if n < 10 {
        seq![digit(n)]
    } else {
        decimal(n / 10).push(digit(n % 10))
    }
}

/// `-Z` before each unstable flag.
pub open spec fn unstable_args(flags: Seq<Seq<char>>) -> Seq<Seq<char>>
    decreases flags.len(),
{
    if flags.len() == 0 {
        Seq::empty()
    } else {
        unstable_args(flags.drop_last()) + seq!["-Z"@, flags.last()]
    }
}

/// The value of `--color`: under `Auto`, whether the diagnostic stream can
/// take color decides.
pub open spec fn color_value(color: Coloring, stderr_takes_color: bool) -> Seq<char> {
    match color {
        Coloring::Auto => if stderr_takes_color { "always"@ } else { "never"@ },
        _ => coloring_name(color),
    }
}

/// `base` followed by the profile and the choice of target.
pub open spec fn with_selection(base: Seq<Seq<char>>, a: Args) -> Seq<Seq<char>> {
    base
        + seq![if a.tests && a.test is None { "--profile=test"@ } else { "--profile=check"@ }]
        + flag_if(a.release, "--release"@)
        + valued("--features"@, opt_text(a.features))
        + flag_if(a.all_features, "--all-features"@)
        + flag_if(a.no_default_features, "--no-default-features"@)
        + flag_if(a.lib, "--lib"@)
        + valued("--bin"@, opt_text(a.bin))
        + valued("--example"@, opt_text(a.example))
        + valued("--test"@, opt_text(a.test))
        + valued("--bench"@, opt_text(a.bench))
}

/// `base` followed by where and how the build runs.
pub open spec fn with_location(base: Seq<Seq<char>>, a: Args) -> Seq<Seq<char>> {
    base
        + valued("--target"@, opt_text(a.target))
        + valued("--target-dir"@, opt_text(a.target_dir))
        + valued("--manifest-path"@, opt_text(a.manifest_path))
        + valued("--package"@, opt_text(a.package))
        + valued("--jobs"@, match a.jobs {
            Some(j) => Some(decimal(j as nat)),
            None => None,
        })
        + flag_if(a.verbose, "--verbose"@)
}

/// `base` followed by the color choice and the lock-file flags.
pub open spec fn with_policy(
    base: Seq<Seq<char>>,
    a: Args,
    color: Coloring,
    stderr_takes_color: bool,
) -> Seq<Seq<char>> {
    base
        + seq!["--color"@, color_value(color, stderr_takes_color)]
        + flag_if(a.frozen, "--frozen"@)
        + flag_if(a.locked, "--locked"@)
}

/// The arguments that follow the program name, in their fixed order.
pub open spec fn rustc_args(
    a: Args,
    color: Coloring,
    stderr_takes_color: bool,
    outfile: Seq<char>,
) -> Seq<Seq<char>> {
    with_policy(with_location(with_selection(seq!["rustc"@], a), a), a, color, stderr_takes_color)
        + unstable_args(texts(a.unstable_flags@))
        + seq!["--"@, "-o"@, outfile, "-Zunpretty=expanded"@]
}

/// `line` is the toolchain command for these inputs.
pub open spec fn is_command_for(
    line: (Seq<char>, Seq<Seq<char>>),
    a: Args,
    color: Coloring,
    stderr_takes_color: bool,
    outfile: Seq<char>,
) -> bool {
    line == ("cargo"@, rustc_args(a, color, stderr_takes_color, outfile))
}

fn digit_str(d: u64) -> (r: &'static str)
    requires
        d < 10,
    ensures
        r@ == seq![digit(d as nat)],
{
    proof {
        reveal_strlit("0");
        reveal_strlit("1");
        reveal_strlit("2");
        reveal_strlit("3");
        reveal_strlit("4");
        reveal_strlit("5");
        reveal_strlit("6");
        reveal_strlit("7");
        reveal_strlit("8");
        reveal_strlit("9");
    }
    let r = match d {
        0 => "0",
        1 => "1",
        2 => "2",
        3 => "3",
        4 => "4",
        5 => "5",
        6 => "6",
        7 => "7",
        8 => "8",
        _ => "9",
    };
    assert(r@ =~= seq![digit(d as nat)]);
    r
}

/// `n` in decimal.
pub fn decimal_string(n: u64) -> (r: String)
    ensures
        r@ == decimal(n as nat),
    decreases n,
{
    if n < 10 {
        String::from_str(digit_str(n))
    } else {
        let mut s = decimal_string(n / 10);
        s.append(digit_str(n % 10));
        assert(s@ =~= decimal((n / 10) as nat).push(digit((n % 10) as nat)));
        s
    }
}

fn push_flag(line: &mut Line, on: bool, flag: &str)
    ensures
        final(line)@ == (old(line)@.0, old(line)@.1 + flag_if(on, flag@)),
{
    if on {
        line.arg(flag);
    } else {
        assert(old(line)@.1 + flag_if(on, flag@) =~= old(line)@.1);
    }
}

fn push_valued(line: &mut Line, flag: &str, v: &Option<String>)
    ensures
        final(line)@ == (old(line)@.0, old(line)@.1 + valued(flag@, opt_text(*v))),
{
    match v {
        Some(x) => {
            line.arg(flag);
            line.arg(x.as_str());
            assert(old(line)@.1 + seq![flag@] + seq![x@] =~= old(line)@.1 + seq![flag@, x@]);
        },
        None => {
            assert(old(line)@.1 + valued(flag@, opt_text(*v)) =~= old(line)@.1);
        },
    }
}

fn push_selection(line: &mut Line, args: &Args)
    ensures
        final(line)@ == (old(line)@.0, with_selection(old(line)@.1, *args)),
{
    if args.tests && args.test.is_none() {
        line.arg("--profile=test");
    } else {
        line.arg("--profile=check");
    }
    push_flag(line, args.release, "--release");
    push_valued(line, "--features", &args.features);
    push_flag(line, args.all_features, "--all-features");
    push_flag(line, args.no_default_features, "--no-default-features");
    push_flag(line, args.lib, "--lib");
    push_valued(line, "--bin", &args.bin);
    push_valued(line, "--example", &args.example);
    push_valued(line, "--test", &args.test);
    push_valued(line, "--bench", &args.bench);
}

fn push_location(line: &mut Line, args: &Args)
    ensures
        final(line)@ == (old(line)@.0, with_location(old(line)@.1, *args)),
{
    push_valued(line, "--target", &args.target);
    push_valued(line, "--target-dir", &args.target_dir);
    push_valued(line, "--manifest-path", &args.manifest_path);
    push_valued(line, "--package", &args.package);
    let jobs: Option<String> = match args.jobs {
        Some(j) => Some(decimal_string(j)),
        None => None,
    };
    push_valued(line, "--jobs", &jobs);
    push_flag(line, args.verbose, "--verbose");
}

fn push_policy(line: &mut Line, args: &Args, color: Coloring, stderr_takes_color: bool)
    ensures
        final(line)@ == (old(line)@.0, with_policy(old(line)@.1, *args, color, stderr_takes_color)),
{
    let ghost head = line@.1;
    line.arg("--color");
    match color {
        Coloring::Auto => line.arg(if stderr_takes_color { "always" } else { "never" }),
        _ => line.arg(color.as_str()),
    }
    assert(line@.1 =~= head + seq!["--color"@, color_value(color, stderr_takes_color)]);
    push_flag(line, args.frozen, "--frozen");
    push_flag(line, args.locked, "--locked");
}

/// The toolchain command that writes the expansion to `outfile`.
/// `stderr_takes_color` is whether the diagnostic stream would show color, as
/// the platform and terminal decide; it settles `--color` under `Auto`.
pub fn apply_args(args: &Args, color: Coloring, stderr_takes_color: bool, outfile: &str) -> (line: Line)
    ensures
        is_command_for(line@, *args, color, stderr_takes_color, outfile@),
{
    let mut line = Line::new("cargo");
    line.arg("rustc");
    assert(line@.1 =~= seq!["rustc"@]);
    push_selection(&mut line, args);
    push_location(&mut line, args);
    push_policy(&mut line, args, color, stderr_takes_color);
    let ghost before = line@.1;
    let mut i: usize = 0;
    while i < args.unstable_flags.len()
        invariant
            i <= args.unstable_flags.len(),
            line@ == ("cargo"@, before + unstable_args(texts(args.unstable_flags@).take(i as int))),
        decreases args.unstable_flags.len() - i,
    {
        let ghost fs = texts(args.unstable_flags@).take(i + 1);
        assert(fs.drop_last() =~= texts(args.unstable_flags@).take(i as int));
        line.arg("-Z");
        line.arg(args.unstable_flags[i].as_str());
        assert(line@.1 =~= before + unstable_args(fs));
        i = i + 1;
    }
    assert(texts(args.unstable_flags@).take(i as int) =~= texts(args.unstable_flags@));
    let ghost body = line@.1;
    line.arg("--");
    line.arg("-o");
    line.arg(outfile);
    line.arg("-Zunpretty=expanded");
    assert(line@.1 =~= body + seq!["--"@, "-o"@, outfile@, "-Zunpretty=expanded"@]);
    line
}

/// Building the command twice from the same options, color policy, terminal
/// state and output path gives the same command line.
pub proof fn command_is_deterministic(
    a: Args,
    color: Coloring,
    stderr_takes_color: bool,
    outfile: Seq<char>,
    first: (Seq<char>, Seq<Seq<char>>),
    second: (Seq<char>, Seq<Seq<char>>),
)
    requires
        is_command_for(first, a, color, stderr_takes_color, outfile),
        is_command_for(second, a, color, stderr_takes_color, outfile),
    ensures
        first == second,
{
}

} // verus!
