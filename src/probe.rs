//! Whether the active toolchain can expand, and how to hand the run over to
//! the nightly toolchain when it cannot.
use vstd::prelude::*;
use crate::text::{contains, starts_with, text_contains, text_eq, text_starts_with, texts};

verus! {

/// A version report of a stable toolchain: one that names release 1 and no
/// nightly build.
pub open spec fn is_stable_report(version: Seq<char>) -> bool {
    starts_with(version, "cargo 1"@) && !contains(version, "nightly"@)
}

/// The active toolchain is known not to be a nightly one. A probe that failed,
/// or a report that was not text, leaves it unknown; `None` stands for both.
pub fn definitely_not_nightly(version: Option<&str>) -> (r: bool)
    ensures
        r == match version {
            Some(v) => is_stable_report(v@),
            None => false,
        },
{
    match version {
        Some(v) => text_starts_with(v, "cargo 1") && !text_contains(v, "nightly"),
        None => false,
    }
}

/// The active toolchain may be a nightly one.
pub fn maybe_nightly(version: Option<&str>) -> (r: bool)
    ensures
        r == match version {
            Some(v) => !is_stable_report(v@),
            None => true,
        },
{
    !definitely_not_nightly(version)
}

/// What the run does next while it decides whether to re-run itself.
#[derive(Clone, Copy, Debug, PartialEq, Eq, Structural)]
pub enum ProbeStep {
    /// Expand with the active toolchain.
    RunDirectly,
    /// Ask the active toolchain for its version report.
    CheckVersion,
    /// Ask whether a nightly toolchain is installed.
    CheckNightly,
    /// Re-run the whole command under the nightly toolchain.
    Reinvoke,
}

/// Whether the run hands itself over to the nightly toolchain: only where it
/// has not done so already, the active toolchain is known to be stable, and a
/// nightly one is installed.
pub open spec fn should_reinvoke(already_escalated: bool, version: Option<Seq<char>>, nightly_installed: bool) -> bool {
    !already_escalated && (match version {
        Some(v) => is_stable_report(v),
        None => false,
    }) && nightly_installed
}

/// The first step: nothing is probed where the run was already handed over.
pub fn start_probe(already_escalated: bool) -> (r: ProbeStep)
    ensures
        r == (if already_escalated { ProbeStep::RunDirectly } else { ProbeStep::CheckVersion }),
{
    if already_escalated {
        ProbeStep::RunDirectly
    } else {
        ProbeStep::CheckVersion
    }
}

/// The step after the version report.
pub fn after_version(version: Option<&str>) -> (r: ProbeStep)
    ensures
        r == (if (match version {
            Some(v) => is_stable_report(v@),
            None => false,
        }) {
            ProbeStep::CheckNightly
        } else {
            ProbeStep::RunDirectly
        }),
{
    if maybe_nightly(version) {
        ProbeStep::RunDirectly
    } else {
        ProbeStep::CheckNightly
    }
}

/// The step after asking whether a nightly toolchain is installed.
pub fn after_nightly_check(nightly_installed: bool) -> (r: ProbeStep)
    ensures
        r == (if nightly_installed { ProbeStep::Reinvoke } else { ProbeStep::RunDirectly }),
{
    if nightly_installed {
        ProbeStep::Reinvoke
    } else {
        ProbeStep::RunDirectly
    }
}

/// Following the steps re-runs the command exactly when `should_reinvoke`
/// holds, and re-runs it at most once.
pub proof fn probe_steps_decide(already_escalated: bool, version: Option<Seq<char>>, nightly_installed: bool)
    ensures
        ({
            let first = if already_escalated { ProbeStep::RunDirectly } else { ProbeStep::CheckVersion };
            let stable = match version {
                Some(v) => is_stable_report(v),
                None => false,
            };
            let second = if stable { ProbeStep::CheckNightly } else { ProbeStep::RunDirectly };
            let third = if nightly_installed { ProbeStep::Reinvoke } else { ProbeStep::RunDirectly };
            let last = if first == ProbeStep::RunDirectly {
                first
            } else if second == ProbeStep::RunDirectly {
                second
            } else {
                third
            };
            (last == ProbeStep::Reinvoke) == should_reinvoke(already_escalated, version, nightly_installed)
        }),
        should_reinvoke(already_escalated, version, nightly_installed) ==> !should_reinvoke(true, version, nightly_installed),
{
}

/// The arguments of the re-run under the nightly toolchain: the toolchain
/// selector and the subcommand, then the given arguments without the
/// program name and without a leading subcommand.
pub open spec fn nightly_args_of(args: Seq<Seq<char>>) -> Seq<Seq<char>> {
    let rest = if args.len() > 1 && args[1] == "expand"@ { args.skip(2) } else { args.skip(1) };
    seq!["+nightly"@, "expand"@] + rest
}

/// The arguments for re-running the command under the nightly toolchain;
/// `args` starts with the program name.
pub fn nightly_args(args: &Vec<String>) -> (r: Vec<String>)
    requires
        args.len() >= 1,
    ensures
        texts(r@) == nightly_args_of(texts(args@)),
{
    let mut r: Vec<String> = Vec::new();
    r.push(String::from_str("+nightly"));
    r.push(String::from_str("expand"));
    let start: usize = if args.len() > 1 && text_eq(args[1].as_str(), "expand") { 2 } else { 1 };
    proof {
        if args.len() > 1 {
            assert(texts(args@)[1] == args@[1]@);
        }
    }
    let ghost head = texts(r@);
    assert(head =~= seq!["+nightly"@, "expand"@]);
    let mut i: usize = start;
    while i < args.len()
        invariant
            start <= i <= args.len(),
            texts(r@) == head + texts(args@).subrange(start as int, i as int),
        decreases args.len() - i,
    {
        let ghost before = r@;
        r.push(args[i].clone());
        assert(texts(r@) =~= texts(before).push(args@[i as int]@));
        assert(texts(args@).subrange(start as int, i + 1) =~= texts(args@).subrange(start as int, i as int).push(
            args@[i as int]@,
        ));
        i = i + 1;
    }
    assert(texts(args@).subrange(start as int, args.len() as int) =~= texts(args@).skip(start as int));
    r
}

/// The exit code of a child: its own code, else 0 or 1 as it succeeded or not.
pub fn exit_code_of(code: Option<i32>, success: bool) -> (r: i32)
    ensures
        r == match code {
            Some(c) => c,
            None => if success { 0 } else { 1 },
        },
{
    match code {
        Some(c) => c,
        None => if success { 0 } else { 1 },
    }
}

} // verus!
