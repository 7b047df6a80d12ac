//! The decisions that sequence a run: whether and how to reformat, when the
//! expansion counts as failed, and the retry under the other edition.
use vstd::prelude::*;
use crate::text::texts;

verus! {

/// How the expanded text is treated before it is shown.
#[derive(Clone, Debug)]
pub enum FormatPlan {
    /// Parse, filter and reformat with the formatter at this path.
    Format(String),
    /// Show the text as the toolchain wrote it.
    Raw,
    /// A single item was asked for together with raw output.
    RefuseUgly,
    /// A single item was asked for and no formatter can be found.
    RefuseNoFormatter,
}

/// The plan for a run. `formatter` is where the formatter was found; it is not
/// looked at under raw output.
pub fn plan_format(has_item: bool, ugly: bool, formatter: Option<String>) -> (r: FormatPlan)
    ensures
        has_item && ugly ==> r is RefuseUgly,
        has_item && !ugly && formatter is None ==> r is RefuseNoFormatter,
        !has_item && ugly ==> r is Raw,
        !ugly && formatter is Some ==> r == FormatPlan::Format(formatter->0),
        !has_item && !ugly && formatter is None ==> r is Raw,
{
    if ugly {
        if has_item {
            FormatPlan::RefuseUgly
        } else {
            FormatPlan::Raw
        }
    } else {
        match formatter {
            Some(f) => FormatPlan::Format(f),
            None => if has_item {
                FormatPlan::RefuseNoFormatter
            } else {
                FormatPlan::Raw
            },
        }
    }
}

/// The formatter to use: a non-empty override wins, an empty one means none,
/// and without an override the installed one is used.
pub fn which_rustfmt(env_override: Option<String>, installed: Option<String>) -> (r: Option<String>)
    ensures
        r == match env_override {
            Some(v) => if v@.len() == 0 { None } else { Some(v) },
            None => installed,
        },
{
    match env_override {
        Some(v) => {
            if v.as_str().unicode_len() == 0 {
                None
            } else {
                Some(v)
            }
        },
        None => installed,
    }
}

/// The exit code owed when the expansion gave nothing to show: 1 without an
/// output file, and for an empty one the toolchain's own code, or 1 where that
/// was 0. `None` where there is text to go on with.
pub fn expansion_failure(code: i32, file_exists: bool, content: &str) -> (r: Option<i32>)
    ensures
        !file_exists ==> r == Some(1i32),
        file_exists && content@.len() == 0 ==> r == Some(if code == 0 { 1i32 } else { code }),
        file_exists && content@.len() > 0 ==> r is None,
{
    if !file_exists {
        Some(1)
    } else if content.unicode_len() == 0 {
        Some(if code == 0 { 1 } else { code })
    } else {
        None
    }
}

/// The edition under which the formatter reads the text.
#[derive(Clone, Copy, Debug, PartialEq, Eq, Structural)]
pub enum Edition {
    E2018,
    E2015,
}

/// How a formatter run ended.
#[derive(Clone, Copy, Debug, PartialEq, Eq, Structural)]
pub enum FormatOutcome {
    /// It exited with success.
    Accepted,
    /// It exited with failure: most likely the edition did not fit.
    Rejected,
    /// It could not be started.
    NotRun,
}

/// What to do after a formatter run.
#[derive(Clone, Copy, Debug, PartialEq, Eq, Structural)]
pub enum FormatStep {
    Run(Edition),
    Done,
}

/// The formatter first reads the text as 2018 code.
pub open spec fn first_edition() -> Edition {
    Edition::E2018
}

/// A rejection under 2018 is retried once under 2015; anything else ends the
/// formatting.
pub open spec fn next_step(tried: Edition, outcome: FormatOutcome) -> FormatStep {
    if tried == Edition::E2018 && outcome == FormatOutcome::Rejected {
        FormatStep::Run(Edition::E2015)
    } else {
        FormatStep::Done
    }
}

/// The edition of the first formatter run.
pub fn first_format_edition() -> (r: Edition)
    ensures
        r == first_edition(),
{
    Edition::E2018
}

/// The step that follows a formatter run under `tried` that ended in `outcome`.
pub fn next_format_step(tried: Edition, outcome: FormatOutcome) -> (r: FormatStep)
    ensures
        r == next_step(tried, outcome),
{
    match (tried, outcome) {
        (Edition::E2018, FormatOutcome::Rejected) => FormatStep::Run(Edition::E2015),
        _ => FormatStep::Done,
    }
}

/// The flag that selects an edition.
pub fn edition_flag(e: Edition) -> (r: &'static str)
    ensures
        r@ == match e {
            Edition::E2018 => "--edition=2018"@,
            Edition::E2015 => "--edition=2015"@,
        },
{
    match e {
        Edition::E2018 => "--edition=2018",
        Edition::E2015 => "--edition=2015",
    }
}

/// The editions that the formatter is run under, in order, for a formatter
/// whose outcome under each edition is `outcome`; a third run is listed if
/// the steps ever asked for one.
pub open spec fn runs(outcome: spec_fn(Edition) -> FormatOutcome) -> Seq<Edition> {
    let first = first_edition();
    match next_step(first, outcome(first)) {
        FormatStep::Done => seq![first],
        FormatStep::Run(second) => match next_step(second, outcome(second)) {
            FormatStep::Done => seq![first, second],
            FormatStep::Run(third) => seq![first, second, third],
        },
    }
}

/// The formatter runs at most twice; where it rejects 2018 and accepts 2015 it
/// runs under 2018 and then once under 2015, whose result is the last one.
pub proof fn edition_fallback(outcome: spec_fn(Edition) -> FormatOutcome)
    ensures
        1 <= runs(outcome).len() <= 2,
        outcome(Edition::E2018) == FormatOutcome::Rejected && outcome(Edition::E2015)
            == FormatOutcome::Accepted ==> runs(outcome) == seq![Edition::E2018, Edition::E2015],
        outcome(Edition::E2018) != FormatOutcome::Rejected ==> runs(outcome) == seq![Edition::E2018],
{
}

/// `sel` written with `::` between its segments.
pub open spec fn joined(sel: Seq<Seq<char>>) -> Seq<char>
    decreases sel.len(),
{
    if sel.len() == 0 {
        Seq::empty()
    } else if sel.len() == 1 {
        sel[0]
    } else {
        joined(sel.drop_last()) + "::"@ + sel.last()
    }
}

/// A selector as the user writes it.
pub fn selector_text(selector: &Vec<String>) -> (r: String)
    ensures
        r@ == joined(texts(selector@)),
{
    let mut r = String::new();
    let mut i: usize = 0;
    while i < selector.len()
        invariant
            i <= selector.len(),
            r@ == joined(texts(selector@).take(i as int)),
        decreases selector.len() - i,
    {
        let ghost t = texts(selector@).take(i + 1);
        assert(t.drop_last() =~= texts(selector@).take(i as int));
        assert(t.last() == selector@[i as int]@);
        if i > 0 {
            r.append("::");
        } else {
            assert(r@ =~= Seq::<char>::empty());
        }
        r.append(selector[i].as_str());
        i = i + 1;
    }
    assert(texts(selector@).take(selector.len() as int) =~= texts(selector@));
    r
}

/// The warning for a selector that matched no item.
pub fn missing_item_message(selector: &Vec<String>) -> (r: String)
    ensures
        r@ == "WARNING: no such item: "@ + joined(texts(selector@)),
{
    let name = selector_text(selector);
    String::from_str("WARNING: no such item: ").concat(name.as_str())
}

/// The warning for a run whose toolchain wrote an empty expansion.
pub fn empty_output_message() -> (r: &'static str)
    ensures
        r@ == "ERROR: rustc produced no expanded output"@,
{
    "ERROR: rustc produced no expanded output"
}

} // verus!
