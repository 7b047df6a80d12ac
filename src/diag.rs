//! Which lines of the toolchain's diagnostic stream are noise.
use vstd::prelude::*;
use crate::text::{contains, is_blank, text_contains, text_is_blank, texts};

verus! {

/// Substrings that mark a diagnostic line as a benign notice: conflicts over
/// the output file name, and warning-count summaries.
pub open spec fn noise_markers() -> Seq<Seq<char>> {
    seq![
        "ignoring specified output filename because multiple outputs were requested"@,
        "ignoring specified output filename for 'link' output because multiple outputs were requested"@,
        "ignoring --out-dir flag due to -o flag"@,
        "ignoring -C extra-filename flag due to -o flag"@,
        "due to multiple output types requested, the explicitly specified output file name will be adapted for each output type"@,
        "warning emitted"@,
        "warnings emitted"@,
        ") generated "@,
    ]
}

/// A line that is dropped: blank, or holding one of the noise markers.
pub open spec fn is_noise(line: Seq<char>) -> bool {
    is_blank(line) || exists|k: int|
        0 <= k < noise_markers().len() && contains(line, #[trigger] noise_markers()[k])
}

/// The lines that are passed on, in their order.
pub open spec fn forwarded(lines: Seq<Seq<char>>) -> Seq<Seq<char>> {
    lines.filter(|l: Seq<char>| !is_noise(l))
}

fn noise_marker(k: usize) -> (r: &'static str)
    requires
        k < 8,
    ensures
        r@ == noise_markers()[k as int],
{
    match k {
        0 => "ignoring specified output filename because multiple outputs were requested",
        1 => "ignoring specified output filename for 'link' output because multiple outputs were requested",
        2 => "ignoring --out-dir flag due to -o flag",
        3 => "ignoring -C extra-filename flag due to -o flag",
        4 => "due to multiple output types requested, the explicitly specified output file name will be adapted for each output type",
        5 => "warning emitted",
        6 => "warnings emitted",
        _ => ") generated ",
    }
}

/// Whether a diagnostic line of the toolchain is dropped rather than shown.
pub fn ignore_cargo_err(line: &str) -> (r: bool)
    ensures
        r == is_noise(line@),
{
    if text_is_blank(line) {
        return true;
    }
    let mut k: usize = 0;
    while k < 8
        invariant
            k <= 8,
            noise_markers().len() == 8,
            forall|j: int| 0 <= j < k ==> !contains(line@, #[trigger] noise_markers()[j]),
        decreases 8 - k,
    {
        if text_contains(line, noise_marker(k)) {
            return true;
        }
        k = k + 1;
    }
    false
}

/// The lines of a diagnostic stream that are shown, unchanged and in order.
pub fn forward_lines(lines: &Vec<String>) -> (r: Vec<String>)
    ensures
        texts(r@) == forwarded(texts(lines@)),
{
    let mut out: Vec<String> = Vec::new();
    let mut i: usize = 0;
    while i < lines.len()
        invariant
            i <= lines.len(),
            texts(out@) == forwarded(texts(lines@).take(i as int)),
        decreases lines.len() - i,
    {
        assert(texts(lines@).take(i + 1).drop_last() =~= texts(lines@).take(i as int));
        let ghost x = texts(lines@).take(i + 1);
        assert(x.last() == lines@[i as int]@);
        let ghost before = out@;
        if !ignore_cargo_err(lines[i].as_str()) {
            out.push(lines[i].clone());
            assert(texts(out@) =~= texts(before).push(lines@[i as int]@));
        }
        reveal_with_fuel(Seq::filter, 1);
        assert(forwarded(x) == (if !is_noise(x.last()) {
            forwarded(x.drop_last()).push(x.last())
        } else {
            forwarded(x.drop_last())
        }));
        assert(texts(out@) == forwarded(x));
        i = i + 1;
    }
    assert(texts(lines@).take(lines.len() as int) =~= texts(lines@));
    out
}

/// A line with a noise marker is never shown, and every other line that is
/// not blank is shown.
pub proof fn noise_is_dropped(lines: Seq<Seq<char>>)
    ensures
        forall|l: Seq<char>| #[trigger] forwarded(lines).contains(l) ==> !is_noise(l),
        forall|i: int| 0 <= i < lines.len() && !is_noise(lines[i]) ==> #[trigger] forwarded(
            lines,
        ).contains(lines[i]),
{
    broadcast use vstd::seq_lib::group_filter_ensures;

}

} // verus!
