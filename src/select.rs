//! Narrowing the expanded source to the items that a path selector names.
//!
//! Each item of the source, at any depth, is seen as the names of the modules
//! that enclose it, outermost first, and its own name, if it has one.
use vstd::prelude::*;
use crate::text::{text_eq, texts};

verus! {

/// One item of the source, where it sits among modules.
#[derive(Clone, Debug)]
pub struct ItemEntry {
    /// Names of the enclosing modules, outermost first.
    pub modules: Vec<String>,
    /// The item's own name; items such as `impl` blocks have none.
    pub name: Option<String>,
}

impl View for ItemEntry {
    type V = (Seq<Seq<char>>, Option<Seq<char>>);

    open spec fn view(&self) -> Self::V {
        (
            texts(self.modules@),
            match self.name {
                Some(n) => Some(n@),
                None => None,
            },
        )
    }
}

/// The views of the entries.
pub open spec fn entry_views(es: Seq<ItemEntry>) -> Seq<(Seq<Seq<char>>, Option<Seq<char>>)> {
    es.map_values(|e: ItemEntry| e@)
}

/// An item matches a selector when its name is the last segment and, going
/// outward, each enclosing module is named by the segment before; segments
/// beyond the enclosing modules are not looked at.
pub open spec fn path_matches(e: (Seq<Seq<char>>, Option<Seq<char>>), sel: Seq<Seq<char>>) -> bool {
    let modules = e.0;
    &&& sel.len() > 0
    &&& e.1 == Some(sel.last())
    &&& forall|j: int|
        1 <= j < sel.len() && j <= modules.len() ==> #[trigger] modules[modules.len() - j]
            == sel[sel.len() - 1 - j]
}

/// The positions of the matching items, in order.
pub open spec fn matching(es: Seq<(Seq<Seq<char>>, Option<Seq<char>>)>, sel: Seq<Seq<char>>) -> Seq<int>
    decreases es.len(),
{
    if es.len() == 0 {
        Seq::empty()
    } else {
        let prev = matching(es.drop_last(), sel);
        if path_matches(es.last(), sel) {
            prev.push(es.len() - 1)
        } else {
            prev
        }
    }
}

/// The segments of a selector written as `a::b::c`: `cur` is the part of the
/// current segment already read, and each `::` found from the left ends a
/// segment.
pub open spec fn segments(s: Seq<char>, cur: Seq<char>) -> Seq<Seq<char>>
    decreases s.len(),
{
    if s.len() == 0 {
        seq![cur]
    } else if s.len() >= 2 && s[0] == ':' && s[1] == ':' {
        seq![cur] + segments(s.skip(2), Seq::empty())
    } else {
        segments(s.skip(1), cur.push(s[0]))
    }
}

/// The segments of a selector as the user writes it, split at each `::`.
pub fn parse_selector(s: &str) -> (r: Vec<String>)
    ensures
        texts(r@) == segments(s@, Seq::empty()),
{
    let n = s.unicode_len();
    let mut out: Vec<String> = Vec::new();
    let mut start: usize = 0;
    let mut i: usize = 0;
    assert(s@.skip(0) =~= s@);
    assert(s@.subrange(0, 0) =~= Seq::<char>::empty());
    while i < n
        invariant
            n == s@.len(),
            start <= i <= n,
            segments(s@, Seq::empty()) == texts(out@) + segments(s@.skip(i as int), s@.subrange(start as int, i as int)),
        decreases n - i,
    {
        let ghost cur = s@.subrange(start as int, i as int);
        let ghost rest = s@.skip(i as int);
        let ghost before = out@;
        if i + 1 < n && s.get_char(i) == ':' && s.get_char(i + 1) == ':' {
            out.push(String::from_str(s.substring_char(start, i)));
            assert(texts(out@) =~= texts(before) + seq![cur]);
            assert(rest.skip(2) =~= s@.skip(i + 2));
            assert(s@.subrange(i + 2, i + 2) =~= Seq::<char>::empty());
            i = i + 2;
            start = i;
        } else {
            assert(rest.skip(1) =~= s@.skip(i + 1));
            assert(cur.push(rest[0]) =~= s@.subrange(start as int, i + 1));
            i = i + 1;
        }
    }
    let ghost before = out@;
    out.push(String::from_str(s.substring_char(start, n)));
    assert(texts(out@) =~= texts(before) + seq![s@.subrange(start as int, n as int)]);
    out
}

/// Whether `entry` matches `selector`.
pub fn entry_matches(entry: &ItemEntry, selector: &Vec<String>) -> (r: bool)
    ensures
        r == path_matches(entry@, texts(selector@)),
{
    let n = selector.len();
    if n == 0 {
        return false;
    }
    match &entry.name {
        None => {
            return false;
        },
        Some(name) => {
            assert(texts(selector@)[n - 1] == selector@[n - 1]@);
            assert(entry@.1 == Some(name@));
            if !text_eq(name.as_str(), selector[n - 1].as_str()) {
                return false;
            }
        },
    }
    let m = entry.modules.len();
    let ghost mods = entry@.0;
    let ghost sel = texts(selector@);
    let mut j: usize = 1;
    while j < n && j <= m
        invariant
            n == selector.len(),
            m == entry.modules.len(),
            mods == entry@.0,
            sel == texts(selector@),
            1 <= j <= n,
            j <= m + 1,
            forall|k: int| 1 <= k < j ==> #[trigger] mods[mods.len() - k] == sel[sel.len() - 1 - k],
        decreases n - j,
    {
        assert(mods[m - j] == entry.modules@[m - j]@);
        assert(sel[n - 1 - j] == selector@[n - 1 - j]@);
        if !text_eq(entry.modules[m - j].as_str(), selector[n - 1 - j].as_str()) {
            assert(mods[mods.len() - j] != sel[sel.len() - 1 - j]);
            return false;
        }
        j = j + 1;
    }
    assert(sel.last() == selector@[n - 1]@);
    true
}

/// The positions of the items that `selector` names, in their order.
pub fn select_items(entries: &Vec<ItemEntry>, selector: &Vec<String>) -> (r: Vec<usize>)
    ensures
        r@.map_values(|i: usize| i as int) == matching(entry_views(entries@), texts(selector@)),
{
    let ghost es = entry_views(entries@);
    let ghost sel = texts(selector@);
    let mut out: Vec<usize> = Vec::new();
    let mut i: usize = 0;
    while i < entries.len()
        invariant
            i <= entries.len(),
            es == entry_views(entries@),
            sel == texts(selector@),
            out@.map_values(|i: usize| i as int) == matching(es.take(i as int), sel),
        decreases entries.len() - i,
    {
        let ghost x = es.take(i + 1);
        assert(x.drop_last() =~= es.take(i as int));
        assert(x.last() == entries@[i as int]@);
        let ghost before = out@;
        if entry_matches(&entries[i], selector) {
            out.push(i);
            assert(out@.map_values(|i: usize| i as int) =~= before.map_values(|i: usize| i as int).push(
                i as int,
            ));
        }
        i = i + 1;
    }
    assert(es.take(entries.len() as int) =~= es);
    out
}

/// What the selection keeps: positions in increasing order, each of an item
/// that matches, and every matching item; so nothing is kept exactly when no
/// item matches.
pub proof fn selection_keeps_exactly_the_matches(
    es: Seq<(Seq<Seq<char>>, Option<Seq<char>>)>,
    sel: Seq<Seq<char>>,
)
    ensures
        forall|k: int|
            0 <= k < matching(es, sel).len() ==> 0 <= #[trigger] matching(es, sel)[k] < es.len()
                && path_matches(es[matching(es, sel)[k]], sel),
        forall|k: int, l: int|
            0 <= k < l < matching(es, sel).len() ==> #[trigger] matching(es, sel)[k] < #[trigger] matching(
                es,
                sel,
            )[l],
        forall|i: int| 0 <= i < es.len() && path_matches(#[trigger] es[i], sel) ==> matching(es, sel).contains(i),
        matching(es, sel).len() == 0 <==> (forall|i: int| 0 <= i < es.len() ==> !path_matches(#[trigger] es[i], sel)),
    decreases es.len(),
{
    if es.len() > 0 {
        let prev = es.drop_last();
        selection_keeps_exactly_the_matches(prev, sel);
        let r = matching(es, sel);
        let p = matching(prev, sel);
        assert forall|k: int| 0 <= k < p.len() implies p[k] < es.len() - 1 by {}
        assert forall|i: int| 0 <= i < es.len() - 1 implies #[trigger] es[i] == prev[i] by {}
        if path_matches(es.last(), sel) {
            assert(r[r.len() - 1] == es.len() - 1);
            assert forall|i: int| 0 <= i < es.len() && path_matches(#[trigger] es[i], sel) implies r.contains(i) by {
                if i < es.len() - 1 {
                    assert(path_matches(prev[i], sel));
                    let k = choose|k: int| 0 <= k < p.len() && p[k] == i;
                    assert(r[k] == i);
                } else {
                    assert(r[r.len() - 1] == i);
                }
            }
        } else {
            assert forall|i: int| 0 <= i < es.len() && path_matches(#[trigger] es[i], sel) implies r.contains(i) by {
                assert(i < es.len() - 1);
                assert(path_matches(prev[i], sel));
            }
        }
        if r.len() == 0 {
            assert forall|i: int| 0 <= i < es.len() implies !path_matches(#[trigger] es[i], sel) by {
                if path_matches(es[i], sel) {
                    assert(r.contains(i));
                }
            }
        } else {
            assert(path_matches(es[r[0]], sel));
        }
    }
}

} // verus!
