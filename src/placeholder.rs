//! The crate-root token `$crate`, which the parser and the formatter cannot
//! read, is swapped for a stand-in identifier of the same width and swapped
//! back at the end.
use vstd::prelude::*;
use crate::text::{contains, occurs_at, replace_text, replaced, starts_with};

verus! {

/// The crate-root token.
pub open spec fn crate_token() -> Seq<char> {
    seq!['$', 'c', 'r', 'a', 't', 'e']
}

/// The identifier that stands in for the crate-root token.
pub open spec fn stand_in() -> Seq<char> {
    seq!['Ξ', 'c', 'r', 'a', 't', 'e']
}

/// `text` with each crate-root token replaced by the stand-in.
pub fn protect_crate_token(text: &str) -> (r: String)
    ensures
        r@ == replaced(text@, crate_token(), stand_in()),
{
    proof {
        reveal_strlit("$crate");
        reveal_strlit("Ξcrate");
    }
    assert("$crate"@ =~= crate_token());
    assert("Ξcrate"@ =~= stand_in());
    replace_text(text, "$crate", "Ξcrate")
}

/// `text` with each stand-in turned back into the crate-root token.
pub fn restore_crate_token(text: &str) -> (r: String)
    ensures
        r@ == replaced(text@, stand_in(), crate_token()),
{
    proof {
        reveal_strlit("$crate");
        reveal_strlit("Ξcrate");
    }
    assert("$crate"@ =~= crate_token());
    assert("Ξcrate"@ =~= stand_in());
    replace_text(text, "Ξcrate", "$crate")
}

/// A prefix that lacks the first character of the replacement is seen after
/// replacing only where it stood before.
proof fn replaced_prefix(t: Seq<char>, q: Seq<char>, from: Seq<char>, to: Seq<char>)
    requires
        from.len() > 0,
        to.len() > 0,
        forall|i: int| 0 <= i < q.len() ==> q[i] != to[0],
        starts_with(replaced(t, from, to), q),
    ensures
        starts_with(t, q),
    decreases q.len(),
{
    let r = replaced(t, from, to);
    if q.len() == 0 {
        assert(t.subrange(0, 0) =~= q);
    } else {
        assert(r.subrange(0, q.len() as int)[0] == q[0]);
        if t.len() == 0 {
        } else if starts_with(t, from) {
            assert(r[0] == to[0]);
        } else {
            let t1 = t.skip(1);
            let r1 = replaced(t1, from, to);
            assert(r == seq![t[0]] + r1);
            let q1 = q.skip(1);
            assert(r1.subrange(0, q1.len() as int) =~= r.subrange(0, q.len() as int).skip(1));
            assert(r.subrange(0, q.len() as int).skip(1) =~= q1);
            replaced_prefix(t1, q1, from, to);
            assert(t.subrange(0, q.len() as int) =~= seq![t[0]] + t1.subrange(0, q1.len() as int));
            assert(t.subrange(0, q.len() as int) =~= q);
        }
    }
}

/// No stand-in is left in restored text, whatever the text was.
pub proof fn restored_has_no_stand_in(x: Seq<char>)
    ensures
        !contains(replaced(x, stand_in(), crate_token()), stand_in()),
    decreases x.len(),
{
    let a = crate_token();
    let b = stand_in();
    let out = replaced(x, b, a);
    if x.len() == 0 {
        assert forall|i: int| !occurs_at(out, b, i) by {}
    } else if starts_with(x, b) {
        let x1 = x.skip(6);
        restored_has_no_stand_in(x1);
        let o1 = replaced(x1, b, a);
        assert(out == a + o1);
        assert forall|i: int| !occurs_at(out, b, i) by {
            if occurs_at(out, b, i) {
                if i < 6 {
                    assert(out.subrange(i, i + 6)[0] == out[i]);
                    assert(out[i] == a[i]);
                } else {
                    assert(out.subrange(i, i + 6) =~= o1.subrange(i - 6, i));
                    assert(occurs_at(o1, b, i - 6));
                }
            }
        }
    } else {
        let x1 = x.skip(1);
        restored_has_no_stand_in(x1);
        let o1 = replaced(x1, b, a);
        assert(out == seq![x[0]] + o1);
        assert forall|i: int| !occurs_at(out, b, i) by {
            if occurs_at(out, b, i) {
                if i == 0 {
                    assert(out.subrange(0, 6)[0] == x[0]);
                    let q = b.skip(1);
                    assert(o1.subrange(0, 5) =~= out.subrange(0, 6).skip(1));
                    assert(out.subrange(0, 6).skip(1) =~= q);
                    replaced_prefix(x1, q, b, a);
                    assert(x.subrange(0, 6) =~= seq![x[0]] + x1.subrange(0, 5));
                    assert(x.subrange(0, 6) =~= b);
                } else {
                    assert(out.subrange(i, i + 6) =~= o1.subrange(i - 1, i + 5));
                    assert(occurs_at(o1, b, i - 1));
                }
            }
        }
    }
}

/// Protecting the crate-root token and then restoring it gives back the text,
/// wherever the text did not already hold the stand-in; the stand-in has the
/// token's width.
pub proof fn crate_token_round_trip(s: Seq<char>)
    requires
        !contains(s, stand_in()),
    ensures
        replaced(replaced(s, crate_token(), stand_in()), stand_in(), crate_token()) == s,
        stand_in().len() == crate_token().len(),
    decreases s.len(),
{
    let a = crate_token();
    let b = stand_in();
    let r = replaced(s, a, b);
    if s.len() == 0 {
    } else if starts_with(s, a) {
        let s1 = s.skip(6);
        assert forall|i: int| !occurs_at(s1, b, i) by {
            if occurs_at(s1, b, i) {
                assert(s.subrange(i + 6, i + 12) =~= s1.subrange(i, i + 6));
                assert(occurs_at(s, b, i + 6));
            }
        }
        crate_token_round_trip(s1);
        let r1 = replaced(s1, a, b);
        assert(r == b + r1);
        assert(r.subrange(0, 6) =~= b);
        assert(r.skip(6) =~= r1);
        assert(replaced(r, b, a) == a + replaced(r1, b, a));
        assert(s =~= a + s1);
    } else {
        let s1 = s.skip(1);
        assert forall|i: int| !occurs_at(s1, b, i) by {
            if occurs_at(s1, b, i) {
                assert(s.subrange(i + 1, i + 7) =~= s1.subrange(i, i + 6));
                assert(occurs_at(s, b, i + 1));
            }
        }
        crate_token_round_trip(s1);
        let r1 = replaced(s1, a, b);
        assert(r == seq![s[0]] + r1);
        if starts_with(r, b) {
            assert(r.subrange(0, 6)[0] == 'Ξ');
            assert(s[0] == 'Ξ');
            let q = b.skip(1);
            assert(r1.subrange(0, 5) =~= r.subrange(0, 6).skip(1));
            assert(r.subrange(0, 6).skip(1) =~= q);
            replaced_prefix(s1, q, a, b);
            assert(s.subrange(0, 6) =~= seq![s[0]] + s1.subrange(0, 5));
            assert(s.subrange(0, 6) =~= b);
            assert(occurs_at(s, b, 0));
        }
        assert(r.skip(1) =~= r1);
        assert(replaced(r, b, a) == seq![s[0]] + replaced(r1, b, a));
        assert(s =~= seq![s[0]] + s1);
    }
}

} // verus!
