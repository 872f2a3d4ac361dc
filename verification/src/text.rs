//! Text-level groundwork for the chain renderer: a substring relation on
//! character sequences with the lemmas the rendering laws need, and verified
//! decimal formatting of the integers that appear in structured errors.

use vstd::prelude::*;
use vstd::string::StrSliceExecFns;
use vstd::string::StringExecFns;

verus! {

/// `needle` occurs contiguously somewhere inside `hay`.
pub open spec fn contains_seq<A>(hay: Seq<A>, needle: Seq<A>) -> bool {
    exists|i: int|
        0 <= i && i + needle.len() <= hay.len() && #[trigger] hay.subrange(i, i + needle.len())
            == needle
}

/// Every sequence contains itself.
pub proof fn lemma_contains_seq_refl<A>(s: Seq<A>)
    ensures
        contains_seq(s, s),
{
    assert(s.subrange(0, 0 + s.len() as int) =~= s);
}

/// The empty sequence occurs in every sequence.
pub proof fn lemma_contains_seq_empty<A>(s: Seq<A>)
    ensures
        contains_seq(s, Seq::<A>::empty()),
{
    let needle = Seq::<A>::empty();
    assert(s.subrange(0, 0 + needle.len() as int) =~= needle);
}

/// An occurrence survives prepending to the haystack.
pub proof fn lemma_contains_seq_prepend<A>(front: Seq<A>, hay: Seq<A>, needle: Seq<A>)
    requires
        contains_seq(hay, needle),
    ensures
        contains_seq(front + hay, needle),
{
    let i = choose|i: int|
        0 <= i && i + needle.len() <= hay.len() && #[trigger] hay.subrange(i, i + needle.len())
            == needle;
    let j = front.len() + i;
    assert((front + hay).subrange(j, j + needle.len()) =~= hay.subrange(i, i + needle.len()));
}

/// An occurrence survives appending to the haystack.
pub proof fn lemma_contains_seq_append<A>(hay: Seq<A>, back: Seq<A>, needle: Seq<A>)
    requires
        contains_seq(hay, needle),
    ensures
        contains_seq(hay + back, needle),
{
    let i = choose|i: int|
        0 <= i && i + needle.len() <= hay.len() && #[trigger] hay.subrange(i, i + needle.len())
            == needle;
    assert((hay + back).subrange(i, i + needle.len()) =~= hay.subrange(i, i + needle.len()));
}

/// The substring relation is transitive.
pub proof fn lemma_contains_seq_trans<A>(a: Seq<A>, b: Seq<A>, c: Seq<A>)
    requires
        contains_seq(a, b),
        contains_seq(b, c),
    ensures
        contains_seq(a, c),
{
    let i = choose|i: int|
        0 <= i && i + b.len() <= a.len() && #[trigger] a.subrange(i, i + b.len()) == b;
    let j = choose|j: int|
        0 <= j && j + c.len() <= b.len() && #[trigger] b.subrange(j, j + c.len()) == c;
    assert(a.subrange(i + j, i + j + c.len()) =~= b.subrange(j, j + c.len())) by {
        assert forall|k: int| 0 <= k < c.len() implies #[trigger] a.subrange(
            i + j,
            i + j + c.len(),
        )[k] == b.subrange(j, j + c.len())[k] by {
            assert(b[j + k] == a.subrange(i, i + b.len())[j + k]);
        }
    }
}

/// The decimal digit character for `d`, which must lie in `0 ..= 9`.
pub open spec fn spec_digit(d: int) -> char {
    if d == 0 {
        '0'
    } else if d == 1 {
        '1'
    } else if d == 2 {
        '2'
    } else if d == 3 {
        '3'
    } else if d == 4 {
        '4'
    } else if d == 5 {
        '5'
    } else if d == 6 {
        '6'
    } else if d == 7 {
        '7'
    } else if d == 8 {
        '8'
    } else {
        '9'
    }
}

/// The decimal rendering of a non-negative integer, most significant digit
/// first, with no leading zeros (except for the value zero itself).
pub open spec fn spec_dec(v: int) -> Seq<char>
    decreases v,
{
    if v < 10 {
        seq![spec_digit(v)]
    } else {
        spec_dec(v / 10).push(spec_digit(v % 10))
    }
}

/// The decimal rendering of a possibly negative integer.
pub open spec fn spec_int_str(v: int) -> Seq<char> {
    if v >= 0 {
        spec_dec(v)
    } else {
        seq!['-'] + spec_dec(-v)
    }
}

fn digit_str(d: u64) -> (r: &'static str)
    requires
        d < 10,
    ensures
        r@ == seq![spec_digit(d as int)],
{
    proof {
        reveal_strlit("0");
        reveal_strlit("1");
        reveal_strlit("2");
        reveal_strlit("3");
        reveal_strlit("4");
        reveal_strlit("5");
        reveal_strlit("6");
        reveal_strlit("7");
        reveal_strlit("8");
        reveal_strlit("9");
    }
    let r = if d == 0 {
        "0"
    } else if d == 1 {
        "1"
    } else if d == 2 {
        "2"
    } else if d == 3 {
        "3"
    } else if d == 4 {
        "4"
    } else if d == 5 {
        "5"
    } else if d == 6 {
        "6"
    } else if d == 7 {
        "7"
    } else if d == 8 {
        "8"
    } else {
        "9"
    };
    proof {
        assert(r@ =~= seq![spec_digit(d as int)]);
    }
    r
}

/// Renders `v` in decimal.
pub fn u64_to_string(v: u64) -> (r: String)
    ensures
        r@ == spec_dec(v as int),
    decreases v,
{
    if v < 10 {
        let r = digit_str(v).to_owned();
        r
    } else {
        let rest = u64_to_string(v / 10);
        let last = digit_str(v % 10);
        let r = rest.concat(last);
        proof {
            assert(r@ =~= spec_dec(v as int));
        }
        r
    }
}

/// Renders `v` in decimal, with a leading minus sign when it is negative.
pub fn i32_to_string(v: i32) -> (r: String)
    ensures
        r@ == spec_int_str(v as int),
{
    if v >= 0 {
        u64_to_string(v as u64)
    } else {
        let magnitude: i64 = -(v as i64);
        let digits = u64_to_string(magnitude as u64);
        let r = "-".to_owned().concat(digits.as_str());
        proof {
            reveal_strlit("-");
            assert(r@ =~= spec_int_str(v as int));
        }
        r
    }
}

} // verus!
