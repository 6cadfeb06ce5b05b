//! Verified string building: joining message lists with a separator, decimal
//! rendering of counters, and the synthetic `policy<N>` identifiers assigned
//! by the structured-to-text conversion.

use vstd::prelude::*;

verus! {

/// The elements of `elems` concatenated in order, with `sep` between
/// consecutive elements and nothing before the first or after the last.
pub open spec fn join_with(elems: Seq<Seq<char>>, sep: Seq<char>) -> Seq<char>
    decreases elems.len(),
{
    if elems.len() == 0 {
        Seq::empty()
    } else if elems.len() == 1 {
        elems[0]
    } else {
        elems[0] + sep + join_with(elems.drop_first(), sep)
    }
}

/// `needle` occurs contiguously somewhere in `hay`.
pub open spec fn contains_seq(hay: Seq<char>, needle: Seq<char>) -> bool {
    exists|k: int|
        0 <= k && k + needle.len() <= hay.len() && #[trigger] hay.subrange(
            k,
            k + needle.len(),
        ) == needle
}

/// Joining never loses an element: every element of `elems` still occurs,
/// verbatim and contiguously, in the joined result.
pub proof fn lemma_join_with_contains_each(elems: Seq<Seq<char>>, sep: Seq<char>)
    ensures
        forall|i: int| 0 <= i < elems.len() ==> contains_seq(join_with(elems, sep), elems[i]),
    decreases elems.len(),
{
    if elems.len() == 0 {
    } else if elems.len() == 1 {
        let j = join_with(elems, sep);
        assert(j.subrange(0int, 0int + elems[0].len() as int) =~= elems[0]);
        assert(contains_seq(j, elems[0]));
    } else {
        let j = join_with(elems, sep);
        let rest = join_with(elems.drop_first(), sep);
        assert(j == elems[0] + sep + rest);
        assert(j.subrange(0int, 0int + elems[0].len() as int) =~= elems[0]);
        assert(contains_seq(j, elems[0]));
        lemma_join_with_contains_each(elems.drop_first(), sep);
        let shift = elems[0].len() + sep.len();
        assert forall|i: int| 1 <= i < elems.len() implies contains_seq(j, elems[i]) by {
            let e = elems.drop_first()[i - 1];
            assert(e == elems[i]);
            assert(contains_seq(rest, e));
            let k = choose|k: int|
                0 <= k && k + e.len() <= rest.len() && #[trigger] rest.subrange(k, k + e.len())
                    == e;
            assert(j.subrange(shift + k, (shift + k) + e.len()) =~= rest.subrange(
                k,
                k + e.len(),
            ));
            assert(contains_seq(j, e));
        }
    }
}

/// Joins the given strings with the separator, losing nothing: the result is
/// exactly `join_with` of the elements.
pub fn join_strings(elems: &Vec<String>, sep: &str) -> (r: String)
    ensures
        r@ == join_with(elems.deep_view(), sep@),
{
    let ghost all = elems.deep_view();
    let mut r = String::new();
    let mut i: usize = 0;
    while i < elems.len()
        invariant
            all == elems.deep_view(),
            i <= elems.len(),
            i == 0 ==> r@ == Seq::<char>::empty(),
            i > 0 ==> r@ == join_with(all.take(i as int), sep@),
        decreases elems.len() - i,
    {
        if i > 0 {
            r.append(sep);
        }
        r.append(elems[i].as_str());
        proof {
            let pre = all.take(i as int);
            let now = all.take(i + 1);
            assert(now.len() == i + 1);
            assert(now[i as int] == all[i as int]);
            if i == 0 {
                assert(now =~= seq![all[0]]);
                assert(join_with(now, sep@) == all[0]);
            } else {
                lemma_join_with_push(pre, sep@, all[i as int]);
                assert(pre.push(all[i as int]) =~= now);
            }
        }
        i = i + 1;
    }
    proof {
        if elems.len() == 0 {
            assert(all.len() == 0);
        } else {
            assert(all.take(elems.len() as int) =~= all);
        }
    }
    r
}

/// Appending one more element to a non-empty join appends the separator and
/// then that element.
pub proof fn lemma_join_with_push(elems: Seq<Seq<char>>, sep: Seq<char>, last: Seq<char>)
    requires
        elems.len() >= 1,
    ensures
        join_with(elems.push(last), sep) == join_with(elems, sep) + sep + last,
    decreases elems.len(),
{
    let pushed = elems.push(last);
    if elems.len() == 1 {
        assert(pushed.len() == 2);
        assert(pushed.drop_first() =~= seq![last]);
        assert(join_with(pushed, sep) == pushed[0] + sep + join_with(pushed.drop_first(), sep));
        assert(pushed[0] == elems[0]);
    } else {
        assert(pushed.drop_first() =~= elems.drop_first().push(last));
        lemma_join_with_push(elems.drop_first(), sep, last);
        assert(join_with(pushed, sep) == pushed[0] + sep + join_with(pushed.drop_first(), sep));
        assert(pushed[0] == elems[0]);
        assert(elems[0] + sep + (join_with(elems.drop_first(), sep) + sep + last) =~= (elems[0]
            + sep + join_with(elems.drop_first(), sep)) + sep + last);
    }
}

/// The character for one decimal digit.
pub open spec fn digit_char(d: nat) -> char {
    if d == 0 {
        '0'
    } else if d == 1 {
        '1'
    } else if d == 2 {
        '2'
    } else if d == 3 {
        '3'
    } else if d == 4 {
        '4'
    } else if d == 5 {
        '5'
    } else if d == 6 {
        '6'
    } else if d == 7 {
        '7'
    } else if d == 8 {
        '8'
    } else {
        '9'
    }
}

/// The usual decimal rendering of `n`, most significant digit first, with no
/// leading zeros (and `0` itself rendered as "0").
pub open spec fn dec_digits(n: nat) -> Seq<char>
    decreases n,
{
    if n < 10 {
        seq![digit_char(n)]
    } else {
        dec_digits(n / 10) + seq![digit_char(n % 10)]
    }
}

fn digit_str(d: u64) -> (r: &'static str)
    requires
        d < 10,
    ensures
        r@ == seq![digit_char(d as nat)],
{
    let r: &'static str = if d == 0 {
        proof { reveal_strlit("0"); }
        "0"
    } else if d == 1 {
        proof { reveal_strlit("1"); }
        "1"
    } else if d == 2 {
        proof { reveal_strlit("2"); }
        "2"
    } else if d == 3 {
        proof { reveal_strlit("3"); }
        "3"
    } else if d == 4 {
        proof { reveal_strlit("4"); }
        "4"
    } else if d == 5 {
        proof { reveal_strlit("5"); }
        "5"
    } else if d == 6 {
        proof { reveal_strlit("6"); }
        "6"
    } else if d == 7 {
        proof { reveal_strlit("7"); }
        "7"
    } else if d == 8 {
        proof { reveal_strlit("8"); }
        "8"
    } else {
        proof { reveal_strlit("9"); }
        "9"
    };
    proof {
        assert(r@ =~= seq![digit_char(d as nat)]);
    }
    r
}

/// Renders `n` in decimal.
pub fn u64_to_dec(n: u64) -> (r: String)
    ensures
        r@ == dec_digits(n as nat),
    decreases n,
{
    if n < 10 {
        let r = String::from_str(digit_str(n));
        r
    } else {
        let head = u64_to_dec(n / 10);
        let r = head.concat(digit_str(n % 10));
        proof {
            assert(r@ =~= dec_digits(n as nat));
        }
        r
    }
}

/// The synthetic identifier assigned to the rule at zero-based position `n`
/// when a structured policy sequence is serialized back to text.
pub open spec fn spec_policy_id(n: nat) -> Seq<char> {
    "policy"@ + dec_digits(n)
}

/// Builds the synthetic identifier `policy<n>`.
pub fn synthetic_policy_id(n: u64) -> (r: String)
    ensures
        r@ == spec_policy_id(n as nat),
{
    let head = String::from_str("policy");
    let digits = u64_to_dec(n);
    head.concat(digits.as_str())
}

} // verus!
