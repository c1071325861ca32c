//! Small verified text helpers: decimal rendering of integers and joining of
//! string lists, used for positional binding names and debug layouts.

use vstd::prelude::*;
use vstd::string::StringExecFns;

verus! {

/// The character for one decimal digit.
pub open spec fn digit_char(d: nat) -> char {
    if d == 0 {
        '0'
    } else if d == 1 {
        '1'
    } else if d == 2 {
        '2'
    } else if d == 3 {
        '3'
    } else if d == 4 {
        '4'
    } else if d == 5 {
        '5'
    } else if d == 6 {
        '6'
    } else if d == 7 {
        '7'
    } else if d == 8 {
        '8'
    } else {
        '9'
    }
}

/// The decimal rendering of a natural number, most significant digit first.
pub open spec fn dec_digits(n: nat) -> Seq<char>
    decreases n,
{
    if n < 10 {
        seq![digit_char(n)]
    } else {
        dec_digits(n / 10) + seq![digit_char(n % 10)]
    }
}

/// The decimal rendering of an integer, with a leading minus sign when
/// negative.
pub open spec fn dec_int(n: int) -> Seq<char> {
    if n >= 0 {
        dec_digits(n as nat)
    } else {
        seq!['-'] + dec_digits((-n) as nat)
    }
}

fn digit_str(d: u64) -> (r: &'static str)
    requires
        d < 10,
    ensures
        r@ =~= seq![digit_char(d as nat)],
{
    proof {
        reveal_strlit("0");
        reveal_strlit("1");
        reveal_strlit("2");
        reveal_strlit("3");
        reveal_strlit("4");
        reveal_strlit("5");
        reveal_strlit("6");
        reveal_strlit("7");
        reveal_strlit("8");
        reveal_strlit("9");
    }
    match d {
        0 => "0",
        1 => "1",
        2 => "2",
        3 => "3",
        4 => "4",
        5 => "5",
        6 => "6",
        7 => "7",
        8 => "8",
        _ => "9",
    }
}

/// Renders a natural number in decimal.
pub fn u64_to_string(n: u64) -> (r: String)
    ensures
        r@ == dec_digits(n as nat),
    decreases n,
{
    if n < 10 {
        let r = String::from_str(digit_str(n));
        proof {
            assert(r@ =~= dec_digits(n as nat));
        }
        r
    } else {
        let mut s = u64_to_string(n / 10);
        s.append(digit_str(n % 10));
        proof {
            assert(s@ =~= dec_digits(n as nat));
        }
        s
    }
}

/// Renders a signed integer in decimal, with a minus sign when negative.
pub fn i64_to_string(n: i64) -> (r: String)
    ensures
        r@ == dec_int(n as int),
{
    if n >= 0 {
        let r = u64_to_string(n as u64);
        proof {
            assert(r@ =~= dec_int(n as int));
        }
        r
    } else {
        let magnitude: u64 = if n == i64::MIN {
            9223372036854775808u64
        } else {
            (-n) as u64
        };
        let mut s = String::from_str("-");
        proof {
            reveal_strlit("-");
        }
        s.append(u64_to_string(magnitude).as_str());
        proof {
            assert(s@ =~= dec_int(n as int));
        }
        s
    }
}

/// Compares a string against a literal.
pub fn string_eq_lit(a: &String, b: &str) -> (r: bool)
    ensures
        r == (a@ == b@),
{
    a.eq(&String::from_str(b))
}

/// The elements of `xs` joined by `sep`.
pub open spec fn spec_join(xs: Seq<Seq<char>>, sep: Seq<char>) -> Seq<char>
    decreases xs.len(),
{
    if xs.len() == 0 {
        Seq::empty()
    } else if xs.len() == 1 {
        xs[0]
    } else {
        xs[0] + sep + spec_join(xs.drop_first(), sep)
    }
}

proof fn lemma_join_push(xs: Seq<Seq<char>>, sep: Seq<char>, x: Seq<char>)
    ensures
        spec_join(xs.push(x), sep) == if xs.len() == 0 {
            x
        } else {
            spec_join(xs, sep) + sep + x
        },
    decreases xs.len(),
{
    if xs.len() == 0 {
        assert(xs.push(x).len() == 1);
        assert(xs.push(x)[0] == x);
    } else if xs.len() == 1 {
        assert(xs.push(x).drop_first() =~= seq![x]);
        assert(spec_join(seq![x], sep) == x);
        assert(xs.push(x)[0] == xs[0]);
        assert(spec_join(xs.push(x), sep) == xs[0] + sep + x);
        assert(spec_join(xs, sep) == xs[0]);
    } else {
        lemma_join_push(xs.drop_first(), sep, x);
        assert(xs.push(x).drop_first() =~= xs.drop_first().push(x));
        assert(spec_join(xs, sep) + sep + x =~= xs[0] + sep + (spec_join(
            xs.drop_first(),
            sep,
        ) + sep + x));
    }
}

/// The views of a list of strings.
pub open spec fn views_of(xs: Seq<String>) -> Seq<Seq<char>> {
    xs.map_values(|s: String| s@)
}

/// Joins the strings in `xs`, separated by `sep`.
pub fn join_strings(xs: &Vec<String>, sep: &str) -> (r: String)
    ensures
        r@ == spec_join(views_of(xs@), sep@),
{
    let mut r = String::new();
    let mut i: usize = 0;
    while i < xs.len()
        invariant
            i <= xs@.len(),
            r@ == spec_join(views_of(xs@.take(i as int)), sep@),
        decreases xs@.len() - i,
    {
        if i > 0 {
            r.append(sep);
        }
        r.append(xs[i].as_str());
        proof {
            let prefix = views_of(xs@.take(i as int));
            lemma_join_push(prefix, sep@, xs@[i as int]@);
            assert(views_of(xs@.take(i + 1 as int)) =~= prefix.push(xs@[i as int]@));
        }
        i = i + 1;
    }
    proof {
        assert(xs@.take(xs@.len() as int) =~= xs@);
    }
    r
}

} // verus!
