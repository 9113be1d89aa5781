//! Verified text building: decimal rendering of counts, concatenation,
//! semicolon joining of failure reasons, and ASCII whitespace trimming.
//! Response messages are specified character for character with these.

use vstd::prelude::*;

use vstd::string::StringExecFns;

verus! {

/// The character of one decimal digit.
pub open spec fn spec_digit_char(d: int) -> char {
    if d == 0 {
        '0'
    } else if d == 1 {
        '1'
    } else if d == 2 {
        '2'
    } else if d == 3 {
        '3'
    } else if d == 4 {
        '4'
    } else if d == 5 {
        '5'
    } else if d == 6 {
        '6'
    } else if d == 7 {
        '7'
    } else if d == 8 {
        '8'
    } else {
        '9'
    }
}

/// The decimal rendering of a non-negative integer, most significant
/// digit first, no leading zeros (except for 0 itself).
pub open spec fn spec_decimal(n: int) -> Seq<char>
    decreases n,
{
    if n < 10 {
        seq![spec_digit_char(n)]
    } else {
        spec_decimal(n / 10).push(spec_digit_char(n % 10))
    }
}

/// The one-character string of a decimal digit.
fn digit_str(d: u64) -> (r: &'static str)
    requires
        d < 10,
    ensures
        r@ =~= seq![spec_digit_char(d as int)],
{
    proof {
        reveal_strlit("0");
        reveal_strlit("1");
        reveal_strlit("2");
        reveal_strlit("3");
        reveal_strlit("4");
        reveal_strlit("5");
        reveal_strlit("6");
        reveal_strlit("7");
        reveal_strlit("8");
        reveal_strlit("9");
    }
    match d {
        0 => "0",
        1 => "1",
        2 => "2",
        3 => "3",
        4 => "4",
        5 => "5",
        6 => "6",
        7 => "7",
        8 => "8",
        _ => "9",
    }
}

/// Render a count in decimal.
pub fn decimal_string(n: u64) -> (r: String)
    ensures
        r@ == spec_decimal(n as int),
{
    let mut acc = String::new();
    let mut m = n;
    loop
        invariant_except_break
            spec_decimal(n as int) == spec_decimal(m as int) + acc@,
        ensures
            acc@ == spec_decimal(n as int),
        decreases m,
    {
        let d = m % 10;
        let rest = m / 10;
        proof {
            if m >= 10 {
                assert(spec_decimal(m as int) == spec_decimal(m as int / 10).push(
                    spec_digit_char(m as int % 10),
                ));
                assert(spec_decimal(rest as int).push(spec_digit_char(d as int)) =~= spec_decimal(
                    rest as int,
                ) + seq![spec_digit_char(d as int)]);
            } else {
                assert(spec_decimal(m as int) =~= seq![spec_digit_char(d as int)]);
            }
        }
        let prefix = String::from_str(digit_str(d));
        acc = prefix.concat(acc.as_str());
        m = rest;
        if m == 0 {
            proof {
                assert(spec_decimal(n as int) =~= acc@);
            }
            break;
        }
        proof {
            assert(spec_decimal(m as int) + (seq![spec_digit_char(d as int)] + acc@) =~= (
            spec_decimal(m as int) + seq![spec_digit_char(d as int)]) + acc@);
        }
    }
    acc
}

/// Two pieces of text, concatenated.
pub fn concat2(a: &str, b: &str) -> (r: String)
    ensures
        r@ == a@ + b@,
{
    String::from_str(a).concat(b)
}

/// Three pieces of text, concatenated.
pub fn concat3(a: &str, b: &str, c: &str) -> (r: String)
    ensures
        r@ == a@ + b@ + c@,
{
    String::from_str(a).concat(b).concat(c)
}

/// Four pieces of text, concatenated.
pub fn concat4(a: &str, b: &str, c: &str, d: &str) -> (r: String)
    ensures
        r@ == a@ + b@ + c@ + d@,
{
    String::from_str(a).concat(b).concat(c).concat(d)
}

/// The pieces joined by a separator.
pub open spec fn spec_join(parts: Seq<Seq<char>>, sep: Seq<char>) -> Seq<char>
    decreases parts.len(),
{
    if parts.len() == 0 {
        Seq::empty()
    } else if parts.len() == 1 {
        parts.first()
    } else {
        parts.first() + sep + spec_join(parts.drop_first(), sep)
    }
}

/// The pieces joined by "; ": the shape of a multi-failure report.
pub open spec fn spec_join_semicolon(parts: Seq<Seq<char>>) -> Seq<char> {
    spec_join(parts, "; "@)
}

/// Join pieces of text with a separator, in order.
pub fn join_with(parts: &Vec<String>, sep: &str) -> (r: String)
    ensures
        r@ == spec_join(parts@.map_values(|s: String| s@), sep@),
{
    let ghost views = parts@.map_values(|s: String| s@);
    let mut r = String::new();
    let mut i: usize = 0;
    if parts.len() == 0 {
        return r;
    }
    while i < parts.len()
        invariant
            0 < parts@.len(),
            i <= parts@.len(),
            views == parts@.map_values(|s: String| s@),
            i == 0 ==> r@ == Seq::<char>::empty(),
            i > 0 ==> r@ == spec_join(views.take(i as int), sep@),
        decreases parts@.len() - i,
    {
        if i > 0 {
            r = r.concat(sep);
        }
        r = r.concat(parts[i].as_str());
        proof {
            lemma_join_snoc(views, sep@, i as int);
        }
        i = i + 1;
    }
    proof {
        assert(views.take(views.len() as int) =~= views);
    }
    r
}

/// Joining one more part appends the separator and the part (or just
/// the part, if it is the first).
proof fn lemma_join_snoc(views: Seq<Seq<char>>, sep: Seq<char>, i: int)
    requires
        0 <= i < views.len(),
    ensures
        i == 0 ==> spec_join(views.take(1), sep) == views[0],
        i > 0 ==> spec_join(views.take(i + 1), sep) == spec_join(views.take(i), sep) + sep
            + views[i],
    decreases i,
{
    if i == 0 {
        assert(views.take(1).len() == 1);
        assert(views.take(1).first() == views[0]);
    } else {
        let a = views.take(i + 1);
        let b = views.take(i);
        assert(a.len() >= 2);
        assert(a.first() == views[0]);
        assert(b.first() == views[0]);
        if i == 1 {
            assert(a.drop_first() =~= views.subrange(1, 2));
            assert(spec_join(a.drop_first(), sep) == views[1]);
            assert(b.len() == 1);
        } else {
            let views1 = views.drop_first();
            assert(a.drop_first() =~= views1.take(i));
            assert(b.drop_first() =~= views1.take(i - 1));
            lemma_join_snoc(views1, sep, i - 1);
            assert(views1[i - 1] == views[i]);
            assert(spec_join(views1.take(i), sep) == spec_join(views1.take(i - 1), sep) + sep
                + views1[i - 1]);
        }
    }
}

/// ASCII whitespace, as the trailing trim of command output sees it.
pub open spec fn is_ascii_space(b: u8) -> bool {
    b == 32 || b == 9 || b == 10 || b == 13
}

/// The bytes with all leading and trailing ASCII whitespace removed.
pub open spec fn spec_trim(bytes: Seq<u8>) -> Seq<u8>
    decreases bytes.len(),
{
    if bytes.len() == 0 {
        bytes
    } else if is_ascii_space(bytes.first()) {
        spec_trim(bytes.drop_first())
    } else if is_ascii_space(bytes.last()) {
        spec_trim(bytes.drop_last())
    } else {
        bytes
    }
}

/// Drop leading and trailing ASCII whitespace.
pub fn trim_ascii(bytes: &Vec<u8>) -> (r: Vec<u8>)
    ensures
        r@ == spec_trim(bytes@),
{
    let mut lo: usize = 0;
    let mut hi: usize = bytes.len();
    proof {
        assert(bytes@.subrange(0, bytes@.len() as int) =~= bytes@);
    }
    while lo < hi && is_space_byte(bytes[lo])
        invariant
            lo <= hi <= bytes@.len(),
            spec_trim(bytes@) == spec_trim(bytes@.subrange(lo as int, hi as int)),
        decreases hi - lo,
    {
        proof {
            lemma_trim_step_front(bytes@.subrange(lo as int, hi as int));
            assert(bytes@.subrange(lo as int, hi as int).drop_first() =~= bytes@.subrange(
                lo + 1,
                hi as int,
            ));
        }
        lo = lo + 1;
    }
    while lo < hi && is_space_byte(bytes[hi - 1])
        invariant
            lo <= hi <= bytes@.len(),
            spec_trim(bytes@) == spec_trim(bytes@.subrange(lo as int, hi as int)),
            lo < hi ==> !is_ascii_space(bytes@[lo as int]),
        decreases hi - lo,
    {
        proof {
            lemma_trim_step_back(bytes@.subrange(lo as int, hi as int));
            assert(bytes@.subrange(lo as int, hi as int).drop_last() =~= bytes@.subrange(
                lo as int,
                hi - 1,
            ));
        }
        hi = hi - 1;
    }
    let mut r: Vec<u8> = Vec::new();
    let mut i = lo;
    while i < hi
        invariant
            lo <= i <= hi <= bytes@.len(),
            r@ == bytes@.subrange(lo as int, i as int),
        decreases hi - i,
    {
        r.push(bytes[i]);
        proof {
            assert(bytes@.subrange(lo as int, i + 1) =~= bytes@.subrange(lo as int, i as int).push(
                bytes@[i as int],
            ));
        }
        i = i + 1;
    }
    proof {
        lemma_trim_fixed(bytes@.subrange(lo as int, hi as int));
    }
    r
}

fn is_space_byte(b: u8) -> (r: bool)
    ensures
        r == is_ascii_space(b),
{
    b == 32 || b == 9 || b == 10 || b == 13
}

proof fn lemma_trim_step_front(s: Seq<u8>)
    requires
        s.len() > 0,
        is_ascii_space(s.first()),
    ensures
        spec_trim(s) == spec_trim(s.drop_first()),
{
}

proof fn lemma_trim_step_back(s: Seq<u8>)
    requires
        s.len() > 0,
        !is_ascii_space(s.first()),
        is_ascii_space(s.last()),
    ensures
        spec_trim(s) == spec_trim(s.drop_last()),
{
}

proof fn lemma_trim_fixed(s: Seq<u8>)
    requires
        s.len() > 0 ==> !is_ascii_space(s.first()),
        s.len() > 0 ==> !is_ascii_space(s.last()),
    ensures
        spec_trim(s) == s,
{
}

} // verus!
