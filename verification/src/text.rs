//! Numbers as text.

use vstd::prelude::*;
use vstd::string::StringExecFns;

verus! {

/// The character for a digit below ten.
pub open spec fn digit(d: nat) -> char {
    if d == 0 {
        '0'
    } else if d == 1 {
        '1'
    } else if d == 2 {
        '2'
    } else if d == 3 {
        '3'
    } else if d == 4 {
        '4'
    } else if d == 5 {
        '5'
    } else if d == 6 {
        '6'
    } else if d == 7 {
        '7'
    } else if d == 8 {
        '8'
    } else {
        '9'
    }
}

/// `n` in the positional system to `base`, without leading zeroes.
pub open spec fn numeral(n: nat, base: nat) -> Seq<char>
    recommends
        2 <= base <= 10,
    decreases n,
{
    if base < 2 || n < base {
        seq![digit(n)]
    } else {
        proof {
            assert(n / base < n) by (nonlinear_arith)
                requires
                    2 <= base <= n,
            ;
        }
        numeral(n / base, base).push(digit(n % base))
    }
}

/// `n` in decimal, with a sign where it is negative.
pub open spec fn signed_decimal(n: int) -> Seq<char> {
    if n < 0 {
        "-"@ + numeral((-n) as nat, 10)
    } else {
        numeral(n as nat, 10)
    }
}

/// A digit as a string.
fn digit_str(d: u64) -> (r: &'static str)
    requires
        d < 10,
    ensures
        r@ == seq![digit(d as nat)],
{
    proof {
        reveal_strlit("0");
        reveal_strlit("1");
        reveal_strlit("2");
        reveal_strlit("3");
        reveal_strlit("4");
        reveal_strlit("5");
        reveal_strlit("6");
        reveal_strlit("7");
        reveal_strlit("8");
        reveal_strlit("9");
    }
    let r = match d {
        0 => "0",
        1 => "1",
        2 => "2",
        3 => "3",
        4 => "4",
        5 => "5",
        6 => "6",
        7 => "7",
        8 => "8",
        _ => "9",
    };
    assert(r@ =~= seq![digit(d as nat)]);
    r
}

/// Appends `n` to `out`, written to `base`.
pub fn push_numeral(out: &mut String, n: u64, base: u64)
    requires
        2 <= base <= 10,
    ensures
        final(out)@ == old(out)@ + numeral(n as nat, base as nat),
    decreases n,
{
    if n >= base {
        proof {
            assert(n / base < n) by (nonlinear_arith)
                requires
                    2 <= base <= n,
            ;
        }
        push_numeral(out, n / base, base);
        out.append(digit_str(n % base));
    } else {
        out.append(digit_str(n));
    }
    assert(out@ =~= old(out)@ + numeral(n as nat, base as nat));
}

/// Appends `n` to `out` in decimal.
pub fn push_decimal(out: &mut String, n: u64)
    ensures
        final(out)@ == old(out)@ + numeral(n as nat, 10),
{
    push_numeral(out, n, 10);
}

/// Appends `n` to `out` in decimal, with a sign where it is negative.
pub fn push_signed(out: &mut String, n: i32)
    ensures
        final(out)@ == old(out)@ + signed_decimal(n as int),
{
    let wide: i64 = n as i64;
    if wide < 0 {
        out.append("-");
        push_decimal(out, (0 - wide) as u64);
        assert(out@ =~= old(out)@ + signed_decimal(n as int));
    } else {
        push_decimal(out, wide as u64);
    }
}

/// The number that the digits of `t` make up in the positional system to `base`.
pub open spec fn value(t: Seq<char>, base: nat) -> int
    decreases t.len(),
{
    if t.len() == 0 {
        0
    } else {
        value(t.drop_last(), base) * base + (t.last() as int - 48)
    }
}

/// Whether `t` is how `n` is written to `base`: digits below `base` that make up `n`, and no zero
/// before them.
pub open spec fn is_numeral(t: Seq<char>, n: int, base: nat) -> bool {
    &&& t.len() > 0
    &&& forall|i: int|
        0 <= i < t.len() ==> 48 <= (#[trigger] t[i]) as int && t[i] as int - 48 < base
    &&& value(t, base) == n
    &&& t.len() > 1 ==> t[0] != '0'
}

/// Whether `t` is how `n` is written in decimal, with a sign where it is negative.
pub open spec fn is_signed_numeral(t: Seq<char>, n: int) -> bool {
    if n < 0 {
        t.len() > 0 && t[0] == '-' && is_numeral(t.skip(1), -n, 10)
    } else {
        is_numeral(t, n, 10)
    }
}

/// A number is written with digits that make it up, and no zero before them.
pub proof fn lemma_numeral(n: nat, base: nat)
    requires
        2 <= base <= 10,
    ensures
        is_numeral(numeral(n, base), n as int, base),
        n > 0 ==> numeral(n, base)[0] != '0',
    decreases n,
{
    let t = numeral(n, base);
    if n < base {
        assert(t.drop_last() =~= Seq::<char>::empty());
        assert(value(t.drop_last(), base) * base == 0) by (nonlinear_arith)
            requires
                value(t.drop_last(), base) == 0,
        ;
    } else {
        let (q, r) = (n / base, n % base);
        assert(q < n && 0 < q && r < base && q * base + r == n) by (nonlinear_arith)
            requires
                2 <= base <= n,
                q == n / base,
                r == n % base,
        ;
        lemma_numeral(q, base);
        assert(t.drop_last() =~= numeral(q, base));
    }
}

/// There is no other way to write a number like that.
pub proof fn lemma_numeral_unique(t: Seq<char>, n: nat, base: nat)
    requires
        2 <= base <= 10,
        is_numeral(t, n as int, base),
    ensures
        t == numeral(n, base),
    decreases t.len(),
{
    let head = t.drop_last();
    let d = t.last() as int - 48;
    let v = value(head, base);
    assert(t[t.len() - 1] == t.last());
    assert forall|i: int| 0 <= i < head.len() implies 48 <= (#[trigger] head[i]) as int && head[i]
        as int - 48 < base by {
        assert(head[i] == t[i]);
    }
    lemma_value_positive(head, base);
    if head.len() == 0 {
        assert(v * base == 0) by (nonlinear_arith)
            requires
                v == 0,
        ;
        assert(t =~= seq![digit(n)]);
    } else {
        assert(head[0] == t[0]);
        let (q, r) = (n as int / base as int, n as int % base as int);
        assert(n >= base && q == v && r == d) by (nonlinear_arith)
            requires
                2 <= base,
                v >= 1,
                0 <= d < base,
                n == v * base + d,
                q == n as int / base as int,
                r == n as int % base as int,
        ;
        lemma_numeral_unique(head, v as nat, base);
        assert(t =~= head.push(digit(d as nat)));
    }
}

/// Digits make up a number that is not negative, and a positive one where the first is no zero.
proof fn lemma_value_positive(t: Seq<char>, base: nat)
    requires
        2 <= base <= 10,
        forall|i: int| 0 <= i < t.len() ==> 48 <= (#[trigger] t[i]) as int,
    ensures
        value(t, base) >= 0,
        t.len() > 0 && t[0] != '0' ==> value(t, base) > 0,
    decreases t.len(),
{
    if t.len() > 0 {
        let head = t.drop_last();
        let v = value(head, base);
        assert forall|i: int| 0 <= i < head.len() implies 48 <= (#[trigger] head[i]) as int by {
            assert(head[i] == t[i]);
        }
        lemma_value_positive(head, base);
        assert(v * base >= v) by (nonlinear_arith)
            requires
                v >= 0,
                base >= 2,
        ;
        assert(t[t.len() - 1] == t.last());
        if head.len() > 0 {
            assert(head[0] == t[0]);
        }
    }
}

/// The same of numbers with a sign.
pub proof fn lemma_signed_unique(t: Seq<char>, n: int)
    requires
        is_signed_numeral(t, n),
    ensures
        t == signed_decimal(n),
{
    if n < 0 {
        lemma_numeral_unique(t.skip(1), (-n) as nat, 10);
        reveal_strlit("-");
        assert(t =~= "-"@ + t.skip(1));
    } else {
        lemma_numeral_unique(t, n as nat, 10);
    }
}

/// What is appended for a number is how it is written.
pub proof fn lemma_push(out: &mut String, n: u64, base: u64, written: Seq<char>)
    requires
        2 <= base <= 10,
        call_ensures(push_numeral, (out, n, base), ()),
        is_numeral(written, n as int, base as nat),
    ensures
        final(out)@ == old(out)@ + written,
{
    lemma_numeral_unique(written, n as nat, base as nat);
}

/// What is appended for a number in decimal is how it is written.
pub proof fn lemma_push_decimal(out: &mut String, n: u64, written: Seq<char>)
    requires
        call_ensures(push_decimal, (out, n), ()),
        is_numeral(written, n as int, 10),
    ensures
        final(out)@ == old(out)@ + written,
{
    lemma_numeral_unique(written, n as nat, 10);
}

/// What is appended for a number with a sign is how it is written.
pub proof fn lemma_push_signed(out: &mut String, n: i32, written: Seq<char>)
    requires
        call_ensures(push_signed, (out, n), ()),
        is_signed_numeral(written, n as int),
    ensures
        final(out)@ == old(out)@ + written,
{
    lemma_signed_unique(written, n as int);
}

} // verus!
