//! Decimal rendering of integers, as `Display` writes them for the integer
//! types.

use vstd::prelude::*;
use vstd::string::*;

verus! {

/// The character of a decimal digit `d` (0 to 9).
pub open spec fn digit_char(d: nat) -> char {
    if d == 0 {
        '0'
    } else if d == 1 {
        '1'
    } else if d == 2 {
        '2'
    } else if d == 3 {
        '3'
    } else if d == 4 {
        '4'
    } else if d == 5 {
        '5'
    } else if d == 6 {
        '6'
    } else if d == 7 {
        '7'
    } else if d == 8 {
        '8'
    } else {
        '9'
    }
}

/// The decimal digits of `n`, most significant first, without leading zeros
/// (`0` is written as the single digit `0`).
pub open spec fn decimal(n: nat) -> Seq<char>
    decreases n,
{
    if n < 10 {
        seq![digit_char(n)]
    } else {
        decimal(n / 10).push(digit_char(n % 10))
    }
}

/// The decimal text of a signed integer: a minus sign before the digits of
/// its magnitude when it is negative.
pub open spec fn signed_decimal(x: int) -> Seq<char> {
    if x < 0 {
        seq!['-'] + decimal((-x) as nat)
    } else {
        decimal(x as nat)
    }
}

/// The text `host:port` by which a TCP endpoint is dialled or bound.
pub open spec fn host_port(host: Seq<char>, port: nat) -> Seq<char> {
    host + seq![':'] + decimal(port)
}

/// The decimal digits of `n` that come before its last digit (none for a
/// single-digit `n`).
spec fn leading_digits(n: nat) -> Seq<char> {
    if n == 0 {
        Seq::empty()
    } else {
        decimal(n)
    }
}

/// A one-character string holding the digit `d`.
fn digit_str(d: u64) -> (s: &'static str)
    requires
        d < 10,
    ensures
        s@ == seq![digit_char(d as nat)],
{
    proof {
        reveal_strlit("0");
        reveal_strlit("1");
        reveal_strlit("2");
        reveal_strlit("3");
        reveal_strlit("4");
        reveal_strlit("5");
        reveal_strlit("6");
        reveal_strlit("7");
        reveal_strlit("8");
        reveal_strlit("9");
    }
    if d == 0 {
        "0"
    } else if d == 1 {
        "1"
    } else if d == 2 {
        "2"
    } else if d == 3 {
        "3"
    } else if d == 4 {
        "4"
    } else if d == 5 {
        "5"
    } else if d == 6 {
        "6"
    } else if d == 7 {
        "7"
    } else if d == 8 {
        "8"
    } else {
        "9"
    }
}

/// The decimal text of an unsigned integer.
pub fn decimal_string(n: u64) -> (s: String)
    ensures
        s@ == decimal(n as nat),
{
    let mut acc = String::from_str(digit_str(n % 10));
    let mut m: u64 = n / 10;
    assert(decimal(n as nat) == leading_digits(m as nat) + acc@) by {
        if n >= 10 {
            assert(decimal(n as nat) == decimal(m as nat).push(digit_char((n % 10) as nat)));
        } else {
            assert(leading_digits(m as nat) =~= Seq::<char>::empty());
        }
    }
    while m > 0
        invariant
            decimal(n as nat) == leading_digits(m as nat) + acc@,
        decreases m,
    {
        let d = digit_str(m % 10);
        let ghost old_acc = acc@;
        acc = String::from_str(d).concat(acc.as_str());
        let next: u64 = m / 10;
        assert(leading_digits(m as nat) == leading_digits(next as nat).push(digit_char((m % 10) as nat))) by {
            if m < 10 {
                assert(leading_digits(next as nat) =~= Seq::<char>::empty());
            }
        }
        assert(leading_digits(next as nat) + acc@ =~= leading_digits(m as nat) + old_acc);
        m = next;
    }
    assert(leading_digits(0) + acc@ =~= acc@);
    acc
}

/// The decimal text of a signed integer.
pub fn signed_decimal_string(x: i64) -> (s: String)
    ensures
        s@ == signed_decimal(x as int),
{
    if x < 0 {
        let magnitude: u64 = if x == i64::MIN {
            9223372036854775808u64
        } else {
            (-x) as u64
        };
        let digits = decimal_string(magnitude);
        proof {
            reveal_strlit("-");
        }
        String::from_str("-").concat(digits.as_str())
    } else {
        decimal_string(x as u64)
    }
}

/// The text `host:port` for a host name and a port number.
pub fn host_port_string(host: &String, port: usize) -> (s: String)
    ensures
        s@ == host_port(host@, port as nat),
{
    let digits = decimal_string(port as u64);
    let mut s = host.clone();
    proof {
        reveal_strlit(":");
    }
    s.append(":");
    s.append(digits.as_str());
    s
}

/// Whether `c` is one of the ten decimal digits.
pub open spec fn is_digit(c: char) -> bool {
    c == '0' || c == '1' || c == '2' || c == '3' || c == '4' || c == '5' || c == '6' || c == '7'
        || c == '8' || c == '9'
}

/// The value of a decimal digit character.
pub open spec fn digit_value(c: char) -> int {
    if c == '0' {
        0
    } else if c == '1' {
        1
    } else if c == '2' {
        2
    } else if c == '3' {
        3
    } else if c == '4' {
        4
    } else if c == '5' {
        5
    } else if c == '6' {
        6
    } else if c == '7' {
        7
    } else if c == '8' {
        8
    } else {
        9
    }
}

/// The number that a string of decimal digits denotes, read from the left.
pub open spec fn digits_value(s: Seq<char>) -> int
    decreases s.len(),
{
    if s.len() == 0 {
        0
    } else {
        digits_value(s.drop_last()) * 10 + digit_value(s.last())
    }
}

/// The number that a decimal text with an optional leading minus sign
/// denotes.
pub open spec fn signed_value(s: Seq<char>) -> int {
    if s.len() > 0 && s[0] == '-' {
        -digits_value(s.drop_first())
    } else {
        digits_value(s)
    }
}

/// Whether `s` is a decimal numeral as `Display` writes it: one or more
/// digits, with no leading zero unless the numeral is `0` itself.
pub open spec fn is_numeral(s: Seq<char>) -> bool {
    &&& s.len() > 0
    &&& forall|i: int| 0 <= i < s.len() ==> is_digit(#[trigger] s[i])
    &&& (s[0] == '0' ==> s.len() == 1)
}

/// A digit's character is a digit, has that value, and is `0` only for zero.
proof fn lemma_digit_char(d: nat)
    requires
        d < 10,
    ensures
        is_digit(digit_char(d)),
        digit_value(digit_char(d)) == d,
        digit_char(d) == '0' <==> d == 0,
{
}

/// The decimal text of `n` is a numeral whose value is `n`: every digit is
/// there, none is dropped, and none is added in front.
pub proof fn lemma_decimal_denotes(n: nat)
    ensures
        is_numeral(decimal(n)),
        digits_value(decimal(n)) == n,
    decreases n,
{
    if n >= 10 {
        lemma_decimal_denotes(n / 10);
        let prefix = decimal(n / 10);
        let d = digit_char(n % 10);
        let s = decimal(n);
        assert(s == prefix.push(d));
        assert(s.drop_last() =~= prefix);
        assert(s.last() == d);
        lemma_digit_char(n % 10);
        assert(digits_value(s) == digits_value(prefix) * 10 + digit_value(d));
        assert(n == (n / 10) * 10 + n % 10);
        assert forall|i: int| 0 <= i < s.len() implies is_digit(#[trigger] s[i]) by {
            if i < prefix.len() {
                assert(s[i] == prefix[i]);
            }
        }
        assert(s[0] == prefix[0]);
        assert(prefix[0] != '0') by {
            if prefix[0] == '0' {
                assert(prefix.len() == 1);
                assert(prefix.drop_last() =~= Seq::<char>::empty());
                assert(digits_value(Seq::<char>::empty()) == 0);
                assert(digits_value(prefix) == digits_value(prefix.drop_last()) * 10 + digit_value(prefix.last()));
                assert(prefix.last() == prefix[0]);
            }
        }
    } else {
        let s = decimal(n);
        lemma_digit_char(n);
        assert(s.drop_last() =~= Seq::<char>::empty());
        assert(digits_value(Seq::<char>::empty()) == 0);
        assert(digits_value(s) == digits_value(s.drop_last()) * 10 + digit_value(s.last()));
    }
}

/// The signed decimal text of `x` denotes `x`: a minus sign exactly when `x`
/// is negative, followed by the numeral of its magnitude.
pub proof fn lemma_signed_decimal_denotes(x: int)
    ensures
        signed_value(signed_decimal(x)) == x,
        x < 0 <==> (signed_decimal(x).len() > 0 && signed_decimal(x)[0] == '-'),
        x < 0 ==> is_numeral(signed_decimal(x).drop_first()),
        x >= 0 ==> is_numeral(signed_decimal(x)),
{
    if x < 0 {
        let m = (-x) as nat;
        lemma_decimal_denotes(m);
        let s = signed_decimal(x);
        assert(s.drop_first() =~= decimal(m));
    } else {
        lemma_decimal_denotes(x as nat);
        let s = decimal(x as nat);
        assert(is_digit(s[0]));
    }
}

/// The address text is the host, then one colon, then the numeral of the
/// port: reading the digits after the colon gives back the port.
pub proof fn lemma_host_port_parts(host: Seq<char>, port: nat)
    ensures
        host_port(host, port).take(host.len() as int) == host,
        host_port(host, port)[host.len() as int] == ':',
        is_numeral(host_port(host, port).skip(host.len() as int + 1)),
        digits_value(host_port(host, port).skip(host.len() as int + 1)) == port,
{
    lemma_decimal_denotes(port);
    let t = host_port(host, port);
    assert(t.take(host.len() as int) =~= host);
    assert(t.skip(host.len() as int + 1) =~= decimal(port));
}

} // verus!
