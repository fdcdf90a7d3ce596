//! Number formatting used in finding identifiers, addresses and reports.

use vstd::prelude::*;

verus! {

/// The decimal digit character for `d` (`d < 10`).
pub open spec fn digit_char(d: nat) -> char {
    if d == 0 {
        '0'
    } else if d == 1 {
        '1'
    } else if d == 2 {
        '2'
    } else if d == 3 {
        '3'
    } else if d == 4 {
        '4'
    } else if d == 5 {
        '5'
    } else if d == 6 {
        '6'
    } else if d == 7 {
        '7'
    } else if d == 8 {
        '8'
    } else {
        '9'
    }
}

/// The lowercase hexadecimal digit character for `d` (`d < 16`).
pub open spec fn hex_char(d: nat) -> char {
    if d < 10 {
        digit_char(d)
    } else if d == 10 {
        'a'
    } else if d == 11 {
        'b'
    } else if d == 12 {
        'c'
    } else if d == 13 {
        'd'
    } else if d == 14 {
        'e'
    } else {
        'f'
    }
}

/// Shortest decimal representation of `n`, as `{}` prints an unsigned integer.
pub open spec fn decimal(n: nat) -> Seq<char>
    decreases n,
{
    if n < 10 {
        seq![digit_char(n)]
    } else {
        decimal(n / 10).push(digit_char(n % 10))
    }
}

/// Decimal representation of a signed integer, as `{}` prints it.
pub open spec fn signed_decimal(n: int) -> Seq<char> {
    if n < 0 {
        seq!['-'] + decimal((-n) as nat)
    } else {
        decimal(n as nat)
    }
}

/// `s` left-padded with `'0'` to at least `width` characters, as `{:0w}` pads.
pub open spec fn zero_padded(s: Seq<char>, width: nat) -> Seq<char> {
    if s.len() >= width {
        s
    } else {
        Seq::new((width - s.len()) as nat, |i: int| '0') + s
    }
}

/// The last `count` lowercase hexadecimal digits of `n`, most significant first.
pub open spec fn hex_digits(n: nat, count: nat) -> Seq<char>
    decreases count,
{
    if count == 0 {
        Seq::empty()
    } else {
        hex_digits(n / 16, (count - 1) as nat).push(hex_char(n % 16))
    }
}

pub proof fn lemma_decimal_nonempty(n: nat)
    ensures
        decimal(n).len() >= 1,
    decreases n,
{
    if n >= 10 {
        lemma_decimal_nonempty(n / 10);
    }
}

fn digit_str(d: u64) -> (s: &'static str)
    requires
        d < 10,
    ensures
        s@ == seq![digit_char(d as nat)],
{
    if d == 0 {
        proof { reveal_strlit("0"); }
        assert("0"@ =~= seq!['0']);
        "0"
    } else if d == 1 {
        proof { reveal_strlit("1"); }
        assert("1"@ =~= seq!['1']);
        "1"
    } else if d == 2 {
        proof { reveal_strlit("2"); }
        assert("2"@ =~= seq!['2']);
        "2"
    } else if d == 3 {
        proof { reveal_strlit("3"); }
        assert("3"@ =~= seq!['3']);
        "3"
    } else if d == 4 {
        proof { reveal_strlit("4"); }
        assert("4"@ =~= seq!['4']);
        "4"
    } else if d == 5 {
        proof { reveal_strlit("5"); }
        assert("5"@ =~= seq!['5']);
        "5"
    } else if d == 6 {
        proof { reveal_strlit("6"); }
        assert("6"@ =~= seq!['6']);
        "6"
    } else if d == 7 {
        proof { reveal_strlit("7"); }
        assert("7"@ =~= seq!['7']);
        "7"
    } else if d == 8 {
        proof { reveal_strlit("8"); }
        assert("8"@ =~= seq!['8']);
        "8"
    } else {
        proof { reveal_strlit("9"); }
        assert("9"@ =~= seq!['9']);
        "9"
    }
}

fn hex_str(d: u64) -> (s: &'static str)
    requires
        d < 16,
    ensures
        s@ == seq![hex_char(d as nat)],
{
    if d < 10 {
        digit_str(d)
    } else if d == 10 {
        proof { reveal_strlit("a"); }
        assert("a"@ =~= seq!['a']);
        "a"
    } else if d == 11 {
        proof { reveal_strlit("b"); }
        assert("b"@ =~= seq!['b']);
        "b"
    } else if d == 12 {
        proof { reveal_strlit("c"); }
        assert("c"@ =~= seq!['c']);
        "c"
    } else if d == 13 {
        proof { reveal_strlit("d"); }
        assert("d"@ =~= seq!['d']);
        "d"
    } else if d == 14 {
        proof { reveal_strlit("e"); }
        assert("e"@ =~= seq!['e']);
        "e"
    } else {
        proof { reveal_strlit("f"); }
        assert("f"@ =~= seq!['f']);
        "f"
    }
}

/// Appends the decimal representation of `n` to `s`.
pub fn append_decimal(s: &mut String, n: u64)
    ensures
        final(s)@ == old(s)@ + decimal(n as nat),
    decreases n,
{
    if n >= 10 {
        append_decimal(s, n / 10);
    }
    let ghost mid = s@;
    s.append(digit_str(n % 10));
    proof {
        if n >= 10 {
            assert(mid == old(s)@ + decimal((n / 10) as nat));
            assert(s@ =~= old(s)@ + decimal(n as nat));
        } else {
            assert(s@ =~= old(s)@ + decimal(n as nat));
        }
    }
}

/// Appends the decimal representation of a signed `n` to `s`.
pub fn append_signed_decimal(s: &mut String, n: i64)
    ensures
        final(s)@ == old(s)@ + signed_decimal(n as int),
{
    if n < 0 {
        proof { reveal_strlit("-"); }
        s.append("-");
        let ghost mid = s@;
        let magnitude: u64 = ((-(n + 1)) as u64) + 1;
        assert(magnitude == -(n as int));
        append_decimal(s, magnitude);
        assert(s@ =~= old(s)@ + signed_decimal(n as int));
    } else {
        append_decimal(s, n as u64);
    }
}

pub open spec fn pow10(k: nat) -> nat
    decreases k,
{
    if k == 0 {
        1
    } else {
        10 * pow10((k - 1) as nat)
    }
}

/// A number has more than `k` decimal digits exactly when it is at least `10^k`.
pub proof fn lemma_decimal_len_pow10(n: nat, k: nat)
    requires
        k > 0,
    ensures
        decimal(n).len() > k <==> n >= pow10(k),
    decreases n,
{
    lemma_decimal_nonempty(n);
    if k > 0 {
        lemma_pow10_ge_10(k);
        let m = pow10((k - 1) as nat);
        assert(pow10(k) == 10 * m);
        if n >= 10 {
            lemma_decimal_nonempty(n / 10);
            if k > 1 {
                lemma_decimal_len_pow10(n / 10, (k - 1) as nat);
                assert(n / 10 >= m <==> n >= 10 * m) by (nonlinear_arith);
            } else {
                reveal_with_fuel(pow10, 2);
            }
        }
    }
}

proof fn lemma_pow10_ge_10(k: nat)
    requires
        k > 0,
    ensures
        pow10(k) >= 10,
    decreases k,
{
    reveal_with_fuel(pow10, 2);
    if k > 1 {
        lemma_pow10_ge_10((k - 1) as nat);
    }
}

/// Number of digits in the decimal representation of `n`.
pub fn decimal_len(n: u64) -> (len: usize)
    ensures
        len == decimal(n as nat).len(),
        1 <= len <= 20,
    decreases n,
{
    proof {
        lemma_decimal_nonempty(n as nat);
        lemma_decimal_len_pow10(n as nat, 20);
        reveal_with_fuel(pow10, 21);
        assert(pow10(20) == 100000000000000000000nat);
    }
    if n < 10 {
        1
    } else {
        let r = decimal_len(n / 10);
        r + 1
    }
}

/// Appends `n` in decimal, left-padded with zeros to `width` digits.
pub fn append_zero_padded_decimal(s: &mut String, n: u64, width: usize)
    ensures
        final(s)@ == old(s)@ + zero_padded(decimal(n as nat), width as nat),
{
    let len = decimal_len(n);
    let mut pad: usize = 0;
    if len < width {
        pad = width - len;
    }
    let mut i: usize = 0;
    while i < pad
        invariant
            i <= pad,
            s@ == old(s)@ + Seq::new(i as nat, |j: int| '0'),
        decreases pad - i,
    {
        let ghost before = s@;
        proof { reveal_strlit("0"); }
        s.append("0");
        assert(s@ =~= old(s)@ + Seq::new((i + 1) as nat, |j: int| '0'));
        i = i + 1;
    }
    let ghost mid = s@;
    append_decimal(s, n);
    proof {
        if len < width {
            assert(s@ =~= old(s)@ + zero_padded(decimal(n as nat), width as nat));
        } else {
            assert(Seq::new(0nat, |j: int| '0') =~= Seq::<char>::empty());
            assert(s@ =~= old(s)@ + zero_padded(decimal(n as nat), width as nat));
        }
    }
}

/// Appends the last `count` lowercase hexadecimal digits of `n`.
pub fn append_hex_digits(s: &mut String, n: u64, count: u64)
    ensures
        final(s)@ == old(s)@ + hex_digits(n as nat, count as nat),
    decreases count,
{
    if count > 0 {
        append_hex_digits(s, n / 16, count - 1);
        let ghost mid = s@;
        s.append(hex_str(n % 16));
        assert(s@ =~= old(s)@ + hex_digits(n as nat, count as nat));
    }
}

} // verus!
