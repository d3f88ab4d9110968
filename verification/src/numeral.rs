//! Decimal numerals on lines of text: rendering integers and reading
//! them back, with the round trip proved.  The saved-game codec stores
//! every field as one such line.

use vstd::prelude::*;
use vstd::string::StrSliceExecFns;
use vstd::string::StringExecFns;

verus! {

/// The digit character for one value below ten.
pub open spec fn spec_digit(d: int) -> char {
    if d == 0 {
        '0'
    } else if d == 1 {
        '1'
    } else if d == 2 {
        '2'
    } else if d == 3 {
        '3'
    } else if d == 4 {
        '4'
    } else if d == 5 {
        '5'
    } else if d == 6 {
        '6'
    } else if d == 7 {
        '7'
    } else if d == 8 {
        '8'
    } else {
        '9'
    }
}

/// The decimal numeral of a non-negative integer, most significant
/// digit first, without sign or leading zeros.
pub open spec fn spec_u64_dec(n: nat) -> Seq<char>
    decreases n,
{
    if n < 10 {
        seq![spec_digit(n as int)]
    } else {
        spec_u64_dec(n / 10) + seq![spec_digit((n % 10) as int)]
    }
}

/// The decimal numeral of a signed integer: a minus sign ahead of the
/// magnitude for negative values.
pub open spec fn spec_i64_dec(n: int) -> Seq<char> {
    if n >= 0 {
        spec_u64_dec(n as nat)
    } else {
        seq!['-'] + spec_u64_dec((-n) as nat)
    }
}

/// Whether a character is a decimal digit.
pub open spec fn spec_is_digit(c: char) -> bool {
    '0' <= c <= '9'
}

/// The value a digit character stands for.
pub open spec fn spec_digit_val(c: char) -> int {
    c as int - '0' as int
}

/// Whether every character of the sequence is a decimal digit.
pub open spec fn spec_all_digits(s: Seq<char>) -> bool {
    forall|i: int| 0 <= i < s.len() ==> spec_is_digit(s[i])
}

/// The value of a digit sequence, most significant digit first.
pub open spec fn spec_dec_val(s: Seq<char>) -> int
    decreases s.len(),
{
    if s.len() == 0 {
        0
    } else {
        spec_dec_val(s.drop_last()) * 10 + spec_digit_val(s.last())
    }
}

/// Ten to the `k`.
pub open spec fn spec_pow10(k: nat) -> int
    decreases k,
{
    if k == 0 {
        1
    } else {
        10 * spec_pow10((k - 1) as nat)
    }
}

/// The largest magnitude the codec writes safely: ten to the
/// eighteenth, the numeral parser's digit cap.
pub open spec fn spec_encode_wf_bound() -> int {
    1000000000000000000
}

/// The numeral parser accepts at most eighteen digits, so every value
/// it returns stays below ten to the eighteenth.
pub proof fn lemma_pow10_18()
    ensures
        spec_pow10(18) == 1000000000000000000,
{
    reveal_with_fuel(spec_pow10, 20);
}

/// A numeral is never empty and consists of digits only.
pub proof fn lemma_numeral_digits(n: nat)
    ensures
        spec_u64_dec(n).len() >= 1,
        spec_all_digits(spec_u64_dec(n)),
    decreases n,
{
    if n >= 10 {
        lemma_numeral_digits(n / 10);
        let a = spec_u64_dec(n / 10);
        let s = spec_u64_dec(n);
        assert forall|i: int| 0 <= i < s.len() implies spec_is_digit(s[i]) by {
            if i < a.len() {
                assert(s[i] == a[i]);
            }
        }
    }
}

/// Reading a numeral back yields the value it was rendered from.
pub proof fn lemma_numeral_round(n: nat)
    ensures
        spec_dec_val(spec_u64_dec(n)) == n,
    decreases n,
{
    if n < 10 {
        let s = spec_u64_dec(n);
        assert(s.drop_last() =~= Seq::<char>::empty());
        assert(s.last() == spec_digit(n as int));
        lemma_digit_val_round(n as int);
        assert(s.len() == 1);
        assert(spec_dec_val(s) == spec_dec_val(s.drop_last()) * 10 + spec_digit_val(s.last()));
        assert(spec_dec_val(s.drop_last()) == 0);
        assert(spec_digit_val(s.last()) == n);
    } else {
        lemma_numeral_round(n / 10);
        let a = spec_u64_dec(n / 10);
        let s = spec_u64_dec(n);
        assert(s.drop_last() =~= a);
        assert(s.last() == spec_digit((n % 10) as int));
        lemma_digit_val_round((n % 10) as int);
        assert(spec_dec_val(s) == spec_dec_val(s.drop_last()) * 10 + spec_digit_val(s.last()));
        assert(spec_dec_val(s.drop_last()) == spec_dec_val(a));
        assert(spec_dec_val(a) == n / 10);
        assert(spec_digit_val(s.last()) == n % 10);
        assert(n == (n / 10) * 10 + (n % 10));
    }
}

/// A digit character reads back to the value it was chosen for.
pub proof fn lemma_digit_val_round(d: int)
    requires
        0 <= d < 10,
    ensures
        spec_digit_val(spec_digit(d)) == d,
{
}

/// A value below ten to the `k` renders to at most `k` digits.
pub proof fn lemma_numeral_len(n: nat, k: nat)
    requires
        k >= 1,
        n < spec_pow10(k),
    ensures
        spec_u64_dec(n).len() <= k,
    decreases k,
{
    if n >= 10 {
        assert(spec_pow10(1) == 10) by {
            reveal_with_fuel(spec_pow10, 2);
        }
        assert(k >= 2);
        assert(n == 10 * (n / 10) + n % 10);
        assert(n / 10 < spec_pow10((k - 1) as nat));
        lemma_numeral_len(n / 10, (k - 1) as nat);
    }
}

/// The position of the first line break at or after `pos`.
pub open spec fn spec_line_end(s: Seq<char>, pos: int) -> Option<int>
    decreases s.len() - pos when 0 <= pos <= s.len()
{
    if pos >= s.len() {
        None
    } else if s[pos] == '\n' {
        Some(pos)
    } else {
        spec_line_end(s, pos + 1)
    }
}

/// When a line break stands at `e` and none before it, the search from
/// `pos` finds exactly `e`.
pub proof fn lemma_line_end_at(s: Seq<char>, pos: int, e: int)
    requires
        0 <= pos <= e < s.len(),
        s[e] == '\n',
        forall|j: int| pos <= j < e ==> s[j] != '\n',
    ensures
        spec_line_end(s, pos) == Some(e),
    decreases e - pos,
{
    if pos < e {
        lemma_line_end_at(s, pos + 1, e);
    }
}

/// When no line break stands at or after `pos`, the search finds none.
pub proof fn lemma_line_end_none(s: Seq<char>, pos: int)
    requires
        0 <= pos <= s.len(),
        forall|j: int| pos <= j < s.len() ==> s[j] != '\n',
    ensures
        spec_line_end(s, pos) is None,
    decreases s.len() - pos,
{
    if pos < s.len() {
        lemma_line_end_none(s, pos + 1);
    }
}

/// One raw line: its characters and the position just past its break.
pub open spec fn spec_take_line(s: Seq<char>, pos: int) -> Option<(Seq<char>, int)> {
    match spec_line_end(s, pos) {
        Some(e) => Some((s.subrange(pos, e), e + 1)),
        None => None,
    }
}

/// One signed decimal line: its value and the position just past its
/// break, with an optional leading minus sign.  Refused when the
/// numeral is empty, when any of its characters is no digit, or when
/// it runs past eighteen digits.
pub open spec fn spec_take_i64(s: Seq<char>, pos: int) -> Option<(int, int)> {
    match spec_take_line(s, pos) {
        Some((body, next)) => if body.len() >= 1 && body[0] == '-' {
            let mag = body.skip(1);
            if 1 <= mag.len() <= 18 && spec_all_digits(mag) {
                Some((-spec_dec_val(mag), next))
            } else {
                None
            }
        } else if 1 <= body.len() <= 18 && spec_all_digits(body) {
            Some((spec_dec_val(body), next))
        } else {
            None
        },
        None => None,
    }
}

/// Reads one raw line out of `s`, starting at `pos`.
pub fn take_line(s: &str, pos: usize) -> (r: Option<(String, usize)>)
    requires
        pos <= s@.len(),
    ensures
        match r {
            Some(v) => spec_take_line(s@, pos as int) == Some((v.0@, v.1 as int)) && pos < v.1
                <= s@.len(),
            None => spec_take_line(s@, pos as int) is None,
        },
{
    let n = s.unicode_len();
    let mut i = pos;
    while i < n
        invariant
            pos <= i <= n,
            n == s@.len(),
            forall|j: int| pos <= j < i ==> s@[j] != '\n',
        decreases n - i,
    {
        if s.get_char(i) == '\n' {
            proof {
                lemma_line_end_at(s@, pos as int, i as int);
            }
            let line = s.substring_char(pos, i).to_owned();
            return Some((line, i + 1));
        }
        i += 1;
    }
    proof {
        lemma_line_end_none(s@, pos as int);
    }
    None
}

/// Reads the digits of one line into a value; `None` when the line is
/// not a clean numeral of at most eighteen digits.
pub fn digits_value(line: &str) -> (r: Option<u64>)
    ensures
        match r {
            Some(v) => 1 <= line@.len() <= 18 && spec_all_digits(line@) && v as int
                == spec_dec_val(line@) && v < 1000000000000000000,
            None => !(1 <= line@.len() <= 18 && spec_all_digits(line@)),
        },
{
    let n = line.unicode_len();
    if n < 1 || n > 18 {
        return None;
    }
    let mut acc: u64 = 0;
    let mut k: usize = 0;
    proof {
        assert(line@.subrange(0, 0) =~= Seq::<char>::empty());
    }
    while k < n
        invariant
            0 <= k <= n,
            n == line@.len(),
            1 <= n <= 18,
            forall|j: int| 0 <= j < k ==> spec_is_digit(line@[j]),
            acc as int == spec_dec_val(line@.subrange(0, k as int)),
            (acc as int) < spec_pow10(k as nat),
        decreases n - k,
    {
        let c = line.get_char(k);
        if c < '0' || c > '9' {
            return None;
        }
        let d: u64 = (c as u32 - '0' as u32) as u64;
        proof {
            let pk = spec_pow10(k as nat);
            let pk1 = spec_pow10((k + 1) as nat);
            lemma_pow10_18();
            assert(pk * 10 == pk1);
            assert(pk1 <= spec_pow10(18)) by {
                lemma_pow10_monotonic((k + 1) as nat, 18);
            }
            assert(acc * 10 + d < pk1) by (nonlinear_arith)
                requires
                    (acc as int) < pk,
                    d < 10,
                    pk * 10 == pk1,
            ;
            assert(line@.subrange(0, k + 1).drop_last() =~= line@.subrange(0, k as int));
            assert(line@.subrange(0, k + 1).last() == line@[k as int]);
        }
        acc = acc * 10 + d;
        k += 1;
    }
    proof {
        assert(line@.subrange(0, n as int) =~= line@);
        lemma_pow10_18();
        lemma_pow10_monotonic(n as nat, 18);
    }
    Some(acc)
}

/// Powers of ten grow with the exponent.
pub proof fn lemma_pow10_monotonic(a: nat, b: nat)
    requires
        a <= b,
    ensures
        spec_pow10(a) <= spec_pow10(b),
        spec_pow10(a) >= 1,
    decreases b,
{
    if a < b {
        lemma_pow10_monotonic(a, (b - 1) as nat);
    } else if b > 0 {
        lemma_pow10_monotonic((a - 1) as nat, (b - 1) as nat);
    }
}

/// Reads one signed decimal line out of `s`, starting at `pos`.
pub fn take_i64(s: &str, pos: usize) -> (r: Option<(i64, usize)>)
    requires
        pos <= s@.len(),
    ensures
        match r {
            Some(v) => spec_take_i64(s@, pos as int) == Some((v.0 as int, v.1 as int)) && pos < v.1
                <= s@.len(),
            None => spec_take_i64(s@, pos as int) is None,
        },
{
    match take_line(s, pos) {
        Some((line, next)) => {
            let len = line.as_str().unicode_len();
            if len >= 1 && line.as_str().get_char(0) == '-' {
                let mag = line.as_str().substring_char(1, len);
                proof {
                    assert(mag@ =~= line@.skip(1));
                }
                match digits_value(mag) {
                    Some(v) => {
                        proof {
                            lemma_pow10_18();
                        }
                        Some((-(v as i64), next))
                    },
                    None => None,
                }
            } else {
                match digits_value(line.as_str()) {
                    Some(v) => {
                        proof {
                            lemma_pow10_18();
                        }
                        Some((v as i64, next))
                    },
                    None => None,
                }
            }
        },
        None => None,
    }
}

/// Appends one digit character to the output.
fn push_digit(out: &mut String, d: u64)
    requires
        d < 10,
    ensures
        final(out)@ == old(out)@ + seq![spec_digit(d as int)],
{
    let lit: &str = if d == 0 {
        "0"
    } else if d == 1 {
        "1"
    } else if d == 2 {
        "2"
    } else if d == 3 {
        "3"
    } else if d == 4 {
        "4"
    } else if d == 5 {
        "5"
    } else if d == 6 {
        "6"
    } else if d == 7 {
        "7"
    } else if d == 8 {
        "8"
    } else {
        "9"
    };
    proof {
        reveal_strlit("0");
        reveal_strlit("1");
        reveal_strlit("2");
        reveal_strlit("3");
        reveal_strlit("4");
        reveal_strlit("5");
        reveal_strlit("6");
        reveal_strlit("7");
        reveal_strlit("8");
        reveal_strlit("9");
    }
    out.append(lit);
}

/// Appends the decimal numeral of `n` to the output.
pub fn encode_u64(n: u64, out: &mut String)
    ensures
        final(out)@ == old(out)@ + spec_u64_dec(n as nat),
    decreases n,
{
    if n >= 10 {
        encode_u64(n / 10, out);
    }
    push_digit(out, n % 10);
}

/// Appends the decimal numeral of `n`, sign included, to the output.
pub fn encode_i64(n: i64, out: &mut String)
    ensures
        final(out)@ == old(out)@ + spec_i64_dec(n as int),
{
    if n < 0 {
        proof {
            reveal_strlit("-");
        }
        out.append("-");
        let mag: u64 = (-(n as i128)) as u64;
        encode_u64(mag, out);
    } else {
        encode_u64(n as u64, out);
    }
}

/// Appends a line break to the output.
pub fn push_newline(out: &mut String)
    ensures
        final(out)@ == old(out)@ + seq!['\n'],
{
    proof {
        reveal_strlit("\n");
    }
    out.append("\n");
}

/// A line read from text that starts, after `pre`, with a break-free
/// body and its line break, yields exactly that body.
pub proof fn lemma_take_line_of(pre: Seq<char>, body: Seq<char>, rest: Seq<char>)
    requires
        forall|j: int| 0 <= j < body.len() ==> body[j] != '\n',
    ensures
        spec_take_line(pre + body + seq!['\n'] + rest, pre.len() as int) == Some(
            (body, pre.len() + body.len() + 1 as int),
        ),
{
    let s = pre + body + seq!['\n'] + rest;
    let e: int = pre.len() as int + body.len() as int;
    assert(s[e] == '\n');
    assert forall|j: int| pre.len() <= j < e implies s[j] != '\n' by {
        assert(s[j] == body[j - pre.len()]);
    }
    lemma_line_end_at(s, pre.len() as int, e);
    assert(s.subrange(pre.len() as int, e) =~= body);
}

/// A signed numeral line reads back to the value it encodes.
#[verifier::rlimit(50)]
pub proof fn lemma_take_i64_of(pre: Seq<char>, n: i64, rest: Seq<char>)
    requires
        -1000000000000000000 < n < 1000000000000000000,
    ensures
        spec_take_i64(pre + spec_i64_dec(n as int) + seq!['\n'] + rest, pre.len() as int) == Some(
            (n as int, pre.len() + spec_i64_dec(n as int).len() + 1 as int),
        ),
{
    let body = spec_i64_dec(n as int);
    if n >= 0 {
        lemma_numeral_digits(n as nat);
        assert forall|j: int| 0 <= j < body.len() implies body[j] != '\n' by {
            assert(spec_is_digit(body[j]));
        }
        lemma_take_line_of(pre, body, rest);
        lemma_numeral_round(n as nat);
        lemma_pow10_18();
        lemma_numeral_len(n as nat, 18);
        assert(!(body[0] == '-')) by {
            assert(spec_is_digit(body[0]));
        }
    } else {
        let mag = spec_u64_dec((-n) as nat);
        lemma_numeral_digits((-n) as nat);
        assert forall|j: int| 0 <= j < body.len() implies body[j] != '\n' by {
            if j > 0 {
                assert(body[j] == mag[j - 1]);
                assert(spec_is_digit(mag[j - 1]));
            }
        }
        lemma_take_line_of(pre, body, rest);
        lemma_numeral_round((-n) as nat);
        lemma_pow10_18();
        lemma_numeral_len((-n) as nat, 18);
        assert(body[0] == '-');
        assert(body.skip(1) =~= mag);
    }
}

} // verus!
