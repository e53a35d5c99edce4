use vstd::prelude::*;

verus! {

/// Unicode `White_Space`, the set of characters that `char::is_whitespace` accepts.
pub open spec fn is_space(c: char) -> bool {
    let v = c as u32;
    (0x9 <= v && v <= 0xd) || v == 0x20 || v == 0x85 || v == 0xa0 || v == 0x1680 || (0x2000 <= v
        && v <= 0x200a) || v == 0x2028 || v == 0x2029 || v == 0x202f || v == 0x205f || v == 0x3000
}

/// `s` without its leading white space.
pub open spec fn trim_start(s: Seq<char>) -> Seq<char>
    decreases s.len(),
{
    if s.len() > 0 && is_space(s[0]) {
        trim_start(s.drop_first())
    } else {
        s
    }
}

/// `s` without its trailing white space.
pub open spec fn trim_end(s: Seq<char>) -> Seq<char>
    decreases s.len(),
{
    if s.len() > 0 && is_space(s.last()) {
        trim_end(s.drop_last())
    } else {
        s
    }
}

/// `s` without white space at either end.
pub open spec fn trimmed(s: Seq<char>) -> Seq<char> {
    trim_end(trim_start(s))
}

fn is_space_char(c: char) -> (r: bool)
    ensures
        r == is_space(c),
{
    let v = c as u32;
    (0x9 <= v && v <= 0xd) || v == 0x20 || v == 0x85 || v == 0xa0 || v == 0x1680 || (0x2000 <= v
        && v <= 0x200a) || v == 0x2028 || v == 0x2029 || v == 0x202f || v == 0x205f || v == 0x3000
}

/// Removes the white space that surrounds `s`.
pub fn trim_spaces(s: &str) -> (r: String)
    ensures
        r@ == trimmed(s@),
{
    let n = s.unicode_len();
    let mut i: usize = 0;
    assert(s@.subrange(0, n as int) =~= s@);
    while i < n && is_space_char(s.get_char(i))
        invariant
            n == s@.len(),
            i <= n,
            trim_start(s@) == trim_start(s@.subrange(i as int, n as int)),
        decreases n - i,
    {
        assert(s@.subrange(i as int, n as int).drop_first() =~= s@.subrange(i + 1, n as int));
        i = i + 1;
    }
    assert(trim_start(s@) == s@.subrange(i as int, n as int));
    let mut j: usize = n;
    while j > i && is_space_char(s.get_char(j - 1))
        invariant
            n == s@.len(),
            i <= j <= n,
            trim_end(s@.subrange(i as int, n as int)) == trim_end(s@.subrange(i as int, j as int)),
        decreases j - i,
    {
        assert(s@.subrange(i as int, j as int).drop_last() =~= s@.subrange(i as int, j - 1));
        j = j - 1;
    }
    let t = s.substring_char(i, j);
    String::from_str(t)
}

/// What `char::to_digit` gives for letters and decimal digits, before the radix is applied.
pub open spec fn digit_weight(c: char) -> int {
    let v = c as u32;
    if 0x30 <= v && v <= 0x39 {
        v - 0x30
    } else if 0x61 <= v && v <= 0x7a {
        v - 0x61 + 10
    } else if 0x41 <= v && v <= 0x5a {
        v - 0x41 + 10
    } else {
        36
    }
}

/// `c` is a digit in base `radix`.
pub open spec fn is_digit(c: char, radix: nat) -> bool {
    digit_weight(c) < radix
}

pub open spec fn all_digits(s: Seq<char>, radix: nat) -> bool {
    forall|i: int| 0 <= i < s.len() ==> #[trigger] is_digit(s[i], radix)
}

/// The number that the digits `s` stand for in base `radix`, most significant first.
pub open spec fn digits_value(s: Seq<char>, radix: nat) -> nat
    decreases s.len(),
{
    if s.len() == 0 {
        0
    } else {
        digits_value(s.drop_last(), radix) * radix + digit_weight(s.last()) as nat
    }
}

/// The digits of an unsigned number: an optional leading `+` is dropped.
pub open spec fn unsigned_digits(s: Seq<char>) -> Seq<char> {
    if s.len() > 0 && s[0] == '+' {
        s.drop_first()
    } else {
        s
    }
}

/// The 32-bit unsigned number that `s` spells in base `radix`, as `u32::from_str_radix`
/// reads it: an optional `+`, then at least one digit, and a value that fits.
pub open spec fn parsed_u32(s: Seq<char>, radix: nat) -> Option<u32> {
    let d = unsigned_digits(s);
    if d.len() > 0 && all_digits(d, radix) && digits_value(d, radix) <= u32::MAX {
        Some(digits_value(d, radix) as u32)
    } else {
        None
    }
}

fn digit_of(c: char, radix: u32) -> (r: Option<u32>)
    requires
        2 <= radix <= 36,
    ensures
        r == (if is_digit(c, radix as nat) {
            Some(digit_weight(c) as u32)
        } else {
            None
        }),
{
    let v = c as u32;
    let w: u32 = if 0x30 <= v && v <= 0x39 {
        v - 0x30
    } else if 0x61 <= v && v <= 0x7a {
        v - 0x61 + 10
    } else if 0x41 <= v && v <= 0x5a {
        v - 0x41 + 10
    } else {
        36
    };
    if w < radix {
        Some(w)
    } else {
        None
    }
}

proof fn lemma_prefix_value_le(s: Seq<char>, k: int, radix: nat)
    requires
        0 <= k <= s.len(),
        radix >= 1,
    ensures
        digits_value(s.subrange(0, k), radix) <= digits_value(s, radix),
    decreases s.len() - k,
{
    if k == s.len() {
        assert(s.subrange(0, k) =~= s);
    } else {
        lemma_prefix_value_le(s, k + 1, radix);
        let p = s.subrange(0, k + 1);
        assert(p.drop_last() =~= s.subrange(0, k));
        let x = digits_value(s.subrange(0, k), radix);
        assert(x * radix >= x) by (nonlinear_arith)
            requires
                radix >= 1,
        ;
    }
}

/// Reads `s` as an unsigned 32-bit number in base `radix`; `None` where it is not one.
pub fn parse_u32(s: &str, radix: u32) -> (r: Option<u32>)
    requires
        2 <= radix <= 36,
    ensures
        r == parsed_u32(s@, radix as nat),
{
    let n = s.unicode_len();
    let start: usize = if n > 0 && s.get_char(0) == '+' {
        1
    } else {
        0
    };
    let ghost d = unsigned_digits(s@);
    assert(d =~= s@.subrange(start as int, n as int));
    if start == n {
        return None;
    }
    let mut acc: u64 = 0;
    let mut i: usize = start;
    while i < n
        invariant
            n == s@.len(),
            start <= i <= n,
            d == s@.subrange(start as int, n as int),
            d == unsigned_digits(s@),
            2 <= radix <= 36,
            acc <= u32::MAX,
            acc == digits_value(d.subrange(0, i - start), radix as nat),
            all_digits(d.subrange(0, i - start), radix as nat),
        decreases n - i,
    {
        let c = s.get_char(i);
        let ghost p = d.subrange(0, i - start + 1);
        assert(p.drop_last() =~= d.subrange(0, i - start));
        assert(p.last() == c);
        match digit_of(c, radix) {
            None => {
                assert(d[i - start] == c);
                assert(!is_digit(d[i - start], radix as nat));
                assert(!all_digits(d, radix as nat));
                return None;
            },
            Some(w) => {
                assert(acc * (radix as u64) <= u32::MAX * 36) by (nonlinear_arith)
                    requires
                        acc <= u32::MAX,
                        radix <= 36,
                ;
                acc = acc * (radix as u64) + (w as u64);
                assert(digits_value(p, radix as nat) == acc);
                assert(all_digits(p, radix as nat)) by {
                    assert forall|k: int| 0 <= k < p.len() implies #[trigger] is_digit(
                        p[k],
                        radix as nat,
                    ) by {
                        if k < p.len() - 1 {
                            assert(p[k] == d.subrange(0, i - start)[k]);
                        }
                    }
                }
                if acc > 0xffff_ffff {
                    proof {
                        lemma_prefix_value_le(d, i - start + 1, radix as nat);
                    }
                    return None;
                }
            },
        }
        i = i + 1;
    }
    assert(d.subrange(0, n - start) =~= d);
    Some(acc as u32)
}

/// The character for a digit below sixteen: `0`-`9`, then `a`-`f`.
pub open spec fn digit_char(d: nat) -> char {
    if d < 10 {
        (0x30 + d) as char
    } else {
        (0x61 + d - 10) as char
    }
}

/// `n` written in base `radix` without leading zeros (`0` for zero).
pub open spec fn radix_digits(n: nat, radix: nat) -> Seq<char>
    decreases n via radix_digits_decreases
{
    if radix < 2 || n < radix {
        seq![digit_char(n)]
    } else {
        radix_digits(n / radix, radix).push(digit_char(n % radix))
    }
}

#[via_fn]
proof fn radix_digits_decreases(n: nat, radix: nat) {
    if !(radix < 2 || n < radix) {
        assert(n / radix < n) by (nonlinear_arith)
            requires
                2 <= radix <= n,
        ;
    }
}

proof fn lemma_radix_digits(n: nat, radix: nat)
    requires
        2 <= radix <= 16,
    ensures
        radix_digits(n, radix).len() > 0,
        radix_digits(n, radix)[0] != '+',
        all_digits(radix_digits(n, radix), radix),
        digits_value(radix_digits(n, radix), radix) == n,
    decreases n,
{
    let s = radix_digits(n, radix);
    if n < radix {
        assert(digit_weight(digit_char(n)) == n);
        assert(s.drop_last() =~= Seq::<char>::empty());
        assert(digits_value(s.drop_last(), radix) == 0);
        assert(digits_value(s, radix) == digits_value(s.drop_last(), radix) * radix + digit_weight(
            s.last(),
        ) as nat);
        assert(s.last() == digit_char(n));
        assert(0 * radix == 0);
        assert(digits_value(s, radix) == n);
    } else {
        let q = n / radix;
        let r = n % radix;
        assert(q < n && r < radix && n == q * radix + r) by (nonlinear_arith)
            requires
                2 <= radix <= n,
                q == n / radix,
                r == n % radix,
        ;
        lemma_radix_digits(q, radix);
        let p = radix_digits(q, radix);
        assert(s.drop_last() =~= p);
        assert(digit_weight(digit_char(r)) == r);
        assert(digits_value(s, radix) == digits_value(p, radix) * radix + digit_weight(s.last()) as nat);
        assert(digits_value(p, radix) == q);
        assert(s.last() == digit_char(r));
        assert(digits_value(s, radix) == q * radix + r);
        assert(digits_value(s, radix) == n);
        assert(s[0] == p[0]);
        assert forall|i: int| 0 <= i < s.len() implies #[trigger] is_digit(s[i], radix) by {
            if i < p.len() {
                assert(s[i] == p[i]);
            }
        }
    }
}

/// Writing a 32-bit number in base 10 or 16 and reading it back in the same base gives
/// the number again.
pub proof fn lemma_parse_round_trip(n: u32, radix: nat)
    requires
        radix == 10 || radix == 16,
    ensures
        parsed_u32(radix_digits(n as nat, radix), radix) == Some(n),
{
    lemma_radix_digits(n as nat, radix);
}

/// Every character of `s` is white space.
pub open spec fn all_space(s: Seq<char>) -> bool {
    forall|i: int| 0 <= i < s.len() ==> #[trigger] is_space(s[i])
}

proof fn lemma_trim_start_skips(a: Seq<char>, x: Seq<char>)
    requires
        all_space(a),
    ensures
        trim_start(a + x) == trim_start(x),
    decreases a.len(),
{
    if a.len() > 0 {
        assert((a + x)[0] == a[0]);
        assert((a + x).drop_first() =~= a.drop_first() + x);
        assert(all_space(a.drop_first())) by {
            assert forall|i: int| 0 <= i < a.drop_first().len() implies #[trigger] is_space(
                a.drop_first()[i],
            ) by {
                assert(a.drop_first()[i] == a[i + 1]);
            }
        }
        lemma_trim_start_skips(a.drop_first(), x);
    } else {
        assert(a + x =~= x);
    }
}

proof fn lemma_trim_end_skips(x: Seq<char>, b: Seq<char>)
    requires
        all_space(b),
    ensures
        trim_end(x + b) == trim_end(x),
    decreases b.len(),
{
    if b.len() > 0 {
        assert((x + b).last() == b.last());
        assert((x + b).drop_last() =~= x + b.drop_last());
        assert(all_space(b.drop_last())) by {
            assert forall|i: int| 0 <= i < b.drop_last().len() implies #[trigger] is_space(
                b.drop_last()[i],
            ) by {
                assert(b.drop_last()[i] == b[i]);
            }
        }
        lemma_trim_end_skips(x, b.drop_last());
    } else {
        assert(x + b =~= x);
    }
}

/// A number written in base 10 or 16, with any white space before and after it, is read
/// back as that number once trimmed.
pub proof fn lemma_padded_round_trip(n: u32, radix: nat, before: Seq<char>, after: Seq<char>)
    requires
        radix == 10 || radix == 16,
        all_space(before),
        all_space(after),
    ensures
        parsed_u32(trimmed(before + radix_digits(n as nat, radix) + after), radix) == Some(n),
{
    let d = radix_digits(n as nat, radix);
    lemma_radix_digits(n as nat, radix);
    assert(is_digit(d[0], radix));
    assert(is_digit(d.last(), radix));
    assert(before + d + after =~= before + (d + after));
    lemma_trim_start_skips(before, d + after);
    assert((d + after)[0] == d[0]);
    lemma_trim_end_skips(d, after);
    assert(trim_end(d) == d);
}

fn digit_str(d: u128) -> (r: &'static str)
    requires
        d < 10,
    ensures
        r@ == seq![digit_char(d as nat)],
{
    proof {
        reveal_strlit("0");
        reveal_strlit("1");
        reveal_strlit("2");
        reveal_strlit("3");
        reveal_strlit("4");
        reveal_strlit("5");
        reveal_strlit("6");
        reveal_strlit("7");
        reveal_strlit("8");
        reveal_strlit("9");
    }
    let r = match d {
        0 => "0",
        1 => "1",
        2 => "2",
        3 => "3",
        4 => "4",
        5 => "5",
        6 => "6",
        7 => "7",
        8 => "8",
        _ => "9",
    };
    assert(r@ =~= seq![digit_char(d as nat)]);
    r
}

/// Appends `n` in decimal to `out`.
pub fn push_decimal(out: &mut String, n: u128)
    ensures
        final(out)@ == old(out)@ + radix_digits(n as nat, 10),
    decreases n,
{
    if n >= 10 {
        push_decimal(out, n / 10);
    }
    out.append(digit_str(n % 10));
    assert(radix_digits(n as nat, 10) =~= if n >= 10 {
        radix_digits((n / 10) as nat, 10).push(digit_char((n % 10) as nat))
    } else {
        seq![digit_char(n as nat)]
    });
}

} // verus!
