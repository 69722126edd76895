//! Byte-level field grammar of a two-line element set: digit runs,
//! space-padded integers, fixed-point decimals, signed fraction and
//! mantissa-exponent fields, and the per-line checksum.
//!
//! Each spec function states what a well-formed field is and what number it
//! denotes; each executable parser is proved to accept exactly the
//! well-formed fields and to return exactly the denoted value.

use vstd::prelude::*;

verus! {

/// ASCII digit.
pub open spec fn is_digit(b: u8) -> bool {
    48 <= b <= 57
}

/// Numeric value of an ASCII digit.
pub open spec fn digit_val(b: u8) -> int {
    b - 48
}

/// Every byte of the sequence is an ASCII digit.
pub open spec fn all_digits(s: Seq<u8>) -> bool {
    forall|i: int| 0 <= i < s.len() ==> is_digit(#[trigger] s[i])
}

/// Value of a digit run read as a base-ten numeral.
pub open spec fn digits_val(s: Seq<u8>) -> int
    decreases s.len(),
{
    if s.len() == 0 {
        0
    } else {
        digits_val(s.drop_last()) * 10 + digit_val(s.last())
    }
}

/// Ten to the power `n`.
pub open spec fn pow10(n: nat) -> int
    decreases n,
{
    if n == 0 {
        1
    } else {
        10 * pow10((n - 1) as nat)
    }
}

/// Concrete powers of ten used at field widths of an element set.
pub proof fn lemma_pow10_values()
    ensures
        pow10(0) == 1,
        pow10(1) == 10,
        pow10(2) == 100,
        pow10(3) == 1000,
        pow10(4) == 10_000,
        pow10(5) == 100_000,
        pow10(7) == 10_000_000,
        pow10(8) == 100_000_000,
        pow10(10) == 10_000_000_000,
        pow10(11) == 100_000_000_000,
        pow10(12) == 1_000_000_000_000,
        pow10(16) == 10_000_000_000_000_000,
        pow10(17) == 100_000_000_000_000_000,
{
    reveal_with_fuel(pow10, 18);
}

/// Powers of ten grow with the exponent.
pub proof fn lemma_pow10_mono(m: nat, n: nat)
    requires
        m <= n,
    ensures
        0 < pow10(m) <= pow10(n),
    decreases n,
{
    if n > 0 {
        if m == n {
            lemma_pow10_mono((m - 1) as nat, (n - 1) as nat);
        } else {
            lemma_pow10_mono(m, (n - 1) as nat);
        }
    }
}

/// A run of leading spaces followed by at least one digit.
pub open spec fn padded_digits_ok(s: Seq<u8>) -> bool
    decreases s.len(),
{
    if s.len() == 0 {
        false
    } else if s[0] == 32 {
        padded_digits_ok(s.drop_first())
    } else {
        all_digits(s)
    }
}

/// Value of a space-padded digit run.
pub open spec fn padded_digits_val(s: Seq<u8>) -> int
    decreases s.len(),
{
    if s.len() == 0 {
        0
    } else if s[0] == 32 {
        padded_digits_val(s.drop_first())
    } else {
        digits_val(s)
    }
}

/// Dropping leading spaces changes neither well-formedness nor value.
pub proof fn lemma_padded_skip(s: Seq<u8>, k: int)
    requires
        0 <= k <= s.len(),
        forall|j: int| 0 <= j < k ==> s[j] == 32,
    ensures
        padded_digits_ok(s) == padded_digits_ok(s.skip(k)),
        padded_digits_val(s) == padded_digits_val(s.skip(k)),
    decreases k,
{
    if k > 0 {
        assert(s.drop_first() =~= s.skip(1));
        lemma_padded_skip(s.drop_first(), k - 1);
        assert(s.drop_first().skip(k - 1) =~= s.skip(k));
    } else {
        assert(s.skip(0) =~= s);
    }
}

/// Parses the digit run in `s[lo..hi]`; accepts exactly when every byte is
/// a digit.
pub fn parse_digits(s: &[u8], lo: usize, hi: usize) -> (r: Result<u64, ()>)
    requires
        lo < hi <= s@.len(),
        hi - lo <= 17,
    ensures
        r is Ok <==> all_digits(s@.subrange(lo as int, hi as int)),
        r is Ok ==> r->Ok_0 == digits_val(s@.subrange(lo as int, hi as int)),
        r is Ok ==> r->Ok_0 < pow10((hi - lo) as nat),
{
    let mut i: usize = lo;
    let mut acc: u64 = 0;
    while i < hi
        invariant
            lo <= i <= hi <= s@.len(),
            hi - lo <= 17,
            all_digits(s@.subrange(lo as int, i as int)),
            acc == digits_val(s@.subrange(lo as int, i as int)),
            acc < pow10((i - lo) as nat),
        decreases hi - i,
    {
        let b = s[i];
        if b < 48 || b > 57 {
            proof {
                assert(s@.subrange(lo as int, hi as int)[i - lo] == s@[i as int]);
            }
            return Err(());
        }
        proof {
            lemma_pow10_mono((i - lo) as nat, 16);
            lemma_pow10_values();
            assert(s@.subrange(lo as int, (i + 1) as int).drop_last()
                =~= s@.subrange(lo as int, i as int));
            assert(s@.subrange(lo as int, (i + 1) as int).last() == s@[i as int]);
        }
        acc = acc * 10 + ((b - 48) as u64);
        i = i + 1;
    }
    proof {
        lemma_pow10_mono((i - lo) as nat, (hi - lo) as nat);
    }
    Ok(acc)
}

/// Parses the space-padded digit run in `s[lo..hi]`.
pub fn parse_padded_digits(s: &[u8], lo: usize, hi: usize) -> (r: Result<u64, ()>)
    requires
        lo < hi <= s@.len(),
        hi - lo <= 17,
    ensures
        r is Ok <==> padded_digits_ok(s@.subrange(lo as int, hi as int)),
        r is Ok ==> r->Ok_0 == padded_digits_val(s@.subrange(lo as int, hi as int)),
        r is Ok ==> r->Ok_0 < pow10((hi - lo) as nat),
{
    let ghost whole = s@.subrange(lo as int, hi as int);
    let mut i: usize = lo;
    while i < hi && s[i] == 32
        invariant
            lo <= i <= hi <= s@.len(),
            forall|j: int| lo <= j < i ==> s@[j] == 32,
        decreases hi - i,
    {
        i = i + 1;
    }
    proof {
        lemma_padded_skip(whole, i - lo);
        assert(whole.skip(i - lo) =~= s@.subrange(i as int, hi as int));
        assert(forall|j: int| 0 <= j < i - lo ==> whole[j] == s@[lo + j]);
    }
    if i == hi {
        proof {
            assert(!padded_digits_ok(whole.skip(i - lo)));
        }
        return Err(());
    }
    let r = parse_digits(s, i, hi);
    proof {
        let rest = s@.subrange(i as int, hi as int);
        assert(rest[0] == s@[i as int]);
        assert(s@[i as int] != 32);
        if r is Ok {
            lemma_pow10_mono((hi - i) as nat, (hi - lo) as nat);
        }
    }
    r
}

/// A fixed-point decimal field: a space-padded integer part, a point, and
/// exactly `frac` fraction digits.
pub open spec fn decimal_ok(s: Seq<u8>, frac: nat) -> bool {
    &&& s.len() >= frac + 2
    &&& s[s.len() - frac - 1] == 46
    &&& padded_digits_ok(s.take(s.len() - frac - 1))
    &&& all_digits(s.skip(s.len() - frac))
}

/// Value of a decimal field in units of ten to the minus `frac`.
pub open spec fn decimal_val(s: Seq<u8>, frac: nat) -> int {
    padded_digits_val(s.take(s.len() - frac - 1)) * pow10(frac) + digits_val(
        s.skip(s.len() - frac),
    )
}

/// Executable power of ten.
pub fn pow10_u64(n: usize) -> (r: u64)
    requires
        n <= 17,
    ensures
        r == pow10(n as nat),
{
    let mut i: usize = 0;
    let mut acc: u64 = 1;
    while i < n
        invariant
            0 <= i <= n <= 17,
            acc == pow10(i as nat),
        decreases n - i,
    {
        proof {
            lemma_pow10_mono(i as nat, 16);
            lemma_pow10_values();
        }
        acc = acc * 10;
        i = i + 1;
    }
    acc
}

/// Parses the decimal field in `s[lo..hi]` with `frac` fraction digits,
/// returning its value in units of ten to the minus `frac`.
pub fn parse_decimal(s: &[u8], lo: usize, hi: usize, frac: usize) -> (r: Result<u64, ()>)
    requires
        lo < hi <= s@.len(),
        hi - lo <= 14,
        1 <= frac,
        frac + 2 <= hi - lo,
    ensures
        r is Ok <==> decimal_ok(s@.subrange(lo as int, hi as int), frac as nat),
        r is Ok ==> r->Ok_0 == decimal_val(s@.subrange(lo as int, hi as int), frac as nat),
        r is Ok ==> r->Ok_0 < pow10((hi - lo - 1) as nat),
{
    let ghost whole = s@.subrange(lo as int, hi as int);
    let dot = hi - frac - 1;
    proof {
        assert(whole.take(whole.len() - frac - 1) =~= s@.subrange(lo as int, dot as int));
        assert(whole.skip(whole.len() - frac) =~= s@.subrange((dot + 1) as int, hi as int));
        assert(whole[whole.len() - frac - 1] == s@[dot as int]);
    }
    if s[dot] != 46 {
        return Err(());
    }
    let int_part = match parse_padded_digits(s, lo, dot) {
        Ok(v) => v,
        Err(()) => {
            return Err(());
        },
    };
    let frac_part = match parse_digits(s, dot + 1, hi) {
        Ok(v) => v,
        Err(()) => {
            return Err(());
        },
    };
    let scale = pow10_u64(frac);
    proof {
        let il = (dot - lo) as nat;
        let fr = frac as nat;
        lemma_pow10_mono(il, 13);
        lemma_pow10_mono(fr, 13);
        assert(pow10(13) == 10_000_000_000_000int) by {
            reveal_with_fuel(pow10, 14);
        }
        lemma_pow10_adds_small(il, fr);
        lemma_pow10_mono((il + fr) as nat, 13);
        assert(int_part * pow10(fr) + frac_part < pow10(il) * pow10(fr)) by (nonlinear_arith)
            requires
                0 <= int_part,
                int_part < pow10(il),
                0 <= frac_part,
                frac_part < pow10(fr),
                pow10(il) > 0,
                pow10(fr) > 0,
        ;
        assert((il + fr) as nat == (hi - lo - 1) as nat);
    }
    Ok(int_part * scale + frac_part)
}

/// Ten to the m plus n is the product of the two powers.
pub proof fn lemma_pow10_adds_small(m: nat, n: nat)
    ensures
        pow10(m + n) == pow10(m) * pow10(n),
    decreases m,
{
    if m == 0 {
    } else {
        lemma_pow10_adds_small((m - 1) as nat, n);
        assert(pow10(m + n) == 10 * pow10((m + n - 1) as nat));
        vstd::arithmetic::mul::lemma_mul_is_associative(
            10,
            pow10((m - 1) as nat),
            pow10(n),
        );
    }
}

/// A sign byte: space or plus read as positive, minus as negative.
pub open spec fn sign_byte_ok(b: u8) -> bool {
    b == 32 || b == 43 || b == 45
}

/// Signum denoted by a sign byte.
pub open spec fn sign_of(b: u8) -> int {
    if b == 45 {
        -1
    } else {
        1
    }
}

/// A signed pure fraction field: sign byte, point, eight digits.
pub open spec fn signed_frac_ok(s: Seq<u8>) -> bool {
    &&& s.len() == 10
    &&& sign_byte_ok(s[0])
    &&& s[1] == 46
    &&& all_digits(s.skip(2))
}

/// Value of a signed fraction field in 1e-8 units.
pub open spec fn signed_frac_val_e8(s: Seq<u8>) -> int {
    sign_of(s[0]) * digits_val(s.skip(2))
}

/// Parses the ten-byte signed fraction field at `s[lo..lo+10]`.
pub fn parse_signed_frac(s: &[u8], lo: usize) -> (r: Result<i64, ()>)
    requires
        lo + 10 <= s@.len(),
    ensures
        r is Ok <==> signed_frac_ok(s@.subrange(lo as int, lo + 10)),
        r is Ok ==> r->Ok_0 == signed_frac_val_e8(s@.subrange(lo as int, lo + 10)),
        r is Ok ==> -100_000_000 < r->Ok_0 < 100_000_000,
{
    let ghost whole = s@.subrange(lo as int, lo + 10);
    proof {
        assert(whole[0] == s@[lo as int]);
        assert(whole[1] == s@[lo + 1]);
        assert(whole.skip(2) =~= s@.subrange(lo + 2, lo + 10));
    }
    let sign = s[lo];
    if !(sign == 32 || sign == 43 || sign == 45) {
        return Err(());
    }
    if s[lo + 1] != 46 {
        return Err(());
    }
    let mag = match parse_digits(s, lo + 2, lo + 10) {
        Ok(v) => v,
        Err(()) => {
            return Err(());
        },
    };
    proof {
        lemma_pow10_values();
    }
    if sign == 45 {
        Ok(-(mag as i64))
    } else {
        Ok(mag as i64)
    }
}

/// A mantissa-exponent field: sign byte, five mantissa digits standing for
/// a pure fraction, a sign byte, one exponent digit.
pub open spec fn exp_field_ok(s: Seq<u8>) -> bool {
    &&& s.len() == 8
    &&& sign_byte_ok(s[0])
    &&& all_digits(s.subrange(1, 6))
    &&& sign_byte_ok(s[6])
    &&& is_digit(s[7])
}

/// Mantissa of a mantissa-exponent field, in 1e-5 units.
pub open spec fn exp_field_mant_e5(s: Seq<u8>) -> int {
    sign_of(s[0]) * digits_val(s.subrange(1, 6))
}

/// Signed power-of-ten exponent of a mantissa-exponent field.
pub open spec fn exp_field_exp(s: Seq<u8>) -> int {
    sign_of(s[6]) * digit_val(s[7])
}

/// Parses the eight-byte mantissa-exponent field at `s[lo..lo+8]`.
pub fn parse_exp_field(s: &[u8], lo: usize) -> (r: Result<(i64, i64), ()>)
    requires
        lo + 8 <= s@.len(),
    ensures
        r is Ok <==> exp_field_ok(s@.subrange(lo as int, lo + 8)),
        r is Ok ==> r->Ok_0.0 == exp_field_mant_e5(s@.subrange(lo as int, lo + 8)),
        r is Ok ==> r->Ok_0.1 == exp_field_exp(s@.subrange(lo as int, lo + 8)),
        r is Ok ==> -100_000 < r->Ok_0.0 < 100_000 && -10 < r->Ok_0.1 < 10,
{
    let ghost whole = s@.subrange(lo as int, lo + 8);
    proof {
        assert(whole[0] == s@[lo as int]);
        assert(whole[6] == s@[lo + 6]);
        assert(whole[7] == s@[lo + 7]);
        assert(whole.subrange(1, 6) =~= s@.subrange(lo + 1, lo + 6));
    }
    let sign = s[lo];
    if !(sign == 32 || sign == 43 || sign == 45) {
        return Err(());
    }
    let mag = match parse_digits(s, lo + 1, lo + 6) {
        Ok(v) => v,
        Err(()) => {
            return Err(());
        },
    };
    let esign = s[lo + 6];
    if !(esign == 32 || esign == 43 || esign == 45) {
        return Err(());
    }
    let edig = s[lo + 7];
    if edig < 48 || edig > 57 {
        return Err(());
    }
    proof {
        lemma_pow10_values();
    }
    let mant: i64 = if sign == 45 {
        -(mag as i64)
    } else {
        mag as i64
    };
    let exp: i64 = if esign == 45 {
        -((edig - 48) as i64)
    } else {
        (edig - 48) as i64
    };
    Ok((mant, exp))
}

/// Checksum weight of a byte: digits count their value, a minus sign counts
/// one, everything else counts nothing.
pub open spec fn checksum_val(b: u8) -> int {
    if is_digit(b) {
        digit_val(b)
    } else if b == 45 {
        1
    } else {
        0
    }
}

/// Sum of the checksum weights of a sequence.
pub open spec fn checksum_sum(s: Seq<u8>) -> int
    decreases s.len(),
{
    if s.len() == 0 {
        0
    } else {
        checksum_sum(s.drop_last()) + checksum_val(s.last())
    }
}

/// The checksum weights are bounded below by zero and above by nine.
pub proof fn lemma_checksum_sum_bound(s: Seq<u8>)
    ensures
        0 <= checksum_sum(s) <= 9 * s.len(),
    decreases s.len(),
{
    if s.len() > 0 {
        lemma_checksum_sum_bound(s.drop_last());
    }
}

/// A 69-byte line carries a valid checksum: its last byte is a digit equal
/// to the sum of the weights of the first 68 bytes, modulo ten.
pub open spec fn line_checksum_ok(s: Seq<u8>) -> bool {
    &&& s.len() == 69
    &&& is_digit(s[68])
    &&& digit_val(s[68]) == checksum_sum(s.take(68)) % 10
}

/// Checks the checksum of a 69-byte line.
pub fn check_line_checksum(s: &[u8]) -> (r: bool)
    requires
        s@.len() == 69,
    ensures
        r == line_checksum_ok(s@),
{
    let mut i: usize = 0;
    let mut sum: u32 = 0;
    while i < 68
        invariant
            0 <= i <= 68,
            s@.len() == 69,
            sum == checksum_sum(s@.take(i as int)),
            sum <= 9 * i,
        decreases 68 - i,
    {
        let b = s[i];
        proof {
            assert(s@.take((i + 1) as int).drop_last() =~= s@.take(i as int));
            assert(s@.take((i + 1) as int).last() == s@[i as int]);
        }
        if 48 <= b && b <= 57 {
            sum = sum + ((b - 48) as u32);
        } else if b == 45 {
            sum = sum + 1;
        }
        i = i + 1;
    }
    let last = s[68];
    if last < 48 || last > 57 {
        return false;
    }
    proof {
        lemma_checksum_sum_bound(s@.take(68));
        assert(s@.take(68).len() == 68);
    }
    (last - 48) as u32 == sum % 10
}

/// A single corrupted digit anywhere in the data portion of a line breaks
/// the line's checksum: if two 69-byte lines agree everywhere but at one
/// data position, where both hold digits and differ, at most one of them
/// carries a valid checksum.
pub proof fn lemma_checksum_detects_corruption(a: Seq<u8>, b: Seq<u8>, i: int)
    requires
        a.len() == 69,
        b.len() == 69,
        0 <= i < 68,
        is_digit(a[i]),
        is_digit(b[i]),
        a[i] != b[i],
        forall|j: int| 0 <= j < 69 && j != i ==> a[j] == b[j],
        line_checksum_ok(a),
    ensures
        !line_checksum_ok(b),
{
    lemma_checksum_sum_update(a.take(68), b.take(68), i);
    let sa = checksum_sum(a.take(68));
    let sb = checksum_sum(b.take(68));
    let d = digit_val(b[i]) - digit_val(a[i]);
    assert(sb == sa + d);
    assert(-9 <= d <= 9 && d != 0);
    vstd::arithmetic::div_mod::lemma_fundamental_div_mod(sa, 10);
    vstd::arithmetic::div_mod::lemma_fundamental_div_mod(sb, 10);
    vstd::arithmetic::div_mod::lemma_mod_bound(sa, 10);
    vstd::arithmetic::div_mod::lemma_mod_bound(sb, 10);
    if sa % 10 == sb % 10 {
        let qa = sa / 10;
        let qb = sb / 10;
        assert(d == 10 * qb - 10 * qa);
        assert(false);
    }
    assert(a[68] == b[68]);
}

/// Sums of sequences that agree everywhere but at one position differ by
/// the two weights at that position.
pub proof fn lemma_checksum_sum_update(a: Seq<u8>, b: Seq<u8>, i: int)
    requires
        a.len() == b.len(),
        0 <= i < a.len(),
        forall|j: int| 0 <= j < a.len() && j != i ==> a[j] == b[j],
    ensures
        checksum_sum(b) == checksum_sum(a) - checksum_val(a[i]) + checksum_val(b[i]),
    decreases a.len(),
{
    if i == a.len() - 1 {
        assert(a.drop_last() =~= b.drop_last());
    } else {
        lemma_checksum_sum_update(a.drop_last(), b.drop_last(), i);
    }
}

} // verus!
