use vstd::prelude::*;
use vstd::string::StrSliceExecFns;

verus! {

/// Whether `a` and `b` hold the same characters.
pub fn str_eq(a: &str, b: &str) -> (r: bool)
    ensures
        r == (a@ == b@),
{
    let x: String = a.to_owned();
    let y: String = b.to_owned();
    x == y
}

/// Whether `p` is a prefix of `s`.
pub fn str_starts_with(s: &str, p: &str) -> (r: bool)
    ensures
        r == (p@.len() <= s@.len() && s@.subrange(0, p@.len() as int) == p@),
{
    let n = p.unicode_len();
    let m = s.unicode_len();
    if n > m {
        return false;
    }
    let mut i: usize = 0;
    while i < n
        invariant
            n == p@.len(),
            m == s@.len(),
            n <= m,
            0 <= i <= n,
            forall|j: int| 0 <= j < i ==> s@[j] == p@[j],
        decreases n - i,
    {
        if s.get_char(i) != p.get_char(i) {
            proof {
                assert(s@.subrange(0, n as int)[i as int] == s@[i as int]);
            }
            return false;
        }
        i = i + 1;
    }
    proof {
        assert(s@.subrange(0, n as int) =~= p@);
    }
    true
}

/// Whether `p` is a suffix of `s`.
pub fn str_ends_with(s: &str, p: &str) -> (r: bool)
    ensures
        r == (p@.len() <= s@.len() && s@.subrange(s@.len() - p@.len(), s@.len() as int) == p@),
{
    let n = p.unicode_len();
    let m = s.unicode_len();
    if n > m {
        return false;
    }
    let off = m - n;
    let mut i: usize = 0;
    while i < n
        invariant
            n == p@.len(),
            m == s@.len(),
            n <= m,
            off == m - n,
            0 <= i <= n,
            forall|j: int| 0 <= j < i ==> s@[off + j] == p@[j],
        decreases n - i,
    {
        if s.get_char(off + i) != p.get_char(i) {
            proof {
                assert(s@.subrange(off as int, m as int)[i as int] == s@[off + i]);
            }
            return false;
        }
        i = i + 1;
    }
    proof {
        assert(s@.subrange(off as int, m as int) =~= p@);
    }
    true
}

pub open spec fn is_digit_char(c: char) -> bool {
    c == '0' || c == '1' || c == '2' || c == '3' || c == '4' || c == '5' || c == '6' || c == '7'
        || c == '8' || c == '9'
}

/// The numeric value of a single decimal digit.
pub open spec fn digit_of(c: char) -> int {
    if c == '0' {
        0
    } else if c == '1' {
        1
    } else if c == '2' {
        2
    } else if c == '3' {
        3
    } else if c == '4' {
        4
    } else if c == '5' {
        5
    } else if c == '6' {
        6
    } else if c == '7' {
        7
    } else if c == '8' {
        8
    } else if c == '9' {
        9
    } else {
        0
    }
}

pub open spec fn all_digits(s: Seq<char>) -> bool {
    forall|i: int| 0 <= i < s.len() ==> is_digit_char(#[trigger] s[i])
}

/// The numeric value of a digit string, most significant digit first.
pub open spec fn digits_val(s: Seq<char>) -> int
    decreases s.len(),
{
    if s.len() == 0 {
        0
    } else {
        digits_val(s.drop_last()) * 10 + digit_of(s.last())
    }
}

pub open spec fn pow10(n: nat) -> int
    decreases n,
{
    if n == 0 {
        1
    } else {
        10 * pow10((n - 1) as nat)
    }
}

/// What `str::parse::<i32>` accepts: an optional sign followed by one or
/// more digits, with the value in range; leading zeros are allowed.
pub open spec fn spec_parse_i32(s: Seq<char>) -> Option<i32> {
    let neg = s.len() > 0 && s[0] == '-';
    let signed = s.len() > 0 && (s[0] == '-' || s[0] == '+');
    let ds = if signed {
        s.drop_first()
    } else {
        s
    };
    if ds.len() > 0 && all_digits(ds) {
        let v: int = if neg {
            -digits_val(ds)
        } else {
            digits_val(ds)
        };
        if i32::MIN <= v <= i32::MAX {
            Some(v as i32)
        } else {
            None
        }
    } else {
        None
    }
}

fn is_digit(c: char) -> (r: bool)
    ensures
        r == is_digit_char(c),
{
    c == '0' || c == '1' || c == '2' || c == '3' || c == '4' || c == '5' || c == '6' || c == '7'
        || c == '8' || c == '9'
}

fn digit_value(c: char) -> (r: u64)
    requires
        is_digit_char(c),
    ensures
        r == digit_of(c),
{
    if c == '0' {
        0
    } else if c == '1' {
        1
    } else if c == '2' {
        2
    } else if c == '3' {
        3
    } else if c == '4' {
        4
    } else if c == '5' {
        5
    } else if c == '6' {
        6
    } else if c == '7' {
        7
    } else if c == '8' {
        8
    } else {
        9
    }
}

/// Dropping a leading zero does not change the value.
proof fn lemma_digits_leading_zero(s: Seq<char>)
    requires
        s.len() > 0,
        s[0] == '0',
    ensures
        digits_val(s) == digits_val(s.drop_first()),
    decreases s.len(),
{
    if s.len() == 1 {
        assert(s.drop_last() =~= Seq::<char>::empty());
        assert(s.drop_first() =~= Seq::<char>::empty());
        assert(digits_val(Seq::<char>::empty()) == 0);
        assert(s.last() == '0');
    } else {
        let t = s.drop_last();
        assert(t[0] == '0');
        lemma_digits_leading_zero(t);
        assert(t.drop_first() =~= s.drop_first().drop_last());
    }
}

/// A digit string that starts with a nonzero digit is at least `pow10` of
/// its remaining length.
proof fn lemma_digits_lower_bound(s: Seq<char>)
    requires
        s.len() > 0,
        all_digits(s),
        s[0] != '0',
    ensures
        digits_val(s) >= pow10((s.len() - 1) as nat),
    decreases s.len(),
{
    assert(is_digit_char(s[0]));
    if s.len() == 1 {
        assert(s.drop_last() =~= Seq::<char>::empty());
        assert(digits_val(Seq::<char>::empty()) == 0);
        assert(s.last() == s[0]);
        assert(digit_of(s[0]) >= 1);
        assert(pow10(0) == 1);
    } else {
        let t = s.drop_last();
        assert(all_digits(t)) by {
            assert(forall|i: int| 0 <= i < t.len() ==> t[i] == s[i] && is_digit_char(#[trigger] s[i]));
        }
        assert(t[0] == s[0]);
        lemma_digits_lower_bound(t);
        assert(is_digit_char(s.last()));
        assert(digit_of(s.last()) >= 0);
        assert(digits_val(t) * 10 >= pow10((t.len() - 1) as nat) * 10);
        assert(pow10((s.len() - 1) as nat) == 10 * pow10((s.len() - 2) as nat));
    }
}

proof fn lemma_pow10_ten()
    ensures
        pow10(10) == 10000000000,
{
    reveal_with_fuel(pow10, 11);
}

proof fn lemma_digits_nonneg(s: Seq<char>)
    requires
        all_digits(s),
    ensures
        digits_val(s) >= 0,
    decreases s.len(),
{
    if s.len() > 0 {
        let t = s.drop_last();
        assert(all_digits(t)) by {
            assert(forall|i: int| 0 <= i < t.len() ==> t[i] == s[i] && is_digit_char(
                #[trigger] s[i]));
        }
        lemma_digits_nonneg(t);
        assert(is_digit_char(s.last()));
        assert(digit_of(s.last()) >= 0);
    }
}

/// A digit string's value is below `pow10` of its length.
proof fn lemma_digits_upper_bound(s: Seq<char>)
    requires
        all_digits(s),
    ensures
        digits_val(s) < pow10(s.len() as nat),
    decreases s.len(),
{
    if s.len() == 0 {
    } else {
        let t = s.drop_last();
        assert(all_digits(t)) by {
            assert(forall|i: int| 0 <= i < t.len() ==> t[i] == s[i] && is_digit_char(
                #[trigger] s[i]));
        }
        lemma_digits_upper_bound(t);
        assert(is_digit_char(s.last()));
        assert(digit_of(s.last()) <= 9);
        assert(digits_val(t) * 10 <= (pow10(t.len() as nat) - 1) * 10);
    }
}

proof fn lemma_pow10_pos(n: nat)
    ensures
        pow10(n) >= 1,
    decreases n,
{
    if n > 0 {
        lemma_pow10_pos((n - 1) as nat);
    }
}

proof fn lemma_pow10_monotone(a: nat, b: nat)
    requires
        a <= b,
    ensures
        pow10(a) <= pow10(b),
    decreases b,
{
    lemma_pow10_pos(a);
    if a < b {
        lemma_pow10_monotone(a, (b - 1) as nat);
        lemma_pow10_pos((b - 1) as nat);
    }
}

/// Appending one digit multiplies by ten and adds it.
proof fn lemma_digits_snoc(s: Seq<char>, i: int)
    requires
        0 <= i < s.len(),
    ensures
        digits_val(s.subrange(0, i + 1)) == digits_val(s.subrange(0, i)) * 10 + digit_of(s[i]),
{
    let t = s.subrange(0, i + 1);
    assert(t.drop_last() =~= s.subrange(0, i));
    assert(t.last() == s[i]);
}

/// Parses a signed 32-bit integer with the same acceptance as
/// `str::parse::<i32>`.
pub fn parse_i32(s: &str) -> (r: Option<i32>)
    ensures
        r == spec_parse_i32(s@),
{
    let m = s.unicode_len();
    if m == 0 {
        return None;
    }
    let c0 = s.get_char(0);
    let neg = c0 == '-';
    let signed = neg || c0 == '+';
    let start: usize = if signed {
        1
    } else {
        0
    };
    let ghost ds: Seq<char> = if signed {
        s@.drop_first()
    } else {
        s@
    };
    proof {
        assert(forall|j: int| 0 <= j < ds.len() ==> ds[j] == s@[j + start]);
    }
    if start == m {
        return None;
    }
    // Every remaining character must be a digit.
    let mut i: usize = start;
    while i < m
        invariant
            m == s@.len(),
            m > 0,
            start <= i <= m,
            start == if signed { 1int } else { 0int },
            neg == (s@[0] == '-'),
            signed == (s@[0] == '-' || s@[0] == '+'),
            signed ==> ds =~= s@.drop_first(),
            !signed ==> ds =~= s@,
            forall|j: int| start <= j < i ==> is_digit_char(#[trigger] s@[j]),
        decreases m - i,
    {
        let c = s.get_char(i);
        if !is_digit(c) {
            proof {
                assert(ds[i - start] == s@[i as int]);
                assert(!is_digit_char(ds[i - start]));
                assert(!all_digits(ds));
            }
            return None;
        }
        i = i + 1;
    }
    proof {
        assert(all_digits(ds)) by {
            assert(forall|j: int| 0 <= j < ds.len() ==> ds[j] == s@[j + start] && is_digit_char(
                #[trigger] s@[j + start]));
        }
    }
    // Skip leading zeros; they do not affect the value.
    let mut z: usize = start;
    while z < m && s.get_char(z) == '0'
        invariant
            m == s@.len(),
            start <= z <= m,
            forall|j: int| start <= j < m ==> is_digit_char(#[trigger] s@[j]),
            digits_val(s@.subrange(start as int, m as int)) == digits_val(
                s@.subrange(z as int, m as int),
            ),
        decreases m - z,
    {
        proof {
            let cur = s@.subrange(z as int, m as int);
            lemma_digits_leading_zero(cur);
            assert(cur.drop_first() =~= s@.subrange(z as int + 1, m as int));
        }
        z = z + 1;
    }
    proof {
        assert(ds =~= s@.subrange(start as int, m as int));
    }
    let ghost tail: Seq<char> = s@.subrange(z as int, m as int);
    if m - z > 10 {
        // More than ten significant digits cannot fit in an i32.
        proof {
            assert(tail[0] == s@[z as int]);
            assert(all_digits(tail)) by {
                assert(forall|j: int| 0 <= j < tail.len() ==> tail[j] == s@[j + z] && is_digit_char(
                    #[trigger] s@[j + z]));
            }
            lemma_digits_lower_bound(tail);
            lemma_pow10_ten();
            lemma_pow10_monotone(10, (tail.len() - 1) as nat);
        }
        return None;
    }
    // At most ten digits: accumulate exactly, then check the i32 range.
    let mut acc: u64 = 0;
    let mut k: usize = z;
    while k < m
        invariant
            m == s@.len(),
            z <= k <= m,
            m - z <= 10,
            forall|j: int| z <= j < m ==> is_digit_char(#[trigger] s@[j]),
            tail =~= s@.subrange(z as int, m as int),
            acc == digits_val(s@.subrange(z as int, k as int)),
            acc <= 9999999999,
        decreases m - k,
    {
        let c = s.get_char(k);
        proof {
            lemma_digits_snoc(s@.subrange(z as int, m as int), k - z);
            assert(s@.subrange(z as int, m as int).subrange(0, k - z) =~= s@.subrange(
                z as int,
                k as int,
            ));
            assert(s@.subrange(z as int, m as int).subrange(0, k - z + 1) =~= s@.subrange(
                z as int,
                k as int + 1,
            ));
            assert(s@.subrange(z as int, m as int)[k - z] == s@[k as int]);
            assert(digits_val(s@.subrange(z as int, k as int)) >= 0) by {
                lemma_digits_nonneg(s@.subrange(z as int, k as int));
            }
            assert(digits_val(s@.subrange(z as int, k as int)) <= 999999999) by {
                lemma_digits_upper_bound(s@.subrange(z as int, k as int));
                lemma_pow10_monotone((k - z) as nat, 9);
                reveal_with_fuel(pow10, 10);
            }
        }
        let d = digit_value(c);
        acc = acc * 10 + d;
        k = k + 1;
    }
    proof {
        assert(s@.subrange(z as int, m as int) =~= tail);
        assert(acc == digits_val(tail));
        assert(digits_val(ds) == digits_val(tail));
    }
    if neg {
        if acc > 2147483648 {
            return None;
        }
        let v: i64 = -(acc as i64);
        Some(v as i32)
    } else {
        if acc > 2147483647 {
            return None;
        }
        Some(acc as i32)
    }
}

} // verus!
