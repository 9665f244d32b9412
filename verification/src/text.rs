//! Small verified string helpers shared by the key, subject and SQL builders:
//! decimal rendering of integers, character-wise equality, and conversion
//! between `&str` and character vectors.
use vstd::prelude::*;
use vstd::string::StrSliceExecFns;
use vstd::string::StringExecFns;

verus! {

/// The character that stands for a decimal digit.
pub open spec fn digit_char(d: nat) -> char {
    if d == 0 {
        '0'
    } else if d == 1 {
        '1'
    } else if d == 2 {
        '2'
    } else if d == 3 {
        '3'
    } else if d == 4 {
        '4'
    } else if d == 5 {
        '5'
    } else if d == 6 {
        '6'
    } else if d == 7 {
        '7'
    } else if d == 8 {
        '8'
    } else {
        '9'
    }
}

/// Decimal digits of a natural number, most significant first, no leading zeros.
pub open spec fn nat_decimal(n: nat) -> Seq<char>
    decreases n,
{
    if n < 10 {
        seq![digit_char(n)]
    } else {
        nat_decimal(n / 10).push(digit_char(n % 10))
    }
}

/// Decimal rendering of an integer, as `Display` for Rust integers writes it.
pub open spec fn int_decimal(n: int) -> Seq<char> {
    if n < 0 {
        seq!['-'] + nat_decimal((-n) as nat)
    } else {
        nat_decimal(n as nat)
    }
}

/// Every character of a decimal rendering of a natural number is a digit.
pub proof fn lemma_nat_decimal_digits(n: nat)
    ensures
        nat_decimal(n).len() >= 1,
        n < 10 <==> nat_decimal(n).len() == 1,
        forall|i: int| 0 <= i < nat_decimal(n).len() ==> '0' <= #[trigger] nat_decimal(n)[i] <= '9',
    decreases n,
{
    if n >= 10 {
        lemma_nat_decimal_digits(n / 10);
    }
}

/// Distinct natural numbers have distinct decimal renderings.
pub proof fn lemma_nat_decimal_injective(a: nat, b: nat)
    requires
        nat_decimal(a) == nat_decimal(b),
    ensures
        a == b,
    decreases a,
{
    lemma_nat_decimal_digits(a);
    lemma_nat_decimal_digits(b);
    if a >= 10 {
        assert(b >= 10);
        let da = nat_decimal(a);
        let db = nat_decimal(b);
        assert(da.last() == digit_char(a % 10));
        assert(db.last() == digit_char(b % 10));
        assert(da.drop_last() =~= nat_decimal(a / 10));
        assert(db.drop_last() =~= nat_decimal(b / 10));
        lemma_nat_decimal_injective(a / 10, b / 10);
    } else {
        assert(b < 10);
        assert(nat_decimal(a)[0] == digit_char(a));
        assert(nat_decimal(b)[0] == digit_char(b));
    }
}

/// Distinct integers have distinct decimal renderings.
pub proof fn lemma_int_decimal_injective(a: int, b: int)
    requires
        int_decimal(a) == int_decimal(b),
    ensures
        a == b,
{
    if a < 0 {
        lemma_nat_decimal_digits((-a) as nat);
    } else {
        lemma_nat_decimal_digits(a as nat);
    }
    if b < 0 {
        lemma_nat_decimal_digits((-b) as nat);
    } else {
        lemma_nat_decimal_digits(b as nat);
    }
    if a < 0 && b < 0 {
        assert(int_decimal(a).drop_first() =~= nat_decimal((-a) as nat));
        assert(int_decimal(b).drop_first() =~= nat_decimal((-b) as nat));
        lemma_nat_decimal_injective((-a) as nat, (-b) as nat);
    } else if a >= 0 && b >= 0 {
        lemma_nat_decimal_injective(a as nat, b as nat);
    } else if a < 0 {
        assert(int_decimal(a)[0] == '-');
        assert('0' <= nat_decimal(b as nat)[0] <= '9');
        assert(int_decimal(a)[0] == int_decimal(b)[0]);
    } else {
        assert(int_decimal(b)[0] == '-');
        assert('0' <= nat_decimal(a as nat)[0] <= '9');
        assert(int_decimal(a)[0] == int_decimal(b)[0]);
    }
}

/// Appending the same suffix keeps the injectivity of renderings apart:
/// `p + x == p + y` implies `x == y`.
pub proof fn lemma_prefix_cancel(p: Seq<char>, x: Seq<char>, y: Seq<char>)
    requires
        p + x == p + y,
    ensures
        x == y,
{
    assert((p + x).skip(p.len() as int) =~= x);
    assert((p + y).skip(p.len() as int) =~= y);
}

/// Appends one character to a `String` (std's `String::push`).
#[verifier::external_body]
pub(crate) fn string_push(s: &mut String, c: char)
    ensures
        final(s)@ == old(s)@.push(c),
{
    s.push(c)
}

fn digit_of(d: u64) -> (c: char)
    requires
        d < 10,
    ensures
        c == digit_char(d as nat),
{
    if d == 0 {
        '0'
    } else if d == 1 {
        '1'
    } else if d == 2 {
        '2'
    } else if d == 3 {
        '3'
    } else if d == 4 {
        '4'
    } else if d == 5 {
        '5'
    } else if d == 6 {
        '6'
    } else if d == 7 {
        '7'
    } else if d == 8 {
        '8'
    } else {
        '9'
    }
}

/// Appends the decimal digits of `n`.
pub fn push_u64_decimal(s: &mut String, n: u64)
    ensures
        final(s)@ == old(s)@ + nat_decimal(n as nat),
    decreases n,
{
    if n >= 10 {
        push_u64_decimal(s, n / 10);
    }
    string_push(s, digit_of(n % 10));
    proof {
        assert(old(s)@ + nat_decimal(n as nat) =~= s@);
    }
}

/// Appends the decimal rendering of `n`, with a leading `-` for negatives.
pub fn push_i64_decimal(s: &mut String, n: i64)
    ensures
        final(s)@ == old(s)@ + int_decimal(n as int),
{
    if n < 0 {
        string_push(s, '-');
        let magnitude: u64 = if n == i64::MIN {
            9223372036854775808u64
        } else {
            (-n) as u64
        };
        push_u64_decimal(s, magnitude);
        proof {
            assert(old(s)@ + int_decimal(n as int) =~= s@);
        }
    } else {
        push_u64_decimal(s, n as u64);
    }
}

/// A `String` holding the characters of `s`.
pub fn owned(s: &str) -> (r: String)
    ensures
        r@ == s@,
{
    s.to_owned()
}

/// Character-wise equality of two string slices.
pub fn str_eq(a: &str, b: &str) -> (r: bool)
    ensures
        r == (a@ == b@),
{
    let n = a.unicode_len();
    if n != b.unicode_len() {
        return false;
    }
    let mut i: usize = 0;
    while i < n
        invariant
            n == a@.len(),
            n == b@.len(),
            i <= n,
            forall|j: int| 0 <= j < i ==> a@[j] == b@[j],
        decreases n - i,
    {
        if a.get_char(i) != b.get_char(i) {
            return false;
        }
        i = i + 1;
    }
    assert(a@ =~= b@);
    true
}

/// The characters of `s`, in order.
pub fn chars_of(s: &str) -> (v: Vec<char>)
    ensures
        v@ == s@,
{
    let n = s.unicode_len();
    let mut v: Vec<char> = Vec::new();
    let mut i: usize = 0;
    while i < n
        invariant
            n == s@.len(),
            i <= n,
            v@ == s@.subrange(0, i as int),
        decreases n - i,
    {
        v.push(s.get_char(i));
        i = i + 1;
        assert(v@ =~= s@.subrange(0, i as int));
    }
    assert(s@.subrange(0, n as int) =~= s@);
    v
}

/// `prefix` followed by `rest`.
pub fn concat2(prefix: &str, rest: &str) -> (r: String)
    ensures
        r@ == prefix@ + rest@,
{
    let mut r = owned(prefix);
    r.append(rest);
    r
}


/// Whether `s` begins with `prefix`.
pub open spec fn has_prefix(s: Seq<char>, prefix: Seq<char>) -> bool {
    prefix.len() <= s.len() && s.take(prefix.len() as int) == prefix
}

/// Whether `t` occurs in `s` at position `i`.
pub open spec fn occurs_at(s: Seq<char>, t: Seq<char>, i: int) -> bool {
    0 <= i && i + t.len() <= s.len() && s.subrange(i, i + t.len()) == t
}

/// Whether `t` occurs somewhere in `s`.
pub open spec fn contains_text(s: Seq<char>, t: Seq<char>) -> bool {
    exists|i: int| occurs_at(s, t, i)
}

/// ASCII lower-casing of one character; other characters are kept.
pub open spec fn ascii_lower(c: char) -> char {
    if 'A' <= c && c <= 'Z' {
        ((c as u32) + 32) as char
    } else {
        c
    }
}

/// Equality up to ASCII case, as `str::eq_ignore_ascii_case` compares.
pub open spec fn eq_ignoring_ascii_case(a: Seq<char>, b: Seq<char>) -> bool {
    a.len() == b.len() && forall|i: int| 0 <= i < a.len() ==> ascii_lower(#[trigger] a[i]) == ascii_lower(b[i])
}

fn lower(c: char) -> (r: char)
    ensures
        r == ascii_lower(c),
{
    if 'A' <= c && c <= 'Z' {
        let code: u8 = (c as u8) + 32;
        code as char
    } else {
        c
    }
}

/// Whether `s` begins with `prefix`.
pub fn starts_with(s: &str, prefix: &str) -> (b: bool)
    ensures
        b == has_prefix(s@, prefix@),
{
    let n = s.unicode_len();
    let m = prefix.unicode_len();
    if m > n {
        return false;
    }
    let mut i: usize = 0;
    while i < m
        invariant
            n == s@.len(),
            m == prefix@.len(),
            m <= n,
            i <= m,
            forall|j: int| 0 <= j < i ==> s@[j] == prefix@[j],
        decreases m - i,
    {
        if s.get_char(i) != prefix.get_char(i) {
            assert(s@.take(m as int)[i as int] != prefix@[i as int]);
            return false;
        }
        i = i + 1;
    }
    assert(s@.take(m as int) =~= prefix@);
    true
}

/// `s` without `prefix`, if it begins with it.
pub fn strip_prefix(s: &str, prefix: &str) -> (r: Option<String>)
    ensures
        has_prefix(s@, prefix@) ==> (r matches Some(t) && t@ == s@.skip(prefix@.len() as int)),
        !has_prefix(s@, prefix@) ==> r is None,
{
    if starts_with(s, prefix) {
        let n = s.unicode_len();
        let m = prefix.unicode_len();
        Some(owned(s.substring_char(m, n)))
    } else {
        None
    }
}

/// Whether `t` occurs at position `i` of `s`.
fn occurs_at_exec(s: &Vec<char>, t: &Vec<char>, i: usize) -> (b: bool)
    requires
        i + t@.len() <= s@.len(),
    ensures
        b == occurs_at(s@, t@, i as int),
{
    let sl = s.len();
    let mut j: usize = 0;
    while j < t.len()
        invariant
            sl == s@.len(),
            i + t@.len() <= s@.len(),
            j <= t@.len(),
            forall|k: int| 0 <= k < j ==> s@[i + k] == t@[k],
        decreases t.len() - j,
    {
        if s[i + j] != t[j] {
            assert(s@.subrange(i as int, i + t@.len())[j as int] != t@[j as int]);
            return false;
        }
        j = j + 1;
    }
    assert(s@.subrange(i as int, i + t@.len()) =~= t@);
    true
}

/// Whether `t` occurs in `s`.
pub fn contains(s: &str, t: &str) -> (b: bool)
    ensures
        b == contains_text(s@, t@),
{
    let sc = chars_of(s);
    let tc = chars_of(t);
    if tc.len() > sc.len() {
        return false;
    }
    if tc.len() == 0 {
        assert(s@.subrange(0, 0) =~= t@);
        assert(occurs_at(s@, t@, 0));
        return true;
    }
    let sl = sc.len();
    let last = sl - tc.len();
    let mut i: usize = 0;
    while i <= last
        invariant
            sl == sc@.len(),
            last < sl,
            sc@ == s@,
            tc@ == t@,
            last == sc@.len() - tc@.len(),
            i <= last + 1,
            forall|k: int| 0 <= k < i ==> !occurs_at(s@, t@, k),
        decreases last + 1 - i,
    {
        if occurs_at_exec(&sc, &tc, i) {
            return true;
        }
        i = i + 1;
    }
    assert forall|k: int| !occurs_at(s@, t@, k) by {
        if 0 <= k && k + t@.len() <= s@.len() {
            assert(k < i);
        }
    }
    false
}

/// Equality up to ASCII case.
pub fn eq_ignore_ascii_case(a: &str, b: &str) -> (r: bool)
    ensures
        r == eq_ignoring_ascii_case(a@, b@),
{
    let n = a.unicode_len();
    if n != b.unicode_len() {
        return false;
    }
    let mut i: usize = 0;
    while i < n
        invariant
            n == a@.len(),
            n == b@.len(),
            i <= n,
            forall|j: int| 0 <= j < i ==> ascii_lower(#[trigger] a@[j]) == ascii_lower(b@[j]),
        decreases n - i,
    {
        if lower(a.get_char(i)) != lower(b.get_char(i)) {
            return false;
        }
        i = i + 1;
    }
    true
}

/// The number a string of decimal digits stands for, read most significant
/// digit first.
pub open spec fn digits_value(s: Seq<char>) -> int
    decreases s.len(),
{
    if s.len() == 0 {
        0
    } else {
        digits_value(s.drop_last()) * 10 + (s.last() as int - '0' as int)
    }
}

/// The digit character of `d` stands for `d`.
proof fn lemma_digit_char_value(d: nat)
    requires
        d < 10,
    ensures
        digit_char(d) as int - '0' as int == d,
{
    assert('0' as int == 48 && '1' as int == 49 && '2' as int == 50 && '3' as int == 51 && '4' as int == 52
        && '5' as int == 53 && '6' as int == 54 && '7' as int == 55 && '8' as int == 56 && '9' as int == 57);
}

/// Decimal rendering is the canonical one: its characters are digits, read
/// back they give the number, and there is no leading zero; a negative
/// integer is its absolute value after a `-`.
pub proof fn law_decimal_rendering(n: nat, m: int)
    ensures
        digits_value(nat_decimal(n)) == n,
        forall|i: int| 0 <= i < nat_decimal(n).len() ==> '0' <= #[trigger] nat_decimal(n)[i] <= '9',
        n > 0 ==> nat_decimal(n)[0] != '0',
        m < 0 ==> int_decimal(m) == seq!['-'] + nat_decimal((-m) as nat),
        m >= 0 ==> int_decimal(m) == nat_decimal(m as nat),
    decreases n,
{
    lemma_nat_decimal_digits(n);
    lemma_digit_char_value(n % 10);
    if n < 10 {
        assert(nat_decimal(n).drop_last() =~= Seq::<char>::empty());
        assert(digits_value(Seq::<char>::empty()) == 0);
        assert(nat_decimal(n).last() == digit_char(n));
        assert(n % 10 == n);
    } else {
        law_decimal_rendering(n / 10, m);
        assert(nat_decimal(n).drop_last() =~= nat_decimal(n / 10));
        assert(nat_decimal(n)[0] == nat_decimal(n / 10)[0]);
        assert(digits_value(nat_decimal(n)) == (n / 10) * 10 + (digit_char(n % 10) as int - '0' as int));
    }
}

} // verus!
