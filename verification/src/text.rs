//! Character-level text primitives with exact specifications.
//!
//! Strings are handled as `Vec<char>` while they are inspected or rebuilt;
//! every operation here states its result over the `Seq<char>` view.
use vstd::prelude::*;
use vstd::std_specs::iter::IteratorSpec;

verus! {

// ---------------------------------------------------------------------------
// Character classes of std
// ---------------------------------------------------------------------------

/// `char::is_whitespace`: the Unicode `White_Space` property, that is
/// U+0009..U+000D, U+0020, U+0085, U+00A0, U+1680, U+2000..U+200A, U+2028,
/// U+2029, U+202F, U+205F and U+3000.
pub open spec fn char_is_whitespace(c: char) -> bool {
    let u = c as u32;
    (0x09 <= u <= 0x0D) || u == 0x20 || u == 0x85 || u == 0xA0 || u == 0x1680 || (0x2000 <= u
        <= 0x200A) || u == 0x2028 || u == 0x2029 || u == 0x202F || u == 0x205F || u == 0x3000
}

/// `char::is_control`: the Unicode general category `Cc`, that is
/// U+0000..U+001F and U+007F..U+009F.
pub open spec fn char_is_control(c: char) -> bool {
    let u = c as u32;
    u <= 0x1F || (0x7F <= u <= 0x9F)
}

/// Whether `c` is white space, as `char::is_whitespace` answers.
pub fn is_whitespace(c: char) -> (r: bool)
    ensures
        r == char_is_whitespace(c),
{
    let u = c as u32;
    (0x09 <= u && u <= 0x0D) || u == 0x20 || u == 0x85 || u == 0xA0 || u == 0x1680 || (0x2000 <= u
        && u <= 0x200A) || u == 0x2028 || u == 0x2029 || u == 0x202F || u == 0x205F || u == 0x3000
}

/// Whether `c` is a control character, as `char::is_control` answers.
pub fn is_control(c: char) -> (r: bool)
    ensures
        r == char_is_control(c),
{
    let u = c as u32;
    u <= 0x1F || (0x7F <= u && u <= 0x9F)
}

// ---------------------------------------------------------------------------
// Characters and strings
// ---------------------------------------------------------------------------

/// Collects the characters of `s` in order.
pub(crate) fn chars_of(s: &str) -> (r: Vec<char>)
    ensures
        r@ == s@,
{
    broadcast use vstd::string::axiom_spec_iter, vstd::string::next_postcondition;

    let mut it = s.chars();
    let mut out: Vec<char> = Vec::new();
    loop
        invariant
            it.obeys_prophetic_iter_laws(),
            out@ + it.remaining() == s@,
            it.decrease() is Some,
        decreases it.decrease()->0,
    {
        match it.next() {
            Some(c) => {
                proof {
                    assert(out@.push(c) + it.remaining() =~= s@);
                }
                out.push(c);
            },
            None => {
                proof {
                    assert(out@ =~= s@);
                }
                return out;
            },
        }
    }
}

/// Builds a `String` holding exactly the characters of `v`
/// (`FromIterator<char> for String`).
#[verifier::external_body]
pub(crate) fn string_of(v: &Vec<char>) -> (r: String)
    ensures
        r@ == v@,
{
    v.iter().collect()
}

// ---------------------------------------------------------------------------
// Specifications
// ---------------------------------------------------------------------------

/// Number of leading whitespace characters.
pub open spec fn lead_ws(s: Seq<char>) -> nat
    decreases s.len(),
{
    if s.len() > 0 && char_is_whitespace(s[0]) {
        1 + lead_ws(s.drop_first())
    } else {
        0
    }
}

/// Number of trailing whitespace characters.
pub open spec fn trail_ws(s: Seq<char>) -> nat
    decreases s.len(),
{
    if s.len() > 0 && char_is_whitespace(s.last()) {
        1 + trail_ws(s.drop_last())
    } else {
        0
    }
}

/// `str::trim_start`.
pub open spec fn trim_start(s: Seq<char>) -> Seq<char> {
    s.subrange(lead_ws(s) as int, s.len() as int)
}

/// `str::trim_end`.
pub open spec fn trim_end(s: Seq<char>) -> Seq<char> {
    s.subrange(0, s.len() - trail_ws(s))
}

/// `str::trim`: leading and trailing whitespace removed.
pub open spec fn trim(s: Seq<char>) -> Seq<char> {
    trim_end(trim_start(s))
}

pub open spec fn is_ascii_upper(c: char) -> bool {
    'A' <= c && c <= 'Z'
}

pub open spec fn is_ascii_lower(c: char) -> bool {
    'a' <= c && c <= 'z'
}

pub open spec fn is_ascii_digit(c: char) -> bool {
    '0' <= c && c <= '9'
}

/// `char::is_ascii_alphanumeric`.
pub open spec fn is_ascii_alnum(c: char) -> bool {
    is_ascii_upper(c) || is_ascii_lower(c) || is_ascii_digit(c)
}

/// `char::to_ascii_lowercase`.
pub open spec fn lower_char(c: char) -> char {
    if is_ascii_upper(c) {
        ((c as u32) + 32) as char
    } else {
        c
    }
}

/// `char::to_ascii_uppercase`.
pub open spec fn upper_char(c: char) -> char {
    if is_ascii_lower(c) {
        ((c as u32) - 32) as char
    } else {
        c
    }
}

/// `str::to_ascii_lowercase`.
pub open spec fn lower(s: Seq<char>) -> Seq<char> {
    Seq::new(s.len(), |i: int| lower_char(s[i]))
}

/// `str::to_ascii_uppercase`.
pub open spec fn upper(s: Seq<char>) -> Seq<char> {
    Seq::new(s.len(), |i: int| upper_char(s[i]))
}

pub open spec fn starts_with(s: Seq<char>, p: Seq<char>) -> bool {
    p.len() <= s.len() && s.subrange(0, p.len() as int) == p
}

pub open spec fn ends_with(s: Seq<char>, p: Seq<char>) -> bool {
    p.len() <= s.len() && s.subrange(s.len() - p.len(), s.len() as int) == p
}

/// `p` occurs in `s` at position `i`.
pub open spec fn occurs_at(s: Seq<char>, p: Seq<char>, i: int) -> bool {
    0 <= i && i + p.len() <= s.len() && s.subrange(i, i + p.len()) == p
}

/// `str::contains` with a string pattern.
pub open spec fn contains(s: Seq<char>, p: Seq<char>) -> bool {
    exists|i: int| occurs_at(s, p, i)
}

/// `str::trim_end_matches` with a non-empty string pattern: the pattern is
/// removed from the end as many times as it occurs there.
pub open spec fn trim_end_matches(s: Seq<char>, p: Seq<char>) -> Seq<char>
    decreases s.len(),
{
    if p.len() > 0 && ends_with(s, p) {
        trim_end_matches(s.subrange(0, s.len() - p.len()), p)
    } else {
        s
    }
}

pub open spec fn all_ascii_alnum(s: Seq<char>) -> bool {
    forall|i: int| 0 <= i < s.len() ==> is_ascii_alnum(#[trigger] s[i])
}

pub open spec fn all_digits(s: Seq<char>) -> bool {
    forall|i: int| 0 <= i < s.len() ==> is_ascii_digit(#[trigger] s[i])
}

pub open spec fn digit_val(c: char) -> int {
    (c as int) - ('0' as int)
}

/// Decimal value of a digit string.
pub open spec fn digits_val(s: Seq<char>) -> int
    decreases s.len(),
{
    if s.len() == 0 {
        0
    } else {
        digits_val(s.drop_last()) * 10 + digit_val(s.last())
    }
}

/// The digits that an unsigned `from_str` reads: an optional leading `+`
/// is skipped.
pub open spec fn unsigned_body(s: Seq<char>) -> Seq<char> {
    if s.len() > 0 && s[0] == '+' {
        s.drop_first()
    } else {
        s
    }
}

/// The value that `u64::from_str` / `usize::from_str` / `u8::from_str`
/// accept, before the range check: `None` for a syntax error.
pub open spec fn unsigned_syntax(s: Seq<char>) -> Option<int> {
    let body = unsigned_body(s);
    if body.len() > 0 && all_digits(body) {
        Some(digits_val(body))
    } else {
        None
    }
}

/// Unsigned `from_str` with upper bound `max`.
pub open spec fn parse_unsigned(s: Seq<char>, max: int) -> Option<int> {
    match unsigned_syntax(s) {
        Some(v) => if v <= max {
            Some(v)
        } else {
            None
        },
        None => None,
    }
}

/// The digits that a signed `from_str` reads, and whether the value is
/// negated.
pub open spec fn signed_negative(s: Seq<char>) -> bool {
    s.len() > 0 && s[0] == '-'
}

pub open spec fn signed_body(s: Seq<char>) -> Seq<char> {
    if s.len() > 0 && (s[0] == '+' || s[0] == '-') {
        s.drop_first()
    } else {
        s
    }
}

/// `i64::from_str`.
pub open spec fn parse_i64_spec(s: Seq<char>) -> Option<int> {
    let body = signed_body(s);
    if body.len() > 0 && all_digits(body) {
        let v = if signed_negative(s) {
            -digits_val(body)
        } else {
            digits_val(body)
        };
        if i64::MIN <= v <= i64::MAX {
            Some(v)
        } else {
            None
        }
    } else {
        None
    }
}

/// Decimal rendering of a natural number without leading zeros.
pub open spec fn nat_decimal(n: nat) -> Seq<char>
    decreases n,
{
    if n < 10 {
        seq![(('0' as u32) + n) as char]
    } else {
        nat_decimal(n / 10).push((('0' as u32) + (n % 10)) as char)
    }
}

/// Decimal rendering of an integer, as `Display` writes it.
pub open spec fn int_decimal(v: int) -> Seq<char> {
    if v < 0 {
        seq!['-'] + nat_decimal((-v) as nat)
    } else {
        nat_decimal(v as nat)
    }
}

// ---------------------------------------------------------------------------
// Lemmas
// ---------------------------------------------------------------------------

pub proof fn lemma_lead_ws(s: Seq<char>, i: int)
    requires
        0 <= i <= s.len(),
        forall|j: int| 0 <= j < i ==> char_is_whitespace(#[trigger] s[j]),
        i == s.len() || !char_is_whitespace(s[i]),
    ensures
        lead_ws(s) == i,
    decreases i,
{
    if i > 0 {
        assert(char_is_whitespace(s[0]));
        let t = s.drop_first();
        assert forall|j: int| 0 <= j < i - 1 implies char_is_whitespace(#[trigger] t[j]) by {
            assert(t[j] == s[j + 1]);
        }
        if i - 1 < t.len() {
            assert(t[i - 1] == s[i]);
        }
        lemma_lead_ws(t, i - 1);
    }
}

pub proof fn lemma_trail_ws(s: Seq<char>, k: int)
    requires
        0 <= k <= s.len(),
        forall|j: int| s.len() - k <= j < s.len() ==> char_is_whitespace(#[trigger] s[j]),
        k == s.len() || !char_is_whitespace(s[s.len() - k - 1]),
    ensures
        trail_ws(s) == k,
    decreases k,
{
    if k > 0 {
        assert(char_is_whitespace(s[s.len() - 1]));
        let t = s.drop_last();
        assert forall|j: int| t.len() - (k - 1) <= j < t.len() implies char_is_whitespace(
            #[trigger] t[j],
        ) by {
            assert(t[j] == s[j]);
        }
        if k - 1 < t.len() {
            assert(t[t.len() - (k - 1) - 1] == s[s.len() - k - 1]);
        }
        lemma_trail_ws(t, k - 1);
    }
}

/// Trimming leaves a text without white space unchanged.
pub proof fn lemma_trim_noop(s: Seq<char>)
    requires
        forall|i: int| 0 <= i < s.len() ==> !char_is_whitespace(#[trigger] s[i]),
    ensures
        trim(s) == s,
{
    lemma_lead_ws(s, 0);
    assert(trim_start(s) =~= s);
    lemma_trail_ws(s, 0);
    assert(trim(s) =~= s);
}

pub proof fn lemma_digits_val_nonneg(s: Seq<char>)
    requires
        all_digits(s),
    ensures
        digits_val(s) >= 0,
    decreases s.len(),
{
    if s.len() > 0 {
        lemma_digits_val_nonneg(s.drop_last());
    }
}

/// A digit string is worth at least as much as any of its prefixes.
pub proof fn lemma_digits_val_prefix(s: Seq<char>, i: int)
    requires
        all_digits(s),
        0 <= i <= s.len(),
    ensures
        digits_val(s.take(i)) <= digits_val(s),
    decreases s.len(),
{
    if i < s.len() {
        let t = s.drop_last();
        assert(all_digits(t));
        lemma_digits_val_prefix(t, i);
        assert(t.take(i) =~= s.take(i));
        lemma_digits_val_nonneg(t);
    } else {
        assert(s.take(i) =~= s);
    }
}

proof fn lemma_digits_val_step(s: Seq<char>, i: int)
    requires
        0 <= i < s.len(),
    ensures
        digits_val(s.take(i + 1)) == digits_val(s.take(i)) * 10 + digit_val(s[i]),
{
    assert(s.take(i + 1).drop_last() =~= s.take(i));
}

// ---------------------------------------------------------------------------
// Executable operations
// ---------------------------------------------------------------------------

/// `str::trim` on a character vector.
pub fn trim_chars(s: &Vec<char>) -> (r: Vec<char>)
    ensures
        r@ == trim(s@),
{
    let n = s.len();
    let mut a: usize = 0;
    while a < n && is_whitespace(s[a])
        invariant
            a <= n,
            n == s@.len(),
            forall|j: int| 0 <= j < a ==> char_is_whitespace(#[trigger] s@[j]),
        decreases n - a,
    {
        a = a + 1;
    }
    proof {
        lemma_lead_ws(s@, a as int);
    }
    let ghost t = trim_start(s@);
    let mut b: usize = n;
    while b > a && is_whitespace(s[b - 1])
        invariant
            a <= b <= n,
            n == s@.len(),
            t == s@.subrange(a as int, n as int),
            forall|j: int| b <= j < n ==> char_is_whitespace(#[trigger] s@[j]),
        decreases b - a,
    {
        b = b - 1;
    }
    proof {
        let k = (n - b) as int;
        assert forall|j: int| t.len() - k <= j < t.len() implies char_is_whitespace(
            #[trigger] t[j],
        ) by {
            assert(t[j] == s@[a + j]);
        }
        if k < t.len() {
            assert(t[t.len() - k - 1] == s@[b - 1]);
        }
        lemma_trail_ws(t, k);
    }
    let mut r: Vec<char> = Vec::new();
    let mut i: usize = a;
    while i < b
        invariant
            a <= i <= b <= n,
            n == s@.len(),
            r@ == s@.subrange(a as int, i as int),
        decreases b - i,
    {
        r.push(s[i]);
        proof {
            assert(s@.subrange(a as int, i + 1) =~= s@.subrange(a as int, i as int).push(s@[i as int]));
        }
        i = i + 1;
    }
    proof {
        assert(r@ =~= trim(s@));
    }
    r
}

pub fn lower_char_exec(c: char) -> (r: char)
    ensures
        r == lower_char(c),
{
    if 'A' <= c && c <= 'Z' {
        let u = c as u32;
        let lo = (u + 32) as u8;
        lo as char
    } else {
        c
    }
}

pub fn upper_char_exec(c: char) -> (r: char)
    ensures
        r == upper_char(c),
{
    if 'a' <= c && c <= 'z' {
        let u = c as u32;
        let up = (u - 32) as u8;
        up as char
    } else {
        c
    }
}

/// `str::to_ascii_lowercase` on a character vector.
pub fn lower_chars(s: &Vec<char>) -> (r: Vec<char>)
    ensures
        r@ == lower(s@),
{
    let mut r: Vec<char> = Vec::new();
    let mut i: usize = 0;
    while i < s.len()
        invariant
            i <= s.len(),
            r@.len() == i,
            forall|j: int| 0 <= j < i ==> r@[j] == lower_char(#[trigger] s@[j]),
        decreases s.len() - i,
    {
        r.push(lower_char_exec(s[i]));
        i = i + 1;
    }
    proof {
        assert(r@ =~= lower(s@));
    }
    r
}

/// `str::to_ascii_uppercase` on a character vector.
pub fn upper_chars(s: &Vec<char>) -> (r: Vec<char>)
    ensures
        r@ == upper(s@),
{
    let mut r: Vec<char> = Vec::new();
    let mut i: usize = 0;
    while i < s.len()
        invariant
            i <= s.len(),
            r@.len() == i,
            forall|j: int| 0 <= j < i ==> r@[j] == upper_char(#[trigger] s@[j]),
        decreases s.len() - i,
    {
        r.push(upper_char_exec(s[i]));
        i = i + 1;
    }
    proof {
        assert(r@ =~= upper(s@));
    }
    r
}

/// Whether `v` holds exactly the characters of `lit`.
pub fn eq_str(v: &Vec<char>, lit: &str) -> (r: bool)
    ensures
        r == (v@ == lit@),
{
    let n = lit.unicode_len();
    if v.len() != n {
        return false;
    }
    let mut i: usize = 0;
    while i < n
        invariant
            i <= n,
            n == lit@.len(),
            v@.len() == n,
            forall|j: int| 0 <= j < i ==> v@[j] == lit@[j],
        decreases n - i,
    {
        if v[i] != lit.get_char(i) {
            return false;
        }
        i = i + 1;
    }
    proof {
        assert(v@ =~= lit@);
    }
    true
}

/// Whether `v` equals `lit` ignoring ASCII case (`str::eq_ignore_ascii_case`).
pub fn eq_ignore_case_str(v: &Vec<char>, lit: &str) -> (r: bool)
    ensures
        r == (lower(v@) == lower(lit@)),
{
    let lv = lower_chars(v);
    let l = chars_of(lit);
    let ll = lower_chars(&l);
    let r = eq_chars(&lv, &ll);
    r
}

/// Whether two character vectors are equal.
pub fn eq_chars(a: &Vec<char>, b: &Vec<char>) -> (r: bool)
    ensures
        r == (a@ == b@),
{
    if a.len() != b.len() {
        return false;
    }
    let mut i: usize = 0;
    while i < a.len()
        invariant
            i <= a.len(),
            a@.len() == b@.len(),
            forall|j: int| 0 <= j < i ==> a@[j] == b@[j],
        decreases a.len() - i,
    {
        if a[i] != b[i] {
            return false;
        }
        i = i + 1;
    }
    proof {
        assert(a@ =~= b@);
    }
    true
}

/// Whether `p` occurs in `s` at position `i`.
pub fn occurs_at_exec(s: &Vec<char>, p: &Vec<char>, i: usize) -> (r: bool)
    ensures
        r == occurs_at(s@, p@, i as int),
{
    if i > s.len() || p.len() > s.len() - i {
        return false;
    }
    let mut k: usize = 0;
    while k < p.len()
        invariant
            k <= p.len(),
            i + p.len() <= s.len(),
            i + p@.len() <= s@.len(),
            forall|j: int| 0 <= j < k ==> s@[i + j] == p@[j],
        decreases p.len() - k,
    {
        if s[i + k] != p[k] {
            proof {
                assert(s@.subrange(i as int, i + p@.len())[k as int] != p@[k as int]);
            }
            return false;
        }
        k = k + 1;
    }
    proof {
        assert(s@.subrange(i as int, i + p@.len()) =~= p@);
    }
    true
}

/// `str::contains` with a string pattern.
pub fn contains_chars(s: &Vec<char>, p: &Vec<char>) -> (r: bool)
    ensures
        r == contains(s@, p@),
{
    if p.len() > s.len() {
        proof {
            assert forall|i: int| !occurs_at(s@, p@, i) by {}
        }
        return false;
    }
    if p.len() == 0 {
        proof {
            assert(s@.subrange(0, 0) =~= p@);
            assert(occurs_at(s@, p@, 0));
        }
        return true;
    }
    let last = s.len() - p.len();
    let mut i: usize = 0;
    while i <= last
        invariant
            i <= last + 1,
            p.len() > 0,
            last + p.len() == s.len(),
            last + p@.len() == s@.len(),
            forall|j: int| 0 <= j < i ==> !occurs_at(s@, p@, j),
        decreases last + 1 - i,
    {
        if occurs_at_exec(s, p, i) {
            return true;
        }
        i = i + 1;
    }
    proof {
        assert forall|j: int| !occurs_at(s@, p@, j) by {
            if 0 <= j && j + p@.len() <= s@.len() {
                assert(j <= last);
            }
        }
    }
    false
}

/// `str::contains` against a literal pattern.
pub fn contains_str(s: &Vec<char>, lit: &str) -> (r: bool)
    ensures
        r == contains(s@, lit@),
{
    let p = chars_of(lit);
    contains_chars(s, &p)
}

/// `str::starts_with` against a literal pattern.
pub fn starts_with_str(s: &Vec<char>, lit: &str) -> (r: bool)
    ensures
        r == starts_with(s@, lit@),
{
    let p = chars_of(lit);
    let r = occurs_at_exec(s, &p, 0);
    proof {
        if r {
            assert(starts_with(s@, p@));
        }
    }
    r
}

/// `str::ends_with` against a literal pattern.
pub fn ends_with_str(s: &Vec<char>, lit: &str) -> (r: bool)
    ensures
        r == ends_with(s@, lit@),
{
    let p = chars_of(lit);
    if p.len() > s.len() {
        return false;
    }
    occurs_at_exec(s, &p, s.len() - p.len())
}

/// The first `n` characters of `s`.
pub fn prefix_chars(s: &Vec<char>, n: usize) -> (r: Vec<char>)
    requires
        n <= s@.len(),
    ensures
        r@ == s@.subrange(0, n as int),
{
    let mut r: Vec<char> = Vec::new();
    let mut i: usize = 0;
    while i < n
        invariant
            i <= n <= s@.len(),
            r@ == s@.subrange(0, i as int),
        decreases n - i,
    {
        r.push(s[i]);
        proof {
            assert(s@.subrange(0, i + 1) =~= s@.subrange(0, i as int).push(s@[i as int]));
        }
        i = i + 1;
    }
    r
}

/// The characters of `s` from position `n` on.
pub fn suffix_chars(s: &Vec<char>, n: usize) -> (r: Vec<char>)
    requires
        n <= s@.len(),
    ensures
        r@ == s@.subrange(n as int, s@.len() as int),
{
    let mut r: Vec<char> = Vec::new();
    let mut i: usize = n;
    while i < s.len()
        invariant
            n <= i <= s@.len(),
            r@ == s@.subrange(n as int, i as int),
        decreases s.len() - i,
    {
        r.push(s[i]);
        proof {
            assert(s@.subrange(n as int, i + 1) =~= s@.subrange(n as int, i as int).push(
                s@[i as int],
            ));
        }
        i = i + 1;
    }
    r
}

/// `str::trim_end_matches` against a non-empty literal pattern.
pub fn trim_end_matches_str(s: &Vec<char>, lit: &str) -> (r: Vec<char>)
    ensures
        r@ == trim_end_matches(s@, lit@),
{
    let p = chars_of(lit);
    let mut cur = prefix_chars(s, s.len());
    proof {
        assert(cur@ =~= s@);
    }
    if p.len() == 0 {
        return cur;
    }
    while p.len() <= cur.len() && occurs_at_exec(&cur, &p, cur.len() - p.len())
        invariant
            p@ == lit@,
            p@.len() > 0,
            trim_end_matches(cur@, p@) == trim_end_matches(s@, p@),
        decreases cur@.len(),
    {
        let keep = cur.len() - p.len();
        cur = prefix_chars(&cur, keep);
    }
    cur
}

/// Every character of `s` is ASCII alphanumeric.
pub fn all_ascii_alnum_exec(s: &Vec<char>) -> (r: bool)
    ensures
        r == all_ascii_alnum(s@),
{
    let mut i: usize = 0;
    while i < s.len()
        invariant
            i <= s.len(),
            forall|j: int| 0 <= j < i ==> is_ascii_alnum(#[trigger] s@[j]),
        decreases s.len() - i,
    {
        let c = s[i];
        let ok = ('A' <= c && c <= 'Z') || ('a' <= c && c <= 'z') || ('0' <= c && c <= '9');
        if !ok {
            return false;
        }
        i = i + 1;
    }
    true
}

/// Appends the characters of `lit` to `v`.
pub fn push_str(v: &mut Vec<char>, lit: &str)
    ensures
        final(v)@ == old(v)@ + lit@,
{
    let p = chars_of(lit);
    append_chars(v, &p);
}

/// Appends the characters of `p` to `v`.
pub fn append_chars(v: &mut Vec<char>, p: &Vec<char>)
    ensures
        final(v)@ == old(v)@ + p@,
{
    let ghost start = v@;
    let mut i: usize = 0;
    while i < p.len()
        invariant
            i <= p@.len(),
            v@ == start + p@.subrange(0, i as int),
        decreases p.len() - i,
    {
        v.push(p[i]);
        proof {
            assert(start + p@.subrange(0, i + 1) =~= (start + p@.subrange(0, i as int)).push(
                p@[i as int],
            ));
        }
        i = i + 1;
    }
    proof {
        assert(p@.subrange(0, p@.len() as int) =~= p@);
    }
}

/// The decimal value of `s[start..]` when it is a non-empty digit string
/// worth at most `max`.
pub open spec fn digits_from(s: Seq<char>, start: int, max: int) -> Option<int> {
    let body = s.subrange(start, s.len() as int);
    if body.len() > 0 && all_digits(body) && digits_val(body) <= max {
        Some(digits_val(body))
    } else {
        None
    }
}

/// Reads the digit string `s[start..]`, failing on any other character, on
/// an empty body, or on a value above `max`.
pub fn parse_digits_from(s: &Vec<char>, start: usize, max: u64) -> (r: Option<u64>)
    requires
        max >= 9,
        start <= s@.len(),
    ensures
        r matches Some(v) ==> digits_from(s@, start as int, max as int) == Some(v as int),
        r is None ==> digits_from(s@, start as int, max as int) is None,
{
    let ghost body = s@.subrange(start as int, s@.len() as int);
    if start >= s.len() {
        return None;
    }
    let mut acc: u64 = 0;
    let mut i: usize = start;
    while i < s.len()
        invariant
            start <= i <= s@.len(),
            max >= 9,
            body == s@.subrange(start as int, s@.len() as int),
            forall|j: int| 0 <= j < i - start ==> is_ascii_digit(#[trigger] body[j]),
            acc as int == digits_val(body.take(i - start)),
            acc <= max,
        decreases s.len() - i,
    {
        let c = s[i];
        let ghost k = (i - start) as int;
        assert(body[k] == c);
        if !('0' <= c && c <= '9') {
            proof {
                assert(!is_ascii_digit(body[k]));
                assert(!all_digits(body));
            }
            return None;
        }
        let d = (c as u32 - '0' as u32) as u64;
        assert(d <= 9);
        assert(d as int == digit_val(c));
        proof {
            lemma_digits_val_step(body, k);
        }
        if acc > (max - d) / 10 {
            proof {
                assert(acc * 10 + d > max) by (nonlinear_arith)
                    requires
                        acc > (max - d) / 10,
                        d <= max,
                ;
                if all_digits(body) {
                    lemma_digits_val_prefix(body, k + 1);
                }
            }
            return None;
        }
        proof {
            assert(acc * 10 + d <= max) by (nonlinear_arith)
                requires
                    acc <= (max - d) / 10,
                    d <= max,
            ;
        }
        acc = acc * 10 + d;
        i = i + 1;
    }
    proof {
        assert(body.take(body.len() as int) =~= body);
        assert(all_digits(body));
    }
    Some(acc)
}

/// `u64::from_str`-style parsing with upper bound `max` (an optional leading
/// `+`, then digits only).
pub fn parse_unsigned_bounded(s: &Vec<char>, max: u64) -> (r: Option<u64>)
    requires
        max >= 9,
    ensures
        r matches Some(v) ==> parse_unsigned(s@, max as int) == Some(v as int),
        r is None ==> parse_unsigned(s@, max as int) is None,
{
    let start: usize = if s.len() > 0 && s[0] == '+' {
        1
    } else {
        0
    };
    proof {
        assert(unsigned_body(s@) =~= s@.subrange(start as int, s@.len() as int));
    }
    parse_digits_from(s, start, max)
}

/// `usize::from_str`.
pub fn parse_usize(s: &Vec<char>) -> (r: Option<usize>)
    ensures
        r matches Some(v) ==> parse_unsigned(s@, usize::MAX as int) == Some(v as int),
        r is None ==> parse_unsigned(s@, usize::MAX as int) is None,
{
    match parse_unsigned_bounded(s, usize::MAX as u64) {
        Some(v) => Some(v as usize),
        None => None,
    }
}

/// `u64::from_str`.
pub fn parse_u64(s: &Vec<char>) -> (r: Option<u64>)
    ensures
        r matches Some(v) ==> parse_unsigned(s@, u64::MAX as int) == Some(v as int),
        r is None ==> parse_unsigned(s@, u64::MAX as int) is None,
{
    parse_unsigned_bounded(s, u64::MAX)
}

/// `u8::from_str`.
pub fn parse_u8(s: &Vec<char>) -> (r: Option<u8>)
    ensures
        r matches Some(v) ==> parse_unsigned(s@, u8::MAX as int) == Some(v as int),
        r is None ==> parse_unsigned(s@, u8::MAX as int) is None,
{
    match parse_unsigned_bounded(s, 255) {
        Some(v) => Some(v as u8),
        None => None,
    }
}

/// `i64::from_str`.
pub fn parse_i64(s: &Vec<char>) -> (r: Option<i64>)
    ensures
        r matches Some(v) ==> parse_i64_spec(s@) == Some(v as int),
        r is None ==> parse_i64_spec(s@) is None,
{
    let negative = s.len() > 0 && s[0] == '-';
    let start: usize = if s.len() > 0 && (s[0] == '+' || s[0] == '-') {
        1
    } else {
        0
    };
    let ghost body = signed_body(s@);
    proof {
        assert(body =~= s@.subrange(start as int, s@.len() as int));
    }
    let max: u64 = if negative {
        9223372036854775808
    } else {
        9223372036854775807
    };
    match parse_digits_from(s, start, max) {
        Some(m) => {
            if negative {
                if m == 9223372036854775808 {
                    Some(i64::MIN)
                } else {
                    Some(-(m as i64))
                }
            } else {
                Some(m as i64)
            }
        },
        None => {
            proof {
                if body.len() > 0 && all_digits(body) {
                    lemma_digits_val_nonneg(body);
                }
            }
            None
        },
    }
}

/// Decimal rendering of `n`, as `Display` writes it.
pub fn u64_decimal(n: u64) -> (r: Vec<char>)
    ensures
        r@ == nat_decimal(n as nat),
    decreases n,
{
    if n < 10 {
        let c = ((n as u8) + 48u8) as char;
        let mut v: Vec<char> = Vec::new();
        v.push(c);
        proof {
            assert(v@ =~= nat_decimal(n as nat));
        }
        v
    } else {
        let mut v = u64_decimal(n / 10);
        let c = (((n % 10) as u8) + 48u8) as char;
        v.push(c);
        v
    }
}

/// Decimal rendering of `v`, as `Display` writes it.
pub fn i64_decimal(v: i64) -> (r: Vec<char>)
    ensures
        r@ == int_decimal(v as int),
{
    if v < 0 {
        let m: u64 = if v == i64::MIN {
            9223372036854775808
        } else {
            (-v) as u64
        };
        let digits = u64_decimal(m);
        let mut r: Vec<char> = Vec::new();
        r.push('-');
        append_chars(&mut r, &digits);
        proof {
            assert(r@ =~= int_decimal(v as int));
        }
        r
    } else {
        u64_decimal(v as u64)
    }
}

/// Every occurrence of a character in `from` replaced by `to`.
pub open spec fn replace_any(s: Seq<char>, from: Seq<char>, to: char) -> Seq<char> {
    Seq::new(s.len(), |i: int| if from.contains(s[i]) { to } else { s[i] })
}

/// `str::replace` with a character-set pattern and a one-character
/// replacement.
pub fn replace_any_exec(s: &Vec<char>, from: &Vec<char>, to: char) -> (r: Vec<char>)
    ensures
        r@ == replace_any(s@, from@, to),
{
    let mut r: Vec<char> = Vec::new();
    let mut i: usize = 0;
    while i < s.len()
        invariant
            i <= s.len(),
            r@.len() == i,
            forall|j: int| 0 <= j < i ==> #[trigger] r@[j] == (if from@.contains(s@[j]) { to } else { s@[j] }),
        decreases s.len() - i,
    {
        let c = s[i];
        let mut hit = false;
        let mut k: usize = 0;
        while k < from.len()
            invariant
                k <= from.len(),
                hit == (exists|m: int| 0 <= m < k && from@[m] == c),
            decreases from.len() - k,
        {
            if from[k] == c {
                hit = true;
            }
            k = k + 1;
        }
        proof {
            if hit {
                let m = choose|m: int| 0 <= m < k && from@[m] == c;
                assert(from@.contains(c));
            } else {
                assert(!from@.contains(c));
            }
        }
        r.push(if hit { to } else { c });
        i = i + 1;
    }
    proof {
        assert(r@ =~= replace_any(s@, from@, to));
    }
    r
}
} // verus!
