//! Text as a sequence of characters: trimming, searching and comparing.
//!
//! Every string in this crate is viewed as a `Seq<char>`. The functions here
//! say what trimming and searching mean on such sequences, and the executable
//! helpers work on a `Vec<char>` copy of the string.

use vstd::prelude::*;

verus! {

/// The classes of characters that the scanners of this crate look for.
#[derive(Debug, Clone, Copy, PartialEq, Eq, Structural)]
pub enum CharClass {
    /// A character with the Unicode property `White_Space`.
    Whitespace,
    /// One of `/`, `?` and `#`: what ends the authority of a URL.
    AuthorityEnd,
    /// The colon that parts a host from its port.
    Colon,
    /// The dot of a dotted domain name.
    Dot,
    /// The line feed that ends a line.
    LineFeed,
}

/// The characters with the Unicode property `White_Space`.
pub open spec fn is_whitespace(c: char) -> bool {
    ||| '\u{9}' <= c <= '\u{d}'
    ||| c == ' '
    ||| c == '\u{85}'
    ||| c == '\u{a0}'
    ||| c == '\u{1680}'
    ||| '\u{2000}' <= c <= '\u{200a}'
    ||| c == '\u{2028}'
    ||| c == '\u{2029}'
    ||| c == '\u{202f}'
    ||| c == '\u{205f}'
    ||| c == '\u{3000}'
}

impl CharClass {
    /// Whether `c` belongs to the class.
    pub open spec fn holds(self, c: char) -> bool {
        match self {
            CharClass::Whitespace => is_whitespace(c),
            CharClass::AuthorityEnd => c == '/' || c == '?' || c == '#',
            CharClass::Colon => c == ':',
            CharClass::Dot => c == '.',
            CharClass::LineFeed => c == '\n',
        }
    }

    /// Tests one character against the class.
    pub fn matches(self, c: char) -> (r: bool)
        ensures
            r == self.holds(c),
    {
        match self {
            CharClass::Whitespace => char_is_whitespace(c),
            CharClass::AuthorityEnd => c == '/' || c == '?' || c == '#',
            CharClass::Colon => c == ':',
            CharClass::Dot => c == '.',
            CharClass::LineFeed => c == '\n',
        }
    }
}

/// Tests whether `c` is a whitespace character.
pub fn char_is_whitespace(c: char) -> (r: bool)
    ensures
        r == is_whitespace(c),
{
    ('\u{9}' <= c && c <= '\u{d}') || c == ' ' || c == '\u{85}' || c == '\u{a0}' || c
        == '\u{1680}' || ('\u{2000}' <= c && c <= '\u{200a}') || c == '\u{2028}' || c
        == '\u{2029}' || c == '\u{202f}' || c == '\u{205f}' || c == '\u{3000}'
}

/// The characters of a string, in order.
pub fn to_chars(s: &str) -> (v: Vec<char>)
    ensures
        v@ == s@,
{
    let mut v: Vec<char> = Vec::new();
    for c in it: s.chars()
        invariant
            v@ == s@.take(it.index() as int),
            it.seq() == s@,
    {
        v.push(c);
    }
    v
}

/// `s` without its leading whitespace.
pub open spec fn trim_start(s: Seq<char>) -> Seq<char>
    decreases s.len(),
{
    if s.len() > 0 && is_whitespace(s.first()) {
        trim_start(s.drop_first())
    } else {
        s
    }
}

/// `s` without its trailing whitespace.
pub open spec fn trim_end(s: Seq<char>) -> Seq<char>
    decreases s.len(),
{
    if s.len() > 0 && is_whitespace(s.last()) {
        trim_end(s.drop_last())
    } else {
        s
    }
}

/// `s` without its leading and trailing whitespace.
pub open spec fn trim(s: Seq<char>) -> Seq<char> {
    trim_end(trim_start(s))
}

/// A text that neither starts nor ends with whitespace is its own trimmed form.
pub proof fn lemma_trim_is_identity(s: Seq<char>)
    requires
        s.len() > 0 ==> !is_whitespace(s.first()) && !is_whitespace(s.last()),
    ensures
        trim(s) == s,
{
}

/// What is left of a trimmed text starts and ends with a character that is no
/// whitespace.
pub proof fn lemma_trim_ends(s: Seq<char>)
    ensures
        trim(s).len() <= s.len(),
        trim(s).len() > 0 ==> !is_whitespace(trim(s).first()) && !is_whitespace(trim(s).last()),
{
    lemma_trim_start_shape(s);
    lemma_trim_end_shape(trim_start(s));
}

/// Trimming a trimmed text changes nothing.
pub proof fn lemma_trim_is_idempotent(s: Seq<char>)
    ensures
        trim(trim(s)) == trim(s),
{
    lemma_trim_ends(s);
    lemma_trim_is_identity(trim(s));
}

proof fn lemma_trim_start_shape(s: Seq<char>)
    ensures
        trim_start(s).len() <= s.len(),
        trim_start(s).len() > 0 ==> !is_whitespace(trim_start(s).first()),
    decreases s.len(),
{
    if s.len() > 0 && is_whitespace(s.first()) {
        lemma_trim_start_shape(s.drop_first());
    }
}

proof fn lemma_trim_end_shape(s: Seq<char>)
    ensures
        trim_end(s).len() <= s.len(),
        trim_end(s).len() > 0 ==> !is_whitespace(trim_end(s).last()) && trim_end(s).first()
            == s.first(),
    decreases s.len(),
{
    if s.len() > 0 && is_whitespace(s.last()) {
        lemma_trim_end_shape(s.drop_last());
    }
}

/// The bounds of the trimmed form of `v` within `v`.
pub fn trim_bounds(v: &Vec<char>) -> (r: (usize, usize))
    ensures
        r.0 <= r.1 <= v.len(),
        v@.subrange(r.0 as int, r.1 as int) == trim(v@),
{
    let n: usize = v.len();
    let mut start: usize = 0;
    assert(v@.subrange(0, n as int) =~= v@);
    while start < n && char_is_whitespace(v[start])
        invariant
            start <= n == v.len(),
            trim_start(v@) == trim_start(v@.subrange(start as int, n as int)),
        decreases n - start,
    {
        assert(v@.subrange(start as int, n as int).drop_first() =~= v@.subrange(
            start as int + 1,
            n as int,
        ));
        start = start + 1;
    }
    let mut end: usize = n;
    while end > start && char_is_whitespace(v[end - 1])
        invariant
            start <= end <= n == v.len(),
            trim_start(v@) == v@.subrange(start as int, n as int),
            trim(v@) == trim_end(v@.subrange(start as int, end as int)),
        decreases end - start,
    {
        assert(v@.subrange(start as int, end as int).drop_last() =~= v@.subrange(
            start as int,
            end as int - 1,
        ));
        end = end - 1;
    }
    (start, end)
}

/// The trimmed form of a string, as a part of it.
pub fn trim_str(s: &str) -> (r: &str)
    ensures
        r@ == trim(s@),
{
    let chars = to_chars(s);
    let (start, end) = trim_bounds(&chars);
    s.substring_char(start, end)
}

/// Copies a part of a text.
pub fn slice_chars(v: &Vec<char>, start: usize, end: usize) -> (r: Vec<char>)
    requires
        start <= end <= v.len(),
    ensures
        r@ == v@.subrange(start as int, end as int),
{
    let mut part: Vec<char> = Vec::new();
    let mut i: usize = start;
    while i < end
        invariant
            start <= i <= end <= v.len(),
            part@ == v@.subrange(start as int, i as int),
        decreases end - i,
    {
        part.push(v[i]);
        assert(part@ =~= v@.subrange(start as int, i + 1));
        i = i + 1;
    }
    part
}

/// The index of the first character of `s` that belongs to `class`, or the
/// length of `s` where there is none.
pub open spec fn position(s: Seq<char>, class: CharClass) -> int
    decreases s.len(),
{
    if s.len() == 0 || class.holds(s.first()) {
        0
    } else {
        1 + position(s.drop_first(), class)
    }
}

/// Whether some character of `s` belongs to `class`.
pub open spec fn has_char(s: Seq<char>, class: CharClass) -> bool {
    position(s, class) < s.len()
}

/// `position` gives an index within bounds; no character before it belongs to
/// the class, and the one at it does.
pub proof fn lemma_position_first(s: Seq<char>, class: CharClass)
    ensures
        0 <= position(s, class) <= s.len(),
        forall|i: int| 0 <= i < position(s, class) ==> !class.holds(#[trigger] s[i]),
        position(s, class) < s.len() ==> class.holds(s[position(s, class)]),
    decreases s.len(),
{
    if s.len() == 0 || class.holds(s.first()) {
    } else {
        let t = s.drop_first();
        lemma_position_first(t, class);
        assert forall|i: int| 0 <= i < position(s, class) implies !class.holds(#[trigger] s[i]) by {
            if i > 0 {
                assert(s[i] == t[i - 1]);
            }
        }
        if position(s, class) < s.len() {
            assert(s[position(s, class)] == t[position(t, class)]);
        }
    }
}

/// The first index at which a character of the class stands is `position`.
pub proof fn lemma_position_is(s: Seq<char>, class: CharClass, k: int)
    requires
        0 <= k <= s.len(),
        forall|i: int| 0 <= i < k ==> !class.holds(#[trigger] s[i]),
        k < s.len() ==> class.holds(s[k]),
    ensures
        position(s, class) == k,
    decreases s.len(),
{
    if k > 0 {
        let t = s.drop_first();
        assert forall|i: int| 0 <= i < k - 1 implies !class.holds(#[trigger] t[i]) by {
            assert(t[i] == s[i + 1]);
        }
        if k - 1 < t.len() {
            assert(t[k - 1] == s[k]);
        }
        lemma_position_is(t, class, k - 1);
    }
}

/// A text holds a character of the class exactly if one of its characters
/// belongs to it.
pub proof fn lemma_has_char(s: Seq<char>, class: CharClass)
    ensures
        has_char(s, class) <==> exists|i: int| 0 <= i < s.len() && class.holds(#[trigger] s[i]),
{
    lemma_position_first(s, class);
    if has_char(s, class) {
        assert(class.holds(s[position(s, class)]));
    }
}

/// Finds the first character of `v[start..end]` that belongs to `class`.
/// The result is an index into `v`, and `end` where there is none.
pub fn first_position(v: &Vec<char>, start: usize, end: usize, class: CharClass) -> (r: usize)
    requires
        start <= end <= v.len(),
    ensures
        start <= r <= end,
        r - start == position(v@.subrange(start as int, end as int), class),
{
    let mut i: usize = start;
    while i < end && !class.matches(v[i])
        invariant
            start <= i <= end <= v.len(),
            forall|j: int| start <= j < i ==> !class.holds(#[trigger] v@[j]),
        decreases end - i,
    {
        i = i + 1;
    }
    proof {
        let s = v@.subrange(start as int, end as int);
        assert forall|j: int| 0 <= j < i - start implies !class.holds(#[trigger] s[j]) by {
            assert(s[j] == v@[start + j]);
        }
        lemma_position_is(s, class, i - start);
    }
    i
}

/// Whether `pattern` stands in `s` at index `i`.
pub open spec fn occurs_at(s: Seq<char>, pattern: Seq<char>, i: int) -> bool {
    0 <= i && i + pattern.len() <= s.len() && s.subrange(i, i + pattern.len()) == pattern
}

/// Whether `pattern` stands somewhere in `s`.
pub open spec fn contains(s: Seq<char>, pattern: Seq<char>) -> bool {
    exists|i: int| occurs_at(s, pattern, i)
}

/// The first index at or after `from` at which `pattern` stands in `s`.
pub open spec fn find_from(s: Seq<char>, pattern: Seq<char>, from: int) -> Option<int>
    decreases s.len() + 1 - from,
{
    if from < 0 || from + pattern.len() > s.len() {
        None
    } else if occurs_at(s, pattern, from) {
        Some(from)
    } else {
        find_from(s, pattern, from + 1)
    }
}

/// The first index at which `pattern` stands in `s`.
pub open spec fn find(s: Seq<char>, pattern: Seq<char>) -> Option<int> {
    find_from(s, pattern, 0)
}

/// Where `pattern` stands at `k` and nowhere in `from..k`, the search from
/// `from` finds `k`.
pub proof fn lemma_find_from_is(s: Seq<char>, pattern: Seq<char>, from: int, k: int)
    requires
        0 <= from <= k,
        occurs_at(s, pattern, k),
        forall|j: int| from <= j < k ==> !occurs_at(s, pattern, j),
    ensures
        find_from(s, pattern, from) == Some(k),
    decreases k - from,
{
    if from < k {
        lemma_find_from_is(s, pattern, from + 1, k);
    }
}

/// Where `pattern` stands nowhere at or after `from`, the search from `from`
/// finds nothing.
pub proof fn lemma_find_from_none(s: Seq<char>, pattern: Seq<char>, from: int)
    requires
        0 <= from,
        forall|j: int| from <= j ==> !occurs_at(s, pattern, j),
    ensures
        find_from(s, pattern, from) is None,
    decreases s.len() + 1 - from,
{
    if from + pattern.len() <= s.len() {
        lemma_find_from_none(s, pattern, from + 1);
    }
}

/// What the search finds is the first place at which the pattern stands.
pub proof fn lemma_find_first(s: Seq<char>, pattern: Seq<char>)
    ensures
        match find(s, pattern) {
            Some(k) => occurs_at(s, pattern, k) && forall|j: int|
                0 <= j < k ==> !occurs_at(s, pattern, j),
            None => !contains(s, pattern),
        },
{
    lemma_find_from_first(s, pattern, 0);
}

proof fn lemma_find_from_first(s: Seq<char>, pattern: Seq<char>, from: int)
    requires
        0 <= from,
    ensures
        match find_from(s, pattern, from) {
            Some(k) => from <= k && occurs_at(s, pattern, k) && forall|j: int|
                from <= j < k ==> !occurs_at(s, pattern, j),
            None => forall|j: int| from <= j ==> !occurs_at(s, pattern, j),
        },
    decreases s.len() + 1 - from,
{
    if from + pattern.len() > s.len() {
    } else if occurs_at(s, pattern, from) {
    } else {
        lemma_find_from_first(s, pattern, from + 1);
    }
}

/// Tests whether `pattern` stands in `v` at index `i`.
pub fn occurs_at_index(v: &Vec<char>, pattern: &Vec<char>, i: usize) -> (r: bool)
    ensures
        r == occurs_at(v@, pattern@, i as int),
{
    let m: usize = pattern.len();
    if m > v.len() || i > v.len() - m {
        return false;
    }
    let mut k: usize = 0;
    while k < m
        invariant
            k <= m == pattern.len(),
            i + m <= v.len(),
            forall|j: int| 0 <= j < k ==> v@[i + j] == pattern@[j],
        decreases m - k,
    {
        if v[i + k] != pattern[k] {
            assert(v@.subrange(i as int, i + m)[k as int] != pattern@[k as int]);
            return false;
        }
        k = k + 1;
    }
    assert(v@.subrange(i as int, i + m) =~= pattern@);
    true
}

/// Finds the first index at which `pattern` stands in `v`.
pub fn find_first(v: &Vec<char>, pattern: &Vec<char>) -> (r: Option<usize>)
    ensures
        match r {
            Some(k) => find(v@, pattern@) == Some(k as int),
            None => find(v@, pattern@) is None,
        },
{
    let n: usize = v.len();
    let m: usize = pattern.len();
    if m == 0 {
        proof {
            assert(v@.subrange(0, 0) =~= pattern@);
            lemma_find_from_is(v@, pattern@, 0, 0);
        }
        return Some(0);
    }
    let mut i: usize = 0;
    while i < n
        invariant
            i <= n == v.len(),
            0 < m == pattern.len(),
            forall|j: int| 0 <= j < i ==> !occurs_at(v@, pattern@, j),
        decreases n - i,
    {
        if occurs_at_index(v, pattern, i) {
            proof {
                lemma_find_from_is(v@, pattern@, 0, i as int);
            }
            return Some(i);
        }
        i = i + 1;
    }
    proof {
        lemma_find_from_none(v@, pattern@, 0);
    }
    None
}

/// Tests whether `pattern` stands somewhere in `v`.
pub fn contains_pattern(v: &Vec<char>, pattern: &Vec<char>) -> (r: bool)
    ensures
        r == contains(v@, pattern@),
{
    proof {
        lemma_find_first(v@, pattern@);
    }
    find_first(v, pattern).is_some()
}

/// Whether `s` ends with `suffix`.
pub open spec fn ends_with(s: Seq<char>, suffix: Seq<char>) -> bool {
    suffix.len() <= s.len() && s.subrange(s.len() - suffix.len(), s.len() as int) == suffix
}

/// Tests whether two texts hold the same characters.
pub fn chars_eq(a: &Vec<char>, b: &Vec<char>) -> (r: bool)
    ensures
        r == (a@ == b@),
{
    if a.len() != b.len() {
        return false;
    }
    assert(a@.subrange(0, a.len() as int) =~= a@);
    occurs_at_index(a, b, 0)
}

/// Tests whether two strings hold the same characters.
pub fn str_eq(a: &str, b: &str) -> (r: bool)
    ensures
        r == (a@ == b@),
{
    let left = to_chars(a);
    let right = to_chars(b);
    chars_eq(&left, &right)
}

/// The lower-case form of an ASCII letter; any other character is unchanged.
pub open spec fn ascii_lowercase(c: char) -> char {
    if 'A' <= c <= 'Z' {
        ((c as u8) + 32) as char
    } else {
        c
    }
}

/// Whether two texts are equal once their ASCII letters are put in lower case.
pub open spec fn eq_ignore_ascii_case(a: Seq<char>, b: Seq<char>) -> bool {
    a.len() == b.len() && forall|i: int|
        0 <= i < a.len() ==> ascii_lowercase(#[trigger] a[i]) == ascii_lowercase(b[i])
}

/// Puts an ASCII letter in lower case.
pub fn char_to_ascii_lowercase(c: char) -> (r: char)
    ensures
        r == ascii_lowercase(c),
{
    if 'A' <= c && c <= 'Z' {
        let code: u8 = c as u8;
        (code + 32) as char
    } else {
        c
    }
}

/// Compares `v[start..end]` with `other` without regard to the case of their
/// ASCII letters.
pub fn range_eq_ignore_ascii_case(v: &Vec<char>, start: usize, end: usize, other: &Vec<char>) -> (r:
    bool)
    requires
        start <= end <= v.len(),
    ensures
        r == eq_ignore_ascii_case(v@.subrange(start as int, end as int), other@),
{
    let n: usize = end - start;
    if n != other.len() {
        return false;
    }
    let ghost s = v@.subrange(start as int, end as int);
    let mut i: usize = 0;
    while i < n
        invariant
            i <= n == other.len(),
            n == end - start,
            end <= v.len(),
            s == v@.subrange(start as int, end as int),
            forall|j: int| 0 <= j < i ==> ascii_lowercase(#[trigger] s[j]) == ascii_lowercase(other@[j]),
        decreases n - i,
    {
        if char_to_ascii_lowercase(v[start + i]) != char_to_ascii_lowercase(other[i]) {
            assert(s[i as int] == v@[start + i]);
            return false;
        }
        assert(s[i as int] == v@[start + i]);
        i = i + 1;
    }
    true
}

/// Tests whether `v` holds the characters of `literal`.
pub fn is_text(v: &Vec<char>, literal: &str) -> (r: bool)
    ensures
        r == (v@ == literal@),
{
    let other = to_chars(literal);
    chars_eq(v, &other)
}

/// Tests whether `literal` stands somewhere in `v`.
pub fn contains_text(v: &Vec<char>, literal: &str) -> (r: bool)
    ensures
        r == contains(v@, literal@),
{
    let pattern = to_chars(literal);
    contains_pattern(v, &pattern)
}

/// The digit that stands for a number below ten.
pub open spec fn digit(d: nat) -> char {
    (('0' as u8) + d) as char
}

/// A number in decimal digits, without leading zeros.
pub open spec fn decimal(n: nat) -> Seq<char>
    decreases n,
{
    if n < 10 {
        seq![digit(n)]
    } else {
        decimal(n / 10).push(digit(n % 10))
    }
}

fn digit_str(d: u32) -> (r: &'static str)
    requires
        d < 10,
    ensures
        r@ == seq![digit(d as nat)],
{
    proof {
        reveal_strlit("0");
        reveal_strlit("1");
        reveal_strlit("2");
        reveal_strlit("3");
        reveal_strlit("4");
        reveal_strlit("5");
        reveal_strlit("6");
        reveal_strlit("7");
        reveal_strlit("8");
        reveal_strlit("9");
    }
    let r = match d {
        0 => "0",
        1 => "1",
        2 => "2",
        3 => "3",
        4 => "4",
        5 => "5",
        6 => "6",
        7 => "7",
        8 => "8",
        _ => "9",
    };
    assert(r@ =~= seq![digit(d as nat)]);
    r
}

/// Writes a number in decimal digits.
pub fn u32_to_decimal(n: u32) -> (r: String)
    ensures
        r@ == decimal(n as nat),
    decreases n,
{
    if n < 10 {
        String::from_str(digit_str(n))
    } else {
        let head = u32_to_decimal(n / 10);
        let r = head.concat(digit_str(n % 10));
        assert(r@ =~= decimal(n as nat / 10).push(digit(n as nat % 10)));
        r
    }
}

/// A number in decimal digits, with a minus sign before it where it is
/// negative.
pub open spec fn signed_decimal(n: int) -> Seq<char> {
    if n < 0 {
        seq!['-'] + decimal((-n) as nat)
    } else {
        decimal(n as nat)
    }
}

/// Writes a number in decimal digits, with a minus sign before it where it is
/// negative.
pub fn i32_to_decimal(n: i32) -> (r: String)
    ensures
        r@ == signed_decimal(n as int),
{
    if n < 0 {
        let magnitude: u32 = if n == i32::MIN {
            2147483648u32
        } else {
            (-n) as u32
        };
        proof {
            reveal_strlit("-");
            assert("-"@ =~= seq!['-']);
        }
        String::from_str("-").concat(u32_to_decimal(magnitude).as_str())
    } else {
        u32_to_decimal(n as u32)
    }
}

/// The characters of a string slice that may be absent.
pub open spec fn opt_str_text(o: Option<&str>) -> Option<Seq<char>> {
    match o {
        Some(s) => Some(s@),
        None => None,
    }
}

/// Lends out a string that may be absent.
pub fn opt_as_str(o: &Option<String>) -> (r: Option<&str>)
    ensures
        opt_str_text(r) == opt_text(*o),
{
    match o {
        Some(s) => Some(s.as_str()),
        None => None,
    }
}

/// The characters of a string that may be absent.
pub open spec fn opt_text(o: Option<String>) -> Option<Seq<char>> {
    match o {
        Some(s) => Some(s@),
        None => None,
    }
}

/// Copies a string that may be absent.
pub fn clone_opt_string(o: &Option<String>) -> (r: Option<String>)
    ensures
        r == *o,
{
    match o {
        Some(s) => Some(s.clone()),
        None => None,
    }
}

/// Tests whether two strings that may be absent hold the same characters.
pub fn opt_string_eq(a: &Option<String>, b: &Option<String>) -> (r: bool)
    ensures
        r == (opt_text(*a) == opt_text(*b)),
{
    match (a, b) {
        (Some(x), Some(y)) => *x == *y,
        (None, None) => true,
        _ => false,
    }
}

/// The lower-case form of a text, as Unicode defines it.
pub uninterp spec fn unicode_lowercase(s: Seq<char>) -> Seq<char>;

/// `str::to_lowercase` of the standard library: the result is the lower-case
/// form of the whole string, which depends on nothing but the string.
#[verifier::external_body]
pub(crate) fn to_lowercase(s: &str) -> (r: String)
    ensures
        r@ == unicode_lowercase(s@),
{
    s.to_lowercase()
}

} // verus!
