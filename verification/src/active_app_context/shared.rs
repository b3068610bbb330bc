//! Cleaning what the system hands out: free text, the origin of a URL, the
//! title of a tab, and how much a reading is worth.

use crate::active_app_context::FocusConfidenceLevel;
use crate::text::contains;
use crate::text::contains_pattern;
use crate::text::ends_with;
use crate::text::eq_ignore_ascii_case;
use crate::text::find;
use crate::text::find_first;
use crate::text::first_position;
use crate::text::has_char;
use crate::text::is_whitespace;
use crate::text::lemma_find_first;
use crate::text::lemma_find_from_is;
use crate::text::lemma_position_first;
use crate::text::lemma_position_is;
use crate::text::lemma_trim_is_idempotent;
use crate::text::lemma_trim_is_identity;
use crate::text::occurs_at;
use crate::text::occurs_at_index;
use crate::text::opt_text;
use crate::text::position;
use crate::text::range_eq_ignore_ascii_case;
use crate::text::to_chars;
use crate::text::trim;
use crate::text::trim_bounds;
use crate::text::CharClass;
use vstd::prelude::*;

verus! {

/// The trimmed form of a text, or nothing where only whitespace was there.
pub open spec fn normalized_text(raw: Seq<char>) -> Option<Seq<char>> {
    if trim(raw).len() == 0 {
        None
    } else {
        Some(trim(raw))
    }
}

/// Trims a text; a text of whitespace alone counts as absent.
pub fn normalize_non_empty_focus_text(raw_focus_text: &str) -> (r: Option<String>)
    ensures
        opt_text(r) == normalized_text(raw_focus_text@),
{
    let chars = to_chars(raw_focus_text);
    let (start, end) = trim_bounds(&chars);
    if start == end {
        None
    } else {
        Some(raw_focus_text.substring_char(start, end).to_owned())
    }
}

/// What parts the scheme of a URL from the rest: `://`.
pub open spec fn scheme_separator() -> Seq<char> {
    seq![':', '/', '/']
}

/// The scheme that a URL without one is taken to have, with its separator.
pub open spec fn assumed_scheme_prefix() -> Seq<char> {
    seq!['h', 't', 't', 'p', 's', ':', '/', '/']
}

/// The authority at the head of `s`: all that stands before the first `/`,
/// `?` or `#`.
pub open spec fn authority_of(s: Seq<char>) -> Seq<char> {
    s.subrange(0, position(s, CharClass::AuthorityEnd))
}

/// The host of an authority: all that stands before the first colon.
pub open spec fn host_of(authority: Seq<char>) -> Seq<char> {
    authority.subrange(0, position(authority, CharClass::Colon))
}

/// The origin of a URL that names its scheme: scheme, separator and
/// authority. There is none where the URL holds no separator, or where the
/// scheme or the authority is empty.
pub open spec fn absolute_url_origin(url: Seq<char>) -> Option<Seq<char>> {
    match find(url, scheme_separator()) {
        None => None,
        Some(at) => {
            let scheme = url.subrange(0, at);
            let remainder = url.subrange(at + 3, url.len() as int);
            let authority = authority_of(remainder);
            if scheme.len() == 0 || remainder.len() == 0 || authority.len() == 0 {
                None
            } else {
                Some(scheme + scheme_separator() + authority)
            }
        },
    }
}

/// A number from 0 to 255 in decimal digits, without a leading zero.
pub open spec fn is_decimal_octet(s: Seq<char>) -> bool {
    &&& 1 <= s.len() <= 3
    &&& forall|i: int| 0 <= i < s.len() ==> '0' <= #[trigger] s[i] <= '9'
    &&& s.len() > 1 ==> s[0] != '0'
    &&& s.len() == 3 ==> (s[0] as int - '0' as int) * 100 + (s[1] as int - '0' as int) * 10 + (
    s[2] as int - '0' as int) <= 255
}

/// An IPv4 address in dotted-quad form.
pub open spec fn is_ipv4_literal(s: Seq<char>) -> bool {
    exists|a: int, b: int, c: int|
        {
            &&& 0 <= a < b < c < s.len()
            &&& s[a] == '.' && s[b] == '.' && s[c] == '.'
            &&& is_decimal_octet(#[trigger] s.subrange(0, a))
            &&& is_decimal_octet(#[trigger] s.subrange(a + 1, b))
            &&& is_decimal_octet(#[trigger] s.subrange(b + 1, c))
            &&& is_decimal_octet(s.subrange(c + 1, s.len() as int))
        }
}

/// The name of the local host, in any case of its letters.
pub open spec fn is_localhost(host: Seq<char>) -> bool {
    eq_ignore_ascii_case(host, seq!['l', 'o', 'c', 'a', 'l', 'h', 'o', 's', 't'])
}

/// Whether a host without a scheme before it is taken for one: a dotted name,
/// the local host, or an IP address. A host is cut at the first colon, so of
/// the IP addresses only the dotted-quad form can stand here.
pub open spec fn is_plausible_host(host: Seq<char>) -> bool {
    has_char(host, CharClass::Dot) || is_localhost(host) || is_ipv4_literal(host)
}

/// An address in dotted-quad form holds a dot, so the rule for dotted names
/// already takes it.
pub proof fn lemma_ipv4_literal_is_dotted(host: Seq<char>)
    requires
        is_ipv4_literal(host),
    ensures
        has_char(host, CharClass::Dot),
{
    let (a, b, c) = choose|a: int, b: int, c: int|
        {
            &&& 0 <= a < b < c < host.len()
            &&& host[a] == '.' && host[b] == '.' && host[c] == '.'
            &&& is_decimal_octet(#[trigger] host.subrange(0, a))
            &&& is_decimal_octet(#[trigger] host.subrange(a + 1, b))
            &&& is_decimal_octet(#[trigger] host.subrange(b + 1, c))
            &&& is_decimal_octet(host.subrange(c + 1, host.len() as int))
        };
    lemma_position_first(host, CharClass::Dot);
    if position(host, CharClass::Dot) >= host.len() {
        assert(!CharClass::Dot.holds(host[a]));
    }
}

/// The origin that a text without a scheme stands for: `https://` and the
/// authority. There is none where the text holds whitespace, which marks a
/// search query, or where its host is not plausible.
pub open spec fn scheme_less_origin(url: Seq<char>) -> Option<Seq<char>> {
    if has_char(url, CharClass::Whitespace) {
        None
    } else {
        let authority = authority_of(url);
        if is_plausible_host(host_of(authority)) {
            Some(assumed_scheme_prefix() + authority)
        } else {
            None
        }
    }
}

/// The origin of what a browser shows as the address of its document. The
/// text is trimmed first; then it is read as a URL with a scheme where it
/// holds `://`, and as one without a scheme where it does not.
pub open spec fn browser_document_origin(raw: Seq<char>) -> Option<Seq<char>> {
    match normalized_text(raw) {
        None => None,
        Some(url) => if contains(url, scheme_separator()) {
            absolute_url_origin(url)
        } else {
            scheme_less_origin(url)
        },
    }
}

/// The length of the origin of `url`, which stands at its head, where `url`
/// holds the scheme separator at `at` and not before.
fn absolute_origin_length(url: &Vec<char>, at: usize) -> (r: Option<usize>)
    requires
        find(url@, scheme_separator()) == Some(at as int),
    ensures
        match r {
            Some(n) => n <= url.len() && absolute_url_origin(url@) == Some(
                url@.subrange(0, n as int),
            ),
            None => absolute_url_origin(url@) is None,
        },
{
    proof {
        lemma_find_first(url@, scheme_separator());
        assert(occurs_at(url@, scheme_separator(), at as int));
    }
    let n: usize = url.len();
    let remainder_start: usize = at + 3;
    if at == 0 || remainder_start == n {
        return None;
    }
    let authority_end: usize = first_position(url, remainder_start, n, CharClass::AuthorityEnd);
    if authority_end == remainder_start {
        return None;
    }
    proof {
        let scheme = url@.subrange(0, at as int);
        let remainder = url@.subrange(at + 3, url.len() as int);
        let authority = authority_of(remainder);
        assert(url@.subrange(at as int, at + 3) == scheme_separator());
        assert(url@.subrange(0, authority_end as int) =~= scheme + scheme_separator() + authority);
    }
    Some(authority_end)
}

/// The origin of a URL that names its scheme.
pub fn normalize_origin_from_absolute_url(trimmed_document_url: &str) -> (r: Option<String>)
    ensures
        opt_text(r) == absolute_url_origin(trimmed_document_url@),
{
    let chars = to_chars(trimmed_document_url);
    let separator = to_chars("://");
    proof {
        reveal_strlit("://");
        assert(separator@ =~= scheme_separator());
    }
    match find_first(&chars, &separator) {
        None => None,
        Some(at) => match absolute_origin_length(&chars, at) {
            None => None,
            Some(n) => Some(trimmed_document_url.substring_char(0, n).to_owned()),
        },
    }
}

/// The length of the authority at the head of `url`, where `url` without a
/// scheme stands for an origin.
fn scheme_less_authority_length(url: &Vec<char>) -> (r: Option<usize>)
    ensures
        match r {
            Some(n) => n <= url.len() && scheme_less_origin(url@) == Some(
                assumed_scheme_prefix() + url@.subrange(0, n as int),
            ),
            None => scheme_less_origin(url@) is None,
        },
{
    let n: usize = url.len();
    assert(url@.subrange(0, n as int) =~= url@);
    if first_position(url, 0, n, CharClass::Whitespace) < n {
        return None;
    }
    let authority_end: usize = first_position(url, 0, n, CharClass::AuthorityEnd);
    let host_end: usize = first_position(url, 0, authority_end, CharClass::Colon);
    let ghost authority = authority_of(url@);
    let ghost host = host_of(authority);
    assert(authority == url@.subrange(0, authority_end as int));
    assert(host =~= url@.subrange(0, host_end as int));
    let dotted = first_position(url, 0, host_end, CharClass::Dot) < host_end;
    let localhost = to_chars("localhost");
    proof {
        reveal_strlit("localhost");
        assert(localhost@ =~= seq!['l', 'o', 'c', 'a', 'l', 'h', 'o', 's', 't']);
        if is_ipv4_literal(host) {
            lemma_ipv4_literal_is_dotted(host);
        }
    }
    if dotted || range_eq_ignore_ascii_case(url, 0, host_end, &localhost) {
        Some(authority_end)
    } else {
        None
    }
}

/// The origin that a text without a scheme stands for.
pub fn normalize_origin_from_scheme_less_url(trimmed_document_url: &str) -> (r: Option<String>)
    ensures
        opt_text(r) == scheme_less_origin(trimmed_document_url@),
{
    let chars = to_chars(trimmed_document_url);
    match scheme_less_authority_length(&chars) {
        None => None,
        Some(n) => {
            proof {
                reveal_strlit("https://");
                assert("https://"@ =~= assumed_scheme_prefix());
            }
            Some(String::from_str("https://").concat(trimmed_document_url.substring_char(0, n)))
        },
    }
}

/// The origin of what a browser shows as the address of its document.
pub fn normalize_browser_document_origin(raw_document_url: &str) -> (r: Option<String>)
    ensures
        opt_text(r) == browser_document_origin(raw_document_url@),
        r matches Some(origin) ==> is_origin(origin@),
{
    proof {
        lemma_origin_is_an_origin(raw_document_url@);
    }
    match normalize_non_empty_focus_text(raw_document_url) {
        None => None,
        Some(trimmed_document_url) => {
            let chars = to_chars(trimmed_document_url.as_str());
            let separator = to_chars("://");
            proof {
                reveal_strlit("://");
                assert(separator@ =~= scheme_separator());
            }
            if contains_pattern(&chars, &separator) {
                normalize_origin_from_absolute_url(trimmed_document_url.as_str())
            } else {
                normalize_origin_from_scheme_less_url(trimmed_document_url.as_str())
            }
        },
    }
}

/// Whether a text is an origin: a scheme that is not empty, `://`, and behind
/// it an authority that is not empty and holds none of `/`, `?` and `#`.
pub open spec fn is_origin(text: Seq<char>) -> bool {
    exists|at: int|
        0 < at && #[trigger] occurs_at(text, scheme_separator(), at) && at + 3 < text.len()
            && !has_char(text.subrange(at + 3, text.len() as int), CharClass::AuthorityEnd)
}

/// The authority at the head of a text holds none of `/`, `?` and `#`.
proof fn lemma_authority_is_unbroken(s: Seq<char>)
    ensures
        !has_char(authority_of(s), CharClass::AuthorityEnd),
{
    let authority = authority_of(s);
    lemma_position_first(s, CharClass::AuthorityEnd);
    assert forall|i: int| 0 <= i < authority.len() implies !CharClass::AuthorityEnd.holds(
        #[trigger] authority[i],
    ) by {
        assert(authority[i] == s[i]);
    }
    lemma_position_is(authority, CharClass::AuthorityEnd, authority.len() as int);
}

/// What the normalisation gives for the address of a document is an origin:
/// never a path, a query or a fragment, and never a scheme or an authority
/// alone.
pub proof fn lemma_origin_is_an_origin(raw: Seq<char>)
    ensures
        browser_document_origin(raw) matches Some(origin) ==> is_origin(origin),
{
    if browser_document_origin(raw) is Some {
        let origin = browser_document_origin(raw)->0;
        let url = trim(raw);
        let separator = scheme_separator();
        if contains(url, separator) {
            lemma_find_first(url, separator);
            let at = find(url, separator)->0;
            let scheme = url.subrange(0, at);
            let remainder = url.subrange(at + 3, url.len() as int);
            let authority = authority_of(remainder);
            lemma_authority_is_unbroken(remainder);
            assert(origin == scheme + separator + authority);
            assert(origin.subrange(at, at + 3) =~= separator);
            assert(origin.subrange(at + 3, origin.len() as int) =~= authority);
            assert(occurs_at(origin, separator, at));
        } else {
            let authority = authority_of(url);
            let prefix = assumed_scheme_prefix();
            lemma_authority_is_unbroken(url);
            lemma_position_first(host_of(authority), CharClass::Dot);
            lemma_position_first(authority, CharClass::Colon);
            if authority.len() == 0 {
                assert(host_of(authority).len() == 0);
                assert(!is_localhost(host_of(authority)));
                if is_ipv4_literal(host_of(authority)) {
                    lemma_ipv4_literal_is_dotted(host_of(authority));
                }
            }
            assert(origin == prefix + authority);
            assert(origin.subrange(5, 8) =~= separator);
            assert(origin.subrange(8, origin.len() as int) =~= authority);
            assert(occurs_at(origin, separator, 5));
        }
    }
}

/// A URL made of a scheme, `://`, an authority and a tail that is empty or
/// starts with `/`, `?` or `#` has the scheme, `://` and the authority as its
/// origin: path, query and fragment are dropped.
pub proof fn lemma_origin_of_absolute_url(
    scheme: Seq<char>,
    authority: Seq<char>,
    tail: Seq<char>,
)
    requires
        scheme.len() > 0,
        !has_char(scheme, CharClass::Colon),
        authority.len() > 0,
        !has_char(authority, CharClass::AuthorityEnd),
        tail.len() > 0 ==> CharClass::AuthorityEnd.holds(tail.first()),
        !is_whitespace(scheme.first()),
        !is_whitespace((scheme + scheme_separator() + authority + tail).last()),
    ensures
        browser_document_origin(scheme + scheme_separator() + authority + tail) == Some(
            scheme + scheme_separator() + authority,
        ),
{
    let separator = scheme_separator();
    let url = scheme + separator + authority + tail;
    let at = scheme.len() as int;
    assert(url.first() == scheme.first());
    lemma_trim_is_identity(url);
    assert(normalized_text(url) == Some(url));
    assert(url.subrange(at, at + 3) =~= separator);
    assert(occurs_at(url, separator, at));
    assert(contains(url, separator));
    lemma_position_first(scheme, CharClass::Colon);
    assert forall|j: int| 0 <= j < at implies !occurs_at(url, separator, j) by {
        if occurs_at(url, separator, j) {
            assert(url.subrange(j, j + 3)[0] == separator[0]);
            assert(url[j] == scheme[j]);
            assert(CharClass::Colon.holds(scheme[j]));
        }
    }
    lemma_find_from_is(url, separator, 0, at);
    assert(find(url, separator) == Some(at));
    let remainder = url.subrange(at + 3, url.len() as int);
    assert(remainder =~= authority + tail);
    lemma_position_first(authority, CharClass::AuthorityEnd);
    assert forall|i: int| 0 <= i < authority.len() implies !CharClass::AuthorityEnd.holds(
        #[trigger] remainder[i],
    ) by {
        assert(remainder[i] == authority[i]);
    }
    if authority.len() < remainder.len() {
        assert(remainder[authority.len() as int] == tail.first());
    }
    lemma_position_is(remainder, CharClass::AuthorityEnd, authority.len() as int);
    assert(authority_of(remainder) =~= authority);
    assert(url.subrange(0, at) =~= scheme);
    assert(absolute_url_origin(url) == Some(scheme + separator + authority));
}

/// A text without a scheme, made of an authority with a plausible host and a
/// tail that is empty or starts with `/`, `?` or `#`, stands for the origin
/// `https://` and the authority, where it holds no whitespace.
pub proof fn lemma_origin_of_scheme_less_url(authority: Seq<char>, tail: Seq<char>)
    requires
        !has_char(authority, CharClass::AuthorityEnd),
        is_plausible_host(host_of(authority)),
        tail.len() > 0 ==> CharClass::AuthorityEnd.holds(tail.first()),
        !has_char(authority + tail, CharClass::Whitespace),
        !contains(authority + tail, scheme_separator()),
    ensures
        browser_document_origin(authority + tail) == Some(assumed_scheme_prefix() + authority),
{
    let url = authority + tail;
    lemma_position_first(host_of(authority), CharClass::Dot);
    lemma_position_first(authority, CharClass::Colon);
    assert(authority.len() > 0) by {
        if authority.len() == 0 {
            assert(host_of(authority).len() == 0);
            assert(!is_localhost(host_of(authority)));
            if is_ipv4_literal(host_of(authority)) {
                lemma_ipv4_literal_is_dotted(host_of(authority));
            }
        }
    }
    lemma_position_first(url, CharClass::Whitespace);
    assert(url.first() == authority.first());
    if is_whitespace(url.first()) {
        assert(CharClass::Whitespace.holds(url[0]));
    }
    if is_whitespace(url.last()) {
        assert(CharClass::Whitespace.holds(url[url.len() - 1]));
    }
    lemma_trim_is_identity(url);
    assert(normalized_text(url) == Some(url));
    lemma_position_first(authority, CharClass::AuthorityEnd);
    assert forall|i: int| 0 <= i < authority.len() implies !CharClass::AuthorityEnd.holds(
        #[trigger] url[i],
    ) by {
        assert(url[i] == authority[i]);
    }
    if authority.len() < url.len() {
        assert(url[authority.len() as int] == tail.first());
    }
    lemma_position_is(url, CharClass::AuthorityEnd, authority.len() as int);
    assert(authority_of(url) =~= authority);
}

/// Whitespace around the address of a document does not change its origin.
pub proof fn lemma_origin_ignores_surrounding_whitespace(raw: Seq<char>)
    ensures
        browser_document_origin(trim(raw)) == browser_document_origin(raw),
{
    lemma_trim_is_idempotent(raw);
}

/// A text without a scheme that holds whitespace within it, as a search
/// query does, has no origin.
pub proof fn lemma_scheme_less_text_with_whitespace_has_no_origin(raw: Seq<char>)
    requires
        !contains(trim(raw), scheme_separator()),
        has_char(trim(raw), CharClass::Whitespace),
    ensures
        browser_document_origin(raw) is None,
{
}

/// What stands between the title of a page and the name of the browser in
/// the title of a browser's window: a hyphen between two spaces.
pub open spec fn hyphen_separator() -> Seq<char> {
    seq![' ', '-', ' ']
}

/// The same with an em dash in place of the hyphen.
pub open spec fn em_dash_separator() -> Seq<char> {
    seq![' ', '\u{2014}', ' ']
}

/// The title that is left when `suffix` is taken from the end of `title`,
/// trimmed; the whole title where nothing is left.
pub open spec fn title_before_suffix(title: Seq<char>, suffix: Seq<char>) -> Seq<char> {
    match normalized_text(title.subrange(0, title.len() - suffix.len())) {
        Some(rest) => rest,
        None => title,
    }
}

/// The title of the tab that a browser's window shows. The window's title is
/// trimmed; where it ends with a separator and the browser's name, these are
/// taken off. There is no tab title only where there is no window title.
pub open spec fn inferred_tab_title(window_title: Option<Seq<char>>, browser_name: Seq<char>)
    -> Option<Seq<char>> {
    match window_title {
        None => None,
        Some(raw) => match normalized_text(raw) {
            None => None,
            Some(title) => {
                let hyphen_suffix = hyphen_separator() + browser_name;
                let em_dash_suffix = em_dash_separator() + browser_name;
                if ends_with(title, hyphen_suffix) {
                    Some(title_before_suffix(title, hyphen_suffix))
                } else if ends_with(title, em_dash_suffix) {
                    Some(title_before_suffix(title, em_dash_suffix))
                } else {
                    Some(title)
                }
            },
        },
    }
}

/// Takes `separator` and `browser_name` from the end of `title`, where they
/// stand there.
fn strip_browser_suffix(
    title: &String,
    title_chars: &Vec<char>,
    separator: &str,
    browser_name: &Vec<char>,
) -> (r: Option<String>)
    requires
        title_chars@ == title@,
    ensures
        match r {
            Some(rest) => ends_with(title@, separator@ + browser_name@) && rest@
                == title_before_suffix(title@, separator@ + browser_name@),
            None => !ends_with(title@, separator@ + browser_name@),
        },
{
    let mut suffix = to_chars(separator);
    let mut i: usize = 0;
    while i < browser_name.len()
        invariant
            i <= browser_name.len(),
            suffix@ == separator@ + browser_name@.take(i as int),
        decreases browser_name.len() - i,
    {
        suffix.push(browser_name[i]);
        assert(suffix@ =~= separator@ + browser_name@.take(i + 1));
        i = i + 1;
    }
    assert(browser_name@.take(browser_name.len() as int) =~= browser_name@);
    let n: usize = title_chars.len();
    let m: usize = suffix.len();
    if m > n || !occurs_at_index(title_chars, &suffix, n - m) {
        return None;
    }
    match normalize_non_empty_focus_text(title.as_str().substring_char(0, n - m)) {
        Some(rest) => Some(rest),
        None => Some(title.clone()),
    }
}

/// The title of the tab that a browser's window shows.
pub fn infer_browser_tab_title_from_window_title(
    focused_window_title: Option<&str>,
    browser_name: &str,
) -> (r: Option<String>)
    ensures
        opt_text(r) == inferred_tab_title(
            match focused_window_title {
                Some(title) => Some(title@),
                None => None,
            },
            browser_name@,
        ),
{
    let raw_title = match focused_window_title {
        Some(title) => title,
        None => {
            return None;
        },
    };
    let title = match normalize_non_empty_focus_text(raw_title) {
        Some(title) => title,
        None => {
            return None;
        },
    };
    let title_chars = to_chars(title.as_str());
    let browser_chars = to_chars(browser_name);
    proof {
        reveal_strlit(" - ");
        reveal_strlit(" \u{2014} ");
        assert(" - "@ =~= hyphen_separator());
        assert(" \u{2014} "@ =~= em_dash_separator());
    }
    match strip_browser_suffix(&title, &title_chars, " - ", &browser_chars) {
        Some(tab_title) => Some(tab_title),
        None => match strip_browser_suffix(&title, &title_chars, " \u{2014} ", &browser_chars) {
            Some(tab_title) => Some(tab_title),
            None => Some(title),
        },
    }
}

/// `High` with a window and an origin, `Medium` with a window or a tab, else
/// `Low`.
pub open spec fn confidence_level(has_window: bool, has_browser_tab: bool, has_origin: bool)
    -> FocusConfidenceLevel {
    if has_window && has_origin {
        FocusConfidenceLevel::High
    } else if has_window || has_browser_tab {
        FocusConfidenceLevel::Medium
    } else {
        FocusConfidenceLevel::Low
    }
}

/// The place of a confidence level among the three, the lowest first.
pub open spec fn confidence_rank(level: FocusConfidenceLevel) -> int {
    match level {
        FocusConfidenceLevel::Low => 0,
        FocusConfidenceLevel::Medium => 1,
        FocusConfidenceLevel::High => 2,
    }
}

/// A reading that holds more is never rated lower.
pub proof fn lemma_confidence_is_monotone(
    has_window: bool,
    has_browser_tab: bool,
    has_origin: bool,
    more_has_window: bool,
    more_has_browser_tab: bool,
    more_has_origin: bool,
)
    requires
        has_window ==> more_has_window,
        has_browser_tab ==> more_has_browser_tab,
        has_origin ==> more_has_origin,
    ensures
        confidence_rank(confidence_level(has_window, has_browser_tab, has_origin))
            <= confidence_rank(
            confidence_level(more_has_window, more_has_browser_tab, more_has_origin),
        ),
{
}

/// Rates a reading by the fields that it holds.
pub fn determine_focus_confidence_level(
    focused_window_is_present: bool,
    focused_browser_tab_is_present: bool,
    focused_browser_origin_is_present: bool,
) -> (r: FocusConfidenceLevel)
    ensures
        r == confidence_level(
            focused_window_is_present,
            focused_browser_tab_is_present,
            focused_browser_origin_is_present,
        ),
{
    if focused_window_is_present && focused_browser_origin_is_present {
        FocusConfidenceLevel::High
    } else if focused_window_is_present || focused_browser_tab_is_present {
        FocusConfidenceLevel::Medium
    } else {
        FocusConfidenceLevel::Low
    }
}

} // verus!
