//! HTTP caching headers: ETag, Cache-Control, Last-Modified and the
//! `If-None-Match` check.

use vstd::prelude::*;
use vstd::utf8::encode_utf8;

use axum::http::HeaderValue;
use std::hash::{Hash, Hasher};

use crate::text::{
    chars_eq, chars_eq_str, chars_of, decimal, digits_in_base, lower_hex, pieces_view, push_char,
    push_digits, split_chars, split_on, trim, trim_chars,
};
use crate::timestamp::{http_date_text, UtcTimestamp};

verus! {

#[verifier::external_type_specification]
#[verifier::external_body]
pub struct ExHeaderValue(HeaderValue);

/// Whether `HeaderValue::from_str` accepts `c`: a tab, or any character from
/// a space up, except DEL (every non-ASCII character is encoded in bytes
/// from 128 up, which it accepts).
pub open spec fn header_char_ok(c: char) -> bool {
    c == '\t' || (' ' <= c && c != '\u{7f}')
}

pub open spec fn header_text_ok(s: Seq<char>) -> bool {
    forall|i: int| 0 <= i < s.len() ==> header_char_ok(#[trigger] s[i])
}

/// The bytes that a `HeaderValue` holds, which `HeaderValue::as_bytes` gives.
pub uninterp spec fn header_value_bytes(v: HeaderValue) -> Seq<u8>;

/// Calls `HeaderValue::from_str`. Claimed, from its source: it succeeds
/// exactly when every byte of `s` is a tab or lies in 32..=255 other than 127,
/// and the value then holds a copy of the UTF-8 bytes of `s`
/// (`Bytes::copy_from_slice(s.as_bytes())`).
#[verifier::external_body]
fn header_value_from_str(s: &str) -> (r: Option<HeaderValue>)
    ensures
        r is Some <==> header_text_ok(s@),
        r matches Some(v) ==> header_value_bytes(v) == encode_utf8(s@),
{
    HeaderValue::from_str(s).ok()
}

/// Hashes `body` with `std::collections::hash_map::DefaultHasher::new()`,
/// as `Hash for [u8]` feeds it (length, then bytes), and returns `finish()`.
/// Nothing is claimed of the value: the length is fed as a `usize`, whose
/// width differs between machines, and std does not keep the algorithm
/// stable across releases.
#[verifier::external_body]
fn default_hash(body: &[u8]) -> (h: u64) {
    let mut hasher = std::collections::hash_map::DefaultHasher::new();
    body.hash(&mut hasher);
    hasher.finish()
}

/// The quoted lowercase hexadecimal form of `hash`, e.g. `"1f"` with the quotes.
pub open spec fn etag_text(hash: u64) -> Seq<char> {
    seq!['"'] + lower_hex(hash as nat) + seq!['"']
}

/// Renders `hash` as a quoted ETag in lowercase hexadecimal.
pub fn format_etag(hash: u64) -> (s: String)
    ensures
        s@ == etag_text(hash),
{
    let mut s = String::new();
    push_char(&mut s, '"');
    push_digits(&mut s, hash, 16);
    push_char(&mut s, '"');
    s
}

/// Compute a weakly-stable quoted ETag from response bytes.
pub fn compute_etag(body: &[u8]) -> (s: String)
    ensures
        exists|h: u64| s@ == etag_text(h),
{
    let h = default_hash(body);
    format_etag(h)
}

/// The Cache-Control text for `max_age` and `swr`.
pub open spec fn cache_control_text(max_age: u32, swr: u32) -> Seq<char> {
    "max-age="@ + decimal(max_age as nat) + ", stale-while-revalidate="@ + decimal(swr as nat)
}

/// Builds the Cache-Control text using max-age and stale-while-revalidate.
pub fn cache_control_string(max_age: u32, swr: u32) -> (s: String)
    ensures
        s@ == cache_control_text(max_age, swr),
{
    let mut s = String::from_str("max-age=");
    push_digits(&mut s, max_age as u64, 10);
    s.append(", stale-while-revalidate=");
    push_digits(&mut s, swr as u64, 10);
    s
}

proof fn lemma_digits_are_header_chars(n: nat, base: nat)
    requires
        base == 10 || base == 16,
    ensures
        header_text_ok(digits_in_base(n, base)),
    decreases n,
{
    reveal_with_fuel(digits_in_base, 2);
    if n >= base {
        assert(n / base < n) by (nonlinear_arith)
            requires
                base >= 2,
                n >= base,
        ;
        lemma_digits_are_header_chars(n / base, base);
        assert(n % base < base) by (nonlinear_arith)
            requires
                base >= 2,
        ;
    }
}

/// Build a Cache-Control value using max-age and stale-while-revalidate.
pub fn cache_control(max_age: u32, swr: u32) -> (v: HeaderValue)
    ensures
        header_value_bytes(v) == encode_utf8(cache_control_text(max_age, swr)),
{
    let s = cache_control_string(max_age, swr);
    proof {
        reveal_strlit("max-age=");
        reveal_strlit(", stale-while-revalidate=");
        lemma_digits_are_header_chars(max_age as nat, 10);
        lemma_digits_are_header_chars(swr as nat, 10);
        assert(header_text_ok(s@));
    }
    header_value_from_str(s.as_str()).unwrap()
}

/// Build an RFC 7231 HTTP-date for Last-Modified.
pub fn last_modified(timestamp: UtcTimestamp) -> (v: HeaderValue)
    ensures
        header_value_bytes(v) == encode_utf8(
            http_date_text(timestamp@.0 as i64, timestamp@.1 as u32),
        ),
{
    let s = timestamp.http_date();
    assert(header_text_ok(s@));
    header_value_from_str(s.as_str()).unwrap()
}

// ---------------------------------------------------------------------------
// If-None-Match
// ---------------------------------------------------------------------------

/// Whether every byte is a visible ASCII character or a tab, which
/// `HeaderValue::to_str` requires.
pub open spec fn visible_header(b: Seq<u8>) -> bool {
    forall|i: int| 0 <= i < b.len() ==> (32 <= #[trigger] b[i] < 127 || b[i] == 9)
}

/// The characters that the visible ASCII bytes `b` encode.
pub open spec fn ascii_text(b: Seq<u8>) -> Seq<char> {
    b.map_values(|x: u8| x as char)
}

/// Whether a comma-separated list of entity tags names `*` or `etag`.
pub open spec fn lists_etag(raw: Seq<char>, etag: Seq<char>) -> bool {
    exists|i: int|
        0 <= i < split_on(raw, ',').len() && (trim(#[trigger] split_on(raw, ',')[i]) == "*"@
            || trim(split_on(raw, ',')[i]) == etag)
}

/// The answer of `if_none_match_matches` for the raw `If-None-Match` bytes.
pub open spec fn if_none_match_spec(header: Option<Seq<u8>>, etag: Seq<char>) -> bool {
    match header {
        Some(b) => visible_header(b) && lists_etag(ascii_text(b), etag),
        None => false,
    }
}

/// A header holding just `*` matches every entity tag, and a header holding
/// exactly the current tag matches it.
pub proof fn law_wildcard_and_exact_tag_match(etag: Seq<char>)
    ensures
        lists_etag("*"@, etag),
        (!etag.contains(',') && trim(etag) == etag) ==> lists_etag(etag, etag),
{
    reveal_strlit("*");
    let star = "*"@;
    assert(star =~= Seq::<char>::empty().push('*'));
    assert(star.drop_last() =~= Seq::<char>::empty());
    reveal_with_fuel(split_on, 2);
    assert(split_on(star, ',') =~= seq![star]);
    assert(trim(split_on(star, ',')[0]) == "*"@);
    if !etag.contains(',') && trim(etag) == etag {
        lemma_split_without_sep(etag, ',');
        assert(trim(split_on(etag, ',')[0]) == etag);
    }
}

/// A header names the current tag exactly when one of its comma-separated
/// pieces, trimmed, is `*` or that tag, whichever its position in the list.
pub proof fn law_any_listed_piece_matches(raw: Seq<char>, etag: Seq<char>, i: int)
    ensures
        (0 <= i < split_on(raw, ',').len() && (trim(split_on(raw, ',')[i]) == "*"@ || trim(
            split_on(raw, ',')[i],
        ) == etag)) ==> lists_etag(raw, etag),
        lists_etag(raw, etag) ==> exists|j: int|
            0 <= j < split_on(raw, ',').len() && (trim(#[trigger] split_on(raw, ',')[j]) == "*"@
                || trim(split_on(raw, ',')[j]) == etag),
{
}

/// Adding tags to a list never loses a match: a list `a, b` names the
/// current tag when its first entry `a` is that tag (or `*`), and also
/// whenever the rest `b` names it.
pub proof fn law_match_in_longer_list(a: Seq<char>, b: Seq<char>, etag: Seq<char>)
    requires
        !a.contains(','),
    ensures
        (trim(a) == etag || trim(a) == "*"@) ==> lists_etag(a.push(',') + b, etag),
        lists_etag(b, etag) ==> lists_etag(a.push(',') + b, etag),
{
    lemma_split_after_first(a, b, ',');
    let whole = split_on(a.push(',') + b, ',');
    assert(whole[0] == a);
    if lists_etag(b, etag) {
        let j = choose|j: int|
            0 <= j < split_on(b, ',').len() && (trim(#[trigger] split_on(b, ',')[j]) == "*"@
                || trim(split_on(b, ',')[j]) == etag);
        assert(whole[j + 1] == split_on(b, ',')[j]);
    }
}

proof fn lemma_split_nonempty(s: Seq<char>, sep: char)
    ensures
        split_on(s, sep).len() >= 1,
    decreases s.len(),
{
    if s.len() > 0 {
        lemma_split_nonempty(s.drop_last(), sep);
    }
}

/// Splitting `a` then `sep` then `b`, where `a` holds no `sep`, gives `a`
/// followed by the pieces of `b`.
proof fn lemma_split_after_first(a: Seq<char>, b: Seq<char>, sep: char)
    requires
        !a.contains(sep),
    ensures
        split_on(a.push(sep) + b, sep) == seq![a] + split_on(b, sep),
    decreases b.len(),
{
    let x = a.push(sep);
    if b.len() == 0 {
        lemma_split_without_sep(a, sep);
        assert(x + b =~= x);
        assert(x.drop_last() =~= a);
        assert(x.last() == sep);
        assert(b =~= Seq::<char>::empty());
        assert(split_on(x, sep) =~= seq![a] + split_on(b, sep));
    } else {
        let b1 = b.drop_last();
        let c = b.last();
        lemma_split_after_first(a, b1, sep);
        lemma_split_nonempty(b1, sep);
        assert((x + b).drop_last() =~= x + b1);
        assert((x + b).last() == c);
        assert(b1.push(c) =~= b);
        let p = split_on(b1, sep);
        let w = split_on(x + b1, sep);
        assert(w == seq![a] + p);
        if c == sep {
            assert(split_on(x + b, sep) == w.push(Seq::<char>::empty()));
            assert(split_on(b, sep) == p.push(Seq::<char>::empty()));
            assert(w.push(Seq::<char>::empty()) =~= seq![a] + p.push(Seq::<char>::empty()));
        } else {
            assert(split_on(x + b, sep) == w.update(w.len() - 1, w.last().push(c)));
            assert(split_on(b, sep) == p.update(p.len() - 1, p.last().push(c)));
            assert(w.update(w.len() - 1, w.last().push(c)) =~= seq![a] + p.update(
                p.len() - 1,
                p.last().push(c),
            ));
        }
    }
}

/// A text without `sep` splits into itself alone.
proof fn lemma_split_without_sep(s: Seq<char>, sep: char)
    requires
        !s.contains(sep),
    ensures
        split_on(s, sep) == seq![s],
    decreases s.len(),
{
    if s.len() == 0 {
        assert(s =~= Seq::<char>::empty());
    } else {
        let u = s.drop_last();
        assert(!u.contains(sep)) by {
            if u.contains(sep) {
                let j = choose|j: int| 0 <= j < u.len() && u[j] == sep;
                assert(s[j] == sep);
            }
        }
        lemma_split_without_sep(u, sep);
        assert(s.last() != sep) by {
            assert(s[s.len() - 1] == s.last());
        }
        assert(u.push(s.last()) =~= s);
        let prev = split_on(u, sep);
        assert(split_on(s, sep) == prev.update(prev.len() - 1, prev.last().push(s.last())));
        assert(prev.update(0, u.push(s.last())) =~= seq![s]);
    }
}

/// Returns true when `If-None-Match` contains `*` or the exact current ETag.
/// `if_none_match` holds the raw bytes of that header when the request has
/// one; a value that is not visible ASCII never matches.
pub fn if_none_match_matches(if_none_match: Option<&[u8]>, current_etag: &str) -> (r: bool)
    ensures
        r == if_none_match_spec(
            match if_none_match {
                Some(b) => Some(b@),
                None => None,
            },
            current_etag@,
        ),
{
    let raw = match if_none_match {
        Some(b) => b,
        None => {
            return false;
        },
    };
    // The value must be visible ASCII, as `to_str` requires.
    let mut text: Vec<char> = Vec::new();
    let mut i: usize = 0;
    while i < raw.len()
        invariant
            i <= raw.len(),
            if_none_match == Some(raw),
            forall|j: int| 0 <= j < i ==> (32 <= #[trigger] raw@[j] < 127 || raw@[j] == 9),
            text@ == ascii_text(raw@.take(i as int)),
        decreases raw.len() - i,
    {
        let b = raw[i];
        if !((32 <= b && b < 127) || b == 9) {
            assert(raw@[i as int] == b);
            return false;
        }
        text.push(b as char);
        i = i + 1;
        assert(text@ =~= ascii_text(raw@.take(i as int)));
    }
    assert(raw@.take(raw.len() as int) =~= raw@);
    assert(visible_header(raw@));
    let etag = chars_of(current_etag);
    let pieces = split_chars(&text, ',');
    let ghost all = split_on(text@, ',');
    let mut k: usize = 0;
    while k < pieces.len()
        invariant
            k <= pieces.len(),
            pieces_view(pieces@) == all,
            all == split_on(text@, ','),
            etag@ == current_etag@,
            if_none_match == Some(raw),
            visible_header(raw@),
            text@ == ascii_text(raw@),
            forall|j: int|
                0 <= j < k ==> !(trim(#[trigger] all[j]) == "*"@ || trim(all[j]) == etag@),
        decreases pieces.len() - k,
    {
        let tag = trim_chars(&pieces[k]);
        assert(pieces[k as int]@ == all[k as int]);
        if chars_eq_str(&tag, "*") || chars_eq(&tag, &etag) {
            assert(text@ == ascii_text(raw@));
            assert(trim(split_on(text@, ',')[k as int]) == "*"@ || trim(split_on(text@, ',')[k as int]) == current_etag@);
            return true;
        }
        k = k + 1;
    }
    false
}

} // verus!
