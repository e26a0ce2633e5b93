//! Recovery of the API credentials (`app_id` and `app_secret`) from the
//! Qobuz web player: the login page lists JavaScript bundles; a bundle holds
//! the production `appId`, and the secret is rebuilt from base64 fragments
//! hidden in a timezone table.
use vstd::prelude::*;
use vstd::utf8::encode_utf8;
use crate::text::{chars_of, concat, opt_view, push_char, push_str};
use base64::Engine;

verus! {

// ----- Outside crates -----

/// The capture groups of the first match of `pattern` in `text`, or nothing
/// when the pattern does not compile or does not match.
pub uninterp spec fn regex_first_captures(pattern: Seq<char>, text: Seq<char>) -> Option<Seq<Option<Seq<char>>>>;

/// The capture groups of every successive match of `pattern` in `text`, or
/// nothing when the pattern does not compile.
pub uninterp spec fn regex_all_captures(pattern: Seq<char>, text: Seq<char>) -> Option<Seq<Seq<Option<Seq<char>>>>>;

/// The bytes that standard base64 decodes `input` to, or nothing when
/// `input` is not valid base64.
pub uninterp spec fn base64_standard_decoded(input: Seq<u8>) -> Option<Seq<u8>>;

/// The upper-case form of a character, as `char::to_uppercase` yields it.
pub uninterp spec fn uppercase_of(c: char) -> Seq<char>;

/// The text of each capture group.
pub open spec fn groups_view(groups: Seq<Option<String>>) -> Seq<Option<Seq<char>>> {
    groups.map_values(|g: Option<String>| opt_view(g))
}

/// `regex::Regex::new` then `Regex::captures`: compiles `pattern` and
/// returns the capture groups of its first match in `text`. The result is
/// named by `regex_first_captures`; nothing else is claimed of it.
#[verifier::external_body]
fn regex_captures(pattern: &str, text: &str) -> (r: Option<Vec<Option<String>>>)
    ensures
        match r {
            Some(g) => regex_first_captures(pattern@, text@) == Some(groups_view(g@)),
            None => regex_first_captures(pattern@, text@) is None,
        },
{
    let re = regex::Regex::new(pattern).ok()?;
    let caps = re.captures(text)?;
    Some(caps.iter().map(|m| m.map(|m| m.as_str().to_string())).collect())
}

/// `regex::Regex::new` then `Regex::captures_iter`: compiles `pattern` and
/// returns the capture groups of each successive match in `text`. The result
/// is named by `regex_all_captures`; nothing else is claimed of it.
#[verifier::external_body]
fn regex_captures_all(pattern: &str, text: &str) -> (r: Option<Vec<Vec<Option<String>>>>)
    ensures
        match r {
            Some(all) => regex_all_captures(pattern@, text@) == Some(
                all@.map_values(|g: Vec<Option<String>>| groups_view(g@)),
            ),
            None => regex_all_captures(pattern@, text@) is None,
        },
{
    let re = regex::Regex::new(pattern).ok()?;
    Some(re.captures_iter(text).map(|c| c.iter().map(|m| m.map(|m| m.as_str().to_string())).collect()).collect())
}

/// The standard base64 engine's `decode`: the decoded bytes, or nothing when
/// the input is not valid base64. The result is named by
/// `base64_standard_decoded`.
#[verifier::external_body]
fn base64_decode(input: &[u8]) -> (r: Option<Vec<u8>>)
    ensures
        match r {
            Some(d) => base64_standard_decoded(input@) == Some(d@),
            None => base64_standard_decoded(input@) is None,
        },
{
    base64::engine::general_purpose::STANDARD.decode(input).ok()
}

/// `char::to_uppercase`, collected into a string. The result is named by
/// `uppercase_of`.
#[verifier::external_body]
fn char_uppercase(c: char) -> (r: String)
    ensures
        r@ == uppercase_of(c),
{
    c.to_uppercase().collect()
}

// ----- Byte search -----

/// Position of the first occurrence of `n` in `h` at or after `i`.
pub open spec fn find_from(h: Seq<u8>, n: Seq<u8>, i: int) -> Option<int>
    decreases h.len() - i,
{
    if i < 0 || i + n.len() > h.len() {
        None
    } else if h.subrange(i, i + n.len()) == n {
        Some(i)
    } else if i >= h.len() {
        None
    } else {
        find_from(h, n, i + 1)
    }
}

/// A position that `find_from` reports lies at or after the start and leaves
/// room for the needle.
proof fn lemma_find_from_bounds(h: Seq<u8>, n: Seq<u8>, i: int)
    ensures
        find_from(h, n, i) matches Some(p) ==> i <= p && p + n.len() <= h.len(),
    decreases h.len() - i,
{
    if i < 0 || i + n.len() > h.len() {
    } else if h.subrange(i, i + n.len()) == n {
    } else if i >= h.len() {
    } else {
        lemma_find_from_bounds(h, n, i + 1);
    }
}

/// Whether `needle` occurs at `i` in `hay`.
fn matches_at(hay: &[u8], needle: &[u8], i: usize) -> (b: bool)
    requires
        i + needle@.len() <= hay@.len(),
    ensures
        b == (hay@.subrange(i as int, i + needle@.len()) == needle@),
{
    let mut j: usize = 0;
    let hay_len: usize = hay.len();
    while j < needle.len()
        invariant
            i + needle@.len() <= hay@.len(),
            hay_len == hay@.len(),
            j <= needle@.len(),
            forall|k: int| 0 <= k < j ==> hay@[i + k] == needle@[k],
        decreases needle.len() - j,
    {
        if hay[i + j] != needle[j] {
            assert(hay@.subrange(i as int, i + needle@.len())[j as int] != needle@[j as int]);
            return false;
        }
        j = j + 1;
    }
    assert(hay@.subrange(i as int, i + needle@.len()) =~= needle@);
    true
}

/// Position of the first occurrence of `needle` in `hay[from..to]`, as an
/// index of `hay`.
pub(crate) fn find_bytes(hay: &[u8], from: usize, to: usize, needle: &[u8]) -> (r: Option<usize>)
    requires
        from <= to <= hay@.len(),
    ensures
        match find_from(hay@.subrange(from as int, to as int), needle@, 0) {
            Some(p) => r == Some((from + p) as usize),
            None => r is None,
        },
{
    let ghost h = hay@.subrange(from as int, to as int);
    let mut i: usize = from;
    while i <= to && to - i >= needle.len()
        invariant
            from <= i <= to,
            to <= hay@.len(),
            h == hay@.subrange(from as int, to as int),
            find_from(h, needle@, 0) == find_from(h, needle@, i - from),
        decreases to - i,
    {
        let m = matches_at(hay, needle, i);
        assert(h.subrange(i - from, i - from + needle@.len()) =~= hay@.subrange(i as int, i + needle@.len()));
        if m {
            return Some(i);
        }
        assert(needle@.len() > 0) by {
            if needle@.len() == 0 {
                assert(hay@.subrange(i as int, i as int) =~= needle@);
            }
        }
        i = i + 1;
    }
    None
}

// ----- Patterns -----

/// Script tags of the login page; group 1 is the bundle's URL.
pub const SCRIPT_PATTERN: &'static str = r#"<script[^>]+src="([^"]+\.js[^"]*)""#;

/// The production `appId` of a bundle; group 1 is the id.
pub const PRODUCTION_APP_ID_PATTERN: &'static str = r#"production[^}]*?appId\s*:\s*"(\d{9,})""#;

/// Any `appId` of a bundle; group 1 is the id.
pub const ANY_APP_ID_PATTERN: &'static str = r#"appId\s*[:=]\s*"(\d{9,})""#;

/// The `initialSeed` calls of a bundle; group 1 is the base64 seed, group 2
/// the timezone city.
pub const SEED_PATTERN: &'static str = r#"initialSeed\(\s*"([A-Za-z0-9+/=]+)"\s*,\s*[a-zA-Z_.]*\.utimezone\.([a-z]+)\s*\)"#;

/// The part of a timezone entry's pattern after the zone's name; groups 1
/// and 2 are the `info` and `extras` fragments.
pub const TIMEZONE_FIELDS_PATTERN: &'static str = r#"[^}]*?info\s*:\s*"([^"]+)"[^}]*?extras\s*:\s*"([^"]+)""#;

/// Host prefixed to bundle paths that start with `/`.
pub const PLAYER_HOST: &'static str = "https://play.qobuz.com";

/// Number of trailing characters dropped from the joined fragments.
pub const SECRET_TRAILER_LEN: usize = 44;

/// How far before a seed the word `production` is looked for, in bytes.
pub const PRODUCTION_WINDOW: usize = 500;

/// The continents whose timezone entries may hold the fragments, in the
/// order they are tried.
pub open spec fn continents() -> Seq<Seq<char>> {
    seq!["Europe"@, "Africa"@, "America"@, "Asia"@, "Pacific"@, "Atlantic"@]
}

fn continent_name(i: usize) -> (c: &'static str)
    requires
        i < 6,
    ensures
        c@ == continents()[i as int],
{
    if i == 0 {
        "Europe"
    } else if i == 1 {
        "Africa"
    } else if i == 2 {
        "America"
    } else if i == 3 {
        "Asia"
    } else if i == 4 {
        "Pacific"
    } else {
        "Atlantic"
    }
}

// ----- Capture groups -----

/// Text of capture group `i`, or empty when the group did not take part.
pub open spec fn group_text(groups: Seq<Option<Seq<char>>>, i: int) -> Seq<char> {
    if 0 <= i < groups.len() {
        match groups[i] {
            Some(t) => t,
            None => Seq::empty(),
        }
    } else {
        Seq::empty()
    }
}

fn group(groups: &Vec<Option<String>>, i: usize) -> (t: String)
    ensures
        t@ == group_text(groups_view(groups@), i as int),
{
    if i < groups.len() {
        match &groups[i] {
            Some(t) => t.clone(),
            None => String::new(),
        }
    } else {
        String::new()
    }
}


// ----- Secret reconstruction -----

/// Seed and city of each `initialSeed` call.
pub open spec fn seed_calls(all: Seq<Seq<Option<Seq<char>>>>) -> Seq<(Seq<char>, Seq<char>)> {
    all.map_values(|g: Seq<Option<Seq<char>>>| (group_text(g, 1), group_text(g, 2)))
}

/// The bundle holds the word `production` within the 500 bytes before the
/// first occurrence of `seed`.
pub open spec fn in_production_context(bundle: Seq<u8>, seed: Seq<char>) -> bool {
    match find_from(bundle, encode_utf8(seed), 0) {
        Some(pos) => {
            let start: int = if pos >= PRODUCTION_WINDOW { pos - PRODUCTION_WINDOW } else { 0 };
            find_from(bundle.subrange(start, pos), encode_utf8("production"@), 0) is Some
        },
        None => false,
    }
}

/// `n` occurs in `h` at position `i`.
pub open spec fn occurs_at(h: Seq<u8>, n: Seq<u8>, i: int) -> bool {
    &&& 0 <= i
    &&& i + n.len() <= h.len()
    &&& h.subrange(i, i + n.len()) == n
}

/// `find_from` reports the first occurrence at or after `i`, and nothing
/// when there is none.
proof fn lemma_find_from_first(h: Seq<u8>, n: Seq<u8>, i: int)
    requires
        0 <= i,
    ensures
        find_from(h, n, i) matches Some(p) ==> i <= p && occurs_at(h, n, p) && forall|j: int|
            i <= j < p ==> !#[trigger] occurs_at(h, n, j),
        find_from(h, n, i) is None ==> forall|j: int| i <= j ==> !#[trigger] occurs_at(h, n, j),
    decreases h.len() - i,
{
    if i + n.len() > h.len() {
    } else if h.subrange(i, i + n.len()) == n {
    } else if i >= h.len() {
        assert(n.len() == 0);
        assert(h.subrange(i, i) =~= n);
    } else {
        lemma_find_from_first(h, n, i + 1);
    }
}

/// A seed counts as production exactly when the word `production` occurs
/// wholly inside the 500 bytes just before the first occurrence of the seed
/// in the bundle (from its start, when the seed comes earlier than that); an
/// occurrence of the word further back does not count.
pub proof fn lemma_production_window(bundle: Seq<u8>, seed: Seq<char>, pos: int)
    requires
        occurs_at(bundle, encode_utf8(seed), pos),
        forall|j: int| 0 <= j < pos ==> !#[trigger] occurs_at(bundle, encode_utf8(seed), j),
    ensures
        in_production_context(bundle, seed) <==> exists|w: int|
            pos - 500 <= w && w + 10 <= pos && #[trigger] occurs_at(bundle, encode_utf8("production"@), w),
{
    let sd = encode_utf8(seed);
    let word = encode_utf8("production"@);
    reveal_strlit("production");
    assert(word.len() == 10) by {
        assert(vstd::utf8::is_ascii_chars("production"@));
        vstd::utf8::is_ascii_chars_encode_utf8("production"@);
    }
    lemma_find_from_first(bundle, sd, 0);
    match find_from(bundle, sd, 0) {
        Some(p) => {
            if p < pos {
                assert(!occurs_at(bundle, sd, p));
            }
            if pos < p {
                assert(!occurs_at(bundle, sd, pos));
            }
        },
        None => {
            assert(!occurs_at(bundle, sd, pos));
        },
    }
    assert(find_from(bundle, sd, 0) == Some(pos));
    let start: int = if pos >= 500 { pos - 500 } else { 0 };
    let sub = bundle.subrange(start, pos);
    lemma_find_from_first(sub, word, 0);
    if in_production_context(bundle, seed) {
        let w0 = find_from(sub, word, 0)->0;
        assert(occurs_at(sub, word, w0));
        assert(sub.subrange(w0, w0 + 10) =~= bundle.subrange(start + w0, start + w0 + 10));
        assert(occurs_at(bundle, word, start + w0));
    }
    if exists|w: int| pos - 500 <= w && w + 10 <= pos && #[trigger] occurs_at(bundle, word, w) {
        let w = choose|w: int| pos - 500 <= w && w + 10 <= pos && #[trigger] occurs_at(bundle, word, w);
        assert(sub.subrange(w - start, w - start + 10) =~= bundle.subrange(w, w + 10));
        assert(occurs_at(sub, word, w - start));
    }
}

/// A seed that does not occur in the bundle never counts as production.
pub proof fn lemma_absent_seed_not_production(bundle: Seq<u8>, seed: Seq<char>)
    requires
        forall|j: int| !#[trigger] occurs_at(bundle, encode_utf8(seed), j),
    ensures
        !in_production_context(bundle, seed),
{
    lemma_find_from_first(bundle, encode_utf8(seed), 0);
}

/// Index of the first seed call, from `k` on, whose seed is in a production context.
pub open spec fn first_production(bundle: Seq<u8>, calls: Seq<(Seq<char>, Seq<char>)>, k: int) -> Option<int>
    decreases calls.len() - k,
{
    if k < 0 || k >= calls.len() {
        None
    } else if in_production_context(bundle, calls[k].0) {
        Some(k)
    } else {
        first_production(bundle, calls, k + 1)
    }
}

/// Index of the seed call used: the first in a production context, else
/// the last.
pub open spec fn spec_chosen_index(bundle: Seq<u8>, calls: Seq<(Seq<char>, Seq<char>)>) -> int {
    match first_production(bundle, calls, 0) {
        Some(k) => k,
        None => calls.len() - 1,
    }
}

/// The seed call used.
pub open spec fn chosen_call(bundle: Seq<u8>, calls: Seq<(Seq<char>, Seq<char>)>) -> (Seq<char>, Seq<char>) {
    calls[spec_chosen_index(bundle, calls)]
}

/// Seed calls by their text.
pub open spec fn calls_view(v: Seq<(String, String)>) -> Seq<(Seq<char>, Seq<char>)> {
    v.map_values(|c: (String, String)| (c.0@, c.1@))
}

/// A city name with its first character in upper case.
pub open spec fn capitalized(city: Seq<char>) -> Seq<char> {
    if city.len() == 0 {
        Seq::empty()
    } else {
        uppercase_of(city[0]) + city.drop_first()
    }
}

/// Pattern of the timezone entry of `city` on `continent`.
pub open spec fn zone_pattern(continent: Seq<char>, city: Seq<char>) -> Seq<char> {
    continent + "[\"/]"@ + city + TIMEZONE_FIELDS_PATTERN@
}

/// The `info` and `extras` fragments of the first continent, from `i` on,
/// whose timezone entry for `city` is found.
pub open spec fn zone_fragments(bundle: Seq<char>, city: Seq<char>, i: int) -> Option<(Seq<char>, Seq<char>)>
    decreases 6 - i,
{
    if i < 0 || i >= 6 {
        None
    } else {
        match regex_first_captures(zone_pattern(continents()[i], city), bundle) {
            Some(g) => Some((group_text(g, 1), group_text(g, 2))),
            None => zone_fragments(bundle, city, i + 1),
        }
    }
}

/// An ASCII hexadecimal digit.
pub open spec fn is_hex_byte(b: u8) -> bool {
    (48 <= b <= 57) || (65 <= b <= 70) || (97 <= b <= 102)
}

/// The base64 text that the fragments hide: the bytes of the joined
/// fragments without their last 44 bytes, when there are more than that.
pub open spec fn spec_fragment_bytes(seed: Seq<char>, info: Seq<char>, extras: Seq<char>) -> Option<Seq<u8>> {
    let b = encode_utf8(seed + info + extras);
    if b.len() > SECRET_TRAILER_LEN {
        Some(b.take(b.len() - SECRET_TRAILER_LEN))
    } else {
        None
    }
}

/// The secret that decoded bytes spell: 32 hexadecimal digits, or nothing.
pub open spec fn spec_secret_of_decoded(d: Seq<u8>) -> Option<Seq<char>> {
    if d.len() == 32 && forall|i: int| 0 <= i < 32 ==> is_hex_byte(#[trigger] d[i]) {
        Some(d.map_values(|x: u8| (x as u32) as char))
    } else {
        None
    }
}

/// The secret hidden in the fragments: the base64 decoding of the joined
/// fragments without their last 44 bytes, when it is 32 hexadecimal digits.
pub open spec fn secret_from_fragments(seed: Seq<char>, info: Seq<char>, extras: Seq<char>) -> Option<Seq<char>> {
    match spec_fragment_bytes(seed, info, extras) {
        Some(t) => match base64_standard_decoded(t) {
            Some(d) => spec_secret_of_decoded(d),
            None => None,
        },
        None => None,
    }
}

/// The app secret that a bundle hides, if it can be rebuilt.
pub open spec fn spec_extract_secret(bundle: Seq<char>) -> Option<Seq<char>> {
    match regex_all_captures(SEED_PATTERN@, bundle) {
        None => None,
        Some(all) => {
            let calls = seed_calls(all);
            if calls.len() == 0 {
                None
            } else {
                let (seed, city) = chosen_call(encode_utf8(bundle), calls);
                match zone_fragments(bundle, capitalized(city), 0) {
                    None => None,
                    Some((info, extras)) => secret_from_fragments(seed, info, extras),
                }
            }
        },
    }
}

/// An ASCII hexadecimal digit, as a character.
pub open spec fn is_hex_char(c: char) -> bool {
    ('0' <= c <= '9') || ('A' <= c <= 'F') || ('a' <= c <= 'f')
}

/// A recovered secret is always 32 hexadecimal digits.
pub proof fn lemma_secret_is_hex(bundle: Seq<char>)
    ensures
        spec_extract_secret(bundle) matches Some(secret) ==> {
            &&& secret.len() == 32
            &&& forall|i: int| 0 <= i < 32 ==> is_hex_char(#[trigger] secret[i])
        },
{
    if let Some(secret) = spec_extract_secret(bundle) {
        let all = regex_all_captures(SEED_PATTERN@, bundle)->0;
        let calls = seed_calls(all);
        let (seed, city) = chosen_call(encode_utf8(bundle), calls);
        let (info, extras) = zone_fragments(bundle, capitalized(city), 0)->0;
        let t = spec_fragment_bytes(seed, info, extras)->0;
        let d = base64_standard_decoded(t)->0;
        assert(spec_secret_of_decoded(d) == Some(secret));
        assert forall|i: int| 0 <= i < 32 implies is_hex_char(#[trigger] secret[i]) by {
            assert(is_hex_byte(d[i]));
            let x = d[i];
            assert(secret[i] == (x as u32) as char);
        }
    }
}

fn is_hex_digit_byte(b: u8) -> (r: bool)
    ensures
        r == is_hex_byte(b),
{
    (48 <= b && b <= 57) || (65 <= b && b <= 70) || (97 <= b && b <= 102)
}

fn in_production_context_exec(bundle: &str, seed: &str) -> (r: bool)
    ensures
        r == in_production_context(encode_utf8(bundle@), seed@),
{
    let hay = bundle.as_bytes();
    let needle = seed.as_bytes();
    assert(hay@.subrange(0, hay@.len() as int) =~= hay@);
    proof {
        lemma_find_from_bounds(hay@, needle@, 0);
    }
    match find_bytes(hay, 0, hay.len(), needle) {
        Some(pos) => {
            let start: usize = if pos >= PRODUCTION_WINDOW { pos - PRODUCTION_WINDOW } else { 0 };
            let word = "production".as_bytes();
            match find_bytes(hay, start, pos, word) {
                Some(_) => true,
                None => false,
            }
        },
        None => false,
    }
}

/// The base64 text that the fragments of a timezone entry hide, after the
/// seed: their bytes without the last 44.
pub fn fragment_bytes(seed: &str, info: &str, extras: &str) -> (r: Option<Vec<u8>>)
    ensures
        match r {
            Some(t) => spec_fragment_bytes(seed@, info@, extras@) == Some(t@),
            None => spec_fragment_bytes(seed@, info@, extras@) is None,
        },
{
    let mut combined = seed.to_owned();
    push_str(&mut combined, info);
    push_str(&mut combined, extras);
    let bytes = combined.as_str().as_bytes();
    assert(combined@ =~= seed@ + info@ + extras@);
    if bytes.len() <= SECRET_TRAILER_LEN {
        return None;
    }
    let keep: usize = bytes.len() - SECRET_TRAILER_LEN;
    let mut trimmed: Vec<u8> = Vec::new();
    let mut i: usize = 0;
    while i < keep
        invariant
            keep <= bytes@.len(),
            i <= keep,
            trimmed@ == bytes@.take(i as int),
        decreases keep - i,
    {
        trimmed.push(bytes[i]);
        assert(bytes@.take(i + 1) =~= trimmed@);
        i = i + 1;
    }
    Some(trimmed)
}

/// The secret spelled by decoded bytes: exactly 32 hexadecimal digits.
pub fn secret_from_decoded(decoded: &Vec<u8>) -> (r: Option<String>)
    ensures
        opt_view(r) == spec_secret_of_decoded(decoded@),
{
    if decoded.len() != 32 {
        return None;
    }
    let mut secret = String::new();
    let mut j: usize = 0;
    while j < 32
        invariant
            decoded@.len() == 32,
            j <= 32,
            forall|k: int| 0 <= k < j ==> is_hex_byte(#[trigger] decoded@[k]),
            secret@ == decoded@.take(j as int).map_values(|x: u8| (x as u32) as char),
        decreases 32 - j,
    {
        let b: u8 = decoded[j];
        if !is_hex_digit_byte(b) {
            assert(!is_hex_byte(decoded@[j as int]));
            return None;
        }
        push_char(&mut secret, b as char);
        assert(decoded@.take(j + 1).map_values(|x: u8| (x as u32) as char) =~= secret@);
        j = j + 1;
    }
    assert(decoded@.take(32) =~= decoded@);
    Some(secret)
}

fn secret_from_fragments_exec(seed: &str, info: &str, extras: &str) -> (r: Option<String>)
    ensures
        opt_view(r) == secret_from_fragments(seed@, info@, extras@),
{
    let trimmed = match fragment_bytes(seed, info, extras) {
        Some(t) => t,
        None => return None,
    };
    match base64_decode(trimmed.as_slice()) {
        Some(d) => secret_from_decoded(&d),
        None => None,
    }
}

/// First character upper-cased, the rest unchanged.
fn capitalize(city: &str) -> (r: String)
    ensures
        r@ == capitalized(city@),
{
    let chars = crate::text::chars_of(city);
    if chars.len() == 0 {
        return String::new();
    }
    let mut r = char_uppercase(chars[0]);
    let rest = crate::text::string_of_range(&chars, 1, chars.len());
    push_str(&mut r, rest.as_str());
    assert(chars@.subrange(1, chars@.len() as int) =~= city@.drop_first());
    r
}

/// The seed and the city of each match of the seed pattern, in order.
pub fn seed_calls_of(all: &Vec<Vec<Option<String>>>) -> (calls: Vec<(String, String)>)
    ensures
        calls_view(calls@) == seed_calls(all@.map_values(|g: Vec<Option<String>>| groups_view(g@))),
{
    let ghost target = seed_calls(all@.map_values(|g: Vec<Option<String>>| groups_view(g@)));
    let mut calls: Vec<(String, String)> = Vec::new();
    let mut k: usize = 0;
    while k < all.len()
        invariant
            k <= all@.len(),
            target == seed_calls(all@.map_values(|g: Vec<Option<String>>| groups_view(g@))),
            target.len() == all@.len(),
            calls_view(calls@) == target.take(k as int),
        decreases all.len() - k,
    {
        let seed = group(&all[k], 1);
        let city = group(&all[k], 2);
        assert(target[k as int] == (seed@, city@));
        let ghost prev = calls@;
        calls.push((seed, city));
        assert(calls_view(calls@) =~= calls_view(prev).push(target[k as int]));
        assert(target.take(k + 1) =~= target.take(k as int).push(target[k as int]));
        k = k + 1;
    }
    assert(target.take(all@.len() as int) =~= target);
    calls
}

/// Which seed call of `bundle` holds the production secret: the first whose
/// seed has the word `production` in the 500 bytes before it, else the last
/// one (production being the default branch).
pub fn choose_seed_call(bundle: &str, calls: &Vec<(String, String)>) -> (i: usize)
    requires
        calls.len() > 0,
    ensures
        i == spec_chosen_index(encode_utf8(bundle@), calls_view(calls@)),
        i < calls.len(),
{
    let ghost b = encode_utf8(bundle@);
    let ghost cv = calls_view(calls@);
    let mut k: usize = 0;
    while k < calls.len()
        invariant
            k <= calls@.len(),
            b == encode_utf8(bundle@),
            cv == calls_view(calls@),
            first_production(b, cv, 0) == first_production(b, cv, k as int),
        decreases calls.len() - k,
    {
        if in_production_context_exec(bundle, calls[k].0.as_str()) {
            return k;
        }
        k = k + 1;
    }
    calls.len() - 1
}

/// Extract the real app_secret from a bundle of the web player.
///
/// The bundle calls `initialSeed("SEED", window.utimezone.CITY)`; the
/// timezone entry of that city holds `info` and `extras` fragments; the
/// secret is the base64 decoding of `SEED + info + extras` without its last
/// 44 characters, and must be 32 hexadecimal digits.
pub fn extract_secret_from_bundle(bundle: &str) -> (r: Option<String>)
    ensures
        opt_view(r) == spec_extract_secret(bundle@),
{
    let all = match regex_captures_all(SEED_PATTERN, bundle) {
        Some(a) => a,
        None => return None,
    };
    let calls = seed_calls_of(&all);
    if calls.len() == 0 {
        return None;
    }
    let idx = choose_seed_call(bundle, &calls);
    let seed = &calls[idx].0;
    let city = &calls[idx].1;
    let city_cap = capitalize(city.as_str());
    let ghost target = spec_extract_secret(bundle@);
    assert(target == match zone_fragments(bundle@, city_cap@, 0) {
        None => None,
        Some((info, extras)) => secret_from_fragments(seed@, info, extras),
    });
    let mut c: usize = 0;
    while c < 6
        invariant
            c <= 6,
            target == spec_extract_secret(bundle@),
            target == match zone_fragments(bundle@, city_cap@, c as int) {
                None => None,
                Some((info, extras)) => secret_from_fragments(seed@, info, extras),
            },
        decreases 6 - c,
    {
        let mut pattern = continent_name(c).to_owned();
        push_str(&mut pattern, "[\"/]");
        push_str(&mut pattern, city_cap.as_str());
        push_str(&mut pattern, TIMEZONE_FIELDS_PATTERN);
        assert(pattern@ =~= zone_pattern(continents()[c as int], city_cap@));
        match regex_captures(pattern.as_str(), bundle) {
            Some(g) => {
                let info = group(&g, 1);
                let extras = group(&g, 2);
                return secret_from_fragments_exec(seed.as_str(), info.as_str(), extras.as_str());
            },
            None => {},
        }
        c = c + 1;
    }
    None
}

/// The app id that a bundle holds: the production one if present, else the
/// first `appId` assignment.
pub open spec fn spec_extract_app_id(bundle: Seq<char>) -> Option<Seq<char>> {
    match regex_first_captures(PRODUCTION_APP_ID_PATTERN@, bundle) {
        Some(g) => Some(group_text(g, 1)),
        None => match regex_first_captures(ANY_APP_ID_PATTERN@, bundle) {
            Some(g) => Some(group_text(g, 1)),
            None => None,
        },
    }
}

/// The production app id wins: whenever the bundle matches the production
/// `appId` pattern, the id found is group 1 of that match, whatever other
/// `appId` assignments come earlier in the bundle. Only a bundle without a
/// production match falls back to its first `appId` assignment, and no id is
/// found only when neither pattern matches.
pub proof fn lemma_app_id_prefers_production(bundle: Seq<char>)
    ensures
        regex_first_captures(PRODUCTION_APP_ID_PATTERN@, bundle) matches Some(g) ==> spec_extract_app_id(bundle)
            == Some(group_text(g, 1)),
        regex_first_captures(PRODUCTION_APP_ID_PATTERN@, bundle) is None ==> (regex_first_captures(
            ANY_APP_ID_PATTERN@,
            bundle,
        ) matches Some(g) ==> spec_extract_app_id(bundle) == Some(group_text(g, 1))),
        spec_extract_app_id(bundle) is None <==> (regex_first_captures(PRODUCTION_APP_ID_PATTERN@, bundle) is None
            && regex_first_captures(ANY_APP_ID_PATTERN@, bundle) is None),
{
}

/// Extract the app_id from a bundle of the web player.
pub fn extract_app_id(bundle: &str) -> (r: Option<String>)
    ensures
        opt_view(r) == spec_extract_app_id(bundle@),
{
    match regex_captures(PRODUCTION_APP_ID_PATTERN, bundle) {
        Some(g) => Some(group(&g, 1)),
        None => match regex_captures(ANY_APP_ID_PATTERN, bundle) {
            Some(g) => Some(group(&g, 1)),
            None => None,
        },
    }
}

// ----- Bundles of the login page -----

/// Whether `s` begins with `prefix`.
pub open spec fn starts_with(s: Seq<char>, prefix: Seq<char>) -> bool {
    s.len() >= prefix.len() && s.take(prefix.len() as int) == prefix
}

/// Where a script source of the login page is fetched from: paths on the
/// player's host get the host in front, absolute `http` URLs stay as they
/// are, anything else is skipped.
pub open spec fn spec_bundle_url(src: Seq<char>) -> Option<Seq<char>> {
    if starts_with(src, "/"@) {
        Some(PLAYER_HOST@ + src)
    } else if starts_with(src, "http"@) {
        Some(src)
    } else {
        None
    }
}

/// The bundle URLs of the script sources `srcs`, in page order.
pub open spec fn bundle_urls_of(srcs: Seq<Seq<char>>) -> Seq<Seq<char>>
    decreases srcs.len(),
{
    if srcs.len() == 0 {
        Seq::empty()
    } else {
        let rest = bundle_urls_of(srcs.drop_last());
        match spec_bundle_url(srcs.last()) {
            Some(u) => rest.push(u),
            None => rest,
        }
    }
}

/// The script sources named by the script tags of a page: group 1 of each
/// match of [`SCRIPT_PATTERN`].
pub open spec fn script_sources(all: Seq<Seq<Option<Seq<char>>>>) -> Seq<Seq<char>> {
    all.map_values(|g: Seq<Option<Seq<char>>>| group_text(g, 1))
}

/// The bundle URLs listed by the login page `html`.
pub open spec fn spec_bundle_urls(html: Seq<char>) -> Option<Seq<Seq<char>>> {
    match regex_all_captures(SCRIPT_PATTERN@, html) {
        Some(all) => Some(bundle_urls_of(script_sources(all))),
        None => None,
    }
}

/// Whether `s` begins with `prefix`.
fn has_prefix(s: &str, prefix: &str) -> (b: bool)
    ensures
        b == starts_with(s@, prefix@),
{
    let sc = chars_of(s);
    let pc = chars_of(prefix);
    if sc.len() < pc.len() {
        return false;
    }
    let mut i: usize = 0;
    while i < pc.len()
        invariant
            sc@ == s@,
            pc@ == prefix@,
            pc@.len() <= sc@.len(),
            i <= pc@.len(),
            forall|j: int| 0 <= j < i ==> sc@[j] == pc@[j],
        decreases pc.len() - i,
    {
        if sc[i] != pc[i] {
            assert(s@.take(prefix@.len() as int)[i as int] != prefix@[i as int]);
            return false;
        }
        i = i + 1;
    }
    assert(s@.take(prefix@.len() as int) =~= prefix@);
    true
}

/// Where the bundles named by script sources are fetched from, in order;
/// sources that are neither paths nor `http` URLs are passed over.
pub fn bundle_urls_from_sources(srcs: &Vec<String>) -> (urls: Vec<String>)
    ensures
        urls@.map_values(|u: String| u@) == bundle_urls_of(srcs@.map_values(|t: String| t@)),
{
    let ghost sv = srcs@.map_values(|t: String| t@);
    let mut urls: Vec<String> = Vec::new();
    let mut k: usize = 0;
    while k < srcs.len()
        invariant
            k <= srcs@.len(),
            sv == srcs@.map_values(|t: String| t@),
            urls@.map_values(|u: String| u@) == bundle_urls_of(sv.take(k as int)),
        decreases srcs.len() - k,
    {
        let src = &srcs[k];
        assert(src@ == sv[k as int]);
        assert(sv.take(k + 1).drop_last() =~= sv.take(k as int));
        if has_prefix(src.as_str(), "/") {
            let u = concat(PLAYER_HOST, src.as_str());
            urls.push(u);
        } else if has_prefix(src.as_str(), "http") {
            urls.push(src.clone());
        }
        assert(urls@.map_values(|u: String| u@) =~= bundle_urls_of(sv.take(k + 1)));
        k = k + 1;
    }
    assert(sv.take(srcs@.len() as int) =~= sv);
    urls
}

/// The URLs of the JavaScript bundles that the login page `html` loads, in
/// page order; `None` only if the script pattern does not compile.
pub fn bundle_urls(html: &str) -> (r: Option<Vec<String>>)
    ensures
        match r {
            Some(v) => spec_bundle_urls(html@) == Some(v@.map_values(|u: String| u@)),
            None => spec_bundle_urls(html@) is None,
        },
{
    let all = match regex_captures_all(SCRIPT_PATTERN, html) {
        Some(a) => a,
        None => return None,
    };
    let ghost target = script_sources(all@.map_values(|g: Vec<Option<String>>| groups_view(g@)));
    let mut srcs: Vec<String> = Vec::new();
    let mut k: usize = 0;
    while k < all.len()
        invariant
            k <= all@.len(),
            target == script_sources(all@.map_values(|g: Vec<Option<String>>| groups_view(g@))),
            target.len() == all@.len(),
            srcs@.map_values(|t: String| t@) == target.take(k as int),
        decreases all.len() - k,
    {
        let src = group(&all[k], 1);
        assert(target[k as int] == src@);
        let ghost prev = srcs@;
        srcs.push(src);
        assert(srcs@.map_values(|t: String| t@) =~= prev.map_values(|t: String| t@).push(target[k as int]));
        assert(target.take(k + 1) =~= target.take(k as int).push(target[k as int]));
        k = k + 1;
    }
    assert(target.take(all@.len() as int) =~= target);
    Some(bundle_urls_from_sources(&srcs))
}

/// The message given when a credential could not be found in any bundle.
pub open spec fn spec_missing_message(what: Seq<char>, config_path: Seq<char>) -> Seq<char> {
    "Could not extract "@ + what + ". Set it manually in "@ + config_path
}

/// The credentials found so far while the bundles are read in page order:
/// the first `app_id` and the first secret that a bundle yields.
pub struct CredentialSearch {
    pub app_id: Option<String>,
    pub app_secret: Option<String>,
}

impl CredentialSearch {
    /// Nothing found yet.
    pub fn new() -> (s: CredentialSearch)
        ensures
            s.app_id is None,
            s.app_secret is None,
    {
        CredentialSearch { app_id: None, app_secret: None }
    }

    /// Read one more bundle: an `app_id` or a secret not found so far is
    /// taken from it when it holds one; what was found before is kept.
    pub fn absorb_bundle(&mut self, bundle: &str)
        ensures
            opt_view(final(self).app_id) == (match opt_view(old(self).app_id) {
                Some(id) => Some(id),
                None => spec_extract_app_id(bundle@),
            }),
            opt_view(final(self).app_secret) == (match opt_view(old(self).app_secret) {
                Some(sec) => Some(sec),
                None => spec_extract_secret(bundle@),
            }),
    {
        if self.app_id.is_none() {
            self.app_id = extract_app_id(bundle);
        }
        if self.app_secret.is_none() {
            self.app_secret = extract_secret_from_bundle(bundle);
        }
    }

    /// Both credentials have been found, so no further bundle is needed.
    pub fn is_complete(&self) -> (b: bool)
        ensures
            b == (self.app_id is Some && self.app_secret is Some),
    {
        self.app_id.is_some() && self.app_secret.is_some()
    }

    /// The `(app_id, app_secret)` pair, or the message naming the first one
    /// missing and the configuration file (`config_path`, as displayed) where
    /// it can be set by hand.
    pub fn finish(self, config_path: &str) -> (r: Result<(String, String), String>)
        ensures
            match (self.app_id, self.app_secret) {
                (Some(id), Some(sec)) => r matches Ok(p) && p.0@ == id@ && p.1@ == sec@,
                (None, _) => r matches Err(m) && m@ == spec_missing_message("app_id"@, config_path@),
                (Some(_), None) => r matches Err(m) && m@ == spec_missing_message("app_secret"@, config_path@),
            },
    {
        match self.app_id {
            None => {
                let mut m = concat("Could not extract ", "app_id");
                push_str(&mut m, ". Set it manually in ");
                push_str(&mut m, config_path);
                Err(m)
            },
            Some(id) => match self.app_secret {
                None => {
                    let mut m = concat("Could not extract ", "app_secret");
                    push_str(&mut m, ". Set it manually in ");
                    push_str(&mut m, config_path);
                    Err(m)
                },
                Some(sec) => Ok((id, sec)),
            },
        }
    }
}

} // verus!
