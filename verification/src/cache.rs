//! Index of the local audio cache, laid out as `Artist/Album/01 - Title.flac`.
//!
//! The index maps a Qobuz track id to the file's path relative to the cache
//! directory. File names are built from sanitized metadata so that they are
//! valid on common file systems.
use vstd::prelude::*;
use crate::text::{chars_of, decimal, decimal_pad2, push_char, push_decimal_pad2, push_str, string_of_range};

verus! {

/// A character that `str::trim` removes: Unicode `White_Space`.
pub open spec fn is_white_space(c: char) -> bool {
    ||| ('\u{9}' <= c && c <= '\u{d}')
    ||| c == ' '
    ||| c == '\u{85}'
    ||| c == '\u{a0}'
    ||| c == '\u{1680}'
    ||| ('\u{2000}' <= c && c <= '\u{200a}')
    ||| c == '\u{2028}'
    ||| c == '\u{2029}'
    ||| c == '\u{202f}'
    ||| c == '\u{205f}'
    ||| c == '\u{3000}'
}

/// A character that is not allowed in file names and is replaced by `_`.
pub open spec fn is_forbidden_in_name(c: char) -> bool {
    c == '/' || c == '\\' || c == ':' || c == '*' || c == '?' || c == '"' || c == '<' || c == '>'
        || c == '|' || c == '\0'
}

/// The replacement of one character in a file name.
pub open spec fn name_char(c: char) -> char {
    if is_forbidden_in_name(c) {
        '_'
    } else {
        c
    }
}

/// Number of leading white-space characters of `s`.
pub open spec fn leading_ws(s: Seq<char>) -> nat
    decreases s.len(),
{
    if s.len() > 0 && is_white_space(s[0]) {
        1 + leading_ws(s.drop_first())
    } else {
        0
    }
}

/// Number of trailing white-space characters of `s`.
pub open spec fn trailing_ws(s: Seq<char>) -> nat
    decreases s.len(),
{
    if s.len() > 0 && is_white_space(s.last()) {
        1 + trailing_ws(s.drop_last())
    } else {
        0
    }
}

/// `s` without leading and trailing white space (`str::trim`).
pub open spec fn trimmed(s: Seq<char>) -> Seq<char> {
    if leading_ws(s) == s.len() {
        Seq::empty()
    } else {
        s.subrange(leading_ws(s) as int, s.len() - trailing_ws(s))
    }
}

/// A name that a path reads as the current or the parent directory.
pub open spec fn is_dot_name(t: Seq<char>) -> bool {
    t == seq!['.'] || t == seq!['.', '.']
}

/// `.` becomes `_` and `..` becomes `__`, so that no component of a cache
/// path can point at the current or the parent directory; every other name
/// stays as it is (`...` too).
pub open spec fn undotted(t: Seq<char>) -> Seq<char> {
    if is_dot_name(t) {
        Seq::new(t.len(), |i: int| '_')
    } else {
        t
    }
}

/// A name made safe for the file system: forbidden characters become `_`,
/// surrounding white space is removed, and a name that is exactly `.` or
/// `..` becomes as many `_`.
pub open spec fn sanitized(s: Seq<char>) -> Seq<char> {
    undotted(trimmed(s.map_values(|c: char| name_char(c))))
}

proof fn lemma_leading_ws_bound(s: Seq<char>)
    ensures
        leading_ws(s) <= s.len(),
        forall|i: int| 0 <= i < leading_ws(s) ==> is_white_space(#[trigger] s[i]),
        leading_ws(s) < s.len() ==> !is_white_space(s[leading_ws(s) as int]),
    decreases s.len(),
{
    if s.len() > 0 && is_white_space(s[0]) {
        lemma_leading_ws_bound(s.drop_first());
        assert forall|i: int| 0 <= i < leading_ws(s) implies is_white_space(#[trigger] s[i]) by {
            if i > 0 {
                assert(s[i] == s.drop_first()[i - 1]);
            }
        }
    }
}

proof fn lemma_trailing_ws_bound(s: Seq<char>)
    ensures
        trailing_ws(s) <= s.len(),
        forall|i: int| s.len() - trailing_ws(s) <= i < s.len() ==> is_white_space(#[trigger] s[i]),
        trailing_ws(s) < s.len() ==> !is_white_space(s[s.len() - trailing_ws(s) - 1]),
    decreases s.len(),
{
    if s.len() > 0 && is_white_space(s.last()) {
        lemma_trailing_ws_bound(s.drop_last());
        assert forall|i: int| s.len() - trailing_ws(s) <= i < s.len() implies is_white_space(
            #[trigger] s[i],
        ) by {
            if i < s.len() - 1 {
                assert(s[i] == s.drop_last()[i]);
            }
        }
    }
}

/// Whether a character is Unicode white space.
fn is_white_space_char(c: char) -> (b: bool)
    ensures
        b == is_white_space(c),
{
    ('\u{9}' <= c && c <= '\u{d}') || c == ' ' || c == '\u{85}' || c == '\u{a0}' || c == '\u{1680}'
        || ('\u{2000}' <= c && c <= '\u{200a}') || c == '\u{2028}' || c == '\u{2029}' || c
        == '\u{202f}' || c == '\u{205f}' || c == '\u{3000}'
}

/// Sanitize a string for use as a file or directory name: forbidden
/// characters become `_` and surrounding white space goes. As a path-safety
/// rule on top of that, a name that is exactly `.` or `..` becomes `_` or
/// `__`, so that it can never name the current or the parent directory;
/// any other run of dots, such as `...`, is kept.
pub fn sanitize(s: &str) -> (r: String)
    ensures
        r@ == sanitized(s@),
{
    let chars = chars_of(s);
    let mut mapped: Vec<char> = Vec::new();
    let mut i: usize = 0;
    while i < chars.len()
        invariant
            i <= chars.len(),
            chars@ == s@,
            mapped@ == s@.take(i as int).map_values(|c: char| name_char(c)),
        decreases chars.len() - i,
    {
        let c = chars[i];
        let m = if c == '/' || c == '\\' || c == ':' || c == '*' || c == '?' || c == '"' || c == '<'
            || c == '>' || c == '|' || c == '\0' {
            '_'
        } else {
            c
        };
        mapped.push(m);
        assert(s@.take(i + 1).map_values(|c: char| name_char(c)) =~= mapped@);
        i = i + 1;
    }
    assert(s@.take(chars.len() as int) =~= s@);
    let ghost m = mapped@;
    proof {
        lemma_leading_ws_bound(m);
        lemma_trailing_ws_bound(m);
    }
    let mut start: usize = 0;
    while start < mapped.len() && is_white_space_char(mapped[start])
        invariant
            m == mapped@,
            start <= leading_ws(m),
            leading_ws(m) <= m.len(),
            forall|i: int| 0 <= i < leading_ws(m) ==> is_white_space(#[trigger] m[i]),
            leading_ws(m) < m.len() ==> !is_white_space(m[leading_ws(m) as int]),
        decreases mapped.len() - start,
    {
        start = start + 1;
    }
    assert(start == leading_ws(m));
    if start == mapped.len() {
        return String::new();
    }
    let mut end: usize = mapped.len();
    while end > start && is_white_space_char(mapped[end - 1])
        invariant
            m == mapped@,
            start == leading_ws(m) < m.len(),
            start <= end <= m.len(),
            m.len() - end <= trailing_ws(m),
            trailing_ws(m) <= m.len(),
            forall|i: int| m.len() - trailing_ws(m) <= i < m.len() ==> is_white_space(#[trigger] m[i]),
            trailing_ws(m) < m.len() ==> !is_white_space(m[m.len() - trailing_ws(m) - 1]),
        decreases end,
    {
        end = end - 1;
    }
    assert(end == m.len() - trailing_ws(m));
    let ghost t = m.subrange(start as int, end as int);
    assert(t == trimmed(m));
    let len: usize = end - start;
    let one_dot = len == 1 && mapped[start] == '.';
    let two_dots = len == 2 && mapped[start] == '.' && mapped[start + 1] == '.';
    if one_dot {
        assert(t =~= seq!['.']);
        let u = "_".to_owned();
        proof {
            reveal_strlit("_");
        }
        assert(u@ =~= undotted(t));
        u
    } else if two_dots {
        assert(t =~= seq!['.', '.']);
        let u = "__".to_owned();
        proof {
            reveal_strlit("__");
        }
        assert(u@ =~= undotted(t));
        u
    } else {
        assert(!is_dot_name(t)) by {
            if t == seq!['.'] {
                assert(t[0] == m[start as int]);
            }
            if t == seq!['.', '.'] {
                assert(t[0] == m[start as int]);
                assert(t[1] == m[start + 1]);
            }
        }
        string_of_range(&mapped, start, end)
    }
}

/// `trimmed` leaves no white space at either end of a non-empty result.
proof fn lemma_trimmed_ends(s: Seq<char>)
    ensures
        trimmed(s).len() > 0 ==> !is_white_space(trimmed(s)[0]) && !is_white_space(
            trimmed(s).last(),
        ),
        leading_ws(s) + trimmed(s).len() <= s.len(),
        forall|i: int| 0 <= i < trimmed(s).len() ==> #[trigger] trimmed(s)[i] == s[leading_ws(s) + i],
{
    lemma_leading_ws_bound(s);
    lemma_trailing_ws_bound(s);
    if leading_ws(s) < s.len() {
        assert(leading_ws(s) < s.len() - trailing_ws(s));
    }
}

/// What `sanitize` gives back is clean: it holds no forbidden character, has
/// no white space at either end, is neither `.` nor `..`, and sanitizing it
/// again changes nothing.
pub proof fn lemma_sanitize_clean(s: Seq<char>)
    ensures
        forall|i: int| 0 <= i < sanitized(s).len() ==> !is_forbidden_in_name(#[trigger] sanitized(s)[i]),
        sanitized(s).len() > 0 ==> !is_white_space(sanitized(s)[0]) && !is_white_space(
            sanitized(s).last(),
        ),
        !is_dot_name(sanitized(s)),
        sanitized(sanitized(s)) == sanitized(s),
{
    let m = s.map_values(|c: char| name_char(c));
    let t = trimmed(m);
    let r = sanitized(s);
    lemma_trimmed_ends(m);
    lemma_leading_ws_bound(m);
    if is_dot_name(t) {
        assert(r =~= Seq::new(t.len(), |i: int| '_'));
        assert(r[0] == '_');
        assert(r != seq!['.']) by {
            assert(seq!['.'][0] == '.');
        }
        assert(r != seq!['.', '.']) by {
            assert(seq!['.', '.'][0] == '.');
        }
    } else {
        assert(r == t);
        assert forall|i: int| 0 <= i < r.len() implies !is_forbidden_in_name(#[trigger] r[i]) by {
            let j = leading_ws(m) + i;
            assert(r[i] == m[j]);
            assert(m[j] == name_char(s[j]));
        }
    }
    assert(r.map_values(|c: char| name_char(c)) =~= r);
    if r.len() > 0 {
        assert(leading_ws(r) == 0);
        assert(trailing_ws(r) == 0);
        assert(trimmed(r) =~= r);
    } else {
        assert(trimmed(r) =~= r);
    }
}

} // verus!

verus! {

/// `base` joined with a relative component, as `Path::join` does for a
/// component that is not absolute.
pub open spec fn joined(base: Seq<char>, comp: Seq<char>) -> Seq<char> {
    if base.len() == 0 {
        comp
    } else if base.last() == '/' {
        base + comp
    } else {
        base + seq!['/'] + comp
    }
}

/// Join a relative path component onto a path.
pub fn join_path(base: &String, comp: &str) -> (r: String)
    ensures
        r@ == joined(base@, comp@),
{
    let b = chars_of(base.as_str());
    let mut r = base.clone();
    if b.len() == 0 {
        r = comp.to_owned();
    } else if b[b.len() - 1] == '/' {
        push_str(&mut r, comp);
    } else {
        push_char(&mut r, '/');
        push_str(&mut r, comp);
        assert(base@.push('/') + comp@ =~= base@ + seq!['/'] + comp@);
    }
    r
}

/// Metadata for building cache file paths (`Artist/Album/01 - Title.flac`).
pub struct TrackMeta<'a> {
    pub artist: &'a str,
    pub album: &'a str,
    pub track_number: Option<u32>,
    pub title: &'a str,
}

/// File name of a cached track: `NN - Title.flac` when the track number is
/// positive, `Title.flac` otherwise.
pub open spec fn spec_file_name(track_number: Option<u32>, title: Seq<char>) -> Seq<char> {
    let num: u32 = match track_number {
        Some(n) => n,
        None => 0,
    };
    if num > 0 {
        decimal_pad2(num as nat) + " - "@ + sanitized(title) + ".flac"@
    } else {
        sanitized(title) + ".flac"@
    }
}

/// Directory of a cached track relative to the cache root: `Artist/Album`.
pub open spec fn spec_album_dir(artist: Seq<char>, album: Seq<char>) -> Seq<char> {
    joined(sanitized(artist), sanitized(album))
}

/// Path of a cached track relative to the cache root.
pub open spec fn spec_relative_path(meta: TrackMeta) -> Seq<char> {
    joined(spec_album_dir(meta.artist@, meta.album@), spec_file_name(meta.track_number, meta.title@))
}

/// File name of the cached audio for `meta`.
pub fn audio_file_name(meta: &TrackMeta) -> (name: String)
    ensures
        name@ == spec_file_name(meta.track_number, meta.title@),
{
    let num: u32 = match meta.track_number {
        Some(n) => n,
        None => 0,
    };
    let title = sanitize(meta.title);
    let mut name = String::new();
    if num > 0 {
        push_decimal_pad2(&mut name, num as u64);
        push_str(&mut name, " - ");
    }
    push_str(&mut name, title.as_str());
    push_str(&mut name, ".flac");
    proof {
        if num > 0 {
            assert(name@ =~= decimal_pad2(num as nat) + " - "@ + sanitized(meta.title@) + ".flac"@);
        } else {
            assert(name@ =~= sanitized(meta.title@) + ".flac"@);
        }
    }
    name
}

/// Directory of the cached audio for `meta`, relative to the cache root.
pub fn album_dir(meta: &TrackMeta) -> (dir: String)
    ensures
        dir@ == spec_album_dir(meta.artist@, meta.album@),
{
    let artist = sanitize(meta.artist);
    let album = sanitize(meta.album);
    join_path(&artist, album.as_str())
}

/// Path of the cached audio for `meta`, relative to the cache root.
pub fn relative_path(meta: &TrackMeta) -> (path: String)
    ensures
        path@ == spec_relative_path(*meta),
{
    let dir = album_dir(meta);
    let name = audio_file_name(meta);
    join_path(&dir, name.as_str())
}

/// A path component that stays where it is put: non-empty, without `/`, and
/// neither `.` nor `..`.
pub open spec fn is_safe_component(c: Seq<char>) -> bool {
    &&& c.len() > 0
    &&& forall|i: int| 0 <= i < c.len() ==> #[trigger] c[i] != '/'
    &&& c != seq!['.']
    &&& c != seq!['.', '.']
}

/// Components joined with `/` between them.
pub open spec fn slash_joined(parts: Seq<Seq<char>>) -> Seq<char>
    decreases parts.len(),
{
    if parts.len() == 0 {
        Seq::empty()
    } else if parts.len() == 1 {
        parts[0]
    } else {
        slash_joined(parts.drop_last()) + seq!['/'] + parts.last()
    }
}

/// The components of a cached track's relative path: the sanitized artist
/// and album where they are not empty, then the file name.
pub open spec fn path_parts(meta: TrackMeta) -> Seq<Seq<char>> {
    let a = sanitized(meta.artist@);
    let b = sanitized(meta.album@);
    let dirs = (if a.len() > 0 { seq![a] } else { Seq::empty() }) + (if b.len() > 0 {
        seq![b]
    } else {
        Seq::empty()
    });
    dirs.push(spec_file_name(meta.track_number, meta.title@))
}

proof fn lemma_decimal_no_slash(n: nat)
    ensures
        forall|i: int| 0 <= i < decimal(n).len() ==> #[trigger] decimal(n)[i] != '/',
    decreases n,
{
    if n >= 10 {
        lemma_decimal_no_slash(n / 10);
        let d = decimal(n / 10);
        assert forall|i: int| 0 <= i < decimal(n).len() implies #[trigger] decimal(n)[i] != '/' by {
            if i < d.len() {
                assert(decimal(n)[i] == d[i]);
            }
        }
    }
}

proof fn lemma_file_name_safe(track_number: Option<u32>, title: Seq<char>)
    ensures
        is_safe_component(spec_file_name(track_number, title)),
{
    reveal_strlit(" - ");
    reveal_strlit(".flac");
    lemma_sanitize_clean(title);
    let f = spec_file_name(track_number, title);
    let t = sanitized(title);
    let num: u32 = match track_number {
        Some(n) => n,
        None => 0,
    };
    if num > 0 {
        let p = decimal_pad2(num as nat);
        lemma_decimal_no_slash(num as nat);
        assert forall|i: int| 0 <= i < f.len() implies #[trigger] f[i] != '/' by {
            if i < p.len() {
                assert(f[i] == p[i]);
                if num >= 10 {
                    assert(p[i] == decimal(num as nat)[i]);
                }
            } else if i < p.len() + 3 {
                assert(f[i] == " - "@[i - p.len()]);
            } else if i < p.len() + 3 + t.len() {
                assert(f[i] == t[i - p.len() - 3]);
            } else {
                assert(f[i] == ".flac"@[i - p.len() - 3 - t.len()]);
            }
        }
    } else {
        assert forall|i: int| 0 <= i < f.len() implies #[trigger] f[i] != '/' by {
            if i < t.len() {
                assert(f[i] == t[i]);
            } else {
                assert(f[i] == ".flac"@[i - t.len()]);
            }
        }
    }
    assert(f.len() >= 5);
}

proof fn lemma_sanitized_safe(s: Seq<char>)
    ensures
        sanitized(s).len() > 0 ==> is_safe_component(sanitized(s)),
{
    lemma_sanitize_clean(s);
    let r = sanitized(s);
    assert forall|i: int| 0 <= i < r.len() implies #[trigger] r[i] != '/' by {
        assert(!is_forbidden_in_name(r[i]));
    }
}

/// A cached track's relative path is its safe components joined with `/`:
/// no component is empty, holds a `/`, or is `.` or `..`, so the path never
/// leaves the cache directory, whatever the metadata holds.
pub proof fn lemma_relative_path_stays_inside(meta: TrackMeta)
    ensures
        spec_relative_path(meta) == slash_joined(path_parts(meta)),
        forall|i: int| 0 <= i < path_parts(meta).len() ==> is_safe_component(#[trigger] path_parts(meta)[i]),
        spec_relative_path(meta).len() > 0,
        spec_relative_path(meta)[0] != '/',
{
    let a = sanitized(meta.artist@);
    let b = sanitized(meta.album@);
    let f = spec_file_name(meta.track_number, meta.title@);
    let parts = path_parts(meta);
    lemma_sanitized_safe(meta.artist@);
    lemma_sanitized_safe(meta.album@);
    lemma_file_name_safe(meta.track_number, meta.title@);
    assert(f.len() > 0);
    if a.len() > 0 {
        assert(a.last() != '/');
    }
    if b.len() > 0 {
        assert(b.last() != '/');
    }
    if a.len() > 0 && b.len() > 0 {
        assert(parts =~= seq![a, b, f]);
        assert(parts.drop_last() =~= seq![a, b]);
        assert(parts.drop_last().drop_last() =~= seq![a]);
        let ab = a + seq!['/'] + b;
        assert(ab.last() == b.last());
        assert(slash_joined(seq![a]) == a);
        assert(slash_joined(parts.drop_last()) == ab);
        assert(spec_album_dir(meta.artist@, meta.album@) == ab);
        assert(spec_relative_path(meta) == ab + seq!['/'] + f);
        assert(spec_relative_path(meta) =~= slash_joined(parts));
        assert(spec_relative_path(meta)[0] == a[0]);
    } else if a.len() > 0 {
        assert(parts =~= seq![a, f]);
        assert(parts.drop_last() =~= seq![a]);
        let d = a + seq!['/'] + b;
        assert(d =~= a + seq!['/']);
        assert(d.last() == '/');
        assert(spec_album_dir(meta.artist@, meta.album@) == d);
        assert(spec_relative_path(meta) =~= d + f);
        assert(slash_joined(parts.drop_last()) == a);
        assert(parts.last() == f);
        assert(slash_joined(parts) == a + seq!['/'] + f);
        assert(spec_relative_path(meta) =~= slash_joined(parts));
        assert(spec_relative_path(meta)[0] == a[0]);
    } else if b.len() > 0 {
        assert(parts =~= seq![b, f]);
        assert(parts.drop_last() =~= seq![b]);
        assert(slash_joined(parts.drop_last()) == b);
        assert(parts.last() == f);
        assert(spec_album_dir(meta.artist@, meta.album@) == b);
        assert(spec_relative_path(meta) == b + seq!['/'] + f);
        assert(spec_relative_path(meta) =~= slash_joined(parts));
        assert(spec_relative_path(meta)[0] == b[0]);
    } else {
        assert(parts =~= seq![f]);
        assert(spec_relative_path(meta) =~= slash_joined(parts));
    }
    assert forall|i: int| 0 <= i < parts.len() implies is_safe_component(#[trigger] parts[i]) by {
    }
}

/// The index described by a list of entries: later entries take precedence.
pub open spec fn entries_map(entries: Seq<(String, String)>) -> Map<Seq<char>, Seq<char>>
    decreases entries.len(),
{
    if entries.len() == 0 {
        Map::empty()
    } else {
        entries_map(entries.drop_last()).insert(entries.last().0@, entries.last().1@)
    }
}

/// No track id occurs twice in the entries.
pub open spec fn ids_distinct(entries: Seq<(String, String)>) -> bool {
    forall|i: int, j: int|
        0 <= i < j < entries.len() ==> #[trigger] entries[i].0@ != #[trigger] entries[j].0@
}

proof fn lemma_entries_map_contains(entries: Seq<(String, String)>, k: Seq<char>)
    ensures
        entries_map(entries).contains_key(k) <==> exists|i: int|
            0 <= i < entries.len() && #[trigger] entries[i].0@ == k,
    decreases entries.len(),
{
    if entries.len() > 0 {
        let dl = entries.drop_last();
        lemma_entries_map_contains(dl, k);
        if entries_map(entries).contains_key(k) {
            if entries.last().0@ != k {
                let i = choose|i: int| 0 <= i < dl.len() && #[trigger] dl[i].0@ == k;
                assert(entries[i].0@ == k);
            } else {
                assert(entries[entries.len() - 1].0@ == k);
            }
        } else {
            assert forall|i: int| 0 <= i < entries.len() implies #[trigger] entries[i].0@ != k by {
                if i < entries.len() - 1 {
                    assert(entries[i] == dl[i]);
                }
            }
        }
    }
}

proof fn lemma_entries_map_value(entries: Seq<(String, String)>, i: int)
    requires
        ids_distinct(entries),
        0 <= i < entries.len(),
    ensures
        entries_map(entries).contains_key(entries[i].0@),
        entries_map(entries)[entries[i].0@] == entries[i].1@,
    decreases entries.len(),
{
    let dl = entries.drop_last();
    if i < entries.len() - 1 {
        assert(dl[i] == entries[i]);
        assert(ids_distinct(dl));
        lemma_entries_map_value(dl, i);
        assert(entries[i].0@ != entries[entries.len() - 1].0@);
    }
}

proof fn lemma_entries_map_update(entries: Seq<(String, String)>, i: int, e: (String, String))
    requires
        ids_distinct(entries),
        0 <= i < entries.len(),
        entries[i].0@ == e.0@,
    ensures
        entries_map(entries.update(i, e)) == entries_map(entries).insert(e.0@, e.1@),
        ids_distinct(entries.update(i, e)),
    decreases entries.len(),
{
    let u = entries.update(i, e);
    let dl = entries.drop_last();
    assert(u.drop_last() =~= if i < entries.len() - 1 { dl.update(i, e) } else { dl });
    if i < entries.len() - 1 {
        assert(ids_distinct(dl));
        lemma_entries_map_update(dl, i, e);
        assert(entries[i].0@ != entries[entries.len() - 1].0@);
        assert(entries_map(u) =~= entries_map(entries).insert(e.0@, e.1@));
    } else {
        assert(entries_map(u) =~= entries_map(entries).insert(e.0@, e.1@));
    }
}

/// In-memory index of the audio cache: track id to path relative to the
/// cache directory. Each track id occurs at most once.
pub struct AudioCache {
    cache_dir: String,
    entries: Vec<(String, String)>,
}

impl AudioCache {
    /// The index as a map from track id to relative path.
    pub closed spec fn index(&self) -> Map<Seq<char>, Seq<char>> {
        entries_map(self.entries@)
    }

    /// The cache directory.
    pub closed spec fn dir(&self) -> Seq<char> {
        self.cache_dir@
    }

    #[verifier::type_invariant]
    spec fn ids_unique(&self) -> bool {
        ids_distinct(self.entries@)
    }

    /// An empty index for the cache rooted at `cache_dir`.
    pub fn with_dir(cache_dir: String) -> (c: AudioCache)
        ensures
            c.index() == Map::<Seq<char>, Seq<char>>::empty(),
            c.dir() == cache_dir@,
    {
        AudioCache { cache_dir, entries: Vec::new() }
    }

    /// The cache directory.
    pub fn cache_dir(&self) -> (d: &String)
        ensures
            d@ == self.dir(),
    {
        &self.cache_dir
    }

    /// Position of a track id in the entries.
    fn find(&self, track_id: &str) -> (pos: Option<usize>)
        ensures
            match pos {
                Some(i) => i < self.entries.len() && self.entries@[i as int].0@ == track_id@,
                None => forall|i: int| 0 <= i < self.entries.len() ==> #[trigger] self.entries@[i].0@ != track_id@,
            },
    {
        let mut i: usize = 0;
        while i < self.entries.len()
            invariant
                i <= self.entries.len(),
                forall|j: int| 0 <= j < i ==> #[trigger] self.entries@[j].0@ != track_id@,
            decreases self.entries.len() - i,
        {
            if str_eq(self.entries[i].0.as_str(), track_id) {
                return Some(i);
            }
            i = i + 1;
        }
        None
    }

    /// Check if a track is in the cache index (without reading the file).
    pub fn has(&self, track_id: &str) -> (b: bool)
        ensures
            b == self.index().contains_key(track_id@),
    {
        proof { lemma_entries_map_contains(self.entries@, track_id@); }
        match self.find(track_id) {
            Some(i) => true,
            None => false,
        }
    }

    /// The path of a cached track relative to the cache directory.
    pub fn lookup(&self, track_id: &str) -> (p: Option<String>)
        ensures
            match p {
                Some(path) => self.index().contains_key(track_id@) && path@ == self.index()[track_id@],
                None => !self.index().contains_key(track_id@),
            },
    {
        proof {
            use_type_invariant(self);
            lemma_entries_map_contains(self.entries@, track_id@);
        }
        match self.find(track_id) {
            Some(i) => {
                proof { lemma_entries_map_value(self.entries@, i as int); }
                Some(self.entries[i].1.clone())
            },
            None => None,
        }
    }

    /// Record that `track_id` is cached at `rel_path` (relative to the cache
    /// directory), replacing any earlier path of that track.
    pub fn insert(&mut self, track_id: &str, rel_path: String)
        ensures
            final(self).index() == old(self).index().insert(track_id@, rel_path@),
            final(self).dir() == old(self).dir(),
    {
        proof { use_type_invariant(&*self); }
        let pos = self.find(track_id);
        let id = track_id.to_owned();
        let mut entries: Vec<(String, String)> = Vec::new();
        std::mem::swap(&mut entries, &mut self.entries);
        let ghost old_entries = entries@;
        match pos {
            Some(i) => {
                proof { lemma_entries_map_update(old_entries, i as int, (id, rel_path)); }
                entries.set(i, (id, rel_path));
            },
            None => {
                entries.push((id, rel_path));
                assert(entries@.drop_last() =~= old_entries);
            },
        }
        self.entries = entries;
    }

    /// Register a newly cached track in the in-memory index, at the path that
    /// its metadata gives.
    pub fn register(&mut self, track_id: &str, meta: &TrackMeta)
        ensures
            final(self).index() == old(self).index().insert(track_id@, spec_relative_path(*meta)),
            final(self).dir() == old(self).dir(),
    {
        let path = relative_path(meta);
        self.insert(track_id, path);
    }
}

/// A registered track is found at the path its metadata gives, and every
/// other track keeps its entry: what a lookup gives back of a registration.
pub proof fn lemma_register_then_lookup(
    before: AudioCache,
    after: AudioCache,
    id: Seq<char>,
    meta: TrackMeta,
    other: Seq<char>,
)
    requires
        after.index() == before.index().insert(id, spec_relative_path(meta)),
    ensures
        after.index().contains_key(id),
        after.index()[id] == spec_relative_path(meta),
        other != id ==> (after.index().contains_key(other) == before.index().contains_key(other)),
        other != id && before.index().contains_key(other) ==> after.index()[other]
            == before.index()[other],
{
}

/// Equality of two string slices.
fn str_eq(a: &str, b: &str) -> (r: bool)
    ensures
        r == (a@ == b@),
{
    let x = chars_of(a);
    let y = chars_of(b);
    if x.len() != y.len() {
        return false;
    }
    let mut i: usize = 0;
    while i < x.len()
        invariant
            x@ == a@,
            y@ == b@,
            x.len() == y.len(),
            i <= x.len(),
            forall|j: int| 0 <= j < i ==> x@[j] == y@[j],
        decreases x.len() - i,
    {
        if x[i] != y[i] {
            return false;
        }
        i = i + 1;
    }
    assert(x@ =~= y@);
    true
}

} // verus!
