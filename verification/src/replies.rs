//! What the library makes of the replies of the Qobuz API: the token of a
//! login, the URL of a stream, the results of a search and the list of a
//! user's playlists, or the error message shown for each refusal.
use vstd::prelude::*;
use vstd::utf8::encode_utf8;
use crate::api::{Album, AlbumList, SearchResults, Track, TrackList};
use crate::credentials::{find_bytes, find_from};
use crate::text::{concat, push_str};

verus! {

/// The reply to a login request.
pub enum LoginReply {
    /// A non-success status (as displayed) with the body of the reply.
    Refused(String, String),
    /// A success; the `user_auth_token` of the body, if it holds one.
    Accepted(Option<String>),
}

/// The token of a login, or the message of its failure.
pub open spec fn spec_login_result(reply: LoginReply) -> Result<Seq<char>, Seq<char>> {
    match reply {
        LoginReply::Refused(status, body) => Err("Login failed ("@ + status@ + "): "@ + body@),
        LoginReply::Accepted(Some(token)) => Ok(token@),
        LoginReply::Accepted(None) => Err("No auth token in response"@),
    }
}

/// A result of strings, by their text.
pub open spec fn result_view(r: Result<String, String>) -> Result<Seq<char>, Seq<char>> {
    match r {
        Ok(s) => Ok(s@),
        Err(e) => Err(e@),
    }
}

/// The user token that an authenticated request carries, or the refusal when
/// nobody has logged in.
pub fn require_token<'a>(token: Option<&'a str>) -> (r: Result<&'a str, String>)
    ensures
        match r {
            Ok(t) => token == Some(t),
            Err(e) => token is None && e@ == "Not authenticated"@,
        },
{
    match token {
        Some(t) => Ok(t),
        None => Err("Not authenticated".to_owned()),
    }
}

/// The user token that a login reply grants, or why the login failed.
pub fn login_result(reply: LoginReply) -> (r: Result<String, String>)
    ensures
        result_view(r) == spec_login_result(reply),
{
    match reply {
        LoginReply::Refused(status, body) => {
            let mut m = concat("Login failed (", status.as_str());
            push_str(&mut m, "): ");
            push_str(&mut m, body.as_str());
            Err(m)
        },
        LoginReply::Accepted(Some(token)) => Ok(token),
        LoginReply::Accepted(None) => Err("No auth token in response".to_owned()),
    }
}

/// The reply to a request for the streaming URL of a track.
pub enum TrackUrlReply {
    /// A non-success status: its code, its display, and the body as text.
    Refused(u16, String, String),
    /// A success whose body is not JSON; the parser's message.
    Malformed(String),
    /// A success: the `url` field of the body, if it has one, and the body
    /// as JSON text.
    Accepted(Option<String>, String),
}

/// Whether `text` holds `word`.
pub open spec fn contains(text: Seq<char>, word: Seq<char>) -> bool {
    find_from(encode_utf8(text), encode_utf8(word), 0) is Some
}

/// The streaming URL, or the message of the failure. A refusal that names
/// the request signature means that the app secret is wrong; the message
/// then points at the configuration file `config_path` (as displayed).
pub open spec fn spec_track_url_result(reply: TrackUrlReply, config_path: Seq<char>) -> Result<Seq<char>, Seq<char>> {
    match reply {
        TrackUrlReply::Refused(code, status, body) => {
            if code == 400 && contains(body@, "request_sig"@) {
                Err("Invalid request signature \u{2014} the app_secret is likely wrong. Edit app_secret in "@ + config_path)
            } else {
                Err("Get track URL failed ("@ + status@ + "): "@ + body@)
            }
        },
        TrackUrlReply::Malformed(e) => Err("Invalid JSON from getFileUrl: "@ + e@),
        TrackUrlReply::Accepted(Some(url), _) => Ok(url@),
        TrackUrlReply::Accepted(None, body) => Err("No URL in response: "@ + body@),
    }
}

/// The streaming URL that a reply grants, or why none can be had.
pub fn track_url_result(reply: TrackUrlReply, config_path: &str) -> (r: Result<String, String>)
    ensures
        result_view(r) == spec_track_url_result(reply, config_path@),
{
    match reply {
        TrackUrlReply::Refused(code, status, body) => {
            let hay = body.as_str().as_bytes();
            let word = "request_sig".as_bytes();
            assert(hay@.subrange(0, hay@.len() as int) =~= hay@);
            let names_signature = match find_bytes(hay, 0, hay.len(), word) {
                Some(_) => true,
                None => false,
            };
            if code == 400 && names_signature {
                Err(concat("Invalid request signature \u{2014} the app_secret is likely wrong. Edit app_secret in ", config_path))
            } else {
                let mut m = concat("Get track URL failed (", status.as_str());
                push_str(&mut m, "): ");
                push_str(&mut m, body.as_str());
                Err(m)
            }
        },
        TrackUrlReply::Malformed(e) => Err(concat("Invalid JSON from getFileUrl: ", e.as_str())),
        TrackUrlReply::Accepted(Some(url), _) => Ok(url),
        TrackUrlReply::Accepted(None, body) => Err(concat("No URL in response: ", body.as_str())),
    }
}

/// The results of a search reply, or the message of the API's error. Tracks
/// and albums are those of the reply that could be read; a missing total
/// counts as zero.
pub fn search_result(
    message: Option<String>,
    tracks: Vec<Track>,
    tracks_total: Option<u64>,
    albums: Vec<Album>,
    albums_total: Option<u64>,
) -> (r: Result<SearchResults, String>)
    ensures
        match message {
            Some(m) => r matches Err(e) && e@ == "API error: "@ + m@,
            None => r matches Ok(res) && {
                &&& res.tracks matches Some(tl) && tl.items@ == tracks@ && tl.total == (match tracks_total {
                    Some(n) => n,
                    None => 0,
                })
                &&& res.albums matches Some(al) && al.items@ == albums@ && al.total == (match albums_total {
                    Some(n) => n,
                    None => 0,
                })
            },
        },
{
    match message {
        Some(m) => Err(concat("API error: ", m.as_str())),
        None => {
            let tt: u64 = match tracks_total {
                Some(n) => n,
                None => 0,
            };
            let at: u64 = match albums_total {
                Some(n) => n,
                None => 0,
            };
            Ok(SearchResults {
                tracks: Some(TrackList { items: tracks, total: tt }),
                albums: Some(AlbumList { items: albums, total: at }),
            })
        },
    }
}

/// Where the playlists of a user-playlists reply are found.
#[derive(Debug, Clone, Copy, PartialEq, Eq, Structural)]
pub enum PlaylistSource {
    /// Under `playlists.items`.
    PlaylistsItems,
    /// Under `items`.
    Items,
    /// The body is the list itself.
    Body,
}

/// The first place of a user-playlists reply that holds the list: the
/// `playlists.items` field, then `items`, then the body when it is a list.
pub open spec fn spec_playlist_source(has_playlists_items: bool, has_items: bool, body_is_array: bool) -> Option<PlaylistSource> {
    if has_playlists_items {
        Some(PlaylistSource::PlaylistsItems)
    } else if has_items {
        Some(PlaylistSource::Items)
    } else if body_is_array {
        Some(PlaylistSource::Body)
    } else {
        None
    }
}

/// Choose where to read the playlists of a reply from; `None` when the
/// reply holds them nowhere.
pub fn playlist_source(has_playlists_items: bool, has_items: bool, body_is_array: bool) -> (r: Option<PlaylistSource>)
    ensures
        r == spec_playlist_source(has_playlists_items, has_items, body_is_array),
{
    if has_playlists_items {
        Some(PlaylistSource::PlaylistsItems)
    } else if has_items {
        Some(PlaylistSource::Items)
    } else if body_is_array {
        Some(PlaylistSource::Body)
    } else {
        None
    }
}

/// Names joined with `, ` between them.
pub open spec fn joined_names(names: Seq<Seq<char>>) -> Seq<char>
    decreases names.len(),
{
    if names.len() == 0 {
        Seq::empty()
    } else if names.len() == 1 {
        names[0]
    } else {
        joined_names(names.drop_last()) + ", "@ + names.last()
    }
}

/// The message for a playlists reply that holds no list, naming the keys
/// of its top level.
pub open spec fn spec_unexpected_keys_message(keys: Seq<Seq<char>>) -> Seq<char> {
    "Unexpected playlist response keys: ["@ + joined_names(keys) + "]"@
}

/// Build the message for a playlists reply that holds no list.
pub fn unexpected_keys_message(keys: &Vec<String>) -> (m: String)
    ensures
        m@ == spec_unexpected_keys_message(keys@.map_values(|k: String| k@)),
{
    let ghost names = keys@.map_values(|k: String| k@);
    let mut joined = String::new();
    let mut i: usize = 0;
    while i < keys.len()
        invariant
            i <= keys@.len(),
            names == keys@.map_values(|k: String| k@),
            joined@ == joined_names(names.take(i as int)),
        decreases keys.len() - i,
    {
        if i > 0 {
            push_str(&mut joined, ", ");
        }
        push_str(&mut joined, keys[i].as_str());
        assert(names.take(i + 1).drop_last() =~= names.take(i as int));
        assert(joined@ =~= joined_names(names.take(i + 1)));
        i = i + 1;
    }
    assert(names.take(keys@.len() as int) =~= names);
    let mut m = concat("Unexpected playlist response keys: [", joined.as_str());
    push_str(&mut m, "]");
    m
}

} // verus!
