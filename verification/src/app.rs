//! The interactive application as a state machine: screens, tabs, the login
//! form, search results, favorites, playlists, the play queue and the status
//! line. Each input (a key press, a message from a background task, a clock
//! tick) updates the state and yields the effects that the front end carries
//! out (audio output, network requests, configuration writes).
use vstd::prelude::*;
use crate::api::{Album, Playlist, Track, same_album, same_playlist};
use crate::cache::AudioCache;
use crate::config::{Config, spec_has_app_credentials, spec_is_logged_in};
use crate::session::{SessionTrack, spec_session_of, spec_track_of};
use crate::text::{concat, concat3, decimal, pop_char, push_char, push_decimal, push_str};

verus! {

/// How long a temporary status message stays, in milliseconds.
pub const STATUS_LIFETIME_MS: u64 = 3000;

/// Number of seconds a seek key moves.
pub const SEEK_STEP_SECS: u64 = 10;

/// Seconds before the end of a track at which the next one is fetched.
pub const PREFETCH_LEAD_SECS: u64 = 15;

/// The screen shown.
#[derive(Debug, Clone, Copy, PartialEq, Eq, Structural)]
pub enum Screen {
    Login,
    Main,
    AlbumView,
    PlaylistView,
}

/// The tab of the main screen.
#[derive(Debug, Clone, Copy, PartialEq, Eq, Structural)]
pub enum Tab {
    Search,
    Favorites,
    Playlists,
}

/// The focused element of the login form.
#[derive(Debug, Clone, Copy, PartialEq, Eq, Structural)]
pub enum LoginField {
    Email,
    Password,
    Submit,
}

/// What happens when the current track ends.
#[derive(Debug, Clone, Copy, PartialEq, Eq, Structural)]
pub enum LoopMode {
    Off,
    Track,
    Queue,
}

/// Which kind of search result is listed.
#[derive(Debug, Clone, Copy, PartialEq, Eq, Structural)]
pub enum SearchMode {
    Tracks,
    Albums,
}

/// The next loop mode: Off → Track → Queue → Off.
pub open spec fn spec_next_loop(m: LoopMode) -> LoopMode {
    match m {
        LoopMode::Off => LoopMode::Track,
        LoopMode::Track => LoopMode::Queue,
        LoopMode::Queue => LoopMode::Off,
    }
}

/// The indicator shown for a loop mode.
pub open spec fn spec_loop_label(m: LoopMode) -> Seq<char> {
    match m {
        LoopMode::Off => ""@,
        LoopMode::Track => "[LOOP:TRACK]"@,
        LoopMode::Queue => "[LOOP:ALL]"@,
    }
}

/// The number under which a loop mode is saved: 0 = Off, 1 = Track, 2 = Queue.
pub open spec fn spec_loop_code(m: LoopMode) -> u8 {
    match m {
        LoopMode::Off => 0,
        LoopMode::Track => 1,
        LoopMode::Queue => 2,
    }
}

/// The loop mode of a saved number; unknown numbers mean Off.
pub open spec fn spec_loop_of_code(c: u8) -> LoopMode {
    if c == 1 {
        LoopMode::Track
    } else if c == 2 {
        LoopMode::Queue
    } else {
        LoopMode::Off
    }
}

impl LoopMode {
    /// Cycle to the next loop mode.
    pub fn next(&self) -> (m: LoopMode)
        ensures
            m == spec_next_loop(*self),
    {
        match self {
            LoopMode::Off => LoopMode::Track,
            LoopMode::Track => LoopMode::Queue,
            LoopMode::Queue => LoopMode::Off,
        }
    }

    /// Indicator shown in the player bar.
    pub fn label(&self) -> (s: &'static str)
        ensures
            s@ == spec_loop_label(*self),
    {
        match self {
            LoopMode::Off => "",
            LoopMode::Track => "[LOOP:TRACK]",
            LoopMode::Queue => "[LOOP:ALL]",
        }
    }

    /// The number under which the mode is saved.
    pub fn code(&self) -> (c: u8)
        ensures
            c == spec_loop_code(*self),
    {
        match self {
            LoopMode::Off => 0,
            LoopMode::Track => 1,
            LoopMode::Queue => 2,
        }
    }

    /// The loop mode of a saved number (unknown numbers mean Off).
    pub fn from_code(c: u8) -> (m: LoopMode)
        ensures
            m == spec_loop_of_code(c),
    {
        if c == 1 {
            LoopMode::Track
        } else if c == 2 {
            LoopMode::Queue
        } else {
            LoopMode::Off
        }
    }
}

/// Cycling the loop mode three times gives back the starting mode, and no
/// fewer cycles do.
pub proof fn lemma_loop_cycle(m: LoopMode)
    ensures
        spec_next_loop(spec_next_loop(spec_next_loop(m))) == m,
        spec_next_loop(m) != m,
        spec_next_loop(spec_next_loop(m)) != m,
{
}

/// A saved loop mode is restored as the same mode.
pub proof fn lemma_loop_code_round_trip(m: LoopMode)
    ensures
        spec_loop_of_code(spec_loop_code(m)) == m,
{
}

/// Scroll offset that keeps `selected` visible in a window of `visible_height` rows.
pub open spec fn spec_scroll_offset(selected: usize, current_offset: usize, visible_height: usize) -> int {
    if visible_height == 0 {
        0
    } else if selected < current_offset {
        selected as int
    } else if selected >= current_offset + visible_height {
        selected - visible_height + 1
    } else {
        current_offset as int
    }
}

/// Compute scroll offset to keep `selected` visible in a window of `visible_height`.
pub fn scroll_offset(selected: usize, current_offset: usize, visible_height: usize) -> (r: usize)
    ensures
        r == spec_scroll_offset(selected, current_offset, visible_height),
{
    if visible_height == 0 {
        return 0;
    }
    if selected < current_offset {
        selected
    } else if selected - current_offset >= visible_height {
        selected - visible_height + 1
    } else {
        current_offset
    }
}

/// The selected row is inside the window that starts at the new offset, and
/// the window moves only when the row was outside it.
pub proof fn lemma_scroll_keeps_selection_visible(selected: usize, current_offset: usize, visible_height: usize)
    requires
        visible_height > 0,
    ensures
        spec_scroll_offset(selected, current_offset, visible_height) <= selected
            < spec_scroll_offset(selected, current_offset, visible_height) + visible_height,
        current_offset <= selected < current_offset + visible_height ==> spec_scroll_offset(
            selected,
            current_offset,
            visible_height,
        ) == current_offset,
{
}

} // verus!

verus! {

/// A key as the application sees it.
#[derive(Debug, Clone, Copy, PartialEq, Eq, Structural)]
pub enum Key {
    Char(char),
    Enter,
    Tab,
    BackTab,
    Backspace,
    Up,
    Down,
    Left,
    Right,
    Esc,
    Other,
}

/// A key press, with whether Control was held.
#[derive(Debug, Clone, Copy, PartialEq, Eq, Structural)]
pub struct KeyInput {
    pub key: Key,
    pub ctrl: bool,
}

/// Messages sent by background tasks to the application. `Buf` is the
/// streaming buffer handed to the audio output.
pub enum AppMessage<Buf> {
    CredentialsFetched(String, String),
    CredentialsError(String),
    LoginSuccess(String, String, String),
    LoginError(String),
    SearchResults(Vec<Track>, Vec<Album>),
    SearchError(String),
    FavoritesResults(Vec<Album>),
    FavoritesError(String),
    /// Streaming buffer ready for playback: buffer, title, artist, duration, format_id.
    StreamReady(Buf, String, String, u64, u32),
    /// Temporary status message (e.g. quality fallback notification).
    StatusMessage(String),
    /// Download error.
    AudioError(String),
    AlbumLoaded(Album),
    AlbumError(String),
    DownloadProgress(usize, usize),
    DownloadDone,
    DownloadError(String),
    /// Stream download completed: data and track id.
    StreamCached(Vec<u8>, String),
    FavoriteToggled(String, bool),
    FavoriteToggleError(String),
    PlaylistsLoaded(Vec<Playlist>),
    PlaylistsError(String),
    PlaylistLoaded(Playlist),
    PlaylistError(String),
}

/// Work that the front end carries out on behalf of the application.
pub enum Effect<Buf> {
    /// Fetch the API credentials from the web player.
    FetchCredentials,
    /// Save the configuration and rebuild the API client from it, with the
    /// user token when `with_token` holds.
    Reconfigure { with_token: bool },
    /// Play a streaming buffer: buffer, title, artist, duration, format_id.
    PlayStreaming(Buf, String, String, u64, u32),
    /// Playback failed; stop showing it as loading.
    PlayerError,
    /// Keep the downloaded data of the current track so that it can be sought.
    EnableSeek(Vec<u8>),
    VolumeDown,
    VolumeUp,
    TogglePause,
    /// Seek back by this many seconds.
    SeekBackward(u64),
    /// Seek forward by this many seconds.
    SeekForward(u64),
    /// Play a track (from the cache when it is there, else by streaming).
    PlayTrack(Track),
    /// Download a track into the cache ahead of time.
    Prefetch(Track),
    /// Stop playback and forget the current track.
    ClearPlayer,
    LoadFavorites,
    LoadPlaylists,
    /// Search the catalogue.
    Search(String),
    OpenAlbum(String),
    OpenPlaylist(String),
    /// Add (`true`) or remove (`false`) an album from the favorites.
    ToggleFavorite(String, bool),
    /// Download tracks into the cache: tracks, album title, album artist.
    DownloadAlbum(Vec<Track>, String, String),
    /// Log in: app id, app secret, email, password.
    Login(String, String, String, String),
}

/// Application state, without the audio output and network clients.
pub struct App {
    pub screen: Screen,
    pub should_quit: bool,
    pub tab: Tab,
    pub login_email: String,
    pub login_password: String,
    pub login_focus: LoginField,
    pub login_error: Option<String>,
    pub login_loading: bool,
    pub login_status: Option<String>,
    pub search_query: String,
    pub search_tracks: Vec<Track>,
    pub search_albums: Vec<Album>,
    pub search_selected: usize,
    pub search_scroll: usize,
    pub search_mode: SearchMode,
    pub favorite_albums: Vec<Album>,
    pub favorites_selected: usize,
    pub favorites_scroll: usize,
    pub favorites_loaded: bool,
    pub album: Option<Album>,
    pub album_tracks: Vec<Track>,
    pub album_selected: usize,
    pub album_scroll: usize,
    pub playlists: Vec<Playlist>,
    pub playlists_selected: usize,
    pub playlists_scroll: usize,
    pub playlists_loaded: bool,
    pub playlist_tracks: Vec<Track>,
    pub playlist_name: Option<String>,
    pub playlist_selected: usize,
    pub playlist_scroll: usize,
    pub queue: Vec<Track>,
    pub queue_index: usize,
    pub loop_mode: LoopMode,
    pub next_track_prefetched: bool,
    pub status_message: Option<String>,
    pub status_expires: Option<u64>,
    pub config: Config,
    /// How the configuration file's path is shown in messages.
    pub config_path: String,
}

/// The text of an optional string.
pub open spec fn text_of(o: Option<String>) -> Option<Seq<char>> {
    match o {
        Some(s) => Some(s@),
        None => None,
    }
}

/// The clock reading `now` (milliseconds) leaves room for a status timer.
pub open spec fn clock_ok(now: u64) -> bool {
    now + STATUS_LIFETIME_MS <= u64::MAX
}

/// Whether the status lifetime can be added to `now` without overflow.
pub fn clock_ok_at(now: u64) -> (b: bool)
    ensures
        b == clock_ok(now),
{
    now <= u64::MAX - STATUS_LIFETIME_MS
}

/// An album does not have this id.
pub open spec fn album_id_differs(id: Seq<char>) -> spec_fn(Album) -> bool {
    |a: Album| a.id@ != id
}

/// Selection after the favorites list shrank to `len` entries.
pub open spec fn spec_clamped_selection(selected: usize, len: nat) -> usize {
    if selected > 0 && selected >= len {
        if len == 0 {
            0
        } else {
            (len - 1) as usize
        }
    } else {
        selected
    }
}

/// The track page of an album, or nothing.
pub open spec fn album_track_items(a: Album) -> Seq<Track> {
    match a.tracks {
        Some(t) => t.items@,
        None => Seq::empty(),
    }
}

/// The track page of a playlist, or nothing.
pub open spec fn playlist_track_items(p: Playlist) -> Seq<Track> {
    match p.tracks {
        Some(t) => t.items@,
        None => Seq::empty(),
    }
}

impl App {
    /// Set a temporary status message that clears after three seconds.
    fn set_temp_status(&mut self, msg: String, now: u64)
        requires
            clock_ok(now),
        ensures
            *final(self) == (App {
                status_message: Some(msg),
                status_expires: Some((now + STATUS_LIFETIME_MS) as u64),
                ..*old(self)
            }),
    {
        self.status_message = Some(msg);
        self.status_expires = Some(now + STATUS_LIFETIME_MS);
    }

    /// Remove the albums with id `album_id` from the favorites.
    fn remove_favorite(&mut self, album_id: &String)
        ensures
            final(self).favorite_albums@ == old(self).favorite_albums@.filter(album_id_differs(album_id@)),
            *final(self) == (App { favorite_albums: final(self).favorite_albums, ..*old(self) }),
    {
        let mut old_albums: Vec<Album> = Vec::new();
        std::mem::swap(&mut old_albums, &mut self.favorite_albums);
        let ghost all = old_albums@;
        let ghost pred = album_id_differs(album_id@);
        let mut kept: Vec<Album> = Vec::new();
        assert(all.take(0).filter(pred) =~= Seq::<Album>::empty()) by {
            reveal(Seq::filter);
        }
        for a in it: old_albums
            invariant
                it.seq() == all,
                pred == album_id_differs(album_id@),
                kept@ == all.take(it.index() as int).filter(pred),
        {
            proof {
                assert(a == all[it.index() as int]);
                assert(all.take(it.index() + 1) =~= all.take(it.index() as int).push(a));
                all.take(it.index() as int).lemma_filter_push(a, pred);
            }
            let ghost idx = it.index();
            let keep = !(a.id == *album_id);
            if keep {
                kept.push(a);
            }
        }
        assert(all.take(all.len() as int) =~= all);
        self.favorite_albums = kept;
    }
}


impl App {
    /// Replace the status line with `m`.
    fn set_status(&mut self, m: String)
        ensures
            *final(self) == (App { status_message: Some(m), ..*old(self) }),
    {
        self.status_message = Some(m);
    }

    fn on_credentials_fetched(&mut self, app_id: String, app_secret: String)
        ensures
            *final(self) == (App {
                config: Config { app_id: app_id, app_secret: app_secret, ..old(self).config },
                login_status: final(self).login_status,
                ..*old(self)
            }),
            text_of(final(self).login_status) == Some("Ready to login"@),
    {
        self.config.app_id = app_id;
        self.config.app_secret = app_secret;
        self.login_status = Some("Ready to login".to_owned());
    }

    fn on_credentials_error(&mut self, err: String)
        ensures
            *final(self) == (App { login_status: None, login_error: final(self).login_error, ..*old(self) }),
            text_of(final(self).login_error) == Some(
                "Could not fetch API credentials: "@ + err@ + ". Set app_id/app_secret manually in "@
                    + old(self).config_path@,
            ),
    {
        self.login_status = None;
        let mut m = concat3("Could not fetch API credentials: ", err.as_str(), ". Set app_id/app_secret manually in ");
        push_str(&mut m, self.config_path.as_str());
        self.login_error = Some(m);
    }

    fn on_login_success(&mut self, token: String, app_id: String, app_secret: String)
        ensures
            *final(self) == (App {
                login_loading: false,
                config: Config {
                    app_id: app_id,
                    app_secret: app_secret,
                    email: final(self).config.email,
                    user_auth_token: Some(token),
                    ..old(self).config
                },
                screen: Screen::Main,
                status_message: final(self).status_message,
                ..*old(self)
            }),
            text_of(final(self).config.email) == Some(old(self).login_email@),
            text_of(final(self).status_message) == Some("Logged in successfully"@),
    {
        self.login_loading = false;
        self.config.app_id = app_id;
        self.config.app_secret = app_secret;
        self.config.email = Some(self.login_email.clone());
        self.config.user_auth_token = Some(token);
        self.screen = Screen::Main;
        self.status_message = Some("Logged in successfully".to_owned());
    }

    fn on_album_loaded(&mut self, album: Album)
        ensures
            *final(self) == (App {
                album_tracks: final(self).album_tracks,
                album: Some(album),
                album_selected: 0,
                album_scroll: 0,
                screen: Screen::AlbumView,
                status_message: None,
                ..*old(self)
            }),
            final(self).album_tracks@ == album_track_items(album),
    {
        let tracks: Vec<Track> = match &album.tracks {
            Some(t) => t.items.clone(),
            None => Vec::new(),
        };
        assert(tracks@ =~= album_track_items(album));
        self.album_tracks = tracks;
        self.album = Some(album);
        self.album_selected = 0;
        self.album_scroll = 0;
        self.screen = Screen::AlbumView;
        self.status_message = None;
    }

    fn on_playlist_loaded(&mut self, playlist: Playlist)
        ensures
            *final(self) == (App {
                playlist_tracks: final(self).playlist_tracks,
                playlist_name: Some(playlist.name),
                playlist_selected: 0,
                playlist_scroll: 0,
                screen: Screen::PlaylistView,
                status_message: None,
                ..*old(self)
            }),
            final(self).playlist_tracks@ == playlist_track_items(playlist),
    {
        let tracks: Vec<Track> = match &playlist.tracks {
            Some(t) => t.items.clone(),
            None => Vec::new(),
        };
        assert(tracks@ =~= playlist_track_items(playlist));
        self.playlist_tracks = tracks;
        self.playlist_name = Some(playlist.name);
        self.playlist_selected = 0;
        self.playlist_scroll = 0;
        self.screen = Screen::PlaylistView;
        self.status_message = None;
    }

    fn on_favorite_toggled(&mut self, album_id: String, added: bool)
        ensures
            added ==> *final(self) == (App { status_message: final(self).status_message, ..*old(self) }),
            added ==> text_of(final(self).status_message) == Some("Added to favorites"@),
            !added ==> *final(self) == (App {
                status_message: final(self).status_message,
                favorite_albums: final(self).favorite_albums,
                favorites_selected: spec_clamped_selection(
                    old(self).favorites_selected,
                    final(self).favorite_albums@.len(),
                ),
                ..*old(self)
            }),
            !added ==> text_of(final(self).status_message) == Some("Removed from favorites"@),
            !added ==> final(self).favorite_albums@ == old(self).favorite_albums@.filter(
                album_id_differs(album_id@),
            ),
    {
        if added {
            self.status_message = Some("Added to favorites".to_owned());
        } else {
            self.status_message = Some("Removed from favorites".to_owned());
            self.remove_favorite(&album_id);
            let len: usize = self.favorite_albums.len();
            if self.favorites_selected > 0 && self.favorites_selected >= len {
                self.favorites_selected = if len == 0 { 0 } else { len - 1 };
            }
        }
    }

    fn on_download_progress(&mut self, done: usize, total: usize)
        ensures
            *final(self) == (App { status_message: final(self).status_message, ..*old(self) }),
            text_of(final(self).status_message) == Some(
                "Downloading album: "@ + decimal(done as nat) + "/"@ + decimal(total as nat) + " tracks"@,
            ),
    {
        let mut m = "Downloading album: ".to_owned();
        push_decimal(&mut m, done as u64);
        push_str(&mut m, "/");
        push_decimal(&mut m, total as u64);
        push_str(&mut m, " tracks");
        self.status_message = Some(m);
    }

    /// Apply a message from a background task at time `now` (milliseconds).
    pub fn handle_message<Buf>(&mut self, msg: AppMessage<Buf>, now: u64) -> (effects: Vec<Effect<Buf>>)
        requires
            clock_ok(now),
        ensures
            match msg {
                AppMessage::CredentialsFetched(id, secret) => {
                    &&& *final(self) == (App {
                        config: Config { app_id: id, app_secret: secret, ..old(self).config },
                        login_status: final(self).login_status,
                        ..*old(self)
                    })
                    &&& text_of(final(self).login_status) == Some("Ready to login"@)
                    &&& effects@ == seq![Effect::<Buf>::Reconfigure { with_token: false }]
                },
                AppMessage::CredentialsError(err) => {
                    &&& *final(self) == (App { login_status: None, login_error: final(self).login_error, ..*old(self) })
                    &&& text_of(final(self).login_error) == Some(
                        "Could not fetch API credentials: "@ + err@ + ". Set app_id/app_secret manually in "@
                            + old(self).config_path@,
                    )
                    &&& effects@.len() == 0
                },
                AppMessage::LoginSuccess(token, id, secret) => {
                    &&& *final(self) == (App {
                        login_loading: false,
                        config: Config {
                            app_id: id,
                            app_secret: secret,
                            email: final(self).config.email,
                            user_auth_token: Some(token),
                            ..old(self).config
                        },
                        screen: Screen::Main,
                        status_message: final(self).status_message,
                        ..*old(self)
                    })
                    &&& text_of(final(self).config.email) == Some(old(self).login_email@)
                    &&& text_of(final(self).status_message) == Some("Logged in successfully"@)
                    &&& effects@ == seq![Effect::<Buf>::Reconfigure { with_token: true }]
                },
                AppMessage::LoginError(err) => {
                    &&& *final(self) == (App { login_loading: false, login_error: Some(err), ..*old(self) })
                    &&& effects@.len() == 0
                },
                AppMessage::SearchResults(tracks, albums) => {
                    &&& *final(self) == (App {
                        search_tracks: tracks,
                        search_albums: albums,
                        search_selected: 0,
                        search_scroll: 0,
                        status_message: None,
                        ..*old(self)
                    })
                    &&& effects@.len() == 0
                },
                AppMessage::SearchError(err) => {
                    &&& *final(self) == (App { status_message: final(self).status_message, ..*old(self) })
                    &&& text_of(final(self).status_message) == Some("Search error: "@ + err@)
                    &&& effects@.len() == 0
                },
                AppMessage::FavoritesResults(albums) => {
                    &&& *final(self) == (App {
                        favorite_albums: albums,
                        favorites_selected: 0,
                        favorites_scroll: 0,
                        favorites_loaded: true,
                        status_message: None,
                        ..*old(self)
                    })
                    &&& effects@.len() == 0
                },
                AppMessage::FavoritesError(err) => {
                    &&& *final(self) == (App { status_message: final(self).status_message, ..*old(self) })
                    &&& text_of(final(self).status_message) == Some("Favorites error: "@ + err@)
                    &&& effects@.len() == 0
                },
                AppMessage::StreamReady(buf, title, artist, duration, format_id) => {
                    &&& *final(self) == *old(self)
                    &&& effects@ == seq![Effect::PlayStreaming(buf, title, artist, duration, format_id)]
                },
                AppMessage::StatusMessage(m) => {
                    &&& *final(self) == (App {
                        status_message: Some(m),
                        status_expires: Some((now + STATUS_LIFETIME_MS) as u64),
                        ..*old(self)
                    })
                    &&& effects@.len() == 0
                },
                AppMessage::AudioError(err) => {
                    &&& *final(self) == (App { status_message: final(self).status_message, ..*old(self) })
                    &&& text_of(final(self).status_message) == Some("Audio error: "@ + err@)
                    &&& effects@ == seq![Effect::<Buf>::PlayerError]
                },
                AppMessage::AlbumLoaded(album) => {
                    &&& *final(self) == (App {
                        album_tracks: final(self).album_tracks,
                        album: Some(album),
                        album_selected: 0,
                        album_scroll: 0,
                        screen: Screen::AlbumView,
                        status_message: None,
                        ..*old(self)
                    })
                    &&& final(self).album_tracks@ == album_track_items(album)
                    &&& effects@.len() == 0
                },
                AppMessage::AlbumError(err) => {
                    &&& *final(self) == (App { status_message: final(self).status_message, ..*old(self) })
                    &&& text_of(final(self).status_message) == Some("Album error: "@ + err@)
                    &&& effects@.len() == 0
                },
                AppMessage::DownloadProgress(done, total) => {
                    &&& *final(self) == (App { status_message: final(self).status_message, ..*old(self) })
                    &&& text_of(final(self).status_message) == Some(
                        "Downloading album: "@ + decimal(done as nat) + "/"@ + decimal(total as nat) + " tracks"@,
                    )
                    &&& effects@.len() == 0
                },
                AppMessage::DownloadDone => {
                    &&& *final(self) == (App { status_message: final(self).status_message, ..*old(self) })
                    &&& text_of(final(self).status_message) == Some("Album downloaded to cache"@)
                    &&& effects@.len() == 0
                },
                AppMessage::DownloadError(err) => {
                    &&& *final(self) == (App { status_message: final(self).status_message, ..*old(self) })
                    &&& text_of(final(self).status_message) == Some("Download error: "@ + err@)
                    &&& effects@.len() == 0
                },
                AppMessage::StreamCached(data, _id) => {
                    &&& *final(self) == (App {
                        status_message: final(self).status_message,
                        status_expires: Some((now + STATUS_LIFETIME_MS) as u64),
                        ..*old(self)
                    })
                    &&& text_of(final(self).status_message) == Some("Track cached \u{2014} seek enabled (,/;)"@)
                    &&& effects@ == seq![Effect::<Buf>::EnableSeek(data)]
                },
                AppMessage::FavoriteToggled(id, added) => {
                    &&& added ==> *final(self) == (App { status_message: final(self).status_message, ..*old(self) })
                    &&& added ==> text_of(final(self).status_message) == Some("Added to favorites"@)
                    &&& !added ==> *final(self) == (App {
                        status_message: final(self).status_message,
                        favorite_albums: final(self).favorite_albums,
                        favorites_selected: spec_clamped_selection(
                            old(self).favorites_selected,
                            final(self).favorite_albums@.len(),
                        ),
                        ..*old(self)
                    })
                    &&& !added ==> text_of(final(self).status_message) == Some("Removed from favorites"@)
                    &&& !added ==> final(self).favorite_albums@ == old(self).favorite_albums@.filter(
                        album_id_differs(id@),
                    )
                    &&& effects@.len() == 0
                },
                AppMessage::FavoriteToggleError(err) => {
                    &&& *final(self) == (App { status_message: final(self).status_message, ..*old(self) })
                    &&& text_of(final(self).status_message) == Some("Favorite error: "@ + err@)
                    &&& effects@.len() == 0
                },
                AppMessage::PlaylistsLoaded(playlists) => {
                    &&& *final(self) == (App {
                        playlists: playlists,
                        playlists_selected: 0,
                        playlists_scroll: 0,
                        playlists_loaded: true,
                        status_message: None,
                        ..*old(self)
                    })
                    &&& effects@.len() == 0
                },
                AppMessage::PlaylistsError(err) => {
                    &&& *final(self) == (App { status_message: final(self).status_message, ..*old(self) })
                    &&& text_of(final(self).status_message) == Some("Playlists error: "@ + err@)
                    &&& effects@.len() == 0
                },
                AppMessage::PlaylistLoaded(playlist) => {
                    &&& *final(self) == (App {
                        playlist_tracks: final(self).playlist_tracks,
                        playlist_name: Some(playlist.name),
                        playlist_selected: 0,
                        playlist_scroll: 0,
                        screen: Screen::PlaylistView,
                        status_message: None,
                        ..*old(self)
                    })
                    &&& final(self).playlist_tracks@ == playlist_track_items(playlist)
                    &&& effects@.len() == 0
                },
                AppMessage::PlaylistError(err) => {
                    &&& *final(self) == (App { status_message: final(self).status_message, ..*old(self) })
                    &&& text_of(final(self).status_message) == Some("Playlist error: "@ + err@)
                    &&& effects@.len() == 0
                },
            },
    {
        let mut effects: Vec<Effect<Buf>> = Vec::new();
        match msg {
            AppMessage::CredentialsFetched(app_id, app_secret) => {
                self.on_credentials_fetched(app_id, app_secret);
                effects.push(Effect::Reconfigure { with_token: false });
            },
            AppMessage::CredentialsError(err) => self.on_credentials_error(err),
            AppMessage::LoginSuccess(token, app_id, app_secret) => {
                self.on_login_success(token, app_id, app_secret);
                effects.push(Effect::Reconfigure { with_token: true });
            },
            AppMessage::LoginError(err) => {
                self.login_loading = false;
                self.login_error = Some(err);
            },
            AppMessage::SearchResults(tracks, albums) => {
                self.search_tracks = tracks;
                self.search_albums = albums;
                self.search_selected = 0;
                self.search_scroll = 0;
                self.status_message = None;
            },
            AppMessage::SearchError(err) => self.set_status(concat("Search error: ", err.as_str())),
            AppMessage::FavoritesResults(albums) => {
                self.favorite_albums = albums;
                self.favorites_selected = 0;
                self.favorites_scroll = 0;
                self.favorites_loaded = true;
                self.status_message = None;
            },
            AppMessage::FavoritesError(err) => self.set_status(concat("Favorites error: ", err.as_str())),
            AppMessage::StreamReady(buffer, title, artist, duration, format_id) => {
                effects.push(Effect::PlayStreaming(buffer, title, artist, duration, format_id));
            },
            AppMessage::StatusMessage(m) => self.set_temp_status(m, now),
            AppMessage::AudioError(err) => {
                self.set_status(concat("Audio error: ", err.as_str()));
                effects.push(Effect::PlayerError);
            },
            AppMessage::AlbumLoaded(album) => self.on_album_loaded(album),
            AppMessage::AlbumError(err) => self.set_status(concat("Album error: ", err.as_str())),
            AppMessage::FavoriteToggled(album_id, added) => self.on_favorite_toggled(album_id, added),
            AppMessage::FavoriteToggleError(err) => self.set_status(concat("Favorite error: ", err.as_str())),
            AppMessage::StreamCached(data, _track_id) => {
                effects.push(Effect::EnableSeek(data));
                self.set_temp_status("Track cached \u{2014} seek enabled (,/;)".to_owned(), now);
            },
            AppMessage::PlaylistsLoaded(playlists) => {
                self.playlists = playlists;
                self.playlists_selected = 0;
                self.playlists_scroll = 0;
                self.playlists_loaded = true;
                self.status_message = None;
            },
            AppMessage::PlaylistsError(err) => self.set_status(concat("Playlists error: ", err.as_str())),
            AppMessage::PlaylistLoaded(playlist) => self.on_playlist_loaded(playlist),
            AppMessage::PlaylistError(err) => self.set_status(concat("Playlist error: ", err.as_str())),
            AppMessage::DownloadProgress(done, total) => self.on_download_progress(done, total),
            AppMessage::DownloadDone => self.set_status("Album downloaded to cache".to_owned()),
            AppMessage::DownloadError(err) => self.set_status(concat("Download error: ", err.as_str())),
        }
        effects
    }
}


/// The login field after the one focused, going forward (Tab).
pub open spec fn spec_focus_forward(f: LoginField) -> LoginField {
    match f {
        LoginField::Email => LoginField::Password,
        LoginField::Password => LoginField::Submit,
        LoginField::Submit => LoginField::Email,
    }
}

/// The login field before the one focused (Shift+Tab).
pub open spec fn spec_focus_backward(f: LoginField) -> LoginField {
    match f {
        LoginField::Email => LoginField::Submit,
        LoginField::Password => LoginField::Email,
        LoginField::Submit => LoginField::Password,
    }
}

/// The tab after the current one: Search → Favorites → Playlists → Search.
pub open spec fn spec_next_tab(t: Tab) -> Tab {
    match t {
        Tab::Search => Tab::Favorites,
        Tab::Favorites => Tab::Playlists,
        Tab::Playlists => Tab::Search,
    }
}

/// The other kind of search result.
pub open spec fn spec_other_mode(m: SearchMode) -> SearchMode {
    match m {
        SearchMode::Tracks => SearchMode::Albums,
        SearchMode::Albums => SearchMode::Tracks,
    }
}

/// On the login screen, Shift+Tab undoes Tab and Tab undoes Shift+Tab, and
/// three presses of Tab come back to the field they started from.
pub proof fn lemma_focus_round_trip(f: LoginField)
    ensures
        spec_focus_backward(spec_focus_forward(f)) == f,
        spec_focus_forward(spec_focus_backward(f)) == f,
        spec_focus_forward(spec_focus_forward(spec_focus_forward(f))) == f,
{
}

/// Tab visits Search, Favorites and Playlists in turn and comes back after
/// three presses.
pub proof fn lemma_tab_cycle(t: Tab)
    ensures
        spec_next_tab(t) != t,
        spec_next_tab(spec_next_tab(t)) != t,
        spec_next_tab(spec_next_tab(spec_next_tab(t))) == t,
{
}

/// Switching the kind of search results twice shows the same kind again.
pub proof fn lemma_search_mode_toggle(m: SearchMode)
    ensures
        spec_other_mode(m) != m,
        spec_other_mode(spec_other_mode(m)) == m,
{
}

/// Esc quits from every screen, also while a login is under way, and so
/// does Ctrl+C.
pub proof fn lemma_esc_quits<Buf>(o: App, k: KeyInput, n: App, e: Seq<Effect<Buf>>)
    requires
        k.key == Key::Esc || (k.ctrl && k.key == Key::Char('c')),
        key_post(o, k, n, e),
    ensures
        n.should_quit,
        e.len() == 0,
{
}

/// Selection moved up one row, when it can move.
pub open spec fn spec_up(selected: usize) -> usize {
    if selected > 0 { (selected - 1) as usize } else { selected }
}

/// Selection moved down one row in a list of `len` rows, when it can move.
pub open spec fn spec_down(selected: usize, len: nat) -> usize {
    if selected + 1 < len { (selected + 1) as usize } else { selected }
}

/// Index of the track after the current one in the queue, if there is one.
pub open spec fn spec_has_next(a: App) -> bool {
    a.queue_index + 1 < a.queue@.len()
}

impl App {
    /// The user types in a text field: the login form, or the search bar.
    pub open spec fn typing(self) -> bool {
        self.screen == Screen::Login || (self.screen == Screen::Main && self.tab == Tab::Search)
    }

    /// Number of listed search results.
    pub open spec fn result_count(self) -> nat {
        match self.search_mode {
            SearchMode::Tracks => self.search_tracks@.len(),
            SearchMode::Albums => self.search_albums@.len(),
        }
    }

    fn is_typing(&self) -> (b: bool)
        ensures
            b == self.typing(),
    {
        self.screen == Screen::Login || (self.screen == Screen::Main && self.tab == Tab::Search)
    }

    fn current_list_len(&self) -> (n: usize)
        ensures
            n == self.result_count(),
    {
        match self.search_mode {
            SearchMode::Tracks => self.search_tracks.len(),
            SearchMode::Albums => self.search_albums.len(),
        }
    }

    /// Move to the next track of the queue, if there is one, and play it.
    pub fn play_next<Buf>(&mut self) -> (effects: Vec<Effect<Buf>>)
        ensures
            spec_has_next(*old(self)) ==> {
                &&& *final(self) == (App { queue_index: (old(self).queue_index + 1) as usize, ..*old(self) })
                &&& effects@ == seq![Effect::<Buf>::PlayTrack(old(self).queue@[old(self).queue_index + 1])]
            },
            !spec_has_next(*old(self)) ==> *final(self) == *old(self) && effects@.len() == 0,
    {
        let mut effects: Vec<Effect<Buf>> = Vec::new();
        if self.queue.len() > 0 && self.queue_index < self.queue.len() - 1 {
            self.queue_index = self.queue_index + 1;
            effects.push(Effect::PlayTrack(self.queue[self.queue_index].clone()));
        }
        effects
    }

    /// Move to the previous track of the queue, if there is one, and play it.
    pub fn play_previous<Buf>(&mut self) -> (effects: Vec<Effect<Buf>>)
        ensures
            old(self).queue_index > 0 ==> *final(self) == (App {
                queue_index: (old(self).queue_index - 1) as usize,
                ..*old(self)
            }),
            old(self).queue_index > 0 && old(self).queue_index - 1 < old(self).queue@.len() ==> effects@
                == seq![Effect::<Buf>::PlayTrack(old(self).queue@[old(self).queue_index - 1])],
            old(self).queue_index > 0 && old(self).queue_index - 1 >= old(self).queue@.len() ==> effects@.len() == 0,
            old(self).queue_index == 0 ==> *final(self) == *old(self) && effects@.len() == 0,
    {
        let mut effects: Vec<Effect<Buf>> = Vec::new();
        if self.queue_index > 0 {
            self.queue_index = self.queue_index - 1;
            if self.queue_index < self.queue.len() {
                effects.push(Effect::PlayTrack(self.queue[self.queue_index].clone()));
            }
        }
        effects
    }

    /// Replace the queue with `tracks` and play the one at `index`, if any.
    fn play_from<Buf>(&mut self, tracks: &Vec<Track>, index: usize) -> (effects: Vec<Effect<Buf>>)
        ensures
            *final(self) == (App { queue: final(self).queue, queue_index: index, ..*old(self) }),
            final(self).queue@ == tracks@,
            index < tracks@.len() ==> effects@ == seq![Effect::<Buf>::PlayTrack(tracks@[index as int])],
            index >= tracks@.len() ==> effects@.len() == 0,
    {
        let mut effects: Vec<Effect<Buf>> = Vec::new();
        let q = tracks.clone();
        assert(q@ =~= tracks@);
        self.queue = q;
        self.queue_index = index;
        if index < self.queue.len() {
            effects.push(Effect::PlayTrack(self.queue[index].clone()));
        }
        effects
    }

    /// Show a status and ask for an album.
    fn open_album<Buf>(&mut self, album_id: String) -> (effects: Vec<Effect<Buf>>)
        ensures
            *final(self) == (App { status_message: final(self).status_message, ..*old(self) }),
            text_of(final(self).status_message) == Some("Loading album..."@),
            effects@ == seq![Effect::<Buf>::OpenAlbum(album_id)],
    {
        self.status_message = Some("Loading album...".to_owned());
        let mut effects: Vec<Effect<Buf>> = Vec::new();
        effects.push(Effect::OpenAlbum(album_id));
        effects
    }

    /// Show a status and ask for a playlist.
    fn open_playlist<Buf>(&mut self, playlist_id: String) -> (effects: Vec<Effect<Buf>>)
        ensures
            *final(self) == (App { status_message: final(self).status_message, ..*old(self) }),
            text_of(final(self).status_message) == Some("Loading playlist..."@),
            effects@ == seq![Effect::<Buf>::OpenPlaylist(playlist_id)],
    {
        self.status_message = Some("Loading playlist...".to_owned());
        let mut effects: Vec<Effect<Buf>> = Vec::new();
        effects.push(Effect::OpenPlaylist(playlist_id));
        effects
    }

    /// Show a status and ask to add or remove an album from the favorites.
    fn toggle_favorite<Buf>(&mut self, album_id: String, add: bool) -> (effects: Vec<Effect<Buf>>)
        ensures
            *final(self) == (App { status_message: final(self).status_message, ..*old(self) }),
            add ==> text_of(final(self).status_message) == Some("Adding to favorites..."@),
            !add ==> text_of(final(self).status_message) == Some("Removing from favorites..."@),
            effects@ == seq![Effect::<Buf>::ToggleFavorite(album_id, add)],
    {
        self.status_message = Some(
            if add {
                "Adding to favorites...".to_owned()
            } else {
                "Removing from favorites...".to_owned()
            },
        );
        let mut effects: Vec<Effect<Buf>> = Vec::new();
        effects.push(Effect::ToggleFavorite(album_id, add));
        effects
    }
}


/// A text field after Backspace: its last character removed, if any.
pub open spec fn spec_backspace(s: Seq<char>) -> Seq<char> {
    if s.len() > 0 { s.drop_last() } else { s }
}

/// `n` is `o` with the status line set to `msg`.
pub open spec fn status_set(o: App, n: App, msg: Seq<char>) -> bool {
    &&& n == (App { status_message: n.status_message, ..o })
    &&& text_of(n.status_message) == Some(msg)
}

/// `n` plays `tracks` from `index` on, starting from `o`.
pub open spec fn play_from_post<Buf>(o: App, tracks: Seq<Track>, index: usize, n: App, e: Seq<Effect<Buf>>) -> bool {
    &&& n == (App { queue: n.queue, queue_index: index, ..o })
    &&& n.queue@ == tracks
    &&& index < tracks.len() ==> e == seq![Effect::<Buf>::PlayTrack(tracks[index as int])]
    &&& index >= tracks.len() ==> e.len() == 0
}

/// Effect of submitting the login form.
pub open spec fn login_submit_post<Buf>(o: App, n: App, e: Seq<Effect<Buf>>) -> bool {
    if !spec_has_app_credentials(o.config) {
        &&& n == (App { login_error: n.login_error, ..o })
        &&& text_of(n.login_error) == Some(
            "API credentials not available yet. Set app_id and app_secret in "@ + o.config_path@,
        )
        &&& e.len() == 0
    } else {
        &&& n == (App { login_loading: true, login_error: None, login_status: n.login_status, ..o })
        &&& text_of(n.login_status) == Some("Logging in..."@)
        &&& e == seq![
            Effect::<Buf>::Login(o.config.app_id, o.config.app_secret, o.login_email, o.login_password),
        ]
    }
}

/// Effect of a key on the login screen.
pub open spec fn login_key_post<Buf>(o: App, k: Key, n: App, e: Seq<Effect<Buf>>) -> bool {
    if o.login_loading {
        n == o && e.len() == 0
    } else {
        match k {
            Key::Tab => n == (App { login_focus: spec_focus_forward(o.login_focus), ..o }) && e.len() == 0,
            Key::BackTab => n == (App { login_focus: spec_focus_backward(o.login_focus), ..o }) && e.len() == 0,
            Key::Enter => if o.login_focus == LoginField::Submit {
                login_submit_post(o, n, e)
            } else {
                n == (App { login_focus: spec_focus_forward(o.login_focus), ..o }) && e.len() == 0
            },
            Key::Char(c) => {
                &&& e.len() == 0
                &&& o.login_focus == LoginField::Email ==> n == (App { login_email: n.login_email, ..o })
                    && n.login_email@ == o.login_email@.push(c)
                &&& o.login_focus == LoginField::Password ==> n == (App { login_password: n.login_password, ..o })
                    && n.login_password@ == o.login_password@.push(c)
                &&& o.login_focus == LoginField::Submit ==> n == o
            },
            Key::Backspace => {
                &&& e.len() == 0
                &&& o.login_focus == LoginField::Email ==> n == (App { login_email: n.login_email, ..o })
                    && n.login_email@ == spec_backspace(o.login_email@)
                &&& o.login_focus == LoginField::Password ==> n == (App { login_password: n.login_password, ..o })
                    && n.login_password@ == spec_backspace(o.login_password@)
                &&& o.login_focus == LoginField::Submit ==> n == o
            },
            _ => n == o && e.len() == 0,
        }
    }
}

/// Effect of Enter on a search result.
pub open spec fn select_post<Buf>(o: App, n: App, e: Seq<Effect<Buf>>) -> bool {
    match o.search_mode {
        SearchMode::Tracks => play_from_post(o, o.search_tracks@, o.search_selected, n, e),
        SearchMode::Albums => if o.search_selected < o.search_albums@.len() {
            status_set(o, n, "Loading album..."@)
                && e == seq![Effect::<Buf>::OpenAlbum(o.search_albums@[o.search_selected as int].id)]
        } else {
            n == o && e.len() == 0
        },
    }
}

/// Effect of a key on the search tab.
pub open spec fn search_key_post<Buf>(o: App, k: Key, n: App, e: Seq<Effect<Buf>>) -> bool {
    match k {
        Key::Enter => if o.result_count() > 0 {
            select_post(o, n, e)
        } else if o.search_query@.len() > 0 {
            status_set(o, n, "Searching..."@) && e == seq![Effect::<Buf>::Search(o.search_query)]
        } else {
            n == o && e.len() == 0
        },
        Key::Up => n == (App { search_selected: spec_up(o.search_selected), ..o }) && e.len() == 0,
        Key::Down => n == (App { search_selected: spec_down(o.search_selected, o.result_count()), ..o })
            && e.len() == 0,
        Key::BackTab => n == (App {
            search_mode: spec_other_mode(o.search_mode),
            search_selected: 0,
            search_scroll: 0,
            ..o
        }) && e.len() == 0,
        Key::Char(c) => {
            &&& n == (App {
                search_query: n.search_query,
                search_tracks: n.search_tracks,
                search_albums: n.search_albums,
                search_selected: 0,
                search_scroll: 0,
                ..o
            })
            &&& n.search_query@ == o.search_query@.push(c)
            &&& n.search_tracks@.len() == 0
            &&& n.search_albums@.len() == 0
            &&& e.len() == 0
        },
        Key::Backspace => {
            &&& n.search_query@ == spec_backspace(o.search_query@)
            &&& e.len() == 0
            &&& n.search_query@.len() == 0 ==> {
                &&& n == (App {
                    search_query: n.search_query,
                    search_tracks: n.search_tracks,
                    search_albums: n.search_albums,
                    search_selected: 0,
                    search_scroll: 0,
                    ..o
                })
                &&& n.search_tracks@.len() == 0
                &&& n.search_albums@.len() == 0
            }
            &&& n.search_query@.len() > 0 ==> n == (App { search_query: n.search_query, ..o })
        },
        _ => n == o && e.len() == 0,
    }
}

/// Effect of a key on the favorites tab.
pub open spec fn favorites_key_post<Buf>(o: App, k: Key, n: App, e: Seq<Effect<Buf>>) -> bool {
    let sel = o.favorites_selected;
    let albums = o.favorite_albums@;
    match k {
        Key::Up => n == (App { favorites_selected: spec_up(sel), ..o }) && e.len() == 0,
        Key::Down => n == (App { favorites_selected: spec_down(sel, albums.len()), ..o }) && e.len() == 0,
        Key::Enter => if sel < albums.len() {
            status_set(o, n, "Loading album..."@) && e == seq![Effect::<Buf>::OpenAlbum(albums[sel as int].id)]
        } else {
            n == o && e.len() == 0
        },
        Key::Char(c) => if c == 'x' && sel < albums.len() {
            status_set(o, n, "Removing from favorites..."@)
                && e == seq![Effect::<Buf>::ToggleFavorite(albums[sel as int].id, false)]
        } else {
            n == o && e.len() == 0
        },
        _ => n == o && e.len() == 0,
    }
}

/// Effect of a key on the playlists tab.
pub open spec fn playlists_key_post<Buf>(o: App, k: Key, n: App, e: Seq<Effect<Buf>>) -> bool {
    let sel = o.playlists_selected;
    let lists = o.playlists@;
    match k {
        Key::Up => n == (App { playlists_selected: spec_up(sel), ..o }) && e.len() == 0,
        Key::Down => n == (App { playlists_selected: spec_down(sel, lists.len()), ..o }) && e.len() == 0,
        Key::Enter => if sel < lists.len() {
            status_set(o, n, "Loading playlist..."@) && e == seq![Effect::<Buf>::OpenPlaylist(lists[sel as int].id)]
        } else {
            n == o && e.len() == 0
        },
        _ => n == o && e.len() == 0,
    }
}

/// Effect of a key on a playlist's track list.
pub open spec fn playlist_view_key_post<Buf>(o: App, k: Key, n: App, e: Seq<Effect<Buf>>) -> bool {
    let sel = o.playlist_selected;
    match k {
        Key::Up => n == (App { playlist_selected: spec_up(sel), ..o }) && e.len() == 0,
        Key::Down => n == (App { playlist_selected: spec_down(sel, o.playlist_tracks@.len()), ..o })
            && e.len() == 0,
        Key::Enter => play_from_post(o, o.playlist_tracks@, sel, n, e),
        Key::Backspace => n == (App { screen: Screen::Main, ..o }) && e.len() == 0,
        _ => n == o && e.len() == 0,
    }
}

/// Title of the open album, or the empty string.
pub open spec fn spec_open_album_title(o: App) -> Seq<char> {
    match o.album {
        Some(a) => a.title@,
        None => Seq::empty(),
    }
}

/// Artist of the open album, or "Unknown".
pub open spec fn spec_open_album_artist(o: App) -> Seq<char> {
    match o.album {
        Some(a) => match a.artist {
            Some(ar) => ar.name@,
            None => "Unknown"@,
        },
        None => "Unknown"@,
    }
}

/// Effect of asking to download the open album.
pub open spec fn download_post<Buf>(o: App, n: App, e: Seq<Effect<Buf>>) -> bool {
    if o.album_tracks@.len() == 0 {
        n == o && e.len() == 0
    } else {
        &&& status_set(o, n, "Downloading \""@ + spec_open_album_title(o) + "\"..."@)
        &&& e.len() == 1
        &&& e[0] matches Effect::DownloadAlbum(tracks, name, artist)
        &&& tracks@ == o.album_tracks@
        &&& name@ == spec_open_album_title(o)
        &&& artist@ == spec_open_album_artist(o)
    }
}

/// Effect of a key on an album's track list.
pub open spec fn album_key_post<Buf>(o: App, k: Key, n: App, e: Seq<Effect<Buf>>) -> bool {
    let sel = o.album_selected;
    match k {
        Key::Up => n == (App { album_selected: spec_up(sel), ..o }) && e.len() == 0,
        Key::Down => n == (App { album_selected: spec_down(sel, o.album_tracks@.len()), ..o }) && e.len() == 0,
        Key::Enter => play_from_post(o, o.album_tracks@, sel, n, e),
        Key::Char(c) => if c == 'd' {
            download_post(o, n, e)
        } else if c == 'f' {
            match o.album {
                Some(a) => status_set(o, n, "Adding to favorites..."@)
                    && e == seq![Effect::<Buf>::ToggleFavorite(a.id, true)],
                None => n == o && e.len() == 0,
            }
        } else {
            n == o && e.len() == 0
        },
        Key::Backspace => n == (App { screen: Screen::Main, ..o }) && e.len() == 0,
        _ => n == o && e.len() == 0,
    }
}

impl App {
    fn login_field_index(&self) -> (i: usize)
        ensures
            i == match self.login_focus {
                LoginField::Email => 0usize,
                LoginField::Password => 1usize,
                LoginField::Submit => 2usize,
            },
    {
        match self.login_focus {
            LoginField::Email => 0,
            LoginField::Password => 1,
            LoginField::Submit => 2,
        }
    }

    fn do_login<Buf>(&mut self) -> (effects: Vec<Effect<Buf>>)
        ensures
            login_submit_post(*old(self), *final(self), effects@),
    {
        let mut effects: Vec<Effect<Buf>> = Vec::new();
        if !self.config.has_app_credentials() {
            self.login_error = Some(concat("API credentials not available yet. Set app_id and app_secret in ", self.config_path.as_str()));
            return effects;
        }
        self.login_loading = true;
        self.login_error = None;
        self.login_status = Some("Logging in...".to_owned());
        effects.push(
            Effect::Login(
                self.config.app_id.clone(),
                self.config.app_secret.clone(),
                self.login_email.clone(),
                self.login_password.clone(),
            ),
        );
        effects
    }

    fn handle_login_key<Buf>(&mut self, key: Key) -> (effects: Vec<Effect<Buf>>)
        ensures
            login_key_post(*old(self), key, *final(self), effects@),
    {
        let mut effects: Vec<Effect<Buf>> = Vec::new();
        if self.login_loading {
            return effects;
        }
        match key {
            Key::Tab => {
                self.login_focus = match self.login_focus {
                    LoginField::Email => LoginField::Password,
                    LoginField::Password => LoginField::Submit,
                    LoginField::Submit => LoginField::Email,
                };
            },
            Key::BackTab => {
                self.login_focus = match self.login_focus {
                    LoginField::Email => LoginField::Submit,
                    LoginField::Password => LoginField::Email,
                    LoginField::Submit => LoginField::Password,
                };
            },
            Key::Enter => {
                if self.login_focus == LoginField::Submit {
                    return self.do_login();
                } else {
                    self.login_focus = match self.login_focus {
                        LoginField::Email => LoginField::Password,
                        LoginField::Password => LoginField::Submit,
                        LoginField::Submit => LoginField::Submit,
                    };
                }
            },
            Key::Char(c) => {
                let idx: usize = self.login_field_index();
                if idx == 0 {
                    push_char(&mut self.login_email, c);
                } else if idx == 1 {
                    push_char(&mut self.login_password, c);
                }
            },
            Key::Backspace => {
                let idx: usize = self.login_field_index();
                if idx == 0 {
                    let _ = pop_char(&mut self.login_email);
                } else if idx == 1 {
                    let _ = pop_char(&mut self.login_password);
                }
            },
            _ => {},
        }
        effects
    }

    fn select_search_item<Buf>(&mut self) -> (effects: Vec<Effect<Buf>>)
        ensures
            select_post(*old(self), *final(self), effects@),
    {
        match self.search_mode {
            SearchMode::Tracks => {
                let tracks = self.search_tracks.clone();
                assert(tracks@ =~= self.search_tracks@);
                let idx: usize = self.search_selected;
                self.play_from(&tracks, idx)
            },
            SearchMode::Albums => {
                if self.search_selected < self.search_albums.len() {
                    let id = self.search_albums[self.search_selected].id.clone();
                    self.open_album(id)
                } else {
                    Vec::new()
                }
            },
        }
    }

    fn handle_search_key<Buf>(&mut self, key: Key) -> (effects: Vec<Effect<Buf>>)
        ensures
            search_key_post(*old(self), key, *final(self), effects@),
    {
        let mut effects: Vec<Effect<Buf>> = Vec::new();
        match key {
            Key::Enter => {
                if self.current_list_len() > 0 {
                    return self.select_search_item();
                } else if !self.search_query.as_str().is_empty() {
                    self.status_message = Some("Searching...".to_owned());
                    effects.push(Effect::Search(self.search_query.clone()));
                }
            },
            Key::Up => {
                if self.search_selected > 0 {
                    self.search_selected = self.search_selected - 1;
                }
            },
            Key::Down => {
                let len: usize = self.current_list_len();
                if len > 0 && self.search_selected < len - 1 {
                    self.search_selected = self.search_selected + 1;
                }
            },
            Key::BackTab => {
                self.search_mode = match self.search_mode {
                    SearchMode::Tracks => SearchMode::Albums,
                    SearchMode::Albums => SearchMode::Tracks,
                };
                self.search_selected = 0;
                self.search_scroll = 0;
            },
            Key::Char(c) => {
                push_char(&mut self.search_query, c);
                self.search_tracks = Vec::new();
                self.search_albums = Vec::new();
                self.search_selected = 0;
                self.search_scroll = 0;
            },
            Key::Backspace => {
                let _ = pop_char(&mut self.search_query);
                if self.search_query.as_str().is_empty() {
                    self.search_tracks = Vec::new();
                    self.search_albums = Vec::new();
                    self.search_selected = 0;
                    self.search_scroll = 0;
                }
            },
            _ => {},
        }
        effects
    }

    fn handle_favorites_key<Buf>(&mut self, key: Key) -> (effects: Vec<Effect<Buf>>)
        ensures
            favorites_key_post(*old(self), key, *final(self), effects@),
    {
        let len: usize = self.favorite_albums.len();
        match key {
            Key::Up => {
                if self.favorites_selected > 0 {
                    self.favorites_selected = self.favorites_selected - 1;
                }
                Vec::new()
            },
            Key::Down => {
                if len > 0 && self.favorites_selected < len - 1 {
                    self.favorites_selected = self.favorites_selected + 1;
                }
                Vec::new()
            },
            Key::Enter => {
                if self.favorites_selected < len {
                    let id = self.favorite_albums[self.favorites_selected].id.clone();
                    self.open_album(id)
                } else {
                    Vec::new()
                }
            },
            Key::Char(c) => {
                if c == 'x' && self.favorites_selected < len {
                    let id = self.favorite_albums[self.favorites_selected].id.clone();
                    self.toggle_favorite(id, false)
                } else {
                    Vec::new()
                }
            },
            _ => Vec::new(),
        }
    }

    fn handle_playlists_key<Buf>(&mut self, key: Key) -> (effects: Vec<Effect<Buf>>)
        ensures
            playlists_key_post(*old(self), key, *final(self), effects@),
    {
        let len: usize = self.playlists.len();
        match key {
            Key::Up => {
                if self.playlists_selected > 0 {
                    self.playlists_selected = self.playlists_selected - 1;
                }
                Vec::new()
            },
            Key::Down => {
                if len > 0 && self.playlists_selected < len - 1 {
                    self.playlists_selected = self.playlists_selected + 1;
                }
                Vec::new()
            },
            Key::Enter => {
                if self.playlists_selected < len {
                    let id = self.playlists[self.playlists_selected].id.clone();
                    self.open_playlist(id)
                } else {
                    Vec::new()
                }
            },
            _ => Vec::new(),
        }
    }

    fn handle_playlist_view_key<Buf>(&mut self, key: Key) -> (effects: Vec<Effect<Buf>>)
        ensures
            playlist_view_key_post(*old(self), key, *final(self), effects@),
    {
        let len: usize = self.playlist_tracks.len();
        match key {
            Key::Up => {
                if self.playlist_selected > 0 {
                    self.playlist_selected = self.playlist_selected - 1;
                }
                Vec::new()
            },
            Key::Down => {
                if len > 0 && self.playlist_selected < len - 1 {
                    self.playlist_selected = self.playlist_selected + 1;
                }
                Vec::new()
            },
            Key::Enter => {
                let tracks = self.playlist_tracks.clone();
                assert(tracks@ =~= self.playlist_tracks@);
                let idx: usize = self.playlist_selected;
                self.play_from(&tracks, idx)
            },
            Key::Backspace => {
                self.screen = Screen::Main;
                Vec::new()
            },
            _ => Vec::new(),
        }
    }

    fn download_album<Buf>(&mut self) -> (effects: Vec<Effect<Buf>>)
        ensures
            download_post(*old(self), *final(self), effects@),
    {
        let mut effects: Vec<Effect<Buf>> = Vec::new();
        if self.album_tracks.len() == 0 {
            return effects;
        }
        let album_name: String = match &self.album {
            Some(a) => a.title.clone(),
            None => String::new(),
        };
        let album_artist: String = match &self.album {
            Some(a) => match &a.artist {
                Some(ar) => ar.name.clone(),
                None => "Unknown".to_owned(),
            },
            None => "Unknown".to_owned(),
        };
        self.status_message = Some(concat3("Downloading \"", album_name.as_str(), "\"..."));
        let tracks = self.album_tracks.clone();
        assert(tracks@ =~= self.album_tracks@);
        effects.push(Effect::DownloadAlbum(tracks, album_name, album_artist));
        effects
    }

    fn handle_album_key<Buf>(&mut self, key: Key) -> (effects: Vec<Effect<Buf>>)
        ensures
            album_key_post(*old(self), key, *final(self), effects@),
    {
        let len: usize = self.album_tracks.len();
        match key {
            Key::Up => {
                if self.album_selected > 0 {
                    self.album_selected = self.album_selected - 1;
                }
                Vec::new()
            },
            Key::Down => {
                if len > 0 && self.album_selected < len - 1 {
                    self.album_selected = self.album_selected + 1;
                }
                Vec::new()
            },
            Key::Enter => {
                let tracks = self.album_tracks.clone();
                assert(tracks@ =~= self.album_tracks@);
                let idx: usize = self.album_selected;
                self.play_from(&tracks, idx)
            },
            Key::Char(c) => {
                if c == 'd' {
                    self.download_album()
                } else if c == 'f' {
                    match &self.album {
                        Some(a) => {
                            let id = a.id.clone();
                            self.toggle_favorite(id, true)
                        },
                        None => Vec::new(),
                    }
                } else {
                    Vec::new()
                }
            },
            Key::Backspace => {
                self.screen = Screen::Main;
                Vec::new()
            },
            _ => Vec::new(),
        }
    }
}


/// Effect of Tab outside the login screen: go to the main screen and cycle
/// the tab, loading the favorites or the playlists the first time.
pub open spec fn tab_key_post<Buf>(o: App, n: App, e: Seq<Effect<Buf>>) -> bool {
    let t = spec_next_tab(o.tab);
    let base = App { screen: Screen::Main, tab: t, ..o };
    if t == Tab::Favorites && !o.favorites_loaded {
        status_set(base, n, "Loading favorite albums..."@) && e == seq![Effect::<Buf>::LoadFavorites]
    } else if t == Tab::Playlists && !o.playlists_loaded {
        status_set(base, n, "Loading playlists..."@) && e == seq![Effect::<Buf>::LoadPlaylists]
    } else {
        n == base && e.len() == 0
    }
}

/// Effect of `n` (next track) on the queue.
pub open spec fn next_post<Buf>(o: App, n: App, e: Seq<Effect<Buf>>) -> bool {
    if spec_has_next(o) {
        n == (App { queue_index: (o.queue_index + 1) as usize, ..o })
            && e == seq![Effect::<Buf>::PlayTrack(o.queue@[o.queue_index + 1])]
    } else {
        n == o && e.len() == 0
    }
}

/// Effect of `N` (previous track) on the queue.
pub open spec fn previous_post<Buf>(o: App, n: App, e: Seq<Effect<Buf>>) -> bool {
    if o.queue_index > 0 {
        &&& n == (App { queue_index: (o.queue_index - 1) as usize, ..o })
        &&& o.queue_index - 1 < o.queue@.len() ==> e == seq![Effect::<Buf>::PlayTrack(o.queue@[o.queue_index - 1])]
        &&& o.queue_index - 1 >= o.queue@.len() ==> e.len() == 0
    } else {
        n == o && e.len() == 0
    }
}

/// Effect of a key on the screen shown.
pub open spec fn screen_key_post<Buf>(o: App, k: Key, n: App, e: Seq<Effect<Buf>>) -> bool {
    match o.screen {
        Screen::Login => login_key_post(o, k, n, e),
        Screen::Main => match o.tab {
            Tab::Search => search_key_post(o, k, n, e),
            Tab::Favorites => favorites_key_post(o, k, n, e),
            Tab::Playlists => playlists_key_post(o, k, n, e),
        },
        Screen::AlbumView => album_key_post(o, k, n, e),
        Screen::PlaylistView => playlist_view_key_post(o, k, n, e),
    }
}

/// Effect of a key press: Ctrl+C and Esc quit; outside the login screen the
/// arrow keys set the volume and Tab cycles the tabs; outside text fields
/// `p n N r , ;` control playback; every other key goes to the screen.
pub open spec fn key_post<Buf>(o: App, k: KeyInput, n: App, e: Seq<Effect<Buf>>) -> bool {
    if k.ctrl && k.key == Key::Char('c') {
        n == (App { should_quit: true, ..o }) && e.len() == 0
    } else if k.key == Key::Esc {
        n == (App { should_quit: true, ..o }) && e.len() == 0
    } else if o.screen != Screen::Login && k.key == Key::Left {
        n == o && e == seq![Effect::<Buf>::VolumeDown]
    } else if o.screen != Screen::Login && k.key == Key::Right {
        n == o && e == seq![Effect::<Buf>::VolumeUp]
    } else if o.screen != Screen::Login && k.key == Key::Tab {
        tab_key_post(o, n, e)
    } else if !o.typing() && k.key == Key::Char('p') {
        n == o && e == seq![Effect::<Buf>::TogglePause]
    } else if !o.typing() && k.key == Key::Char('n') {
        next_post(o, n, e)
    } else if !o.typing() && k.key == Key::Char('N') {
        previous_post(o, n, e)
    } else if !o.typing() && k.key == Key::Char('r') {
        n == (App { loop_mode: spec_next_loop(o.loop_mode), ..o }) && e.len() == 0
    } else if !o.typing() && k.key == Key::Char(',') {
        n == o && e == seq![Effect::<Buf>::SeekBackward(SEEK_STEP_SECS)]
    } else if !o.typing() && k.key == Key::Char(';') {
        n == o && e == seq![Effect::<Buf>::SeekForward(SEEK_STEP_SECS)]
    } else {
        screen_key_post(o, k.key, n, e)
    }
}

impl App {
    fn handle_tab_key<Buf>(&mut self) -> (effects: Vec<Effect<Buf>>)
        ensures
            tab_key_post(*old(self), *final(self), effects@),
    {
        let mut effects: Vec<Effect<Buf>> = Vec::new();
        self.screen = Screen::Main;
        self.tab = match self.tab {
            Tab::Search => Tab::Favorites,
            Tab::Favorites => Tab::Playlists,
            Tab::Playlists => Tab::Search,
        };
        if self.tab == Tab::Favorites && !self.favorites_loaded {
            self.status_message = Some("Loading favorite albums...".to_owned());
            effects.push(Effect::LoadFavorites);
        } else if self.tab == Tab::Playlists && !self.playlists_loaded {
            self.status_message = Some("Loading playlists...".to_owned());
            effects.push(Effect::LoadPlaylists);
        }
        effects
    }

    /// Apply a key press.
    pub fn handle_key<Buf>(&mut self, key: KeyInput) -> (effects: Vec<Effect<Buf>>)
        ensures
            key_post(*old(self), key, *final(self), effects@),
    {
        let mut effects: Vec<Effect<Buf>> = Vec::new();
        if key.ctrl && key.key == Key::Char('c') {
            self.should_quit = true;
            return effects;
        }
        if key.key == Key::Esc {
            self.should_quit = true;
            return effects;
        }
        if self.screen != Screen::Login {
            match key.key {
                Key::Left => {
                    effects.push(Effect::VolumeDown);
                    return effects;
                },
                Key::Right => {
                    effects.push(Effect::VolumeUp);
                    return effects;
                },
                Key::Tab => {
                    return self.handle_tab_key();
                },
                _ => {},
            }
        }
        if !self.is_typing() {
            match key.key {
                Key::Char(c) => {
                    if c == 'p' {
                        effects.push(Effect::TogglePause);
                        return effects;
                    } else if c == 'n' {
                        return self.play_next();
                    } else if c == 'N' {
                        return self.play_previous();
                    } else if c == 'r' {
                        self.loop_mode = self.loop_mode.next();
                        return effects;
                    } else if c == ',' {
                        effects.push(Effect::SeekBackward(SEEK_STEP_SECS));
                        return effects;
                    } else if c == ';' {
                        effects.push(Effect::SeekForward(SEEK_STEP_SECS));
                        return effects;
                    }
                },
                _ => {},
            }
        }
        match self.screen {
            Screen::Login => self.handle_login_key(key.key),
            Screen::Main => match self.tab {
                Tab::Search => self.handle_search_key(key.key),
                Tab::Favorites => self.handle_favorites_key(key.key),
                Tab::Playlists => self.handle_playlists_key(key.key),
            },
            Screen::AlbumView => self.handle_album_key(key.key),
            Screen::PlaylistView => self.handle_playlist_view_key(key.key),
        }
    }

    /// A seek asked for by a key failed; show why for a few seconds.
    pub fn seek_failed(&mut self, reason: Option<&str>, now: u64)
        requires
            clock_ok(now),
        ensures
            *final(self) == (App {
                status_message: final(self).status_message,
                status_expires: Some((now + STATUS_LIFETIME_MS) as u64),
                ..*old(self)
            }),
            text_of(final(self).status_message) == Some(
                "Seek: "@ + match reason {
                    Some(r) => r@,
                    None => "unknown"@,
                },
            ),
    {
        let r = match reason {
            Some(r) => r,
            None => "unknown",
        };
        let m = concat("Seek: ", r);
        self.set_temp_status(m, now);
    }
}


/// What the front end reports of the audio output at a clock tick.
#[derive(Debug, Clone, Copy, PartialEq, Eq, Structural)]
pub struct PlaybackReport {
    /// A track is playing (not paused, not loading).
    pub is_playing: bool,
    /// Duration of the current track, in seconds.
    pub duration: u64,
    /// Elapsed time of the current track, in seconds.
    pub elapsed: u64,
    /// The current track ended by itself.
    pub finished: bool,
}

/// The state after the status line expired at `now`, if it did.
pub open spec fn expire_step(o: App, now: u64) -> App {
    match o.status_expires {
        Some(t) => if now >= t {
            App { status_message: None, status_expires: None, ..o }
        } else {
            o
        },
        None => o,
    }
}

/// Queue position of the track to fetch ahead: the next one, or the first
/// when the whole queue loops.
pub open spec fn spec_prefetch_target(o: App) -> Option<int> {
    if spec_has_next(o) {
        Some(o.queue_index + 1)
    } else if o.loop_mode == LoopMode::Queue {
        Some(0)
    } else {
        None
    }
}

/// Fetch the next track ahead of time, unless it was already fetched or is cached.
pub open spec fn prefetch_step<Buf>(o: App, cached: Map<Seq<char>, Seq<char>>) -> (App, Seq<Effect<Buf>>) {
    if o.next_track_prefetched {
        (o, seq![])
    } else {
        match spec_prefetch_target(o) {
            Some(i) => if i < o.queue@.len() && !cached.contains_key(o.queue@[i].id@) {
                (App { next_track_prefetched: true, ..o }, seq![Effect::<Buf>::Prefetch(o.queue@[i])])
            } else {
                (o, seq![])
            },
            None => (o, seq![]),
        }
    }
}

/// What happens when the current track ends, by loop mode: replay it, go on
/// with the queue (wrapping around when it loops), or stop after the last.
pub open spec fn finish_step<Buf>(o: App) -> (App, Seq<Effect<Buf>>) {
    let a = App { next_track_prefetched: false, ..o };
    match o.loop_mode {
        LoopMode::Track => if o.queue_index < o.queue@.len() {
            (a, seq![Effect::<Buf>::PlayTrack(o.queue@[o.queue_index as int])])
        } else {
            (a, seq![])
        },
        LoopMode::Queue => {
            let i: usize = if spec_has_next(o) { (o.queue_index + 1) as usize } else { 0 };
            if i < o.queue@.len() {
                (App { queue_index: i, ..a }, seq![Effect::<Buf>::PlayTrack(o.queue@[i as int])])
            } else {
                (App { queue_index: i, ..a }, seq![])
            }
        },
        LoopMode::Off => if spec_has_next(o) {
            (
                App { queue_index: (o.queue_index + 1) as usize, ..a },
                seq![Effect::<Buf>::PlayTrack(o.queue@[o.queue_index + 1])],
            )
        } else {
            (a, seq![Effect::<Buf>::ClearPlayer])
        },
    }
}

/// The track is close enough to its end to fetch the next one.
pub open spec fn near_end(r: PlaybackReport) -> bool {
    r.is_playing && r.duration > 0 && r.elapsed + PREFETCH_LEAD_SECS >= r.duration
}

/// Effect of a clock tick at `now`: expire the status line, fetch the next
/// track ahead near the end of the current one, and move on when it ended.
pub open spec fn tick_step<Buf>(o: App, now: u64, r: PlaybackReport, cached: Map<Seq<char>, Seq<char>>) -> (App, Seq<Effect<Buf>>) {
    let a = expire_step(o, now);
    let (b, e1) = if near_end(r) { prefetch_step::<Buf>(a, cached) } else { (a, seq![]) };
    let (c, e2) = if r.finished { finish_step::<Buf>(b) } else { (b, seq![]) };
    (c, e1 + e2)
}

impl App {
    fn prefetch_next<Buf>(&mut self, cache: &AudioCache) -> (effects: Vec<Effect<Buf>>)
        ensures
            (*final(self), effects@) == prefetch_step::<Buf>(*old(self), cache.index()),
    {
        let mut effects: Vec<Effect<Buf>> = Vec::new();
        if self.next_track_prefetched {
            return effects;
        }
        let len: usize = self.queue.len();
        let next_idx: usize = if len > 0 && self.queue_index < len - 1 {
            self.queue_index + 1
        } else if self.loop_mode == LoopMode::Queue {
            0
        } else {
            return effects;
        };
        if next_idx < len {
            if cache.has(self.queue[next_idx].id.as_str()) {
                return effects;
            }
            effects.push(Effect::Prefetch(self.queue[next_idx].clone()));
            self.next_track_prefetched = true;
        }
        effects
    }

    fn on_track_finished<Buf>(&mut self) -> (effects: Vec<Effect<Buf>>)
        ensures
            (*final(self), effects@) == finish_step::<Buf>(*old(self)),
    {
        let mut effects: Vec<Effect<Buf>> = Vec::new();
        self.next_track_prefetched = false;
        let len: usize = self.queue.len();
        match self.loop_mode {
            LoopMode::Track => {
                if self.queue_index < len {
                    effects.push(Effect::PlayTrack(self.queue[self.queue_index].clone()));
                }
            },
            LoopMode::Queue => {
                if len > 0 && self.queue_index < len - 1 {
                    self.queue_index = self.queue_index + 1;
                } else {
                    self.queue_index = 0;
                }
                if self.queue_index < len {
                    effects.push(Effect::PlayTrack(self.queue[self.queue_index].clone()));
                }
            },
            LoopMode::Off => {
                if len > 0 && self.queue_index < len - 1 {
                    self.queue_index = self.queue_index + 1;
                    effects.push(Effect::PlayTrack(self.queue[self.queue_index].clone()));
                } else {
                    effects.push(Effect::ClearPlayer);
                }
            },
        }
        effects
    }

    /// Advance the application clock to `now` (milliseconds), given what the
    /// audio output reports and which tracks are cached.
    pub fn tick<Buf>(&mut self, now: u64, report: PlaybackReport, cache: &AudioCache) -> (effects: Vec<Effect<Buf>>)
        ensures
            (*final(self), effects@) == tick_step::<Buf>(*old(self), now, report, cache.index()),
    {
        match self.status_expires {
            Some(t) => {
                if now >= t {
                    self.status_message = None;
                    self.status_expires = None;
                }
            },
            None => {},
        }
        let ghost a = *self;
        let near = report.is_playing && report.duration > 0 && (report.elapsed >= report.duration
            || report.duration - report.elapsed <= PREFETCH_LEAD_SECS);
        let mut effects: Vec<Effect<Buf>> = if near {
            self.prefetch_next(cache)
        } else {
            Vec::new()
        };
        let ghost e1 = effects@;
        if report.finished {
            let mut more = self.on_track_finished();
            effects.append(&mut more);
        }
        proof {
            assert(e1 + Seq::<Effect<Buf>>::empty() =~= e1);
        }
        effects
    }

    /// The application state at start-up: the screen follows the login
    /// state, the email is prefilled, and the saved queue and loop mode are
    /// restored. Credentials are fetched when they are missing.
    pub fn new<Buf>(
        config: Config,
        config_path: String,
        saved_queue: &Vec<SessionTrack>,
        saved_index: usize,
        saved_loop: u8,
    ) -> (res: (App, Vec<Effect<Buf>>))
        ensures
            res.0.screen == (if spec_is_logged_in(config) { Screen::Main } else { Screen::Login }),
            !res.0.should_quit,
            res.0.tab == Tab::Search,
            res.0.login_email@ == (match config.email {
                Some(e) => e@,
                None => Seq::<char>::empty(),
            }),
            res.0.login_password@ == Seq::<char>::empty(),
            res.0.login_focus == LoginField::Email,
            res.0.login_error is None,
            !res.0.login_loading,
            text_of(res.0.login_status) == (if spec_has_app_credentials(config) {
                None
            } else {
                Some("Fetching Qobuz API credentials..."@)
            }),
            res.0.search_query@ == Seq::<char>::empty(),
            res.0.search_tracks@.len() == 0,
            res.0.search_albums@.len() == 0,
            res.0.search_selected == 0,
            res.0.search_scroll == 0,
            res.0.search_mode == SearchMode::Tracks,
            res.0.favorite_albums@.len() == 0,
            res.0.favorites_selected == 0,
            res.0.favorites_scroll == 0,
            !res.0.favorites_loaded,
            res.0.album is None,
            res.0.album_tracks@.len() == 0,
            res.0.album_selected == 0,
            res.0.album_scroll == 0,
            res.0.playlists@.len() == 0,
            res.0.playlists_selected == 0,
            res.0.playlists_scroll == 0,
            !res.0.playlists_loaded,
            res.0.playlist_tracks@.len() == 0,
            res.0.playlist_name is None,
            res.0.playlist_selected == 0,
            res.0.playlist_scroll == 0,
            res.0.queue@.len() == saved_queue@.len(),
            forall|i: int| 0 <= i < saved_queue@.len() ==> #[trigger] res.0.queue@[i] == spec_track_of(saved_queue@[i]),
            res.0.queue_index == saved_index,
            res.0.loop_mode == spec_loop_of_code(saved_loop),
            !res.0.next_track_prefetched,
            res.0.status_message is None,
            res.0.status_expires is None,
            res.0.config == config,
            res.0.config_path == config_path,
            spec_has_app_credentials(config) ==> res.1@.len() == 0,
            !spec_has_app_credentials(config) ==> res.1@ == seq![Effect::<Buf>::FetchCredentials],
    {
        let screen = if config.is_logged_in() { Screen::Main } else { Screen::Login };
        let login_email = match &config.email {
            Some(e) => e.clone(),
            None => String::new(),
        };
        let mut effects: Vec<Effect<Buf>> = Vec::new();
        let has_credentials = config.has_app_credentials();
        let login_status = if !has_credentials {
            effects.push(Effect::FetchCredentials);
            Some("Fetching Qobuz API credentials...".to_owned())
        } else {
            None
        };
        let mut queue: Vec<Track> = Vec::new();
        let mut i: usize = 0;
        while i < saved_queue.len()
            invariant
                i <= saved_queue@.len(),
                queue@.len() == i,
                forall|j: int| 0 <= j < i ==> #[trigger] queue@[j] == spec_track_of(saved_queue@[j]),
            decreases saved_queue.len() - i,
        {
            queue.push(saved_queue[i].to_track());
            i = i + 1;
        }
        let app = App {
            screen,
            should_quit: false,
            tab: Tab::Search,
            login_email,
            login_password: String::new(),
            login_focus: LoginField::Email,
            login_error: None,
            login_loading: false,
            login_status,
            search_query: String::new(),
            search_tracks: Vec::new(),
            search_albums: Vec::new(),
            search_selected: 0,
            search_scroll: 0,
            search_mode: SearchMode::Tracks,
            favorite_albums: Vec::new(),
            favorites_selected: 0,
            favorites_scroll: 0,
            favorites_loaded: false,
            album: None,
            album_tracks: Vec::new(),
            album_selected: 0,
            album_scroll: 0,
            playlists: Vec::new(),
            playlists_selected: 0,
            playlists_scroll: 0,
            playlists_loaded: false,
            playlist_tracks: Vec::new(),
            playlist_name: None,
            playlist_selected: 0,
            playlist_scroll: 0,
            queue,
            queue_index: saved_index,
            loop_mode: LoopMode::from_code(saved_loop),
            next_track_prefetched: false,
            status_message: None,
            status_expires: None,
            config,
            config_path,
        };
        (app, effects)
    }

    /// The queue as session records, for saving.
    pub fn session_queue(&self) -> (saved: Vec<SessionTrack>)
        ensures
            saved@.len() == self.queue@.len(),
            forall|i: int| 0 <= i < self.queue@.len() ==> spec_session_of(self.queue@[i], #[trigger] saved@[i]),
    {
        let mut saved: Vec<SessionTrack> = Vec::new();
        let mut i: usize = 0;
        while i < self.queue.len()
            invariant
                i <= self.queue@.len(),
                saved@.len() == i,
                forall|j: int| 0 <= j < i ==> spec_session_of(self.queue@[j], #[trigger] saved@[j]),
            decreases self.queue.len() - i,
        {
            saved.push(SessionTrack::from_track(&self.queue[i]));
            i = i + 1;
        }
        saved
    }
}


/// Going to the next track and back to the previous one returns to the same
/// queue position and plays the track that was current.
pub proof fn lemma_next_then_previous<Buf>(o: App, n1: App, e1: Seq<Effect<Buf>>, n2: App, e2: Seq<Effect<Buf>>)
    requires
        o.queue@.len() <= usize::MAX,
        spec_has_next(o),
        next_post(o, n1, e1),
        previous_post(n1, n2, e2),
    ensures
        n2 == o,
        e2 == seq![Effect::<Buf>::PlayTrack(o.queue@[o.queue_index as int])],
{
    assert(n1.queue_index == o.queue_index + 1);
    assert(n2.queue_index == o.queue_index);
    assert(n2 == (App { queue_index: o.queue_index, ..o }));
}

/// When a track ends, a queue position inside the queue stays inside it,
/// whatever the loop mode.
pub proof fn lemma_finish_keeps_index_in_queue<Buf>(o: App)
    requires
        o.queue_index < o.queue@.len(),
    ensures
        finish_step::<Buf>(o).0.queue_index < o.queue@.len(),
        finish_step::<Buf>(o).0.queue == o.queue,
{
}

/// With the whole queue looping, the end of the last track starts the
/// first one again.
pub proof fn lemma_queue_loop_wraps<Buf>(o: App)
    requires
        o.loop_mode == LoopMode::Queue,
        o.queue@.len() > 0,
        o.queue_index == o.queue@.len() - 1,
    ensures
        finish_step::<Buf>(o).0.queue_index == 0,
        finish_step::<Buf>(o).1 == seq![Effect::<Buf>::PlayTrack(o.queue@[0])],
{
}

/// With one track looping, the end of the track plays it again and the
/// queue position does not move.
pub proof fn lemma_track_loop_repeats<Buf>(o: App)
    requires
        o.loop_mode == LoopMode::Track,
        o.queue_index < o.queue@.len(),
    ensures
        finish_step::<Buf>(o).0.queue_index == o.queue_index,
        finish_step::<Buf>(o).1 == seq![Effect::<Buf>::PlayTrack(o.queue@[o.queue_index as int])],
{
}

/// Without looping, the end of a track that has a successor moves the queue
/// position one on and plays that next track, and nothing else: playback goes
/// on by itself through the queue.
pub proof fn lemma_no_loop_advances<Buf>(o: App)
    requires
        o.queue@.len() <= usize::MAX,
        o.loop_mode == LoopMode::Off,
        o.queue_index + 1 < o.queue@.len(),
    ensures
        finish_step::<Buf>(o).0.queue_index == o.queue_index + 1,
        finish_step::<Buf>(o).0.queue == o.queue,
        finish_step::<Buf>(o).1 == seq![Effect::<Buf>::PlayTrack(o.queue@[o.queue_index + 1])],
{
}

/// Without looping, the end of a track stops the player exactly when it was
/// the last one of the queue.
pub proof fn lemma_no_loop_clears_only_at_end<Buf>(o: App)
    requires
        o.loop_mode == LoopMode::Off,
    ensures
        finish_step::<Buf>(o).1.contains(Effect::<Buf>::ClearPlayer) <==> o.queue_index + 1 >= o.queue@.len(),
{
    if o.queue_index + 1 < o.queue@.len() {
        let e = finish_step::<Buf>(o).1;
        if e.contains(Effect::<Buf>::ClearPlayer) {
            let i = choose|i: int| 0 <= i < e.len() && e[i] == Effect::<Buf>::ClearPlayer;
            assert(e[0] == Effect::<Buf>::PlayTrack(o.queue@[o.queue_index + 1]));
        }
    } else {
        assert(finish_step::<Buf>(o).1[0] == Effect::<Buf>::ClearPlayer);
    }
}

/// A clock tick that reports the end of the current track, with no looping
/// and a next track queued, moves to that track and ends by playing it,
/// whatever else the tick does (expiring the status line, fetching ahead).
pub proof fn lemma_tick_plays_next_at_end<Buf>(o: App, now: u64, r: PlaybackReport, cached: Map<Seq<char>, Seq<char>>)
    requires
        r.finished,
        o.queue@.len() <= usize::MAX,
        o.loop_mode == LoopMode::Off,
        o.queue_index + 1 < o.queue@.len(),
    ensures
        tick_step::<Buf>(o, now, r, cached).0.queue_index == o.queue_index + 1,
        tick_step::<Buf>(o, now, r, cached).1.len() > 0,
        tick_step::<Buf>(o, now, r, cached).1.last() == Effect::<Buf>::PlayTrack(o.queue@[o.queue_index + 1]),
        !tick_step::<Buf>(o, now, r, cached).1.contains(Effect::<Buf>::ClearPlayer),
{
    let a = expire_step(o, now);
    let (b, e1) = if near_end(r) { prefetch_step::<Buf>(a, cached) } else { (a, seq![]) };
    assert(b.queue_index == o.queue_index && b.queue == o.queue && b.loop_mode == o.loop_mode);
    lemma_no_loop_advances::<Buf>(b);
    let e = tick_step::<Buf>(o, now, r, cached).1;
    assert(e == e1 + seq![Effect::<Buf>::PlayTrack(o.queue@[o.queue_index + 1])]);
    assert(e1.len() <= 1);
    assert(forall|i: int| 0 <= i < e1.len() ==> e1[i] is Prefetch);
    if e.contains(Effect::<Buf>::ClearPlayer) {
        let i = choose|i: int| 0 <= i < e.len() && e[i] == Effect::<Buf>::ClearPlayer;
        if i < e1.len() {
            assert(e[i] == e1[i]);
        }
    }
}

/// Without looping, the end of the last track stops playback and the queue
/// position stays on it.
pub proof fn lemma_no_loop_stops_at_end<Buf>(o: App)
    requires
        o.loop_mode == LoopMode::Off,
        !spec_has_next(o),
    ensures
        finish_step::<Buf>(o).0.queue_index == o.queue_index,
        finish_step::<Buf>(o).1 == seq![Effect::<Buf>::ClearPlayer],
{
}

/// The next track is fetched ahead at most once per track: after a fetch
/// the flag is set, and a second tick near the end fetches nothing more.
pub proof fn lemma_prefetch_once<Buf>(o: App, cached: Map<Seq<char>, Seq<char>>)
    ensures
        prefetch_step::<Buf>(prefetch_step::<Buf>(o, cached).0, cached).1.len() == 0
            || prefetch_step::<Buf>(o, cached).1.len() == 0,
{
}

/// A status line set at `now` with a temporary message is gone at the first
/// tick three seconds later, and still shown before.
pub proof fn lemma_temp_status_expires<Buf>(o: App, set_at: u64, now: u64)
    requires
        clock_ok(set_at),
        o.status_expires == Some((set_at + STATUS_LIFETIME_MS) as u64),
    ensures
        now >= set_at + STATUS_LIFETIME_MS ==> expire_step(o, now).status_message is None,
        now < set_at + STATUS_LIFETIME_MS ==> expire_step(o, now) == o,
{
}

/// Removing an album from the favorites leaves no album with that id, and
/// the selection stays on a listed album (or at 0 when none is left).
pub proof fn lemma_unfavorite_removes(albums: Seq<Album>, id: Seq<char>, selected: usize)
    requires
        selected < albums.len() || selected == 0,
    ensures
        forall|i: int| 0 <= i < albums.filter(album_id_differs(id)).len() ==>
            (#[trigger] albums.filter(album_id_differs(id))[i]).id@ != id,
        albums.filter(album_id_differs(id)).len() <= albums.len(),
        spec_clamped_selection(selected, albums.filter(album_id_differs(id)).len()) < albums.filter(
            album_id_differs(id),
        ).len() || spec_clamped_selection(selected, albums.filter(album_id_differs(id)).len()) == 0,
{
    broadcast use vstd::seq_lib::group_filter_ensures;

}

} // verus!
