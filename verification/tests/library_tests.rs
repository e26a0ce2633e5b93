use qobuz_lib::api::Track;
use qobuz_lib::app::{scroll_offset, App, AppMessage, Effect, Key, KeyInput, LoginField, LoopMode, Screen, Tab};
use qobuz_lib::auth::{password_hash, request_signature, signature_input};
use qobuz_lib::cache::{relative_path, sanitize, AudioCache, TrackMeta};
use qobuz_lib::config::Config;
use qobuz_lib::credentials::{
    bundle_urls, bundle_urls_from_sources, choose_seed_call, extract_app_id, extract_secret_from_bundle,
    fragment_bytes, secret_from_decoded, seed_calls_of, CredentialSearch,
};
use qobuz_lib::download::{AlbumDownload, AudioFailure, FormatPlan, RetryPlan, TrackAction};
use qobuz_lib::error::QobuzError;
use qobuz_lib::player::{AudioQuality, PauseChange, PlaybackState};
use qobuz_lib::queue::{next_index, next_loop_code, previous_index};
use qobuz_lib::replies::{
    login_result, playlist_source, require_token, search_result, track_url_result, unexpected_keys_message,
    LoginReply, PlaylistSource, TrackUrlReply,
};
use qobuz_lib::sandbox::{enforcement_message, read_only_paths, read_write_paths, Enforcement};
use qobuz_lib::session::SessionTrack;
use qobuz_lib::stream::{
    new_streaming_pair, seek_position, stream_threshold, ReadOutcome, SeekError, SeekOrigin,
    StreamState,
};
use qobuz_lib::streaming::{ResponseFailure, StreamPlan};
use qobuz_lib::view::{
    centered_rect, count_caption, fmt_dur, format_duration, help_entries, inner_rect,
    list_visible_height, player_icon, queue_info, row_marker, row_shade, scroll_caption,
    status_is_error, window_end, Area, PlayerIcon, RowShade,
};
use qobuz_lib::view::{masked, seek_hint, submit_caption, tab_index};

const SECOND: u64 = 1_000_000_000;

// ----- Signing -----

#[test]
fn password_hash_is_md5_hex() {
    assert_eq!(password_hash("password"), "5f4dcc3b5aa765d61d8327deb882cf99");
}

#[test]
fn request_signature_signs_the_parameters() {
    assert_eq!(
        signature_input(27, "12345", 1700000000, "secret"),
        "trackgetFileUrlformat_id27intentstreamtrack_id123451700000000secret"
    );
    assert_eq!(
        request_signature(27, "12345", 1700000000, "secret"),
        "3eb350f911f88c6970d99eebd510d6f4"
    );
}

// ----- Credentials -----

fn sample_bundle() -> String {
    let mut b = String::new();
    b.push_str("var config={production:{api:{appId:\"798273057\",appSecret:\"x\"}}};");
    b.push_str("var other={appId:\"111111111\"};");
    b.push_str("if(production){a.initialSeed(\"MDEyMzQ1Njc4OWFiY2RlZjAx\",window.utimezone.berlin)}");
    b.push_str("var tz=[{name:\"Europe/Berlin\",info:\"MjM0NTY3ODlhYmNkZWY=\",extras:\"");
    b.push_str(&"x".repeat(44));
    b.push_str("\"}];");
    b
}

#[test]
fn app_id_prefers_production() {
    assert_eq!(extract_app_id(&sample_bundle()), Some("798273057".to_string()));
    assert_eq!(extract_app_id("appId=\"123456789\""), Some("123456789".to_string()));
    assert_eq!(extract_app_id("nothing here"), None);
}

#[test]
fn secret_is_rebuilt_from_fragments() {
    assert_eq!(
        extract_secret_from_bundle(&sample_bundle()),
        Some("0123456789abcdef0123456789abcdef".to_string())
    );
}

#[test]
fn secret_missing_without_seed_or_zone() {
    assert_eq!(extract_secret_from_bundle("no seed"), None);
    let no_zone = "initialSeed(\"AAAA\",window.utimezone.paris)";
    assert_eq!(extract_secret_from_bundle(no_zone), None);
}

#[test]
fn bundle_urls_follow_page_order() {
    let html = "<script type=\"m\" src=\"/js/main.js\"></script><script src=\"https://cdn.example/x.js?v=1\"></script><script src=\"rel.js\"></script>";
    assert_eq!(
        bundle_urls(html),
        Some(vec![
            "https://play.qobuz.com/js/main.js".to_string(),
            "https://cdn.example/x.js?v=1".to_string(),
        ])
    );
}

#[test]
fn credential_search_keeps_first_finds() {
    let mut s = CredentialSearch::new();
    assert!(!s.is_complete());
    s.absorb_bundle("appId:\"222222222\"");
    assert_eq!(s.app_id.as_deref(), Some("222222222"));
    s.absorb_bundle(&sample_bundle());
    assert_eq!(s.app_id.as_deref(), Some("222222222"));
    assert!(s.is_complete());
    assert_eq!(
        s.finish("\"/cfg\""),
        Ok(("222222222".to_string(), "0123456789abcdef0123456789abcdef".to_string()))
    );
}

#[test]
fn credential_search_names_the_missing_part() {
    let s = CredentialSearch::new();
    assert_eq!(
        s.finish("\"/home/u/.config/qobuz-tui/config.toml\""),
        Err("Could not extract app_id. Set it manually in \"/home/u/.config/qobuz-tui/config.toml\"".to_string())
    );
    let mut t = CredentialSearch::new();
    t.absorb_bundle("appId:\"222222222\"");
    assert_eq!(
        t.finish("p"),
        Err("Could not extract app_secret. Set it manually in p".to_string())
    );
}

#[test]
fn require_token_refuses_without_login() {
    assert_eq!(require_token(Some("tok")), Ok("tok"));
    assert_eq!(require_token(None), Err("Not authenticated".to_string()));
}

// ----- Cache -----

#[test]
fn sanitize_replaces_and_trims() {
    assert_eq!(sanitize("  AC/DC: Live?  "), "AC_DC_ Live_");
    assert_eq!(sanitize("a\\b*c\"d<e>f|g"), "a_b_c_d_e_f_g");
}

#[test]
fn sanitize_turns_dot_names_into_underscores() {
    assert_eq!(sanitize(".."), "__");
    assert_eq!(sanitize(" .. "), "__");
    assert_eq!(sanitize("."), "_");
    assert_eq!(sanitize("..."), "...");
    assert_eq!(sanitize(" .... "), "....");
    assert_eq!(sanitize("..a"), "..a");
    assert_eq!(sanitize("   "), "");
}

#[test]
fn sanitize_is_idempotent() {
    for s in ["  AC/DC: Live?  ", "..", " . ", "a\\b", "", "x\0y"] {
        let once = sanitize(s);
        assert_eq!(sanitize(&once), once);
        assert!(!once.contains('/'));
        assert_eq!(once.trim(), once);
    }
}

#[test]
fn relative_path_never_climbs_out() {
    let meta = TrackMeta { artist: "..", album: ".", track_number: Some(1), title: "../x" };
    assert_eq!(relative_path(&meta), "__/_/01 - .._x.flac");
    let empty = TrackMeta { artist: " ", album: "", track_number: Some(12), title: "T" };
    assert_eq!(relative_path(&empty), "12 - T.flac");
    let no_album = TrackMeta { artist: "A", album: "  ", track_number: None, title: "T" };
    assert_eq!(relative_path(&no_album), "A/T.flac");
}

#[test]
fn cache_register_then_lookup() {
    let mut cache = AudioCache::with_dir("/tmp/cache".to_string());
    assert!(!cache.has("t1"));
    let meta = TrackMeta { artist: "Queen", album: "Jazz", track_number: Some(3), title: "Mustapha" };
    assert_eq!(relative_path(&meta), "Queen/Jazz/03 - Mustapha.flac");
    cache.register("t1", &meta);
    assert!(cache.has("t1"));
    assert_eq!(cache.lookup("t1"), Some("Queen/Jazz/03 - Mustapha.flac".to_string()));
    let untitled = TrackMeta { artist: "A", album: "B", track_number: None, title: "C" };
    assert_eq!(relative_path(&untitled), "A/B/C.flac");
}

// ----- Stream -----

#[test]
fn stream_state_reads_what_was_written() {
    let mut s = StreamState::new(100);
    let mut buf = [0u8; 4];
    assert_eq!(s.read_at(0, &mut buf), ReadOutcome::Pending);
    s.write(&[1, 2, 3]);
    s.write(&[4, 5]);
    assert_eq!(s.downloaded(), 5);
    assert_eq!(s.read_at(1, &mut buf), ReadOutcome::Copied(4));
    assert_eq!(buf, [2, 3, 4, 5]);
    assert_eq!(s.read_at(5, &mut buf), ReadOutcome::Pending);
    s.finish();
    assert!(s.is_complete());
    assert_eq!(s.read_at(5, &mut buf), ReadOutcome::EndOfStream);
    assert_eq!(s.get_data(), vec![1, 2, 3, 4, 5]);
}

#[test]
fn streaming_pair_shares_the_data() {
    let (writer, mut reader) = new_streaming_pair(0);
    writer.write(b"hello");
    assert_eq!(writer.downloaded(), 5);
    let mut buf = [0u8; 3];
    assert_eq!(reader.read(&mut buf), ReadOutcome::Copied(3));
    assert_eq!(&buf, b"hel");
    assert_eq!(reader.seek(SeekOrigin::End(-1)), Ok(4));
    assert_eq!(reader.read(&mut buf), ReadOutcome::Copied(1));
    assert_eq!(buf[0], b'o');
    assert_eq!(reader.read(&mut buf), ReadOutcome::Pending);
    writer.finish();
    assert_eq!(reader.read(&mut buf), ReadOutcome::EndOfStream);
    assert_eq!(writer.get_data(), b"hello".to_vec());
}

#[test]
fn interleaved_reads_return_the_chunks_in_order() {
    let (writer, mut reader) = new_streaming_pair(0);
    let chunks: [&[u8]; 3] = [b"abc", b"de", b"fghij"];
    let mut got: Vec<u8> = Vec::new();
    let mut buf = [0u8; 2];
    assert_eq!(reader.read(&mut buf), ReadOutcome::Pending);
    for chunk in chunks.iter() {
        writer.write(chunk);
        loop {
            match reader.read(&mut buf) {
                ReadOutcome::Copied(n) => {
                    assert!(n > 0 && n <= buf.len());
                    got.extend_from_slice(&buf[..n]);
                }
                ReadOutcome::Pending => break,
                ReadOutcome::EndOfStream => panic!("end before finish"),
            }
        }
    }
    writer.finish();
    assert_eq!(reader.read(&mut buf), ReadOutcome::EndOfStream);
    assert_eq!(got, b"abcdefghij".to_vec());
}

#[test]
fn seek_rules() {
    assert_eq!(seek_position(SeekOrigin::Start(7), 3, 0, 0), Ok(7));
    assert_eq!(seek_position(SeekOrigin::Current(-3), 3, 0, 0), Ok(0));
    assert_eq!(seek_position(SeekOrigin::Current(-4), 3, 0, 0), Err(SeekError::BeforeStart));
    assert_eq!(seek_position(SeekOrigin::End(-10), 0, 100, 5), Ok(90));
    assert_eq!(seek_position(SeekOrigin::End(-1), 0, 0, 5), Ok(4));
    assert_eq!(seek_position(SeekOrigin::Start(u64::MAX), 0, 0, 0), Err(SeekError::PositionOverflow));
    assert_eq!(seek_position(SeekOrigin::Current(i64::MAX), 1, 0, 0), Err(SeekError::SeekOverflow));
    assert_eq!(seek_position(SeekOrigin::End(0), 0, u64::MAX, 0), Err(SeekError::LengthOverflow));
    assert_eq!(SeekError::BeforeStart.message(), "seek before start");
}

#[test]
fn stream_threshold_is_a_clamped_tenth() {
    assert_eq!(stream_threshold(0), 65536);
    assert_eq!(stream_threshold(1_048_576), 104857);
    assert_eq!(stream_threshold(100_000_000), 262144);
}

// ----- Streaming plan -----

#[test]
fn stream_plan_falls_back_and_announces() {
    let mut p = StreamPlan::new(27);
    assert_eq!(p.next_format(), Some(27));
    p.url_failed();
    assert_eq!(p.next_format(), Some(7));
    assert_eq!(p.url_found(), Some("FLAC 24/96"));
    let total = p.response_started(Some(1_000_000));
    assert_eq!(total, 1_000_000);
    assert!(!p.chunk_received(50_000));
    assert!(p.chunk_received(100_000));
    assert!(!p.chunk_received(200_000));
    assert_eq!(p.response_ended(None), (false, true));
}

#[test]
fn stream_plan_preferred_format_is_not_announced() {
    let mut p = StreamPlan::new(6);
    assert_eq!(p.next_format(), Some(6));
    assert_eq!(p.url_found(), None);
    p.response_failed(ResponseFailure::Status(404));
    assert_eq!(p.next_format(), Some(5));
    assert_eq!(p.url_found(), Some("MP3 320k"));
    p.response_started(None);
    assert_eq!(p.response_ended(Some("reset".to_string())), (true, false));
    assert_eq!(p.next_format(), None);
    match p.into_error() {
        QobuzError::DownloadFailed(m) => assert_eq!(m, "reset"),
        other => panic!("unexpected {:?}", other),
    }
}

#[test]
fn stream_plan_without_any_response() {
    let mut p = StreamPlan::new(5);
    assert_eq!(p.next_format(), Some(5));
    p.url_failed();
    assert_eq!(p.next_format(), None);
    assert_eq!(p.into_error().message(), "No audio format available");
}

// ----- Downloads -----

#[test]
fn retry_plan_waits_longer_each_time() {
    let mut p = RetryPlan::new();
    assert_eq!(p.next_attempt(), Some(0));
    p.failed(AudioFailure::Request("timeout".to_string()));
    assert_eq!(p.next_attempt(), Some(2));
    p.failed(AudioFailure::Status("503 Service Unavailable".to_string()));
    assert_eq!(p.next_attempt(), Some(3));
    assert!(!p.body_read(0));
    assert_eq!(p.next_attempt(), Some(4));
    p.failed(AudioFailure::Read("eof".to_string()));
    assert_eq!(p.next_attempt(), None);
    assert_eq!(p.into_error(), "Read failed: eof");
}

#[test]
fn retry_plan_messages() {
    let mut p = RetryPlan::new();
    p.failed(AudioFailure::Status("404 Not Found".to_string()));
    assert_eq!(p.into_error(), "HTTP 404 Not Found");
    let mut q = RetryPlan::new();
    q.failed(AudioFailure::Read("eof".to_string()));
    assert!(q.body_read(10));
    assert_eq!(q.into_error(), "Read failed: eof");
    assert_eq!(RetryPlan::new().into_error(), "Download failed");
}

#[test]
fn format_plan_records_the_failing_format() {
    let mut p = FormatPlan::new(7);
    assert_eq!(p.next_format(), Some(7));
    p.download_failed(7, "HTTP 500");
    assert_eq!(p.next_format(), Some(6));
    assert_eq!(p.next_format(), Some(5));
    assert_eq!(p.next_format(), None);
    assert_eq!(p.into_error(), "format 7: HTTP 500");
    assert_eq!(FormatPlan::new(5).into_error(), "No format available");
}

fn progress(m: &AppMessage<()>) -> Option<(usize, usize)> {
    match m {
        AppMessage::DownloadProgress(a, b) => Some((*a, *b)),
        _ => None,
    }
}

fn error_text(m: &AppMessage<()>) -> Option<String> {
    match m {
        AppMessage::DownloadError(e) => Some(e.clone()),
        _ => None,
    }
}

#[test]
fn album_download_skips_cached_and_gives_up_after_three() {
    let mut d = AlbumDownload::new(2);
    let (a, msgs) = d.start_track::<()>(true);
    assert_eq!(a, TrackAction::Skip);
    assert_eq!(progress(&msgs[0]), Some((1, 2)));
    let (a, msgs) = d.start_track::<()>(false);
    assert_eq!(a, TrackAction::Download(0));
    assert!(msgs.is_empty());
    let (a, _) = d.attempt_failed::<()>("Song", "boom");
    assert_eq!(a, Some(TrackAction::Download(2)));
    let (a, _) = d.attempt_failed::<()>("Song", "boom");
    assert_eq!(a, Some(TrackAction::Download(4)));
    let (a, msgs) = d.attempt_failed::<()>("Song", "boom");
    assert_eq!(a, None);
    assert_eq!(progress(&msgs[0]), Some((2, 2)));
    assert_eq!(error_text(&msgs[1]), Some("Skipped \"Song\": boom".to_string()));
    assert!(d.is_over());
    let end = d.finish::<()>();
    assert!(matches!(end[0], AppMessage::DownloadDone));
    assert_eq!(error_text(&end[1]), Some("1 track(s) failed to download".to_string()));
}

#[test]
fn album_download_all_good() {
    let mut d = AlbumDownload::new(1);
    let _ = d.start_track::<()>(false);
    let msgs = d.track_done::<()>();
    assert_eq!(progress(&msgs[0]), Some((1, 1)));
    let end = d.finish::<()>();
    assert_eq!(end.len(), 1);
}

// ----- Replies -----

#[test]
fn login_replies() {
    assert_eq!(login_result(LoginReply::Accepted(Some("tok".to_string()))), Ok("tok".to_string()));
    assert_eq!(
        login_result(LoginReply::Accepted(None)),
        Err("No auth token in response".to_string())
    );
    assert_eq!(
        login_result(LoginReply::Refused("401 Unauthorized".to_string(), "bad".to_string())),
        Err("Login failed (401 Unauthorized): bad".to_string())
    );
}

#[test]
fn track_url_replies() {
    assert_eq!(
        track_url_result(TrackUrlReply::Refused(400, "400 Bad Request".to_string(), "{\"message\":\"Invalid request_sig\"}".to_string()), "\"/c\""),
        Err("Invalid request signature \u{2014} the app_secret is likely wrong. Edit app_secret in \"/c\"".to_string())
    );
    assert_eq!(
        track_url_result(TrackUrlReply::Refused(400, "400 Bad Request".to_string(), "other".to_string()), "p"),
        Err("Get track URL failed (400 Bad Request): other".to_string())
    );
    assert_eq!(
        track_url_result(TrackUrlReply::Accepted(Some("https://u".to_string()), "{}".to_string()), "p"),
        Ok("https://u".to_string())
    );
    assert_eq!(
        track_url_result(TrackUrlReply::Accepted(None, "{}".to_string()), "p"),
        Err("No URL in response: {}".to_string())
    );
    assert_eq!(
        track_url_result(TrackUrlReply::Malformed("eof".to_string()), "p"),
        Err("Invalid JSON from getFileUrl: eof".to_string())
    );
}

#[test]
fn search_replies() {
    let r = search_result(None, vec![Track::default()], Some(12), Vec::new(), None).unwrap();
    let tracks = r.tracks.unwrap();
    assert_eq!(tracks.items.len(), 1);
    assert_eq!(tracks.total, 12);
    assert_eq!(r.albums.unwrap().total, 0);
    match search_result(Some("quota".to_string()), Vec::new(), None, Vec::new(), None) {
        Err(e) => assert_eq!(e, "API error: quota"),
        Ok(_) => panic!("expected an error"),
    }
}

#[test]
fn playlist_replies() {
    assert_eq!(playlist_source(true, true, false), Some(PlaylistSource::PlaylistsItems));
    assert_eq!(playlist_source(false, true, true), Some(PlaylistSource::Items));
    assert_eq!(playlist_source(false, false, true), Some(PlaylistSource::Body));
    assert_eq!(playlist_source(false, false, false), None);
    let keys = vec!["status".to_string(), "code".to_string()];
    assert_eq!(unexpected_keys_message(&keys), "Unexpected playlist response keys: [status, code]");
    assert_eq!(unexpected_keys_message(&Vec::new()), "Unexpected playlist response keys: []");
}

// ----- Errors -----

#[test]
fn error_messages() {
    assert_eq!(QobuzError::HttpStatus(404, "gone".to_string()).message(), "HTTP 404: gone");
    assert_eq!(QobuzError::NotAuthenticated.message(), "Not authenticated");
    assert_eq!(QobuzError::LoginFailed("x".to_string()).message(), "Login failed: x");
    assert_eq!(QobuzError::InvalidSignature.message(), "Invalid request signature \u{2014} check app_secret");
}

// ----- Queue -----

#[test]
fn queue_steps() {
    assert_eq!(next_index(0, 3), 1);
    assert_eq!(next_index(2, 3), 2);
    assert_eq!(previous_index(2), 1);
    assert_eq!(previous_index(0), 0);
    assert_eq!(next_loop_code(0), 1);
    assert_eq!(next_loop_code(1), 2);
    assert_eq!(next_loop_code(2), 0);
    assert_eq!(next_loop_code(9), 0);
}

// ----- Player -----

#[test]
fn pause_and_resume_keep_elapsed_time() {
    let mut p = PlaybackState::new();
    p.play_streaming("T", "A", 300, 0);
    assert_eq!(p.elapsed_secs(10 * SECOND), 10);
    assert_eq!(p.toggle_pause(10 * SECOND), PauseChange::Paused);
    assert_eq!(p.elapsed_secs(20 * SECOND), 10);
    assert_eq!(p.toggle_pause(20 * SECOND), PauseChange::Resumed);
    assert_eq!(p.elapsed_secs(25 * SECOND), 15);
    assert!(!p.is_seekable());
    p.enable_seek(vec![1, 2, 3]);
    assert!(p.is_seekable());
    p.set_quality(AudioQuality::from_format_id(7));
    assert_eq!(p.quality(), Some(AudioQuality::FlacHiRes96));
    p.clear();
    assert!(p.current_track_title.is_none());
}

#[test]
fn elapsed_time_stops_at_duration() {
    let mut p = PlaybackState::new();
    p.play_streaming("T", "A", 30, 0);
    assert_eq!(p.elapsed_secs(100 * SECOND), 30);
    assert_eq!(p.seek_forward_target(10, 25 * SECOND), 30);
    assert_eq!(p.seek_backward_target(10, 5 * SECOND), 0);
}

// ----- Application -----

fn logged_in_config() -> Config {
    Config {
        app_id: "1".into(),
        app_secret: "2".into(),
        user_auth_token: Some("t".into()),
        email: Some("me@x".into()),
        format_id: None,
    }
}

#[test]
fn loop_mode_cycles() {
    assert_eq!(LoopMode::Off.next(), LoopMode::Track);
    assert_eq!(LoopMode::Track.next(), LoopMode::Queue);
    assert_eq!(LoopMode::Queue.next(), LoopMode::Off);
    assert_eq!(LoopMode::Off.label(), "");
    assert_eq!(LoopMode::from_code(LoopMode::Queue.code()), LoopMode::Queue);
}

#[test]
fn scroll_keeps_selection_visible() {
    assert_eq!(scroll_offset(0, 0, 10), 0);
    assert_eq!(scroll_offset(15, 0, 10), 6);
    assert_eq!(scroll_offset(3, 5, 10), 3);
    assert_eq!(scroll_offset(7, 5, 10), 5);
}

#[test]
fn app_starts_on_the_right_screen() {
    let (app, effects) = App::new::<()>(logged_in_config(), "/c".to_string(), &Vec::new(), 0, 2);
    assert_eq!(app.screen, Screen::Main);
    assert_eq!(app.login_email, "me@x");
    assert_eq!(app.loop_mode, LoopMode::Queue);
    assert!(effects.is_empty());
    let (app, effects) = App::new::<()>(Config::default(), "/c".to_string(), &Vec::new(), 0, 0);
    assert_eq!(app.screen, Screen::Login);
    assert!(matches!(effects[0], Effect::FetchCredentials));
}

#[test]
fn login_form_keys() {
    let (mut app, _) = App::new::<()>(Config::default(), "/c".to_string(), &Vec::new(), 0, 0);
    let _ = app.handle_key::<()>(KeyInput { key: Key::Char('a'), ctrl: false });
    assert_eq!(app.login_email, "a");
    let _ = app.handle_key::<()>(KeyInput { key: Key::Tab, ctrl: false });
    assert_eq!(app.login_focus, LoginField::Password);
    let _ = app.handle_key::<()>(KeyInput { key: Key::Char('c'), ctrl: true });
    assert!(app.should_quit);
}

#[test]
fn main_tab_cycles() {
    let (mut app, _) = App::new::<()>(logged_in_config(), "/c".to_string(), &Vec::new(), 0, 0);
    assert_eq!(app.tab, Tab::Search);
    let effects = app.handle_key::<()>(KeyInput { key: Key::Tab, ctrl: false });
    assert_eq!(app.tab, Tab::Favorites);
    assert!(matches!(effects[0], Effect::LoadFavorites));
}

#[test]
fn status_message_expires() {
    let (mut app, _) = App::new::<()>(logged_in_config(), "/c".to_string(), &Vec::new(), 0, 0);
    let _ = app.handle_message::<()>(AppMessage::StatusMessage("Quality fallback: FLAC 16/44".to_string()), 1000);
    assert_eq!(app.status_message.as_deref(), Some("Quality fallback: FLAC 16/44"));
    let cache = AudioCache::with_dir("/tmp/c".to_string());
    let report = qobuz_lib::app::PlaybackReport { is_playing: false, duration: 0, elapsed: 0, finished: false };
    let _ = app.tick::<()>(2000, report, &cache);
    assert!(app.status_message.is_some());
    let _ = app.tick::<()>(4000, report, &cache);
    assert!(app.status_message.is_none());
}

// ----- View -----

#[test]
fn view_texts() {
    assert_eq!(fmt_dur(185), "3:05");
    assert_eq!(format_duration(59), "0:59");
    assert_eq!(row_marker(0, false), "  1 ");
    assert_eq!(row_marker(11, false), " 12 ");
    assert_eq!(row_marker(3, true), " \u{25B6} ");
    assert_eq!(scroll_caption(0, 10, 25, 10), " 1-10/25 ");
    assert_eq!(scroll_caption(0, 5, 5, 10), "");
    assert_eq!(count_caption(1, "album"), "1 album");
    assert_eq!(count_caption(3, "playlist"), "3 playlists");
    assert_eq!(queue_info(1, 4), "  \u{2261} 2/4");
    assert_eq!(queue_info(0, 1), "");
    assert!(status_is_error("Download error: x"));
    assert!(status_is_error("Error"));
    assert!(!status_is_error("Loading..."));
}

#[test]
fn view_geometry() {
    let area = Area { x: 0, y: 0, width: 100, height: 40 };
    assert_eq!(centered_rect(52, 17, area), Area { x: 24, y: 11, width: 52, height: 17 });
    assert_eq!(centered_rect(200, 50, area), Area { x: 0, y: 0, width: 100, height: 40 });
    assert_eq!(inner_rect(area, 3, 1), Area { x: 3, y: 1, width: 94, height: 38 });
    assert_eq!(list_visible_height(Area { x: 0, y: 0, width: 10, height: 2 }), 0);
    assert_eq!(list_visible_height(area), 37);
    assert_eq!(window_end(5, 10, 12), 12);
    assert_eq!(window_end(0, 10, 12), 10);
    assert_eq!(row_shade(true, 2), RowShade::Selected);
    assert_eq!(row_shade(false, 2), RowShade::Even);
    assert_eq!(row_shade(false, 3), RowShade::Odd);
    assert_eq!(player_icon(true, true, true), PlayerIcon::Loading);
    assert_eq!(player_icon(false, false, true), PlayerIcon::Paused);
    assert_eq!(player_icon(false, false, false), PlayerIcon::Idle);
}

#[test]
fn view_help() {
    assert!(help_entries(Screen::Login, Tab::Search).is_none());
    let h = help_entries(Screen::PlaylistView, Tab::Search).unwrap();
    assert_eq!(h[0], ("Enter", "Play"));
    assert_eq!(h.len(), 6);
    assert_eq!(help_entries(Screen::Main, Tab::Favorites).unwrap()[1], ("x", "Unfav"));
}

#[test]
fn login_form_texts() {
    assert_eq!(masked("abc"), "\u{2022}\u{2022}\u{2022}");
    assert_eq!(masked("é"), "\u{2022}\u{2022}");
    assert_eq!(masked(""), "");
    assert_eq!(submit_caption(true), " \u{25CC} Connecting... ");
    assert_eq!(submit_caption(false), "  \u{2192} Sign In  ");
    assert_eq!(seek_hint(false), "streaming");
    assert_eq!(tab_index(Tab::Playlists), 2);
}

#[test]
fn application_directories() {
    assert_eq!(qobuz_lib::config::app_dir_in(None), "./qobuz-tui");
    assert_eq!(qobuz_lib::config::app_dir_in(Some("/home/u/.config".to_string())), "/home/u/.config/qobuz-tui");
    assert!(qobuz_lib::config::config_path().ends_with("qobuz-tui/config.toml"));
    assert!(qobuz_lib::config::session_path().ends_with("qobuz-tui/session.json"));
    assert!(qobuz_lib::config::cache_dir().ends_with("qobuz-tui"));
}

#[test]
fn sandbox_policy() {
    let rw = read_write_paths("/home/u/.config/qobuz-tui", "/home/u/.cache/qobuz-tui");
    assert_eq!(rw, vec!["/home/u/.config/qobuz-tui".to_string(), "/home/u/.cache/qobuz-tui".to_string(), "/tmp".to_string()]);
    let ro = read_only_paths();
    assert_eq!(ro.len(), 21);
    assert_eq!(ro[0], "/usr");
    assert_eq!(ro[20], "/run");
    assert_eq!(enforcement_message(Enforcement::NotEnforced), "[sandbox] Landlock not enforced (unsupported kernel)");
}

fn saved(id: &str) -> SessionTrack {
    SessionTrack {
        id: id.to_string(),
        title: format!("T{}", id),
        artist: "A".to_string(),
        artist_id: "a".to_string(),
        album: "B".to_string(),
        duration: 100,
        track_number: None,
    }
}

fn played_id(e: &Effect<()>) -> Option<String> {
    match e {
        Effect::PlayTrack(t) => Some(t.id.clone()),
        _ => None,
    }
}

#[test]
fn queue_navigation_and_auto_advance() {
    let queue = vec![saved("1"), saved("2"), saved("3")];
    let (mut app, _) = App::new::<()>(logged_in_config(), "/c".to_string(), &queue, 0, 0);
    assert_eq!(app.queue.len(), 3);
    let e = app.play_next::<()>();
    assert_eq!(app.queue_index, 1);
    assert_eq!(played_id(&e[0]), Some("2".to_string()));
    let e = app.play_previous::<()>();
    assert_eq!(app.queue_index, 0);
    assert_eq!(played_id(&e[0]), Some("1".to_string()));

    let cache = AudioCache::with_dir("/tmp/c".to_string());
    let near = qobuz_lib::app::PlaybackReport { is_playing: true, duration: 100, elapsed: 90, finished: false };
    let e = app.tick::<()>(10, near, &cache);
    assert!(matches!(&e[0], Effect::Prefetch(t) if t.id == "2"));
    assert!(app.next_track_prefetched);
    let e = app.tick::<()>(20, near, &cache);
    assert!(e.is_empty());

    let done = qobuz_lib::app::PlaybackReport { is_playing: true, duration: 100, elapsed: 100, finished: true };
    app.queue_index = 2;
    app.next_track_prefetched = true;
    let e = app.tick::<()>(30, done, &cache);
    assert!(matches!(e.last(), Some(Effect::ClearPlayer)));
    assert_eq!(app.queue_index, 2);

    app.loop_mode = LoopMode::Queue;
    let e = app.tick::<()>(40, done, &cache);
    assert_eq!(app.queue_index, 0);
    assert_eq!(played_id(e.last().unwrap()), Some("1".to_string()));

    app.loop_mode = LoopMode::Track;
    let e = app.tick::<()>(50, done, &cache);
    assert_eq!(app.queue_index, 0);
    assert_eq!(played_id(e.last().unwrap()), Some("1".to_string()));
}

#[test]
fn secret_pieces() {
    let x44 = "x".repeat(44);
    assert_eq!(fragment_bytes("AB", "CD", &x44), Some(b"ABCD".to_vec()));
    assert_eq!(fragment_bytes("AB", "", &"x".repeat(42)), None);
    assert_eq!(
        secret_from_decoded(&b"0123456789abcdef0123456789ABCDEF".to_vec()),
        Some("0123456789abcdef0123456789ABCDEF".to_string())
    );
    assert_eq!(secret_from_decoded(&b"0123456789abcdef0123456789abcdeg".to_vec()), None);
    assert_eq!(secret_from_decoded(&b"0123".to_vec()), None);
    let all = vec![
        vec![Some("x".to_string()), Some("S1".to_string()), Some("paris".to_string())],
        vec![Some("y".to_string()), Some("S2".to_string()), Some("berlin".to_string())],
    ];
    let calls = seed_calls_of(&all);
    assert_eq!(calls, vec![("S1".to_string(), "paris".to_string()), ("S2".to_string(), "berlin".to_string())]);
    assert_eq!(choose_seed_call("S1 ... production S2", &calls), 1);
    assert_eq!(choose_seed_call("production S1 S2", &calls), 0);
    assert_eq!(choose_seed_call("S1 S2", &calls), 1);
    let srcs = vec!["/a.js".to_string(), "data:x".to_string(), "http://h/b.js".to_string()];
    assert_eq!(
        bundle_urls_from_sources(&srcs),
        vec!["https://play.qobuz.com/a.js".to_string(), "http://h/b.js".to_string()]
    );
}
