//! Core logic of a Qobuz music client: catalogue records and the replies
//! of the API, audio quality and its fallback chain, request signing, the
//! recovery of the API credentials from the web player, configuration and
//! session records, the play queue, the progressive streaming buffer and the
//! plans of downloads, the cache index, the playback clock, the interactive
//! application state machine, the presentation helpers of the terminal
//! interface and the sandbox policy.
pub mod api;
pub mod app;
pub mod auth;
pub mod cache;
pub mod config;
pub mod credentials;
pub mod download;
pub mod error;
pub mod player;
pub mod queue;
pub mod replies;
pub mod sandbox;
pub mod session;
pub mod stream;
pub mod streaming;
pub mod text;
pub mod view;

pub use api::{format_fallback_chain, Album, AlbumImage, Artist, Playlist, PlaylistOwner, SearchResults, Track};
pub use cache::{AudioCache, TrackMeta};
pub use config::Config;
pub use player::AudioQuality;
pub use queue::shuffle;
pub use stream::{new_streaming_pair, StreamWriter, StreamingBuffer};
pub use streaming::StreamListener;
