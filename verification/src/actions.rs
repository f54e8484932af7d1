//! The requests that the handlers make of the music service, and how each
//! outcome is folded back into the state.
//!
//! Every request is decided here and performed by the host; every outcome
//! ends in a change of state or in none, never in a failure of the loop.

use vstd::prelude::*;
use crate::app::{
    ActiveBlock, Album, App, Artist, Device, Market, PlaybackError, PlaybackRequest, Playlist,
    Request, SearchResults, Track, duplicate_tracks,
};

verus! {

/// The owner under which the tracks of a playlist are asked for.
pub open spec fn playlist_owner() -> Seq<char> {
    "spotify"@
}

/// The position at which playback starts: `offset` cut to 32 bits, or 0
/// where none is given.
pub open spec fn start_position(offset: Option<usize>) -> u32 {
    match offset {
        Some(o) => #[verifier::truncate] (o as u32),
        None => 0,
    }
}

/// For an offset that fits in 32 bits the start position is the offset.
pub proof fn start_position_in_range(offset: usize)
    requires
        offset <= u32::MAX,
    ensures
        start_position(Some(offset)) == offset,
        start_position(None) == 0,
{
}

/// Hands the pending request to the host and leaves none behind.
pub fn take_request(app: &mut App) -> (r: Option<Request>)
    ensures
        r == old(app).pending,
        *final(app) == (App { pending: None, ..*old(app) }),
        old(app).wf() ==> final(app).wf(),
{
    app.pending.take()
}

/// What happens to the state when the device list is asked for: the request
/// is left for the host if the service is set up, and nothing else changes.
pub open spec fn devices_requested(pre: App, post: App) -> bool {
    if pre.api_ready {
        post == (App { pending: Some(Request::Devices), ..pre })
    } else {
        post == pre
    }
}

/// Asks for the list of devices.
pub fn handle_get_devices(app: &mut App)
    ensures
        devices_requested(*old(app), *final(app)),
        old(app).wf() ==> final(app).wf(),
{
    if app.api_ready {
        app.pending = Some(Request::Devices);
    }
}

/// How a device list changes the state: the device screen opens even on an
/// empty list; a nonempty list is stored with its first device selected; a
/// failure changes nothing.
pub open spec fn devices_folded(pre: App, result: Result<Vec<Device>, String>, post: App) -> bool {
    match result {
        Ok(devices) => if devices@.len() > 0 {
            post == (App {
                active_block: ActiveBlock::SelectDevice,
                devices: Some(devices),
                selected_device_index: Some(0usize),
                ..pre
            })
        } else {
            post == (App { active_block: ActiveBlock::SelectDevice, ..pre })
        },
        Err(_) => post == pre,
    }
}

/// Folds the outcome of a [`Request::Devices`] into the state.
pub fn devices_fetched(app: &mut App, result: Result<Vec<Device>, String>)
    ensures
        devices_folded(*old(app), result, *final(app)),
        old(app).wf() ==> final(app).wf(),
{
    match result {
        Ok(devices) => {
            app.active_block = ActiveBlock::SelectDevice;
            if devices.len() > 0 {
                app.devices = Some(devices);
                app.selected_device_index = Some(0);
            }
        },
        Err(_) => {},
    }
}

/// The order to start playback that `start_playback` builds from a state
/// with a device: a context, where one is given, wins over a list of tracks.
pub open spec fn playback_order(
    device_id: String,
    context_uri: Option<String>,
    uris: Option<Vec<String>>,
    offset: Option<usize>,
) -> PlaybackRequest {
    PlaybackRequest {
        device_id,
        context_uri,
        uris: if context_uri is Some { None } else { uris },
        position: start_position(offset),
    }
}

/// An order never holds both a context and a list of tracks: where a context
/// is given, the order holds it and no tracks, whatever tracks were given;
/// where none is given, the order holds the tracks as given.
pub proof fn order_names_one_source(
    device_id: String,
    context_uri: Option<String>,
    uris: Option<Vec<String>>,
    offset: Option<usize>,
)
    ensures
        playback_order(device_id, context_uri, uris, offset).exclusive(),
        playback_order(device_id, context_uri, uris, offset).context_uri == context_uri,
        context_uri is Some ==> playback_order(device_id, context_uri, uris, offset).uris is None,
        context_uri is None ==> playback_order(device_id, context_uri, uris, offset).uris == uris,
{
}

/// Why `start_playback` refuses, if it does: a missing device is reported
/// before a missing connection.
pub open spec fn playback_refusal(app: App) -> Option<PlaybackError> {
    if app.device_id is None {
        Some(PlaybackError::NoDevice)
    } else if !app.api_ready {
        Some(PlaybackError::NotReady)
    } else {
        None
    }
}

/// Builds the order to start playback on the chosen device. The order never
/// holds both a context and a list of tracks.
pub fn start_playback(
    app: &App,
    context_uri: Option<String>,
    uris: Option<Vec<String>>,
    offset: Option<usize>,
) -> (r: Result<PlaybackRequest, PlaybackError>)
    ensures
        match r {
            Ok(order) => playback_refusal(*app) is None && order == playback_order(
                app.device_id->0,
                context_uri,
                uris,
                offset,
            ),
            Err(e) => playback_refusal(*app) == Some(e),
        },
        r matches Ok(order) ==> order.exclusive(),
        r matches Ok(order) ==> (context_uri is Some ==> order.uris is None),
{
    let uris = if context_uri.is_some() { None } else { uris };
    let position: u32 = match offset {
        Some(o) => #[verifier::truncate] (o as u32),
        None => 0,
    };
    match &app.device_id {
        Some(device_id) => {
            if app.api_ready {
                Ok(PlaybackRequest { device_id: device_id.clone(), context_uri, uris, position })
            } else {
                Err(PlaybackError::NotReady)
            }
        },
        None => Err(PlaybackError::NoDevice),
    }
}

/// What asking for playback does to the state: the order is left for the
/// host together with the track it will play, or, where no order can be
/// built, the error screen opens with the reason.
pub open spec fn playback_requested(
    pre: App,
    context_uri: Option<String>,
    uris: Option<Vec<String>>,
    offset: Option<usize>,
    track: Track,
    post: App,
) -> bool {
    match playback_refusal(pre) {
        None => post == (App {
            pending: Some(
                Request::StartPlayback {
                    playback: playback_order(pre.device_id->0, context_uri, uris, offset),
                    track,
                },
            ),
            ..pre
        }),
        Some(e) => post == (App {
            active_block: ActiveBlock::ApiError,
            api_error: post.api_error,
            ..pre
        }) && post.api_error@ == e.message_text(),
    }
}

/// Asks for playback of `track`, or shows why it cannot be asked for.
pub fn request_playback(
    app: &mut App,
    context_uri: Option<String>,
    uris: Option<Vec<String>>,
    offset: Option<usize>,
    track: Track,
)
    ensures
        playback_requested(*old(app), context_uri, uris, offset, track, *final(app)),
        old(app).wf() ==> final(app).wf(),
{
    match start_playback(app, context_uri, uris, offset) {
        Ok(playback) => {
            app.pending = Some(Request::StartPlayback { playback, track });
        },
        Err(e) => {
            app.active_block = ActiveBlock::ApiError;
            app.api_error = e.message();
        },
    }
}

/// How the outcome of a playback order changes the state: on success the
/// track is remembered as the one playing; on failure the error screen opens
/// with the service's message.
pub open spec fn playback_folded(pre: App, track: Track, result: Result<(), String>, post: App) -> bool {
    match result {
        Ok(_) => post == (App { current_playing_song: Some(track), ..pre }),
        Err(message) => post == (App {
            active_block: ActiveBlock::ApiError,
            api_error: message,
            ..pre
        }),
    }
}

/// Folds the outcome of a [`Request::StartPlayback`] into the state.
pub fn playback_finished(app: &mut App, track: Track, result: Result<(), String>)
    ensures
        playback_folded(*old(app), track, result, *final(app)),
        old(app).wf() ==> final(app).wf(),
{
    match result {
        Ok(_) => {
            app.current_playing_song = Some(track);
        },
        Err(message) => {
            app.active_block = ActiveBlock::ApiError;
            app.api_error = message;
        },
    }
}

/// What asking for the tracks of a playlist does to the state: the request,
/// with the large page size, is left for the host if the service is set up.
pub open spec fn playlist_tracks_requested(pre: App, playlist_id: String, post: App) -> bool {
    if pre.api_ready {
        &&& post == (App { pending: post.pending, ..pre })
        &&& post.pending matches Some(Request::PlaylistTracks { owner, playlist_id: id, limit })
        &&& owner@ == playlist_owner()
        &&& id == playlist_id
        &&& limit == pre.large_search_limit
    } else {
        post == pre
    }
}

/// Asks for the tracks of the playlist `playlist_id`.
pub fn get_playlist_tracks(playlist_id: String, app: &mut App)
    ensures
        playlist_tracks_requested(*old(app), playlist_id, *final(app)),
        old(app).wf() ==> final(app).wf(),
{
    if app.api_ready {
        app.pending = Some(
            Request::PlaylistTracks {
                owner: "spotify".to_owned(),
                playlist_id,
                limit: app.large_search_limit,
            },
        );
    }
}

/// How the tracks of a playlist change the state: they replace the rows of
/// the song table, which takes the keyboard; a failure changes nothing.
pub open spec fn playlist_tracks_folded(pre: App, result: Result<Vec<Track>, String>, post: App) -> bool {
    match result {
        Ok(tracks) => post == (App {
            songs_for_table: tracks,
            active_block: ActiveBlock::SongTable,
            ..pre
        }),
        Err(_) => post == pre,
    }
}

/// Folds the outcome of a [`Request::PlaylistTracks`] into the state.
pub fn playlist_tracks_fetched(app: &mut App, result: Result<Vec<Track>, String>)
    ensures
        playlist_tracks_folded(*old(app), result, *final(app)),
        old(app).wf() ==> final(app).wf(),
{
    match result {
        Ok(tracks) => {
            app.songs_for_table = tracks;
            app.active_block = ActiveBlock::SongTable;
        },
        Err(_) => {},
    }
}

/// What committing the search text does to the state: a search for the text
/// as typed, first page, small page size, is left for the host if the
/// service is set up.
pub open spec fn search_requested(pre: App, post: App) -> bool {
    if pre.api_ready {
        post == (App {
            pending: Some(
                Request::Search {
                    query: pre.input,
                    limit: pre.small_search_limit,
                    offset: 0u32,
                    market: Market::UnitedKingdom,
                },
            ),
            ..pre
        })
    } else {
        post == pre
    }
}

/// Asks for a search of all four kinds for the text in the input line.
pub fn request_search(app: &mut App)
    ensures
        search_requested(*old(app), *final(app)),
        old(app).wf() ==> final(app).wf(),
{
    if app.api_ready {
        app.pending = Some(
            Request::Search {
                query: app.input.clone(),
                limit: app.small_search_limit,
                offset: 0,
                market: Market::UnitedKingdom,
            },
        );
    }
}

/// The outcomes of the four queries of one search.
#[derive(Debug, PartialEq, Eq)]
pub struct SearchOutcome {
    pub tracks: Result<Vec<Track>, String>,
    pub artists: Result<Vec<Artist>, String>,
    pub albums: Result<Vec<Album>, String>,
    pub playlists: Result<Vec<Playlist>, String>,
}

impl SearchOutcome {
    /// The message of the first query that failed, in the order tracks,
    /// artists, albums, playlists.
    pub open spec fn first_failure(self) -> Option<String> {
        match self.tracks {
            Err(m) => Some(m),
            Ok(_) => match self.artists {
                Err(m) => Some(m),
                Ok(_) => match self.albums {
                    Err(m) => Some(m),
                    Ok(_) => match self.playlists {
                        Err(m) => Some(m),
                        Ok(_) => None,
                    },
                },
            },
        }
    }
}

/// The search results after an outcome: each list whose query succeeded is
/// replaced, each other list stays, and cursors and focus are untouched.
pub open spec fn results_folded(pre: SearchResults, outcome: SearchOutcome) -> SearchResults {
    SearchResults {
        tracks: match outcome.tracks {
            Ok(v) => Some(v),
            Err(_) => pre.tracks,
        },
        artists: match outcome.artists {
            Ok(v) => Some(v),
            Err(_) => pre.artists,
        },
        albums: match outcome.albums {
            Ok(v) => Some(v),
            Err(_) => pre.albums,
        },
        playlists: match outcome.playlists {
            Ok(v) => Some(v),
            Err(_) => pre.playlists,
        },
        ..pre
    }
}

/// How the outcome of a search changes the state. The lists that arrived are
/// stored, and the tracks also become the rows of the song table. The
/// selection among the user's playlists is cleared. If all four queries
/// succeeded the search results take the keyboard; otherwise the error screen
/// opens with the message of the first failure, and what did arrive is kept.
pub open spec fn search_folded(pre: App, outcome: SearchOutcome, post: App) -> bool {
    &&& post == (App {
        songs_for_table: post.songs_for_table,
        search_results: results_folded(pre.search_results, outcome),
        selected_playlist_index: None,
        active_block: if outcome.first_failure() is None {
            ActiveBlock::SearchResultBlock
        } else {
            ActiveBlock::ApiError
        },
        api_error: match outcome.first_failure() {
            Some(m) => m,
            None => pre.api_error,
        },
        ..pre
    })
    &&& post.songs_for_table@ == match outcome.tracks {
        Ok(v) => v@,
        Err(_) => pre.songs_for_table@,
    }
}

/// Folds the outcome of a [`Request::Search`] into the state.
pub fn search_finished(app: &mut App, outcome: SearchOutcome)
    ensures
        search_folded(*old(app), outcome, *final(app)),
        old(app).wf() ==> final(app).wf(),
{
    let SearchOutcome { tracks, artists, albums, playlists } = outcome;
    let mut failed: bool = false;
    match tracks {
        Ok(v) => {
            app.songs_for_table = duplicate_tracks(&v);
            app.search_results.tracks = Some(v);
        },
        Err(m) => {
            failed = true;
            app.api_error = m;
        },
    }
    match artists {
        Ok(v) => {
            app.search_results.artists = Some(v);
        },
        Err(m) => {
            if !failed {
                failed = true;
                app.api_error = m;
            }
        },
    }
    match albums {
        Ok(v) => {
            app.search_results.albums = Some(v);
        },
        Err(m) => {
            if !failed {
                failed = true;
                app.api_error = m;
            }
        },
    }
    match playlists {
        Ok(v) => {
            app.search_results.playlists = Some(v);
        },
        Err(m) => {
            if !failed {
                failed = true;
                app.api_error = m;
            }
        },
    }
    app.selected_playlist_index = None;
    if failed {
        app.active_block = ActiveBlock::ApiError;
    } else {
        app.active_block = ActiveBlock::SearchResultBlock;
    }
}

} // verus!
