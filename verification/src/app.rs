//! The state of the player's screens, and the requests it hands to its host.

use vstd::prelude::*;

verus! {

/// The screen that has the keyboard. Exactly one is active at a time.
#[derive(Clone, Copy, Debug, PartialEq, Eq, Structural)]
pub enum ActiveBlock {
    Input,
    MyPlaylists,
    SongTable,
    SearchResultBlock,
    HelpMenu,
    ApiError,
    SelectDevice,
}

/// A panel of the search results; `Empty` stands for no panel.
#[derive(Clone, Copy, Debug, PartialEq, Eq, Structural)]
pub enum SearchResultBlock {
    Empty,
    AlbumSearch,
    SongSearch,
    ArtistSearch,
    PlaylistSearch,
}

/// Where the rows of the song table came from.
#[derive(Clone, Copy, Debug, PartialEq, Eq, Structural)]
pub enum SongTableContext {
    MyPlaylists,
    PlaylistSearch,
    AlbumSearch,
    ArtistSearch,
    SongSearch,
}

/// What a handler tells the event loop.
#[derive(Clone, Copy, Debug, PartialEq, Eq, Structural)]
pub enum EventLoop {
    Exit,
}

/// The market that searches are restricted to.
#[derive(Clone, Copy, Debug, PartialEq, Eq, Structural)]
pub enum Market {
    UnitedKingdom,
}

/// A device that can play, by the identifier that playback orders name.
#[derive(Clone, Debug, PartialEq, Eq)]
pub struct Device {
    pub id: String,
    pub name: String,
}

/// A playlist: `id` is what its tracks are asked for by, `uri` what it is
/// played by.
#[derive(Clone, Debug, PartialEq, Eq)]
pub struct Playlist {
    pub id: String,
    pub uri: String,
    pub name: String,
}

/// A track, played by its `uri`.
#[derive(Clone, Debug, PartialEq, Eq)]
pub struct Track {
    pub uri: String,
    pub name: String,
}

/// An album of the search results.
#[derive(Clone, Debug, PartialEq, Eq)]
pub struct Album {
    pub name: String,
}

/// An artist of the search results.
#[derive(Clone, Debug, PartialEq, Eq)]
pub struct Artist {
    pub name: String,
}

impl Track {
    /// A copy of the track, equal to it field by field.
    pub fn duplicate(&self) -> (r: Track)
        ensures
            r == *self,
    {
        Track { uri: self.uri.clone(), name: self.name.clone() }
    }
}

/// A copy of a list of tracks, item by item.
pub fn duplicate_tracks(tracks: &Vec<Track>) -> (r: Vec<Track>)
    ensures
        r@ == tracks@,
{
    let mut out: Vec<Track> = Vec::new();
    let mut i: usize = 0;
    while i < tracks.len()
        invariant
            i <= tracks@.len(),
            out@ == tracks@.take(i as int),
        decreases tracks@.len() - i,
    {
        out.push(tracks[i].duplicate());
        i += 1;
    }
    out
}

/// An order to start playing on a device. At most one of `context_uri` and
/// `uris` is set.
#[derive(Clone, Debug, PartialEq, Eq)]
pub struct PlaybackRequest {
    pub device_id: String,
    pub context_uri: Option<String>,
    pub uris: Option<Vec<String>>,
    pub position: u32,
}

impl PlaybackRequest {
    /// Whether the order names one source at most: a context or a list of
    /// tracks, never both.
    pub open spec fn exclusive(self) -> bool {
        !(self.context_uri is Some && self.uris is Some)
    }
}

/// Why playback could not even be asked for.
#[derive(Clone, Copy, Debug, PartialEq, Eq, Structural)]
pub enum PlaybackError {
    /// No device has been chosen yet.
    NoDevice,
    /// The connection to the music service is not set up.
    NotReady,
}

impl PlaybackError {
    /// The text shown on the error screen.
    pub open spec fn message_text(self) -> Seq<char> {
        match self {
            PlaybackError::NoDevice => "No device_id selected"@,
            PlaybackError::NotReady => "Spotify is not ready to be used"@,
        }
    }

    /// The text of the error, as a string of its own.
    pub fn message(&self) -> (r: String)
        ensures
            r@ == self.message_text(),
    {
        match self {
            PlaybackError::NoDevice => "No device_id selected".to_owned(),
            PlaybackError::NotReady => "Spotify is not ready to be used".to_owned(),
        }
    }
}

/// Work for the music service that a handler has decided on. The host takes
/// it out of [`App::pending`], performs it and reports the outcome.
#[derive(Clone, Debug, PartialEq, Eq)]
pub enum Request {
    /// Search tracks, artists, albums and playlists, in that order.
    Search { query: String, limit: u32, offset: u32, market: Market },
    /// List the devices that can play.
    Devices,
    /// Start playback; `track` is what will be playing if it succeeds.
    StartPlayback { playback: PlaybackRequest, track: Track },
    /// List the tracks of a playlist.
    PlaylistTracks { owner: String, playlist_id: String, limit: u32 },
}

/// The four result lists of a search, each with its own cursor, and the two
/// levels of focus over their panels.
#[derive(Clone, Debug, PartialEq, Eq)]
pub struct SearchResults {
    pub tracks: Option<Vec<Track>>,
    pub artists: Option<Vec<Artist>>,
    pub albums: Option<Vec<Album>>,
    pub playlists: Option<Vec<Playlist>>,
    pub selected_tracks_index: Option<usize>,
    pub selected_artists_index: Option<usize>,
    pub selected_album_index: Option<usize>,
    pub selected_playlists_index: Option<usize>,
    /// The panel that is outlined. Never `Empty` in a well-formed state.
    pub hovered_block: SearchResultBlock,
    /// The panel whose items the cursor keys move through, or `Empty`.
    pub selected_block: SearchResultBlock,
}

impl SearchResults {
    /// Whether the list behind `panel` has been loaded.
    pub open spec fn loaded(self, panel: SearchResultBlock) -> bool {
        match panel {
            SearchResultBlock::Empty => false,
            SearchResultBlock::AlbumSearch => self.albums is Some,
            SearchResultBlock::SongSearch => self.tracks is Some,
            SearchResultBlock::ArtistSearch => self.artists is Some,
            SearchResultBlock::PlaylistSearch => self.playlists is Some,
        }
    }

    /// The length of the list behind `panel`, 0 where it is not loaded.
    pub open spec fn len_of(self, panel: SearchResultBlock) -> nat {
        match panel {
            SearchResultBlock::Empty => 0,
            SearchResultBlock::AlbumSearch => match self.albums {
                Some(v) => v@.len(),
                None => 0,
            },
            SearchResultBlock::SongSearch => match self.tracks {
                Some(v) => v@.len(),
                None => 0,
            },
            SearchResultBlock::ArtistSearch => match self.artists {
                Some(v) => v@.len(),
                None => 0,
            },
            SearchResultBlock::PlaylistSearch => match self.playlists {
                Some(v) => v@.len(),
                None => 0,
            },
        }
    }

    /// The cursor inside `panel`.
    pub open spec fn index_of(self, panel: SearchResultBlock) -> Option<usize> {
        match panel {
            SearchResultBlock::Empty => None,
            SearchResultBlock::AlbumSearch => self.selected_album_index,
            SearchResultBlock::SongSearch => self.selected_tracks_index,
            SearchResultBlock::ArtistSearch => self.selected_artists_index,
            SearchResultBlock::PlaylistSearch => self.selected_playlists_index,
        }
    }

    /// These results with the cursor inside `panel` set to `index`.
    pub open spec fn with_index(self, panel: SearchResultBlock, index: Option<usize>) -> SearchResults {
        match panel {
            SearchResultBlock::Empty => self,
            SearchResultBlock::AlbumSearch => SearchResults { selected_album_index: index, ..self },
            SearchResultBlock::SongSearch => SearchResults { selected_tracks_index: index, ..self },
            SearchResultBlock::ArtistSearch => SearchResults {
                selected_artists_index: index,
                ..self
            },
            SearchResultBlock::PlaylistSearch => SearchResults {
                selected_playlists_index: index,
                ..self
            },
        }
    }

    /// No list loaded, no cursor set, the song panel outlined and no panel
    /// selected.
    pub fn new() -> (r: SearchResults)
        ensures
            r.tracks is None,
            r.artists is None,
            r.albums is None,
            r.playlists is None,
            r.selected_tracks_index is None,
            r.selected_artists_index is None,
            r.selected_album_index is None,
            r.selected_playlists_index is None,
            r.hovered_block == SearchResultBlock::SongSearch,
            r.selected_block == SearchResultBlock::Empty,
    {
        SearchResults {
            tracks: None,
            artists: None,
            albums: None,
            playlists: None,
            selected_tracks_index: None,
            selected_artists_index: None,
            selected_album_index: None,
            selected_playlists_index: None,
            hovered_block: SearchResultBlock::SongSearch,
            selected_block: SearchResultBlock::Empty,
        }
    }
}

/// The page size of a search.
pub const SMALL_SEARCH_LIMIT: u32 = 4;

/// The page size when the tracks of a playlist are listed.
pub const LARGE_SEARCH_LIMIT: u32 = 20;

/// Everything the screens show and the handlers change. One event loop owns
/// it and passes it to one handler per key.
#[derive(Clone, Debug, PartialEq, Eq)]
pub struct App {
    pub active_block: ActiveBlock,
    pub input: String,
    /// Whether the connection to the music service is set up. Without it no
    /// handler asks for anything.
    pub api_ready: bool,
    pub api_error: String,
    pub devices: Option<Vec<Device>>,
    pub device_id: Option<String>,
    pub selected_device_index: Option<usize>,
    pub playlists: Option<Vec<Playlist>>,
    pub selected_playlist_index: Option<usize>,
    pub songs_for_table: Vec<Track>,
    pub select_song_index: usize,
    pub song_table_context: Option<SongTableContext>,
    pub search_results: SearchResults,
    pub current_playing_song: Option<Track>,
    pub small_search_limit: u32,
    pub large_search_limit: u32,
    /// The request that the last handler left for the host, if any.
    pub pending: Option<Request>,
}

impl App {
    /// The invariant of the state: a panel of the search results is always
    /// outlined, and the selected panel, if there is one, is the outlined
    /// one.
    pub open spec fn wf(self) -> bool {
        &&& self.search_results.hovered_block != SearchResultBlock::Empty
        &&& (self.search_results.selected_block == SearchResultBlock::Empty
            || self.search_results.selected_block == self.search_results.hovered_block)
    }

    /// The state at startup: the playlists have the keyboard, every list and
    /// selection is empty, and nothing is asked of the host.
    pub fn new() -> (r: App)
        ensures
            r.wf(),
            r.active_block == ActiveBlock::MyPlaylists,
            r.input@ == Seq::<char>::empty(),
            !r.api_ready,
            r.api_error@ == Seq::<char>::empty(),
            r.devices is None,
            r.device_id is None,
            r.selected_device_index is None,
            r.playlists is None,
            r.selected_playlist_index is None,
            r.songs_for_table@ == Seq::<Track>::empty(),
            r.select_song_index == 0,
            r.song_table_context is None,
            r.search_results.tracks is None,
            r.search_results.artists is None,
            r.search_results.albums is None,
            r.search_results.playlists is None,
            r.search_results.selected_tracks_index is None,
            r.search_results.selected_artists_index is None,
            r.search_results.selected_album_index is None,
            r.search_results.selected_playlists_index is None,
            r.search_results.hovered_block == SearchResultBlock::SongSearch,
            r.search_results.selected_block == SearchResultBlock::Empty,
            r.current_playing_song is None,
            r.small_search_limit == SMALL_SEARCH_LIMIT,
            r.large_search_limit == LARGE_SEARCH_LIMIT,
            r.pending is None,
    {
        App {
            active_block: ActiveBlock::MyPlaylists,
            input: String::new(),
            api_ready: false,
            api_error: String::new(),
            devices: None,
            device_id: None,
            selected_device_index: None,
            playlists: None,
            selected_playlist_index: None,
            songs_for_table: Vec::new(),
            select_song_index: 0,
            song_table_context: None,
            search_results: SearchResults::new(),
            current_playing_song: None,
            small_search_limit: SMALL_SEARCH_LIMIT,
            large_search_limit: LARGE_SEARCH_LIMIT,
            pending: None,
        }
    }
}

} // verus!
