//! One handler per screen, and the router that picks the handler of the
//! screen that has the keyboard.
//!
//! Every handler takes one key and the state, changes the state in one step
//! and returns the signal for the event loop. A quit key changes nothing.

use vstd::prelude::*;
use crate::actions::{
    devices_requested, get_playlist_tracks, handle_get_devices, playback_requested,
    playlist_tracks_requested, request_playback, request_search, search_requested,
};
use crate::app::{
    ActiveBlock, App, EventLoop, Playlist, SearchResultBlock, SearchResults, SongTableContext,
};
use crate::key::{
    char_event, down_event, is_down, is_enter, is_left, is_quit, is_right, is_up,
    left_event, quit_event, right_event, up_event, Key,
};
use crate::nav::{advance, on_down_press_handler, on_up_press_handler, retreat};

verus! {

/// The signal that a key gives the event loop: exit on a quit key, nothing
/// otherwise.
pub open spec fn exit_signal(key: Key) -> Option<EventLoop> {
    if is_quit(key) {
        Some(EventLoop::Exit)
    } else {
        None
    }
}

/// The state `pre` with the keyboard given to `block`.
pub open spec fn shows(pre: App, block: ActiveBlock) -> App {
    App { active_block: block, ..pre }
}

/// Where a cursor lands that moves one step through a list of `len` items.
pub open spec fn stepped(len: nat, current: Option<usize>, down: bool) -> usize {
    if down {
        advance(len, current)
    } else {
        retreat(len, current)
    }
}

/// The cursor after one step through an optional list: it moves where the
/// list is loaded and stays where it is not.
pub open spec fn cursor_moved<T>(list: Option<Vec<T>>, current: Option<usize>, down: bool) -> Option<usize> {
    match list {
        Some(v) => Some(stepped(v@.len(), current, down)),
        None => current,
    }
}

fn move_cursor<T>(list: &Option<Vec<T>>, current: Option<usize>, down: bool) -> (r: Option<usize>)
    ensures
        r == cursor_moved(*list, current, down),
{
    match list {
        Some(v) => {
            if down {
                Some(on_down_press_handler(v.as_slice(), current))
            } else {
                Some(on_up_press_handler(v.as_slice(), current))
            }
        },
        None => current,
    }
}

/// The cursor after one step where a step needs a selection to start from:
/// without a loaded list or without a selection nothing moves.
pub open spec fn selection_moved<T>(list: Option<Vec<T>>, current: Option<usize>, down: bool) -> Option<usize> {
    if current is Some {
        cursor_moved(list, current, down)
    } else {
        current
    }
}

fn move_selection<T>(list: &Option<Vec<T>>, current: Option<usize>, down: bool) -> (r: Option<usize>)
    ensures
        r == selection_moved(*list, current, down),
{
    if current.is_some() {
        move_cursor(list, current, down)
    } else {
        current
    }
}

/// The address of the playlist under the cursor, if there is one.
pub open spec fn playlist_uri(list: Option<Vec<Playlist>>, index: Option<usize>) -> Option<String> {
    match (list, index) {
        (Some(v), Some(i)) => if i < v@.len() {
            Some(v@[i as int].uri)
        } else {
            None
        },
        _ => None,
    }
}

fn playlist_uri_at(list: &Option<Vec<Playlist>>, index: Option<usize>) -> (r: Option<String>)
    ensures
        r == playlist_uri(*list, index),
{
    match (list, index) {
        (Some(v), Some(i)) => {
            if i < v.len() {
                Some(v[i].uri.clone())
            } else {
                None
            }
        },
        _ => None,
    }
}

/// The identifier of the playlist under the cursor, if there is one.
pub open spec fn playlist_id(list: Option<Vec<Playlist>>, index: Option<usize>) -> Option<String> {
    match (list, index) {
        (Some(v), Some(i)) => if i < v@.len() {
            Some(v@[i as int].id)
        } else {
            None
        },
        _ => None,
    }
}

fn playlist_id_at(list: &Option<Vec<Playlist>>, index: Option<usize>) -> (r: Option<String>)
    ensures
        r == playlist_id(*list, index),
{
    match (list, index) {
        (Some(v), Some(i)) => {
            if i < v.len() {
                Some(v[i].id.clone())
            } else {
                None
            }
        },
        _ => None,
    }
}

// ---------------------------------------------------------------- Input

/// The state with the input line replaced by a text that reads `text`.
pub open spec fn input_is(pre: App, text: Seq<char>, post: App) -> bool {
    post == (App { input: post.input, ..pre }) && post.input@ == text
}

/// What a key other than a quit key does on the input line.
pub open spec fn input_step(key: Key, pre: App, post: App) -> bool {
    match key {
        Key::Ctrl(c) => if c == 'u' {
            input_is(pre, Seq::empty(), post)
        } else {
            post == pre
        },
        Key::Esc => post == shows(pre, ActiveBlock::MyPlaylists),
        Key::Char(c) => if c == '\n' {
            search_requested(pre, post)
        } else {
            input_is(pre, pre.input@.push(c), post)
        },
        Key::Backspace => input_is(
            pre,
            if pre.input@.len() > 0 {
                pre.input@.drop_last()
            } else {
                pre.input@
            },
            post,
        ),
        _ => post == pre,
    }
}

/// The input line: typing edits the search text, Ctrl-u clears it, Enter
/// commits it as a search, Esc gives the keyboard back to the playlists.
pub fn input_handler(key: Key, app: &mut App) -> (r: Option<EventLoop>)
    ensures
        r == exit_signal(key),
        is_quit(key) ==> *final(app) == *old(app),
        !is_quit(key) ==> input_step(key, *old(app), *final(app)),
        old(app).wf() ==> final(app).wf(),
{
    if quit_event(key) {
        return Some(EventLoop::Exit);
    }
    match key {
        Key::Ctrl(c) => {
            if c == 'u' {
                app.input = String::new();
            }
        },
        Key::Esc => {
            app.active_block = ActiveBlock::MyPlaylists;
        },
        Key::Char(c) => {
            if c == '\n' {
                request_search(app);
            } else {
                app.input.push(c);
            }
        },
        Key::Backspace => {
            app.input.pop();
        },
        _ => {},
    }
    None
}

// ---------------------------------------------------------- MyPlaylists

/// What Enter does on the user's playlists: with a list and a selection the
/// song table is marked as fed from them, and the tracks of the selected
/// playlist are asked for if the selection points into the list.
pub open spec fn playlist_enter(pre: App, post: App) -> bool {
    if pre.playlists is Some && pre.selected_playlist_index is Some {
        let marked = App { song_table_context: Some(SongTableContext::MyPlaylists), ..pre };
        match playlist_id(pre.playlists, pre.selected_playlist_index) {
            Some(id) => playlist_tracks_requested(marked, id, post),
            None => post == marked,
        }
    } else {
        post == pre
    }
}

/// What a key other than a quit key does on the user's playlists.
pub open spec fn playlist_step(key: Key, pre: App, post: App) -> bool {
    if key == Key::Char('d') {
        devices_requested(pre, post)
    } else if key == Key::Char('?') {
        post == shows(pre, ActiveBlock::HelpMenu)
    } else if is_right(key) {
        if pre.selected_playlist_index is Some {
            post == shows(pre, ActiveBlock::SongTable)
        } else if pre.input@.len() > 0 {
            post == shows(pre, ActiveBlock::SearchResultBlock)
        } else {
            post == pre
        }
    } else if is_down(key) || is_up(key) {
        post == (App {
            selected_playlist_index: selection_moved(
                pre.playlists,
                pre.selected_playlist_index,
                is_down(key),
            ),
            ..pre
        })
    } else if key == Key::Char('/') {
        post == shows(pre, ActiveBlock::Input)
    } else if is_enter(key) {
        playlist_enter(pre, post)
    } else {
        post == pre
    }
}

/// The user's playlists: Up and Down move an existing selection, Right
/// opens the song table or the search results, Enter loads the selected
/// playlist into the song table.
pub fn playlist_handler(key: Key, app: &mut App) -> (r: Option<EventLoop>)
    ensures
        r == exit_signal(key),
        is_quit(key) ==> *final(app) == *old(app),
        !is_quit(key) ==> playlist_step(key, *old(app), *final(app)),
        old(app).wf() ==> final(app).wf(),
{
    if quit_event(key) {
        return Some(EventLoop::Exit);
    }
    if char_event(key, 'd') {
        handle_get_devices(app);
    } else if char_event(key, '?') {
        app.active_block = ActiveBlock::HelpMenu;
    } else if right_event(key) {
        if app.selected_playlist_index.is_some() {
            app.active_block = ActiveBlock::SongTable;
        } else if !app.input.as_str().is_empty() {
            app.active_block = ActiveBlock::SearchResultBlock;
        }
    } else if down_event(key) {
        app.selected_playlist_index = move_selection(
            &app.playlists,
            app.selected_playlist_index,
            true,
        );
    } else if up_event(key) {
        app.selected_playlist_index = move_selection(
            &app.playlists,
            app.selected_playlist_index,
            false,
        );
    } else if char_event(key, '/') {
        app.active_block = ActiveBlock::Input;
    } else if char_event(key, '\n') {
        if app.playlists.is_some() && app.selected_playlist_index.is_some() {
            app.song_table_context = Some(SongTableContext::MyPlaylists);
            match playlist_id_at(&app.playlists, app.selected_playlist_index) {
                Some(id) => {
                    get_playlist_tracks(id, app);
                },
                None => {},
            }
        }
    }
    None
}

// ------------------------------------------------------------ SongTable

/// The playlist that the rows of the song table came from, as far as the
/// state still knows it: the selected one of the user's playlists or of the
/// playlists found by the search. Rows from another source have none.
pub open spec fn table_source(pre: App) -> Option<String> {
    match pre.song_table_context {
        Some(SongTableContext::MyPlaylists) => playlist_uri(
            pre.playlists,
            pre.selected_playlist_index,
        ),
        Some(SongTableContext::PlaylistSearch) => playlist_uri(
            pre.search_results.playlists,
            pre.search_results.selected_playlists_index,
        ),
        _ => None,
    }
}

/// Whether Enter on a row of the song table plays anything: only rows that
/// came from a playlist do.
pub open spec fn table_plays(pre: App) -> bool {
    pre.song_table_context == Some(SongTableContext::MyPlaylists) || pre.song_table_context
        == Some(SongTableContext::PlaylistSearch)
}

/// What Enter does on the song table: the row under the cursor is played
/// within the playlist it came from, starting at the row's position.
pub open spec fn song_table_enter(pre: App, post: App) -> bool {
    if table_plays(pre) && pre.select_song_index < pre.songs_for_table@.len() {
        playback_requested(
            pre,
            table_source(pre),
            None,
            Some(pre.select_song_index),
            pre.songs_for_table@[pre.select_song_index as int],
            post,
        )
    } else {
        post == pre
    }
}

/// What a key other than a quit key does on the song table.
pub open spec fn song_table_step(key: Key, pre: App, post: App) -> bool {
    if key == Key::Char('d') {
        devices_requested(pre, post)
    } else if is_left(key) {
        post == shows(pre, ActiveBlock::MyPlaylists)
    } else if is_down(key) || is_up(key) {
        post == (App {
            select_song_index: stepped(
                pre.songs_for_table@.len(),
                Some(pre.select_song_index),
                is_down(key),
            ),
            ..pre
        })
    } else if key == Key::Char('?') {
        post == shows(pre, ActiveBlock::HelpMenu)
    } else if key == Key::Char('/') {
        post == shows(pre, ActiveBlock::Input)
    } else if is_enter(key) {
        song_table_enter(pre, post)
    } else {
        post == pre
    }
}

/// The song table: Up and Down move through the rows, Left returns to the
/// playlists, Enter plays the row under the cursor.
pub fn song_table_handler(key: Key, app: &mut App) -> (r: Option<EventLoop>)
    ensures
        r == exit_signal(key),
        is_quit(key) ==> *final(app) == *old(app),
        !is_quit(key) ==> song_table_step(key, *old(app), *final(app)),
        old(app).wf() ==> final(app).wf(),
{
    if quit_event(key) {
        return Some(EventLoop::Exit);
    }
    if char_event(key, 'd') {
        handle_get_devices(app);
    } else if left_event(key) {
        app.active_block = ActiveBlock::MyPlaylists;
    } else if down_event(key) {
        app.select_song_index = on_down_press_handler(
            app.songs_for_table.as_slice(),
            Some(app.select_song_index),
        );
    } else if char_event(key, '?') {
        app.active_block = ActiveBlock::HelpMenu;
    } else if up_event(key) {
        app.select_song_index = on_up_press_handler(
            app.songs_for_table.as_slice(),
            Some(app.select_song_index),
        );
    } else if char_event(key, '/') {
        app.active_block = ActiveBlock::Input;
    } else if char_event(key, '\n') {
        let index: usize = app.select_song_index;
        if index < app.songs_for_table.len() {
            match app.song_table_context {
                Some(SongTableContext::MyPlaylists) => {
                    let track = app.songs_for_table[index].duplicate();
                    let source = playlist_uri_at(&app.playlists, app.selected_playlist_index);
                    request_playback(app, source, None, Some(index), track);
                },
                Some(SongTableContext::PlaylistSearch) => {
                    let track = app.songs_for_table[index].duplicate();
                    let source = playlist_uri_at(
                        &app.search_results.playlists,
                        app.search_results.selected_playlists_index,
                    );
                    request_playback(app, source, None, Some(index), track);
                },
                _ => {},
            }
        }
    }
    None
}

// ------------------------------------------------- HelpMenu and ApiError

/// What a key other than a quit key does on the help screen and on the
/// error screen.
pub open spec fn overlay_step(key: Key, pre: App, post: App) -> bool {
    if key == Key::Esc {
        post == shows(pre, ActiveBlock::MyPlaylists)
    } else if key == Key::Char('d') {
        devices_requested(pre, post)
    } else {
        post == pre
    }
}

/// The help screen: Esc closes it.
pub fn help_menu_handler(key: Key, app: &mut App) -> (r: Option<EventLoop>)
    ensures
        r == exit_signal(key),
        is_quit(key) ==> *final(app) == *old(app),
        !is_quit(key) ==> overlay_step(key, *old(app), *final(app)),
        old(app).wf() ==> final(app).wf(),
{
    if quit_event(key) {
        return Some(EventLoop::Exit);
    }
    match key {
        Key::Esc => {
            app.active_block = ActiveBlock::MyPlaylists;
        },
        Key::Char(c) => {
            if c == 'd' {
                handle_get_devices(app);
            }
        },
        _ => {},
    }
    None
}

/// The error screen: Esc closes it.
pub fn api_error_menu_handler(key: Key, app: &mut App) -> (r: Option<EventLoop>)
    ensures
        r == exit_signal(key),
        is_quit(key) ==> *final(app) == *old(app),
        !is_quit(key) ==> overlay_step(key, *old(app), *final(app)),
        old(app).wf() ==> final(app).wf(),
{
    if quit_event(key) {
        return Some(EventLoop::Exit);
    }
    match key {
        Key::Esc => {
            app.active_block = ActiveBlock::MyPlaylists;
        },
        Key::Char(c) => {
            if c == 'd' {
                handle_get_devices(app);
            }
        },
        _ => {},
    }
    None
}

// ---------------------------------------------------- SearchResultBlock

/// The other panel of the pair that Up and Down move the outline between:
/// albums with songs, artists with playlists.
pub open spec fn vertical_neighbour(panel: SearchResultBlock) -> SearchResultBlock {
    match panel {
        SearchResultBlock::AlbumSearch => SearchResultBlock::SongSearch,
        SearchResultBlock::SongSearch => SearchResultBlock::AlbumSearch,
        SearchResultBlock::ArtistSearch => SearchResultBlock::PlaylistSearch,
        SearchResultBlock::PlaylistSearch => SearchResultBlock::ArtistSearch,
        SearchResultBlock::Empty => SearchResultBlock::Empty,
    }
}

/// Where Left moves the outline: from the right column to the left one, and
/// nowhere from the left column.
pub open spec fn left_neighbour(panel: SearchResultBlock) -> SearchResultBlock {
    match panel {
        SearchResultBlock::ArtistSearch => SearchResultBlock::SongSearch,
        SearchResultBlock::PlaylistSearch => SearchResultBlock::AlbumSearch,
        other => other,
    }
}

/// Whether Left on this panel leaves the search results for the playlists.
pub open spec fn leaves_on_left(panel: SearchResultBlock) -> bool {
    panel == SearchResultBlock::AlbumSearch || panel == SearchResultBlock::SongSearch
}

/// Where Right moves the outline.
pub open spec fn right_neighbour(panel: SearchResultBlock) -> SearchResultBlock {
    match panel {
        SearchResultBlock::AlbumSearch => SearchResultBlock::PlaylistSearch,
        SearchResultBlock::SongSearch => SearchResultBlock::ArtistSearch,
        SearchResultBlock::ArtistSearch => SearchResultBlock::SongSearch,
        SearchResultBlock::PlaylistSearch => SearchResultBlock::AlbumSearch,
        SearchResultBlock::Empty => SearchResultBlock::Empty,
    }
}

fn vertical_of(panel: SearchResultBlock) -> (r: SearchResultBlock)
    ensures
        r == vertical_neighbour(panel),
{
    match panel {
        SearchResultBlock::AlbumSearch => SearchResultBlock::SongSearch,
        SearchResultBlock::SongSearch => SearchResultBlock::AlbumSearch,
        SearchResultBlock::ArtistSearch => SearchResultBlock::PlaylistSearch,
        SearchResultBlock::PlaylistSearch => SearchResultBlock::ArtistSearch,
        SearchResultBlock::Empty => SearchResultBlock::Empty,
    }
}

/// Up or Down in the search results. Inside a selected panel the panel's
/// cursor moves, if its list is loaded; with no panel selected the outline
/// moves to the other panel of its pair.
pub open spec fn search_vertical(pre: SearchResults, down: bool) -> SearchResults {
    let panel = pre.selected_block;
    if panel != SearchResultBlock::Empty {
        if pre.loaded(panel) {
            pre.with_index(panel, Some(stepped(pre.len_of(panel), pre.index_of(panel), down)))
        } else {
            pre
        }
    } else {
        SearchResults { hovered_block: vertical_neighbour(pre.hovered_block), ..pre }
    }
}

fn move_vertical(results: &mut SearchResults, down: bool)
    ensures
        *final(results) == search_vertical(*old(results), down),
{
    match results.selected_block {
        SearchResultBlock::AlbumSearch => {
            results.selected_album_index = move_cursor(
                &results.albums,
                results.selected_album_index,
                down,
            );
        },
        SearchResultBlock::SongSearch => {
            results.selected_tracks_index = move_cursor(
                &results.tracks,
                results.selected_tracks_index,
                down,
            );
        },
        SearchResultBlock::ArtistSearch => {
            results.selected_artists_index = move_cursor(
                &results.artists,
                results.selected_artists_index,
                down,
            );
        },
        SearchResultBlock::PlaylistSearch => {
            results.selected_playlists_index = move_cursor(
                &results.playlists,
                results.selected_playlists_index,
                down,
            );
        },
        SearchResultBlock::Empty => {
            results.hovered_block = vertical_of(results.hovered_block);
        },
    }
}

/// Entering the outlined panel: it becomes the selected one, and its cursor
/// starts at the first item unless it already stands somewhere.
pub open spec fn panel_entered(pre: SearchResults) -> SearchResults {
    let panel = pre.hovered_block;
    if panel == SearchResultBlock::Empty {
        pre
    } else {
        SearchResults {
            selected_block: panel,
            ..pre.with_index(
                panel,
                Some(
                    match pre.index_of(panel) {
                        Some(i) => i,
                        None => 0usize,
                    },
                ),
            )
        }
    }
}

fn seeded(index: Option<usize>) -> (r: Option<usize>)
    ensures
        r == Some(
            match index {
                Some(i) => i,
                None => 0usize,
            },
        ),
{
    match index {
        Some(i) => Some(i),
        None => Some(0),
    }
}

fn enter_panel(results: &mut SearchResults)
    requires
        old(results).selected_block == SearchResultBlock::Empty,
    ensures
        *final(results) == panel_entered(*old(results)),
{
    match results.hovered_block {
        SearchResultBlock::AlbumSearch => {
            results.selected_album_index = seeded(results.selected_album_index);
            results.selected_block = SearchResultBlock::AlbumSearch;
        },
        SearchResultBlock::SongSearch => {
            results.selected_tracks_index = seeded(results.selected_tracks_index);
            results.selected_block = SearchResultBlock::SongSearch;
        },
        SearchResultBlock::ArtistSearch => {
            results.selected_artists_index = seeded(results.selected_artists_index);
            results.selected_block = SearchResultBlock::ArtistSearch;
        },
        SearchResultBlock::PlaylistSearch => {
            results.selected_playlists_index = seeded(results.selected_playlists_index);
            results.selected_block = SearchResultBlock::PlaylistSearch;
        },
        SearchResultBlock::Empty => {},
    }
}

/// Enter inside the selected song panel: the song under the cursor is
/// played on its own, from its start.
pub open spec fn song_chosen(pre: App, post: App) -> bool {
    match (pre.search_results.selected_tracks_index, pre.search_results.tracks) {
        (Some(i), Some(tracks)) => if i < tracks@.len() {
            exists|uris: Vec<String>|
                uris@ =~= seq![tracks@[i as int].uri] && #[trigger] playback_requested(
                    pre,
                    None,
                    Some(uris),
                    Some(0usize),
                    tracks@[i as int],
                    post,
                )
        } else {
            post == pre
        },
        _ => post == pre,
    }
}

/// Enter inside the selected playlist panel: the song table is marked as
/// fed from the search, and the tracks of the playlist under the cursor are
/// asked for.
pub open spec fn playlist_chosen(pre: App, post: App) -> bool {
    match playlist_id(
        pre.search_results.playlists,
        pre.search_results.selected_playlists_index,
    ) {
        Some(id) => playlist_tracks_requested(
            App { song_table_context: Some(SongTableContext::PlaylistSearch), ..pre },
            id,
            post,
        ),
        None => post == pre,
    }
}

/// What Enter does in the search results.
pub open spec fn search_enter(pre: App, post: App) -> bool {
    match pre.search_results.selected_block {
        SearchResultBlock::Empty => post == (App {
            search_results: panel_entered(pre.search_results),
            ..pre
        }),
        SearchResultBlock::SongSearch => song_chosen(pre, post),
        SearchResultBlock::PlaylistSearch => playlist_chosen(pre, post),
        SearchResultBlock::AlbumSearch => post == pre,
        SearchResultBlock::ArtistSearch => post == pre,
    }
}

/// What a key other than a quit key does in the search results.
pub open spec fn search_results_step(key: Key, pre: App, post: App) -> bool {
    let results = pre.search_results;
    if key == Key::Char('d') {
        devices_requested(pre, post)
    } else if key == Key::Char('?') {
        post == shows(pre, ActiveBlock::HelpMenu)
    } else if key == Key::Esc {
        post == (App {
            search_results: SearchResults { selected_block: SearchResultBlock::Empty, ..results },
            ..pre
        })
    } else if is_down(key) || is_up(key) {
        post == (App { search_results: search_vertical(results, is_down(key)), ..pre })
    } else if is_left(key) {
        post == (App {
            active_block: if leaves_on_left(results.hovered_block) {
                ActiveBlock::MyPlaylists
            } else {
                pre.active_block
            },
            search_results: SearchResults {
                selected_block: SearchResultBlock::Empty,
                hovered_block: left_neighbour(results.hovered_block),
                ..results
            },
            ..pre
        })
    } else if is_right(key) {
        post == (App {
            search_results: SearchResults {
                selected_block: SearchResultBlock::Empty,
                hovered_block: right_neighbour(results.hovered_block),
                ..results
            },
            ..pre
        })
    } else if is_enter(key) {
        search_enter(pre, post)
    } else {
        post == pre
    }
}

/// The search results, with their two levels of focus: the cursor keys move
/// the outline between the panels until Enter selects the outlined panel,
/// and move through its items from then on.
pub fn search_results_handler(key: Key, app: &mut App) -> (r: Option<EventLoop>)
    ensures
        r == exit_signal(key),
        is_quit(key) ==> *final(app) == *old(app),
        !is_quit(key) ==> search_results_step(key, *old(app), *final(app)),
        old(app).wf() ==> final(app).wf(),
{
    if quit_event(key) {
        return Some(EventLoop::Exit);
    }
    if char_event(key, 'd') {
        handle_get_devices(app);
    } else if char_event(key, '?') {
        app.active_block = ActiveBlock::HelpMenu;
    } else if char_event(key, '\n') {
        match app.search_results.selected_block {
            SearchResultBlock::Empty => {
                enter_panel(&mut app.search_results);
            },
            SearchResultBlock::SongSearch => {
                match (app.search_results.selected_tracks_index, &app.search_results.tracks) {
                    (Some(i), Some(tracks)) => {
                        if i < tracks.len() {
                            let track = tracks[i].duplicate();
                            let uris: Vec<String> = vec![tracks[i].uri.clone()];
                            request_playback(app, None, Some(uris), Some(0), track);
                        }
                    },
                    _ => {},
                }
            },
            SearchResultBlock::PlaylistSearch => {
                match playlist_id_at(
                    &app.search_results.playlists,
                    app.search_results.selected_playlists_index,
                ) {
                    Some(id) => {
                        app.song_table_context = Some(SongTableContext::PlaylistSearch);
                        get_playlist_tracks(id, app);
                    },
                    None => {},
                }
            },
            _ => {},
        }
    } else if down_event(key) {
        move_vertical(&mut app.search_results, true);
    } else if up_event(key) {
        move_vertical(&mut app.search_results, false);
    } else if left_event(key) {
        app.search_results.selected_block = SearchResultBlock::Empty;
        match app.search_results.hovered_block {
            SearchResultBlock::AlbumSearch => {
                app.active_block = ActiveBlock::MyPlaylists;
            },
            SearchResultBlock::SongSearch => {
                app.active_block = ActiveBlock::MyPlaylists;
            },
            SearchResultBlock::ArtistSearch => {
                app.search_results.hovered_block = SearchResultBlock::SongSearch;
            },
            SearchResultBlock::PlaylistSearch => {
                app.search_results.hovered_block = SearchResultBlock::AlbumSearch;
            },
            SearchResultBlock::Empty => {},
        }
    } else if right_event(key) {
        app.search_results.selected_block = SearchResultBlock::Empty;
        match app.search_results.hovered_block {
            SearchResultBlock::AlbumSearch => {
                app.search_results.hovered_block = SearchResultBlock::PlaylistSearch;
            },
            SearchResultBlock::SongSearch => {
                app.search_results.hovered_block = SearchResultBlock::ArtistSearch;
            },
            SearchResultBlock::ArtistSearch => {
                app.search_results.hovered_block = SearchResultBlock::SongSearch;
            },
            SearchResultBlock::PlaylistSearch => {
                app.search_results.hovered_block = SearchResultBlock::AlbumSearch;
            },
            SearchResultBlock::Empty => {},
        }
    } else {
        match key {
            Key::Esc => {
                app.search_results.selected_block = SearchResultBlock::Empty;
            },
            _ => {},
        }
    }
    None
}

// --------------------------------------------------------- SelectDevice

/// What Enter does on the device list: the device under the cursor becomes
/// the one that plays, and the playlists take the keyboard.
pub open spec fn device_chosen(pre: App, post: App) -> bool {
    match (pre.devices, pre.selected_device_index) {
        (Some(devices), Some(i)) => if i < devices@.len() {
            post == (App {
                device_id: Some(devices@[i as int].id),
                active_block: ActiveBlock::MyPlaylists,
                ..pre
            })
        } else {
            post == pre
        },
        _ => post == pre,
    }
}

/// What a key other than a quit key does on the device list.
pub open spec fn select_device_step(key: Key, pre: App, post: App) -> bool {
    if key == Key::Esc {
        post == shows(pre, ActiveBlock::MyPlaylists)
    } else if key == Key::Char('d') {
        devices_requested(pre, post)
    } else if is_down(key) || is_up(key) {
        post == (App {
            selected_device_index: selection_moved(
                pre.devices,
                pre.selected_device_index,
                is_down(key),
            ),
            ..pre
        })
    } else if is_enter(key) {
        device_chosen(pre, post)
    } else {
        post == pre
    }
}

/// The device list: Up and Down move an existing selection, Enter makes
/// the selected device the one that plays.
pub fn select_device_handler(key: Key, app: &mut App) -> (r: Option<EventLoop>)
    ensures
        r == exit_signal(key),
        is_quit(key) ==> *final(app) == *old(app),
        !is_quit(key) ==> select_device_step(key, *old(app), *final(app)),
        old(app).wf() ==> final(app).wf(),
{
    if quit_event(key) {
        return Some(EventLoop::Exit);
    }
    if char_event(key, 'd') {
        handle_get_devices(app);
    } else if down_event(key) {
        app.selected_device_index = move_selection(&app.devices, app.selected_device_index, true);
    } else if up_event(key) {
        app.selected_device_index = move_selection(&app.devices, app.selected_device_index, false);
    } else if char_event(key, '\n') {
        match (&app.devices, app.selected_device_index) {
            (Some(devices), Some(i)) => {
                if i < devices.len() {
                    let id = devices[i].id.clone();
                    app.device_id = Some(id);
                    app.active_block = ActiveBlock::MyPlaylists;
                }
            },
            _ => {},
        }
    } else {
        match key {
            Key::Esc => {
                app.active_block = ActiveBlock::MyPlaylists;
            },
            _ => {},
        }
    }
    None
}

// --------------------------------------------------------------- Router

/// What a key other than a quit key does to the state: what the handler of
/// the screen that has the keyboard does with it.
pub open spec fn step(key: Key, pre: App, post: App) -> bool {
    match pre.active_block {
        ActiveBlock::Input => input_step(key, pre, post),
        ActiveBlock::MyPlaylists => playlist_step(key, pre, post),
        ActiveBlock::SongTable => song_table_step(key, pre, post),
        ActiveBlock::SearchResultBlock => search_results_step(key, pre, post),
        ActiveBlock::HelpMenu => overlay_step(key, pre, post),
        ActiveBlock::ApiError => overlay_step(key, pre, post),
        ActiveBlock::SelectDevice => select_device_step(key, pre, post),
    }
}

/// Hands the key to the handler of the active screen, and to no other.
pub fn handle(key: Key, app: &mut App) -> (r: Option<EventLoop>)
    ensures
        r == exit_signal(key),
        is_quit(key) ==> *final(app) == *old(app),
        !is_quit(key) ==> step(key, *old(app), *final(app)),
        old(app).wf() ==> final(app).wf(),
{
    match app.active_block {
        ActiveBlock::Input => input_handler(key, app),
        ActiveBlock::MyPlaylists => playlist_handler(key, app),
        ActiveBlock::SongTable => song_table_handler(key, app),
        ActiveBlock::SearchResultBlock => search_results_handler(key, app),
        ActiveBlock::HelpMenu => help_menu_handler(key, app),
        ActiveBlock::ApiError => api_error_menu_handler(key, app),
        ActiveBlock::SelectDevice => select_device_handler(key, app),
    }
}

/// Esc gives the keyboard back to the playlists from the input line, the
/// help screen, the error screen and the device list, and changes nothing
/// else.
pub proof fn esc_returns_to_playlists(pre: App, post: App)
    requires
        pre.active_block == ActiveBlock::Input || pre.active_block == ActiveBlock::HelpMenu
            || pre.active_block == ActiveBlock::ApiError || pre.active_block
            == ActiveBlock::SelectDevice,
        step(Key::Esc, pre, post),
    ensures
        post == shows(pre, ActiveBlock::MyPlaylists),
        post.active_block == ActiveBlock::MyPlaylists,
{
}

/// With the song panel outlined and no panel selected, Enter selects the
/// song panel and puts its cursor on the first song, or leaves the cursor
/// where an earlier visit left it.
pub proof fn enter_selects_hovered_songs(pre: App, post: App)
    requires
        pre.search_results.hovered_block == SearchResultBlock::SongSearch,
        pre.search_results.selected_block == SearchResultBlock::Empty,
        search_results_step(Key::Char('\n'), pre, post),
    ensures
        post.search_results.selected_block == SearchResultBlock::SongSearch,
        pre.search_results.selected_tracks_index is None
            ==> post.search_results.selected_tracks_index == Some(0usize),
        pre.search_results.selected_tracks_index is Some
            ==> post.search_results.selected_tracks_index
            == pre.search_results.selected_tracks_index,
{
}

/// Leaving a panel keeps its cursor: after Esc and Enter the panel that was
/// selected is selected again with its cursor where it stood.
pub proof fn reentry_resumes(pre: App, mid: App, post: App)
    requires
        pre.wf(),
        pre.search_results.selected_block != SearchResultBlock::Empty,
        pre.search_results.index_of(pre.search_results.selected_block) is Some,
        search_results_step(Key::Esc, pre, mid),
        search_results_step(Key::Char('\n'), mid, post),
    ensures
        post == pre,
{
}

} // verus!
