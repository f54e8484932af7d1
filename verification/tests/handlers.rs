use player_handlers::actions::{devices_fetched, playback_finished, playlist_tracks_fetched};
use player_handlers::app::{
    ActiveBlock, App, Device, EventLoop, Market, PlaybackRequest, Playlist, Request,
    SearchResultBlock, SongTableContext, Track,
};
use player_handlers::handlers::{
    api_error_menu_handler, handle, help_menu_handler, input_handler, playlist_handler,
    search_results_handler, select_device_handler, song_table_handler,
};
use player_handlers::key::Key;

fn track(n: u32) -> Track {
    Track { uri: format!("spotify:track:{}", n), name: format!("Track {}", n) }
}

fn playlist(n: u32) -> Playlist {
    Playlist {
        id: format!("pl{}", n),
        uri: format!("spotify:playlist:{}", n),
        name: format!("Playlist {}", n),
    }
}

fn device(n: u32) -> Device {
    Device { id: format!("dev{}", n), name: format!("Device {}", n) }
}

#[test]
fn test_input_handler_quits() {
    let mut app = App::new();

    let result = input_handler(Key::Char('q'), &mut app);
    assert_eq!(result, Some(EventLoop::Exit));

    let result = input_handler(Key::Ctrl('c'), &mut app);
    assert_eq!(result, Some(EventLoop::Exit));
}

#[test]
fn test_input_handler_clear_input_on_ctrl_u() {
    let mut app = App::new();

    app.input = "My text".to_string();

    let result = input_handler(Key::Ctrl('u'), &mut app);

    assert_eq!(result, None);
    assert_eq!(app.input, "".to_string());
}

#[test]
fn test_input_handler_esc_back_to_playlist() {
    let mut app = App::new();

    let result = input_handler(Key::Esc, &mut app);

    assert_eq!(result, None);
    assert_eq!(app.active_block, ActiveBlock::MyPlaylists);
}

#[test]
fn test_input_handler_on_enter_text() {
    let mut app = App::new();

    app.input = "My tex".to_string();

    let result = input_handler(Key::Char('t'), &mut app);

    assert_eq!(result, None);
    assert_eq!(app.input, "My text".to_string());
}

#[test]
fn test_input_handler_backspace() {
    let mut app = App::new();

    app.input = "My text".to_string();

    let result = input_handler(Key::Backspace, &mut app);

    assert_eq!(result, None);
    assert_eq!(app.input, "My tex".to_string());
}

#[test]
fn test_playlist_handler_quit() {
    let mut app = App::new();

    let result = playlist_handler(Key::Char('q'), &mut app);
    assert_eq!(result, Some(EventLoop::Exit));

    let result = playlist_handler(Key::Ctrl('c'), &mut app);
    assert_eq!(result, Some(EventLoop::Exit));
}

#[test]
fn test_playlist_handler_activate_help_menu() {
    let mut app = App::new();

    let result = playlist_handler(Key::Char('?'), &mut app);
    assert_eq!(result, None);
    assert_eq!(app.active_block, ActiveBlock::HelpMenu);
}

#[test]
fn new_state_is_empty() {
    let app = App::new();
    assert_eq!(app.active_block, ActiveBlock::MyPlaylists);
    assert_eq!(app.input, "");
    assert!(!app.api_ready);
    assert_eq!(app.devices, None);
    assert_eq!(app.device_id, None);
    assert_eq!(app.playlists, None);
    assert_eq!(app.selected_playlist_index, None);
    assert!(app.songs_for_table.is_empty());
    assert_eq!(app.select_song_index, 0);
    assert_eq!(app.song_table_context, None);
    assert_eq!(app.search_results.hovered_block, SearchResultBlock::SongSearch);
    assert_eq!(app.search_results.selected_block, SearchResultBlock::Empty);
    assert_eq!(app.search_results.tracks, None);
    assert_eq!(app.current_playing_song, None);
    assert_eq!(app.api_error, "");
    assert_eq!(app.small_search_limit, 4);
    assert_eq!(app.large_search_limit, 20);
    assert_eq!(app.pending, None);
}

fn busy_state() -> App {
    let mut app = App::new();
    app.api_ready = true;
    app.input = "abba".to_string();
    app.playlists = Some(vec![playlist(1), playlist(2), playlist(3)]);
    app.selected_playlist_index = Some(1);
    app.devices = Some(vec![device(1), device(2)]);
    app.selected_device_index = Some(0);
    app.device_id = Some("dev1".to_string());
    app.songs_for_table = vec![track(1), track(2), track(3)];
    app.select_song_index = 2;
    app.song_table_context = Some(SongTableContext::MyPlaylists);
    app.search_results.tracks = Some(vec![track(7), track(8)]);
    app.search_results.playlists = Some(vec![playlist(9), playlist(10)]);
    app.search_results.albums = Some(Vec::new());
    app
}

#[test]
fn quit_keys_change_nothing_in_any_handler() {
    let keys = [Key::Char('q'), Key::Ctrl('c')];
    let blocks = [
        ActiveBlock::Input,
        ActiveBlock::MyPlaylists,
        ActiveBlock::SongTable,
        ActiveBlock::SearchResultBlock,
        ActiveBlock::HelpMenu,
        ActiveBlock::ApiError,
        ActiveBlock::SelectDevice,
    ];
    for key in keys {
        for block in blocks {
            let mut app = busy_state();
            app.active_block = block;
            let before = app.clone();
            assert_eq!(handle(key, &mut app), Some(EventLoop::Exit));
            assert_eq!(app, before);
        }
        let mut app = busy_state();
        let before = app.clone();
        assert_eq!(input_handler(key, &mut app), Some(EventLoop::Exit));
        assert_eq!(playlist_handler(key, &mut app), Some(EventLoop::Exit));
        assert_eq!(song_table_handler(key, &mut app), Some(EventLoop::Exit));
        assert_eq!(search_results_handler(key, &mut app), Some(EventLoop::Exit));
        assert_eq!(help_menu_handler(key, &mut app), Some(EventLoop::Exit));
        assert_eq!(api_error_menu_handler(key, &mut app), Some(EventLoop::Exit));
        assert_eq!(select_device_handler(key, &mut app), Some(EventLoop::Exit));
        assert_eq!(app, before);
    }
}

#[test]
fn esc_returns_to_playlists() {
    for block in [
        ActiveBlock::HelpMenu,
        ActiveBlock::ApiError,
        ActiveBlock::SelectDevice,
        ActiveBlock::Input,
    ] {
        let mut app = busy_state();
        app.active_block = block;
        let mut expected = app.clone();
        expected.active_block = ActiveBlock::MyPlaylists;
        assert_eq!(handle(Key::Esc, &mut app), None);
        assert_eq!(app, expected);
    }
}

#[test]
fn backspace_on_empty_input_keeps_it_empty() {
    let mut app = App::new();
    assert_eq!(input_handler(Key::Backspace, &mut app), None);
    assert_eq!(app.input, "");
    assert_eq!(app, App::new());
}

#[test]
fn input_takes_d_as_text() {
    let mut app = App::new();
    app.api_ready = true;
    assert_eq!(input_handler(Key::Char('d'), &mut app), None);
    assert_eq!(app.input, "d");
    assert_eq!(app.pending, None);
}

#[test]
fn input_enter_asks_for_a_search() {
    let mut app = App::new();
    app.api_ready = true;
    app.active_block = ActiveBlock::Input;
    app.input = "abba".to_string();
    assert_eq!(handle(Key::Char('\n'), &mut app), None);
    assert_eq!(
        app.pending,
        Some(Request::Search {
            query: "abba".to_string(),
            limit: 4,
            offset: 0,
            market: Market::UnitedKingdom
        })
    );
    assert_eq!(app.input, "abba");
    assert_eq!(app.active_block, ActiveBlock::Input);
}

#[test]
fn input_enter_without_a_connection_does_nothing() {
    let mut app = App::new();
    app.input = "abba".to_string();
    let before = app.clone();
    assert_eq!(input_handler(Key::Char('\n'), &mut app), None);
    assert_eq!(app, before);
}

#[test]
fn d_asks_for_devices() {
    for block in [
        ActiveBlock::MyPlaylists,
        ActiveBlock::SongTable,
        ActiveBlock::SearchResultBlock,
        ActiveBlock::HelpMenu,
        ActiveBlock::ApiError,
        ActiveBlock::SelectDevice,
    ] {
        let mut app = busy_state();
        app.active_block = block;
        let mut expected = app.clone();
        expected.pending = Some(Request::Devices);
        assert_eq!(handle(Key::Char('d'), &mut app), None);
        assert_eq!(app, expected);

        let mut offline = busy_state();
        offline.api_ready = false;
        offline.active_block = block;
        let before = offline.clone();
        assert_eq!(handle(Key::Char('d'), &mut offline), None);
        assert_eq!(offline, before);
    }
}

#[test]
fn playlist_right_needs_a_selection_or_a_search_text() {
    let mut app = App::new();
    assert_eq!(playlist_handler(Key::Right, &mut app), None);
    assert_eq!(app.active_block, ActiveBlock::MyPlaylists);

    app.input = "x".to_string();
    assert_eq!(playlist_handler(Key::Char('l'), &mut app), None);
    assert_eq!(app.active_block, ActiveBlock::SearchResultBlock);

    let mut app = App::new();
    app.input = "x".to_string();
    app.selected_playlist_index = Some(0);
    assert_eq!(playlist_handler(Key::Right, &mut app), None);
    assert_eq!(app.active_block, ActiveBlock::SongTable);
}

#[test]
fn playlist_cursor_moves_and_wraps() {
    let mut app = busy_state();
    assert_eq!(playlist_handler(Key::Down, &mut app), None);
    assert_eq!(app.selected_playlist_index, Some(2));
    assert_eq!(playlist_handler(Key::Char('j'), &mut app), None);
    assert_eq!(app.selected_playlist_index, Some(0));
    assert_eq!(playlist_handler(Key::Up, &mut app), None);
    assert_eq!(app.selected_playlist_index, Some(2));
    assert_eq!(playlist_handler(Key::Ctrl('p'), &mut app), None);
    assert_eq!(app.selected_playlist_index, Some(1));
}

#[test]
fn playlist_cursor_is_not_seeded_by_up_or_down() {
    let mut app = busy_state();
    app.selected_playlist_index = None;
    let before = app.clone();
    assert_eq!(playlist_handler(Key::Down, &mut app), None);
    assert_eq!(app, before);
    assert_eq!(playlist_handler(Key::Up, &mut app), None);
    assert_eq!(app, before);

    let mut unloaded = App::new();
    unloaded.selected_playlist_index = Some(1);
    let before = unloaded.clone();
    assert_eq!(playlist_handler(Key::Down, &mut unloaded), None);
    assert_eq!(playlist_handler(Key::Up, &mut unloaded), None);
    assert_eq!(unloaded, before);
}

#[test]
fn playlist_slash_opens_input() {
    let mut app = App::new();
    assert_eq!(playlist_handler(Key::Char('/'), &mut app), None);
    assert_eq!(app.active_block, ActiveBlock::Input);
}

#[test]
fn playlist_enter_asks_for_the_tracks() {
    let mut app = busy_state();
    app.song_table_context = None;
    let mut expected = app.clone();
    expected.song_table_context = Some(SongTableContext::MyPlaylists);
    expected.pending = Some(Request::PlaylistTracks {
        owner: "spotify".to_string(),
        playlist_id: "pl2".to_string(),
        limit: 20,
    });
    assert_eq!(playlist_handler(Key::Char('\n'), &mut app), None);
    assert_eq!(app, expected);
}

#[test]
fn playlist_enter_outside_the_list_only_marks_the_context() {
    let mut app = busy_state();
    app.song_table_context = None;
    app.selected_playlist_index = Some(3);
    let mut expected = app.clone();
    expected.song_table_context = Some(SongTableContext::MyPlaylists);
    assert_eq!(playlist_handler(Key::Char('\n'), &mut app), None);
    assert_eq!(app, expected);

    let mut none = App::new();
    let before = none.clone();
    assert_eq!(playlist_handler(Key::Char('\n'), &mut none), None);
    assert_eq!(none, before);
}

#[test]
fn song_table_cursor_moves_and_wraps() {
    let mut app = busy_state();
    assert_eq!(song_table_handler(Key::Down, &mut app), None);
    assert_eq!(app.select_song_index, 0);
    assert_eq!(song_table_handler(Key::Up, &mut app), None);
    assert_eq!(app.select_song_index, 2);
    assert_eq!(song_table_handler(Key::Char('k'), &mut app), None);
    assert_eq!(app.select_song_index, 1);

    let mut empty = App::new();
    assert_eq!(song_table_handler(Key::Down, &mut empty), None);
    assert_eq!(song_table_handler(Key::Up, &mut empty), None);
    assert_eq!(empty, App::new());
}

#[test]
fn song_table_left_slash_and_help() {
    let mut app = busy_state();
    app.active_block = ActiveBlock::SongTable;
    assert_eq!(song_table_handler(Key::Char('h'), &mut app), None);
    assert_eq!(app.active_block, ActiveBlock::MyPlaylists);
    assert_eq!(song_table_handler(Key::Char('/'), &mut app), None);
    assert_eq!(app.active_block, ActiveBlock::Input);
    assert_eq!(song_table_handler(Key::Char('?'), &mut app), None);
    assert_eq!(app.active_block, ActiveBlock::HelpMenu);
}

#[test]
fn song_table_enter_plays_within_the_playlist() {
    let mut app = busy_state();
    let mut expected = app.clone();
    expected.pending = Some(Request::StartPlayback {
        playback: PlaybackRequest {
            device_id: "dev1".to_string(),
            context_uri: Some("spotify:playlist:2".to_string()),
            uris: None,
            position: 2,
        },
        track: track(3),
    });
    assert_eq!(song_table_handler(Key::Char('\n'), &mut app), None);
    assert_eq!(app, expected);
}

#[test]
fn song_table_enter_from_a_found_playlist() {
    let mut app = busy_state();
    app.song_table_context = Some(SongTableContext::PlaylistSearch);
    app.search_results.selected_playlists_index = Some(1);
    app.select_song_index = 0;
    let mut expected = app.clone();
    expected.pending = Some(Request::StartPlayback {
        playback: PlaybackRequest {
            device_id: "dev1".to_string(),
            context_uri: Some("spotify:playlist:10".to_string()),
            uris: None,
            position: 0,
        },
        track: track(1),
    });
    assert_eq!(song_table_handler(Key::Char('\n'), &mut app), None);
    assert_eq!(app, expected);
}

#[test]
fn song_table_enter_without_a_device_shows_the_error() {
    let mut app = busy_state();
    app.device_id = None;
    let mut expected = app.clone();
    expected.active_block = ActiveBlock::ApiError;
    expected.api_error = "No device_id selected".to_string();
    assert_eq!(song_table_handler(Key::Char('\n'), &mut app), None);
    assert_eq!(app, expected);

    let mut offline = busy_state();
    offline.api_ready = false;
    let mut expected = offline.clone();
    expected.active_block = ActiveBlock::ApiError;
    expected.api_error = "Spotify is not ready to be used".to_string();
    assert_eq!(song_table_handler(Key::Char('\n'), &mut offline), None);
    assert_eq!(offline, expected);
}

#[test]
fn song_table_enter_plays_nothing_from_other_sources() {
    for context in [
        None,
        Some(SongTableContext::AlbumSearch),
        Some(SongTableContext::ArtistSearch),
        Some(SongTableContext::SongSearch),
    ] {
        let mut app = busy_state();
        app.song_table_context = context;
        let before = app.clone();
        assert_eq!(song_table_handler(Key::Char('\n'), &mut app), None);
        assert_eq!(app, before);
    }
    let mut app = busy_state();
    app.select_song_index = 3;
    let before = app.clone();
    assert_eq!(song_table_handler(Key::Char('\n'), &mut app), None);
    assert_eq!(app, before);
}

#[test]
fn search_enter_selects_the_hovered_song_panel() {
    let mut app = App::new();
    app.search_results.hovered_block = SearchResultBlock::SongSearch;
    app.search_results.selected_block = SearchResultBlock::Empty;
    assert_eq!(search_results_handler(Key::Char('\n'), &mut app), None);
    assert_eq!(app.search_results.selected_block, SearchResultBlock::SongSearch);
    assert_eq!(app.search_results.selected_tracks_index, Some(0));
    assert_eq!(app.search_results.hovered_block, SearchResultBlock::SongSearch);
}

#[test]
fn search_enter_seeds_each_panel() {
    let mut app = App::new();
    app.search_results.hovered_block = SearchResultBlock::AlbumSearch;
    search_results_handler(Key::Char('\n'), &mut app);
    assert_eq!(app.search_results.selected_block, SearchResultBlock::AlbumSearch);
    assert_eq!(app.search_results.selected_album_index, Some(0));

    let mut app = App::new();
    app.search_results.hovered_block = SearchResultBlock::ArtistSearch;
    search_results_handler(Key::Char('\n'), &mut app);
    assert_eq!(app.search_results.selected_block, SearchResultBlock::ArtistSearch);
    assert_eq!(app.search_results.selected_artists_index, Some(0));

    let mut app = App::new();
    app.search_results.hovered_block = SearchResultBlock::PlaylistSearch;
    search_results_handler(Key::Char('\n'), &mut app);
    assert_eq!(app.search_results.selected_block, SearchResultBlock::PlaylistSearch);
    assert_eq!(app.search_results.selected_playlists_index, Some(0));
}

#[test]
fn search_reentry_resumes_the_cursor() {
    let mut app = busy_state();
    app.search_results.hovered_block = SearchResultBlock::SongSearch;
    search_results_handler(Key::Char('\n'), &mut app);
    search_results_handler(Key::Down, &mut app);
    assert_eq!(app.search_results.selected_tracks_index, Some(1));
    let inside = app.clone();
    search_results_handler(Key::Esc, &mut app);
    assert_eq!(app.search_results.selected_block, SearchResultBlock::Empty);
    assert_eq!(app.search_results.selected_tracks_index, Some(1));
    search_results_handler(Key::Char('\n'), &mut app);
    assert_eq!(app, inside);
}

#[test]
fn search_hover_moves_along_the_pairs() {
    let pairs = [
        (SearchResultBlock::AlbumSearch, SearchResultBlock::SongSearch),
        (SearchResultBlock::SongSearch, SearchResultBlock::AlbumSearch),
        (SearchResultBlock::ArtistSearch, SearchResultBlock::PlaylistSearch),
        (SearchResultBlock::PlaylistSearch, SearchResultBlock::ArtistSearch),
    ];
    for (from, to) in pairs {
        for key in [Key::Down, Key::Up, Key::Char('j'), Key::Char('k')] {
            let mut app = App::new();
            app.search_results.hovered_block = from;
            let mut expected = app.clone();
            expected.search_results.hovered_block = to;
            assert_eq!(search_results_handler(key, &mut app), None);
            assert_eq!(app, expected);
        }
    }
}

#[test]
fn search_cursor_moves_inside_the_selected_panel() {
    let mut app = busy_state();
    app.search_results.selected_block = SearchResultBlock::PlaylistSearch;
    app.search_results.hovered_block = SearchResultBlock::PlaylistSearch;
    search_results_handler(Key::Down, &mut app);
    assert_eq!(app.search_results.selected_playlists_index, Some(0));
    search_results_handler(Key::Down, &mut app);
    assert_eq!(app.search_results.selected_playlists_index, Some(1));
    search_results_handler(Key::Down, &mut app);
    assert_eq!(app.search_results.selected_playlists_index, Some(0));
    search_results_handler(Key::Up, &mut app);
    assert_eq!(app.search_results.selected_playlists_index, Some(1));
    assert_eq!(app.search_results.hovered_block, SearchResultBlock::PlaylistSearch);

    // a list that is not loaded leaves its cursor alone
    app.search_results.selected_block = SearchResultBlock::ArtistSearch;
    let before = app.clone();
    search_results_handler(Key::Down, &mut app);
    search_results_handler(Key::Up, &mut app);
    assert_eq!(app, before);

    // a loaded but empty list puts the cursor on 0
    app.search_results.selected_block = SearchResultBlock::AlbumSearch;
    app.search_results.selected_album_index = Some(5);
    search_results_handler(Key::Up, &mut app);
    assert_eq!(app.search_results.selected_album_index, Some(0));
}

#[test]
fn search_left_and_right() {
    let lefts = [
        (SearchResultBlock::AlbumSearch, SearchResultBlock::AlbumSearch, true),
        (SearchResultBlock::SongSearch, SearchResultBlock::SongSearch, true),
        (SearchResultBlock::ArtistSearch, SearchResultBlock::SongSearch, false),
        (SearchResultBlock::PlaylistSearch, SearchResultBlock::AlbumSearch, false),
    ];
    for (from, to, leaves) in lefts {
        let mut app = App::new();
        app.active_block = ActiveBlock::SearchResultBlock;
        app.search_results.hovered_block = from;
        app.search_results.selected_block = from;
        let mut expected = app.clone();
        expected.search_results.hovered_block = to;
        expected.search_results.selected_block = SearchResultBlock::Empty;
        if leaves {
            expected.active_block = ActiveBlock::MyPlaylists;
        }
        assert_eq!(search_results_handler(Key::Left, &mut app), None);
        assert_eq!(app, expected);
    }
    let rights = [
        (SearchResultBlock::AlbumSearch, SearchResultBlock::PlaylistSearch),
        (SearchResultBlock::SongSearch, SearchResultBlock::ArtistSearch),
        (SearchResultBlock::ArtistSearch, SearchResultBlock::SongSearch),
        (SearchResultBlock::PlaylistSearch, SearchResultBlock::AlbumSearch),
    ];
    for (from, to) in rights {
        let mut app = App::new();
        app.active_block = ActiveBlock::SearchResultBlock;
        app.search_results.hovered_block = from;
        app.search_results.selected_block = from;
        let mut expected = app.clone();
        expected.search_results.hovered_block = to;
        expected.search_results.selected_block = SearchResultBlock::Empty;
        assert_eq!(search_results_handler(Key::Char('l'), &mut app), None);
        assert_eq!(app, expected);
    }
}

#[test]
fn search_enter_on_a_song_plays_that_track_alone() {
    let mut app = busy_state();
    app.search_results.hovered_block = SearchResultBlock::SongSearch;
    app.search_results.selected_block = SearchResultBlock::SongSearch;
    app.search_results.selected_tracks_index = Some(1);
    let mut expected = app.clone();
    expected.pending = Some(Request::StartPlayback {
        playback: PlaybackRequest {
            device_id: "dev1".to_string(),
            context_uri: None,
            uris: Some(vec!["spotify:track:8".to_string()]),
            position: 0,
        },
        track: track(8),
    });
    assert_eq!(search_results_handler(Key::Char('\n'), &mut app), None);
    assert_eq!(app, expected);
}

#[test]
fn search_enter_on_a_playlist_asks_for_its_tracks() {
    let mut app = busy_state();
    app.search_results.hovered_block = SearchResultBlock::PlaylistSearch;
    app.search_results.selected_block = SearchResultBlock::PlaylistSearch;
    app.search_results.selected_playlists_index = Some(0);
    let mut expected = app.clone();
    expected.song_table_context = Some(SongTableContext::PlaylistSearch);
    expected.pending = Some(Request::PlaylistTracks {
        owner: "spotify".to_string(),
        playlist_id: "pl9".to_string(),
        limit: 20,
    });
    assert_eq!(search_results_handler(Key::Char('\n'), &mut app), None);
    assert_eq!(app, expected);
}

#[test]
fn search_enter_on_albums_and_artists_does_nothing() {
    for panel in [SearchResultBlock::AlbumSearch, SearchResultBlock::ArtistSearch] {
        let mut app = busy_state();
        app.search_results.hovered_block = panel;
        app.search_results.selected_block = panel;
        app.search_results.selected_album_index = Some(0);
        app.search_results.selected_artists_index = Some(0);
        let before = app.clone();
        assert_eq!(search_results_handler(Key::Char('\n'), &mut app), None);
        assert_eq!(app, before);
    }
}

#[test]
fn select_device_moves_only_an_existing_selection() {
    let mut app = busy_state();
    assert_eq!(select_device_handler(Key::Down, &mut app), None);
    assert_eq!(app.selected_device_index, Some(1));
    assert_eq!(select_device_handler(Key::Down, &mut app), None);
    assert_eq!(app.selected_device_index, Some(0));
    assert_eq!(select_device_handler(Key::Up, &mut app), None);
    assert_eq!(app.selected_device_index, Some(1));

    app.selected_device_index = None;
    let before = app.clone();
    assert_eq!(select_device_handler(Key::Down, &mut app), None);
    assert_eq!(select_device_handler(Key::Up, &mut app), None);
    assert_eq!(app, before);
}

#[test]
fn select_device_enter_stores_the_device() {
    let mut app = busy_state();
    app.active_block = ActiveBlock::SelectDevice;
    app.device_id = None;
    app.selected_device_index = Some(1);
    let mut expected = app.clone();
    expected.device_id = Some("dev2".to_string());
    expected.active_block = ActiveBlock::MyPlaylists;
    assert_eq!(select_device_handler(Key::Char('\n'), &mut app), None);
    assert_eq!(app, expected);

    let mut empty = App::new();
    empty.active_block = ActiveBlock::SelectDevice;
    let before = empty.clone();
    assert_eq!(select_device_handler(Key::Char('\n'), &mut empty), None);
    assert_eq!(empty, before);
}

#[test]
fn router_runs_the_handler_of_the_active_block() {
    let mut app = busy_state();
    app.active_block = ActiveBlock::Input;
    assert_eq!(handle(Key::Char('j'), &mut app), None);
    assert_eq!(app.input, "abbaj");
    assert_eq!(app.selected_playlist_index, Some(1));

    app.active_block = ActiveBlock::MyPlaylists;
    assert_eq!(handle(Key::Char('j'), &mut app), None);
    assert_eq!(app.input, "abbaj");
    assert_eq!(app.selected_playlist_index, Some(2));

    app.active_block = ActiveBlock::SongTable;
    assert_eq!(handle(Key::Char('j'), &mut app), None);
    assert_eq!(app.select_song_index, 0);
    assert_eq!(app.selected_playlist_index, Some(2));

    app.active_block = ActiveBlock::HelpMenu;
    let before = app.clone();
    assert_eq!(handle(Key::Char('j'), &mut app), None);
    assert_eq!(app, before);
}

#[test]
fn a_whole_session() {
    let mut app = App::new();
    app.api_ready = true;
    assert_eq!(handle(Key::Char('d'), &mut app), None);
    assert_eq!(app.pending.take(), Some(Request::Devices));
    devices_fetched(&mut app, Ok(vec![device(1), device(2)]));
    assert_eq!(app.active_block, ActiveBlock::SelectDevice);
    assert_eq!(handle(Key::Down, &mut app), None);
    assert_eq!(handle(Key::Char('\n'), &mut app), None);
    assert_eq!(app.device_id, Some("dev2".to_string()));
    assert_eq!(app.active_block, ActiveBlock::MyPlaylists);

    app.playlists = Some(vec![playlist(1)]);
    app.selected_playlist_index = Some(0);
    assert_eq!(handle(Key::Char('\n'), &mut app), None);
    assert!(matches!(app.pending.take(), Some(Request::PlaylistTracks { .. })));
    playlist_tracks_fetched(&mut app, Ok(vec![track(1), track(2)]));
    assert_eq!(app.active_block, ActiveBlock::SongTable);
    assert_eq!(handle(Key::Down, &mut app), None);
    assert_eq!(handle(Key::Char('\n'), &mut app), None);
    match app.pending.take() {
        Some(Request::StartPlayback { playback, track: chosen }) => {
            assert_eq!(playback.position, 1);
            assert_eq!(chosen, track(2));
            playback_finished(&mut app, chosen, Err("Player command failed".to_string()));
        }
        other => panic!("unexpected request {:?}", other),
    }
    assert_eq!(app.active_block, ActiveBlock::ApiError);
    assert_eq!(app.api_error, "Player command failed");
    assert_eq!(handle(Key::Esc, &mut app), None);
    assert_eq!(app.active_block, ActiveBlock::MyPlaylists);
    assert_eq!(handle(Key::Char('q'), &mut app), Some(EventLoop::Exit));
}
