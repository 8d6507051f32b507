use rrt::api::Station;
use rrt::app::{Action, App, Context, Event, Key, MenuItem, Status};
use rrt::mpris::{Command, Response};
use rrt::player::PlayerCommand;

fn station(id: usize, title: &str, tooltip: &str) -> Station {
    Station {
        id,
        title: title.to_string(),
        prefix: format!("p{}", id),
        tooltip: tooltip.to_string(),
        short_title: title.to_string(),
        icon_fill_white: format!("https://icons/{}.svg", id),
        stream_320: format!("url_{}", id),
    }
}

fn std_list() -> Vec<Station> {
    vec![station(1, "Rock", "guitars"), station(2, "Chill", "calm"), station(3, "Jazz", "brass")]
}

fn sent(app: &mut App) -> Vec<String> {
    app.take_commands()
        .iter()
        .map(|c| match c {
            PlayerCommand::Play(u) => format!("play {}", u),
            PlayerCommand::Stop => "stop".to_string(),
            PlayerCommand::NowPlaying => "now".to_string(),
        })
        .collect()
}

fn selected_id(app: &App) -> Option<usize> {
    app.get_selected_station().map(|s| s.id)
}

fn key(app: &mut App, k: Key) -> Vec<Action> {
    app.handle(Event::Input(k))
}

#[test]
fn new_prefers_favorites() {
    let app = App::new(std_list(), vec![station(2, "Chill", "calm")]);
    assert_eq!(app.active_menu_item, MenuItem::Favorite(true));
    assert_eq!(app.playing_station.id, 2);
    assert_eq!(selected_id(&app), Some(2));
    assert!(!app.is_playing());
    assert_eq!(app.music_title, "Press n to show current song");
    let app = App::new(std_list(), vec![]);
    assert_eq!(app.active_menu_item, MenuItem::Standard(true));
    assert_eq!(app.playing_station.id, 1);
    assert_eq!(app.context(), Context::Stations);
}

#[test]
fn next_wraps_after_length_steps() {
    let mut app = App::new(std_list(), vec![]);
    app.next();
    let start = selected_id(&app);
    for _ in 0..3 {
        app.next();
    }
    assert_eq!(selected_id(&app), start);
    assert_eq!(start, Some(2));
}

#[test]
fn next_and_previous_wrap_at_both_ends() {
    let mut app = App::new(std_list(), vec![]);
    app.previous();
    assert_eq!(selected_id(&app), Some(3));
    app.next();
    assert_eq!(selected_id(&app), Some(1));
    key(&mut app, Key::Down);
    assert_eq!(selected_id(&app), Some(2));
    key(&mut app, Key::Up);
    assert_eq!(selected_id(&app), Some(1));
}

#[test]
fn enter_plays_the_selection_then_pauses_it() {
    let mut app = App::new(std_list(), vec![]);
    key(&mut app, Key::Down);
    key(&mut app, Key::Enter);
    assert_eq!(app.playing_station.id, 2);
    assert!(app.is_playing());
    assert_eq!(sent(&mut app), vec!["play url_2"]);
    key(&mut app, Key::Enter);
    assert!(!app.is_playing());
    assert_eq!(sent(&mut app), vec!["stop"]);
    key(&mut app, Key::Char(' '));
    assert_eq!(sent(&mut app), vec!["play url_2"]);
}

#[test]
fn same_station_twice_does_not_start_a_second_pipeline() {
    let mut app = App::new(std_list(), vec![]);
    app.play_at(1);
    app.play_at(1);
    let cmds = sent(&mut app);
    assert_eq!(cmds.iter().filter(|c| c.starts_with("play")).count(), 1);
}

#[test]
fn favorite_toggle_scenario() {
    let mut app = App::new(vec![station(1, "Rock", ""), station(2, "Chill", "")], vec![]);
    let actions = key(&mut app, Key::Char('f'));
    let favs = match actions.into_iter().next() {
        Some(Action::SaveFavorites(f)) => f,
        _ => panic!("expected favorites to save"),
    };
    assert_eq!(favs.iter().map(|s| s.id).collect::<Vec<_>>(), vec![1]);
    app.set_favorites(favs);
    assert_eq!(app.get_stations_list_fav().len(), 1);
    let favs = match key(&mut app, Key::Char('f')).into_iter().next() {
        Some(Action::SaveFavorites(f)) => f,
        _ => panic!("expected favorites to save"),
    };
    assert!(favs.is_empty());
    app.set_favorites(favs);
    assert!(app.get_stations_list_fav().is_empty());
}

#[test]
fn removing_the_last_favorite_switches_to_standard() {
    let mut app = App::new(std_list(), vec![station(2, "Chill", "calm")]);
    assert_eq!(app.active_menu_item, MenuItem::Favorite(true));
    let favs = match key(&mut app, Key::Char('f')).into_iter().next() {
        Some(Action::SaveFavorites(f)) => f,
        _ => panic!("expected favorites to save"),
    };
    app.set_favorites(favs);
    assert_eq!(app.active_menu_item, MenuItem::Standard(true));
    assert_eq!(app.get_stations_list().len(), 3);
}

#[test]
fn removing_the_last_row_clamps_the_selection() {
    let favs = vec![station(1, "Rock", ""), station(2, "Chill", "")];
    let mut app = App::new(std_list(), favs);
    app.next();
    assert_eq!(selected_id(&app), Some(2));
    let favs = match key(&mut app, Key::Char('f')).into_iter().next() {
        Some(Action::SaveFavorites(f)) => f,
        _ => panic!("expected favorites to save"),
    };
    app.set_favorites(favs);
    assert_eq!(app.selected, Some(0));
    assert_eq!(selected_id(&app), Some(1));
}

#[test]
fn remote_next_on_favorites_plays_the_next_station() {
    let favs = vec![station(1, "Rock", ""), station(2, "Chill", "")];
    let mut app = App::new(std_list(), favs);
    key(&mut app, Key::Enter);
    key(&mut app, Key::Enter);
    key(&mut app, Key::Enter);
    assert!(app.is_playing());
    assert_eq!(app.playing_station.id, 1);
    sent(&mut app);
    let actions = app.handle(Event::Mpris(Command::Next));
    assert!(actions.is_empty());
    assert_eq!(selected_id(&app), Some(2));
    assert_eq!(app.playing_station.id, 2);
    let cmds = sent(&mut app);
    assert_eq!(cmds, vec!["stop", "play url_2"]);
    assert_eq!(cmds.iter().filter(|c| c.starts_with("play")).count(), 1);
}

#[test]
fn remote_previous_and_play_controls() {
    let mut app = App::new(std_list(), vec![]);
    app.handle(Event::Mpris(Command::Previous));
    assert_eq!(app.playing_station.id, 3);
    assert_eq!(sent(&mut app), vec!["play url_3"]);
    app.handle(Event::Mpris(Command::Stop));
    app.handle(Event::Mpris(Command::Play));
    app.handle(Event::Mpris(Command::Play));
    app.handle(Event::Mpris(Command::PlayPause));
    assert_eq!(sent(&mut app), vec!["stop", "play url_3", "stop"]);
}

#[test]
fn remote_reads_are_answered_from_state() {
    let mut app = App::new(std_list(), vec![]);
    match app.handle(Event::Mpris(Command::Status)).into_iter().next() {
        Some(Action::Reply(Response::Status(s))) => assert_eq!(s, "Stopped"),
        _ => panic!("expected a status"),
    }
    app.play_selected();
    match app.handle(Event::Mpris(Command::Status)).into_iter().next() {
        Some(Action::Reply(Response::Status(s))) => assert_eq!(s, "Playing"),
        _ => panic!("expected a status"),
    }
    app.set_music_title("Song - Band".to_string());
    match app.handle(Event::Mpris(Command::NowPlaying)).into_iter().next() {
        Some(Action::Reply(Response::NowPlaying { title, artist })) => {
            assert_eq!(title, "Song - Band");
            assert_eq!(artist, "");
        }
        _ => panic!("expected a song"),
    }
}

#[test]
fn filter_round_trip_restores_selection() {
    let mut app = App::new(std_list(), vec![]);
    app.next();
    app.next();
    assert_eq!(selected_id(&app), Some(3));
    assert!(key(&mut app, Key::Char('/')).is_empty());
    assert!(app.filtering);
    assert!(matches!(key(&mut app, Key::Char('c'))[0], Action::EditFilter));
    app.set_filter("CH".to_string());
    assert_eq!(app.get_stations_list().iter().map(|s| s.id).collect::<Vec<_>>(), vec![2]);
    assert!(matches!(key(&mut app, Key::Esc)[0], Action::ClearFilter));
    assert!(!app.filtering);
    assert_eq!(app.filter, "");
    assert_eq!(app.active_menu_item, MenuItem::Standard(true));
    assert_eq!(selected_id(&app), Some(3));
}

#[test]
fn filter_enter_keeps_the_search() {
    let mut app = App::new(std_list(), vec![]);
    key(&mut app, Key::Char('/'));
    app.set_filter("brass".to_string());
    assert!(key(&mut app, Key::Enter).is_empty());
    assert!(!app.filtering);
    assert_eq!(app.get_stations_list().len(), 1);
}

#[test]
fn switching_lists_is_refused_when_target_is_empty() {
    let mut app = App::new(std_list(), vec![]);
    key(&mut app, Key::Esc);
    assert_eq!(app.active_menu_item, MenuItem::Standard(false));
    key(&mut app, Key::Up);
    assert_eq!(app.active_menu_item, MenuItem::Standard(false));
    key(&mut app, Key::Down);
    assert_eq!(app.active_menu_item, MenuItem::Standard(true));
    assert_eq!(app.selected, Some(0));
}

#[test]
fn help_screen_and_quit() {
    let mut app = App::new(std_list(), vec![]);
    key(&mut app, Key::Char('h'));
    assert_eq!(app.context(), Context::Help);
    key(&mut app, Key::Char('/'));
    assert!(!app.filtering);
    key(&mut app, Key::Esc);
    assert_eq!(app.context(), Context::Stations);
    assert!(matches!(key(&mut app, Key::Char('q'))[0], Action::Quit));
}

#[test]
fn now_playing_requests() {
    let mut app = App::new(std_list(), vec![]);
    key(&mut app, Key::Char('n'));
    assert!(sent(&mut app).is_empty());
    app.play_selected();
    sent(&mut app);
    app.handle(Event::NowPlaying);
    assert_eq!(sent(&mut app), vec!["now"]);
    app.set_now_playing(Some("Song".to_string()));
    assert_eq!(app.music_title, "Song");
    app.set_now_playing(None);
    assert_eq!(app.music_title, "Song");
    match key(&mut app, Key::Char('N')).into_iter().next() {
        Some(Action::FetchNowPlaying(id)) => assert_eq!(id, 1),
        _ => panic!("expected a lookup"),
    }
    assert!(app.handle(Event::Tick).is_empty());
}

#[test]
fn random_play_stays_within_the_list() {
    let mut app = App::new(std_list(), vec![]);
    for _ in 0..20 {
        key(&mut app, Key::Char('r'));
        let i = app.selected.unwrap();
        assert!(i < 3);
        assert_eq!(app.get_selected_station().unwrap().id, app.playing_station.id);
    }
}

#[test]
fn status_texts() {
    let s = Status { station: station(1, "Rock", ""), playing: true };
    assert_eq!(s.mpris_playing(), "Playing");
    assert_eq!(s.text(), "Now playing : Rock ");
    let s = Status { station: station(1, "Rock", ""), playing: false };
    assert_eq!(s.mpris_playing(), "Stopped");
    assert_eq!(s.text(), "Paused : Rock ");
}
