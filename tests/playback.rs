use rrt::mpris::{metadata_reply, status_reply, RequestSlot, Response};
use rrt::player::{Engine, EngineAction, EngineState, Player, PlayerCommand};

fn kinds(c: &[PlayerCommand]) -> Vec<String> {
    c.iter()
        .map(|c| match c {
            PlayerCommand::Play(u) => format!("play {}", u),
            PlayerCommand::Stop => "stop".to_string(),
            PlayerCommand::NowPlaying => "now".to_string(),
        })
        .collect()
}

fn acts(a: &[EngineAction]) -> Vec<String> {
    a.iter()
        .map(|a| match a {
            EngineAction::Fetch { pipeline, url } => format!("fetch {} {}", pipeline, url),
            EngineAction::OpenDecoder(p) => format!("open {}", p),
            EngineAction::RetryDecoder(p) => format!("retry {}", p),
            EngineAction::Output(p) => format!("output {}", p),
            EngineAction::Halt(p) => format!("halt {}", p),
            EngineAction::ReadTitle => "title".to_string(),
        })
        .collect()
}

#[test]
fn player_play_sends_once() {
    let mut p = Player::new("u0".to_string());
    assert!(!p.is_playing());
    assert!(p.play("a"));
    assert!(!p.play("a"));
    assert!(p.is_playing());
    assert_eq!(kinds(&p.take_commands()), vec!["play a"]);
    assert!(p.take_commands().is_empty());
}

#[test]
fn player_toggle_and_resume() {
    let mut p = Player::new("u0".to_string());
    p.toggle_play();
    p.toggle_play();
    p.resume();
    p.resume();
    assert_eq!(kinds(&p.take_commands()), vec!["play u0", "stop", "play u0"]);
    assert_eq!(p.url(), "u0");
}

#[test]
fn player_force_play_stops_first() {
    let mut p = Player::new("u0".to_string());
    assert!(p.force_play("a"));
    assert!(p.force_play("b"));
    assert_eq!(kinds(&p.take_commands()), vec!["play a", "stop", "play b"]);
    assert_eq!(p.url(), "b");
}

#[test]
fn player_now_playing_queues_a_request() {
    let mut p = Player::new("u0".to_string());
    p.now_playing();
    assert_eq!(kinds(&p.take_commands()), vec!["now"]);
}

#[test]
fn engine_pipeline_runs_through_its_states() {
    let mut e = Engine::new();
    assert_eq!(e.state(), EngineState::Idle);
    assert_eq!(acts(&e.command(PlayerCommand::Play("s".to_string()))), vec!["fetch 1 s"]);
    assert_eq!(e.state(), EngineState::Fetching);
    assert!(e.is_playing());
    assert!(e.on_warmed_up(0).is_empty());
    assert_eq!(acts(&e.on_warmed_up(1)), vec!["open 1"]);
    assert_eq!(e.state(), EngineState::Decoding);
    assert_eq!(acts(&e.on_decoder(1, false)), vec!["retry 1"]);
    assert_eq!(e.state(), EngineState::Decoding);
    assert_eq!(acts(&e.on_decoder(1, true)), vec!["output 1"]);
    assert_eq!(e.state(), EngineState::Playing);
    assert_eq!(acts(&e.command(PlayerCommand::Stop)), vec!["halt 1"]);
    assert_eq!(e.state(), EngineState::Stopping);
    assert!(!e.is_playing());
    e.on_halted(1);
    assert_eq!(e.state(), EngineState::Idle);
}

#[test]
fn engine_stop_while_fetching_is_idle_at_once() {
    let mut e = Engine::new();
    e.command(PlayerCommand::Play("s".to_string()));
    assert_eq!(acts(&e.command(PlayerCommand::Stop)), vec!["halt 1"]);
    assert_eq!(e.state(), EngineState::Idle);
    assert!(e.command(PlayerCommand::Stop).is_empty());
}

#[test]
fn engine_second_play_halts_the_first_pipeline() {
    let mut e = Engine::new();
    e.command(PlayerCommand::Play("a".to_string()));
    let second = e.command(PlayerCommand::Play("a".to_string()));
    assert_eq!(acts(&second), vec!["halt 1", "fetch 2 a"]);
    assert_eq!(e.pipeline(), 2);
    assert!(e.on_warmed_up(1).is_empty());
}

#[test]
fn engine_idle_answers_placeholder() {
    let mut e = Engine::new();
    assert_eq!(acts(&e.command(PlayerCommand::NowPlaying)), vec!["title"]);
    assert_eq!(e.now_playing(None), "Loading...");
    assert_eq!(e.now_playing(Some("Song".to_string())), "Loading...");
    assert_eq!(e.state(), EngineState::Idle);
}

#[test]
fn engine_playing_answers_title() {
    let mut e = Engine::new();
    e.command(PlayerCommand::Play("a".to_string()));
    e.on_warmed_up(1);
    e.on_decoder(1, true);
    assert_eq!(e.now_playing(Some("Song".to_string())), "Song");
    assert_eq!(e.now_playing(None), "Loading...");
}

#[test]
fn status_reply_defaults_to_unknown() {
    assert_eq!(status_reply(Some(Response::Status("Playing".to_string()))), "Playing");
    assert_eq!(status_reply(None), "Unknown");
    let other = Response::NowPlaying { title: "t".to_string(), artist: "a".to_string() };
    assert_eq!(status_reply(Some(other)), "Unknown");
}

#[test]
fn metadata_reply_gives_title_and_artist() {
    let r = metadata_reply(Some(Response::NowPlaying { title: "t".to_string(), artist: "a".to_string() }));
    let t = r.unwrap();
    assert_eq!(t.song, "t");
    assert_eq!(t.artist, "a");
    assert!(metadata_reply(None).is_none());
    assert!(metadata_reply(Some(Response::Status("Playing".to_string()))).is_none());
}

#[test]
fn request_slot_refuses_a_second_read() {
    let mut s = RequestSlot::new();
    assert!(!s.is_taken());
    assert!(s.try_acquire());
    assert!(!s.try_acquire());
    s.release();
    assert!(s.try_acquire());
}
