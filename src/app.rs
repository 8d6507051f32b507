//! The control loop: the only owner of the station lists, the selection, the
//! search filter and the playback intent. Each event (a key, a tick, a request of
//! the remote-control bridge) is one step from state to state, which hands back
//! the work that the surrounding program performs.
use vstd::prelude::*;
use crate::api::Station;
use crate::config::{first_with_id, has_id, lemma_first_with_id, toggle_to_favorite, toggled};
use crate::filter::{filter_stations, filtered, station_matches};
use crate::mpris::{Command, Response, ResponseView};
use crate::player::{
    force_play_step,
    play_step,
    stop_step,
    toggle_step,
    CommandView,
    Player,
    PlayerCommand,
    PlayerView,
};

verus! {

/// Milliseconds between two ticks of the control loop.
pub const TICK_MS: u64 = 200;

/// Ticks before the first refresh of the song line.
pub const FIRST_REFRESH_TICKS: u32 = 20;

/// Ticks between two later refreshes of the song line.
pub const REFRESH_TICKS: u32 = 4;

/// Counts ticks down to the next `NowPlaying` event.
pub struct RefreshCountdown {
    left: u32,
    period: u32,
}

impl View for RefreshCountdown {
    type V = (u32, u32);

    closed spec fn view(&self) -> (u32, u32) {
        (self.left, self.period)
    }
}

impl RefreshCountdown {
    /// A countdown whose first refresh comes after `first` ticks, and each later
    /// one `period` ticks after the one before.
    pub fn new(first: u32, period: u32) -> (r: RefreshCountdown)
        ensures
            r@ == (first, period),
    {
        RefreshCountdown { left: first, period }
    }

    /// One tick: says whether the song line is due for a refresh.
    pub fn tick(&mut self) -> (r: bool)
        ensures
            r == (old(self)@.0 <= 1),
            r ==> final(self)@ == (old(self)@.1, old(self)@.1),
            !r ==> final(self)@ == ((old(self)@.0 - 1) as u32, old(self)@.1),
    {
        if self.left <= 1 {
            self.left = self.period;
            true
        } else {
            self.left = self.left - 1;
            false
        }
    }
}

/// The screen that the control loop shows.
#[derive(Copy, Clone, Debug, PartialEq, Eq, Structural)]
pub enum Context {
    Stations,
    Help,
}

/// The active station list, and whether the selection moves within it (`true`)
/// or the arrows choose between the two lists (`false`).
#[derive(Copy, Clone, Debug, PartialEq, Eq, Structural)]
pub enum MenuItem {
    Favorite(bool),
    Standard(bool),
}

/// The station that plays, and whether it should be audible.
pub struct Status {
    pub station: Station,
    pub playing: bool,
}

impl Status {
    /// The playback status as the remote-control surface names it.
    pub fn mpris_playing(&self) -> (r: String)
        ensures
            r@ == if self.playing {
                "Playing"@
            } else {
                "Stopped"@
            },
    {
        if self.playing {
            String::from_str("Playing")
        } else {
            String::from_str("Stopped")
        }
    }

    /// The status line: `Now playing : <title> ` or `Paused : <title> `.
    pub fn text(&self) -> (r: String)
        ensures
            r@ == (if self.playing {
                "Now playing"@
            } else {
                "Paused"@
            }) + " : "@ + self.station.title@ + " "@,
    {
        let mut r = if self.playing {
            String::from_str("Now playing")
        } else {
            String::from_str("Paused")
        };
        r.append(" : ");
        r.append(self.station.title.as_str());
        r.append(" ");
        r
    }
}

/// A key as the control loop reads it.
#[derive(Copy, Clone, Debug, PartialEq, Eq, Structural)]
pub enum Key {
    Char(char),
    Enter,
    Esc,
    Up,
    Down,
    Other,
}

/// An input of the control loop.
#[derive(Copy, Clone, Debug, PartialEq, Eq, Structural)]
pub enum Event {
    Input(Key),
    Tick,
    NowPlaying,
    Mpris(Command),
}

/// Work for the program around the control loop. Commands to the engine are not
/// among them: they wait in the player, see `App::take_commands`.
#[derive(Debug)]
pub enum Action {
    /// Leave the program.
    Quit,
    /// Hand the key to the search text input, then call `App::set_filter`.
    EditFilter,
    /// Empty the search text input.
    ClearFilter,
    /// Write these favorites to the store; when that succeeds, call `App::set_favorites`.
    SaveFavorites(Vec<Station>),
    /// Ask the directory what the station with this id plays, then call `App::set_music_title`.
    FetchNowPlaying(usize),
    /// Answer the bridge's property read.
    Reply(Response),
}

/// A piece of work as a mathematical value.
pub enum ActionView {
    Quit,
    EditFilter,
    ClearFilter,
    SaveFavorites(Seq<Station>),
    FetchNowPlaying(usize),
    Reply(ResponseView),
}

impl View for Action {
    type V = ActionView;

    open spec fn view(&self) -> ActionView {
        match self {
            Action::Quit => ActionView::Quit,
            Action::EditFilter => ActionView::EditFilter,
            Action::ClearFilter => ActionView::ClearFilter,
            Action::SaveFavorites(f) => ActionView::SaveFavorites(f@),
            Action::FetchNowPlaying(id) => ActionView::FetchNowPlaying(*id),
            Action::Reply(resp) => ActionView::Reply(resp@),
        }
    }
}

/// The views of a sequence of actions.
pub open spec fn actions_view(r: Seq<Action>) -> Seq<ActionView> {
    r.map_values(|a: Action| a@)
}

/// The state of the control loop.
pub struct App {
    stations_list_std: Vec<Station>,
    stations_list_fav: Vec<Station>,
    player: Player,
    active_context: Context,
    pub filtering: bool,
    pub music_title: String,
    pub selected: Option<usize>,
    pub playing_station: Station,
    pub active_menu_item: MenuItem,
    pub filter: String,
    last_selected: Option<usize>,
}

/// The state of the control loop as a mathematical value.
pub struct AppView {
    pub std: Seq<Station>,
    pub fav: Seq<Station>,
    pub player: PlayerView,
    pub context: Context,
    pub filtering: bool,
    pub music_title: Seq<char>,
    pub selected: Option<usize>,
    pub playing: Station,
    pub menu: MenuItem,
    pub filter: Seq<char>,
    pub last_selected: Option<usize>,
}

impl View for App {
    type V = AppView;

    closed spec fn view(&self) -> AppView {
        AppView {
            std: self.stations_list_std@,
            fav: self.stations_list_fav@,
            player: self.player@,
            context: self.active_context,
            filtering: self.filtering,
            music_title: self.music_title@,
            selected: self.selected,
            playing: self.playing_station,
            menu: self.active_menu_item,
            filter: self.filter@,
            last_selected: self.last_selected,
        }
    }
}

/// The list that the menu item names, unfiltered.
pub open spec fn active_list(v: AppView) -> Seq<Station> {
    match v.menu {
        MenuItem::Favorite(_) => v.fav,
        MenuItem::Standard(_) => v.std,
    }
}

/// The list on screen: the active list filtered by the search text.
pub open spec fn visible(v: AppView) -> Seq<Station> {
    filtered(active_list(v), v.filter)
}

/// The selected station, where the selection lies within the list on screen.
pub open spec fn selected_station(v: AppView) -> Option<Station> {
    match v.selected {
        Some(i) => if i < visible(v).len() {
            Some(visible(v)[i as int])
        } else {
            None
        },
        None => None,
    }
}

/// The selection one down, wrapping from the last station to the first.
pub open spec fn next_sel(sel: Option<usize>, n: nat) -> Option<usize> {
    match sel {
        Some(i) => if n == 0 {
            sel
        } else if i >= n - 1 {
            Some(0)
        } else {
            Some((i + 1) as usize)
        },
        None => None,
    }
}

/// The selection one up, wrapping from the first station to the last.
pub open spec fn prev_sel(sel: Option<usize>, n: nat) -> Option<usize> {
    match sel {
        Some(i) => if n == 0 {
            sel
        } else if i > 0 {
            Some((i - 1) as usize)
        } else {
            Some((n - 1) as usize)
        },
        None => None,
    }
}

/// `next`: the selection one down in the list on screen.
pub open spec fn next_step(v: AppView) -> AppView {
    AppView { selected: next_sel(v.selected, visible(v).len()), ..v }
}

/// `previous`: the selection one up in the list on screen.
pub open spec fn prev_step(v: AppView) -> AppView {
    AppView { selected: prev_sel(v.selected, visible(v).len()), ..v }
}

/// The menu item with its flag flipped: the same list, the other arrow mode.
pub open spec fn flip(m: MenuItem) -> MenuItem {
    match m {
        MenuItem::Favorite(b) => MenuItem::Favorite(!b),
        MenuItem::Standard(b) => MenuItem::Standard(!b),
    }
}

/// `next` applied `k` times.
pub open spec fn iterate_next(v: AppView, k: nat) -> AppView
    decreases k,
{
    if k == 0 {
        v
    } else {
        next_step(iterate_next(v, (k - 1) as nat))
    }
}

/// Playing a station: another station than the current one replaces it; the
/// current one is paused or resumed.
pub open spec fn play_station_step(v: AppView, st: Station) -> AppView {
    if st.id != v.playing.id {
        AppView { player: force_play_step(v.player, st.stream_320@), playing: st, ..v }
    } else {
        AppView { player: toggle_step(v.player), ..v }
    }
}

/// Playing the selected station, if any.
pub open spec fn play_selected_step(v: AppView) -> AppView {
    match selected_station(v) {
        Some(st) => play_station_step(v, st),
        None => v,
    }
}

/// Selecting the station at `k` of the list on screen, and playing it.
pub open spec fn play_at_step(v: AppView, k: usize) -> AppView {
    play_selected_step(AppView { selected: Some(k), ..v })
}

/// A remote `Next` or `Previous`, once the selection moved: the selected station
/// replaces whatever plays.
pub open spec fn remote_play_step(w: AppView) -> AppView {
    match selected_station(w) {
        Some(st) => AppView { player: force_play_step(w.player, st.stream_320@), playing: st, ..w },
        None => w,
    }
}

/// Asking the engine for its title, when something plays.
pub open spec fn now_playing_step(v: AppView) -> AppView {
    if v.player.playing {
        AppView {
            player: PlayerView { sent: v.player.sent.push(CommandView::NowPlaying), ..v.player },
            ..v
        }
    } else {
        v
    }
}

/// Entering search mode, from the station screen: the selected station's id is kept.
pub open spec fn begin_filter_step(v: AppView) -> AppView {
    if v.context == Context::Stations {
        AppView {
            filtering: true,
            menu: flip(v.menu),
            last_selected: match selected_station(v) {
                Some(st) => Some(st.id),
                None => None,
            },
            ..v
        }
    } else {
        v
    }
}

/// The position of the first station with the id `id` in `s`, or 0 if none has it.
pub open spec fn restore_pos(s: Seq<Station>, id: usize) -> usize {
    if has_id(s, id) {
        (choose|i: int| first_with_id(s, id, i)) as usize
    } else {
        0
    }
}

/// Leaving search mode with `Esc`: the search text is cleared, and the station
/// selected on entry is selected again, by its id.
pub open spec fn end_filter_step(v: AppView) -> AppView {
    let cleared = AppView { filter: Seq::empty(), filtering: false, menu: flip(v.menu), ..v };
    match v.last_selected {
        Some(id) => AppView { selected: Some(restore_pos(active_list(v), id)), ..cleared },
        None => cleared,
    }
}

/// New favorites, once stored: the favorites list leaves the screen when it is
/// empty, and a selection past the end of the list on screen moves to its last station.
pub open spec fn set_favorites_step(v: AppView, f: Seq<Station>) -> AppView {
    let w = AppView { fav: f, ..v };
    if f.len() == 0 {
        AppView { menu: MenuItem::Standard(true), ..w }
    } else {
        match w.selected {
            Some(i) => if i >= visible(w).len() && visible(w).len() > 0 {
                AppView { selected: Some((visible(w).len() - 1) as usize), ..w }
            } else {
                w
            },
            None => w,
        }
    }
}

/// `Down`: one station down, or, in list mode, the standard list if it shows any station.
pub open spec fn down_step(v: AppView) -> AppView {
    match v.menu {
        MenuItem::Favorite(true) | MenuItem::Standard(true) => next_step(v),
        _ => if filtered(v.std, v.filter).len() > 0 {
            AppView { menu: MenuItem::Standard(true), selected: Some(0usize), ..v }
        } else {
            v
        },
    }
}

/// `Up`: one station up, or, in list mode, the favorites if they show any station.
pub open spec fn up_step(v: AppView) -> AppView {
    match v.menu {
        MenuItem::Favorite(true) | MenuItem::Standard(true) => prev_step(v),
        _ => if filtered(v.fav, v.filter).len() > 0 {
            AppView { menu: MenuItem::Favorite(true), selected: Some(0usize), ..v }
        } else {
            v
        },
    }
}

/// `Esc` outside search mode: back from help, or flip the arrow mode.
pub open spec fn esc_step(v: AppView) -> AppView {
    match v.context {
        Context::Help => AppView { context: Context::Stations, ..v },
        Context::Stations => AppView { menu: flip(v.menu), ..v },
    }
}

/// A key, but `r` outside search mode, which plays a station drawn at random.
pub open spec fn key_step(v: AppView, k: Key) -> (AppView, Seq<ActionView>) {
    if v.filtering {
        match k {
            Key::Esc => (end_filter_step(v), seq![ActionView::ClearFilter]),
            Key::Enter => (AppView { filtering: false, ..v }, Seq::empty()),
            _ => (v, seq![ActionView::EditFilter]),
        }
    } else {
        match k {
            Key::Char('q') => (v, seq![ActionView::Quit]),
            Key::Char('h') | Key::Char('?') => (AppView { context: Context::Help, ..v }, Seq::empty()),
            Key::Char('f') => (
                v,
                match selected_station(v) {
                    Some(st) => seq![ActionView::SaveFavorites(toggled(v.fav, st))],
                    None => Seq::empty(),
                },
            ),
            Key::Char('n') => (now_playing_step(v), Seq::empty()),
            Key::Char('N') => (
                v,
                match selected_station(v) {
                    Some(st) => seq![ActionView::FetchNowPlaying(st.id)],
                    None => Seq::empty(),
                },
            ),
            Key::Char(' ') => (AppView { player: toggle_step(v.player), ..v }, Seq::empty()),
            Key::Char('/') => (begin_filter_step(v), Seq::empty()),
            Key::Enter => (play_selected_step(v), Seq::empty()),
            Key::Down => (down_step(v), Seq::empty()),
            Key::Up => (up_step(v), Seq::empty()),
            Key::Esc => (esc_step(v), Seq::empty()),
            _ => (v, Seq::empty()),
        }
    }
}

/// The playback status that the control loop gives the bridge.
pub open spec fn status_text(playing: bool) -> Seq<char> {
    if playing {
        "Playing"@
    } else {
        "Stopped"@
    }
}

/// A request of the remote-control bridge.
pub open spec fn remote_step(v: AppView, c: Command) -> (AppView, Seq<ActionView>) {
    match c {
        Command::PlayPause => (AppView { player: toggle_step(v.player), ..v }, Seq::empty()),
        Command::Stop => (AppView { player: stop_step(v.player), ..v }, Seq::empty()),
        Command::Play => (AppView { player: play_step(v.player, v.player.url), ..v }, Seq::empty()),
        Command::Next => (remote_play_step(next_step(v)), Seq::empty()),
        Command::Previous => (remote_play_step(prev_step(v)), Seq::empty()),
        Command::NowPlaying => (
            v,
            seq![ActionView::Reply(ResponseView::NowPlaying(v.music_title, Seq::empty()))],
        ),
        Command::Status => (
            v,
            seq![ActionView::Reply(ResponseView::Status(status_text(v.player.playing)))],
        ),
    }
}

/// The key `r` outside search mode, whose outcome is drawn at random.
pub open spec fn is_random_key(v: AppView, e: Event) -> bool {
    !v.filtering && e == Event::Input(Key::Char('r'))
}

/// One event of the control loop, but a random draw.
pub open spec fn event_step(v: AppView, e: Event) -> (AppView, Seq<ActionView>) {
    match e {
        Event::Input(k) => key_step(v, k),
        Event::Tick => (v, Seq::empty()),
        Event::NowPlaying => (now_playing_step(v), Seq::empty()),
        Event::Mpris(c) => remote_step(v, c),
    }
}

/// Relies on `rand::random`: a value drawn from the thread's generator. Nothing is
/// known of it.
pub assume_specification<T>[ rand::random::<T> ]() -> (r: T)
    where
        rand::distributions::Standard: rand::distributions::Distribution<T>,
;

/// A filter that keeps every element keeps the sequence.
proof fn lemma_filter_all(s: Seq<Station>, pred: spec_fn(Station) -> bool)
    requires
        forall|x: Station| #[trigger] pred(x),
    ensures
        s.filter(pred) == s,
    decreases s.len(),
{
    reveal(Seq::filter);
    if s.len() > 0 {
        lemma_filter_all(s.drop_last(), pred);
        assert(s.drop_last().push(s.last()) =~= s);
    }
}

/// With no search text, the list on screen is the active list.
pub proof fn lemma_empty_filter_shows_all(v: AppView)
    requires
        v.filter.len() == 0,
    ensures
        visible(v) == active_list(v),
{
    lemma_filter_all(active_list(v), |st: Station| station_matches(st, v.filter));
}

/// After `k` moves down, the selection has moved `k` places, wrapping once.
proof fn lemma_next_iter(v: AppView, k: nat)
    requires
        v.selected is Some,
        v.selected->Some_0 < visible(v).len(),
        k <= visible(v).len(),
        visible(v).len() <= usize::MAX,
    ensures
        iterate_next(v, k) == (AppView {
            selected: Some(
                (if v.selected->Some_0 + k < visible(v).len() {
                    v.selected->Some_0 + k
                } else {
                    v.selected->Some_0 + k - visible(v).len()
                }) as usize,
            ),
            ..v
        }),
    decreases k,
{
    let n = visible(v).len();
    let i = v.selected->Some_0 as int;
    if k > 0 {
        lemma_next_iter(v, (k - 1) as nat);
        let w = iterate_next(v, (k - 1) as nat);
        assert(visible(w) == visible(v));
        let j = if i + k - 1 < n {
            i + k - 1
        } else {
            i + k - 1 - n
        };
        assert(w.selected == Some(j as usize));
        assert(0 <= j < n);
        if j >= n - 1 {
            assert(next_sel(w.selected, n) == Some(0usize));
        } else {
            assert(next_sel(w.selected, n) == Some((j + 1) as usize));
        }
    } else {
        assert(v.selected == Some(i as usize));
    }
}

/// Moving down as many times as the list on screen is long comes back to the
/// station that was selected.
pub proof fn lemma_next_cycle(v: AppView)
    requires
        v.selected is Some,
        v.selected->Some_0 < visible(v).len(),
        visible(v).len() <= usize::MAX,
    ensures
        iterate_next(v, visible(v).len()) == v,
        selected_station(iterate_next(v, visible(v).len())) == selected_station(v),
{
    lemma_next_iter(v, visible(v).len());
}

/// Entering search mode, typing a search text, and leaving it with `Esc` clears
/// the search and selects again the station that was selected before, found by
/// its id in the unfiltered list.
pub proof fn lemma_filter_round_trip(v: AppView, text: Seq<char>)
    requires
        !v.filtering,
        v.context == Context::Stations,
        selected_station(v) is Some,
        active_list(v).len() <= usize::MAX,
    ensures
        ({
            let w = end_filter_step(AppView { filter: text, ..begin_filter_step(v) });
            &&& !w.filtering
            &&& w.filter.len() == 0
            &&& w.menu == v.menu
            &&& visible(w) == active_list(v)
            &&& selected_station(w) is Some
            &&& selected_station(w)->Some_0.id == selected_station(v)->Some_0.id
        }),
{
    let st = selected_station(v)->Some_0;
    let s = active_list(v);
    let pred = |x: Station| station_matches(x, v.filter);
    let i = v.selected->Some_0 as int;
    assert(s.filter(pred)[i] == st);
    assert(s.filter(pred).contains(st));
    s.lemma_filter_contains_rev(pred, st);
    let j = choose|j: int| 0 <= j < s.len() && s[j] == st;
    assert(has_id(s, st.id));
    lemma_first_with_id(s, st.id, j);
    let u = AppView { filter: text, ..begin_filter_step(v) };
    assert(u.last_selected == Some(st.id));
    assert(active_list(u) == s);
    let w = end_filter_step(u);
    let pos = choose|c: int| first_with_id(s, st.id, c);
    assert(first_with_id(s, st.id, pos));
    lemma_empty_filter_shows_all(w);
    assert(active_list(w) == s);
    assert(w.selected == Some(pos as usize));
}

impl App {
    /// The control loop at start: the favorites are active when there are any,
    /// the first station of the active list is selected and is the current
    /// station, which is silent.
    pub fn new(stations_list_std: Vec<Station>, stations_list_fav: Vec<Station>) -> (r: App)
        requires
            stations_list_std@.len() > 0 || stations_list_fav@.len() > 0,
        ensures
            r@.std == stations_list_std@,
            r@.fav == stations_list_fav@,
            r@.menu == if stations_list_fav@.len() > 0 {
                MenuItem::Favorite(true)
            } else {
                MenuItem::Standard(true)
            },
            r@.playing == active_list(r@)[0],
            r@.player == (PlayerView {
                playing: false,
                url: active_list(r@)[0].stream_320@,
                sent: Seq::empty(),
            }),
            r@.selected == Some(0usize),
            r@.context == Context::Stations,
            !r@.filtering,
            r@.filter.len() == 0,
            r@.last_selected is None,
            r@.music_title == "Press n to show current song"@,
    {
        let active_menu_item = if stations_list_fav.len() > 0 {
            MenuItem::Favorite(true)
        } else {
            MenuItem::Standard(true)
        };
        let playing_station = match active_menu_item {
            MenuItem::Favorite(_) => stations_list_fav[0].clone(),
            MenuItem::Standard(_) => stations_list_std[0].clone(),
        };
        let player = Player::new(playing_station.stream_320.clone());
        App {
            stations_list_std,
            stations_list_fav,
            player,
            active_context: Context::Stations,
            filtering: false,
            music_title: String::from_str("Press n to show current song"),
            selected: Some(0),
            playing_station,
            active_menu_item,
            filter: String::new(),
            last_selected: None,
        }
    }

    /// The list on screen.
    pub fn get_stations_list(&self) -> (r: Vec<Station>)
        ensures
            r@ == visible(self@),
    {
        match self.active_menu_item {
            MenuItem::Favorite(_) => self.get_stations_list_fav(),
            MenuItem::Standard(_) => self.get_stations_list_std(),
        }
    }

    /// The standard list, filtered by the search text.
    pub fn get_stations_list_std(&self) -> (r: Vec<Station>)
        ensures
            r@ == filtered(self@.std, self@.filter),
    {
        filter_stations(&self.stations_list_std, self.filter.as_str())
    }

    /// The favorites, filtered by the search text.
    pub fn get_stations_list_fav(&self) -> (r: Vec<Station>)
        ensures
            r@ == filtered(self@.fav, self@.filter),
    {
        filter_stations(&self.stations_list_fav, self.filter.as_str())
    }

    /// The current station and whether it should be audible.
    pub fn get_status(&self) -> (r: Status)
        ensures
            r.station == self@.playing,
            r.playing == self@.player.playing,
    {
        Status { station: self.playing_station.clone(), playing: self.player.is_playing() }
    }

    /// The selected station, if the selection lies within the list on screen.
    pub fn get_selected_station(&self) -> (r: Option<Station>)
        ensures
            r == selected_station(self@),
    {
        match self.selected {
            Some(i) => {
                let list = self.get_stations_list();
                if i < list.len() {
                    Some(list[i].clone())
                } else {
                    None
                }
            },
            None => None,
        }
    }

    /// The screen shown.
    pub fn context(&self) -> (r: Context)
        ensures
            r == self@.context,
    {
        self.active_context
    }

    /// Whether the current station should be audible.
    pub fn is_playing(&self) -> (r: bool)
        ensures
            r == self@.player.playing,
    {
        self.player.is_playing()
    }

    /// Takes out, in the order sent, the commands for the engine.
    pub fn take_commands(&mut self) -> (r: Vec<PlayerCommand>)
        ensures
            r@.map_values(|c: PlayerCommand| c@) == old(self)@.player.sent,
            final(self)@ == (AppView {
                player: PlayerView { sent: Seq::empty(), ..old(self)@.player },
                ..old(self)@
            }),
    {
        self.player.take_commands()
    }

    /// Moves the selection one down, from the last station to the first.
    pub fn next(&mut self)
        ensures
            final(self)@ == next_step(old(self)@),
    {
        if let Some(selected) = self.selected {
            let amount_stations = self.get_stations_list().len();
            if amount_stations > 0 {
                if selected >= amount_stations - 1 {
                    self.selected = Some(0);
                } else {
                    self.selected = Some(selected + 1);
                }
            }
        }
    }

    /// Moves the selection one up, from the first station to the last.
    pub fn previous(&mut self)
        ensures
            final(self)@ == prev_step(old(self)@),
    {
        if let Some(selected) = self.selected {
            let amount_stations = self.get_stations_list().len();
            if amount_stations > 0 {
                if selected > 0 {
                    self.selected = Some(selected - 1);
                } else {
                    self.selected = Some(amount_stations - 1);
                }
            }
        }
    }

    /// The active list, unfiltered.
    fn active_list_ref(&self) -> (r: &Vec<Station>)
        ensures
            r@ == active_list(self@),
    {
        match self.active_menu_item {
            MenuItem::Favorite(_) => &self.stations_list_fav,
            MenuItem::Standard(_) => &self.stations_list_std,
        }
    }

    /// Plays a station: another station than the current one replaces it, the
    /// current one is paused or resumed.
    fn play_station(&mut self, station: Station)
        ensures
            final(self)@ == play_station_step(old(self)@, station),
    {
        if station.id != self.playing_station.id {
            self.player.force_play(station.stream_320.as_str());
            self.playing_station = station;
        } else {
            self.player.toggle_play();
        }
    }

    /// Plays the selected station, if any.
    pub fn play_selected(&mut self)
        ensures
            final(self)@ == play_selected_step(old(self)@),
    {
        if let Some(station) = self.get_selected_station() {
            self.play_station(station);
        }
    }

    /// Selects the station at `k` of the list on screen and plays it.
    pub fn play_at(&mut self, k: usize)
        ensures
            final(self)@ == play_at_step(old(self)@, k),
    {
        self.selected = Some(k);
        self.play_selected();
    }

    /// Selects a station of the list on screen drawn at random, and plays it.
    pub fn play_random(&mut self)
        ensures
            visible(old(self)@).len() == 0 ==> final(self)@ == old(self)@,
            visible(old(self)@).len() > 0 ==> exists|k: usize|
                k < visible(old(self)@).len() && final(self)@ == play_at_step(old(self)@, k),
    {
        let n = self.get_stations_list().len();
        if n > 0 {
            let k = rand::random::<usize>() % n;
            self.play_at(k);
        }
    }

    /// A remote `Next` or `Previous`, once the selection moved.
    fn remote_play(&mut self)
        ensures
            final(self)@ == remote_play_step(old(self)@),
    {
        if let Some(station) = self.get_selected_station() {
            self.player.force_play(station.stream_320.as_str());
            self.playing_station = station;
        }
    }

    /// Asks the engine for the title it plays, when something plays.
    pub fn update_now_playing(&mut self)
        ensures
            final(self)@ == now_playing_step(old(self)@),
    {
        if self.player.is_playing() {
            self.player.now_playing();
        }
    }

    /// The engine's answer to a title request: a title replaces the song line.
    pub fn set_now_playing(&mut self, title: Option<String>)
        ensures
            title is Some ==> final(self)@ == (AppView {
                music_title: title->Some_0@,
                ..old(self)@
            }),
            title is None ==> final(self)@ == old(self)@,
    {
        if let Some(t) = title {
            self.music_title = t;
        }
    }

    /// Shows a song line.
    pub fn set_music_title(&mut self, title: String)
        ensures
            final(self)@ == (AppView { music_title: title@, ..old(self)@ }),
    {
        self.music_title = title;
    }

    /// Enters search mode, from the station screen, keeping the selected station's id.
    pub fn begin_filter(&mut self)
        ensures
            final(self)@ == begin_filter_step(old(self)@),
    {
        if self.active_context == Context::Stations {
            self.filtering = true;
            self.toggle_context();
            self.last_selected = match self.get_selected_station() {
                Some(st) => Some(st.id),
                None => None,
            };
        }
    }

    /// The search text, as the text input holds it now.
    pub fn set_filter(&mut self, text: String)
        ensures
            final(self)@ == (AppView { filter: text@, ..old(self)@ }),
    {
        self.filter = text;
    }

    /// Leaves search mode with `Esc`: the search text is cleared and the station
    /// selected on entry is selected again, by its id.
    pub fn end_filter(&mut self)
        ensures
            final(self)@ == end_filter_step(old(self)@),
    {
        self.filter = String::new();
        if let Some(last_id) = self.last_selected {
            let list = self.active_list_ref();
            let mut pos: usize = 0;
            let mut i: usize = 0;
            let mut found = false;
            while i < list.len() && !found
                invariant
                    list@ == active_list(old(self)@),
                    i <= list@.len(),
                    found ==> first_with_id(list@, last_id, pos as int),
                    !found ==> pos == 0 && forall|j: int| 0 <= j < i ==> list@[j].id != last_id,
                decreases list@.len() - i + if found {
                    0int
                } else {
                    1int
                },
            {
                if list[i].id == last_id {
                    pos = i;
                    found = true;
                } else {
                    i += 1;
                }
            }
            proof {
                let s = active_list(old(self)@);
                if found {
                    let c = choose|c: int| first_with_id(s, last_id, c);
                    assert(c == pos as int) by {
                        if c < pos {
                        } else if c > pos {
                        }
                    }
                } else {
                    assert(!has_id(s, last_id));
                }
            }
            self.selected = Some(pos);
        }
        self.toggle_context();
        self.filtering = false;
    }

    /// Takes the favorites once the store holds them.
    pub fn set_favorites(&mut self, favorites: Vec<Station>)
        ensures
            final(self)@ == set_favorites_step(old(self)@, favorites@),
    {
        let empty = favorites.len() == 0;
        self.stations_list_fav = favorites;
        if empty {
            self.active_menu_item = MenuItem::Standard(true);
        } else if let Some(selected) = self.selected {
            let n = self.get_stations_list().len();
            if selected >= n && n > 0 {
                self.selected = Some(n - 1);
            }
        }
    }

    /// A key. `r`, outside search mode, plays a station of the list on screen
    /// drawn at random; every other key is a step of `key_step`.
    fn on_key(&mut self, key: Key) -> (r: Vec<Action>)
        ensures
            !old(self)@.filtering && key == Key::Char('r') ==> r@.len() == 0 && (visible(
                old(self)@,
            ).len() == 0 ==> final(self)@ == old(self)@) && (visible(old(self)@).len() > 0
                ==> exists|k: usize|
                k < visible(old(self)@).len() && final(self)@ == play_at_step(old(self)@, k)),
            !(!old(self)@.filtering && key == Key::Char('r')) ==> (final(self)@, actions_view(r@))
                == key_step(old(self)@, key),
    {
        let mut r: Vec<Action> = Vec::new();
        if self.filtering {
            match key {
                Key::Esc => {
                    self.end_filter();
                    r.push(Action::ClearFilter);
                },
                Key::Enter => {
                    self.filtering = false;
                },
                _ => {
                    r.push(Action::EditFilter);
                },
            }
            assert(actions_view(r@) =~= key_step(old(self)@, key).1);
            return r;
        }
        match key {
            Key::Char('q') => {
                r.push(Action::Quit);
            },
            Key::Char('h') | Key::Char('?') => {
                self.active_context = Context::Help;
            },
            Key::Char('f') => {
                if let Some(selected_station) = self.get_selected_station() {
                    let favorites = toggle_to_favorite(&self.stations_list_fav, &selected_station);
                    r.push(Action::SaveFavorites(favorites));
                }
            },
            Key::Char('n') => {
                self.update_now_playing();
            },
            Key::Char('N') => {
                if let Some(selected_station) = self.get_selected_station() {
                    r.push(Action::FetchNowPlaying(selected_station.id));
                }
            },
            Key::Char('r') => {
                self.play_random();
            },
            Key::Char(' ') => {
                self.player.toggle_play();
            },
            Key::Char('/') => {
                self.begin_filter();
            },
            Key::Enter => {
                self.play_selected();
            },
            Key::Down => {
                match self.active_menu_item {
                    MenuItem::Favorite(true) | MenuItem::Standard(true) => {
                        self.next();
                    },
                    _ => {
                        if self.get_stations_list_std().len() > 0 {
                            self.active_menu_item = MenuItem::Standard(true);
                            self.selected = Some(0);
                        }
                    },
                }
            },
            Key::Up => {
                match self.active_menu_item {
                    MenuItem::Favorite(true) | MenuItem::Standard(true) => {
                        self.previous();
                    },
                    _ => {
                        if self.get_stations_list_fav().len() > 0 {
                            self.active_menu_item = MenuItem::Favorite(true);
                            self.selected = Some(0);
                        }
                    },
                }
            },
            Key::Esc => {
                match self.active_context {
                    Context::Help => {
                        self.active_context = Context::Stations;
                    },
                    Context::Stations => {
                        self.toggle_context();
                    },
                }
            },
            _ => {},
        }
        assert(key != Key::Char('r') ==> actions_view(r@) =~= key_step(old(self)@, key).1);
        r
    }

    /// A request of the remote-control bridge.
    fn on_remote(&mut self, c: Command) -> (r: Vec<Action>)
        ensures
            (final(self)@, actions_view(r@)) == remote_step(old(self)@, c),
    {
        let mut r: Vec<Action> = Vec::new();
        match c {
            Command::PlayPause => self.player.toggle_play(),
            Command::Stop => self.player.stop(),
            Command::Play => self.player.resume(),
            Command::Next => {
                self.next();
                self.remote_play();
            },
            Command::Previous => {
                self.previous();
                self.remote_play();
            },
            Command::NowPlaying => {
                r.push(
                    Action::Reply(
                        Response::NowPlaying { title: self.music_title.clone(), artist: String::new() },
                    ),
                );
            },
            Command::Status => {
                r.push(Action::Reply(Response::Status(self.get_status().mpris_playing())));
            },
        }
        assert(actions_view(r@) =~= remote_step(old(self)@, c).1);
        r
    }

    /// One event of the control loop: at most one change of state, and the work it
    /// hands back. Commands for the engine wait in the player (`take_commands`).
    pub fn handle(&mut self, e: Event) -> (r: Vec<Action>)
        ensures
            is_random_key(old(self)@, e) ==> r@.len() == 0 && (visible(old(self)@).len() == 0
                ==> final(self)@ == old(self)@) && (visible(old(self)@).len() > 0 ==> exists|
                k: usize,
            |
                k < visible(old(self)@).len() && final(self)@ == play_at_step(old(self)@, k)),
            !is_random_key(old(self)@, e) ==> (final(self)@, actions_view(r@)) == event_step(
                old(self)@,
                e,
            ),
    {
        match e {
            Event::Input(key) => self.on_key(key),
            Event::Tick => {
                let r: Vec<Action> = Vec::new();
                assert(actions_view(r@) =~= Seq::empty());
                r
            },
            Event::NowPlaying => {
                self.update_now_playing();
                let r: Vec<Action> = Vec::new();
                assert(actions_view(r@) =~= Seq::empty());
                r
            },
            Event::Mpris(c) => self.on_remote(c),
        }
    }

    /// Flips the arrow mode of the active list.
    pub fn toggle_context(&mut self)
        ensures
            final(self)@ == (AppView { menu: flip(old(self)@.menu), ..old(self)@ }),
    {
        self.active_menu_item = match self.active_menu_item {
            MenuItem::Favorite(b) => MenuItem::Favorite(!b),
            MenuItem::Standard(b) => MenuItem::Standard(!b),
        };
    }
}

} // verus!
