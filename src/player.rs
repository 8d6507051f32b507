//! Playback: the control loop's playback intent (`Player`), which records the
//! commands it sends to the engine, and the engine's own state machine
//! (`Engine`), which turns those commands and the pipeline's progress into work
//! for the fetch, decode and output stages.
use vstd::prelude::*;

verus! {

/// Milliseconds between two polls of the engine's command slot.
pub const POLL_MS: u64 = 200;

/// Milliseconds between two attempts to open a decoder on the spool.
pub const RETRY_MS: u64 = 500;

/// What the engine answers when it has no title to give.
pub open spec fn placeholder() -> Seq<char> {
    "Loading..."@
}

/// A command of the control loop to the engine.
#[derive(Debug)]
pub enum PlayerCommand {
    Play(String),
    Stop,
    NowPlaying,
}

/// A command as a mathematical value.
pub enum CommandView {
    Play(Seq<char>),
    Stop,
    NowPlaying,
}

impl View for PlayerCommand {
    type V = CommandView;

    open spec fn view(&self) -> CommandView {
        match self {
            PlayerCommand::Play(url) => CommandView::Play(url@),
            PlayerCommand::Stop => CommandView::Stop,
            PlayerCommand::NowPlaying => CommandView::NowPlaying,
        }
    }
}

/// The playback intent as seen by the control loop: whether the current station
/// should be audible, its stream url, and the commands sent to the engine and not
/// yet taken out for delivery.
pub struct PlayerView {
    pub playing: bool,
    pub url: Seq<char>,
    pub sent: Seq<CommandView>,
}

/// The playback intent of the control loop, which is the engine's only client.
pub struct Player {
    playing: bool,
    url: String,
    outbox: Vec<PlayerCommand>,
}

impl View for Player {
    type V = PlayerView;

    closed spec fn view(&self) -> PlayerView {
        PlayerView {
            playing: self.playing,
            url: self.url@,
            sent: self.outbox@.map_values(|c: PlayerCommand| c@),
        }
    }
}

/// `play`: a stopped player starts `url`; a playing one is left as it is.
pub open spec fn play_step(v: PlayerView, url: Seq<char>) -> PlayerView {
    if v.playing {
        v
    } else {
        PlayerView { playing: true, url, sent: v.sent.push(CommandView::Play(url)) }
    }
}

/// `stop`: the engine is told to stop, and the intent is silent.
pub open spec fn stop_step(v: PlayerView) -> PlayerView {
    PlayerView { playing: false, url: v.url, sent: v.sent.push(CommandView::Stop) }
}

/// `toggle_play`: stop when playing, else play the current url again.
pub open spec fn toggle_step(v: PlayerView) -> PlayerView {
    if v.playing {
        stop_step(v)
    } else {
        play_step(v, v.url)
    }
}

/// `force_play`: play `url`, stopping first whatever plays.
pub open spec fn force_play_step(v: PlayerView, url: Seq<char>) -> PlayerView {
    if v.playing {
        play_step(stop_step(v), url)
    } else {
        play_step(v, url)
    }
}

/// The number of `Play` commands in a sequence of commands.
pub open spec fn count_plays(s: Seq<CommandView>) -> nat
    decreases s.len(),
{
    if s.len() == 0 {
        0
    } else {
        count_plays(s.drop_last()) + if s.last() is Play {
            1nat
        } else {
            0nat
        }
    }
}

impl Player {
    /// A silent player whose current url is `url`.
    pub fn new(url: String) -> (r: Player)
        ensures
            r@ == (PlayerView { playing: false, url: url@, sent: Seq::empty() }),
    {
        let r = Player { playing: false, url, outbox: Vec::new() };
        assert(r@.sent =~= Seq::empty());
        r
    }

    fn send(&mut self, c: PlayerCommand)
        ensures
            final(self)@ == (PlayerView { sent: old(self)@.sent.push(c@), ..old(self)@ }),
    {
        self.outbox.push(c);
        assert(self.outbox@.map_values(|c: PlayerCommand| c@) =~= old(self)@.sent.push(c@));
    }

    /// Plays again the current url, unless it plays already.
    pub fn resume(&mut self)
        ensures
            final(self)@ == play_step(old(self)@, old(self)@.url),
    {
        if !self.is_playing() {
            let url = self.url.clone();
            self.play(url.as_str());
        }
    }

    /// Stops when playing, plays the current url again when stopped.
    pub fn toggle_play(&mut self)
        ensures
            final(self)@ == toggle_step(old(self)@),
    {
        if self.is_playing() {
            self.stop();
        } else {
            let url = self.url.clone();
            self.play(url.as_str());
        }
    }

    /// Tells the engine to stop.
    pub fn stop(&mut self)
        ensures
            final(self)@ == stop_step(old(self)@),
    {
        self.send(PlayerCommand::Stop);
        self.playing = false;
    }

    /// Whether the current station should be audible.
    pub fn is_playing(&self) -> (r: bool)
        ensures
            r == self@.playing,
    {
        self.playing
    }

    /// The url of the current station.
    pub fn url(&self) -> (r: &String)
        ensures
            r@ == self@.url,
    {
        &self.url
    }

    /// Plays `url`, stopping first whatever plays. It always starts `url`.
    pub fn force_play(&mut self, url: &str) -> (r: bool)
        ensures
            final(self)@ == force_play_step(old(self)@, url@),
            r,
    {
        if self.is_playing() {
            self.stop();
            self.play(url)
        } else {
            self.play(url)
        }
    }

    /// Plays `url` if nothing plays, and says whether it did.
    pub fn play(&mut self, url: &str) -> (r: bool)
        ensures
            final(self)@ == play_step(old(self)@, url@),
            r == !old(self)@.playing,
    {
        if !self.playing {
            self.url = url.to_owned();
            self.send(PlayerCommand::Play(url.to_owned()));
            self.playing = true;
            return true;
        }
        false
    }

    /// Asks the engine for the title it is playing.
    pub fn now_playing(&mut self)
        ensures
            final(self)@ == (PlayerView {
                sent: old(self)@.sent.push(CommandView::NowPlaying),
                ..old(self)@
            }),
    {
        self.send(PlayerCommand::NowPlaying);
    }

    /// Takes out, in the order sent, the commands that wait for delivery to the engine.
    pub fn take_commands(&mut self) -> (r: Vec<PlayerCommand>)
        ensures
            r@.map_values(|c: PlayerCommand| c@) == old(self)@.sent,
            final(self)@ == (PlayerView { sent: Seq::empty(), ..old(self)@ }),
    {
        let mut r: Vec<PlayerCommand> = Vec::new();
        std::mem::swap(&mut r, &mut self.outbox);
        assert(self.outbox@.map_values(|c: PlayerCommand| c@) =~= Seq::<CommandView>::empty());
        r
    }
}

/// The fine-grained state of the engine, which only the engine sees.
#[derive(Debug, Clone, Copy, PartialEq, Eq, Structural)]
pub enum EngineState {
    Idle,
    Fetching,
    Decoding,
    Playing,
    Stopping,
}

/// Work that the engine hands to its pipeline stages. Each piece of work names
/// the pipeline it is for: a pipeline is one `Play`, and each has an id of its own,
/// so that the spool of an old pipeline is never that of a new one.
#[derive(Debug)]
pub enum EngineAction {
    /// Open a network read of the url into the pipeline's spool.
    Fetch { pipeline: u64, url: String },
    /// After the warm-up, open a decoder on the pipeline's spool.
    OpenDecoder(u64),
    /// The decoder found no framing yet: open it again after the retry interval.
    RetryDecoder(u64),
    /// Start audible output of the pipeline's decoder.
    Output(u64),
    /// Clear the pipeline's liveness flag: its fetch and output loops end.
    Halt(u64),
    /// Read the decoder's media title, and answer with `Engine::now_playing`.
    ReadTitle,
}

/// A piece of engine work as a mathematical value.
pub enum ActionView {
    Fetch(u64, Seq<char>),
    OpenDecoder(u64),
    RetryDecoder(u64),
    Output(u64),
    Halt(u64),
    ReadTitle,
}

impl View for EngineAction {
    type V = ActionView;

    open spec fn view(&self) -> ActionView {
        match self {
            EngineAction::Fetch { pipeline, url } => ActionView::Fetch(*pipeline, url@),
            EngineAction::OpenDecoder(p) => ActionView::OpenDecoder(*p),
            EngineAction::RetryDecoder(p) => ActionView::RetryDecoder(*p),
            EngineAction::Output(p) => ActionView::Output(*p),
            EngineAction::Halt(p) => ActionView::Halt(*p),
            EngineAction::ReadTitle => ActionView::ReadTitle,
        }
    }
}

/// The engine: its state, and the id of its newest pipeline.
pub struct Engine {
    state: EngineState,
    pipeline: u64,
}

/// The engine as a mathematical value.
pub struct EngineView {
    pub state: EngineState,
    pub pipeline: u64,
}

impl View for Engine {
    type V = EngineView;

    closed spec fn view(&self) -> EngineView {
        EngineView { state: self.state, pipeline: self.pipeline }
    }
}

/// A pipeline whose loops still run and that nobody has told to stop.
pub open spec fn is_live(s: EngineState) -> bool {
    s is Fetching || s is Decoding || s is Playing
}

/// The id that follows `p`.
pub open spec fn next_pipeline(p: u64) -> u64 {
    if p == u64::MAX {
        0
    } else {
        (p + 1) as u64
    }
}

/// The views of a sequence of engine actions.
pub open spec fn actions_view(r: Seq<EngineAction>) -> Seq<ActionView> {
    r.map_values(|a: EngineAction| a@)
}

/// What a command does to the engine, and the work it hands out.
pub open spec fn command_step(e: EngineView, c: CommandView) -> (EngineView, Seq<ActionView>) {
    match c {
        CommandView::Play(url) => {
            let p = next_pipeline(e.pipeline);
            let halt = if is_live(e.state) {
                seq![ActionView::Halt(e.pipeline)]
            } else {
                Seq::empty()
            };
            (EngineView { state: EngineState::Fetching, pipeline: p }, halt.push(ActionView::Fetch(p, url)))
        },
        CommandView::Stop => match e.state {
            EngineState::Fetching | EngineState::Decoding => (
                EngineView { state: EngineState::Idle, ..e },
                seq![ActionView::Halt(e.pipeline)],
            ),
            EngineState::Playing => (
                EngineView { state: EngineState::Stopping, ..e },
                seq![ActionView::Halt(e.pipeline)],
            ),
            _ => (e, Seq::empty()),
        },
        CommandView::NowPlaying => (e, seq![ActionView::ReadTitle]),
    }
}

impl Engine {
    /// An idle engine.
    pub fn new() -> (r: Engine)
        ensures
            r@ == (EngineView { state: EngineState::Idle, pipeline: 0 }),
    {
        Engine { state: EngineState::Idle, pipeline: 0 }
    }

    /// The engine's state.
    pub fn state(&self) -> (r: EngineState)
        ensures
            r == self@.state,
    {
        self.state
    }

    /// The id of the newest pipeline.
    pub fn pipeline(&self) -> (r: u64)
        ensures
            r == self@.pipeline,
    {
        self.pipeline
    }

    /// Whether a pipeline runs that nobody has told to stop.
    pub fn is_playing(&self) -> (r: bool)
        ensures
            r == is_live(self@.state),
    {
        match self.state {
            EngineState::Fetching | EngineState::Decoding | EngineState::Playing => true,
            _ => false,
        }
    }

    /// Takes one command from the control loop. `Play` halts the live pipeline, if
    /// any, before it starts a new one; `Stop` halts it and does not wait for it to end.
    pub fn command(&mut self, c: PlayerCommand) -> (r: Vec<EngineAction>)
        ensures
            (final(self)@, actions_view(r@)) == command_step(old(self)@, c@),
    {
        let mut r: Vec<EngineAction> = Vec::new();
        match c {
            PlayerCommand::Play(url) => {
                if self.is_playing() {
                    r.push(EngineAction::Halt(self.pipeline));
                }
                self.pipeline = if self.pipeline == u64::MAX {
                    0
                } else {
                    self.pipeline + 1
                };
                self.state = EngineState::Fetching;
                r.push(EngineAction::Fetch { pipeline: self.pipeline, url });
            },
            PlayerCommand::Stop => {
                match self.state {
                    EngineState::Fetching | EngineState::Decoding => {
                        r.push(EngineAction::Halt(self.pipeline));
                        self.state = EngineState::Idle;
                    },
                    EngineState::Playing => {
                        r.push(EngineAction::Halt(self.pipeline));
                        self.state = EngineState::Stopping;
                    },
                    _ => {},
                }
            },
            PlayerCommand::NowPlaying => {
                r.push(EngineAction::ReadTitle);
            },
        }
        assert(actions_view(r@) =~= command_step(old(self)@, c@).1);
        r
    }

    /// The warm-up of pipeline `p` is over: a decoder is opened on its spool, if
    /// `p` is still the pipeline that fetches.
    pub fn on_warmed_up(&mut self, p: u64) -> (r: Vec<EngineAction>)
        ensures
            old(self)@.state is Fetching && p == old(self)@.pipeline ==> final(self)@ == (
            EngineView { state: EngineState::Decoding, ..old(self)@ }) && actions_view(r@)
                == seq![ActionView::OpenDecoder(p)],
            !(old(self)@.state is Fetching && p == old(self)@.pipeline) ==> final(self)@ == old(
                self,
            )@ && r@.len() == 0,
    {
        let mut r: Vec<EngineAction> = Vec::new();
        if self.state == EngineState::Fetching && p == self.pipeline {
            self.state = EngineState::Decoding;
            r.push(EngineAction::OpenDecoder(p));
            assert(actions_view(r@) =~= seq![ActionView::OpenDecoder(p)]);
        }
        r
    }

    /// A decoder was tried on the spool of pipeline `p`: output starts when it
    /// found valid framing, else it is tried again later. Nothing happens unless
    /// `p` is the pipeline that decodes.
    pub fn on_decoder(&mut self, p: u64, ready: bool) -> (r: Vec<EngineAction>)
        ensures
            old(self)@.state is Decoding && p == old(self)@.pipeline ==> if ready {
                final(self)@ == (EngineView { state: EngineState::Playing, ..old(self)@ })
                    && actions_view(r@) == seq![ActionView::Output(p)]
            } else {
                final(self)@ == old(self)@ && actions_view(r@) == seq![ActionView::RetryDecoder(p)]
            },
            !(old(self)@.state is Decoding && p == old(self)@.pipeline) ==> final(self)@ == old(
                self,
            )@ && r@.len() == 0,
    {
        let mut r: Vec<EngineAction> = Vec::new();
        if self.state == EngineState::Decoding && p == self.pipeline {
            if ready {
                self.state = EngineState::Playing;
                r.push(EngineAction::Output(p));
                assert(actions_view(r@) =~= seq![ActionView::Output(p)]);
            } else {
                r.push(EngineAction::RetryDecoder(p));
                assert(actions_view(r@) =~= seq![ActionView::RetryDecoder(p)]);
            }
        }
        r
    }

    /// The loops of pipeline `p` have ended: a stopping engine is idle again.
    pub fn on_halted(&mut self, p: u64)
        ensures
            old(self)@.state is Stopping && p == old(self)@.pipeline ==> final(self)@ == (
            EngineView { state: EngineState::Idle, ..old(self)@ }),
            !(old(self)@.state is Stopping && p == old(self)@.pipeline) ==> final(self)@ == old(
                self,
            )@,
    {
        if self.state == EngineState::Stopping && p == self.pipeline {
            self.state = EngineState::Idle;
        }
    }

    /// The answer to `NowPlaying`, from the decoder's media title if it has one.
    /// It never fails and never waits: with no title, or with no pipeline that
    /// plays, the answer is the placeholder.
    pub fn now_playing(&self, title: Option<String>) -> (r: String)
        ensures
            self@.state is Playing && title is Some ==> r@ == title->Some_0@,
            !(self@.state is Playing && title is Some) ==> r@ == placeholder(),
    {
        match title {
            Some(t) => {
                if self.state == EngineState::Playing {
                    t
                } else {
                    String::from_str("Loading...")
                }
            },
            None => String::from_str("Loading..."),
        }
    }
}

/// Sending `Play` for a url twice in a row sends one `Play` and leaves the
/// player as the first did: a repeated play never starts a second pipeline.
pub proof fn lemma_repeated_play_is_idle(v: PlayerView, url: Seq<char>)
    ensures
        play_step(play_step(v, url), url) == play_step(v, url),
        count_plays(play_step(play_step(v, url), url).sent) <= count_plays(v.sent) + 1,
{
    if !v.playing {
        let s = v.sent.push(CommandView::Play(url));
        assert(s.drop_last() =~= v.sent);
    }
}

/// Two `Play` commands in a row: the second halts the pipeline that the first
/// started before it starts its own, so that no two pipelines run at once.
pub proof fn lemma_engine_play_twice(e: EngineView, url: Seq<char>)
    ensures
        ({
            let (e1, a1) = command_step(e, CommandView::Play(url));
            let (e2, a2) = command_step(e1, CommandView::Play(url));
            &&& a2 == seq![ActionView::Halt(e1.pipeline), ActionView::Fetch(e2.pipeline, url)]
            &&& e2.state is Fetching
            &&& e2.pipeline != e1.pipeline
        }),
{
    let (e1, a1) = command_step(e, CommandView::Play(url));
    assert(is_live(e1.state));
    let (e2, a2) = command_step(e1, CommandView::Play(url));
    assert(a2 =~= seq![ActionView::Halt(e1.pipeline), ActionView::Fetch(e2.pipeline, url)]);
}

} // verus!
