//! The playback session: one player process at a time, replaced when a change
//! cannot be made in place.
//!
//! The session is a state machine. The driver reports an [`Event`], the
//! session moves to its next state and answers with the [`Action`] that the
//! driver is to carry out. Every action but [`Action::Idle`],
//! [`Action::Render`] and [`Action::Exit`] is answered by exactly one event:
//!
//! | action | answered by |
//! |---|---|
//! | `Launch` | `Spawned` or `SpawnFailed` |
//! | `Terminate` | `Terminated` |
//! | `Send`, `Signal`, `SystemVolume` | `ControlDone` |

use vstd::prelude::*;
use crate::backend::PlayerType;
use crate::control::{
    clamped, ControlAction, ControlPlan, VolumeControl, VolumeState, MAX_VOLUME, VOLUME_STEP,
};
use crate::keys::{bound_intent, intent_for_key, Intent, Key};
use crate::launch::{build_player_args, launch_args, launch_channel, launch_program};
use crate::station::{moved, step_index, Direction, Station};
use crate::ui::UiState;

verus! {

/// How long a player that was asked to end is waited for, in milliseconds.
/// After that the session goes on as if it had ended.
pub const TERMINATION_BOUND_MS: u64 = 500;

/// The state of a session as seen from outside.
#[derive(Clone, Copy, Debug, PartialEq, Eq, Structural)]
pub enum Phase {
    /// The session is over.
    Stopped,
    /// The first player has been asked for.
    Starting,
    /// A player is current.
    Running,
    /// The old player was asked to end and its replacement is on the way.
    Replacing,
    /// The player was asked to end for good.
    Stopping,
}

/// Where a session stands, and with it the event it waits for.
#[derive(Clone, Copy, Debug, PartialEq, Eq, Structural)]
pub enum Stage {
    /// The first launch was asked for; waits for its result.
    Starting,
    /// A player is current and nothing is in flight.
    Running,
    /// A change was sent to the current player; waits to learn whether it arrived.
    Controlling,
    /// Mute is being put back on a fresh player; waits for the attempt to end.
    Remuting,
    /// The current player was asked to end so that another can take its
    /// place; waits for the bounded wait to end.
    Terminating,
    /// The replacement was asked for; waits for its result.
    Launching,
    /// The current player was asked to end for good; waits for the bounded
    /// wait to end.
    Stopping,
    /// The session is over.
    Stopped,
}

impl Stage {
    /// The phase a stage belongs to.
    pub open spec fn phase(self) -> Phase {
        match self {
            Stage::Starting => Phase::Starting,
            Stage::Running | Stage::Controlling | Stage::Remuting => Phase::Running,
            Stage::Terminating | Stage::Launching => Phase::Replacing,
            Stage::Stopping => Phase::Stopping,
            Stage::Stopped => Phase::Stopped,
        }
    }

    /// Whether the session holds a player process at this stage: from a launch
    /// that succeeded until the wait for that player's end is over.
    pub open spec fn holds_player(self) -> bool {
        match self {
            Stage::Running | Stage::Controlling | Stage::Remuting | Stage::Terminating
            | Stage::Stopping => true,
            Stage::Starting | Stage::Launching | Stage::Stopped => false,
        }
    }
}

/// How the watched player process ended.
#[derive(Clone, Copy, Debug, PartialEq, Eq, Structural)]
pub enum ExitOutcome {
    /// It exited and reported success.
    Success,
    /// It exited and reported failure.
    Failure,
    /// Watching it failed.
    WaitError,
}

/// Why a session ended.
#[derive(Clone, Copy, Debug, PartialEq, Eq, Structural)]
pub enum ExitReason {
    /// The stream ended.
    Finished,
    /// The player gave up on the stream.
    PlayerFailed,
    /// The player could not be watched.
    WaitError,
    /// The user quit.
    Quit,
    /// A player could not be started.
    SpawnFailed,
}

impl ExitReason {
    /// The reason that an ended player gives for the session's end.
    pub open spec fn of_outcome(outcome: ExitOutcome) -> ExitReason {
        match outcome {
            ExitOutcome::Success => ExitReason::Finished,
            ExitOutcome::Failure => ExitReason::PlayerFailed,
            ExitOutcome::WaitError => ExitReason::WaitError,
        }
    }

    /// The status the program exits with: 0 after a quit or after the stream
    /// ended, 1 after a failure to start or to watch a player.
    pub open spec fn status(self) -> int {
        match self {
            ExitReason::Finished | ExitReason::PlayerFailed | ExitReason::Quit => 0,
            ExitReason::WaitError | ExitReason::SpawnFailed => 1,
        }
    }

    /// The status the program exits with.
    pub fn exit_code(self) -> (r: i32)
        ensures
            r == self.status(),
    {
        match self {
            ExitReason::Finished | ExitReason::PlayerFailed | ExitReason::Quit => 0,
            ExitReason::WaitError | ExitReason::SpawnFailed => 1,
        }
    }

    /// The line that tells the user why the session ended.
    pub fn message(self) -> (r: &'static str)
        ensures
            r@ == match self {
                ExitReason::Finished => "Playback finished"@,
                ExitReason::PlayerFailed => "Playback stopped"@,
                ExitReason::WaitError => "Error: the player could not be watched"@,
                ExitReason::Quit => "Stopping..."@,
                ExitReason::SpawnFailed => "Error: the player could not be started"@,
            },
    {
        match self {
            ExitReason::Finished => "Playback finished",
            ExitReason::PlayerFailed => "Playback stopped",
            ExitReason::WaitError => "Error: the player could not be watched",
            ExitReason::Quit => "Stopping...",
            ExitReason::SpawnFailed => "Error: the player could not be started",
        }
    }
}

/// What the driver reports to the session.
#[derive(Clone, Copy, Debug, PartialEq, Eq, Structural)]
pub enum Event {
    /// A key was pressed; `ctrl` says whether control was held.
    Key { key: Key, ctrl: bool },
    /// The clock advanced: `elapsed_secs` whole seconds since the start.
    Tick { elapsed_secs: u64 },
    /// The program was interrupted from outside.
    Interrupt,
    /// The current player ended by itself.
    ProcessExited { outcome: ExitOutcome },
    /// An in-place change was attempted; `delivered` says whether it arrived.
    ControlDone { delivered: bool },
    /// The wait for a player that was asked to end is over; `exited` says
    /// whether it ended within the bound.
    Terminated { exited: bool },
    /// The player that was asked for is running.
    Spawned,
    /// The player that was asked for could not be started.
    SpawnFailed,
}

/// What the session asks the driver to do, as mathematical values. The
/// variants are those of [`Action`].
pub enum ActionView {
    Idle,
    Render,
    Launch { program: Seq<char>, args: Seq<Seq<char>> },
    Terminate { wait_ms: nat },
    Send { channel: Seq<char>, command: Seq<char> },
    Signal { suspend: bool },
    SystemVolume { level: nat },
    Exit { reason: ExitReason },
}

impl ActionView {
    /// Whether the action is addressed to the current player process.
    pub open spec fn addresses_player(self) -> bool {
        self is Terminate || self is Send || self is Signal
    }

    /// The event with which the driver answers the action, given whether
    /// carrying it out went well; none for an action that calls for no answer.
    pub open spec fn answer(self, went_well: bool) -> Option<Event> {
        match self {
            ActionView::Launch { .. } => Some(
                if went_well {
                    Event::Spawned
                } else {
                    Event::SpawnFailed
                },
            ),
            ActionView::Terminate { .. } => Some(Event::Terminated { exited: went_well }),
            ActionView::Send { .. } | ActionView::Signal { .. } | ActionView::SystemVolume {
                ..
            } => Some(Event::ControlDone { delivered: went_well }),
            ActionView::Idle | ActionView::Render | ActionView::Exit { .. } => None,
        }
    }

    /// The action a plan begins with: the change itself where the plan leaves
    /// the player in place, the request to end the player where it does not.
    pub open spec fn of_plan(plan: ControlPlan) -> ActionView {
        match plan {
            ControlPlan::Send { channel, command } => ActionView::Send { channel, command },
            ControlPlan::Signal { suspend } => ActionView::Signal { suspend },
            ControlPlan::SystemVolume { level } => ActionView::SystemVolume { level },
            ControlPlan::Respawn => ActionView::Terminate { wait_ms: TERMINATION_BOUND_MS as nat },
        }
    }
}

/// What the session asks the driver to do.
#[derive(Debug, PartialEq, Eq)]
pub enum Action {
    /// Nothing: wait for the next event.
    Idle,
    /// Draw the dashboard from a fresh snapshot.
    Render,
    /// Start `program` with `args`, its output discarded, and make it the
    /// current player.
    Launch { program: String, args: Vec<String> },
    /// Ask the current player to end, wait at most `wait_ms` milliseconds for
    /// that, and let go of it either way.
    Terminate { wait_ms: u64 },
    /// Write `command` to the control channel at `channel`.
    Send { channel: String, command: String },
    /// Suspend the current player, or let it continue.
    Signal { suspend: bool },
    /// Set the system mixer to `level`, with the script that
    /// [`system_volume_script`](crate::control::system_volume_script) writes.
    SystemVolume { level: u32 },
    /// Leave the event loop.
    Exit { reason: ExitReason },
}

impl View for Action {
    type V = ActionView;

    open spec fn view(&self) -> ActionView {
        match self {
            Action::Idle => ActionView::Idle,
            Action::Render => ActionView::Render,
            Action::Launch { program, args } => ActionView::Launch {
                program: program@,
                args: args.deep_view(),
            },
            Action::Terminate { wait_ms } => ActionView::Terminate { wait_ms: *wait_ms as nat },
            Action::Send { channel, command } => ActionView::Send {
                channel: channel@,
                command: command@,
            },
            Action::Signal { suspend } => ActionView::Signal { suspend: *suspend },
            Action::SystemVolume { level } => ActionView::SystemVolume { level: *level as nat },
            Action::Exit { reason } => ActionView::Exit { reason: *reason },
        }
    }
}

/// What a [`Session`] holds, as mathematical values.
pub struct SessionState {
    pub stage: Stage,
    pub control: VolumeState,
    pub stations: Seq<Station>,
    /// The position of the selected station in `stations`.
    pub station: nat,
    /// The id of the process that starts the players.
    pub process_id: nat,
    /// Whether mute is to be put back on the player that is being started.
    pub remute: bool,
    /// Whole seconds since the session started, as last reported.
    pub elapsed_secs: nat,
}

impl SessionState {
    /// The table is not empty, the selection is inside it, and the level and
    /// mute state are valid.
    pub open spec fn valid(self) -> bool {
        &&& self.stations.len() > 0
        &&& self.station < self.stations.len()
        &&& self.control.valid()
    }

    /// The phase the session is in.
    pub open spec fn phase(self) -> Phase {
        self.stage.phase()
    }

    /// The address of the selected station.
    pub open spec fn stream_url(self) -> Seq<char> {
        self.stations[self.station as int].url@
    }

    /// The state a session starts in, before its first player is asked for.
    pub open spec fn initial(
        backend: PlayerType,
        stations: Seq<Station>,
        station: nat,
        process_id: nat,
    ) -> SessionState {
        SessionState {
            stage: Stage::Starting,
            control: VolumeState::initial(backend),
            stations,
            station,
            process_id,
            remute: false,
            elapsed_secs: 0,
        }
    }

    /// The same state at another stage.
    pub open spec fn at(self, stage: Stage) -> SessionState {
        SessionState { stage, ..self }
    }

    /// Asking for a player: the launch is for the selected station at the
    /// stored level, and the channel it opens is remembered.
    pub open spec fn launch(self, stage: Stage) -> (SessionState, ActionView) {
        (
            SessionState {
                stage,
                control: self.control.with_channel(
                    launch_channel(self.control.backend, self.process_id),
                ),
                ..self
            },
            ActionView::Launch {
                program: launch_program(self.control.backend),
                args: launch_args(
                    self.control.backend,
                    self.stream_url(),
                    self.control.volume,
                    self.process_id,
                ),
            },
        )
    }

    /// Asking the current player to end, after which the session is at `stage`.
    pub open spec fn terminate(self, stage: Stage) -> (SessionState, ActionView) {
        (self.at(stage), ActionView::Terminate { wait_ms: TERMINATION_BOUND_MS as nat })
    }

    /// The end of the session.
    pub open spec fn finish(self, reason: ExitReason) -> (SessionState, ActionView) {
        (self.at(Stage::Stopped), ActionView::Exit { reason })
    }

    /// An event or an operation that the session is not ready for changes
    /// nothing.
    pub open spec fn ignore(self) -> (SessionState, ActionView) {
        (self, ActionView::Idle)
    }

    /// Whether the session takes operations: a player is current and nothing
    /// is in flight.
    pub open spec fn ready(self) -> bool {
        self.stage == Stage::Running
    }

    /// Making a change of level or mute audible: in place where the plan
    /// allows it, by replacing the player otherwise.
    pub open spec fn carry_out(
        self,
        control: VolumeState,
        plan: ControlPlan,
    ) -> (SessionState, ActionView) {
        let changed = SessionState { control, remute: false, ..self };
        if plan.in_place() {
            (changed.at(Stage::Controlling), ActionView::of_plan(plan))
        } else {
            changed.terminate(Stage::Terminating)
        }
    }

    /// An adjustment of the level: nothing but a redraw while muted, else the
    /// new level is stored at once and made audible.
    pub open spec fn adjust_volume(self, delta: int) -> (SessionState, ActionView) {
        if !self.ready() {
            self.ignore()
        } else if self.control.muted {
            (self, ActionView::Render)
        } else {
            self.carry_out(
                self.control.adjusted(delta),
                self.control.adjusted(delta).volume_plan(),
            )
        }
    }

    /// Muting or unmuting: the new state is stored at once and made audible.
    pub open spec fn toggle_mute(self) -> (SessionState, ActionView) {
        if !self.ready() {
            self.ignore()
        } else {
            self.carry_out(self.control.toggled(), self.control.toggled().mute_plan())
        }
    }

    /// A change of station: the selection moves, and the player is replaced
    /// whatever the backend can do; a muted session asks for mute to be put
    /// back on the new player.
    pub open spec fn switch_station(self, direction: Direction) -> (SessionState, ActionView) {
        if !self.ready() {
            self.ignore()
        } else {
            SessionState {
                station: moved(self.station, self.stations.len(), direction),
                remute: self.control.muted,
                ..self
            }.terminate(Stage::Terminating)
        }
    }

    /// Stopping: the player is asked to end, and the session ends when the
    /// bounded wait for that is over.
    pub open spec fn stop(self) -> (SessionState, ActionView) {
        if !self.ready() {
            self.ignore()
        } else {
            self.terminate(Stage::Stopping)
        }
    }

    /// The operation that an intent names.
    pub open spec fn perform(self, intent: Intent) -> (SessionState, ActionView) {
        match intent {
            Intent::VolumeUp => self.adjust_volume(VOLUME_STEP as int),
            Intent::VolumeDown => self.adjust_volume(-(VOLUME_STEP as int)),
            Intent::ToggleMute => self.toggle_mute(),
            Intent::PrevStation => self.switch_station(Direction::Prev),
            Intent::NextStation => self.switch_station(Direction::Next),
            Intent::Quit => self.stop(),
        }
    }

    /// The replacement is running: mute is put back on it where that was
    /// asked for and can be done in place; otherwise the session just runs.
    pub open spec fn replaced(self) -> (SessionState, ActionView) {
        let settled = SessionState { remute: false, ..self };
        if self.remute && self.control.mute_plan().in_place() {
            (settled.at(Stage::Remuting), ActionView::of_plan(self.control.mute_plan()))
        } else {
            (settled.at(Stage::Running), ActionView::Render)
        }
    }

    /// An event while a player is current and nothing is in flight.
    pub open spec fn on_running(self, event: Event) -> (SessionState, ActionView) {
        match event {
            Event::Key { key, ctrl } => match bound_intent(key, ctrl) {
                Some(intent) => self.perform(intent),
                None => self.ignore(),
            },
            Event::Tick { elapsed_secs } => (
                SessionState { elapsed_secs: elapsed_secs as nat, ..self },
                ActionView::Render,
            ),
            Event::Interrupt => self.stop(),
            Event::ProcessExited { outcome } => self.finish(ExitReason::of_outcome(outcome)),
            _ => self.ignore(),
        }
    }

    /// The state after a run of events, first to last.
    pub open spec fn run(self, events: Seq<Event>) -> SessionState
        decreases events.len(),
    {
        if events.len() == 0 {
            self
        } else {
            self.run(events.drop_last()).step(events.last()).0
        }
    }

    /// Where the session comes to rest when the driver carries out `action`
    /// and each action asked for in answer, as long as `luck` lasts: `luck`
    /// says of each action in turn whether carrying it out goes well.
    pub open spec fn settle(self, action: ActionView, luck: Seq<bool>) -> (
        SessionState,
        ActionView,
    )
        decreases luck.len(),
    {
        if luck.len() == 0 {
            (self, action)
        } else {
            match action.answer(luck.first()) {
                Some(event) => self.step(event).0.settle(self.step(event).1, luck.drop_first()),
                None => (self, action),
            }
        }
    }

    /// The next state and the action for an event.
    pub open spec fn step(self, event: Event) -> (SessionState, ActionView) {
        match self.stage {
            Stage::Starting => match event {
                Event::Spawned => (self.at(Stage::Running), ActionView::Render),
                Event::SpawnFailed => self.finish(ExitReason::SpawnFailed),
                _ => self.ignore(),
            },
            Stage::Running => self.on_running(event),
            Stage::Controlling => match event {
                Event::ControlDone { delivered } => if delivered {
                    (self.at(Stage::Running), ActionView::Render)
                } else {
                    self.terminate(Stage::Terminating)
                },
                _ => self.ignore(),
            },
            Stage::Remuting => match event {
                Event::ControlDone { .. } => (self.at(Stage::Running), ActionView::Render),
                _ => self.ignore(),
            },
            Stage::Terminating => match event {
                Event::Terminated { .. } => self.launch(Stage::Launching),
                _ => self.ignore(),
            },
            Stage::Launching => match event {
                Event::Spawned => self.replaced(),
                Event::SpawnFailed => self.finish(ExitReason::SpawnFailed),
                _ => self.ignore(),
            },
            Stage::Stopping => match event {
                Event::Terminated { .. } => self.finish(ExitReason::Quit),
                _ => self.ignore(),
            },
            Stage::Stopped => self.ignore(),
        }
    }
}

/// One playback session.
pub struct Session {
    stage: Stage,
    control: VolumeControl,
    stations: Vec<Station>,
    station_index: usize,
    process_id: u32,
    remute: bool,
    elapsed_secs: u64,
}

impl View for Session {
    type V = SessionState;

    closed spec fn view(&self) -> SessionState {
        SessionState {
            stage: self.stage,
            control: self.control@,
            stations: self.stations@,
            station: self.station_index as nat,
            process_id: self.process_id as nat,
            remute: self.remute,
            elapsed_secs: self.elapsed_secs as nat,
        }
    }
}

impl Session {
    #[verifier::type_invariant]
    spec fn well_formed(self) -> bool {
        self@.valid()
    }

    /// Starts a session on `backend` with the station at `station_index`
    /// selected. Returns the session and the launch of its first player.
    ///
    /// `process_id` is the id of the process that will start the players; the
    /// control channels are named after it.
    pub fn start(
        backend: PlayerType,
        stations: Vec<Station>,
        station_index: usize,
        process_id: u32,
    ) -> (r: (Session, Action))
        requires
            station_index < stations@.len(),
        ensures
            (r.0@, r.1@) == SessionState::initial(
                backend,
                stations@,
                station_index as nat,
                process_id as nat,
            ).launch(Stage::Starting),
            r.0@.valid(),
    {
        let mut session = Session {
            stage: Stage::Starting,
            control: VolumeControl::new(backend),
            stations,
            station_index,
            process_id,
            remute: false,
            elapsed_secs: 0,
        };
        let action = session.launch(Stage::Starting);
        (session, action)
    }

    /// Takes an event and answers with the action to carry out.
    ///
    /// An event that the session does not wait for at its stage is ignored:
    /// nothing changes and the answer is [`Action::Idle`].
    pub fn handle(&mut self, event: Event) -> (action: Action)
        ensures
            (final(self)@, action@) == old(self)@.step(event),
            final(self)@.valid(),
    {
        proof {
            use_type_invariant(&*self);
        }
        match self.stage {
            Stage::Starting => match event {
                Event::Spawned => {
                    self.stage = Stage::Running;
                    Action::Render
                },
                Event::SpawnFailed => self.finish(ExitReason::SpawnFailed),
                _ => Action::Idle,
            },
            Stage::Running => self.on_running(event),
            Stage::Controlling => match event {
                Event::ControlDone { delivered } => if delivered {
                    self.stage = Stage::Running;
                    Action::Render
                } else {
                    self.terminate(Stage::Terminating)
                },
                _ => Action::Idle,
            },
            Stage::Remuting => match event {
                Event::ControlDone { .. } => {
                    self.stage = Stage::Running;
                    Action::Render
                },
                _ => Action::Idle,
            },
            Stage::Terminating => match event {
                Event::Terminated { .. } => self.launch(Stage::Launching),
                _ => Action::Idle,
            },
            Stage::Launching => match event {
                Event::Spawned => self.replaced(),
                Event::SpawnFailed => self.finish(ExitReason::SpawnFailed),
                _ => Action::Idle,
            },
            Stage::Stopping => match event {
                Event::Terminated { .. } => self.finish(ExitReason::Quit),
                _ => Action::Idle,
            },
            Stage::Stopped => Action::Idle,
        }
    }

    /// Moves the level by `delta`, stopping at the bounds, and makes the new
    /// level audible: in place where the backend can, by replacing the
    /// player where it cannot. While muted, nothing changes.
    ///
    /// Ignored unless a player is current and nothing is in flight.
    pub fn adjust_volume(&mut self, delta: i32) -> (action: Action)
        ensures
            (final(self)@, action@) == old(self)@.adjust_volume(delta as int),
            final(self)@.valid(),
    {
        proof {
            use_type_invariant(&*self);
        }
        if !self.is_ready() {
            Action::Idle
        } else if self.control.is_muted() {
            Action::Render
        } else {
            self.control.adjust_volume(delta);
            let plan = self.control.apply_volume();
            self.carry_out(plan)
        }
    }

    /// Mutes or unmutes and makes that audible: in place where the backend
    /// can pause, by replacing the player at the new level where it cannot.
    ///
    /// Ignored unless a player is current and nothing is in flight.
    pub fn toggle_mute(&mut self) -> (action: Action)
        ensures
            (final(self)@, action@) == old(self)@.toggle_mute(),
            final(self)@.valid(),
    {
        proof {
            use_type_invariant(&*self);
        }
        if !self.is_ready() {
            Action::Idle
        } else {
            self.control.toggle_mute();
            let plan = self.control.apply_mute();
            self.carry_out(plan)
        }
    }

    /// Moves the selection by one station, around the ends of the table, and
    /// replaces the player with one for the new station at the stored level.
    ///
    /// Ignored unless a player is current and nothing is in flight.
    pub fn switch_station(&mut self, direction: Direction) -> (action: Action)
        ensures
            (final(self)@, action@) == old(self)@.switch_station(direction),
            final(self)@.valid(),
    {
        proof {
            use_type_invariant(&*self);
        }
        if !self.is_ready() {
            Action::Idle
        } else {
            self.station_index = step_index(self.station_index, self.stations.len(), direction);
            self.remute = self.control.is_muted();
            self.terminate(Stage::Terminating)
        }
    }

    /// Asks the player to end. The session is over once the bounded wait for
    /// that has ended, whether or not the player has.
    ///
    /// Ignored unless a player is current and nothing is in flight.
    pub fn stop(&mut self) -> (action: Action)
        ensures
            (final(self)@, action@) == old(self)@.stop(),
            final(self)@.valid(),
    {
        proof {
            use_type_invariant(&*self);
        }
        if !self.is_ready() {
            Action::Idle
        } else {
            self.terminate(Stage::Stopping)
        }
    }

    /// Whether the session takes operations: a player is current and nothing
    /// is in flight.
    pub fn is_ready(&self) -> (r: bool)
        ensures
            r == self@.ready(),
    {
        match self.stage {
            Stage::Running => true,
            _ => false,
        }
    }

    fn on_running(&mut self, event: Event) -> (action: Action)
        ensures
            (final(self)@, action@) == old(self)@.on_running(event),
            final(self)@.valid(),
    {
        proof {
            use_type_invariant(&*self);
        }
        match event {
            Event::Key { key, ctrl } => match intent_for_key(key, ctrl) {
                Some(intent) => self.perform(intent),
                None => Action::Idle,
            },
            Event::Tick { elapsed_secs } => {
                self.elapsed_secs = elapsed_secs;
                Action::Render
            },
            Event::Interrupt => self.stop(),
            Event::ProcessExited { outcome } => {
                let reason = match outcome {
                    ExitOutcome::Success => ExitReason::Finished,
                    ExitOutcome::Failure => ExitReason::PlayerFailed,
                    ExitOutcome::WaitError => ExitReason::WaitError,
                };
                self.finish(reason)
            },
            _ => Action::Idle,
        }
    }

    fn perform(&mut self, intent: Intent) -> (action: Action)
        ensures
            (final(self)@, action@) == old(self)@.perform(intent),
            final(self)@.valid(),
    {
        match intent {
            Intent::VolumeUp => self.adjust_volume(VOLUME_STEP),
            Intent::VolumeDown => self.adjust_volume(-VOLUME_STEP),
            Intent::ToggleMute => self.toggle_mute(),
            Intent::PrevStation => self.switch_station(Direction::Prev),
            Intent::NextStation => self.switch_station(Direction::Next),
            Intent::Quit => self.stop(),
        }
    }

    fn carry_out(&mut self, plan: ControlAction) -> (action: Action)
        ensures
            (final(self)@, action@) == old(self)@.carry_out(old(self)@.control, plan@),
            final(self)@.valid(),
    {
        proof {
            use_type_invariant(&*self);
        }
        self.remute = false;
        match plan {
            ControlAction::Send { channel, command } => {
                self.stage = Stage::Controlling;
                Action::Send { channel, command }
            },
            ControlAction::Signal { suspend } => {
                self.stage = Stage::Controlling;
                Action::Signal { suspend }
            },
            ControlAction::SystemVolume { level } => {
                self.stage = Stage::Controlling;
                Action::SystemVolume { level }
            },
            ControlAction::Respawn => self.terminate(Stage::Terminating),
        }
    }

    fn replaced(&mut self) -> (action: Action)
        ensures
            (final(self)@, action@) == old(self)@.replaced(),
            final(self)@.valid(),
    {
        proof {
            use_type_invariant(&*self);
        }
        let remute = self.remute;
        self.remute = false;
        if remute {
            match self.control.apply_mute() {
                ControlAction::Send { channel, command } => {
                    self.stage = Stage::Remuting;
                    Action::Send { channel, command }
                },
                ControlAction::Signal { suspend } => {
                    self.stage = Stage::Remuting;
                    Action::Signal { suspend }
                },
                ControlAction::SystemVolume { level } => {
                    self.stage = Stage::Remuting;
                    Action::SystemVolume { level }
                },
                ControlAction::Respawn => {
                    self.stage = Stage::Running;
                    Action::Render
                },
            }
        } else {
            self.stage = Stage::Running;
            Action::Render
        }
    }

    fn launch(&mut self, stage: Stage) -> (action: Action)
        ensures
            (final(self)@, action@) == old(self)@.launch(stage),
            final(self)@.valid(),
    {
        proof {
            use_type_invariant(&*self);
        }
        let (program, args, channel) = build_player_args(
            self.control.player_type(),
            self.stations[self.station_index].url,
            self.control.volume(),
            self.process_id,
        );
        self.control.record_channel(channel);
        self.stage = stage;
        Action::Launch { program, args }
    }

    fn terminate(&mut self, stage: Stage) -> (action: Action)
        ensures
            (final(self)@, action@) == old(self)@.terminate(stage),
            final(self)@.valid(),
    {
        proof {
            use_type_invariant(&*self);
        }
        self.stage = stage;
        Action::Terminate { wait_ms: TERMINATION_BOUND_MS }
    }

    fn finish(&mut self, reason: ExitReason) -> (action: Action)
        ensures
            (final(self)@, action@) == old(self)@.finish(reason),
            final(self)@.valid(),
    {
        proof {
            use_type_invariant(&*self);
        }
        self.stage = Stage::Stopped;
        Action::Exit { reason }
    }

    /// The phase the session is in.
    pub fn phase(&self) -> (r: Phase)
        ensures
            r == self@.phase(),
    {
        match self.stage {
            Stage::Starting => Phase::Starting,
            Stage::Running | Stage::Controlling | Stage::Remuting => Phase::Running,
            Stage::Terminating | Stage::Launching => Phase::Replacing,
            Stage::Stopping => Phase::Stopping,
            Stage::Stopped => Phase::Stopped,
        }
    }

    /// Where the session stands.
    pub fn stage(&self) -> (r: Stage)
        ensures
            r == self@.stage,
    {
        self.stage
    }

    /// The level and mute state.
    pub fn control(&self) -> (r: &VolumeControl)
        ensures
            r@ == self@.control,
            r@.valid(),
    {
        proof {
            use_type_invariant(self);
        }
        &self.control
    }

    /// The station table.
    pub fn stations(&self) -> (r: &Vec<Station>)
        ensures
            r@ == self@.stations,
            r@.len() > 0,
    {
        proof {
            use_type_invariant(self);
        }
        &self.stations
    }

    /// The position of the selected station in the table.
    pub fn station_index(&self) -> (r: usize)
        ensures
            r == self@.station,
            r < self@.stations.len(),
    {
        proof {
            use_type_invariant(self);
        }
        self.station_index
    }

    /// A copy of what the dashboard shows.
    pub fn snapshot(&self) -> (r: UiState)
        ensures
            r.station_index == self@.station,
            r.volume == self@.control.volume,
            r.muted == self@.control.muted,
            r.elapsed_secs == self@.elapsed_secs,
            r.volume <= MAX_VOLUME,
    {
        UiState {
            station_index: self.station_index,
            volume: self.control.volume(),
            muted: self.control.is_muted(),
            elapsed_secs: self.elapsed_secs,
        }
    }
}

/// Whatever happens, the session stays valid: the level stays between 0 and
/// the highest level, a muted session stays at level 0, and the selection
/// stays inside the station table.
pub proof fn lemma_step_keeps_valid(state: SessionState, event: Event)
    requires
        state.valid(),
    ensures
        state.step(event).0.valid(),
        state.step(event).0.control.volume <= MAX_VOLUME,
        state.step(event).0.stations == state.stations,
        state.step(event).0.control.backend == state.control.backend,
        state.step(event).0.process_id == state.process_id,
{
}

/// Over any run of events the session stays valid, on the same backend and
/// the same station table; and once it has stopped it stays stopped.
pub proof fn lemma_run_keeps_valid(state: SessionState, events: Seq<Event>)
    requires
        state.valid(),
    ensures
        state.run(events).valid(),
        state.run(events).control.volume <= MAX_VOLUME,
        state.run(events).stations == state.stations,
        state.run(events).control.backend == state.control.backend,
        state.stage == Stage::Stopped ==> state.run(events) == state,
    decreases events.len(),
{
    if events.len() > 0 {
        lemma_run_keeps_valid(state, events.drop_last());
        lemma_step_keeps_valid(state.run(events.drop_last()), events.last());
    }
}

/// No operation leaves the session hanging. Whatever is asked of a session
/// that is ready, and however the driver fares with each action, after at most
/// three answers the session asks for nothing more: it is ready again, or it
/// has stopped and has told the driver to leave.
pub proof fn lemma_operations_settle(state: SessionState, intent: Intent, luck: Seq<bool>)
    requires
        state.valid(),
        state.ready(),
        luck.len() >= 3,
    ensures
        ({
            let (asked, first) = state.perform(intent);
            let (rest, last) = asked.settle(first, luck);
            &&& last.answer(true) is None
            &&& rest.valid()
            &&& rest.ready() || (rest.stage == Stage::Stopped && last is Exit)
        }),
{
    reveal_with_fuel(SessionState::settle, 4);
}

/// A session that starts comes to rest after one answer: running when its
/// first player was started, stopped when it could not be.
pub proof fn lemma_start_settles(
    backend: PlayerType,
    stations: Seq<Station>,
    station: nat,
    process_id: nat,
    spawned: bool,
)
    requires
        station < stations.len(),
    ensures
        ({
            let (asked, first) = SessionState::initial(
                backend,
                stations,
                station,
                process_id,
            ).launch(Stage::Starting);
            let (rest, last) = asked.settle(first, seq![spawned]);
            &&& first is Launch
            &&& asked.phase() == Phase::Starting
            &&& spawned ==> rest.ready() && last is Render
            &&& !spawned ==> rest.stage == Stage::Stopped && last == ActionView::Exit {
                reason: ExitReason::SpawnFailed,
            }
        }),
{
    reveal_with_fuel(SessionState::settle, 2);
}

/// Replacing the player always goes through: once the wait for the old
/// player is over, whether or not it ended in time, the session asks for a new
/// player for the selected station at the stored level; and once that player
/// is reported running, the session is running again.
pub proof fn lemma_respawn_yields_player(state: SessionState, exited: bool)
    requires
        state.valid(),
        state.stage == Stage::Terminating,
    ensures
        state.step(Event::Terminated { exited }).1 == (ActionView::Launch {
            program: launch_program(state.control.backend),
            args: launch_args(
                state.control.backend,
                state.stream_url(),
                state.control.volume,
                state.process_id,
            ),
        }),
        state.step(Event::Terminated { exited }).0.stage == Stage::Launching,
        state.step(Event::Terminated { exited }).0.control.volume == state.control.volume,
        state.step(Event::Terminated { exited }).0.step(Event::Spawned).0.phase()
            == Phase::Running,
{
}

/// Whenever an adjustment ends in a replacement, the replacement is started
/// at exactly the new level, on every backend: be it that the backend cannot
/// change its level while it runs, or that the change was sent in place and
/// did not arrive. The new level is stored before the player is asked to end.
pub proof fn lemma_adjust_respawns_at_new_level(state: SessionState, delta: int, exited: bool)
    requires
        state.valid(),
        state.ready(),
        !state.control.muted,
    ensures
        ({
            let (asked, first) = state.adjust_volume(delta);
            let (ending, request) = if first is Terminate {
                (asked, first)
            } else {
                asked.step(Event::ControlDone { delivered: false })
            };
            let (launched, second) = ending.step(Event::Terminated { exited });
            &&& !state.control.backend.runtime_volume() ==> first is Terminate
            &&& asked.control.volume == clamped(state.control.volume + delta)
            &&& request == ActionView::Terminate { wait_ms: TERMINATION_BOUND_MS as nat }
            &&& second == (ActionView::Launch {
                program: launch_program(state.control.backend),
                args: launch_args(
                    state.control.backend,
                    state.stream_url(),
                    clamped(state.control.volume + delta),
                    state.process_id,
                ),
            })
            &&& launched.control.volume == clamped(state.control.volume + delta)
            &&& launched.step(Event::Spawned).0.ready()
        }),
{
}

/// An adjustment shows at once: whichever way the new level is made audible,
/// in place or by replacing the player, the session stores it before it
/// answers, and a snapshot taken then holds it.
pub proof fn lemma_adjust_shows_at_once(state: SessionState, delta: int)
    requires
        state.valid(),
        state.ready(),
        !state.control.muted,
    ensures
        state.adjust_volume(delta).0.control.volume == clamped(state.control.volume + delta),
        state.adjust_volume(delta).0.control.volume <= MAX_VOLUME,
        state.adjust_volume(delta).1 == ActionView::of_plan(
            state.control.adjusted(delta).volume_plan(),
        ),
{
}

/// While muted, an adjustment of the level is accepted and changes nothing:
/// the session answers with a redraw of the state it already had.
pub proof fn lemma_adjust_while_muted_changes_nothing(state: SessionState, delta: int)
    requires
        state.ready(),
        state.control.muted,
    ensures
        state.adjust_volume(delta) == (state, ActionView::Render),
{
}

/// A session that is muted when the station is switched is muted when the
/// switch is over: the new player is started at level 0, mute is put back on
/// it where the backend can do so in place, and whatever comes of that
/// attempt, the session runs on, muted, at level 0, on the station moved to.
pub proof fn lemma_switch_keeps_mute(
    state: SessionState,
    direction: Direction,
    exited: bool,
    delivered: bool,
)
    requires
        state.valid(),
        state.stage == Stage::Running,
        state.control.muted,
    ensures
        ({
            let (asked, first) = state.switch_station(direction);
            let (launched, second) = asked.step(Event::Terminated { exited });
            let (fresh, third) = launched.step(Event::Spawned);
            let settled = if fresh.stage == Stage::Remuting {
                fresh.step(Event::ControlDone { delivered }).0
            } else {
                fresh
            };
            &&& first is Terminate
            &&& second == (ActionView::Launch {
                program: launch_program(state.control.backend),
                args: launch_args(
                    state.control.backend,
                    state.stations[moved(state.station, state.stations.len(), direction) as int].url@,
                    0,
                    state.process_id,
                ),
            })
            &&& (state.control.mute_plan().in_place() ==> fresh.stage == Stage::Remuting)
            &&& (fresh.stage == Stage::Remuting ==> third == ActionView::of_plan(
                fresh.control.mute_plan(),
            ) && third != ActionView::Terminate { wait_ms: TERMINATION_BOUND_MS as nat })
            &&& settled.stage == Stage::Running
            &&& settled.control.muted
            &&& settled.control.effective_volume() == 0
            &&& settled.control.volume == 0
            &&& settled.control.before_mute == state.control.before_mute
            &&& settled.station == moved(state.station, state.stations.len(), direction)
        }),
{
}

/// A player that does not end within the bound holds nothing up: the session
/// answers the end of the wait in the same way whether or not the player
/// ended, with the launch of the replacement or, when quitting, with the end
/// of the session. After that answer the session holds no player.
pub proof fn lemma_timeout_does_not_block(state: SessionState)
    requires
        state.valid(),
        state.stage == Stage::Terminating || state.stage == Stage::Stopping,
    ensures
        state.step(Event::Terminated { exited: false }) == state.step(
            Event::Terminated { exited: true },
        ),
        state.stage == Stage::Terminating ==> state.step(Event::Terminated { exited: false }).1
            is Launch,
        state.stage == Stage::Stopping ==> state.step(Event::Terminated { exited: false })
            == state.finish(ExitReason::Quit),
        !state.step(Event::Terminated { exited: false }).0.stage.holds_player(),
{
}

/// There is at most one player, and only the current one is ever addressed.
/// An action for the player is issued only in a state that holds one; a launch
/// is issued only in a state that holds none, after the wait for the old
/// player is over. A player is asked to end only once: never while the wait
/// for its end is still on. A player is let go of only when it has ended or
/// that wait is over, and taken on only when a launch has succeeded.
pub proof fn lemma_one_player_at_a_time(state: SessionState, event: Event)
    requires
        state.valid(),
    ensures
        state.step(event).1.addresses_player() ==> state.step(event).0.stage.holds_player(),
        state.step(event).1 is Launch ==> state.stage == Stage::Terminating && !state.step(
            event,
        ).0.stage.holds_player(),
        state.step(event).1 is Terminate ==> state.stage == Stage::Running || state.stage
            == Stage::Controlling,
        state.stage.holds_player() && !state.step(event).0.stage.holds_player() ==> (event
            is Terminated || event is ProcessExited),
        !state.stage.holds_player() && state.step(event).0.stage.holds_player() ==> event
            is Spawned,
{
}

/// A session that has stopped stays stopped and asks for nothing more; and
/// the driver is told to leave exactly when the session stops.
pub proof fn lemma_stopped_is_final(state: SessionState, event: Event)
    ensures
        state.stage == Stage::Stopped ==> state.step(event) == (state, ActionView::Idle),
        state.step(event).1 is Exit <==> (state.stage != Stage::Stopped && state.step(
            event,
        ).0.stage == Stage::Stopped),
        event is SpawnFailed && (state.stage == Stage::Starting || state.stage
            == Stage::Launching) ==> state.step(event) == state.finish(ExitReason::SpawnFailed),
{
}

/// An in-place change that does not arrive is made good by replacing the
/// player; one that arrives leaves the player alone.
pub proof fn lemma_failed_control_falls_back(state: SessionState, delivered: bool)
    requires
        state.valid(),
        state.stage == Stage::Controlling,
    ensures
        delivered ==> state.step(Event::ControlDone { delivered }) == (
            state.at(Stage::Running),
            ActionView::Render,
        ),
        !delivered ==> state.step(Event::ControlDone { delivered }) == state.terminate(
            Stage::Terminating,
        ),
        state.step(Event::ControlDone { delivered }).0.control == state.control,
{
}

} // verus!
