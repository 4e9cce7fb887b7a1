//! The level and mute state of a session, and how a change of either reaches
//! the running player.

use vstd::prelude::*;
use vstd::string::StringExecFns;
use crate::backend::PlayerType;
use crate::text::{decimal, digits, lemma_decimal_is_digits, push_decimal};

verus! {

/// The level a session starts at.
pub const DEFAULT_VOLUME: u32 = 70;

/// The amount by which one step raises or lowers the level.
pub const VOLUME_STEP: i32 = 5;

/// The highest level.
pub const MAX_VOLUME: u32 = 100;

/// The level nearest to `level` that is in range.
pub open spec fn clamped(level: int) -> nat {
    if level < 0 {
        0
    } else if level > MAX_VOLUME {
        MAX_VOLUME as nat
    } else {
        level as nat
    }
}

/// What a [`VolumeControl`] holds, as mathematical values.
pub struct VolumeState {
    /// The stored level: what the player plays at.
    pub volume: nat,
    pub muted: bool,
    /// The level taken when the session was last muted.
    pub before_mute: nat,
    pub backend: PlayerType,
    /// Where live commands for the running player are sent, if anywhere.
    pub channel: Option<Seq<char>>,
}

impl VolumeState {
    /// Both levels are in range, and a muted session is stored at level 0.
    pub open spec fn valid(self) -> bool {
        &&& self.volume <= MAX_VOLUME
        &&& self.before_mute <= MAX_VOLUME
        &&& self.muted ==> self.volume == 0
    }

    /// The state of a fresh session on `backend`.
    pub open spec fn initial(backend: PlayerType) -> VolumeState {
        VolumeState {
            volume: DEFAULT_VOLUME as nat,
            muted: false,
            before_mute: DEFAULT_VOLUME as nat,
            backend,
            channel: None,
        }
    }

    /// The level that is heard: 0 while muted, the stored level otherwise.
    pub open spec fn effective_volume(self) -> nat {
        if self.muted {
            0
        } else {
            self.volume
        }
    }

    /// The level moved by `delta` and kept in range; a muted state is left as
    /// it is.
    pub open spec fn adjusted(self, delta: int) -> VolumeState {
        if self.muted {
            self
        } else {
            VolumeState { volume: clamped(self.volume + delta), ..self }
        }
    }

    /// One step up.
    pub open spec fn raised(self) -> VolumeState {
        self.adjusted(VOLUME_STEP as int)
    }

    /// One step down.
    pub open spec fn lowered(self) -> VolumeState {
        self.adjusted(-(VOLUME_STEP as int))
    }

    /// Muting remembers the level and stores 0; unmuting stores the
    /// remembered level again.
    pub open spec fn toggled(self) -> VolumeState {
        if self.muted {
            VolumeState { volume: self.before_mute, muted: false, ..self }
        } else {
            VolumeState { volume: 0, muted: true, before_mute: self.volume, ..self }
        }
    }

    /// The state after a launch that opened `opened`: a new channel replaces
    /// the remembered one, a launch without a channel leaves it.
    pub open spec fn with_channel(self, opened: Option<Seq<char>>) -> VolumeState {
        match opened {
            Some(path) => VolumeState { channel: Some(path), ..self },
            None => self,
        }
    }

    /// The state after a run of adjustments, first to last.
    pub open spec fn after(self, deltas: Seq<int>) -> VolumeState
        decreases deltas.len(),
    {
        if deltas.len() == 0 {
            self
        } else {
            self.after(deltas.drop_last()).adjusted(deltas.last())
        }
    }

    /// How the stored level reaches the running player.
    ///
    /// A backend without live level control needs a restart. One that is
    /// commanded over a channel gets a command on it, or a restart when no
    /// channel is known. Any other adjusts the system mixer.
    pub open spec fn volume_plan(self) -> ControlPlan {
        if !self.backend.runtime_volume() {
            ControlPlan::Respawn
        } else if self.backend.control_channel() {
            match self.channel {
                Some(channel) => ControlPlan::Send {
                    channel,
                    command: volume_command(self.volume),
                },
                None => ControlPlan::Respawn,
            }
        } else {
            ControlPlan::SystemVolume { level: self.volume }
        }
    }

    /// How the mute flag reaches the running player.
    ///
    /// A backend without live pause needs a restart. One that is commanded
    /// over a channel gets a pause command on it, or a restart when no
    /// channel is known. Any other has its process suspended or resumed.
    pub open spec fn mute_plan(self) -> ControlPlan {
        if !self.backend.runtime_mute() {
            ControlPlan::Respawn
        } else if self.backend.control_channel() {
            match self.channel {
                Some(channel) => ControlPlan::Send { channel, command: pause_command(self.muted) },
                None => ControlPlan::Respawn,
            }
        } else {
            ControlPlan::Signal { suspend: self.muted }
        }
    }
}

/// The command that sets a running player to `level` percent.
pub open spec fn volume_command(level: nat) -> Seq<char> {
    "set volume "@ + decimal(level) + "%\n"@
}

/// The command that pauses or resumes a running player.
pub open spec fn pause_command(paused: bool) -> Seq<char> {
    if paused {
        "set pause yes\n"@
    } else {
        "set pause no\n"@
    }
}

/// The script that sets the system mixer to `level`.
pub open spec fn mixer_script(level: nat) -> Seq<char> {
    "set volume output volume "@ + decimal(level)
}

/// Whether a text is one line: it ends with a line feed and holds no other.
pub open spec fn is_line(text: Seq<char>) -> bool {
    &&& text.len() > 0
    &&& text.last() == '\n'
    &&& forall|i: int| 0 <= i < text.len() - 1 ==> text[i] != '\n'
}

/// One way of making a change audible, as mathematical values.
pub enum ControlPlan {
    /// Write `command` to the control channel at `channel`.
    Send { channel: Seq<char>, command: Seq<char> },
    /// Suspend the player process, or let it continue.
    Signal { suspend: bool },
    /// Set the system mixer to `level`.
    SystemVolume { level: nat },
    /// Nothing can be done in place: end the player and start another.
    Respawn,
}

impl ControlPlan {
    /// Whether the plan leaves the running player in place.
    pub open spec fn in_place(self) -> bool {
        !(self is Respawn)
    }
}

/// One way of making a change audible.
#[derive(Debug, PartialEq, Eq)]
pub enum ControlAction {
    /// Write `command` to the control channel at `channel`.
    Send { channel: String, command: String },
    /// Suspend the player process, or let it continue.
    Signal { suspend: bool },
    /// Set the system mixer to `level`, with the script that
    /// [`system_volume_script`] writes.
    SystemVolume { level: u32 },
    /// Nothing can be done in place: end the player and start another.
    Respawn,
}

impl View for ControlAction {
    type V = ControlPlan;

    open spec fn view(&self) -> ControlPlan {
        match self {
            ControlAction::Send { channel, command } => ControlPlan::Send {
                channel: channel@,
                command: command@,
            },
            ControlAction::Signal { suspend } => ControlPlan::Signal { suspend: *suspend },
            ControlAction::SystemVolume { level } => ControlPlan::SystemVolume {
                level: *level as nat,
            },
            ControlAction::Respawn => ControlPlan::Respawn,
        }
    }
}

/// The level and mute state of one session, with the backend it plays on and
/// the control channel of the running player.
pub struct VolumeControl {
    volume: u32,
    player_type: PlayerType,
    channel: Option<String>,
    muted: bool,
    volume_before_mute: u32,
}

impl View for VolumeControl {
    type V = VolumeState;

    closed spec fn view(&self) -> VolumeState {
        VolumeState {
            volume: self.volume as nat,
            muted: self.muted,
            before_mute: self.volume_before_mute as nat,
            backend: self.player_type,
            channel: self.channel.deep_view(),
        }
    }
}

impl VolumeControl {
    #[verifier::type_invariant]
    spec fn well_formed(self) -> bool {
        self@.valid()
    }

    /// A fresh control for `player_type`: default level, not muted, no channel.
    pub fn new(player_type: PlayerType) -> (r: Self)
        ensures
            r@ == VolumeState::initial(player_type),
            r@.valid(),
    {
        Self {
            volume: DEFAULT_VOLUME,
            player_type,
            channel: None,
            muted: false,
            volume_before_mute: DEFAULT_VOLUME,
        }
    }

    /// Raises the level by one step, stopping at the highest level. Does
    /// nothing while muted.
    pub fn increase_volume(&mut self)
        ensures
            final(self)@ == old(self)@.raised(),
            final(self)@.valid(),
        no_unwind
    {
        self.adjust_volume(VOLUME_STEP);
    }

    /// Lowers the level by one step, stopping at 0. Does nothing while muted.
    pub fn decrease_volume(&mut self)
        ensures
            final(self)@ == old(self)@.lowered(),
            final(self)@.valid(),
        no_unwind
    {
        self.adjust_volume(-VOLUME_STEP);
    }

    /// Moves the level by `delta`, stopping at 0 and at the highest level.
    /// Does nothing while muted.
    pub fn adjust_volume(&mut self, delta: i32)
        ensures
            final(self)@ == old(self)@.adjusted(delta as int),
            final(self)@.valid(),
            old(self)@.muted ==> final(self)@ == old(self)@,
        no_unwind
    {
        proof {
            use_type_invariant(&*self);
        }
        if !self.muted {
            let target: i64 = self.volume as i64 + delta as i64;
            if target < 0 {
                self.volume = 0;
            } else if target > MAX_VOLUME as i64 {
                self.volume = MAX_VOLUME;
            } else {
                self.volume = target as u32;
            }
        }
    }

    /// Mutes or unmutes. Muting remembers the level and stores 0; unmuting
    /// stores the remembered level again.
    pub fn toggle_mute(&mut self)
        ensures
            final(self)@ == old(self)@.toggled(),
            final(self)@.valid(),
        no_unwind
    {
        proof {
            use_type_invariant(&*self);
        }
        if self.muted {
            self.muted = false;
            self.volume = self.volume_before_mute;
        } else {
            self.volume_before_mute = self.volume;
            self.volume = 0;
            self.muted = true;
        }
    }

    /// Remembers the control channel that a launch opened. A launch that
    /// opened none leaves the remembered channel as it is.
    pub fn record_channel(&mut self, opened: Option<String>)
        ensures
            final(self)@ == old(self)@.with_channel(opened.deep_view()),
            final(self)@.valid(),
        no_unwind
    {
        proof {
            use_type_invariant(&*self);
        }
        match opened {
            Some(path) => {
                self.channel = Some(path);
            },
            None => {},
        }
    }

    /// The stored level.
    pub fn volume(&self) -> (r: u32)
        ensures
            r == self@.volume,
            r <= MAX_VOLUME,
            self@.valid(),
    {
        proof {
            use_type_invariant(self);
        }
        self.volume
    }

    /// Whether the session is muted.
    pub fn is_muted(&self) -> (r: bool)
        ensures
            r == self@.muted,
    {
        self.muted
    }

    /// The level taken when the session was last muted.
    pub fn volume_before_mute(&self) -> (r: u32)
        ensures
            r == self@.before_mute,
            r <= MAX_VOLUME,
    {
        proof {
            use_type_invariant(self);
        }
        self.volume_before_mute
    }

    /// The backend the session plays on.
    pub fn player_type(&self) -> (r: PlayerType)
        ensures
            r == self@.backend,
    {
        self.player_type
    }

    /// The control channel of the running player, if one is known.
    pub fn control_channel(&self) -> (r: &Option<String>)
        ensures
            r.deep_view() == self@.channel,
    {
        &self.channel
    }

    /// Decides how the stored level reaches the running player.
    pub fn apply_volume(&self) -> (r: ControlAction)
        ensures
            r@ == self@.volume_plan(),
    {
        if !self.player_type.supports_runtime_volume() {
            ControlAction::Respawn
        } else if self.player_type.requires_control_channel() {
            match &self.channel {
                Some(channel) => {
                    let mut command = String::from_str("set volume ");
                    push_decimal(&mut command, self.volume as u64);
                    command.append("%\n");
                    ControlAction::Send { channel: channel.clone(), command }
                },
                None => ControlAction::Respawn,
            }
        } else {
            ControlAction::SystemVolume { level: self.volume }
        }
    }

    /// Decides how the mute flag reaches the running player.
    pub fn apply_mute(&self) -> (r: ControlAction)
        ensures
            r@ == self@.mute_plan(),
    {
        if !self.player_type.supports_runtime_mute() {
            ControlAction::Respawn
        } else if self.player_type.requires_control_channel() {
            match &self.channel {
                Some(channel) => {
                    let command = if self.muted {
                        String::from_str("set pause yes\n")
                    } else {
                        String::from_str("set pause no\n")
                    };
                    ControlAction::Send { channel: channel.clone(), command }
                },
                None => ControlAction::Respawn,
            }
        } else {
            ControlAction::Signal { suspend: self.muted }
        }
    }
}

/// Writes the script that sets the system mixer to `level`: a fixed text and
/// the level's numeral.
pub fn system_volume_script(level: u32) -> (r: String)
    ensures
        r@ == "set volume output volume "@ + decimal(level as nat),
        r@ == mixer_script(level as nat),
{
    let mut script = String::from_str("set volume output volume ");
    push_decimal(&mut script, level as u64);
    script
}

/// However the level is moved, it stays between 0 and the highest level, and
/// a muted session stays at 0.
pub proof fn lemma_steps_stay_in_range(state: VolumeState, deltas: Seq<int>)
    requires
        state.valid(),
    ensures
        state.after(deltas).valid(),
        state.after(deltas).volume <= MAX_VOLUME,
    decreases deltas.len(),
{
    if deltas.len() > 0 {
        lemma_steps_stay_in_range(state, deltas.drop_last());
    }
}

/// One step moves an unmuted level by exactly the step, unless a bound is
/// nearer than that: then it stops at the bound.
pub proof fn lemma_step_saturates(state: VolumeState)
    requires
        state.valid(),
        !state.muted,
    ensures
        state.raised().volume == if state.volume + VOLUME_STEP <= MAX_VOLUME {
            state.volume + VOLUME_STEP
        } else {
            MAX_VOLUME as int
        },
        state.lowered().volume == if state.volume >= VOLUME_STEP {
            state.volume - VOLUME_STEP
        } else {
            0
        },
{
}

/// Toggling mute twice gives back the level and the mute flag.
pub proof fn lemma_mute_round_trip(state: VolumeState)
    requires
        state.valid(),
    ensures
        state.toggled().toggled().volume == state.volume,
        state.toggled().toggled().muted == state.muted,
        state.toggled().muted != state.muted,
        state.toggled().valid(),
        !state.muted ==> state.toggled().before_mute == state.volume,
{
}

/// While muted, adjusting the level changes nothing.
pub proof fn lemma_adjust_while_muted(state: VolumeState, delta: int)
    requires
        state.muted,
    ensures
        state.adjusted(delta) == state,
        state.raised() == state,
        state.lowered() == state,
{
}

/// Every command that goes over a control channel is one line.
pub proof fn lemma_commands_are_lines(level: nat, paused: bool)
    ensures
        is_line(volume_command(level)),
        is_line(pause_command(paused)),
{
    reveal_strlit("set volume ");
    reveal_strlit("%\n");
    reveal_strlit("set pause yes\n");
    reveal_strlit("set pause no\n");
    lemma_decimal_is_digits(level);
    let command = volume_command(level);
    let head = "set volume "@;
    assert forall|i: int| 0 <= i < command.len() - 1 implies command[i] != '\n' by {
        if i < head.len() {
            assert(command[i] == head[i]);
        } else if i < head.len() + decimal(level).len() {
            let digit = decimal(level)[i - head.len()];
            assert(command[i] == digit);
            assert(digits().contains(digit));
            let d = choose|d: int| 0 <= d < digits().len() && digits()[d] == digit;
            assert(digits()[d] != '\n');
        } else {
            assert(command[i] == '%');
        }
    }
}

/// In a valid state the stored level is the level that is heard.
pub proof fn lemma_stored_is_effective(state: VolumeState)
    requires
        state.valid(),
    ensures
        state.effective_volume() == state.volume,
{
}

} // verus!
