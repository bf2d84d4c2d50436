//! The playback command state machine.
//!
//! A `PlaybackController` is the single authoritative owner of the audio
//! output: it consumes `PlaybackCommand` values one at a time, in receipt
//! order, keeps the one live `PlaybackState`, and says which calls the audio
//! device receives for each command. The device calls are returned as a
//! sequence of `DeviceAction` values so that the surrounding process can
//! perform them; the controller itself is pure and fully verified.
//!
//! The transition table:
//! `Idle --Play--> Playing --Pause--> Paused --Resume--> Playing`;
//! rendering completion and `Stop` (from any state) lead to `Idle`;
//! `FastForward` is a self-loop on `Playing` and `Paused` that advances the
//! position by a step fixed at construction. A `Play` while a stream is live
//! pre-empts it: the old stream is released before the new one starts.

use vstd::prelude::*;

verus! {

/// The one authoritative playback state.
#[derive(Clone, Copy, Debug, PartialEq, Eq, Structural)]
pub enum PlaybackState {
    /// No stream is loaded; the initial state.
    Idle,
    /// A stream is rendering.
    Playing,
    /// A stream is loaded with its output frozen at a position.
    Paused,
    /// The device is being released. Transient: the controller never rests
    /// here between commands, and every command from here behaves as from
    /// `Idle` except that `Stop` is still accepted and still reaches `Idle`.
    Stopping,
}

/// A control intent, consumed by the controller in receipt order. A `Play`
/// owns its audio buffer: ownership transfers to the controller.
pub enum PlaybackCommand {
    Play { audio: Vec<u8> },
    Pause,
    Resume,
    Stop,
    FastForward,
}

/// The mathematical value of a `PlaybackCommand`.
#[verifier::ext_equal]
pub enum CommandModel {
    Play { audio: Seq<u8> },
    Pause,
    Resume,
    Stop,
    FastForward,
}

impl View for PlaybackCommand {
    type V = CommandModel;

    open spec fn view(&self) -> CommandModel {
        match self {
            PlaybackCommand::Play { audio } => CommandModel::Play { audio: audio@ },
            PlaybackCommand::Pause => CommandModel::Pause,
            PlaybackCommand::Resume => CommandModel::Resume,
            PlaybackCommand::Stop => CommandModel::Stop,
            PlaybackCommand::FastForward => CommandModel::FastForward,
        }
    }
}

/// One call made to the audio output device. Each started stream carries the
/// session number the controller assigned to it.
#[derive(Clone, Copy, Debug, PartialEq, Eq, Structural)]
pub enum DeviceAction {
    /// Begin rendering a new stream from its start.
    Start { session: u64 },
    /// Freeze output of the live stream at the given position.
    PauseOutput { session: u64, position: u64 },
    /// Resume output of the frozen stream at the given position.
    ResumeOutput { session: u64, position: u64 },
    /// Move the live stream to the given position.
    Seek { session: u64, position: u64 },
    /// Halt the stream and release the device output.
    StopRelease { session: u64 },
}

/// The mathematical value of a `PlaybackController`.
#[verifier::ext_equal]
pub struct ControllerModel {
    pub state: PlaybackState,
    /// Playback offset of the loaded stream; meaningful only while a stream
    /// is loaded.
    pub position: u64,
    /// Session number of the loaded stream.
    pub session: u64,
    /// Session number the next `Play` will receive.
    pub next_session: u64,
    /// The loaded audio buffer, if any.
    pub current: Option<Seq<u8>>,
    /// How far one `FastForward` advances the position.
    pub step: u64,
}

/// A stream is loaded in the device exactly in these states.
pub open spec fn engaged(s: PlaybackState) -> bool {
    s is Playing || s is Paused
}

/// Well-formedness: a stream is held exactly while the state says one is live.
pub open spec fn wf(m: ControllerModel) -> bool {
    engaged(m.state) <==> m.current is Some
}

/// The bare transition table on states, exactly as the controller follows it:
/// `Play` always wins the device; `Pause` acts only from `Playing`; `Resume`
/// only from `Paused`; `Stop` reaches `Idle` from anywhere; `FastForward`
/// never changes the state.
pub open spec fn table_next(s: PlaybackState, c: CommandModel) -> PlaybackState {
    match c {
        CommandModel::Play { .. } => PlaybackState::Playing,
        CommandModel::Pause => if s is Playing {
            PlaybackState::Paused
        } else {
            s
        },
        CommandModel::Resume => if s is Paused {
            PlaybackState::Playing
        } else {
            s
        },
        CommandModel::Stop => PlaybackState::Idle,
        CommandModel::FastForward => s,
    }
}

/// The table applied over a whole command sequence.
pub open spec fn table_run(s: PlaybackState, cmds: Seq<CommandModel>) -> PlaybackState
    decreases cmds.len(),
{
    if cmds.len() == 0 {
        s
    } else {
        table_run(table_next(s, cmds[0]), cmds.drop_first())
    }
}

/// Session numbers count up; the counter saturates rather than wraps.
pub open spec fn bump(n: u64) -> u64 {
    if n < u64::MAX {
        (n + 1) as u64
    } else {
        n
    }
}

/// Saturating advance of the playback position.
pub open spec fn advanced(position: u64, step: u64) -> u64 {
    if position + step <= u64::MAX {
        (position + step) as u64
    } else {
        u64::MAX
    }
}

/// What one command does to the controller.
pub open spec fn transition(m: ControllerModel, c: CommandModel) -> ControllerModel {
    match c {
        CommandModel::Play { audio } => ControllerModel {
            state: PlaybackState::Playing,
            position: 0,
            session: m.next_session,
            next_session: bump(m.next_session),
            current: Some(audio),
            ..m
        },
        CommandModel::Pause => if m.state is Playing {
            ControllerModel { state: PlaybackState::Paused, ..m }
        } else {
            m
        },
        CommandModel::Resume => if m.state is Paused {
            ControllerModel { state: PlaybackState::Playing, ..m }
        } else {
            m
        },
        CommandModel::Stop => ControllerModel {
            state: PlaybackState::Idle,
            position: 0,
            current: None,
            ..m
        },
        CommandModel::FastForward => if engaged(m.state) {
            ControllerModel { position: advanced(m.position, m.step), ..m }
        } else {
            m
        },
    }
}

/// Which device calls one command causes. A `Play` over a live stream halts
/// and releases it before the new stream starts; invalid transitions cause no
/// device call at all.
pub open spec fn emitted(m: ControllerModel, c: CommandModel) -> Seq<DeviceAction> {
    match c {
        CommandModel::Play { .. } => if engaged(m.state) {
            seq![
                DeviceAction::StopRelease { session: m.session },
                DeviceAction::Start { session: m.next_session },
            ]
        } else {
            seq![DeviceAction::Start { session: m.next_session }]
        },
        CommandModel::Pause => if m.state is Playing {
            seq![DeviceAction::PauseOutput { session: m.session, position: m.position }]
        } else {
            seq![]
        },
        CommandModel::Resume => if m.state is Paused {
            seq![DeviceAction::ResumeOutput { session: m.session, position: m.position }]
        } else {
            seq![]
        },
        CommandModel::Stop => if engaged(m.state) {
            seq![DeviceAction::StopRelease { session: m.session }]
        } else {
            seq![]
        },
        CommandModel::FastForward => if engaged(m.state) {
            seq![
                DeviceAction::Seek {
                    session: m.session,
                    position: advanced(m.position, m.step),
                },
            ]
        } else {
            seq![]
        },
    }
}

/// What the controller's own completion event does: when the stream whose
/// session number matches finishes rendering, the device is released and the
/// state returns to `Idle` with no explicit command. A completion for a
/// pre-empted or already stopped stream is stale and does nothing.
pub open spec fn completion_transition(m: ControllerModel, session: u64) -> ControllerModel {
    if m.state is Playing && m.session == session {
        ControllerModel { state: PlaybackState::Idle, position: 0, current: None, ..m }
    } else {
        m
    }
}

/// The device call a completion event causes.
pub open spec fn completion_emitted(m: ControllerModel, session: u64) -> Seq<DeviceAction> {
    if m.state is Playing && m.session == session {
        seq![DeviceAction::StopRelease { session }]
    } else {
        seq![]
    }
}

/// The controller after a whole command sequence.
pub open spec fn run(m: ControllerModel, cmds: Seq<CommandModel>) -> ControllerModel
    decreases cmds.len(),
{
    if cmds.len() == 0 {
        m
    } else {
        run(transition(m, cmds[0]), cmds.drop_first())
    }
}

/// Every device call a whole command sequence causes, in order.
pub open spec fn run_trace(m: ControllerModel, cmds: Seq<CommandModel>) -> Seq<DeviceAction>
    decreases cmds.len(),
{
    if cmds.len() == 0 {
        seq![]
    } else {
        emitted(m, cmds[0]) + run_trace(transition(m, cmds[0]), cmds.drop_first())
    }
}

/// Whether the device holds a loaded stream after these calls, given whether
/// it held one before: `Start` loads the device, `StopRelease` frees it, and
/// no other call changes that.
pub open spec fn device_engaged_after(engaged0: bool, t: Seq<DeviceAction>) -> bool
    decreases t.len(),
{
    if t.len() == 0 {
        engaged0
    } else {
        let next = match t[0] {
            DeviceAction::Start { .. } => true,
            DeviceAction::StopRelease { .. } => false,
            _ => engaged0,
        };
        device_engaged_after(next, t.drop_first())
    }
}

/// No two streams ever render concurrently: the device is never started
/// while it already holds a stream that was not first released.
pub open spec fn single_stream(engaged0: bool, t: Seq<DeviceAction>) -> bool
    decreases t.len(),
{
    if t.len() == 0 {
        true
    } else {
        let next = match t[0] {
            DeviceAction::Start { .. } => true,
            DeviceAction::StopRelease { .. } => false,
            _ => engaged0,
        };
        &&& (t[0] is Start ==> !engaged0)
        &&& single_stream(next, t.drop_first())
    }
}

/// Occupancy tracking splits over concatenation.
pub proof fn lemma_device_engaged_after_concat(engaged0: bool, a: Seq<DeviceAction>, b: Seq<
    DeviceAction,
>)
    ensures
        device_engaged_after(engaged0, a + b) == device_engaged_after(
            device_engaged_after(engaged0, a),
            b,
        ),
    decreases a.len(),
{
    if a.len() == 0 {
        assert(a + b =~= b);
    } else {
        let next = match a[0] {
            DeviceAction::Start { .. } => true,
            DeviceAction::StopRelease { .. } => false,
            _ => engaged0,
        };
        assert((a + b).drop_first() =~= a.drop_first() + b);
        lemma_device_engaged_after_concat(next, a.drop_first(), b);
    }
}

/// Stream exclusivity splits over concatenation.
pub proof fn lemma_single_stream_concat(engaged0: bool, a: Seq<DeviceAction>, b: Seq<DeviceAction>)
    ensures
        single_stream(engaged0, a + b) == (single_stream(engaged0, a) && single_stream(
            device_engaged_after(engaged0, a),
            b,
        )),
    decreases a.len(),
{
    if a.len() == 0 {
        assert(a + b =~= b);
    } else {
        let next = match a[0] {
            DeviceAction::Start { .. } => true,
            DeviceAction::StopRelease { .. } => false,
            _ => engaged0,
        };
        assert((a + b).drop_first() =~= a.drop_first() + b);
        lemma_single_stream_concat(next, a.drop_first(), b);
    }
}

/// One command's device calls never start a second concurrent stream, and
/// they leave the device loaded exactly when the new state says a stream is
/// live.
pub proof fn lemma_transition_single_stream(m: ControllerModel, c: CommandModel)
    requires
        wf(m),
    ensures
        single_stream(engaged(m.state), emitted(m, c)),
        device_engaged_after(engaged(m.state), emitted(m, c)) == engaged(transition(m, c).state),
        wf(transition(m, c)),
{
    reveal_with_fuel(single_stream, 3);
    reveal_with_fuel(device_engaged_after, 3);
    let t = emitted(m, c);
    match c {
        CommandModel::Play { .. } => {
            if engaged(m.state) {
                assert(t.drop_first() =~= seq![
                    DeviceAction::Start { session: m.next_session },
                ]);
                assert(t.drop_first().drop_first() =~= Seq::<DeviceAction>::empty());
            } else {
                assert(t.drop_first() =~= Seq::<DeviceAction>::empty());
            }
        },
        _ => {
            if t.len() > 0 {
                assert(t.drop_first() =~= Seq::<DeviceAction>::empty());
            }
        },
    }
}

/// A completion event's device call never starts a stream, and it leaves the
/// device loaded exactly when the new state says a stream is live.
pub proof fn lemma_completion_single_stream(m: ControllerModel, session: u64)
    requires
        wf(m),
    ensures
        single_stream(engaged(m.state), completion_emitted(m, session)),
        device_engaged_after(engaged(m.state), completion_emitted(m, session)) == engaged(
            completion_transition(m, session).state,
        ),
        wf(completion_transition(m, session)),
{
    reveal_with_fuel(single_stream, 2);
    reveal_with_fuel(device_engaged_after, 2);
    let t = completion_emitted(m, session);
    if t.len() > 0 {
        assert(t.drop_first() =~= Seq::<DeviceAction>::empty());
    }
}

/// The state after any command sequence is exactly what the bare transition
/// table gives, and well-formedness is never lost: no invalid state is ever
/// reachable.
pub proof fn lemma_run_follows_table(m: ControllerModel, cmds: Seq<CommandModel>)
    requires
        wf(m),
    ensures
        run(m, cmds).state == table_run(m.state, cmds),
        wf(run(m, cmds)),
    decreases cmds.len(),
{
    if cmds.len() > 0 {
        lemma_transition_single_stream(m, cmds[0]);
        lemma_run_follows_table(transition(m, cmds[0]), cmds.drop_first());
    }
}

/// `Stop` reaches `Idle` from every state and is idempotent: a second `Stop`
/// changes nothing and causes no device call.
pub proof fn lemma_stop_idempotent(m: ControllerModel)
    ensures
        transition(m, CommandModel::Stop).state is Idle,
        transition(transition(m, CommandModel::Stop), CommandModel::Stop) == transition(
            m,
            CommandModel::Stop,
        ),
        emitted(transition(m, CommandModel::Stop), CommandModel::Stop) =~= Seq::<
            DeviceAction,
        >::empty(),
{
    assert(transition(transition(m, CommandModel::Stop), CommandModel::Stop) =~= transition(
        m,
        CommandModel::Stop,
    ));
}

/// `Pause` then `Resume` restores playback exactly where it was: the
/// controller returns to its pre-pause value, and the device is told to
/// resume at the frozen position, not at the start.
pub proof fn lemma_pause_resume_preserves_position(m: ControllerModel)
    requires
        wf(m),
        m.state is Playing,
    ensures
        transition(transition(m, CommandModel::Pause), CommandModel::Resume) == m,
        emitted(transition(m, CommandModel::Pause), CommandModel::Resume) =~= seq![
            DeviceAction::ResumeOutput { session: m.session, position: m.position },
        ],
{
    assert(transition(transition(m, CommandModel::Pause), CommandModel::Resume) =~= m);
}

/// Pre-emption is safe over any whole command sequence: the device calls a
/// run causes never render two streams concurrently, and afterwards the
/// device holds a stream exactly when the final state says one is live.
pub proof fn lemma_no_overlapping_streams(m: ControllerModel, cmds: Seq<CommandModel>)
    requires
        wf(m),
    ensures
        single_stream(engaged(m.state), run_trace(m, cmds)),
        device_engaged_after(engaged(m.state), run_trace(m, cmds)) == engaged(run(m, cmds).state),
    decreases cmds.len(),
{
    if cmds.len() == 0 {
    } else {
        let m1 = transition(m, cmds[0]);
        let first = emitted(m, cmds[0]);
        let rest = run_trace(m1, cmds.drop_first());
        lemma_transition_single_stream(m, cmds[0]);
        lemma_no_overlapping_streams(m1, cmds.drop_first());
        lemma_single_stream_concat(engaged(m.state), first, rest);
        lemma_device_engaged_after_concat(engaged(m.state), first, rest);
    }
}

/// The views of a sequence of owned commands.
pub open spec fn command_views(cmds: Seq<PlaybackCommand>) -> Seq<CommandModel> {
    cmds.map(|i: int, c: PlaybackCommand| c@)
}

/// The single authoritative owner of playback state. All mutation happens
/// through `handle_command`, `handle_render_complete` and
/// `handle_device_failure`, whose contracts are exactly the `transition`,
/// `completion_transition` and `emitted` functions above.
pub struct PlaybackController {
    state: PlaybackState,
    position: u64,
    session: u64,
    next_session: u64,
    current: Option<Vec<u8>>,
    step: u64,
}

impl View for PlaybackController {
    type V = ControllerModel;

    closed spec fn view(&self) -> ControllerModel {
        ControllerModel {
            state: self.state,
            position: self.position,
            session: self.session,
            next_session: self.next_session,
            current: match self.current {
                Some(a) => Some(a@),
                None => None,
            },
            step: self.step,
        }
    }
}

impl PlaybackController {
    /// A fresh controller: idle, no stream loaded, with the given
    /// fast-forward step.
    pub fn new(step: u64) -> (c: PlaybackController)
        ensures
            c@ == (ControllerModel {
                state: PlaybackState::Idle,
                position: 0,
                session: 0,
                next_session: 0,
                current: None,
                step,
            }),
            wf(c@),
    {
        PlaybackController {
            state: PlaybackState::Idle,
            position: 0,
            session: 0,
            next_session: 0,
            current: None,
            step,
        }
    }

    /// The current playback state.
    pub fn state(&self) -> (s: PlaybackState)
        ensures
            s == self@.state,
    {
        self.state
    }

    /// The playback offset of the loaded stream.
    pub fn position(&self) -> (p: u64)
        ensures
            p == self@.position,
    {
        self.position
    }

    /// Whether a stream is loaded in the device.
    fn engaged_now(&self) -> (b: bool)
        ensures
            b == engaged(self@.state),
    {
        self.state == PlaybackState::Playing || self.state == PlaybackState::Paused
    }

    /// Consumes one command: the state changes exactly as `transition` says,
    /// and the returned device calls are exactly what `emitted` says.
    pub fn handle_command(&mut self, cmd: PlaybackCommand) -> (acts: Vec<DeviceAction>)
        requires
            wf(old(self)@),
        ensures
            final(self)@ == transition(old(self)@, cmd@),
            acts@ =~= emitted(old(self)@, cmd@),
            wf(final(self)@),
    {
        let mut acts: Vec<DeviceAction> = Vec::new();
        match cmd {
            PlaybackCommand::Play { audio } => {
                if self.engaged_now() {
                    acts.push(DeviceAction::StopRelease { session: self.session });
                }
                self.session = self.next_session;
                if self.next_session < u64::MAX {
                    self.next_session = self.next_session + 1;
                }
                self.state = PlaybackState::Playing;
                self.position = 0;
                self.current = Some(audio);
                acts.push(DeviceAction::Start { session: self.session });
            },
            PlaybackCommand::Pause => {
                if self.state == PlaybackState::Playing {
                    self.state = PlaybackState::Paused;
                    acts.push(
                        DeviceAction::PauseOutput { session: self.session, position: self.position },
                    );
                }
            },
            PlaybackCommand::Resume => {
                if self.state == PlaybackState::Paused {
                    self.state = PlaybackState::Playing;
                    acts.push(
                        DeviceAction::ResumeOutput {
                            session: self.session,
                            position: self.position,
                        },
                    );
                }
            },
            PlaybackCommand::Stop => {
                if self.engaged_now() {
                    acts.push(DeviceAction::StopRelease { session: self.session });
                }
                self.state = PlaybackState::Idle;
                self.position = 0;
                self.current = None;
            },
            PlaybackCommand::FastForward => {
                if self.engaged_now() {
                    let room: u64 = u64::MAX - self.position;
                    if self.step <= room {
                        self.position = self.position + self.step;
                    } else {
                        self.position = u64::MAX;
                    }
                    acts.push(DeviceAction::Seek { session: self.session, position: self.position });
                }
            },
        }
        acts
    }

    /// Consumes the controller's own completion event for a finished stream:
    /// a matching completion releases the device and returns the state to
    /// `Idle`; a stale one is ignored.
    pub fn handle_render_complete(&mut self, session: u64) -> (acts: Vec<DeviceAction>)
        requires
            wf(old(self)@),
        ensures
            final(self)@ == completion_transition(old(self)@, session),
            acts@ =~= completion_emitted(old(self)@, session),
            wf(final(self)@),
    {
        let mut acts: Vec<DeviceAction> = Vec::new();
        if self.state == PlaybackState::Playing && self.session == session {
            self.state = PlaybackState::Idle;
            self.position = 0;
            self.current = None;
            acts.push(DeviceAction::StopRelease { session });
        }
        acts
    }

    /// A device-level rendering failure is handled exactly as a `Stop`: the
    /// device is released and the state is forced back to `Idle`, so the
    /// machine is never stuck in `Playing` with no live audio.
    pub fn handle_device_failure(&mut self) -> (acts: Vec<DeviceAction>)
        requires
            wf(old(self)@),
        ensures
            final(self)@ == transition(old(self)@, CommandModel::Stop),
            acts@ =~= emitted(old(self)@, CommandModel::Stop),
            wf(final(self)@),
    {
        self.handle_command(PlaybackCommand::Stop)
    }

    /// Consumes a whole command sequence in order, returning every device
    /// call made, in order.
    pub fn run_commands(&mut self, cmds: Vec<PlaybackCommand>) -> (acts: Vec<DeviceAction>)
        requires
            wf(old(self)@),
        ensures
            final(self)@ == run(old(self)@, command_views(cmds@)),
            acts@ =~= run_trace(old(self)@, command_views(cmds@)),
            wf(final(self)@),
    {
        let ghost all = command_views(cmds@);
        let ghost m0 = self@;
        let mut rest = cmds;
        let mut acts: Vec<DeviceAction> = Vec::new();
        while rest.len() > 0
            invariant
                wf(self@),
                run(m0, all) == run(self@, command_views(rest@)),
                run_trace(m0, all) =~= acts@ + run_trace(self@, command_views(rest@)),
            decreases rest.len(),
        {
            let ghost pending = command_views(rest@);
            let cmd = rest.remove(0);
            proof {
                assert(command_views(rest@) =~= pending.drop_first());
            }
            let mut step_acts = self.handle_command(cmd);
            acts.append(&mut step_acts);
        }
        proof {
            assert(command_views(rest@) =~= Seq::<CommandModel>::empty());
        }
        acts
    }
}

} // verus!
