//! The playback orchestrator: a state machine over a single broadcast slot.
//!
//! The orchestrator is driven by one command at a time from an ordered
//! mailbox. It never performs process work itself: each transition returns
//! the list of [`Action`]s the surrounding runtime must carry out, in order —
//! start a broadcast process, stop one, advance the song queue, or report the
//! frequency. The whole transition relation is the specification function
//! [`spec_step`]; `Radio::handle` is proved to follow it exactly, and the
//! laws at the end of this module are proved of it.
//!
//! Frequencies are kept in tenths of a megahertz (`1041` is 104.1 MHz): the
//! hardware needs at most one decimal place, and a whole number of tenths
//! makes the stored value and its rendering exact.

use vstd::prelude::*;

use crate::digits::{digit_char, spec_decimal, u32_decimal};
use crate::song::Song;

verus! {

/// The transmission frequency a fresh orchestrator starts with: 104.1 MHz.
pub const DEFAULT_FREQUENCY_TENTHS: u32 = 1041;

/// How a frequency in tenths of a megahertz is rendered for the transmitter
/// tool: the megahertz part, then — only when the tenths are not zero — a
/// comma (the tool's decimal separator) and the single tenths digit.
pub open spec fn spec_frequency_comma(tenths: nat) -> Seq<char> {
    if tenths % 10 == 0 {
        spec_decimal(tenths / 10)
    } else {
        spec_decimal(tenths / 10) + seq![','] + seq![digit_char((tenths % 10) as int)]
    }
}

/// Renders a frequency for the transmitter tool's command line.
pub fn format_frequency(tenths: u32) -> (s: String)
    ensures
        s@ == spec_frequency_comma(tenths as nat),
{
    let whole = u32_decimal(tenths / 10);
    if tenths % 10 == 0 {
        whole
    } else {
        let mut s = whole;
        s.append(",");
        let tenth = u32_decimal(tenths % 10);
        s.append(tenth.as_str());
        proof {
            reveal_strlit(",");
            assert(s@ =~= spec_frequency_comma(tenths as nat));
        }
        s
    }
}

/// The exact command line for one broadcast: a wall-clock timeout bounding
/// the process by the song's duration, the elevation prefix the transmitter
/// hardware requires, the transmitter script, the frequency with the tool's
/// comma separator, and the song's audio file.
pub open spec fn spec_broadcast_argv(
    script_path: Seq<char>,
    frequency_tenths: nat,
    duration: nat,
    audio_path: Seq<char>,
) -> Seq<Seq<char>> {
    seq![
        "timeout"@,
        spec_decimal(duration),
        "sudo"@,
        script_path,
        "--freq"@,
        spec_frequency_comma(frequency_tenths),
        "--audio"@,
        audio_path,
    ]
}

/// Builds the command line for broadcasting `song` at `frequency_tenths`.
pub fn broadcast_argv(script_path: &String, frequency_tenths: u32, song: &Song) -> (argv: Vec<
    String,
>)
    requires
        song.wf(),
    ensures
        argv.deep_view() == spec_broadcast_argv(
            script_path@,
            frequency_tenths as nat,
            song.duration as nat,
            song.path@,
        ),
{
    let mut argv: Vec<String> = Vec::new();
    argv.push(String::from_str("timeout"));
    argv.push(u32_decimal(song.duration as u32));
    argv.push(String::from_str("sudo"));
    argv.push(script_path.clone());
    argv.push(String::from_str("--freq"));
    argv.push(format_frequency(frequency_tenths));
    argv.push(String::from_str("--audio"));
    argv.push(song.path.clone());
    proof {
        assert(argv.deep_view() =~~= spec_broadcast_argv(
            script_path@,
            frequency_tenths as nat,
            song.duration as nat,
            song.path@,
        ));
    }
    argv
}

/// Ask the orchestrator to play one song.
pub struct PlaySong {
    pub song: Song,
}

/// Ask the orchestrator to stop the current song, if any.
pub struct SkipSong {}

/// Replace the stored transmission frequency, in tenths of a megahertz;
/// takes effect on the next song.
pub struct SetFrequency {
    pub frequency: u32,
}

/// Ask for the stored transmission frequency.
pub struct GetFrequency {}

/// The advance notification sent to the song queue: begin the next queued
/// song, if any.
pub struct NextSong {}

/// One command from the orchestrator's mailbox. Control messages come from
/// callers; `Completed` and `SpawnFailed` are the broadcast task's own
/// events, tagged with the task they speak of so a stale event — one for a
/// task that is no longer active — can be recognized and ignored.
pub enum Command {
    PlaySong(PlaySong),
    SkipSong(SkipSong),
    SetFrequency(SetFrequency),
    GetFrequency(GetFrequency),
    Completed { task: u64 },
    SpawnFailed { task: u64 },
}

/// One instruction to the surrounding runtime, to be carried out in order.
/// `StartBroadcast` carries the full command line for the transmitter
/// process; `StopBroadcast` must terminate the named task's process before
/// anything later runs; `Advance` is delivered to the song queue.
#[derive(Debug, PartialEq, Eq)]
pub enum Action {
    StartBroadcast { task: u64, frequency_tenths: u32, argv: Vec<String> },
    StopBroadcast { task: u64 },
    Advance,
    Frequency { frequency_tenths: u32 },
}

/// The abstract label of an action: what it does to the world, without the
/// command-line payload. The transition relation is stated over these.
pub enum Effect {
    Start(u64, u32),
    Stop(u64),
    Advance,
    Frequency(u32),
}

/// The label of one action.
pub open spec fn effect_of(a: Action) -> Effect {
    match a {
        Action::StartBroadcast { task, frequency_tenths, argv } => Effect::Start(
            task,
            frequency_tenths,
        ),
        Action::StopBroadcast { task } => Effect::Stop(task),
        Action::Advance => Effect::Advance,
        Action::Frequency { frequency_tenths } => Effect::Frequency(frequency_tenths),
    }
}

/// The labels of a list of actions, in order.
pub open spec fn effects_of(acts: Seq<Action>) -> Seq<Effect> {
    acts.map_values(|a: Action| effect_of(a))
}

/// How many advance notifications a list of effects delivers.
pub open spec fn advance_count(es: Seq<Effect>) -> nat
    decreases es.len(),
{
    if es.len() == 0 {
        0
    } else {
        advance_count(es.drop_last()) + (if es.last() is Advance {
            1nat
        } else {
            0nat
        })
    }
}

/// Struct responsible for playing songs via the external transmitter tool.
///
/// `command_handle` is the identity of the one active broadcast task;
/// `next_handle` is the identity the next task will get, so no two tasks ever
/// share one. The well-formedness invariant ties `command_handle` to
/// `playing`: a handle is held exactly while a song plays.
pub struct Radio {
    pub script_path: String,
    pub command_handle: Option<u64>,
    pub next_handle: u64,
    pub frequency: u32,
    pub playing: bool,
}

impl Radio {
    /// The single-slot invariant: a broadcast task is held iff a song plays.
    pub open spec fn wf(self) -> bool {
        self.playing <==> self.command_handle is Some
    }

    /// A fresh orchestrator: idle, at the default frequency, owning the
    /// resolved path of the transmitter script. The script path must be
    /// validated (the script exists) before construction; absence is a fatal
    /// configuration error, not a per-song one.
    pub fn new(script_path: String) -> (radio: Radio)
        ensures
            radio.wf(),
            radio.script_path == script_path,
            radio.command_handle is None,
            radio.next_handle == 0,
            radio.frequency == DEFAULT_FREQUENCY_TENTHS,
            !radio.playing,
    {
        Radio {
            script_path,
            command_handle: None,
            next_handle: 0,
            frequency: DEFAULT_FREQUENCY_TENTHS,
            playing: false,
        }
    }

    /// The stored transmission frequency, in tenths of a megahertz.
    pub fn get_frequency(&self) -> (r: u32)
        ensures
            r == self.frequency,
    {
        self.frequency
    }

    /// Whether a broadcast task is active.
    pub fn is_playing(&self) -> (r: bool)
        ensures
            r == self.playing,
    {
        self.playing
    }
}

/// `r` with the active task cleared: the single cleanup state every path —
/// natural completion, skip, spawn failure — converges on.
pub open spec fn spec_cleared(r: Radio) -> Radio {
    Radio {
        script_path: r.script_path,
        command_handle: None,
        next_handle: r.next_handle,
        frequency: r.frequency,
        playing: false,
    }
}

/// `r` with a fresh task made active.
pub open spec fn spec_started(r: Radio) -> Radio {
    Radio {
        script_path: r.script_path,
        command_handle: Some(r.next_handle),
        next_handle: (r.next_handle + 1) as u64,
        frequency: r.frequency,
        playing: true,
    }
}

/// The orchestrator's whole transition relation: from a state and one
/// command to the next state and the effects delivered, in order.
///
/// - `PlaySong` makes a fresh task active and starts it at the stored
///   frequency; if a task was still active it is stopped first, so two
///   broadcasts never overlap.
/// - `SkipSong` with a task active stops it and advances the queue; with
///   nothing active it is a no-op — not an error, and no notification.
/// - `SetFrequency` only replaces the stored frequency: the active task,
///   already launched with its own command line, is untouched.
/// - `GetFrequency` reports the stored frequency and mutates nothing.
/// - `Completed` and `SpawnFailed` clear the active task and advance the
///   queue — but only when they name the active task; a stale event, one
///   whose task is no longer active, is silently discarded.
pub open spec fn spec_step(r: Radio, c: Command) -> (Radio, Seq<Effect>) {
    match c {
        Command::PlaySong(m) => if r.playing {
            (
                spec_started(r),
                seq![
                    Effect::Stop(r.command_handle->0),
                    Effect::Start(r.next_handle, r.frequency),
                ],
            )
        } else {
            (spec_started(r), seq![Effect::Start(r.next_handle, r.frequency)])
        },
        Command::SkipSong(m) => if r.playing {
            (spec_cleared(r), seq![Effect::Stop(r.command_handle->0), Effect::Advance])
        } else {
            (r, Seq::empty())
        },
        Command::SetFrequency(m) => (
            Radio {
                script_path: r.script_path,
                command_handle: r.command_handle,
                next_handle: r.next_handle,
                frequency: m.frequency,
                playing: r.playing,
            },
            Seq::empty(),
        ),
        Command::GetFrequency(m) => (r, seq![Effect::Frequency(r.frequency)]),
        Command::Completed { task } => if r.playing && r.command_handle == Some(task) {
            (spec_cleared(r), seq![Effect::Advance])
        } else {
            (r, Seq::empty())
        },
        Command::SpawnFailed { task } => if r.playing && r.command_handle == Some(task) {
            (spec_cleared(r), seq![Effect::Advance])
        } else {
            (r, Seq::empty())
        },
    }
}

impl Radio {
    /// Processes one command from the mailbox: moves to the next state of
    /// [`spec_step`] and returns the actions to carry out, whose labels are
    /// exactly the step's effects. For a `PlaySong` the one start action
    /// carries the exact transmitter command line, built from the script
    /// path, the stored frequency and the song.
    pub fn handle(&mut self, cmd: Command) -> (acts: Vec<Action>)
        requires
            old(self).wf(),
            cmd matches Command::PlaySong(m) ==> old(self).next_handle < u64::MAX && m.song.wf(),
        ensures
            final(self).wf(),
            *final(self) == spec_step(*old(self), cmd).0,
            effects_of(acts@) == spec_step(*old(self), cmd).1,
            acts@.len() == spec_step(*old(self), cmd).1.len(),
            forall|i: int|
                0 <= i < acts@.len() ==> #[trigger] effect_of(acts@[i]) == spec_step(
                    *old(self),
                    cmd,
                ).1[i],
            cmd matches Command::PlaySong(m) ==> acts@.len() >= 1 && (acts@.last()
                matches Action::StartBroadcast { task, frequency_tenths, argv }
                && argv.deep_view() == spec_broadcast_argv(
                old(self).script_path@,
                old(self).frequency as nat,
                m.song.duration as nat,
                m.song.path@,
            )),
    {
        match cmd {
            Command::PlaySong(m) => {
                let mut acts: Vec<Action> = Vec::new();
                if self.playing {
                    let stale = self.command_handle.unwrap();
                    acts.push(Action::StopBroadcast { task: stale });
                }
                let task = self.next_handle;
                let argv = broadcast_argv(&self.script_path, self.frequency, &m.song);
                self.next_handle = self.next_handle + 1;
                self.command_handle = Some(task);
                self.playing = true;
                acts.push(
                    Action::StartBroadcast { task, frequency_tenths: self.frequency, argv },
                );
                proof {
                    assert(effects_of(acts@) =~= spec_step(*old(self), cmd).1);
                }
                acts
            },
            Command::SkipSong(m) => {
                if self.playing {
                    let stale = self.command_handle.unwrap();
                    self.command_handle = None;
                    self.playing = false;
                    let acts = vec![Action::StopBroadcast { task: stale }, Action::Advance];
                    proof {
                        assert(effects_of(acts@) =~= spec_step(*old(self), cmd).1);
                    }
                    acts
                } else {
                    let acts: Vec<Action> = Vec::new();
                    proof {
                        assert(effects_of(acts@) =~= spec_step(*old(self), cmd).1);
                    }
                    acts
                }
            },
            Command::SetFrequency(m) => {
                self.frequency = m.frequency;
                let acts: Vec<Action> = Vec::new();
                proof {
                    assert(effects_of(acts@) =~= spec_step(*old(self), cmd).1);
                }
                acts
            },
            Command::GetFrequency(m) => {
                let acts = vec![Action::Frequency { frequency_tenths: self.frequency }];
                proof {
                    assert(effects_of(acts@) =~= spec_step(*old(self), cmd).1);
                }
                acts
            },
            Command::Completed { task } => {
                let acts = self.clear_if_active(task);
                proof {
                    assert(effects_of(acts@) =~= spec_step(*old(self), cmd).1);
                }
                acts
            },
            Command::SpawnFailed { task } => {
                let acts = self.clear_if_active(task);
                proof {
                    assert(effects_of(acts@) =~= spec_step(*old(self), cmd).1);
                }
                acts
            },
        }
    }

    /// The one cleanup path: if `task` is the active task, clear the slot
    /// and advance the queue; a stale or unknown task changes nothing.
    fn clear_if_active(&mut self, task: u64) -> (acts: Vec<Action>)
        requires
            old(self).wf(),
        ensures
            final(self).wf(),
            old(self).playing && old(self).command_handle == Some(task) ==> *final(self)
                == spec_cleared(*old(self)) && acts@ =~= seq![Action::Advance],
            !(old(self).playing && old(self).command_handle == Some(task)) ==> *final(self) == *old(
                self,
            ) && acts@ =~= Seq::<Action>::empty(),
    {
        let active = match self.command_handle {
            Some(t) => self.playing && t == task,
            None => false,
        };
        if active {
            self.command_handle = None;
            self.playing = false;
            vec![Action::Advance]
        } else {
            Vec::new()
        }
    }
}

/// `advance_count` of a one-effect list: one when that effect is an advance.
proof fn lemma_advance_count_one(e: Effect)
    ensures
        advance_count(seq![e]) == (if e is Advance {
            1nat
        } else {
            0nat
        }),
{
    reveal_with_fuel(advance_count, 2);
    assert(seq![e].drop_last() =~= Seq::<Effect>::empty());
}

/// `advance_count` of a two-effect list: the advances among the two.
proof fn lemma_advance_count_two(e1: Effect, e2: Effect)
    ensures
        advance_count(seq![e1, e2]) == (if e1 is Advance {
            1nat
        } else {
            0nat
        }) + (if e2 is Advance {
            1nat
        } else {
            0nat
        }),
{
    assert(seq![e1, e2].drop_last() =~= seq![e1]);
    lemma_advance_count_one(e1);
}

/// Every step keeps the single-slot invariant: however the orchestrator is
/// driven, at most one broadcast task is ever held.
pub proof fn lemma_step_preserves_wf(r: Radio, c: Command)
    requires
        r.wf(),
    ensures
        spec_step(r, c).0.wf(),
{
}

/// An idle orchestrator advances the queue for no command at all: with no
/// task active, nothing — a skip, a stale completion, a stale spawn failure,
/// a new song, a frequency operation — delivers an advance notification.
pub proof fn lemma_idle_no_advance(r: Radio, c: Command)
    requires
        r.wf(),
        !r.playing,
    ensures
        advance_count(spec_step(r, c).1) == 0,
{
    match c {
        Command::PlaySong(m) => {
            lemma_advance_count_one(Effect::Start(r.next_handle, r.frequency));
        },
        Command::SkipSong(m) => {
        },
        Command::SetFrequency(m) => {
        },
        Command::GetFrequency(m) => {
            lemma_advance_count_one(Effect::Frequency(r.frequency));
        },
        Command::Completed { task } => {
        },
        Command::SpawnFailed { task } => {
        },
    }
}

/// Starting playback from idle and letting the task run to natural
/// completion delivers exactly one advance notification: none when the song
/// starts, one when its completion event arrives.
pub proof fn lemma_play_to_completion_one_advance(r: Radio, m: PlaySong)
    requires
        r.wf(),
        !r.playing,
    ensures
        ({
            let (r1, e1) = spec_step(r, Command::PlaySong(m));
            let (r2, e2) = spec_step(r1, Command::Completed { task: r1.command_handle->0 });
            &&& advance_count(e1) + advance_count(e2) == 1
            &&& !r2.playing
            &&& r2.command_handle is None
        }),
{
    let (r1, e1) = spec_step(r, Command::PlaySong(m));
    lemma_advance_count_one(Effect::Start(r.next_handle, r.frequency));
    lemma_advance_count_one(Effect::Advance);
}

/// Skipping a playing song delivers exactly one advance notification, and
/// whatever command follows at once — before any natural completion, and in
/// particular the cancelled task's own late completion event — delivers none:
/// a racing completion and skip never advance the queue twice.
pub proof fn lemma_skip_then_anything_one_advance(r: Radio, c: Command)
    requires
        r.wf(),
        r.playing,
    ensures
        ({
            let (r1, e1) = spec_step(r, Command::SkipSong(SkipSong {}));
            &&& advance_count(e1) == 1
            &&& advance_count(spec_step(r1, c).1) == 0
        }),
{
    lemma_advance_count_two(Effect::Stop(r.command_handle->0), Effect::Advance);
    let (r1, e1) = spec_step(r, Command::SkipSong(SkipSong {}));
    lemma_idle_no_advance(r1, c);
}

/// A skip on an idle orchestrator is a complete no-op: the state is
/// unchanged and no notification — in particular no advance — is delivered.
/// Hence a second skip in a row never advances the queue a second time.
pub proof fn lemma_skip_idle_noop(r: Radio)
    requires
        r.wf(),
        !r.playing,
    ensures
        spec_step(r, Command::SkipSong(SkipSong {})).0 == r,
        spec_step(r, Command::SkipSong(SkipSong {})).1 == Seq::<Effect>::empty(),
        advance_count(spec_step(r, Command::SkipSong(SkipSong {})).1) == 0,
{
}

/// Setting the frequency leaves the active task exactly as it was — same
/// task handle, still playing, and no action is issued that could touch its
/// process — while the next song started is started at the new frequency.
pub proof fn lemma_set_frequency_spares_active_task(r: Radio, f: u32, m: PlaySong)
    requires
        r.wf(),
    ensures
        ({
            let (r1, e1) = spec_step(r, Command::SetFrequency(SetFrequency { frequency: f }));
            let (r2, e2) = spec_step(r1, Command::PlaySong(m));
            &&& e1 == Seq::<Effect>::empty()
            &&& r1.command_handle == r.command_handle
            &&& r1.playing == r.playing
            &&& r1.frequency == f
            &&& e2.last() == Effect::Start(r1.next_handle, f)
        }),
{
}

/// Frequency round-trip: after `SetFrequency(f)`, `GetFrequency` reports
/// exactly `f`, and reports it without mutating anything.
pub proof fn lemma_frequency_round_trip(r: Radio, f: u32)
    requires
        r.wf(),
    ensures
        ({
            let r1 = spec_step(r, Command::SetFrequency(SetFrequency { frequency: f })).0;
            let (r2, e2) = spec_step(r1, Command::GetFrequency(GetFrequency {}));
            &&& e2 == seq![Effect::Frequency(f)]
            &&& r2 == r1
        }),
{
}

/// Play, skip, play, back to back: the skip orders the stop of the first
/// task strictly before anything later, the second play starts a task with a
/// fresh handle, and at no point are two tasks held at once. Since the
/// runtime carries actions out in order and a stop terminates the process
/// before returning, the first song's process is gone before the second
/// song's starts.
pub proof fn lemma_play_skip_play_no_overlap(r: Radio, a: PlaySong, b: PlaySong)
    requires
        r.wf(),
        !r.playing,
    ensures
        ({
            let (r1, e1) = spec_step(r, Command::PlaySong(a));
            let task_a = r1.command_handle->0;
            let (r2, e2) = spec_step(r1, Command::SkipSong(SkipSong {}));
            let (r3, e3) = spec_step(r2, Command::PlaySong(b));
            &&& e2.len() == 2 && e2[0] == Effect::Stop(task_a)
            &&& r2.command_handle is None
            &&& e3.len() == 1 && e3[0] is Start
            &&& e3[0]->Start_0 != task_a
            &&& r3.command_handle == Some(e3[0]->Start_0)
        }),
{
    let n = r.next_handle;
    assert(((n + 1) as u64) != n) by (bit_vector);
}

/// A spawn failure for the song just started leaves the orchestrator idle —
/// no task held, nothing playing — and advances the queue exactly once, so
/// playback degrades past the bad song instead of deadlocking on it.
pub proof fn lemma_spawn_failure_recovers(r: Radio, m: PlaySong)
    requires
        r.wf(),
        !r.playing,
    ensures
        ({
            let (r1, e1) = spec_step(r, Command::PlaySong(m));
            let (r2, e2) = spec_step(r1, Command::SpawnFailed { task: r1.command_handle->0 });
            &&& !r2.playing
            &&& r2.command_handle is None
            &&& advance_count(e1) + advance_count(e2) == 1
        }),
{
    let (r1, e1) = spec_step(r, Command::PlaySong(m));
    lemma_advance_count_one(Effect::Start(r.next_handle, r.frequency));
    lemma_advance_count_one(Effect::Advance);
}

} // verus!
