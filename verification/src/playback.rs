//! The playback state machine: which station plays, which player process is
//! tracked, and what has to be done to the outside world on each event.
//!
//! Nothing here touches a process. An event comes in, the next state and a
//! list of actions come out; whoever runs the actions reports a started or
//! failed player back as a further event.

use crate::text::decimal;
use crate::text::decimal_string;
use vstd::arithmetic::div_mod::lemma_add_mod_noop_right;
use vstd::prelude::*;

verus! {

/// Something to tell the user.
#[derive(Clone, Copy, Debug, PartialEq, Eq)]
pub enum Diagnostic {
    /// A station was asked for at an index that the catalog does not have.
    NoStation(usize),
    /// The player for the station at this index could not be started.
    PlayerFailed(usize),
}

/// What the caller has to do, in the order given.
#[derive(Clone, Copy, Debug, PartialEq, Eq)]
pub enum Action {
    /// Tell whatever player is running to stop. Harmless when none is.
    SignalStop,
    /// Start a player on the station at this index, then report
    /// `Event::PlayerStarted` or `Event::PlayerFailed`.
    StartPlayer(usize),
    /// Wait for this process to exit and let go of its handle.
    Reap(u32),
    /// Let go of this process's handle without waiting for it.
    Release(u32),
    /// Show this diagnostic.
    Report(Diagnostic),
    /// Leave the program with a success status.
    Exit,
}

/// What can happen to the controller.
#[derive(Clone, Copy, Debug, PartialEq, Eq)]
pub enum Event {
    /// The user picked the station at this index.
    Select(usize),
    /// The user asked for the station after the current one.
    Next,
    /// The user asked for silence.
    Stop,
    /// The user asked to leave.
    Quit,
    /// A player asked for by `Action::StartPlayer` runs as this process.
    PlayerStarted(u32),
    /// A player asked for by `Action::StartPlayer` could not be started.
    PlayerFailed,
}

/// The controller's whole mutable state.
#[derive(Clone, Copy, Debug, PartialEq, Eq)]
pub struct PlaybackState {
    /// The station that plays, if any.
    pub current: Option<usize>,
    /// The station whose player has been asked for and not yet reported.
    pub pending: Option<usize>,
    /// The one player process whose handle is held.
    pub process: Option<u32>,
    /// Set by `Event::Quit`, never cleared.
    pub terminated: bool,
}

/// The text of a diagnostic.
pub open spec fn diagnostic_text(diagnostic: Diagnostic) -> Seq<char> {
    match diagnostic {
        Diagnostic::NoStation(idx) => "Error: no station at index "@ + decimal(idx as nat),
        Diagnostic::PlayerFailed(_) => "Error: unable to run mpv"@,
    }
}

impl Diagnostic {
    /// The line to show for this diagnostic.
    pub fn message(&self) -> (r: String)
        ensures
            r@ == diagnostic_text(*self),
    {
        match self {
            Diagnostic::NoStation(idx) => {
                let mut r = String::from_str("Error: no station at index ");
                let number = decimal_string(*idx);
                r.append(number.as_str());
                r
            },
            Diagnostic::PlayerFailed(_) => String::from_str("Error: unable to run mpv"),
        }
    }
}

/// The state before anything has happened.
pub open spec fn initial_state() -> PlaybackState {
    PlaybackState { current: None, pending: None, process: None, terminated: false }
}

/// A state is well formed for a catalog of `len` stations when a station is
/// only claimed to play while a process is held for it, no station plays
/// while another is being handed over to, and nothing is left after quitting.
pub open spec fn well_formed(len: usize, s: PlaybackState) -> bool {
    &&& s.current matches Some(i) ==> i < len && s.process is Some
    &&& s.pending matches Some(j) ==> j < len && s.current is None
    &&& s.terminated ==> s.current is None && s.pending is None && s.process is None
}

/// The station that follows `current`: the first one when nothing plays, the
/// first one again after the last.
pub open spec fn next_target(len: usize, current: Option<usize>) -> usize {
    match current {
        Some(i) => if len > 0 {
            ((i + 1) % (len as int)) as usize
        } else {
            0
        },
        None => 0,
    }
}

/// The state after asking for the station at `idx`.
pub open spec fn select_state(len: usize, s: PlaybackState, idx: usize) -> PlaybackState {
    PlaybackState {
        current: None,
        pending: if idx < len {
            Some(idx)
        } else {
            None
        },
        process: s.process,
        terminated: s.terminated,
    }
}

/// What asking for the station at `idx` demands.
pub open spec fn select_actions(len: usize, idx: usize) -> Seq<Action> {
    if idx < len {
        seq![Action::SignalStop, Action::StartPlayer(idx)]
    } else {
        seq![Action::SignalStop, Action::Report(Diagnostic::NoStation(idx))]
    }
}

/// What gives up the handle in `held`, unless that is the one to `keep`:
/// waiting for the process to exit where `wait` is set, without waiting
/// where it is not.
pub open spec fn hand_back(held: Option<u32>, keep: Option<u32>, wait: bool) -> Seq<Action> {
    match held {
        Some(p) if keep != Some(p) => if wait {
            seq![Action::Reap(p)]
        } else {
            seq![Action::Release(p)]
        },
        _ => seq![],
    }
}

/// The state that `event` leads to from `s`, over a catalog of `len` stations.
pub open spec fn step_state(len: usize, s: PlaybackState, event: Event) -> PlaybackState {
    if s.terminated {
        s
    } else {
        match event {
            Event::Select(idx) => select_state(len, s, idx),
            Event::Next => select_state(len, s, next_target(len, s.current)),
            Event::Stop => PlaybackState {
                current: None,
                pending: None,
                process: None,
                terminated: false,
            },
            Event::Quit => PlaybackState {
                current: None,
                pending: None,
                process: None,
                terminated: true,
            },
            Event::PlayerStarted(p) => PlaybackState {
                current: s.pending,
                pending: None,
                process: Some(p),
                terminated: false,
            },
            Event::PlayerFailed => PlaybackState {
                current: s.current,
                pending: None,
                process: s.process,
                terminated: false,
            },
        }
    }
}

/// What `event` demands in state `s`, over a catalog of `len` stations.
pub open spec fn step_actions(len: usize, s: PlaybackState, event: Event) -> Seq<Action> {
    if s.terminated {
        seq![]
    } else {
        match event {
            Event::Select(idx) => select_actions(len, idx),
            Event::Next => select_actions(len, next_target(len, s.current)),
            Event::Stop => seq![Action::SignalStop] + hand_back(s.process, None, false),
            Event::Quit => seq![Action::SignalStop] + hand_back(s.process, None, false)
                + seq![Action::Exit],
            Event::PlayerStarted(p) => (if s.pending is Some {
                seq![]
            } else {
                seq![Action::SignalStop]
            }) + hand_back(s.process, Some(p), true),
            Event::PlayerFailed => match s.pending {
                Some(idx) => seq![Action::Report(Diagnostic::PlayerFailed(idx))],
                None => seq![],
            },
        }
    }
}

impl PlaybackState {
    /// The state before anything has happened.
    pub fn new() -> (s: PlaybackState)
        ensures
            s == initial_state(),
    {
        PlaybackState { current: None, pending: None, process: None, terminated: false }
    }
}

/// One transition: the next state and the actions owed for it.
pub fn step(len: usize, s: PlaybackState, event: Event) -> (r: (PlaybackState, Vec<Action>))
    ensures
        r.0 == step_state(len, s, event),
        r.1@ == step_actions(len, s, event),
        well_formed(len, s) ==> well_formed(len, r.0),
{
    let mut actions: Vec<Action> = Vec::new();
    if s.terminated {
        return (s, actions);
    }
    match event {
        Event::Select(idx) => select(len, s, idx),
        Event::Next => {
            let target: usize = match s.current {
                Some(i) => if len > 0 {
                    proof {
                        lemma_add_mod_noop_right(1, i as int, len as int);
                    }
                    (i % len + 1) % len
                } else {
                    0
                },
                None => 0,
            };
            select(len, s, target)
        },
        Event::Stop => {
            actions.push(Action::SignalStop);
            if let Some(p) = s.process {
                actions.push(Action::Release(p));
            }
            (PlaybackState::new(), actions)
        },
        Event::Quit => {
            actions.push(Action::SignalStop);
            if let Some(p) = s.process {
                actions.push(Action::Release(p));
            }
            actions.push(Action::Exit);
            let gone =
                PlaybackState { current: None, pending: None, process: None, terminated: true };
            (gone, actions)
        },
        Event::PlayerStarted(p) => {
            if s.pending.is_none() {
                actions.push(Action::SignalStop);
            }
            if let Some(old) = s.process {
                if old != p {
                    actions.push(Action::Reap(old));
                }
            }
            let next = PlaybackState {
                current: s.pending,
                pending: None,
                process: Some(p),
                terminated: false,
            };
            (next, actions)
        },
        Event::PlayerFailed => {
            if let Some(idx) = s.pending {
                actions.push(Action::Report(Diagnostic::PlayerFailed(idx)));
            }
            let next = PlaybackState {
                current: s.current,
                pending: None,
                process: s.process,
                terminated: false,
            };
            (next, actions)
        },
    }
}

fn select(len: usize, s: PlaybackState, idx: usize) -> (r: (PlaybackState, Vec<Action>))
    requires
        !s.terminated,
    ensures
        r.0 == select_state(len, s, idx),
        r.1@ == select_actions(len, idx),
{
    let mut actions: Vec<Action> = Vec::new();
    actions.push(Action::SignalStop);
    let pending: Option<usize> = if idx < len {
        actions.push(Action::StartPlayer(idx));
        Some(idx)
    } else {
        actions.push(Action::Report(Diagnostic::NoStation(idx)));
        None
    };
    (PlaybackState { current: None, pending, process: s.process, terminated: false }, actions)
}

} // verus!
