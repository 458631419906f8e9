//! The event pipeline's decisions: what each wakeup of the multiplexed
//! loop writes to the journal, and when the loop stops.
//!
//! The loop itself waits on the compositor stream, the liveness timer, the
//! four signal streams and the interrupt; each wakeup is handed here as a
//! [`PipelineInput`] and the resulting [`PipelineAction`] is one journal
//! write or the shutdown of the loop.

use crate::events::Event;
use crate::events::Focused;
use crate::reply::Container;
use crate::reply::WindowEvent;
use vstd::prelude::*;
use vstd::string::StringExecFns;

verus! {

/// The application identifier a window event resolves to, before the
/// fallback literal: the container's `app_id`, else the X11 `instance`,
/// else the X11 `class`.
pub open spec fn norm_id(c: Container) -> Option<Seq<char>> {
    match c.app_id {
        Some(a) => Some(a@),
        None => match c.window_properties {
            None => None,
            Some(p) => match p.instance {
                Some(i) => Some(i@),
                None => match p.class {
                    Some(cl) => Some(cl@),
                    None => None,
                },
            },
        },
    }
}

/// The title a window event resolves to, before the fallback literal: the
/// container's `name`, else the resolved identifier.
pub open spec fn norm_title(c: Container) -> Option<Seq<char>> {
    match c.name {
        Some(n) => Some(n@),
        None => norm_id(c),
    }
}

/// The process id a window event resolves to: the container's `pid`, else 0.
pub open spec fn norm_pid(c: Container) -> int {
    match c.pid {
        Some(p) => p as int,
        None => 0,
    }
}

/// Normalizes a window event into the identity the journal records, with
/// the documented fallbacks for a missing identifier or title.
pub fn normalize_window(event: WindowEvent) -> (f: Focused)
    ensures
        f.id@ == match norm_id(event.container) {
            Some(s) => s,
            None => "app-id-not-found"@,
        },
        f.title@ == match norm_title(event.container) {
            Some(s) => s,
            None => "title-not-found"@,
        },
        f.pid as int == norm_pid(event.container),
{
    let container = event.container;
    let app_id: Option<String> = match container.app_id {
        Some(a) => Some(a),
        None => match container.window_properties {
            None => None,
            Some(props) => match props.instance {
                Some(i) => Some(i),
                None => props.class,
            },
        },
    };
    let title: Option<String> = match container.name {
        Some(n) => Some(n),
        None => match &app_id {
            Some(a) => Some(a.clone()),
            None => None,
        },
    };
    let pid: i32 = match container.pid {
        Some(p) => p,
        None => 0,
    };
    let id_string: String = match app_id {
        Some(a) => a,
        None => String::from_str("app-id-not-found"),
    };
    let title_string: String = match title {
        Some(t) => t,
        None => String::from_str("title-not-found"),
    };
    Focused { title: title_string, id: id_string, pid }
}

/// One wakeup of the multiplexed loop.
pub enum PipelineInput {
    /// The compositor stream yielded a window event.
    Window(Box<WindowEvent>),
    /// The compositor stream yielded an error.
    StreamError,
    /// The compositor stream ended.
    StreamClosed,
    /// The liveness interval ticked.
    AliveTick,
    /// The signal meaning the session was locked or is going to sleep.
    LockSignal,
    /// The signal meaning the session was unlocked or resumed.
    UnlockSignal,
    /// The signal meaning the idle timeout was reached.
    IdleSignal,
    /// The signal meaning activity resumed after idle.
    ActiveSignal,
    /// The process was asked to shut down.
    Interrupt,
}

/// What the loop does with one wakeup.
pub enum PipelineAction {
    /// Stamp the event with the current time and append it to the journal.
    Write(Event),
    /// Cancel the subtasks and leave the loop.
    Shutdown,
}

/// Maps one wakeup to its action: each source writes its event kind; a
/// stream error, the end of the stream and the interrupt all stop the loop.
pub fn pipeline_step(input: PipelineInput) -> (a: PipelineAction)
    ensures
        match input {
            PipelineInput::Window(w) => a matches PipelineAction::Write(e) && (e matches
                Event::Focused(f) && f.id@ == match norm_id(w.container) {
                    Some(s) => s,
                    None => "app-id-not-found"@,
                } && f.title@ == match norm_title(w.container) {
                    Some(s) => s,
                    None => "title-not-found"@,
                } && f.pid as int == norm_pid(w.container)),
            PipelineInput::StreamError => a == PipelineAction::Shutdown,
            PipelineInput::StreamClosed => a == PipelineAction::Shutdown,
            PipelineInput::AliveTick => a == PipelineAction::Write(Event::Alive),
            PipelineInput::LockSignal => a == PipelineAction::Write(Event::Lock),
            PipelineInput::UnlockSignal => a == PipelineAction::Write(Event::Unlock),
            PipelineInput::IdleSignal => a == PipelineAction::Write(Event::Idle),
            PipelineInput::ActiveSignal => a == PipelineAction::Write(Event::Active),
            PipelineInput::Interrupt => a == PipelineAction::Shutdown,
        },
{
    match input {
        PipelineInput::Window(w) => {
            let focused = normalize_window(*w);
            PipelineAction::Write(Event::Focused(Box::new(focused)))
        },
        PipelineInput::StreamError => PipelineAction::Shutdown,
        PipelineInput::StreamClosed => PipelineAction::Shutdown,
        PipelineInput::AliveTick => PipelineAction::Write(Event::Alive),
        PipelineInput::LockSignal => PipelineAction::Write(Event::Lock),
        PipelineInput::UnlockSignal => PipelineAction::Write(Event::Unlock),
        PipelineInput::IdleSignal => PipelineAction::Write(Event::Idle),
        PipelineInput::ActiveSignal => PipelineAction::Write(Event::Active),
        PipelineInput::Interrupt => PipelineAction::Shutdown,
    }
}

} // verus!
