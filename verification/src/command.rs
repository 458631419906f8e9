//! The i3/sway IPC packet-type numbering: command types (0-101) and event
//! types (the low bits of an event frame's packet type).

use vstd::prelude::*;

verus! {

/// A packet-type value that maps to no known command or event type.
#[derive(Clone, Copy, Debug, PartialEq, Eq, Structural)]
pub enum CommandTypeError {
    IncorrectCommandType(u32),
    IncorrectEventType(u32),
}

/// The command types of the IPC protocol.
#[derive(Clone, Copy, Debug, PartialEq, Eq, Structural)]
pub enum CommandType {
    /// Runs the payload as sway commands.
    RunCommand,
    /// Get the list of current workspaces.
    GetWorkspaces,
    /// Subscribe the IPC connection to the events listed in the payload.
    Subscribe,
    /// Get the list of current outputs.
    GetOutputs,
    /// Get the node layout tree.
    GetTree,
    /// Get the names of all the marks currently set.
    GetMarks,
    /// Get the specified bar config or a list of bar config names.
    GetBarConfig,
    /// Get the version of sway that owns the IPC socket.
    GetVersion,
    /// Get the list of binding mode names.
    GetBindingModes,
    /// Returns the config that was last loaded.
    GetConfig,
    /// Sends a tick event with the specified payload.
    SendTick,
    /// Replies failure object for i3 compatibility.
    Sync,
    /// Request the current binding state.
    GetBindingState,
    /// Get the list of input devices.
    GetInputs,
    /// Get the list of seats.
    GetSeats,
}

/// The wire value of each command type.
pub open spec fn command_type_code(c: CommandType) -> u32 {
    match c {
        CommandType::RunCommand => 0,
        CommandType::GetWorkspaces => 1,
        CommandType::Subscribe => 2,
        CommandType::GetOutputs => 3,
        CommandType::GetTree => 4,
        CommandType::GetMarks => 5,
        CommandType::GetBarConfig => 6,
        CommandType::GetVersion => 7,
        CommandType::GetBindingModes => 8,
        CommandType::GetConfig => 9,
        CommandType::SendTick => 10,
        CommandType::Sync => 11,
        CommandType::GetBindingState => 12,
        CommandType::GetInputs => 100,
        CommandType::GetSeats => 101,
    }
}

/// The command type for a wire value, if any.
pub open spec fn command_type_from(n: u32) -> Option<CommandType> {
    if n == 0 {
        Some(CommandType::RunCommand)
    } else if n == 1 {
        Some(CommandType::GetWorkspaces)
    } else if n == 2 {
        Some(CommandType::Subscribe)
    } else if n == 3 {
        Some(CommandType::GetOutputs)
    } else if n == 4 {
        Some(CommandType::GetTree)
    } else if n == 5 {
        Some(CommandType::GetMarks)
    } else if n == 6 {
        Some(CommandType::GetBarConfig)
    } else if n == 7 {
        Some(CommandType::GetVersion)
    } else if n == 8 {
        Some(CommandType::GetBindingModes)
    } else if n == 9 {
        Some(CommandType::GetConfig)
    } else if n == 10 {
        Some(CommandType::SendTick)
    } else if n == 11 {
        Some(CommandType::Sync)
    } else if n == 12 {
        Some(CommandType::GetBindingState)
    } else if n == 100 {
        Some(CommandType::GetInputs)
    } else if n == 101 {
        Some(CommandType::GetSeats)
    } else {
        None
    }
}

impl CommandType {
    /// The wire value of this command type.
    pub fn code(&self) -> (n: u32)
        ensures
            n == command_type_code(*self),
    {
        match self {
            CommandType::RunCommand => 0,
            CommandType::GetWorkspaces => 1,
            CommandType::Subscribe => 2,
            CommandType::GetOutputs => 3,
            CommandType::GetTree => 4,
            CommandType::GetMarks => 5,
            CommandType::GetBarConfig => 6,
            CommandType::GetVersion => 7,
            CommandType::GetBindingModes => 8,
            CommandType::GetConfig => 9,
            CommandType::SendTick => 10,
            CommandType::Sync => 11,
            CommandType::GetBindingState => 12,
            CommandType::GetInputs => 100,
            CommandType::GetSeats => 101,
        }
    }

    /// The command type for a wire value; exactly the unknown values are
    /// rejected.
    pub fn try_from(n: u32) -> (r: Result<CommandType, CommandTypeError>)
        ensures
            match command_type_from(n) {
                Some(c) => r == Ok::<CommandType, CommandTypeError>(c),
                None => r == Err::<CommandType, CommandTypeError>(
                    CommandTypeError::IncorrectCommandType(n),
                ),
            },
    {
        match n {
            0 => Ok(CommandType::RunCommand),
            1 => Ok(CommandType::GetWorkspaces),
            2 => Ok(CommandType::Subscribe),
            3 => Ok(CommandType::GetOutputs),
            4 => Ok(CommandType::GetTree),
            5 => Ok(CommandType::GetMarks),
            6 => Ok(CommandType::GetBarConfig),
            7 => Ok(CommandType::GetVersion),
            8 => Ok(CommandType::GetBindingModes),
            9 => Ok(CommandType::GetConfig),
            10 => Ok(CommandType::SendTick),
            11 => Ok(CommandType::Sync),
            12 => Ok(CommandType::GetBindingState),
            100 => Ok(CommandType::GetInputs),
            101 => Ok(CommandType::GetSeats),
            _ => Err(CommandTypeError::IncorrectCommandType(n)),
        }
    }
}

/// The event types of the IPC protocol.
#[derive(Clone, Copy, Debug, PartialEq, Eq, Structural)]
pub enum EventType {
    /// An event involving a workspace occurred.
    Workspace,
    /// Outputs were updated.
    Output,
    /// The binding mode changed.
    Mode,
    /// An event involving a window occurred, such as being reparented,
    /// focused, or closed.
    Window,
    /// A bar config changed.
    BarConfigUpdate,
    /// A configured binding was executed.
    Binding,
    /// The ipc is shutting down because sway is exiting.
    Shutdown,
    /// An ipc client sent a SEND_TICK message.
    Tick,
    /// The visibility of a bar should change due to a modifier.
    BarStateUpdate,
    /// Something related to input devices changed.
    Input,
}

/// The wire value of each event type (the packet type with the event flag
/// cleared).
pub open spec fn event_type_code(e: EventType) -> u32 {
    match e {
        EventType::Workspace => 0,
        EventType::Output => 1,
        EventType::Mode => 2,
        EventType::Window => 3,
        EventType::BarConfigUpdate => 4,
        EventType::Binding => 5,
        EventType::Shutdown => 6,
        EventType::Tick => 7,
        EventType::BarStateUpdate => 20,
        EventType::Input => 21,
    }
}

/// The event type for a wire value, if any.
pub open spec fn event_type_from(n: u32) -> Option<EventType> {
    if n == 0 {
        Some(EventType::Workspace)
    } else if n == 1 {
        Some(EventType::Output)
    } else if n == 2 {
        Some(EventType::Mode)
    } else if n == 3 {
        Some(EventType::Window)
    } else if n == 4 {
        Some(EventType::BarConfigUpdate)
    } else if n == 5 {
        Some(EventType::Binding)
    } else if n == 6 {
        Some(EventType::Shutdown)
    } else if n == 7 {
        Some(EventType::Tick)
    } else if n == 20 {
        Some(EventType::BarStateUpdate)
    } else if n == 21 {
        Some(EventType::Input)
    } else {
        None
    }
}

impl EventType {
    /// The wire value of this event type.
    pub fn code(&self) -> (n: u32)
        ensures
            n == event_type_code(*self),
    {
        match self {
            EventType::Workspace => 0,
            EventType::Output => 1,
            EventType::Mode => 2,
            EventType::Window => 3,
            EventType::BarConfigUpdate => 4,
            EventType::Binding => 5,
            EventType::Shutdown => 6,
            EventType::Tick => 7,
            EventType::BarStateUpdate => 20,
            EventType::Input => 21,
        }
    }

    /// The event type for a wire value; exactly the unknown values are
    /// rejected.
    pub fn try_from(n: u32) -> (r: Result<EventType, CommandTypeError>)
        ensures
            match event_type_from(n) {
                Some(e) => r == Ok::<EventType, CommandTypeError>(e),
                None => r == Err::<EventType, CommandTypeError>(
                    CommandTypeError::IncorrectEventType(n),
                ),
            },
    {
        match n {
            0 => Ok(EventType::Workspace),
            1 => Ok(EventType::Output),
            2 => Ok(EventType::Mode),
            3 => Ok(EventType::Window),
            4 => Ok(EventType::BarConfigUpdate),
            5 => Ok(EventType::Binding),
            6 => Ok(EventType::Shutdown),
            7 => Ok(EventType::Tick),
            20 => Ok(EventType::BarStateUpdate),
            21 => Ok(EventType::Input),
            _ => Err(CommandTypeError::IncorrectEventType(n)),
        }
    }

    /// The snake-case name used in a subscribe request's payload.
    pub open spec fn name_chars(self) -> Seq<char> {
        match self {
            EventType::Workspace => "workspace"@,
            EventType::Output => "output"@,
            EventType::Mode => "mode"@,
            EventType::Window => "window"@,
            EventType::BarConfigUpdate => "barconfig_update"@,
            EventType::Binding => "binding"@,
            EventType::Shutdown => "shutdown"@,
            EventType::Tick => "tick"@,
            EventType::BarStateUpdate => "bar_state_update"@,
            EventType::Input => "input"@,
        }
    }

    /// The snake-case name used in a subscribe request's payload.
    pub fn name(&self) -> (s: &'static str)
        ensures
            s@ == self.name_chars(),
    {
        match self {
            EventType::Workspace => "workspace",
            EventType::Output => "output",
            EventType::Mode => "mode",
            EventType::Window => "window",
            EventType::BarConfigUpdate => "barconfig_update",
            EventType::Binding => "binding",
            EventType::Shutdown => "shutdown",
            EventType::Tick => "tick",
            EventType::BarStateUpdate => "bar_state_update",
            EventType::Input => "input",
        }
    }
}

/// A packet whose type field does not decode.
#[derive(Clone, Copy, Debug, PartialEq, Eq, Structural)]
pub enum SwayDeserializeError {
    InvalidCommandType(u32),
}

} // verus!
