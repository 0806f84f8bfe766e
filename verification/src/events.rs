//! The closed set of command objects that the UI and the internal logic
//! exchange, together with the focus targets and tool identities they name.
//!
//! Every event is consumed by exactly one handler per dispatch pass; an
//! event that no handler takes is reported by the mediator, never silently
//! dropped.

use vstd::prelude::*;

verus! {

/// Identity of one of the two frame-browsing tools.
#[derive(Clone, Copy, Debug, PartialEq, Eq, Structural)]
pub enum FramesToolId {
    Frames,
    SignOnFrames,
}

/// Identity of a message list that can be addressed by events.
#[derive(Clone, Copy, Debug, PartialEq, Eq, Structural)]
pub enum ListName {
    PacketDataMessages,
    UserMessages,
}

/// Identity of a tool panel hosted by the session view.
#[derive(Clone, Copy, Debug, PartialEq, Eq, Structural)]
pub enum ToolKind {
    AboutHelp,
    Header,
    ServerInfo,
    Frames,
    SignOnFrames,
    UserMessages,
    GameEvents,
    Tasks,
}

/// Which navigator currently owns arrow-key input.
///
/// Exactly one value is active at a time; `Inert` is a valid target and
/// means that arrow keys do nothing.
#[derive(Clone, Copy, Debug, PartialEq, Eq, Structural)]
pub enum Focusable {
    Inert,
    FramesListViewModel,
    ProtobufMessageListViewModel(ListName),
    GameEventsList,
    SendTables,
}

/// A filter category that a cross-tool jump may ask to reset.
#[derive(Clone, Copy, Debug, PartialEq, Eq, Structural)]
pub enum Filters {
    UserMessages,
    GameEvents,
}

/// One keyboard-driven cursor motion, as the focus router hands it to
/// whichever navigator owns the arrow keys.
#[derive(Clone, Copy, Debug, PartialEq, Eq, Structural)]
pub enum NavMotion {
    MoveFirst,
    MoveLast,
    MoveNext,
    MovePrev,
}

/// The keyboard state of one frame, as the router reads it.
#[derive(Clone, Copy, Debug, PartialEq, Eq, Structural)]
pub struct KeyInput {
    pub arrow_up: bool,
    pub arrow_down: bool,
    pub arrow_left: bool,
    pub arrow_right: bool,
    pub shift: bool,
    pub ctrl: bool,
    pub open_file_combo: bool,
}

/// A command object produced by UI interaction or internal logic.
#[derive(Debug)]
pub enum Event {
    BeginOpenFile,
    NewFile(String),
    SetFocus(Focusable),
    SelectFrame(FramesToolId, usize),
    SelectMessage(ListName, usize),
    SetTool(ToolKind),
    SelectGameEvent(usize),
    ClearFilter(Filters),
    EmitNetMsgWarnErrs,
    EmitUserMsgWarnErrs,
}

impl Event {
    /// An equal copy.
    pub fn duplicate(&self) -> (r: Self)
        ensures
            r == *self,
    {
        match self {
            Event::BeginOpenFile => Event::BeginOpenFile,
            Event::NewFile(path) => Event::NewFile(path.clone()),
            Event::SetFocus(f) => Event::SetFocus(*f),
            Event::SelectFrame(t, i) => Event::SelectFrame(*t, *i),
            Event::SelectMessage(l, i) => Event::SelectMessage(*l, *i),
            Event::SetTool(k) => Event::SetTool(*k),
            Event::SelectGameEvent(i) => Event::SelectGameEvent(*i),
            Event::ClearFilter(f) => Event::ClearFilter(*f),
            Event::EmitNetMsgWarnErrs => Event::EmitNetMsgWarnErrs,
            Event::EmitUserMsgWarnErrs => Event::EmitUserMsgWarnErrs,
        }
    }
}

} // verus!
