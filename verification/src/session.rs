//! The session controller: it owns the decoded session's data through the
//! tool panels built over it, tracks which tool is active, switches tools,
//! queues the focus change a switch implies for the next dispatch pass,
//! and routes events and keyboard motions to the active panel.

use crate::events::{Event, Focusable, FramesToolId, ListName, NavMotion, ToolKind};
use crate::frames::{ge_count_frames, um_count_frames, FrameInfo, FramesToolViewModel};
use crate::game_events::{GameEventRecord, GameEventsToolViewModel};
use crate::messages::FieldEntry;
use crate::navigator::motion_result;
use crate::packet::{EventDescriptor, UserMessageName};
use crate::simple_views::{
    AboutHelpViewModel, HeaderInfo, HeaderToolViewModel, ServerInfoViewModel,
};
use crate::tasks::TasksToolViewModel;
use crate::user_messages::{UserMessageRecord, UserMessagesToolViewModel};
use vstd::prelude::*;

verus! {

/// Everything of the decoded demo file that the viewer holds, as plain
/// values, handed over once when a file has been opened.
pub struct SessionData {
    pub file_name: String,
    pub changelog_text: String,
    pub header: HeaderInfo,
    pub server_info: Option<Vec<FieldEntry>>,
    pub frames: Vec<FrameInfo>,
    pub sign_on_frames: Vec<FrameInfo>,
    pub user_messages: Vec<UserMessageRecord>,
    pub game_events: Vec<GameEventRecord>,
    pub game_event_descriptors: Vec<EventDescriptor>,
    pub user_message_names: Vec<UserMessageName>,
}

/// The closed set of tool panels a session view hosts.
pub enum ToolPanel {
    AboutHelp(AboutHelpViewModel),
    Header(HeaderToolViewModel),
    ServerInfo(ServerInfoViewModel),
    Frames(FramesToolViewModel),
    UserMessages(UserMessagesToolViewModel),
    GameEvents(GameEventsToolViewModel),
    Tasks(TasksToolViewModel),
}

/// One hosted tool: its name, its panel and the focus target it claims
/// when it becomes active.
pub struct DemoFileTools {
    pub name: ToolKind,
    pub vm: ToolPanel,
    pub focus: Focusable,
}

/// A panel's own well-formedness.
pub open spec fn panel_wf(p: ToolPanel) -> bool {
    match p {
        ToolPanel::Frames(ft) => ft.wf(),
        ToolPanel::UserMessages(ut) => ut.wf(),
        ToolPanel::GameEvents(gt) => gt.wf(),
        ToolPanel::ServerInfo(sv) => sv.wf(),
        _ => true,
    }
}

/// A hosted tool's well-formedness.
pub open spec fn tool_wf(t: DemoFileTools) -> bool {
    panel_wf(t.vm)
}

/// What offering one event to a panel does: which events each panel kind
/// consumes, and the selection that results.  Events the session itself
/// intercepts (focus and tool switches) never reach a panel.
pub open spec fn panel_event_outcome(
    p0: ToolPanel,
    p1: ToolPanel,
    e: Event,
    consumed: bool,
) -> bool {
    match e {
        Event::SelectFrame(tool_name, index) => match p0 {
            ToolPanel::Frames(ft0) => (tool_name == ft0.name ==> consumed == (index
                < ft0.vm_frames_list.demo_frames@.len()) && (consumed ==> p1 is Frames
                && p1->Frames_0.vm_frames_list.nav.active == Option::Some(index))) && (tool_name
                != ft0.name ==> !consumed),
            _ => !consumed,
        },
        Event::SelectMessage(id, index) => match p0 {
            ToolPanel::Frames(ft0) => consumed == (ft0.vm_packet_data is Some && id
                == ft0.vm_packet_data->0.vm_message_list.name && index
                < ft0.vm_packet_data->0.vm_message_list.records@.len()
                && ft0.vm_packet_data->0.vm_message_list.records@[index as int].parsed) && (
            consumed ==> p1 is Frames && p1->Frames_0.vm_packet_data is Some
                && p1->Frames_0.vm_packet_data->0.vm_message_list.nav.active == Option::Some(
                index,
            )),
            ToolPanel::UserMessages(ut0) => consumed == (id == ListName::UserMessages && index
                < ut0.vm_messages.records@.len() && ut0.vm_messages.records@[index as int].parsed)
                && (consumed ==> p1 is UserMessages
                && p1->UserMessages_0.vm_messages.nav.active == Option::Some(index)),
            _ => !consumed,
        },
        Event::SelectGameEvent(index) => match p0 {
            ToolPanel::GameEvents(gt0) => consumed == (index < gt0.records@.len()) && (consumed
                ==> p1 is GameEvents && p1->GameEvents_0.nav.active == Option::Some(index)),
            _ => !consumed,
        },
        Event::ClearFilter(f) => match p0 {
            ToolPanel::GameEvents(gt0) => consumed == (f is GameEvents) && (consumed ==> p1
                is GameEvents && p1->GameEvents_0.nav.filters@ == crate::navigator::all_enabled(
                gt0.nav.filters@,
            ) && p1->GameEvents_0.nav.active == gt0.nav.active),
            ToolPanel::UserMessages(ut0) => consumed == (f is UserMessages) && (consumed ==> p1
                is UserMessages && p1->UserMessages_0.vm_messages.nav.filters@
                == crate::navigator::all_enabled(ut0.vm_messages.nav.filters@)
                && p1->UserMessages_0.vm_messages.nav.active == ut0.vm_messages.nav.active),
            _ => !consumed,
        },
        _ => !consumed,
    }
}

impl ToolPanel {
    /// The uniform event contract every panel obeys: it consumes the
    /// event, mutating only its own state, or declines it unchanged.
    pub fn handle_event(&mut self, event: &Event) -> (consumed: bool)
        requires
            panel_wf(*old(self)),
        ensures
            panel_wf(*final(self)),
            !consumed ==> *final(self) == *old(self),
            panel_event_outcome(*old(self), *final(self), *event, consumed),
    {
        match self {
            ToolPanel::Frames(ft) => ft.handle_event(event),
            ToolPanel::UserMessages(ut) => ut.handle_event(event),
            ToolPanel::GameEvents(gt) => gt.handle_event(event),
            _ => false,
        }
    }
}

/// The first tool with the given name at or after position `i`.
pub open spec fn tool_index_from(tools: Seq<DemoFileTools>, name: ToolKind, i: int) -> Option<int>
    decreases tools.len() - i,
{
    if i < 0 || i >= tools.len() {
        Option::None
    } else if tools[i].name == name {
        Option::Some(i)
    } else {
        tool_index_from(tools, name, i + 1)
    }
}

/// The session view: the decoded data inside its tool panels, the active
/// tool, and the focus events queued for the next dispatch pass.
pub struct DemoFileViewModel {
    pub tools: Vec<DemoFileTools>,
    pub active_tool_index: usize,
    pub inner_events: Vec<Event>,
    pub game_event_descriptors: Vec<EventDescriptor>,
    pub user_message_names: Vec<UserMessageName>,
    pub file_name: String,
}

impl DemoFileViewModel {
    /// The active tool exists and every panel is well-formed.
    pub open spec fn wf(self) -> bool {
        &&& self.active_tool_index < self.tools@.len()
        &&& forall|i: int| 0 <= i < self.tools@.len() ==> tool_wf(#[trigger] self.tools@[i])
    }

    /// The panel of the active tool.
    pub open spec fn active_panel(self) -> ToolPanel {
        self.tools@[self.active_tool_index as int].vm
    }

    /// Build the session view over freshly decoded data: the fixed tool
    /// row (about/help, header, server info, the two frame tools, user
    /// messages, game events, tasks), opening on the header tool.
    pub fn new(session: SessionData) -> (vm: Self)
        requires
            um_count_frames(session.frames@, session.frames@.len() as int) <= usize::MAX,
            ge_count_frames(session.frames@, session.frames@.len() as int) <= usize::MAX,
            um_count_frames(session.sign_on_frames@, session.sign_on_frames@.len() as int)
                <= usize::MAX,
            ge_count_frames(session.sign_on_frames@, session.sign_on_frames@.len() as int)
                <= usize::MAX,
        ensures
            vm.wf(),
            vm.tools@.len() == 8,
            vm.active_tool_index == 1,
            vm.inner_events@.len() == 0,
            vm.tools@[0].name == ToolKind::AboutHelp,
            vm.tools@[1].name == ToolKind::Header,
            vm.tools@[2].name == ToolKind::ServerInfo,
            vm.tools@[3].name == ToolKind::Frames,
            vm.tools@[4].name == ToolKind::SignOnFrames,
            vm.tools@[5].name == ToolKind::UserMessages,
            vm.tools@[6].name == ToolKind::GameEvents,
            vm.tools@[7].name == ToolKind::Tasks,
            vm.tools@[3].vm is Frames && vm.tools@[3].vm->Frames_0.name == FramesToolId::Frames
                && vm.tools@[3].vm->Frames_0.vm_frames_list.demo_frames@ == session.frames@,
            vm.tools@[4].vm is Frames && vm.tools@[4].vm->Frames_0.name
                == FramesToolId::SignOnFrames && vm.tools@[4].vm->Frames_0.vm_frames_list.demo_frames@
                == session.sign_on_frames@,
            vm.tools@[5].vm is UserMessages && vm.tools@[5].vm->UserMessages_0.vm_messages.records@.len()
                == session.user_messages@.len(),
            vm.tools@[6].vm is GameEvents && vm.tools@[6].vm->GameEvents_0.records@
                == session.game_events@,
            vm.tools@[3].focus == Focusable::FramesListViewModel,
            vm.tools@[4].focus == Focusable::FramesListViewModel,
            vm.tools@[5].focus == Focusable::ProtobufMessageListViewModel(ListName::UserMessages),
            vm.tools@[6].focus == Focusable::GameEventsList,
            vm.game_event_descriptors@ == session.game_event_descriptors@,
            vm.user_message_names@ == session.user_message_names@,
            vm.file_name == session.file_name,
    {
        let SessionData {
            file_name,
            changelog_text,
            header,
            server_info,
            frames,
            sign_on_frames,
            user_messages,
            game_events,
            game_event_descriptors,
            user_message_names,
        } = session;
        let mut tools: Vec<DemoFileTools> = Vec::new();
        tools.push(
            DemoFileTools {
                name: ToolKind::AboutHelp,
                vm: ToolPanel::AboutHelp(AboutHelpViewModel::new(changelog_text)),
                focus: Focusable::Inert,
            },
        );
        tools.push(
            DemoFileTools {
                name: ToolKind::Header,
                vm: ToolPanel::Header(HeaderToolViewModel::new(header)),
                focus: Focusable::Inert,
            },
        );
        tools.push(
            DemoFileTools {
                name: ToolKind::ServerInfo,
                vm: ToolPanel::ServerInfo(ServerInfoViewModel::new(server_info)),
                focus: Focusable::Inert,
            },
        );
        tools.push(
            DemoFileTools {
                name: ToolKind::Frames,
                vm: ToolPanel::Frames(FramesToolViewModel::new(FramesToolId::Frames, frames)),
                focus: Focusable::FramesListViewModel,
            },
        );
        tools.push(
            DemoFileTools {
                name: ToolKind::SignOnFrames,
                vm: ToolPanel::Frames(
                    FramesToolViewModel::new(FramesToolId::SignOnFrames, sign_on_frames),
                ),
                focus: Focusable::FramesListViewModel,
            },
        );
        tools.push(
            DemoFileTools {
                name: ToolKind::UserMessages,
                vm: ToolPanel::UserMessages(UserMessagesToolViewModel::new(user_messages)),
                focus: Focusable::ProtobufMessageListViewModel(ListName::UserMessages),
            },
        );
        tools.push(
            DemoFileTools {
                name: ToolKind::GameEvents,
                vm: ToolPanel::GameEvents(GameEventsToolViewModel::new(game_events)),
                focus: Focusable::GameEventsList,
            },
        );
        tools.push(
            DemoFileTools {
                name: ToolKind::Tasks,
                vm: ToolPanel::Tasks(TasksToolViewModel {}),
                focus: Focusable::Inert,
            },
        );
        DemoFileViewModel {
            tools,
            active_tool_index: 1,
            inner_events: Vec::new(),
            game_event_descriptors,
            user_message_names,
            file_name,
        }
    }

    /// The active tool's panel, for reading.
    pub fn get_active_tool(&self) -> (r: &ToolPanel)
        requires
            self.wf(),
        ensures
            *r == self.active_panel(),
    {
        &self.tools[self.active_tool_index].vm
    }

    /// Make the tool at `index` active and queue the focus target it
    /// claims for the next dispatch pass; fails, changing nothing, when
    /// the index is out of range.
    pub fn set_active_tool(&mut self, index: usize) -> (ok: bool)
        requires
            old(self).wf(),
        ensures
            final(self).wf(),
            ok == (index < old(self).tools@.len()),
            !ok ==> *final(self) == *old(self),
            ok ==> final(self).active_tool_index == index && final(self).tools == old(self).tools
                && final(self).inner_events@ == old(self).inner_events@.push(
                Event::SetFocus(old(self).tools@[index as int].focus),
            ),
            final(self).game_event_descriptors@ == old(self).game_event_descriptors@,
            final(self).user_message_names@ == old(self).user_message_names@,
            final(self).file_name == old(self).file_name,
    {
        if index >= self.tools.len() {
            false
        } else {
            self.active_tool_index = index;
            let focus = self.tools[index].focus;
            self.inner_events.push(Event::SetFocus(focus));
            true
        }
    }

    /// Make the first tool with the given name active; fails, changing
    /// nothing, when no tool carries it.
    #[verifier::loop_isolation(false)]
    pub fn set_active_tool_by_name(&mut self, name: ToolKind) -> (ok: bool)
        requires
            old(self).wf(),
        ensures
            final(self).wf(),
            ok == (tool_index_from(old(self).tools@, name, 0) is Some),
            !ok ==> *final(self) == *old(self),
            ok ==> final(self).active_tool_index as int == tool_index_from(
                old(self).tools@,
                name,
                0,
            )->0 && final(self).tools == old(self).tools && final(self).inner_events@ == old(
                self,
            ).inner_events@.push(
                Event::SetFocus(
                    old(self).tools@[tool_index_from(old(self).tools@, name, 0)->0].focus,
                ),
            ),
            final(self).game_event_descriptors@ == old(self).game_event_descriptors@,
            final(self).user_message_names@ == old(self).user_message_names@,
            final(self).file_name == old(self).file_name,
    {
        let n = self.tools.len();
        let mut i: usize = 0;
        while i < n
            invariant
                0 <= i <= n,
                *self == *old(self),
                n == self.tools@.len(),
                tool_index_from(self.tools@, name, 0) == tool_index_from(
                    self.tools@,
                    name,
                    i as int,
                ),
            decreases n - i,
        {
            if self.tools[i].name == name {
                let ok = self.set_active_tool(i);
                assert(ok);
                return true;
            }
            i += 1;
        }
        false
    }

    /// Make the next tool active; at the last tool nothing changes.
    pub fn next_tool(&mut self) -> (ok: bool)
        requires
            old(self).wf(),
        ensures
            final(self).wf(),
            ok == (old(self).active_tool_index + 1 < old(self).tools@.len()),
            !ok ==> *final(self) == *old(self),
            ok ==> final(self).active_tool_index == old(self).active_tool_index + 1,
            final(self).tools == old(self).tools,
    {
        let n = self.tools.len();
        if self.active_tool_index + 1 < n {
            self.set_active_tool(self.active_tool_index + 1)
        } else {
            false
        }
    }

    /// Make the previous tool active; at the first tool nothing changes.
    pub fn prev_tool(&mut self) -> (ok: bool)
        requires
            old(self).wf(),
        ensures
            final(self).wf(),
            ok == (old(self).active_tool_index > 0),
            !ok ==> *final(self) == *old(self),
            ok ==> final(self).active_tool_index == old(self).active_tool_index - 1,
            final(self).tools == old(self).tools,
    {
        if self.active_tool_index > 0 {
            self.set_active_tool(self.active_tool_index - 1)
        } else {
            false
        }
    }

    /// Make the first tool active.
    pub fn first_tool(&mut self)
        requires
            old(self).wf(),
        ensures
            final(self).wf(),
            final(self).active_tool_index == 0,
            final(self).tools == old(self).tools,
    {
        let _ = self.set_active_tool(0);
    }

    /// Make the last tool active.
    pub fn last_tool(&mut self)
        requires
            old(self).wf(),
        ensures
            final(self).wf(),
            final(self).active_tool_index == old(self).tools@.len() - 1,
            final(self).tools == old(self).tools,
    {
        let n = self.tools.len();
        let _ = self.set_active_tool(n - 1);
    }

    /// Hand out the focus events queued since the last dispatch pass.
    pub fn take_pending_events(&mut self) -> (batch: Vec<Event>)
        requires
            old(self).wf(),
        ensures
            final(self).wf(),
            batch@ == old(self).inner_events@,
            final(self).inner_events@.len() == 0,
            final(self).tools == old(self).tools,
            final(self).active_tool_index == old(self).active_tool_index,
    {
        let mut batch: Vec<Event> = Vec::new();
        core::mem::swap(&mut batch, &mut self.inner_events);
        batch
    }

    /// Route one keyboard motion to whichever navigator the focus target
    /// names, provided the active panel hosts it; otherwise nothing
    /// changes.
    pub fn apply_motion(&mut self, focus: &Focusable, motion: NavMotion) -> (applied: bool)
        requires
            old(self).wf(),
        ensures
            final(self).wf(),
            final(self).active_tool_index == old(self).active_tool_index,
            final(self).tools@.len() == old(self).tools@.len(),
            final(self).inner_events@ == old(self).inner_events@,
            forall|i: int|
                0 <= i < old(self).tools@.len() && i != old(self).active_tool_index
                    ==> final(self).tools@[i] == #[trigger] old(self).tools@[i],
            final(self).tools@[old(self).active_tool_index as int].name == old(self).tools@[old(
                self,
            ).active_tool_index as int].name,
            !applied ==> final(self).tools@ == old(self).tools@,
            *focus is FramesListViewModel && !(old(self).active_panel() is Frames) ==> !applied,
            *focus == Focusable::ProtobufMessageListViewModel(ListName::UserMessages) && !(old(
                self,
            ).active_panel() is UserMessages) ==> !applied,
            *focus is GameEventsList && !(old(self).active_panel() is GameEvents) ==> !applied,
            *focus is Inert ==> !applied,
            final(self).game_event_descriptors@ == old(self).game_event_descriptors@,
            final(self).user_message_names@ == old(self).user_message_names@,
            final(self).file_name == old(self).file_name,
            *focus is FramesListViewModel && old(self).active_panel() is Frames ==> applied && ({
                let ft0 = old(self).active_panel()->Frames_0;
                let ft1 = final(self).active_panel();
                ft1 is Frames && ft1->Frames_0.vm_frames_list.nav.active == motion_result(
                    motion,
                    ft0.vm_frames_list.nav.display@,
                    ft0.vm_frames_list.nav.active,
                ) && ft1->Frames_0.vm_frames_list.nav.display == ft0.vm_frames_list.nav.display
                    && ft1->Frames_0.vm_frames_list.nav.filters == ft0.vm_frames_list.nav.filters
                    && ft1->Frames_0.vm_frames_list.demo_frames@
                    == ft0.vm_frames_list.demo_frames@
            }),
            *focus == Focusable::ProtobufMessageListViewModel(ListName::UserMessages) && old(
                self,
            ).active_panel() is UserMessages ==> applied && ({
                let ut0 = old(self).active_panel()->UserMessages_0;
                let ut1 = final(self).active_panel();
                ut1 is UserMessages && ut1->UserMessages_0.vm_messages.nav.active == motion_result(
                    motion,
                    ut0.vm_messages.nav.display@,
                    ut0.vm_messages.nav.active,
                ) && ut1->UserMessages_0.vm_messages.nav.display == ut0.vm_messages.nav.display
            }),
            *focus is GameEventsList && old(self).active_panel() is GameEvents ==> applied && ({
                let gt0 = old(self).active_panel()->GameEvents_0;
                let gt1 = final(self).active_panel();
                gt1 is GameEvents && gt1->GameEvents_0.nav.active == motion_result(
                    motion,
                    gt0.nav.display@,
                    gt0.nav.active,
                ) && gt1->GameEvents_0.nav.display == gt0.nav.display
            }),
    {
        let idx = self.active_tool_index;
        let ghost tools0 = self.tools@;
        let applied: bool;
        match focus {
            Focusable::FramesListViewModel => {
                match &mut self.tools[idx].vm {
                    ToolPanel::Frames(ft) => {
                        ft.move_selection(motion);
                        applied = true;
                    },
                    _ => {
                        applied = false;
                    },
                }
            },
            Focusable::ProtobufMessageListViewModel(list) => {
                match list {
                    ListName::UserMessages => {
                        match &mut self.tools[idx].vm {
                            ToolPanel::UserMessages(ut) => {
                                ut.vm_messages.move_selection(motion);
                                applied = true;
                            },
                            _ => {
                                applied = false;
                            },
                        }
                    },
                    ListName::PacketDataMessages => {
                        match &mut self.tools[idx].vm {
                            ToolPanel::Frames(ft) => {
                                match &mut ft.vm_packet_data {
                                    Option::Some(pd) => {
                                        pd.vm_message_list.move_selection(motion);
                                        applied = true;
                                    },
                                    Option::None => {
                                        applied = false;
                                    },
                                }
                            },
                            _ => {
                                applied = false;
                            },
                        }
                    },
                }
            },
            Focusable::GameEventsList => {
                match &mut self.tools[idx].vm {
                    ToolPanel::GameEvents(gt) => {
                        gt.move_selection(motion);
                        applied = true;
                    },
                    _ => {
                        applied = false;
                    },
                }
            },
            Focusable::SendTables => {
                match &mut self.tools[idx].vm {
                    ToolPanel::Frames(ft) => {
                        match &mut ft.vm_data_tables {
                            Option::Some(dt) => {
                                if dt.active_mode == crate::data_tables::TablesMode::SendTables {
                                    dt.move_selection(motion);
                                    applied = true;
                                } else {
                                    applied = false;
                                }
                            },
                            Option::None => {
                                applied = false;
                            },
                        }
                    },
                    _ => {
                        applied = false;
                    },
                }
            },
            Focusable::Inert => {
                applied = false;
            },
        }
        proof {
            assert forall|i: int| 0 <= i < self.tools@.len() implies tool_wf(
                #[trigger] self.tools@[i],
            ) by {
                if i != idx as int {
                    assert(self.tools@[i] == tools0[i]);
                }
            }
            if !applied {
                assert(self.tools@ =~= tools0);
            }
        }
        applied
    }

    /// Consume one event: a focus change is remembered on the active tool,
    /// a tool switch is performed by name, and anything else is offered to
    /// the active panel alone.
    pub fn handle_event(&mut self, event: &Event) -> (consumed: bool)
        requires
            old(self).wf(),
        ensures
            final(self).wf(),
            final(self).tools@.len() == old(self).tools@.len(),
            final(self).game_event_descriptors@ == old(self).game_event_descriptors@,
            final(self).user_message_names@ == old(self).user_message_names@,
            final(self).file_name == old(self).file_name,
            match *event {
                Event::SetFocus(f) => consumed && final(self).tools@[old(
                    self,
                ).active_tool_index as int].focus == f && final(self).active_tool_index == old(
                    self,
                ).active_tool_index,
                Event::SetTool(name) => consumed == (tool_index_from(
                    old(self).tools@,
                    name,
                    0,
                ) is Some) && (consumed ==> final(self).active_tool_index as int == tool_index_from(
                    old(self).tools@,
                    name,
                    0,
                )->0),
                _ => ({
                    &&& final(self).active_tool_index == old(self).active_tool_index
                    &&& final(self).inner_events@ == old(self).inner_events@
                    &&& forall|i: int|
                        0 <= i < old(self).tools@.len() && i != old(self).active_tool_index
                            ==> final(self).tools@[i] == #[trigger] old(self).tools@[i]
                    &&& final(self).tools@[old(self).active_tool_index as int].name == old(
                        self,
                    ).tools@[old(self).active_tool_index as int].name
                    &&& final(self).tools@[old(self).active_tool_index as int].focus == old(
                        self,
                    ).tools@[old(self).active_tool_index as int].focus
                    &&& panel_event_outcome(
                        old(self).active_panel(),
                        final(self).active_panel(),
                        *event,
                        consumed,
                    )
                    &&& !consumed ==> final(self).tools@ == old(self).tools@
                }),
            },
    {
        match event {
            Event::SetFocus(f) => {
                let idx = self.active_tool_index;
                let ghost tools0 = self.tools@;
                let e = &mut self.tools[idx];
                e.focus = *f;
                proof {
                    assert forall|i: int| 0 <= i < self.tools@.len() implies tool_wf(
                        #[trigger] self.tools@[i],
                    ) by {
                        if i != idx as int {
                            assert(self.tools@[i] == tools0[i]);
                        } else {
                            assert(self.tools@[i].vm == tools0[i].vm);
                        }
                    }
                }
                true
            },
            Event::SetTool(name) => self.set_active_tool_by_name(*name),
            _ => {
                let idx = self.active_tool_index;
                let ghost tools0 = self.tools@;
                let e = &mut self.tools[idx];
                let consumed = e.vm.handle_event(event);
                proof {
                    assert forall|i: int| 0 <= i < self.tools@.len() implies tool_wf(
                        #[trigger] self.tools@[i],
                    ) by {
                        if i != idx as int {
                            assert(self.tools@[i] == tools0[i]);
                        }
                    }
                    if !consumed {
                        assert(self.tools@ =~= tools0);
                    }
                }
                consumed
            },
        }
    }
}

} // verus!
