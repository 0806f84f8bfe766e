//! The root mediator: the single owner of what the viewer shows.
//!
//! It holds exactly one active top-level view (no file open, opening a
//! file, or a session), the process-wide focus target, the background-task
//! coordinator, and the transient task view.  Once per frame the caller
//! polls the running tasks with what its workers report, routes keyboard
//! input through the focus target, and dispatches the frame's event batch;
//! the mediator decides every transition and hands back what only the
//! caller can do (open a dialog, show an error).

use crate::events::{Event, Focusable, KeyInput, ListName, NavMotion};
use crate::navigator::{iterate_motion, motion_result};
use crate::session::{DemoFileViewModel, SessionData, ToolPanel};
use crate::simple_views::{NoFilesOpenViewModel, OpeningFileViewModel};
use crate::tasks::{BackgroundTaskCoordinator, TaskKind, TaskRunningViewModel, TaskState};
use vstd::prelude::*;

verus! {

/// What `n` repetitions of one keyboard motion do to a session view: the
/// navigator the focus names moves through `iterate_motion`, its display
/// list and filters untouched; a focus the active panel does not host
/// leaves the panels unchanged.
pub open spec fn motion_applied_times(
    focus: Focusable,
    motion: NavMotion,
    n: nat,
    df0: DemoFileViewModel,
    df1: DemoFileViewModel,
) -> bool {
    &&& df1.active_tool_index == df0.active_tool_index
    &&& df1.tools@.len() == df0.tools@.len()
    &&& df1.inner_events@ == df0.inner_events@
    &&& (focus is FramesListViewModel ==> match df0.active_panel() {
        ToolPanel::Frames(ft0) => {
            &&& df1.active_panel() is Frames
            &&& df1.active_panel()->Frames_0.vm_frames_list.demo_frames@
                == ft0.vm_frames_list.demo_frames@
            &&& df1.active_panel()->Frames_0.vm_frames_list.nav.display
                == ft0.vm_frames_list.nav.display
            &&& df1.active_panel()->Frames_0.vm_frames_list.nav.filters
                == ft0.vm_frames_list.nav.filters
            &&& df1.active_panel()->Frames_0.vm_frames_list.nav.active == iterate_motion(
                motion,
                ft0.vm_frames_list.nav.display@,
                ft0.vm_frames_list.nav.active,
                n,
            )
        },
        _ => df1.tools@ == df0.tools@,
    })
    &&& (focus == Focusable::ProtobufMessageListViewModel(ListName::UserMessages)
        ==> match df0.active_panel() {
        ToolPanel::UserMessages(ut0) => {
            &&& df1.active_panel() is UserMessages
            &&& df1.active_panel()->UserMessages_0.vm_messages.nav.display
                == ut0.vm_messages.nav.display
            &&& df1.active_panel()->UserMessages_0.vm_messages.nav.active == iterate_motion(
                motion,
                ut0.vm_messages.nav.display@,
                ut0.vm_messages.nav.active,
                n,
            )
        },
        _ => df1.tools@ == df0.tools@,
    })
    &&& (focus is GameEventsList ==> match df0.active_panel() {
        ToolPanel::GameEvents(gt0) => {
            &&& df1.active_panel() is GameEvents
            &&& df1.active_panel()->GameEvents_0.nav.display == gt0.nav.display
            &&& df1.active_panel()->GameEvents_0.nav.active == iterate_motion(
                motion,
                gt0.nav.display@,
                gt0.nav.active,
                n,
            )
        },
        _ => df1.tools@ == df0.tools@,
    })
    &&& (focus is Inert ==> df1.tools@ == df0.tools@)
}

/// Iterating a motion once more applies `motion_result` to the iterated
/// selection.
proof fn lemma_iterate_motion_step(
    motion: NavMotion,
    display: Seq<usize>,
    active: Option<usize>,
    n: nat,
)
    ensures
        iterate_motion(motion, display, active, n + 1) == motion_result(
            motion,
            display,
            iterate_motion(motion, display, active, n),
        ),
    decreases n,
{
    let stepped = motion_result(motion, display, active);
    assert(iterate_motion(motion, display, active, n + 1) == iterate_motion(
        motion,
        display,
        stepped,
        n,
    ));
    if n > 0 {
        lemma_iterate_motion_step(motion, display, stepped, (n - 1) as nat);
        assert(iterate_motion(motion, display, active, n) == iterate_motion(
            motion,
            display,
            stepped,
            (n - 1) as nat,
        ));
    }
}

/// The one active top-level view.
pub enum InnerView {
    NoFilesOpen(NoFilesOpenViewModel),
    Opening(OpeningFileViewModel),
    DemoFile(Box<DemoFileViewModel>),
}

/// What the caller's file-load worker reports at a poll.
pub enum LoadPoll {
    StillRunning,
    Finished(Result<SessionData, String>),
}

/// Which bulk diagnostic scan to run.
#[derive(Clone, Copy, Debug, PartialEq, Eq, Structural)]
pub enum ScanKind {
    NetMessages,
    UserMessages,
}

/// An event the mediator always consumes itself: the open-file request,
/// the file-opened notice (rendered by the caller before dispatch), and
/// the two diagnostic requests.
pub open spec fn mediator_consumes_alone(e: Event) -> bool {
    ||| e is BeginOpenFile
    ||| e is NewFile
    ||| e is EmitNetMsgWarnErrs
    ||| e is EmitUserMsgWarnErrs
}

/// The events of the first `n` that a dispatch pass without a session
/// declines, in order: everything but what the mediator consumes alone.
pub open spec fn declined_without_session(events: Seq<Event>, n: int) -> Seq<Event>
    decreases n,
{
    if n <= 0 {
        Seq::empty()
    } else {
        let prev = declined_without_session(events, n - 1);
        if mediator_consumes_alone(events[n - 1]) {
            prev
        } else {
            prev.push(events[n - 1])
        }
    }
}

/// What consuming a diagnostic request does: with a session open and no
/// scan running, the scan is marked running and the transient task view
/// appears; otherwise nothing changes.
pub open spec fn diagnostic_request_effect(m0: MainViewModel, m1: MainViewModel) -> bool {
    &&& m1.inner_view_model == m0.inner_view_model
    &&& m1.focused_vm == m0.focused_vm
    &&& m1.tasks.load == m0.tasks.load
    &&& m1.open_file_requested == m0.open_file_requested
    &&& (m0.inner_view_model is DemoFile && m0.tasks.diag == TaskState::Idle
        ==> m1.tasks.diag == TaskState::Running && m1.temporary_view_model is Some)
    &&& (!(m0.inner_view_model is DemoFile && m0.tasks.diag == TaskState::Idle) ==> m1 == m0)
}

/// What consuming a focus change does: the router records the target and
/// the session's active tool remembers it; without a session the event is
/// declined but the router still records it.
pub open spec fn focus_event_effect(
    m0: MainViewModel,
    m1: MainViewModel,
    f: Focusable,
    consumed: bool,
) -> bool {
    &&& m1.focused_vm == f
    &&& m1.tasks == m0.tasks
    &&& m1.temporary_view_model == m0.temporary_view_model
    &&& m1.open_file_requested == m0.open_file_requested
    &&& (m0.inner_view_model is DemoFile ==> consumed && m1.inner_view_model is DemoFile
        && m1.inner_view_model->DemoFile_0.active_tool_index
        == m0.inner_view_model->DemoFile_0.active_tool_index
        && m1.inner_view_model->DemoFile_0.tools@[m0.inner_view_model->DemoFile_0.active_tool_index as int].focus
        == f)
    &&& (!(m0.inner_view_model is DemoFile) ==> !consumed && m1.inner_view_model
        == m0.inner_view_model)
}

/// What a tool-switch request does: with a session, the first tool of that
/// name becomes active iff one exists; without one the event is declined
/// unchanged.
pub open spec fn tool_switch_effect(
    m0: MainViewModel,
    m1: MainViewModel,
    name: crate::events::ToolKind,
    consumed: bool,
) -> bool {
    &&& m1.focused_vm == m0.focused_vm
    &&& m1.tasks == m0.tasks
    &&& m1.temporary_view_model == m0.temporary_view_model
    &&& m1.open_file_requested == m0.open_file_requested
    &&& (m0.inner_view_model is DemoFile ==> m1.inner_view_model is DemoFile && consumed == (
    crate::session::tool_index_from(m0.inner_view_model->DemoFile_0.tools@, name, 0) is Some) && (
    consumed ==> m1.inner_view_model->DemoFile_0.active_tool_index as int
        == crate::session::tool_index_from(m0.inner_view_model->DemoFile_0.tools@, name, 0)->0))
    &&& (!(m0.inner_view_model is DemoFile) ==> !consumed && m1 == m0)
}

/// What offering any other event to the session does: only the active
/// panel may change, and consumption follows that panel's own contract;
/// without a session the event is declined unchanged.
pub open spec fn forwarded_event_effect(
    m0: MainViewModel,
    m1: MainViewModel,
    e: Event,
    consumed: bool,
) -> bool {
    &&& m1.focused_vm == m0.focused_vm
    &&& m1.tasks == m0.tasks
    &&& m1.temporary_view_model == m0.temporary_view_model
    &&& m1.open_file_requested == m0.open_file_requested
    &&& (!(m0.inner_view_model is DemoFile) ==> !consumed && m1 == m0)
    &&& (m0.inner_view_model is DemoFile ==> m1.inner_view_model is DemoFile
        && m1.inner_view_model->DemoFile_0.active_tool_index
        == m0.inner_view_model->DemoFile_0.active_tool_index
        && m1.inner_view_model->DemoFile_0.inner_events@
        == m0.inner_view_model->DemoFile_0.inner_events@
        && crate::session::panel_event_outcome(
        m0.inner_view_model->DemoFile_0.active_panel(),
        m1.inner_view_model->DemoFile_0.active_panel(),
        e,
        consumed,
    ))
}

/// The top-level owner of the viewer's state.
pub struct MainViewModel {
    pub inner_view_model: InnerView,
    pub focused_vm: Focusable,
    pub tasks: BackgroundTaskCoordinator,
    pub temporary_view_model: Option<TaskRunningViewModel>,
    pub open_file_requested: bool,
    /// Events the mediator itself emits (the file-opened notice), handed
    /// out with the session's queue at the next dispatch pass.
    pub pending_events: Vec<Event>,
}

impl MainViewModel {
    /// A session view is well-formed; the file-load task runs exactly
    /// while the opening view shows; the diagnostic task runs exactly
    /// while the transient task view shows; neither task rests in the
    /// finished state between frames.
    pub open spec fn wf(self) -> bool {
        &&& match self.inner_view_model {
            InnerView::DemoFile(df) => df.wf(),
            _ => true,
        }
        &&& (self.tasks.load == TaskState::Running <==> self.inner_view_model is Opening)
        &&& self.tasks.load != TaskState::Finished
        &&& (self.tasks.diag == TaskState::Running <==> self.temporary_view_model is Some)
        &&& self.tasks.diag != TaskState::Finished
    }

    /// Start with no file open, arrow keys inert, no task running.
    pub fn new() -> (vm: Self)
        ensures
            vm.wf(),
            vm.inner_view_model is NoFilesOpen,
            vm.focused_vm == Focusable::Inert,
            vm.tasks.load == TaskState::Idle,
            vm.tasks.diag == TaskState::Idle,
            vm.temporary_view_model is None,
            !vm.open_file_requested,
            vm.pending_events@.len() == 0,
    {
        MainViewModel {
            inner_view_model: InnerView::NoFilesOpen(NoFilesOpenViewModel {}),
            focused_vm: Focusable::Inert,
            tasks: BackgroundTaskCoordinator::new(),
            temporary_view_model: Option::None,
            open_file_requested: false,
            pending_events: Vec::new(),
        }
    }

    /// The caller has picked a file and spawned the load worker: show the
    /// opening view and mark the load running.  A load must not already be
    /// in flight.
    pub fn begin_open_file(&mut self, name: String)
        requires
            old(self).wf(),
            old(self).tasks.load == TaskState::Idle,
        ensures
            final(self).wf(),
            final(self).inner_view_model is Opening,
            final(self).inner_view_model->Opening_0.name == name,
            final(self).tasks.load == TaskState::Running,
            final(self).tasks.diag == old(self).tasks.diag,
            final(self).focused_vm == old(self).focused_vm,
            final(self).temporary_view_model == old(self).temporary_view_model,
            final(self).pending_events@ == old(self).pending_events@,
    {
        self.inner_view_model = InnerView::Opening(OpeningFileViewModel::new(name));
        self.tasks.start(TaskKind::FileLoad);
    }

    /// One non-blocking poll of the file-load worker.
    ///
    /// While the worker runs nothing changes.  When it has finished with a
    /// session, the session view replaces the opening view this same
    /// frame; when it failed, the no-file view returns and the error text
    /// is handed back for the caller to show.
    pub fn poll_load(&mut self, poll: LoadPoll) -> (err: Option<String>)
        requires
            old(self).wf(),
            poll matches LoadPoll::Finished(r) ==> r is Ok ==> {
                let sd = r->Ok_0;
                &&& crate::frames::um_count_frames(sd.frames@, sd.frames@.len() as int)
                    <= usize::MAX
                &&& crate::frames::ge_count_frames(sd.frames@, sd.frames@.len() as int)
                    <= usize::MAX
                &&& crate::frames::um_count_frames(
                    sd.sign_on_frames@,
                    sd.sign_on_frames@.len() as int,
                ) <= usize::MAX
                &&& crate::frames::ge_count_frames(
                    sd.sign_on_frames@,
                    sd.sign_on_frames@.len() as int,
                ) <= usize::MAX
            },
        ensures
            final(self).wf(),
            final(self).focused_vm == old(self).focused_vm,
            final(self).tasks.diag == old(self).tasks.diag,
            final(self).temporary_view_model == old(self).temporary_view_model,
            old(self).tasks.load != TaskState::Running ==> *final(self) == *old(self) && err
                is None,
            old(self).tasks.load == TaskState::Running && poll is StillRunning ==> *final(self)
                == *old(self) && err is None,
            old(self).tasks.load == TaskState::Running ==> (poll matches LoadPoll::Finished(r)
                ==> r is Ok ==> {
                &&& final(self).tasks.load == TaskState::Idle
                &&& final(self).inner_view_model is DemoFile
                &&& final(self).inner_view_model->DemoFile_0.tools@.len() == 8
                &&& final(self).inner_view_model->DemoFile_0.active_tool_index == 1
                &&& final(self).inner_view_model->DemoFile_0.tools@[3].vm is Frames
                &&& final(self).inner_view_model->DemoFile_0.tools@[3].vm->Frames_0.vm_frames_list.demo_frames@
                    == r->Ok_0.frames@
                &&& final(self).inner_view_model->DemoFile_0.tools@[4].vm is Frames
                &&& final(self).inner_view_model->DemoFile_0.tools@[4].vm->Frames_0.vm_frames_list.demo_frames@
                    == r->Ok_0.sign_on_frames@
                &&& final(self).inner_view_model->DemoFile_0.tools@[6].vm is GameEvents
                &&& final(self).inner_view_model->DemoFile_0.tools@[6].vm->GameEvents_0.records@
                    == r->Ok_0.game_events@
                &&& final(self).pending_events@ == old(self).pending_events@.push(
                    Event::NewFile(r->Ok_0.file_name),
                )
                &&& err is None
            }),
            old(self).tasks.load == TaskState::Running ==> (poll matches LoadPoll::Finished(r)
                ==> r is Err ==> {
                &&& final(self).tasks.load == TaskState::Idle
                &&& final(self).inner_view_model is NoFilesOpen
                &&& final(self).pending_events@ == old(self).pending_events@
                &&& err == Option::Some(r->Err_0)
            }),
    {
        let running = match self.tasks.state(TaskKind::FileLoad) {
            TaskState::Running => true,
            _ => false,
        };
        if !running {
            return Option::None;
        }
        match poll {
            LoadPoll::StillRunning => Option::None,
            LoadPoll::Finished(outcome) => {
                let now_finished = self.tasks.poll(TaskKind::FileLoad, true);
                self.tasks.acknowledge(TaskKind::FileLoad);
                match outcome {
                    Result::Ok(session) => {
                        let opened_name = session.file_name.clone();
                        let df = DemoFileViewModel::new(session);
                        self.inner_view_model = InnerView::DemoFile(Box::new(df));
                        self.pending_events.push(Event::NewFile(opened_name));
                        Option::None
                    },
                    Result::Err(msg) => {
                        self.inner_view_model = InnerView::NoFilesOpen(NoFilesOpenViewModel {});
                        Option::Some(msg)
                    },
                }
            },
        }
    }

    /// Start a bulk diagnostic scan: with a session present and no scan
    /// already running, the transient task view appears and the diagnostic
    /// task is marked running; otherwise nothing changes and the caller
    /// spawns no worker.
    pub fn start_diagnostic(&mut self, kind: ScanKind) -> (started: bool)
        requires
            old(self).wf(),
        ensures
            final(self).wf(),
            final(self).inner_view_model == old(self).inner_view_model,
            final(self).focused_vm == old(self).focused_vm,
            final(self).tasks.load == old(self).tasks.load,
            final(self).pending_events@ == old(self).pending_events@,
            final(self).open_file_requested == old(self).open_file_requested,
            started == (old(self).inner_view_model is DemoFile && old(self).tasks.diag
                == TaskState::Idle),
            started ==> final(self).tasks.diag == TaskState::Running && final(self).temporary_view_model is Some,
            !started ==> *final(self) == *old(self),
    {
        let has_session = match &self.inner_view_model {
            InnerView::DemoFile(_) => true,
            _ => false,
        };
        let idle = match self.tasks.state(TaskKind::Diagnostic) {
            TaskState::Idle => true,
            _ => false,
        };
        if has_session && idle {
            self.tasks.start(TaskKind::Diagnostic);
            let label = match kind {
                ScanKind::NetMessages => "Dumping NetMessage warns/errs to console.".to_owned(),
                ScanKind::UserMessages => "Dumping UserMessage warns/errs to console.".to_owned(),
            };
            self.temporary_view_model = Option::Some(TaskRunningViewModel::new(label));
            true
        } else {
            false
        }
    }

    /// One non-blocking poll of the diagnostic worker: when it has
    /// finished, the transient view is dropped and the prior view resumes.
    pub fn poll_diagnostic(&mut self, worker_done: bool) -> (completed: bool)
        requires
            old(self).wf(),
        ensures
            final(self).wf(),
            final(self).inner_view_model == old(self).inner_view_model,
            final(self).focused_vm == old(self).focused_vm,
            final(self).tasks.load == old(self).tasks.load,
            final(self).pending_events@ == old(self).pending_events@,
            completed == (old(self).tasks.diag == TaskState::Running && worker_done),
            completed ==> final(self).tasks.diag == TaskState::Idle && final(self).temporary_view_model is None,
            !completed ==> *final(self) == *old(self),
    {
        let now_finished = self.tasks.poll(TaskKind::Diagnostic, worker_done);
        if now_finished {
            self.tasks.acknowledge(TaskKind::Diagnostic);
            self.temporary_view_model = Option::None;
            true
        } else {
            false
        }
    }

    /// Record the most recent progress message of the running task.
    pub fn set_task_progress(&mut self, msg: String)
        requires
            old(self).wf(),
        ensures
            final(self).wf(),
            final(self).inner_view_model == old(self).inner_view_model,
            final(self).focused_vm == old(self).focused_vm,
            final(self).tasks == old(self).tasks,
            final(self).pending_events@ == old(self).pending_events@,
            old(self).temporary_view_model is Some ==> final(self).temporary_view_model is Some
                && final(self).temporary_view_model->0.last_sub_msg == msg,
            old(self).temporary_view_model is None ==> *final(self) == *old(self),
    {
        match &mut self.temporary_view_model {
            Option::Some(vm) => {
                vm.set_progress(msg);
            },
            Option::None => {},
        }
    }

    /// Read and clear the pending request to open a file dialog.
    pub fn take_open_file_request(&mut self) -> (requested: bool)
        requires
            old(self).wf(),
        ensures
            final(self).wf(),
            requested == old(self).open_file_requested,
            !final(self).open_file_requested,
            final(self).inner_view_model == old(self).inner_view_model,
            final(self).focused_vm == old(self).focused_vm,
            final(self).tasks == old(self).tasks,
            final(self).temporary_view_model == old(self).temporary_view_model,
            final(self).pending_events@ == old(self).pending_events@,
    {
        let was = self.open_file_requested;
        self.open_file_requested = false;
        was
    }

    /// Hand out the focus events the session queued since the last
    /// dispatch pass.
    pub fn collect_emitted(&mut self) -> (batch: Vec<Event>)
        requires
            old(self).wf(),
        ensures
            final(self).wf(),
            final(self).focused_vm == old(self).focused_vm,
            final(self).tasks == old(self).tasks,
            final(self).temporary_view_model == old(self).temporary_view_model,
            final(self).open_file_requested == old(self).open_file_requested,
            final(self).pending_events@.len() == 0,
            old(self).inner_view_model is DemoFile ==> final(self).inner_view_model is DemoFile
                && batch@ == old(self).pending_events@
                + old(self).inner_view_model->DemoFile_0.inner_events@ && final(self).inner_view_model->DemoFile_0.inner_events@.len() == 0 && final(self).inner_view_model->DemoFile_0.tools == old(self).inner_view_model->DemoFile_0.tools
                && final(self).inner_view_model->DemoFile_0.active_tool_index == old(self).inner_view_model->DemoFile_0.active_tool_index,
            !(old(self).inner_view_model is DemoFile) ==> batch@ == old(self).pending_events@
                && final(self).inner_view_model == old(self).inner_view_model,
    {
        let mut batch: Vec<Event> = Vec::new();
        core::mem::swap(&mut batch, &mut self.pending_events);
        match &mut self.inner_view_model {
            InnerView::DemoFile(df) => {
                let mut queued = df.take_pending_events();
                batch.append(&mut queued);
            },
            _ => {},
        }
        batch
    }

    /// Consume one event.
    ///
    /// A request to open a file is remembered for the caller to act on; a
    /// focus change updates the router and is offered to the session too;
    /// a diagnostic request starts a scan; everything else is offered to
    /// the session view.
    pub fn handle_event(&mut self, event: &Event) -> (consumed: bool)
        requires
            old(self).wf(),
        ensures
            final(self).wf(),
            final(self).pending_events@ == old(self).pending_events@,
            match *event {
                Event::BeginOpenFile => consumed && final(self).open_file_requested && final(self).inner_view_model == old(self).inner_view_model && final(self).focused_vm == old(self).focused_vm && final(self).tasks == old(self).tasks && final(self).temporary_view_model == old(self).temporary_view_model,
                Event::SetFocus(f) => focus_event_effect(*old(self), *final(self), f, consumed),
                Event::EmitNetMsgWarnErrs => consumed && diagnostic_request_effect(
                    *old(self),
                    *final(self),
                ),
                Event::EmitUserMsgWarnErrs => consumed && diagnostic_request_effect(
                    *old(self),
                    *final(self),
                ),
                Event::SetTool(name) => tool_switch_effect(*old(self), *final(self), name, consumed),
                _ => forwarded_event_effect(*old(self), *final(self), *event, consumed),
            },
    {
        match event {
            Event::BeginOpenFile => {
                self.open_file_requested = true;
                true
            },
            Event::SetFocus(f) => {
                self.focused_vm = *f;
                match &mut self.inner_view_model {
                    InnerView::DemoFile(df) => df.handle_event(event),
                    _ => false,
                }
            },
            Event::EmitNetMsgWarnErrs => {
                let _ = self.start_diagnostic(ScanKind::NetMessages);
                true
            },
            Event::EmitUserMsgWarnErrs => {
                let _ = self.start_diagnostic(ScanKind::UserMessages);
                true
            },
            _ => {
                match &mut self.inner_view_model {
                    InnerView::DemoFile(df) => df.handle_event(event),
                    _ => false,
                }
            },
        }
    }

    /// Resolve one frame's keyboard input.
    ///
    /// Arrow keys move whichever navigator owns the focus — one step, ten
    /// with shift, to the boundary with the control key — or switch tools
    /// left and right; the open-file chord emits a request-open-file event
    /// into the batch.
    pub fn handle_keyboard(&mut self, keys: &KeyInput, events: &mut Vec<Event>)
        requires
            old(self).wf(),
        ensures
            final(self).wf(),
            final(self).focused_vm == old(self).focused_vm,
            final(self).tasks == old(self).tasks,
            final(self).temporary_view_model == old(self).temporary_view_model,
            final(self).pending_events@ == old(self).pending_events@,
            keys.open_file_combo ==> final(events)@ == old(events)@.push(Event::BeginOpenFile),
            !keys.open_file_combo ==> final(events)@ == old(events)@,
            !keys.arrow_up && !keys.arrow_down && !keys.arrow_left && !keys.arrow_right ==> *final(self)
                == *old(self),
            old(self).inner_view_model is DemoFile ==> final(self).inner_view_model is DemoFile,
            old(self).inner_view_model is DemoFile && keys.arrow_down && !keys.arrow_up
                && !keys.arrow_left && !keys.arrow_right ==> motion_applied_times(
                old(self).focused_vm,
                if keys.ctrl {
                    NavMotion::MoveLast
                } else {
                    NavMotion::MoveNext
                },
                if keys.shift && !keys.ctrl {
                    10nat
                } else {
                    1nat
                },
                *old(self).inner_view_model->DemoFile_0,
                *final(self).inner_view_model->DemoFile_0,
            ),
            old(self).inner_view_model is DemoFile && keys.arrow_up && !keys.arrow_down
                && !keys.arrow_left && !keys.arrow_right ==> motion_applied_times(
                old(self).focused_vm,
                if keys.ctrl {
                    NavMotion::MoveFirst
                } else {
                    NavMotion::MovePrev
                },
                if keys.shift && !keys.ctrl {
                    10nat
                } else {
                    1nat
                },
                *old(self).inner_view_model->DemoFile_0,
                *final(self).inner_view_model->DemoFile_0,
            ),
            old(self).inner_view_model is DemoFile && !keys.arrow_up && !keys.arrow_down
                && keys.arrow_right && !keys.arrow_left ==> ({
                let df0 = *old(self).inner_view_model->DemoFile_0;
                let df1 = *final(self).inner_view_model->DemoFile_0;
                &&& (keys.ctrl ==> df1.active_tool_index == df0.tools@.len() - 1)
                &&& (!keys.ctrl ==> df1.active_tool_index as int == (if df0.active_tool_index + 1
                    < df0.tools@.len() {
                    df0.active_tool_index + 1
                } else {
                    df0.active_tool_index as int
                }))
            }),
            old(self).inner_view_model is DemoFile && !keys.arrow_up && !keys.arrow_down
                && keys.arrow_left && !keys.arrow_right ==> ({
                let df0 = *old(self).inner_view_model->DemoFile_0;
                let df1 = *final(self).inner_view_model->DemoFile_0;
                &&& (keys.ctrl ==> df1.active_tool_index == 0)
                &&& (!keys.ctrl ==> df1.active_tool_index as int == (if df0.active_tool_index > 0 {
                    df0.active_tool_index - 1
                } else {
                    0int
                }))
            }),
    {
        if keys.arrow_down || keys.arrow_up {
            let reps: usize = if keys.shift && !keys.ctrl {
                10
            } else {
                1
            };
            if keys.arrow_down {
                let motion = if keys.ctrl {
                    NavMotion::MoveLast
                } else {
                    NavMotion::MoveNext
                };
                self.apply_motion_times(motion, reps);
            }
            if keys.arrow_up {
                let motion = if keys.ctrl {
                    NavMotion::MoveFirst
                } else {
                    NavMotion::MovePrev
                };
                self.apply_motion_times(motion, reps);
            }
        }
        if keys.arrow_left || keys.arrow_right {
            match &mut self.inner_view_model {
                InnerView::DemoFile(df) => {
                    if keys.arrow_left {
                        if keys.ctrl {
                            df.first_tool();
                        } else {
                            let _ = df.prev_tool();
                        }
                    }
                    if keys.arrow_right {
                        if keys.ctrl {
                            df.last_tool();
                        } else {
                            let _ = df.next_tool();
                        }
                    }
                },
                _ => {},
            }
        }
        if keys.open_file_combo {
            events.push(Event::BeginOpenFile);
        }
    }

    /// Apply one motion to the focused navigator `reps` times.
    #[verifier::loop_isolation(false)]
    fn apply_motion_times(&mut self, motion: NavMotion, reps: usize)
        requires
            old(self).wf(),
        ensures
            final(self).wf(),
            final(self).focused_vm == old(self).focused_vm,
            final(self).tasks == old(self).tasks,
            final(self).temporary_view_model == old(self).temporary_view_model,
            final(self).open_file_requested == old(self).open_file_requested,
            final(self).pending_events@ == old(self).pending_events@,
            !(old(self).inner_view_model is DemoFile) ==> *final(self) == *old(self),
            old(self).inner_view_model is DemoFile ==> final(self).inner_view_model is DemoFile
                && motion_applied_times(
                old(self).focused_vm,
                motion,
                reps as nat,
                *old(self).inner_view_model->DemoFile_0,
                *final(self).inner_view_model->DemoFile_0,
            ),
    {
        let focus = self.focused_vm;
        match &mut self.inner_view_model {
            InnerView::DemoFile(df) => {
                let ghost df0 = **df;
                let mut i: usize = 0;
                while i < reps
                    invariant
                        0 <= i <= reps,
                        df.wf(),
                        motion_applied_times(focus, motion, i as nat, df0, **df),
                    decreases reps - i,
                {
                    proof {
                        match df0.active_panel() {
                            ToolPanel::Frames(ft0) => {
                                lemma_iterate_motion_step(
                                    motion,
                                    ft0.vm_frames_list.nav.display@,
                                    ft0.vm_frames_list.nav.active,
                                    i as nat,
                                );
                            },
                            ToolPanel::UserMessages(ut0) => {
                                lemma_iterate_motion_step(
                                    motion,
                                    ut0.vm_messages.nav.display@,
                                    ut0.vm_messages.nav.active,
                                    i as nat,
                                );
                            },
                            ToolPanel::GameEvents(gt0) => {
                                lemma_iterate_motion_step(
                                    motion,
                                    gt0.nav.display@,
                                    gt0.nav.active,
                                    i as nat,
                                );
                            },
                            _ => {},
                        }
                    }
                    let ghost before = **df;
                    let _ = df.apply_motion(&focus, motion);
                    proof {
                        let idx = df0.active_tool_index as int;
                        assert(before.active_tool_index as int == idx);
                        if before.tools@ == df0.tools@ {
                            assert(before.tools@[idx] == df0.tools@[idx]);
                            assert(before.active_panel() == df0.active_panel());
                        }
                        match df0.active_panel() {
                            ToolPanel::Frames(ft0) => {
                                if focus is FramesListViewModel {
                                    assert(before.active_panel() is Frames);
                                }
                            },
                            ToolPanel::UserMessages(ut0) => {
                                if focus == Focusable::ProtobufMessageListViewModel(
                                    ListName::UserMessages,
                                ) {
                                    assert(before.active_panel() is UserMessages);
                                }
                            },
                            ToolPanel::GameEvents(gt0) => {
                                if focus is GameEventsList {
                                    assert(before.active_panel() is GameEvents);
                                }
                            },
                            _ => {},
                        }
                    }
                    i += 1;
                }
            },
            _ => {},
        }
    }

    /// One dispatch pass: take this frame's batch of events and offer each
    /// to the handlers top-down until one consumes it; what nobody takes
    /// comes back for the caller to report, never silently dropped.
    #[verifier::loop_isolation(false)]
    pub fn dispatch_events(&mut self, events: Vec<Event>) -> (unhandled: Vec<Event>)
        requires
            old(self).wf(),
        ensures
            final(self).wf(),
            unhandled@.len() <= events@.len(),
            forall|j: int| 0 <= j < unhandled@.len() ==> events@.contains(#[trigger] unhandled@[j]),
            forall|j: int|
                0 <= j < unhandled@.len() ==> !mediator_consumes_alone(#[trigger] unhandled@[j]),
            exists|src: Seq<int>|
                #![trigger src.len()]
                src.len() == unhandled@.len() && (forall|j: int|
                    #![trigger src[j]]
                    0 <= j < src.len() ==> 0 <= src[j] < events@.len() && unhandled@[j]
                        == events@[src[j]]) && (forall|j1: int, j2: int|
                    #![trigger src[j1], src[j2]]
                    0 <= j1 < j2 < src.len() ==> src[j1] < src[j2]),
            !(old(self).inner_view_model is DemoFile) ==> unhandled@ == declined_without_session(
                events@,
                events@.len() as int,
            ) && final(self).inner_view_model == old(self).inner_view_model,
            old(self).inner_view_model is DemoFile ==> final(self).inner_view_model is DemoFile
                && (forall|j: int|
                0 <= j < unhandled@.len() ==> !(#[trigger] unhandled@[j] is SetFocus)),
    {
        let mut unhandled: Vec<Event> = Vec::new();
        let ghost mut srcs: Seq<int> = Seq::empty();
        let n = events.len();
        let mut i: usize = 0;
        while i < n
            invariant
                0 <= i <= n,
                self.wf(),
                unhandled@.len() <= i,
                srcs.len() == unhandled@.len(),
                forall|j: int|
                    0 <= j < unhandled@.len() ==> events@.contains(#[trigger] unhandled@[j]),
                forall|j: int|
                    0 <= j < unhandled@.len() ==> !mediator_consumes_alone(
                        #[trigger] unhandled@[j],
                    ),
                forall|j: int|
                    #![trigger srcs[j]]
                    0 <= j < srcs.len() ==> 0 <= srcs[j] < i && unhandled@[j] == events@[srcs[j]],
                forall|j1: int, j2: int| 0 <= j1 < j2 < srcs.len() ==> srcs[j1] < srcs[j2],
                !(old(self).inner_view_model is DemoFile) ==> self.inner_view_model == old(self).inner_view_model && unhandled@ == declined_without_session(events@, i as int),
                old(self).inner_view_model is DemoFile ==> self.inner_view_model is DemoFile && (
                forall|j: int|
                    0 <= j < unhandled@.len() ==> !(#[trigger] unhandled@[j] is SetFocus)),
            decreases n - i,
        {
            let event = &events[i];
            let consumed = match event {
                Event::NewFile(_) => true,
                _ => self.handle_event(event),
            };
            if !consumed {
                unhandled.push(event.duplicate());
                proof {
                    srcs = srcs.push(i as int);
                    assert(unhandled@[unhandled@.len() - 1] == events@[i as int]);
                    assert(events@.contains(unhandled@[unhandled@.len() - 1]));
                }
            }
            i += 1;
        }
        unhandled
    }
}

} // verus!
