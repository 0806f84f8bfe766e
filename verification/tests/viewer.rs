use demo_crawler::data_tables::{
    ClassDescInfo, DataTablesInfo, DataTablesViewModel, SendTableInfo, TablesMode,
};
use demo_crawler::events::{
    Event, Filters, Focusable, FramesToolId, KeyInput, ListName, NavMotion, ToolKind,
};
use demo_crawler::frames::{FrameInfo, FramePayload, FramesToolViewModel};
use demo_crawler::game_events::{GameEventRecord, GameEventsToolViewModel};
use demo_crawler::mediator::{InnerView, LoadPoll, MainViewModel, ScanKind};
use demo_crawler::messages::{
    issue_indices, FieldEntry, FieldValue, MessageBody, MessageRecord,
    ProtobufMessageListViewModel, ProtobufMessageViewModel,
};
use demo_crawler::packet::{
    resolve_message_label, EventDescriptor, PacketHeaderInfo, PacketInfo, UserMessageName,
};
use demo_crawler::session::{DemoFileViewModel, SessionData, ToolPanel};
use demo_crawler::simple_views::HeaderInfo;
use demo_crawler::tasks::TaskState;
use demo_crawler::user_messages::{UserMessageRecord, UserMessagesToolViewModel};

fn msg(disc: u64, name: &str) -> MessageRecord {
    MessageRecord {
        parsed: true,
        disc,
        name: name.to_string(),
        body: MessageBody::Plain,
        has_warnings: false,
        has_error: false,
        fields: Vec::new(),
    }
}

fn packet_header() -> PacketHeaderInfo {
    PacketHeaderInfo {
        flags: 0,
        data_length: 0,
        in_seq: 0,
        out_seq: 0,
        view_origin: String::new(),
        view_angles: String::new(),
        local_view_angles: String::new(),
        inter_view_origin: String::new(),
        inter_view_angles: String::new(),
        inter_local_view_angles: String::new(),
    }
}

fn plain_frame(tick: i64, command_id: u8, label: &str) -> FrameInfo {
    FrameInfo {
        tick,
        player_slot: 0,
        command_id,
        command_label: label.to_string(),
        payload: FramePayload::Empty,
    }
}

fn packet_frame(tick: i64, messages: Vec<MessageRecord>) -> FrameInfo {
    FrameInfo {
        tick,
        player_slot: 0,
        command_id: 2,
        command_label: "Packet".to_string(),
        payload: FramePayload::Packet(PacketInfo {
            header: packet_header(),
            network_messages: messages,
        }),
    }
}

fn header_info() -> HeaderInfo {
    HeaderInfo {
        demo_protocol: 4,
        network_protocol: 24,
        server_name: "server".to_string(),
        client_name: "client".to_string(),
        map_name: "map".to_string(),
        game_directory: "dir".to_string(),
        playback_time_text: "1.000".to_string(),
        ticks: 100,
        frames: 5,
        sign_on_length: 0,
    }
}

fn session_with_frames(frames: Vec<FrameInfo>) -> SessionData {
    SessionData {
        file_name: "session".to_string(),
        changelog_text: String::new(),
        header: header_info(),
        server_info: None,
        frames,
        sign_on_frames: Vec::new(),
        user_messages: Vec::new(),
        game_events: Vec::new(),
        game_event_descriptors: Vec::new(),
        user_message_names: Vec::new(),
    }
}

fn five_plain_frames() -> Vec<FrameInfo> {
    vec![
        plain_frame(0, 1, "SignOn"),
        plain_frame(10, 2, "Packet"),
        plain_frame(20, 1, "SignOn"),
        plain_frame(30, 3, "ConsoleCmd"),
        plain_frame(40, 2, "Packet"),
    ]
}

fn no_keys() -> KeyInput {
    KeyInput {
        arrow_up: false,
        arrow_down: false,
        arrow_left: false,
        arrow_right: false,
        shift: false,
        ctrl: false,
        open_file_combo: false,
    }
}

#[test]
fn message_list_skips_unparsed_records() {
    let mut bad = msg(9, "Broken");
    bad.parsed = false;
    bad.has_error = true;
    let records = vec![msg(1, "A"), bad, msg(2, "B")];
    let mut vm = ProtobufMessageListViewModel::new(ListName::PacketDataMessages, records);
    assert_eq!(vm.nav.display, vec![0, 2]);
    assert!(!vm.set_active_message(1));
    assert!(vm.set_active_message(2));
    assert_eq!(vm.get_active_message(), Some(2));
}

#[test]
fn message_detail_follows_selection_and_hides_missing_fields() {
    let mut rec = msg(1, "A");
    rec.fields = vec![
        FieldEntry { name: "kept".to_string(), value: FieldValue::VarInt(7) },
        FieldEntry { name: "absent".to_string(), value: FieldValue::Missing },
        FieldEntry { name: "text".to_string(), value: FieldValue::Text("hi".to_string()) },
    ];
    let mut vm = ProtobufMessageListViewModel::new(ListName::UserMessages, vec![rec]);
    assert!(vm.set_active_message(0));
    {
        let detail = vm.vm_protobuf_message.as_ref().unwrap();
        assert_eq!(detail.field_data.len(), 3);
    }
    vm.set_detail_hide(true);
    {
        let detail = vm.vm_protobuf_message.as_ref().unwrap();
        assert_eq!(detail.field_data.len(), 2);
        assert_eq!(detail.field_data[0].name, "kept");
        assert_eq!(detail.field_data[1].name, "text");
        assert!(detail.hide_none_values_get());
    }
}

#[test]
fn detail_view_recomputes_when_toggled_back() {
    let fields = vec![
        FieldEntry { name: "a".to_string(), value: FieldValue::Missing },
        FieldEntry { name: "b".to_string(), value: FieldValue::Fixed32(3) },
    ];
    let mut vm = ProtobufMessageViewModel::new(fields);
    vm.hide_none_values_set(true);
    assert_eq!(vm.field_data.len(), 1);
    vm.hide_none_values_set(false);
    assert_eq!(vm.field_data.len(), 2);
}

#[test]
fn issue_indices_reports_exactly_the_flagged_records() {
    let mut warn = msg(1, "W");
    warn.has_warnings = true;
    let mut err = msg(2, "E");
    err.has_error = true;
    let records = vec![msg(0, "ok"), warn, msg(3, "ok2"), err];
    assert_eq!(issue_indices(&records), vec![1, 3]);
}

#[test]
fn message_labels_resolve_through_the_session_tables() {
    let descriptors = vec![
        EventDescriptor { event_id: 5, name: "player_death".to_string() },
        EventDescriptor { event_id: 8, name: "round_start".to_string() },
    ];
    let um_names = vec![UserMessageName { id: 3, name: "SayText".to_string() }];

    let mut user = msg(20, "UserMessage");
    user.body = MessageBody::UserMessage(Some(3));
    assert_eq!(resolve_message_label(&user, &descriptors, &um_names), "UserMessage(SayText)");

    let mut event = msg(21, "GameEvent");
    event.body = MessageBody::GameEvent(Some(8));
    assert_eq!(resolve_message_label(&event, &descriptors, &um_names), "GameEvent(round_start)");

    let mut unknown = msg(21, "GameEvent");
    unknown.body = MessageBody::GameEvent(Some(99));
    assert_eq!(resolve_message_label(&unknown, &descriptors, &um_names), "GameEvent");

    let plain = msg(22, "NetTick");
    assert_eq!(resolve_message_label(&plain, &descriptors, &um_names), "NetTick");
}

#[test]
fn frames_tool_builds_cross_links_with_global_indices() {
    let mut um0 = msg(1, "UserMessage");
    um0.body = MessageBody::UserMessage(Some(1));
    let mut um1 = msg(1, "UserMessage");
    um1.body = MessageBody::UserMessage(Some(2));
    let mut ge0 = msg(2, "GameEvent");
    ge0.body = MessageBody::GameEvent(Some(5));
    let frames = vec![
        packet_frame(0, vec![um0, ge0]),
        plain_frame(5, 3, "ConsoleCmd"),
        packet_frame(10, vec![msg(7, "NetTick"), um1]),
    ];
    let tool = FramesToolViewModel::new(FramesToolId::Frames, frames);
    // frame 0: message 0 is the first user message, message 1 the first game event
    assert_eq!(tool.frame_data[0].user_message_slot(0), Some(0));
    assert_eq!(tool.frame_data[0].game_event_slot(1), Some(0));
    assert_eq!(tool.frame_data[0].user_message_slot(1), None);
    // frame 1 carries nothing
    assert!(tool.frame_data[1].user_message_index.is_none());
    assert!(tool.frame_data[1].game_event_index.is_none());
    // frame 2: its second message is the second user message over all
    assert_eq!(tool.frame_data[2].user_message_slot(1), Some(1));
    assert_eq!(tool.frame_data[2].user_message_slot(0), None);
}

#[test]
fn select_frame_opens_and_closes_the_detail_panes() {
    let frames = vec![
        packet_frame(0, vec![msg(1, "A")]),
        plain_frame(5, 3, "ConsoleCmd"),
        FrameInfo {
            tick: 10,
            player_slot: 0,
            command_id: 6,
            command_label: "DataTables".to_string(),
            payload: FramePayload::DataTables(DataTablesInfo {
                send_tables: vec![
                    SendTableInfo {
                        is_end: Some(false),
                        needs_decoder: Some(true),
                        net_table_name: Some("tbl".to_string()),
                        props: Vec::new(),
                    },
                ],
                class_descriptions: vec![
                    ClassDescInfo {
                        class_id: 1,
                        table_name: "t".to_string(),
                        network_name: "n".to_string(),
                    },
                ],
            }),
        },
    ];
    let mut tool = FramesToolViewModel::new(FramesToolId::Frames, frames);
    assert!(tool.select_frame(0));
    assert!(tool.vm_packet_data.is_some());
    assert!(tool.vm_data_tables.is_none());
    assert!(tool.select_frame(1));
    assert!(tool.vm_packet_data.is_none());
    assert!(tool.vm_data_tables.is_none());
    assert!(tool.select_frame(2));
    assert!(tool.vm_packet_data.is_none());
    let dt = tool.vm_data_tables.as_ref().unwrap();
    assert_eq!(dt.send_table_count, 1);
    assert!(!tool.select_frame(3));
}

#[test]
fn select_frame_out_of_bounds_changes_nothing() {
    let mut tool = FramesToolViewModel::new(FramesToolId::Frames, five_plain_frames());
    assert!(tool.select_frame(1));
    assert!(!tool.select_frame(99));
    assert_eq!(tool.vm_frames_list.nav.active, Some(1));
}

#[test]
fn frame_filter_reset_on_selecting_hidden_frame() {
    let mut tool = FramesToolViewModel::new(FramesToolId::Frames, five_plain_frames());
    assert!(tool.vm_frames_list.set_command_enabled(1, false));
    assert_eq!(tool.vm_frames_list.nav.display, vec![1, 3, 4]);
    // frame 0 carries command kind 1, hidden by the filter
    assert!(tool.select_frame(0));
    assert_eq!(tool.vm_frames_list.nav.active, Some(0));
    assert!(tool.vm_frames_list.nav.filters.iter().all(|f| f.enabled));
}

#[test]
fn send_table_cursor_saturates() {
    let mut dt = DataTablesViewModel::new(3);
    assert_eq!(dt.active_mode, TablesMode::ClassDescriptions);
    assert!(dt.send_table_next());
    assert_eq!(dt.active_send_table_index, Some(0));
    assert!(dt.send_table_last());
    assert_eq!(dt.active_send_table_index, Some(2));
    assert!(!dt.send_table_next());
    assert_eq!(dt.active_send_table_index, Some(2));
    assert!(dt.send_table_first());
    assert!(dt.send_table_prev());
    assert_eq!(dt.active_send_table_index, Some(0));
}

#[test]
fn game_events_tool_selects_and_clears_filter_by_event() {
    let ev = |id: u64, name: &str, tick: i64| GameEventRecord {
        event_id: id,
        event_name: name.to_string(),
        event_tick: tick,
        frame_index: 0,
        message_index: 0,
        keys: Vec::new(),
    };
    let mut tool = GameEventsToolViewModel::new(vec![
        ev(1, "player_death", 0),
        ev(2, "round_start", 5),
        ev(1, "player_death", 9),
    ]);
    assert_eq!(tool.nav.display, vec![0, 1, 2]);
    assert!(tool.handle_event(&Event::SelectGameEvent(2)));
    assert_eq!(tool.nav.active, Some(2));
    assert!(tool.vm_active_keys.is_some());
    assert!(!tool.handle_event(&Event::ClearFilter(Filters::UserMessages)));
    assert!(tool.handle_event(&Event::ClearFilter(Filters::GameEvents)));
    assert_eq!(tool.nav.active, Some(2));
}

#[test]
fn user_messages_tool_keeps_back_references_and_clears_its_filter() {
    let um = |disc: u64, frame: usize, message: usize| UserMessageRecord {
        frame_index: frame,
        message_index: message,
        tick: 0,
        record: msg(disc, "SayText"),
    };
    let mut tool = UserMessagesToolViewModel::new(vec![um(1, 3, 0), um(1, 7, 2)]);
    assert_eq!(tool.frame_indices, vec![3, 7]);
    assert_eq!(tool.message_indices, vec![0, 2]);
    assert!(tool.handle_event(&Event::SelectMessage(ListName::UserMessages, 1)));
    assert_eq!(tool.vm_messages.get_active_message(), Some(1));
    assert!(!tool.handle_event(&Event::SelectMessage(ListName::PacketDataMessages, 0)));
    assert!(tool.handle_event(&Event::ClearFilter(Filters::UserMessages)));
}

#[test]
fn session_opens_on_header_tool_and_switches_by_name() {
    let mut df = DemoFileViewModel::new(session_with_frames(five_plain_frames()));
    assert_eq!(df.tools.len(), 8);
    assert_eq!(df.active_tool_index, 1);
    assert!(df.set_active_tool_by_name(ToolKind::GameEvents));
    assert_eq!(df.active_tool_index, 6);
    // the switch queues a focus event for the next dispatch pass
    let batch = df.take_pending_events();
    assert_eq!(batch.len(), 1);
    assert!(matches!(batch[0], Event::SetFocus(Focusable::GameEventsList)));
}

#[test]
fn tool_switching_saturates_at_both_ends() {
    let mut df = DemoFileViewModel::new(session_with_frames(five_plain_frames()));
    df.first_tool();
    assert_eq!(df.active_tool_index, 0);
    assert!(!df.prev_tool());
    assert_eq!(df.active_tool_index, 0);
    df.last_tool();
    assert_eq!(df.active_tool_index, 7);
    assert!(!df.next_tool());
    assert_eq!(df.active_tool_index, 7);
    assert!(df.prev_tool());
    assert_eq!(df.active_tool_index, 6);
}

#[test]
fn background_load_polls_not_finished_then_installs_session() {
    let mut m = MainViewModel::new();
    m.begin_open_file("mydemo".to_string());
    assert!(matches!(m.inner_view_model, InnerView::Opening(_)));
    assert_eq!(m.tasks.load, TaskState::Running);
    for _ in 0..4 {
        let err = m.poll_load(LoadPoll::StillRunning);
        assert!(err.is_none());
        assert!(matches!(m.inner_view_model, InnerView::Opening(_)));
    }
    let err = m.poll_load(LoadPoll::Finished(Ok(session_with_frames(five_plain_frames()))));
    assert!(err.is_none());
    assert_eq!(m.tasks.load, TaskState::Idle);
    match &m.inner_view_model {
        InnerView::DemoFile(df) => {
            assert_eq!(df.tools.len(), 8);
            assert_eq!(df.active_tool_index, 1);
        },
        _ => panic!("session view expected"),
    }
}

#[test]
fn failed_load_reverts_to_no_file_view_with_the_error() {
    let mut m = MainViewModel::new();
    m.begin_open_file("broken".to_string());
    let err = m.poll_load(LoadPoll::Finished(Err("cannot parse".to_string())));
    assert_eq!(err, Some("cannot parse".to_string()));
    assert!(matches!(m.inner_view_model, InnerView::NoFilesOpen(_)));
    assert_eq!(m.tasks.load, TaskState::Idle);
}

#[test]
fn focus_then_three_downs_lands_on_display_position_two() {
    let mut m = MainViewModel::new();
    m.begin_open_file("demo".to_string());
    let _ = m.poll_load(LoadPoll::Finished(Ok(session_with_frames(five_plain_frames()))));
    // switch to the frames tool, then give its list the keyboard focus
    assert!(m.handle_event(&Event::SetTool(ToolKind::Frames)));
    m.handle_event(&Event::SetFocus(Focusable::FramesListViewModel));
    let mut down = no_keys();
    down.arrow_down = true;
    let mut batch: Vec<Event> = Vec::new();
    m.handle_keyboard(&down, &mut batch);
    m.handle_keyboard(&down, &mut batch);
    m.handle_keyboard(&down, &mut batch);
    assert!(batch.is_empty());
    match &m.inner_view_model {
        InnerView::DemoFile(df) => match &df.tools[3].vm {
            ToolPanel::Frames(ft) => {
                assert_eq!(ft.vm_frames_list.nav.active, Some(ft.vm_frames_list.nav.display[2]));
                assert_eq!(ft.vm_frames_list.nav.active, Some(2));
            },
            _ => panic!("frames tool expected"),
        },
        _ => panic!("session view expected"),
    }
}

#[test]
fn ctrl_arrows_jump_to_the_boundaries() {
    let mut m = MainViewModel::new();
    m.begin_open_file("demo".to_string());
    let _ = m.poll_load(LoadPoll::Finished(Ok(session_with_frames(five_plain_frames()))));
    assert!(m.handle_event(&Event::SetTool(ToolKind::Frames)));
    m.handle_event(&Event::SetFocus(Focusable::FramesListViewModel));
    let mut down = no_keys();
    down.arrow_down = true;
    down.ctrl = true;
    let mut batch: Vec<Event> = Vec::new();
    m.handle_keyboard(&down, &mut batch);
    match &m.inner_view_model {
        InnerView::DemoFile(df) => match &df.tools[3].vm {
            ToolPanel::Frames(ft) => assert_eq!(ft.vm_frames_list.nav.active, Some(4)),
            _ => panic!("frames tool expected"),
        },
        _ => panic!("session view expected"),
    }
    let mut up = no_keys();
    up.arrow_up = true;
    up.ctrl = true;
    m.handle_keyboard(&up, &mut batch);
    match &m.inner_view_model {
        InnerView::DemoFile(df) => match &df.tools[3].vm {
            ToolPanel::Frames(ft) => assert_eq!(ft.vm_frames_list.nav.active, Some(0)),
            _ => panic!("frames tool expected"),
        },
        _ => panic!("session view expected"),
    }
}

#[test]
fn shift_arrow_moves_ten_steps() {
    let frames: Vec<FrameInfo> = (0..20).map(|i| plain_frame(i, 2, "Packet")).collect();
    let mut m = MainViewModel::new();
    m.begin_open_file("demo".to_string());
    let _ = m.poll_load(LoadPoll::Finished(Ok(session_with_frames(frames))));
    assert!(m.handle_event(&Event::SetTool(ToolKind::Frames)));
    m.handle_event(&Event::SetFocus(Focusable::FramesListViewModel));
    let mut down = no_keys();
    down.arrow_down = true;
    down.shift = true;
    let mut batch: Vec<Event> = Vec::new();
    m.handle_keyboard(&down, &mut batch);
    match &m.inner_view_model {
        InnerView::DemoFile(df) => match &df.tools[3].vm {
            // first step selects the first row, nine more follow it
            ToolPanel::Frames(ft) => assert_eq!(ft.vm_frames_list.nav.active, Some(9)),
            _ => panic!("frames tool expected"),
        },
        _ => panic!("session view expected"),
    }
}

#[test]
fn open_file_chord_emits_the_request_event() {
    let mut m = MainViewModel::new();
    let mut keys = no_keys();
    keys.open_file_combo = true;
    let mut batch: Vec<Event> = Vec::new();
    m.handle_keyboard(&keys, &mut batch);
    assert_eq!(batch.len(), 1);
    assert!(matches!(batch[0], Event::BeginOpenFile));
    // dispatching it marks the request for the caller to act on
    let unhandled = m.dispatch_events(batch);
    assert!(unhandled.is_empty());
    assert!(m.take_open_file_request());
    assert!(!m.take_open_file_request());
}

#[test]
fn diagnostic_scan_shows_then_drops_the_transient_view() {
    let mut m = MainViewModel::new();
    m.begin_open_file("demo".to_string());
    let _ = m.poll_load(LoadPoll::Finished(Ok(session_with_frames(five_plain_frames()))));
    assert!(m.handle_event(&Event::EmitNetMsgWarnErrs));
    assert_eq!(m.tasks.diag, TaskState::Running);
    assert!(m.temporary_view_model.is_some());
    m.set_task_progress("3/5 frames".to_string());
    assert_eq!(m.temporary_view_model.as_ref().unwrap().last_sub_msg, "3/5 frames");
    assert!(!m.poll_diagnostic(false));
    assert!(m.temporary_view_model.is_some());
    assert!(m.poll_diagnostic(true));
    assert!(m.temporary_view_model.is_none());
    assert_eq!(m.tasks.diag, TaskState::Idle);
}

#[test]
fn diagnostic_without_session_does_not_start() {
    let mut m = MainViewModel::new();
    let started = m.start_diagnostic(ScanKind::UserMessages);
    assert!(!started);
    assert_eq!(m.tasks.diag, TaskState::Idle);
    assert!(m.temporary_view_model.is_none());
}

#[test]
fn unhandled_events_come_back_from_dispatch() {
    let mut m = MainViewModel::new();
    // without a session nobody consumes a select-frame event
    let batch = vec![
        Event::SelectFrame(FramesToolId::Frames, 1),
        Event::BeginOpenFile,
    ];
    let unhandled = m.dispatch_events(batch);
    assert_eq!(unhandled.len(), 1);
    assert!(matches!(unhandled[0], Event::SelectFrame(FramesToolId::Frames, 1)));
}

#[test]
fn cross_tool_jump_clears_filter_and_selects_the_hidden_message() {
    // a goto from the frames tool emits set-tool, clear-filter and
    // select-message; the user-message list must end on the target even
    // when its filter hides it
    let um = |disc: u64| UserMessageRecord {
        frame_index: 0,
        message_index: 0,
        tick: 0,
        record: msg(disc, if disc == 1 { "SayText" } else { "TextMsg" }),
    };
    let mut session = session_with_frames(five_plain_frames());
    session.user_messages = vec![um(1), um(2), um(1)];
    let mut m = MainViewModel::new();
    m.begin_open_file("demo".to_string());
    let _ = m.poll_load(LoadPoll::Finished(Ok(session)));
    // hide discriminator 2 in the user-message list
    match &mut m.inner_view_model {
        InnerView::DemoFile(df) => match &mut df.tools[5].vm {
            ToolPanel::UserMessages(ut) => {
                assert!(ut.vm_messages.nav.set_enabled(2, false));
                assert_eq!(ut.vm_messages.nav.display, vec![0, 2]);
            },
            _ => panic!("user-messages tool expected"),
        },
        _ => panic!("session view expected"),
    }
    let jump = vec![
        Event::SetTool(ToolKind::UserMessages),
        Event::ClearFilter(Filters::UserMessages),
        Event::SelectMessage(ListName::UserMessages, 1),
    ];
    let unhandled = m.dispatch_events(jump);
    assert!(unhandled.is_empty());
    match &m.inner_view_model {
        InnerView::DemoFile(df) => {
            assert_eq!(df.active_tool_index, 5);
            match &df.tools[5].vm {
                ToolPanel::UserMessages(ut) => {
                    assert_eq!(ut.vm_messages.get_active_message(), Some(1));
                    assert_eq!(ut.vm_messages.nav.display, vec![0, 1, 2]);
                },
                _ => panic!("user-messages tool expected"),
            }
        },
        _ => panic!("session view expected"),
    }
}

#[test]
fn set_active_tool_out_of_range_fails() {
    let mut df = DemoFileViewModel::new(session_with_frames(five_plain_frames()));
    assert!(!df.set_active_tool(8));
    assert_eq!(df.active_tool_index, 1);
    assert!(df.set_active_tool(0));
    assert_eq!(df.active_tool_index, 0);
}

#[test]
fn switching_to_an_unknown_tool_name_fails() {
    let mut df = DemoFileViewModel::new(session_with_frames(five_plain_frames()));
    assert!(df.set_active_tool_by_name(ToolKind::Tasks));
    assert_eq!(df.active_tool_index, 7);
    // both frame tools carry distinct names, so each is reachable
    assert!(df.set_active_tool_by_name(ToolKind::SignOnFrames));
    assert_eq!(df.active_tool_index, 4);
}

#[test]
fn out_of_bounds_game_event_select_is_declined() {
    let ev = GameEventRecord {
        event_id: 1,
        event_name: "player_death".to_string(),
        event_tick: 0,
        frame_index: 0,
        message_index: 0,
        keys: Vec::new(),
    };
    let mut tool = GameEventsToolViewModel::new(vec![ev]);
    assert!(!tool.handle_event(&Event::SelectGameEvent(5)));
    assert_eq!(tool.nav.active, None);
    assert!(tool.vm_active_keys.is_none());
}

#[test]
fn out_of_bounds_game_event_select_comes_back_unhandled() {
    let mut session = session_with_frames(five_plain_frames());
    session.game_events = vec![GameEventRecord {
        event_id: 1,
        event_name: "player_death".to_string(),
        event_tick: 0,
        frame_index: 0,
        message_index: 0,
        keys: Vec::new(),
    }];
    let mut m = MainViewModel::new();
    m.begin_open_file("demo".to_string());
    let _ = m.poll_load(LoadPoll::Finished(Ok(session)));
    let jump = vec![
        Event::SetTool(ToolKind::GameEvents),
        Event::SelectGameEvent(7),
    ];
    let unhandled = m.dispatch_events(jump);
    assert_eq!(unhandled.len(), 1);
    assert!(matches!(unhandled[0], Event::SelectGameEvent(7)));
}

#[test]
fn successful_load_emits_the_file_opened_notice() {
    let mut m = MainViewModel::new();
    m.begin_open_file("mydemo".to_string());
    let mut session = session_with_frames(five_plain_frames());
    session.file_name = "mydemo".to_string();
    let _ = m.poll_load(LoadPoll::Finished(Ok(session)));
    let batch = m.collect_emitted();
    assert_eq!(batch.len(), 1);
    match &batch[0] {
        Event::NewFile(name) => assert_eq!(name, "mydemo"),
        other => panic!("expected the file-opened notice, got {:?}", other),
    }
    // handed out exactly once
    assert!(m.collect_emitted().is_empty());
}

#[test]
fn failed_load_emits_no_notice() {
    let mut m = MainViewModel::new();
    m.begin_open_file("broken".to_string());
    let _ = m.poll_load(LoadPoll::Finished(Err("cannot parse".to_string())));
    assert!(m.collect_emitted().is_empty());
}

#[test]
fn select_frame_marks_a_pending_scroll() {
    let mut tool = FramesToolViewModel::new(FramesToolId::Frames, five_plain_frames());
    assert!(!tool.vm_frames_list.nav.scroll_pending);
    assert!(tool.select_frame(2));
    assert!(tool.vm_frames_list.nav.scroll_pending);
}

#[test]
fn select_frame_carries_selection_and_hide_choice_to_the_next_pane() {
    let mut rec0 = msg(1, "A");
    rec0.fields = vec![FieldEntry { name: "x".to_string(), value: FieldValue::Missing }];
    let mut rec1 = msg(1, "A");
    rec1.fields = vec![FieldEntry { name: "y".to_string(), value: FieldValue::Missing }];
    let frames = vec![
        packet_frame(0, vec![rec0, msg(2, "B")]),
        packet_frame(10, vec![rec1, msg(3, "C")]),
    ];
    let mut tool = FramesToolViewModel::new(FramesToolId::Frames, frames);
    assert!(tool.select_frame(0));
    {
        let pd = tool.vm_packet_data.as_mut().unwrap();
        assert!(pd.vm_message_list.set_active_message(0));
        pd.vm_message_list.set_detail_hide(true);
    }
    assert!(tool.select_frame(1));
    let pd = tool.vm_packet_data.as_ref().unwrap();
    assert_eq!(pd.vm_message_list.get_active_message(), Some(0));
    let detail = pd.vm_message_list.vm_protobuf_message.as_ref().unwrap();
    assert!(detail.hide_none_values_get());
}

#[test]
fn tool_selects_mark_a_pending_scroll() {
    let ev = GameEventRecord {
        event_id: 1,
        event_name: "round_start".to_string(),
        event_tick: 0,
        frame_index: 0,
        message_index: 0,
        keys: Vec::new(),
    };
    let mut gt = GameEventsToolViewModel::new(vec![ev]);
    assert!(!gt.nav.scroll_pending);
    assert!(gt.set_active_index(0));
    assert!(gt.nav.scroll_pending);

    let mut list = ProtobufMessageListViewModel::new(ListName::UserMessages, vec![msg(1, "A")]);
    assert!(!list.nav.scroll_pending);
    assert!(list.set_active_message(0));
    assert!(list.nav.scroll_pending);
}
