use my_launcher::engine::native_messaging::{
    ChromeCommand, ChromeTab, NativeCommand, NativeMessage, TabManager,
};
use my_launcher::framing::{
    check_body, check_length, decode, decode_header, encode, split_frame, FramingError,
    HEADER_LEN, MAX_MESSAGE_LEN,
};
use my_launcher::ipc::{
    after_failure, chrome_tab_from, client_retry_policy, handle_message, server_retry_policy,
    server_step, tab_info_from, ChromeExtensionCommand, IpcMessage, RetryDecision, ServerAction,
    ServerEvent, TabInfo, CONNECT_ATTEMPTS, CONNECT_RETRY_DELAY_MS, PIPE_NAME,
    SERVER_RETRY_DELAY_MS,
};
use my_launcher::native_host::{
    after_body, after_header, classify, handle_chrome_response, handle_command, host_step,
    request_for, switch_directive_for, HostAction, HostEvent, HostInbound, HostState,
    LauncherReply,
};

fn tab(id: i32, title: &str, url: &str) -> ChromeTab {
    ChromeTab {
        id,
        window_id: 10,
        title: title.to_string(),
        url: url.to_string(),
        fav_icon_url: String::new(),
        active: true,
        index: 0,
    }
}

fn switch(tab_id: i32, window_id: i32) -> ChromeCommand {
    ChromeCommand::SwitchToTab { tab_id, window_id }
}

#[test]
fn encode_prefixes_the_length_in_little_endian() {
    assert_eq!(HEADER_LEN, 4);
    assert_eq!(encode(b"{}"), vec![2, 0, 0, 0, b'{', b'}']);
    let body = vec![b' '; 0x0102];
    let framed = encode(&body);
    assert_eq!(&framed[..4], &[0x02, 0x01, 0x00, 0x00]);
    assert_eq!(&framed[4..], &body[..]);
    let body = vec![b' '; 0x01_0000];
    assert_eq!(&encode(&body)[..4], &[0x00, 0x00, 0x01, 0x00]);
}

#[test]
fn decode_returns_what_encode_was_given() {
    let bodies: Vec<&[u8]> = vec![
        b"{}",
        b"\"GetTabs\"",
        b"{\"command\":\"getTabs\"}",
        b"[1, 2, 3]",
        "{\"title\":\"日本語\"}".as_bytes(),
        b"0",
    ];
    for body in bodies {
        assert_eq!(decode(&encode(body)), Ok(body.to_vec()));
    }
}

#[test]
fn decode_leaves_what_follows_the_envelope() {
    let mut stream = encode(b"{\"a\":1}");
    stream.extend_from_slice(&encode(b"{\"b\":2}"));
    assert_eq!(decode(&stream), Ok(b"{\"a\":1}".to_vec()));
    assert_eq!(decode(&stream[4 + 7..]), Ok(b"{\"b\":2}".to_vec()));
}

#[test]
fn decode_accepts_the_largest_body() {
    let mut body = vec![b' '; MAX_MESSAGE_LEN as usize];
    body[0] = b'1';
    let framed = encode(&body);
    assert_eq!(&framed[..4], &[0x00, 0x00, 0x10, 0x00]);
    assert_eq!(decode(&framed), Ok(body));
}

#[test]
fn oversize_is_rejected_on_the_header_alone() {
    assert_eq!(MAX_MESSAGE_LEN, 1_048_576);
    let header = 1_048_577u32.to_le_bytes();
    assert_eq!(decode_header(header), Err(FramingError::Oversize));
    assert_eq!(check_length(1_048_577), Err(FramingError::Oversize));
    assert_eq!(check_length(u32::MAX), Err(FramingError::Oversize));
    assert_eq!(decode(&header), Err(FramingError::Oversize));
    let mut with_body = header.to_vec();
    with_body.extend_from_slice(&vec![b' '; 1_048_577]);
    assert_eq!(decode(&with_body), Err(FramingError::Oversize));
    assert_eq!(split_frame(&with_body), Err(FramingError::Oversize));
}

#[test]
fn each_framing_error_has_its_input() {
    assert_eq!(decode(&[]), Err(FramingError::Truncated));
    assert_eq!(decode(&[2, 0, 0]), Err(FramingError::Truncated));
    assert_eq!(decode(&[0, 0, 0, 0]), Err(FramingError::EmptyBody));
    assert_eq!(decode(&[0, 0, 0, 0, b'{', b'}']), Err(FramingError::EmptyBody));
    assert_eq!(decode(&[3, 0, 0, 0, b'{', b'}']), Err(FramingError::Truncated));
    assert_eq!(decode(&[1, 0, 16, 0]), Err(FramingError::Oversize));
    assert_eq!(decode(&[2, 0, 0, 0, b'{', b'x']), Err(FramingError::InvalidJson));
    assert_eq!(decode(&[2, 0, 0, 0, 0xff, 0xfe]), Err(FramingError::InvalidJson));
    assert_eq!(decode(&[1, 0, 0, 0, b'{', b'}']), Err(FramingError::InvalidJson));
    assert_eq!(split_frame(&[2, 0, 0, 0, b'{', b'x']), Ok(vec![b'{', b'x']));
    assert_eq!(check_length(0), Err(FramingError::EmptyBody));
    assert_eq!(check_length(1), Ok(1));
    assert_eq!(check_length(1_048_576), Ok(1_048_576));
    assert_eq!(decode_header([1, 2, 3, 0]), Ok(0x030201));
    assert_eq!(check_body(vec![1, 2], true), Ok(vec![1, 2]));
    assert_eq!(check_body(vec![1, 2], false), Err(FramingError::InvalidJson));
}

#[test]
fn queue_is_first_in_first_out() {
    let mut manager = TabManager::new();
    let (c1, c2, c3) = (switch(1, 10), switch(2, 20), switch(3, 30));
    manager.queue_command(c1);
    manager.queue_command(c2);
    manager.queue_command(c3);
    assert_eq!(manager.pop_command(), Some(c1));
    assert_eq!(manager.pop_command(), Some(c2));
    assert_eq!(manager.pop_command(), Some(c3));
    assert_eq!(manager.pop_command(), None);
    assert_eq!(manager.pop_command(), None);
}

#[test]
fn a_popped_command_is_not_popped_again() {
    let mut manager = TabManager::new();
    manager.queue_command(switch(7, 1));
    assert_eq!(manager.pop_command(), Some(switch(7, 1)));
    assert_eq!(manager.pop_command(), None);
    manager.queue_command(switch(8, 1));
    manager.queue_command(switch(8, 1));
    manager.queue_command(switch(9, 1));
    assert_eq!(manager.pop_command(), Some(switch(8, 1)));
    manager.queue_command(switch(10, 1));
    assert_eq!(manager.pop_command(), Some(switch(8, 1)));
    assert_eq!(manager.pop_command(), Some(switch(9, 1)));
    assert_eq!(manager.pop_command(), Some(switch(10, 1)));
    assert_eq!(manager.pop_command(), None);
}

#[test]
fn replace_takes_the_whole_list() {
    let mut manager = TabManager::new();
    assert!(manager.get_tabs().is_empty());
    for round in 0..50usize {
        let len = (round * 7) % 13;
        let tabs: Vec<ChromeTab> = (0..len).map(|i| tab(i as i32, "t", "u")).collect();
        manager.update_tabs(tabs);
        let seen = manager.get_tabs();
        assert_eq!(seen.len(), len);
        for (i, t) in seen.iter().enumerate() {
            assert_eq!(t.id, i as i32);
        }
    }
    manager.queue_command(switch(1, 1));
    manager.update_tabs(vec![tab(1, "a", "b")]);
    assert_eq!(manager.pop_command(), Some(switch(1, 1)));
    assert_eq!(manager.get_tabs().len(), 1);
}

#[test]
fn search_ignores_case() {
    let mut manager = TabManager::new();
    manager.update_tabs(vec![tab(1, "Chrome Canary", "https://example.org/")]);
    let found = manager.search_tabs("CHROME");
    assert_eq!(found.len(), 1);
    assert_eq!(found[0].title, "Chrome Canary");
    assert_eq!(found[0].id, 1);
}

#[test]
fn search_looks_at_title_and_url_and_keeps_order() {
    let mut manager = TabManager::new();
    manager.update_tabs(vec![
        tab(1, "Rust Book", "https://doc.rust-lang.org/book/"),
        tab(2, "News", "https://news.example/"),
        tab(3, "Cargo", "https://doc.RUST-lang.org/cargo/"),
        tab(4, "ÄPFEL", "https://obst.example/"),
    ]);
    let ids = |tabs: Vec<ChromeTab>| tabs.iter().map(|t| t.id).collect::<Vec<_>>();
    assert_eq!(ids(manager.search_tabs("rust")), vec![1, 3]);
    assert_eq!(ids(manager.search_tabs("NEWS")), vec![2]);
    assert_eq!(ids(manager.search_tabs("äpfel")), vec![4]);
    assert_eq!(ids(manager.search_tabs("")), vec![1, 2, 3, 4]);
    assert!(manager.search_tabs("nothing").is_empty());
    assert_eq!(ids(manager.search_tabs("ust b")), vec![1]);
    assert!(manager.search_tabs("rustbook").is_empty());
}

#[test]
fn pipe_round_trip() {
    let mut manager = TabManager::new();
    manager.update_tabs(vec![ChromeTab {
        id: 1,
        window_id: 10,
        title: "A".to_string(),
        url: "http://a".to_string(),
        fav_icon_url: "".to_string(),
        active: true,
        index: 0,
    }]);
    match handle_message(&mut manager, IpcMessage::GetTabs) {
        Some(IpcMessage::TabList { tabs }) => {
            assert_eq!(tabs.len(), 1);
            assert_eq!(tabs[0].id, 1);
            assert_eq!(tabs[0].window_id, 10);
            assert_eq!(tabs[0].title, "A");
            assert_eq!(tabs[0].url, "http://a");
            assert_eq!(tabs[0].fav_icon_url, "");
            assert!(tabs[0].active);
            assert_eq!(tabs[0].index, 0);
        }
        other => panic!("expected a tab list, got {:?}", other),
    }
    assert_eq!(manager.get_tabs().len(), 1);
}

#[test]
fn command_piggyback() {
    let mut manager = TabManager::new();
    manager.update_tabs(vec![tab(1, "A", "http://a")]);
    manager.queue_command(switch(5, 2));
    match handle_message(&mut manager, IpcMessage::GetTabs) {
        Some(IpcMessage::ChromeCommand { command }) => {
            assert_eq!(
                command,
                ChromeExtensionCommand::SwitchToTab { tab_id: 5, window_id: 2 }
            );
        }
        other => panic!("expected a command, got {:?}", other),
    }
    match handle_message(&mut manager, IpcMessage::GetTabs) {
        Some(IpcMessage::TabList { tabs }) => {
            assert_eq!(tabs.len(), 1);
            assert_eq!(tabs[0].title, "A");
        }
        other => panic!("expected a tab list, got {:?}", other),
    }
}

#[test]
fn server_acknowledges_switches_and_pushed_lists() {
    let mut manager = TabManager::new();
    manager.queue_command(switch(1, 1));
    match handle_message(&mut manager, IpcMessage::SwitchToTab { tab_id: 3, window_id: 4 }) {
        Some(IpcMessage::TabSwitchResult { success, error }) => {
            assert!(success);
            assert_eq!(error, None);
        }
        other => panic!("expected a result, got {:?}", other),
    }
    let pushed = vec![tab_info_from(tab(8, "Pushed", "http://p")), tab_info_from(tab(9, "Q", "http://q"))];
    match handle_message(&mut manager, IpcMessage::TabList { tabs: pushed }) {
        Some(IpcMessage::TabSwitchResult { success, error }) => {
            assert!(success);
            assert_eq!(error, None);
        }
        other => panic!("expected a result, got {:?}", other),
    }
    let tabs = manager.get_tabs();
    assert_eq!(tabs.len(), 2);
    assert_eq!(tabs[0].id, 8);
    assert_eq!(tabs[1].title, "Q");
    assert!(handle_message(
        &mut manager,
        IpcMessage::TabSwitchResult { success: true, error: None }
    )
    .is_none());
    assert!(handle_message(
        &mut manager,
        IpcMessage::ChromeCommand {
            command: ChromeExtensionCommand::SwitchToTab { tab_id: 1, window_id: 1 }
        }
    )
    .is_none());
    assert_eq!(manager.pop_command(), Some(switch(1, 1)));
    assert_eq!(manager.pop_command(), Some(switch(3, 4)));
    assert_eq!(manager.pop_command(), None);
    let back = chrome_tab_from(TabInfo {
        id: 3,
        window_id: 4,
        title: "t".to_string(),
        url: "u".to_string(),
        fav_icon_url: "f".to_string(),
        active: false,
        index: 6,
    });
    assert_eq!((back.id, back.window_id, back.index, back.active), (3, 4, 6, false));
    assert_eq!((back.title.as_str(), back.url.as_str(), back.fav_icon_url.as_str()), ("t", "u", "f"));
}

#[test]
fn retry_policies_keep_their_defaults() {
    assert_eq!(PIPE_NAME, r"\\.\pipe\my_launcher_ipc");
    assert_eq!(CONNECT_ATTEMPTS, 10);
    assert_eq!(CONNECT_RETRY_DELAY_MS, 100);
    assert_eq!(SERVER_RETRY_DELAY_MS, 5000);
    let client = client_retry_policy();
    for failures in 1..10 {
        assert_eq!(
            after_failure(client, failures),
            RetryDecision::RetryAfter { delay_ms: 100 }
        );
    }
    assert_eq!(after_failure(client, 10), RetryDecision::GiveUp);
    assert_eq!(after_failure(client, 11), RetryDecision::GiveUp);
    let server = server_retry_policy();
    assert_eq!(
        after_failure(server, 1),
        RetryDecision::RetryAfter { delay_ms: 5000 }
    );
    assert_eq!(
        after_failure(server, u32::MAX),
        RetryDecision::RetryAfter { delay_ms: 5000 }
    );
}

#[test]
fn server_loop_follows_its_rule() {
    let mut manager = TabManager::new();
    assert!(matches!(
        server_step(&mut manager, ServerEvent::CreateFailed),
        ServerAction::Wait { delay_ms: 5000 }
    ));
    assert!(matches!(server_step(&mut manager, ServerEvent::RetryDue), ServerAction::CreatePipe));
    assert!(matches!(server_step(&mut manager, ServerEvent::Created), ServerAction::Accept));
    assert!(matches!(server_step(&mut manager, ServerEvent::AcceptFailed), ServerAction::CreatePipe));
    assert!(matches!(server_step(&mut manager, ServerEvent::ClientConnected), ServerAction::Read));
    assert!(matches!(
        server_step(&mut manager, ServerEvent::Received(IpcMessage::GetTabs)),
        ServerAction::Send(IpcMessage::TabList { .. })
    ));
    assert!(matches!(server_step(&mut manager, ServerEvent::Sent), ServerAction::Read));
    assert!(matches!(
        server_step(
            &mut manager,
            ServerEvent::Received(IpcMessage::TabSwitchResult { success: true, error: None })
        ),
        ServerAction::Read
    ));
    manager.queue_command(switch(5, 2));
    assert!(matches!(
        server_step(&mut manager, ServerEvent::Received(IpcMessage::GetTabs)),
        ServerAction::Send(IpcMessage::ChromeCommand {
            command: ChromeExtensionCommand::SwitchToTab { tab_id: 5, window_id: 2 }
        })
    ));
    assert_eq!(manager.pop_command(), None);
    assert!(matches!(server_step(&mut manager, ServerEvent::ReadFailed), ServerAction::CreatePipe));
    assert!(matches!(server_step(&mut manager, ServerEvent::SendFailed), ServerAction::CreatePipe));
}

#[test]
fn bridge_passes_the_poll_on() {
    assert!(matches!(request_for(NativeCommand::GetTabs), IpcMessage::GetTabs));
    assert!(matches!(
        request_for(NativeCommand::SwitchToTab { tab_id: 4, window_id: 9 }),
        IpcMessage::SwitchToTab { tab_id: 4, window_id: 9 }
    ));
    let reply = LauncherReply::Message(IpcMessage::TabList {
        tabs: vec![tab_info_from(tab(1, "A", "http://a"))],
    });
    match handle_command(NativeCommand::GetTabs, reply) {
        NativeMessage::TabList { tabs } => {
            assert_eq!(tabs.len(), 1);
            assert_eq!(tabs[0].title, "A");
            assert_eq!(tabs[0].url, "http://a");
        }
        other => panic!("expected a tab list, got {:?}", other),
    }
    let reply = LauncherReply::Message(IpcMessage::ChromeCommand {
        command: ChromeExtensionCommand::SwitchToTab { tab_id: 5, window_id: 2 },
    });
    match handle_command(NativeCommand::GetTabs, reply) {
        NativeMessage::SwitchResult { success, tab_id, error } => {
            assert!(success);
            assert_eq!(tab_id, Some(5));
            assert_eq!(error, Some("SWITCH_TAB:5:2".to_string()));
        }
        other => panic!("expected a switch result, got {:?}", other),
    }
    for reply in [
        LauncherReply::Failed,
        LauncherReply::Unsupported,
        LauncherReply::Message(IpcMessage::GetTabs),
        LauncherReply::Message(IpcMessage::TabSwitchResult { success: true, error: None }),
    ] {
        match handle_command(NativeCommand::GetTabs, reply) {
            NativeMessage::TabList { tabs } => assert!(tabs.is_empty()),
            other => panic!("expected an empty tab list, got {:?}", other),
        }
    }
}

#[test]
fn switch_directive_has_its_fixed_form() {
    assert_eq!(switch_directive_for(5, 2), "SWITCH_TAB:5:2");
    assert_eq!(switch_directive_for(0, 0), "SWITCH_TAB:0:0");
    assert_eq!(switch_directive_for(-17, 1200), "SWITCH_TAB:-17:1200");
    assert_eq!(
        switch_directive_for(i32::MAX, i32::MIN),
        "SWITCH_TAB:2147483647:-2147483648"
    );
}

#[test]
fn bridge_passes_the_switch_on() {
    let command = NativeCommand::SwitchToTab { tab_id: 7, window_id: 3 };
    let ok = LauncherReply::Message(IpcMessage::TabSwitchResult { success: true, error: None });
    match handle_command(command, ok) {
        NativeMessage::SwitchResult { success, tab_id, error } => {
            assert!(success);
            assert_eq!(tab_id, Some(7));
            assert_eq!(error, None);
        }
        other => panic!("unexpected {:?}", other),
    }
    let refused = LauncherReply::Message(IpcMessage::TabSwitchResult {
        success: false,
        error: Some("no such tab".to_string()),
    });
    match handle_command(command, refused) {
        NativeMessage::SwitchResult { success, tab_id, error } => {
            assert!(!success);
            assert_eq!(tab_id, None);
            assert_eq!(error, Some("no such tab".to_string()));
        }
        other => panic!("unexpected {:?}", other),
    }
    for reply in [LauncherReply::Failed, LauncherReply::Message(IpcMessage::GetTabs)] {
        match handle_command(command, reply) {
            NativeMessage::SwitchResult { success, tab_id, error } => {
                assert!(!success);
                assert_eq!(tab_id, None);
                assert_eq!(error, Some("Failed to communicate with launcher".to_string()));
            }
            other => panic!("unexpected {:?}", other),
        }
    }
    match handle_command(command, LauncherReply::Unsupported) {
        NativeMessage::SwitchResult { success, tab_id, error } => {
            assert!(!success);
            assert_eq!(tab_id, None);
            assert_eq!(
                error,
                Some("Tab switching not supported on this platform".to_string())
            );
        }
        other => panic!("unexpected {:?}", other),
    }
}

#[test]
fn bridge_classifies_in_priority_order() {
    let both = classify(
        Some(NativeCommand::GetTabs),
        Some(vec![tab(1, "A", "a")]),
        Some("tabSwitchAck"),
        Some(true),
    );
    assert!(matches!(both, HostInbound::Command(NativeCommand::GetTabs)));
    let list = classify(None, Some(vec![tab(1, "A", "a")]), Some("tabSwitchAck"), Some(true));
    assert!(matches!(list, HostInbound::TabList(ref tabs) if tabs.len() == 1));
    let ack = classify(None, None, Some("tabSwitchAck"), Some(false));
    assert!(matches!(ack, HostInbound::SwitchAck { success: Some(false) }));
    let ack = classify(None, None, Some("tabSwitchAck"), None);
    assert!(matches!(ack, HostInbound::SwitchAck { success: None }));
    assert!(matches!(classify(None, None, Some("tabList"), Some(true)), HostInbound::Unknown));
    assert!(matches!(classify(None, None, None, Some(true)), HostInbound::Unknown));
}

#[test]
fn bridge_tells_the_launcher_what_is_no_command() {
    match handle_chrome_response(HostInbound::TabList(vec![tab(3, "T", "u")])) {
        Some(IpcMessage::TabList { tabs }) => {
            assert_eq!(tabs.len(), 1);
            assert_eq!(tabs[0].id, 3);
        }
        other => panic!("unexpected {:?}", other),
    }
    match handle_chrome_response(HostInbound::SwitchAck { success: Some(true) }) {
        Some(IpcMessage::TabSwitchResult { success, error }) => {
            assert!(success);
            assert_eq!(error, None);
        }
        other => panic!("unexpected {:?}", other),
    }
    match handle_chrome_response(HostInbound::SwitchAck { success: Some(false) }) {
        Some(IpcMessage::TabSwitchResult { success, error }) => {
            assert!(!success);
            assert_eq!(error, Some("Tab switch failed".to_string()));
        }
        other => panic!("unexpected {:?}", other),
    }
    assert!(handle_chrome_response(HostInbound::SwitchAck { success: None }).is_none());
    assert!(handle_chrome_response(HostInbound::Unknown).is_none());
    assert!(handle_chrome_response(HostInbound::Command(NativeCommand::GetTabs)).is_none());
}

#[test]
fn bridge_loop_follows_its_rule() {
    let (state, action) = host_step(HostState::Reading, HostEvent::Header([2, 0, 0, 0]));
    assert_eq!(state, HostState::Reading);
    assert!(matches!(action, HostAction::ReadBody { length: 2 }));
    let (state, action) = host_step(state, HostEvent::Body(b"{}".to_vec()));
    assert_eq!(state, HostState::Reading);
    assert!(matches!(action, HostAction::Interpret(ref body) if body == b"{}"));
    let (state, action) = host_step(state, HostEvent::Inbound(HostInbound::Command(NativeCommand::GetTabs)));
    assert_eq!(state, HostState::AwaitingLauncher(NativeCommand::GetTabs));
    assert!(matches!(action, HostAction::Ask(IpcMessage::GetTabs)));
    let (state, action) = host_step(state, HostEvent::Launcher(LauncherReply::Failed));
    assert_eq!(state, HostState::Reading);
    assert!(matches!(action, HostAction::Write(NativeMessage::TabList { ref tabs }) if tabs.is_empty()));
    let (state, action) = host_step(state, HostEvent::Written);
    assert_eq!(state, HostState::Reading);
    assert!(matches!(action, HostAction::ReadHeader));
    let (state, action) = host_step(state, HostEvent::Inbound(HostInbound::TabList(vec![])));
    assert_eq!(state, HostState::Reading);
    assert!(matches!(action, HostAction::Tell(IpcMessage::TabList { .. })));
    let (state, action) = host_step(state, HostEvent::Told);
    assert_eq!(state, HostState::Reading);
    assert!(matches!(action, HostAction::ReadHeader));
    let (state, action) = host_step(state, HostEvent::Inbound(HostInbound::Unknown));
    assert_eq!(state, HostState::Reading);
    assert!(matches!(action, HostAction::ReadHeader));
    let (state, action) = host_step(state, HostEvent::InputClosed);
    assert_eq!(state, HostState::Stopped);
    assert!(matches!(action, HostAction::Stop));
    let (state, action) = host_step(state, HostEvent::Header([2, 0, 0, 0]));
    assert_eq!(state, HostState::Stopped);
    assert!(matches!(action, HostAction::Stop));
}

#[test]
fn bridge_stops_on_what_cannot_be_framed() {
    for header in [[0, 0, 0, 0], [1, 0, 16, 0], [255, 255, 255, 255]] {
        let (state, action) = host_step(HostState::Reading, HostEvent::Header(header));
        assert_eq!(state, HostState::Stopped);
        assert!(matches!(action, HostAction::Stop));
        assert!(matches!(after_header(header), HostAction::Stop));
    }
    assert!(matches!(after_header([0, 0, 16, 0]), HostAction::ReadBody { length: 1_048_576 }));
    assert!(matches!(after_body(vec![1], true), HostAction::Interpret(_)));
    for event in [HostEvent::ReadFailed, HostEvent::WriteFailed] {
        let (state, action) = host_step(HostState::Reading, event);
        assert_eq!(state, HostState::Stopped);
        assert!(matches!(action, HostAction::Stop));
    }
    let waiting = HostState::AwaitingLauncher(NativeCommand::GetTabs);
    let (state, action) = host_step(waiting, HostEvent::ReadFailed);
    assert_eq!(state, HostState::Stopped);
    assert!(matches!(action, HostAction::Stop));
}

#[test]
fn bridge_drops_a_body_that_is_not_json() {
    let (state, action) = host_step(HostState::Reading, HostEvent::Body(b"{oops".to_vec()));
    assert_eq!(state, HostState::Reading);
    assert!(matches!(action, HostAction::ReadHeader));
    assert!(matches!(after_body(vec![1], false), HostAction::ReadHeader));
    let (state, action) = host_step(state, HostEvent::Header([2, 0, 0, 0]));
    assert_eq!(state, HostState::Reading);
    assert!(matches!(action, HostAction::ReadBody { length: 2 }));
}

#[test]
fn switch_request_on_the_pipe_queues_its_command() {
    let mut manager = TabManager::new();
    manager.update_tabs(vec![tab(1, "A", "http://a")]);
    manager.queue_command(switch(9, 9));
    match handle_message(&mut manager, IpcMessage::SwitchToTab { tab_id: 5, window_id: 2 }) {
        Some(IpcMessage::TabSwitchResult { success, error }) => {
            assert!(success);
            assert_eq!(error, None);
        }
        other => panic!("expected a result, got {:?}", other),
    }
    assert_eq!(manager.get_tabs().len(), 1);
    assert!(matches!(
        server_step(&mut manager, ServerEvent::Received(IpcMessage::GetTabs)),
        ServerAction::Send(IpcMessage::ChromeCommand {
            command: ChromeExtensionCommand::SwitchToTab { tab_id: 9, window_id: 9 }
        })
    ));
    assert!(matches!(
        server_step(
            &mut manager,
            ServerEvent::Received(IpcMessage::SwitchToTab { tab_id: 6, window_id: 3 })
        ),
        ServerAction::Send(IpcMessage::TabSwitchResult { success: true, error: None })
    ));
    assert_eq!(manager.pop_command(), Some(switch(5, 2)));
    assert_eq!(manager.pop_command(), Some(switch(6, 3)));
    assert_eq!(manager.pop_command(), None);
}
