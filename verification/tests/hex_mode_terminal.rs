use com_terminal::com_gpt::{
    build_payload, read_step, write_report, Command, Message, ParityOption, ReadStep, SerialApp,
};

fn connected_app() -> SerialApp {
    let (mut app, _) = SerialApp::new();
    app.update(Message::Ports(vec!["COM1".to_string()]));
    app.update(Message::PortOpened);
    app
}

#[test]
fn hex_mode_terminal_defaults() {
    let (app, cmd) = SerialApp::new();
    assert!(matches!(cmd, Command::ListPorts));
    assert_eq!(app.title(), "COM Terminal");
    assert_eq!(app.baud_rates(), &vec![9600, 19200, 38400, 57600, 115200, 128000, 256000]);
    assert_eq!(app.selected_baud(), 115200);
    assert_eq!(app.parity(), ParityOption::NoParity);
    assert!(!app.line_mode() && !app.hex_mode() && !app.port_open());
    assert_eq!(app.subscriptions(), (false, 5000));
}

#[test]
fn hex_mode_terminal_parity_choices() {
    assert_eq!(
        ParityOption::all(),
        vec![ParityOption::NoParity, ParityOption::Even, ParityOption::Odd]
    );
    assert_eq!(ParityOption::NoParity.label(), "None");
    assert_eq!(ParityOption::Even.label(), "Even");
    assert_eq!(ParityOption::Odd.label(), "Odd");
}

#[test]
fn hex_mode_terminal_selection_law_on_values() {
    let (mut app, _) = SerialApp::new();
    app.update(Message::Ports(vec!["A".to_string(), "B".to_string()]));
    assert_eq!(app.selected_port(), &Some("A".to_string()));
    app.update(Message::SelectPort(Some("B".to_string())));
    app.update(Message::Ports(vec!["C".to_string(), "B".to_string()]));
    assert_eq!(app.selected_port(), &Some("B".to_string()));
    app.update(Message::Ports(vec!["C".to_string()]));
    assert_eq!(app.selected_port(), &Some("C".to_string()));
    app.update(Message::Ports(vec![]));
    assert_eq!(app.selected_port(), &None);
    assert!(matches!(app.update(Message::Tick), Command::ListPorts));
    assert!(matches!(app.update(Message::RefreshPorts), Command::ListPorts));
}

#[test]
fn hex_mode_terminal_connect_toggle() {
    let (mut app, _) = SerialApp::new();
    assert!(matches!(app.update(Message::ConnectToggle), Command::Idle));
    assert_eq!(app.terminal(), "[No port selected]\n");
    app.update(Message::Ports(vec!["COM7".to_string()]));
    app.update(Message::SelectBaud(9600));
    app.update(Message::SelectParity(ParityOption::Even));
    match app.update(Message::ConnectToggle) {
        Command::OpenPort { name, baud_rate, parity } => {
            assert_eq!(name, "COM7");
            assert_eq!(baud_rate, 9600);
            assert_eq!(parity, ParityOption::Even);
        }
        _ => panic!("expected OpenPort"),
    }
    app.update(Message::PortOpenFailed("busy".to_string()));
    app.update(Message::PortOpened);
    assert!(app.port_open());
    assert_eq!(app.subscriptions(), (true, 5000));
    assert!(matches!(app.update(Message::ConnectToggle), Command::Disconnect));
    app.update(Message::Disconnect);
    assert_eq!(
        app.terminal(),
        "[No port selected]\n[Opening COM7 @ 9600]\n[Open error: busy]\n[Connected]\n[Disconnected]\n[Disconnected]\n"
    );
}

#[test]
fn hex_mode_terminal_send_needs_a_port() {
    let (mut app, _) = SerialApp::new();
    app.update(Message::InputChanged("hi".to_string()));
    assert!(matches!(app.update(Message::SendInput), Command::Idle));
    assert_eq!(app.terminal(), "[Not connected]\n");
}

#[test]
fn hex_mode_terminal_payloads() {
    let mut app = connected_app();
    app.update(Message::InputChanged("hi".to_string()));
    match app.update(Message::SendInput) {
        Command::Write { bytes } => assert_eq!(bytes, b"hi".to_vec()),
        _ => panic!("expected Write"),
    }
    app.update(Message::ToggleLineMode(true));
    match app.update(Message::SendInput) {
        Command::Write { bytes } => assert_eq!(bytes, b"hi\n".to_vec()),
        _ => panic!("expected Write"),
    }
    app.update(Message::InputChanged("hi\n".to_string()));
    match app.update(Message::SendInput) {
        Command::Write { bytes } => assert_eq!(bytes, b"hi\n".to_vec()),
        _ => panic!("expected Write"),
    }
    app.update(Message::ToggleHexMode(true));
    app.update(Message::InputChanged("0d 0A ff".to_string()));
    match app.update(Message::SendInput) {
        Command::Write { bytes } => assert_eq!(bytes, vec![0x0D, 0x0A, 0xFF]),
        _ => panic!("expected Write"),
    }
    app.update(Message::InputChanged("abc".to_string()));
    match app.update(Message::SendInput) {
        Command::ReportError { text } => {
            assert_eq!(text, "Send error: Hex string must have even length")
        }
        _ => panic!("expected ReportError"),
    }
    app.update(Message::ClearInput);
    assert_eq!(app.input(), "");
}

#[test]
fn hex_mode_terminal_build_payload_directly() {
    assert_eq!(build_payload(&"x".to_string(), false, true), Ok(b"x\n".to_vec()));
    assert_eq!(build_payload(&"".to_string(), false, true), Ok(b"\n".to_vec()));
    assert_eq!(build_payload(&"".to_string(), false, false), Ok(vec![]));
    assert_eq!(
        build_payload(&"q1".to_string(), true, false),
        Err("invalid digit found in string".to_string())
    );
}

#[test]
fn hex_mode_terminal_write_reports() {
    match write_report(&[0x41, 0x42], Ok(())) {
        Message::SerialData(t) => assert_eq!(t, "=> 41 42\n"),
        _ => panic!("expected SerialData"),
    }
    match write_report(&[1], Err("broken".to_string())) {
        Message::SerialError(t) => assert_eq!(t, "Send error: broken"),
        _ => panic!("expected SerialError"),
    }
}

#[test]
fn hex_mode_terminal_received_data() {
    let mut app = connected_app();
    app.update(Message::SerialData("AB".to_string()));
    assert_eq!(app.terminal(), "[Connected]\nAB");
    app.update(Message::ToggleHexMode(true));
    app.update(Message::SerialData("AB".to_string()));
    assert!(app.terminal().ends_with("<= 41 42\n"));
    app.update(Message::SerialError("gone".to_string()));
    assert!(app.terminal().ends_with("[Serial error: gone]\n"));
    assert!(!app.port_open());
    app.update(Message::ClearTerminal);
    assert_eq!(app.terminal(), "");
}

#[test]
fn hex_mode_terminal_files_and_clipboard() {
    let mut app = connected_app();
    assert!(matches!(app.update(Message::OpenFile), Command::OpenFileDialog));
    app.update(Message::FileLoaded("01 02".to_string()));
    assert_eq!(app.input(), "01 02");
    match app.update(Message::SaveTerminal) {
        Command::SaveFile { file_name, contents } => {
            assert_eq!(file_name, "terminal_log.txt");
            assert_eq!(contents, "[Connected]\n");
        }
        _ => panic!("expected SaveFile"),
    }
    match app.update(Message::CopyTerminal) {
        Command::CopyToClipboard { text } => assert_eq!(text, "[Connected]\n"),
        _ => panic!("expected CopyToClipboard"),
    }
}

#[test]
fn hex_mode_terminal_reader_steps() {
    assert!(matches!(read_step(Ok(vec![])), ReadStep::Pause));
    match read_step(Ok(vec![0x68, 0x69, 0xFE])) {
        ReadStep::Deliver(t) => assert_eq!(t, "hi\u{FFFD}"),
        _ => panic!("expected Deliver"),
    }
    match read_step(Err("reset".to_string())) {
        ReadStep::Fail(t) => assert_eq!(t, "reset"),
        _ => panic!("expected Fail"),
    }
}
