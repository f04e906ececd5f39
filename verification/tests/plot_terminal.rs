use com_terminal::com_gemini::{
    baud_rates, parse_u32, ComApp, Command, DataBits, Message, Parity, ReaderWorker, StopBits,
    StreamState, StreamStep, BAUD_DEFAULT, MAX_DATA_POINTS,
};
use com_terminal::port_io::PortRead;

#[test]
fn plot_terminal_defaults() {
    let (app, cmd) = ComApp::new();
    assert!(matches!(cmd, Command::ListPorts));
    assert_eq!(app.title(), "Serial Terminal");
    assert_eq!(app.baud_rate(), BAUD_DEFAULT);
    assert_eq!(app.baud_rate(), 9600);
    assert_eq!(app.framing(), (DataBits::Eight, Parity::NoParity, StopBits::One));
    assert!(!app.is_connected());
    assert_eq!(app.stream_config(), None);
    assert_eq!(baud_rates(), vec![110, 300, 600, 1200, 2400, 4800, 9600, 19200, 38400, 57600]);
}

#[test]
fn plot_terminal_parses_typed_speeds() {
    assert_eq!(parse_u32("9600"), Some(9600));
    assert_eq!(parse_u32("+12"), Some(12));
    assert_eq!(parse_u32("007"), Some(7));
    assert_eq!(parse_u32("4294967295"), Some(4294967295));
    assert_eq!(parse_u32("4294967296"), None);
    assert_eq!(parse_u32("99999999999999999999"), None);
    assert_eq!(parse_u32(""), None);
    assert_eq!(parse_u32("+"), None);
    assert_eq!(parse_u32("-1"), None);
    assert_eq!(parse_u32(" 1"), None);
    assert_eq!(parse_u32("12a"), None);
    assert_eq!(parse_u32("١٢"), None);
}

#[test]
fn plot_terminal_typed_speed_law_on_values() {
    let (mut app, _) = ComApp::new();
    for b in [0u32, 7, 115200, 4294967295] {
        app.update(Message::BaudRateTextChanged(b.to_string()));
        assert_eq!(app.baud_rate(), b);
    }
    app.update(Message::BaudRateTextChanged("fast".to_string()));
    assert_eq!(app.baud_rate(), 4294967295);
}

#[test]
fn plot_terminal_port_list_selects_first() {
    let (mut app, _) = ComApp::new();
    app.update(Message::PortListReceived(vec![]));
    assert_eq!(app.serial_port_name(), &None);
    app.update(Message::PortListReceived(vec!["ttyS0".to_string(), "ttyS1".to_string()]));
    assert_eq!(app.serial_port_name(), &Some("ttyS0".to_string()));
    app.update(Message::PortListError("no access".to_string()));
    app.update(Message::ErrorOccurred("late".to_string()));
    assert_eq!(app.errors(), &vec!["no access".to_string(), "late".to_string()]);
    assert!(matches!(app.update(Message::ListPorts), Command::ListPorts));
}

#[test]
fn plot_terminal_connect_and_disconnect() {
    let (mut app, _) = ComApp::new();
    assert!(matches!(app.update(Message::Connect), Command::Idle));
    assert!(matches!(app.update(Message::Disconnect), Command::Idle));
    app.update(Message::PortSelected("ttyS1".to_string()));
    app.update(Message::BaudRateSelected(19200));
    match app.update(Message::Connect) {
        Command::StartReader { port_name, baud_rate } => {
            assert_eq!(port_name, "ttyS1");
            assert_eq!(baud_rate, 19200);
        }
        _ => panic!("expected StartReader"),
    }
    assert_eq!(app.stream_config(), Some(("ttyS1".to_string(), 19200)));
    assert!(matches!(app.update(Message::Disconnect), Command::AbortReader));
    assert!(!app.is_connected());
}

#[test]
fn plot_terminal_text_input_and_buffer() {
    let (mut app, _) = ComApp::new();
    app.update(Message::InputTextChanged("cmd".to_string()));
    assert_eq!(app.input_text(), "cmd");
    app.update(Message::Send);
    assert_eq!(app.input_text(), "");
    app.update(Message::SerialDataReceived("Grüße".as_bytes().to_vec()));
    app.update(Message::SerialDataReceived(vec![0xFF, 0x41]));
    app.update(Message::SerialDataReceived(b"!".to_vec()));
    assert_eq!(app.buffer(), "Grüße!");
}

#[test]
fn plot_terminal_plot_window_law_on_values() {
    let (mut app, _) = ComApp::new();
    for i in 0..MAX_DATA_POINTS {
        match app.update(Message::DataReceived) {
            Command::PlotValue { x, drop_oldest } => {
                assert_eq!(x, i);
                assert!(!drop_oldest);
            }
            _ => panic!("expected PlotValue"),
        }
    }
    assert_eq!(app.plot_counts(), (100, 100));
    match app.update(Message::DataReceived) {
        Command::PlotValue { x, drop_oldest } => {
            assert_eq!(x, 100);
            assert!(drop_oldest);
        }
        _ => panic!("expected PlotValue"),
    }
    assert_eq!(app.plot_counts(), (100, 101));
}

#[test]
fn plot_terminal_reader_decisions() {
    assert_eq!(ReaderWorker::open_failed("busy"), "Error opening serial port: busy");
    let s = ReaderWorker::read(PortRead::Bytes(b"abc".to_vec()));
    assert!(s.go_on);
    assert_eq!(s.report, Some("abc".to_string()));
    let s = ReaderWorker::read(PortRead::Bytes(vec![0xFF]));
    assert!(s.go_on && s.report.is_none());
    let s = ReaderWorker::read(PortRead::TimedOut);
    assert!(s.go_on && s.report.is_none());
    let s = ReaderWorker::read(PortRead::Failed("eof".to_string()));
    assert!(!s.go_on);
    assert_eq!(s.report, Some("Error reading from serial port: eof".to_string()));
}

#[test]
fn plot_terminal_stream_steps() {
    let st = StreamState::start("ttyACM0".to_string(), 57600);
    assert_eq!(st.port_to_open(), Some(("ttyACM0".to_string(), 57600)));
    match st.after_read(Ok(vec![1, 2])) {
        StreamStep::Emit(Message::SerialDataReceived(d), next) => {
            assert_eq!(d, vec![1, 2]);
            assert_eq!(next.port_to_open(), Some(("ttyACM0".to_string(), 57600)));
        }
        _ => panic!("expected data"),
    }
    assert!(matches!(st.after_read(Ok(vec![])), StreamStep::Retry));
    match st.after_read(Err("reset".to_string())) {
        StreamStep::Emit(Message::ErrorOccurred(e), next) => {
            assert_eq!(e, "reset");
            assert_eq!(next.port_to_open(), None);
        }
        _ => panic!("expected error"),
    }
    let (msg, next) = StreamState::open_failed();
    assert!(matches!(msg, Message::ErrorOccurred(ref t) if t == "Could not open serial port"));
    assert_eq!(next.port_to_open(), None);
}
