use com_terminal::claude_com::{
    read_step, send_failure, send_report, ComTerminal, Command, Message, PortSettings, ReadStep,
    WindowState,
};
use com_terminal::port_io::PortRead;

fn lines(t: &ComTerminal) -> Vec<String> {
    t.terminal_output().iter().cloned().collect()
}

fn last_line(t: &ComTerminal) -> String {
    t.terminal_output().back().cloned().unwrap()
}

fn connected_terminal() -> ComTerminal {
    let (mut t, _) = ComTerminal::new();
    t.update(Message::PortSelected("COM3".to_string()));
    t.connect_result(Ok(()));
    t
}

#[test]
fn task_terminal_starts_on_terminal_page_and_lists_ports() {
    let (t, cmd) = ComTerminal::new();
    assert!(matches!(cmd, Command::ListPorts));
    assert_eq!(t.current_window(), WindowState::Terminal);
    assert_eq!(
        lines(&t),
        vec!["=== COM Terminal запущен ===".to_string(), "Загружаем список COM портов...".to_string()]
    );
    assert_eq!(t.baud_rates(), &vec![9600, 19200, 38400, 57600, 115200]);
    assert_eq!(t.port_settings().baud_rate, 9600);
    assert!(!t.port_settings().connected);
    assert_eq!(t.sent_bytes(), 0);
    assert_eq!(t.title(), "COM Terminal - Терминал - Отключен");
}

#[test]
fn task_terminal_defaults() {
    let p = PortSettings::default();
    assert_eq!(p.baud_rate, 9600);
    assert!(p.port_name.is_none());
    assert!(!p.connected);
    assert_eq!(WindowState::default(), WindowState::Terminal);
}

#[test]
fn task_terminal_navigation_only_changes_the_page() {
    let (mut t, _) = ComTerminal::new();
    let before = lines(&t);
    assert!(matches!(t.update(Message::ShowSettings), Command::Idle));
    assert_eq!(t.current_window(), WindowState::Settings);
    t.update(Message::ShowMonitor);
    assert_eq!(t.current_window(), WindowState::Monitor);
    t.update(Message::ShowFileView);
    assert_eq!(t.current_window(), WindowState::FileView);
    assert_eq!(t.title(), "COM Terminal - Файлы - Отключен");
    t.update(Message::ShowTerminal);
    assert_eq!(lines(&t), before);
}

#[test]
fn task_terminal_connect_asks_to_open_the_chosen_port() {
    let (mut t, _) = ComTerminal::new();
    assert!(matches!(t.update(Message::ConnectPort), Command::Idle));
    t.update(Message::PortSelected("COM3".to_string()));
    t.update(Message::BaudRateSelected(115200));
    match t.update(Message::ConnectPort) {
        Command::OpenPort { name, baud_rate } => {
            assert_eq!(name, "COM3");
            assert_eq!(baud_rate, 115200);
        }
        _ => panic!("expected OpenPort"),
    }
    let cmd = t.connect_result(Ok(()));
    assert!(matches!(cmd, Command::ReadPort));
    assert!(t.port_settings().connected);
    assert!(t.port_open());
    assert_eq!(last_line(&t), "✅ Подключен к COM3 на 115200 baud");
    assert_eq!(t.title(), "COM Terminal - Терминал - Подключен к COM3");
}

#[test]
fn task_terminal_failed_connect_is_logged() {
    let (mut t, _) = ComTerminal::new();
    t.update(Message::PortSelected("COM9".to_string()));
    let cmd = t.connect_result(Err("No such file or directory".to_string()));
    assert!(matches!(cmd, Command::Idle));
    assert!(!t.port_settings().connected);
    assert_eq!(last_line(&t), "❌ Ошибка подключения к COM9: No such file or directory");
}

#[test]
fn task_terminal_send_logs_counts_and_writes() {
    let mut t = connected_terminal();
    t.update(Message::InputChanged("héllo".to_string()));
    match t.update(Message::SendData) {
        Command::Write { data } => assert_eq!(data, "héllo"),
        _ => panic!("expected Write"),
    }
    assert_eq!(last_line(&t), ">>> héllo");
    assert_eq!(t.sent_bytes(), 6);
    assert_eq!(t.input_text(), "");
    t.update(Message::SendResult(send_report("héllo")));
    assert_eq!(last_line(&t), "✓ Данные отправлены: héllo");
}

#[test]
fn task_terminal_send_needs_input_and_connection() {
    let (mut t, _) = ComTerminal::new();
    t.update(Message::InputChanged("x".to_string()));
    let before = lines(&t);
    assert!(matches!(t.update(Message::SendData), Command::Idle));
    assert_eq!(lines(&t), before);
    assert_eq!(t.input_text(), "x");
    let mut c = connected_terminal();
    let before = lines(&c);
    assert!(matches!(c.update(Message::SendData), Command::Idle));
    assert_eq!(lines(&c), before);
}

#[test]
fn task_terminal_received_data_is_logged_and_read_again() {
    let mut t = connected_terminal();
    assert!(matches!(t.update(Message::DataReceived("pong".to_string())), Command::ReadPort));
    assert_eq!(last_line(&t), "<- pong");
    assert_eq!(t.received_bytes(), 0);
    t.update(Message::PortError(send_failure()));
    assert_eq!(last_line(&t), "❌ Ошибка отправки данных");
}

#[test]
fn task_terminal_port_lists() {
    let (mut t, _) = ComTerminal::new();
    assert!(matches!(t.update(Message::RefreshPorts), Command::ListPorts));
    t.update(Message::PortsUpdated(vec![]));
    assert_eq!(last_line(&t), "⚠️ COM порты не найдены");
    t.update(Message::PortsUpdated(vec!["COM1".to_string(), "COM2".to_string()]));
    assert_eq!(last_line(&t), "📋 Найдено портов: 2");
    assert_eq!(t.available_ports(), &vec!["COM1".to_string(), "COM2".to_string()]);
}

#[test]
fn task_terminal_clear_law_on_values() {
    let mut t = connected_terminal();
    t.update(Message::DataReceived("a".to_string()));
    t.update(Message::ClearTerminal);
    assert_eq!(lines(&t), vec!["=== Терминал очищен ===".to_string()]);
}

#[test]
fn task_terminal_log_only_grows_law_on_values() {
    let mut t = connected_terminal();
    let msgs = vec![
        Message::StartMonitoring,
        Message::StopMonitoring,
        Message::OpenFile,
        Message::SaveLog,
        Message::DisconnectPort,
    ];
    for m in msgs {
        let before = lines(&t);
        t.update(m);
        let after = lines(&t);
        assert_eq!(&after[..before.len()], &before[..]);
        assert_eq!(after.len(), before.len() + 1);
    }
    assert_eq!(t.log_file_path(), &Some("example.log".to_string()));
    assert!(!t.port_settings().connected);
    assert!(!t.port_open());
    assert_eq!(last_line(&t), "🔌 Отключен от COM3");
}

#[test]
fn task_terminal_read_step_decisions() {
    assert!(matches!(read_step(PortRead::Bytes(vec![])), ReadStep::Again));
    assert!(matches!(read_step(PortRead::TimedOut), ReadStep::Again));
    match read_step(PortRead::Bytes(b"ok".to_vec())) {
        ReadStep::Data(s) => assert_eq!(s, "ok"),
        _ => panic!("expected data"),
    }
    match read_step(PortRead::Bytes(vec![b'a', 0xFF])) {
        ReadStep::Data(s) => assert_eq!(s, "a\u{FFFD}"),
        _ => panic!("expected data"),
    }
    match read_step(PortRead::Failed("broken pipe".to_string())) {
        ReadStep::Failed(e) => assert_eq!(e, "Ошибка чтения порта"),
        _ => panic!("expected failure"),
    }
}
