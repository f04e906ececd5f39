use com_terminal::claude_com2::{ComTerminal, Command, Message, PortSettings};
use com_terminal::port_io::PortRead;

fn last_line(t: &ComTerminal) -> String {
    t.terminal_output().back().cloned().unwrap()
}

fn line_count(t: &ComTerminal) -> usize {
    t.terminal_output().len()
}

fn connected() -> ComTerminal {
    let (mut t, _) = ComTerminal::new();
    t.update(Message::PortSelected("/dev/ttyUSB0".to_string()));
    t.connect_result(Ok(()));
    t
}

#[test]
fn poll_terminal_lists_ports_at_start_up() {
    let (mut t, cmd) = ComTerminal::new();
    assert!(matches!(cmd, Command::ListStartupPorts));
    t.startup_ports(Ok(vec![]));
    assert_eq!(last_line(&t), "⚠️ COM порты не найдены");
    t.startup_ports(Ok(vec!["COM1".to_string()]));
    assert_eq!(last_line(&t), "📋 Найдено портов: 1");
    t.startup_ports(Err("denied".to_string()));
    assert_eq!(last_line(&t), "❌ Ошибка получения списка портов: denied");
    assert_eq!(PortSettings::default().baud_rate, 9600);
}

#[test]
fn poll_terminal_refresh_reports_count_even_when_empty() {
    let (mut t, _) = ComTerminal::new();
    assert!(matches!(t.update(Message::RefreshPorts), Command::ListPorts));
    t.refresh_result(Ok(vec![]));
    assert_eq!(last_line(&t), "📋 Найдено портов: 0");
    t.refresh_result(Err("io".to_string()));
    assert_eq!(last_line(&t), "❌ Ошибка получения списка портов: io");
}

#[test]
fn poll_terminal_polls_only_while_connected() {
    let (mut t, _) = ComTerminal::new();
    assert_eq!(t.poll_interval_ms(), None);
    assert!(matches!(t.update(Message::Tick), Command::Idle));
    let mut c = connected();
    assert_eq!(c.poll_interval_ms(), Some(100));
    assert!(matches!(c.update(Message::Tick), Command::ReadPort));
    assert_eq!(last_line(&c), "✅ Подключен к /dev/ttyUSB0 на 9600 baud");
}

#[test]
fn poll_terminal_send_and_write_outcomes() {
    let mut t = connected();
    t.update(Message::InputChanged("AT".to_string()));
    match t.update(Message::SendData) {
        Command::Write { data } => assert_eq!(data, "AT"),
        _ => panic!("expected Write"),
    }
    assert_eq!(t.sent_bytes(), 2);
    t.write_result(Ok(()));
    assert_eq!(last_line(&t), "✓ Данные отправлены");
    t.write_result(Err("timed out".to_string()));
    assert_eq!(last_line(&t), "❌ Ошибка отправки данных: timed out");
}

#[test]
fn poll_terminal_reads_count_received_bytes() {
    let mut t = connected();
    assert!(t.read_result(PortRead::Bytes("Привет".as_bytes().to_vec())));
    assert_eq!(last_line(&t), "<- Привет");
    assert_eq!(t.received_bytes(), 12);
    let n = line_count(&t);
    assert!(t.read_result(PortRead::Bytes(vec![])));
    assert!(t.read_result(PortRead::TimedOut));
    assert_eq!(line_count(&t), n);
    assert!(t.read_result(PortRead::Bytes(vec![0xC3])));
    assert_eq!(last_line(&t), "<- \u{FFFD}");
    assert_eq!(t.received_bytes(), 15);
    assert!(t.read_result(PortRead::Failed("gone".to_string())));
    assert_eq!(last_line(&t), "❌ Ошибка чтения из порта: gone");
}

#[test]
fn poll_terminal_counters_law_on_values() {
    let mut t = connected();
    t.update(Message::DataReceived("abc".to_string()));
    assert_eq!(t.received_bytes(), 3);
    assert_eq!(last_line(&t), "<- abc");
    t.update(Message::InputChanged("€".to_string()));
    t.update(Message::SendData);
    assert_eq!(t.sent_bytes(), 3);
    assert_eq!(t.received_bytes(), 3);
}

#[test]
fn poll_terminal_disconnect_requires_a_port_name() {
    let (mut t, _) = ComTerminal::new();
    let n = line_count(&t);
    t.update(Message::DisconnectPort);
    assert_eq!(line_count(&t), n);
    let mut c = connected();
    c.update(Message::DisconnectPort);
    assert!(!c.port_settings().connected);
    assert!(!c.port_open());
    assert_eq!(c.poll_interval_ms(), None);
    assert_eq!(last_line(&c), "🔌 Отключен от /dev/ttyUSB0");
}
