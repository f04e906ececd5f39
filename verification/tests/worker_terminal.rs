use com_terminal::com_term::{
    ComTerminal, Command, Message, PollStep, PortSettings, PortWorker, WindowState, WriteRequest,
};
use com_terminal::port_io::PortRead;

fn last_line(t: &ComTerminal) -> String {
    t.terminal_output().back().cloned().unwrap()
}

#[test]
fn worker_terminal_start_up() {
    let (mut t, cmd) = ComTerminal::new();
    assert!(matches!(cmd, Command::ListStartupPorts));
    assert_eq!(t.port_settings().baud_rate, 115200);
    assert_eq!(PortSettings::default().baud_rate, 115200);
    assert_eq!(t.title(), "COM Terminal");
    t.startup_ports(Ok(vec![]));
    assert_eq!(last_line(&t), "! COM порти не Знайдено");
    t.update(Message::PortsUpdated(vec![]));
    assert_eq!(last_line(&t), "! COM порти не знайдені");
    t.startup_ports(Ok(vec!["a".to_string(), "b".to_string(), "c".to_string()]));
    assert_eq!(last_line(&t), "📋 Знайдено портів: 3");
}

#[test]
fn worker_terminal_connect_starts_a_worker() {
    let (mut t, _) = ComTerminal::new();
    t.update(Message::PortSelected("COM4".to_string()));
    assert!(!t.listens_to_reports());
    let cmd = t.connect_result(Ok(()));
    assert!(matches!(cmd, Command::StartWorker));
    assert!(t.listens_to_reports());
    assert_eq!(last_line(&t), "✓ Підключений до COM4 на 115200 baud");
    t.update(Message::ShowSettings);
    assert_eq!(t.current_window(), WindowState::Settings);
    assert_eq!(t.window_title(), "COM Terminal - Налаштунки - Підключений до COM4");
    t.update(Message::DisconnectPort);
    assert_eq!(last_line(&t), "⊗ Відключен від COM4");
    assert!(t.listens_to_reports());
}

#[test]
fn worker_terminal_port_errors_are_echoed_to_the_worker_channel() {
    let (mut t, _) = ComTerminal::new();
    assert!(matches!(t.update(Message::PortError("x".to_string())), Command::Idle));
    assert_eq!(last_line(&t), "✗ x");
    t.update(Message::PortSelected("COM4".to_string()));
    t.connect_result(Ok(()));
    match t.update(Message::PortError("lost".to_string())) {
        Command::Report { text } => assert_eq!(text, "! Помилка порту: lost"),
        _ => panic!("expected Report"),
    }
}

#[test]
fn worker_terminal_send_only_logs() {
    let (mut t, _) = ComTerminal::new();
    t.update(Message::PortSelected("COM4".to_string()));
    t.connect_result(Ok(()));
    t.update(Message::InputChanged("ping".to_string()));
    assert!(matches!(t.update(Message::SendData), Command::Idle));
    assert_eq!(last_line(&t), ">>> ping");
    assert_eq!(t.sent_bytes(), 4);
    t.update(Message::DataReceived("pong!".to_string()));
    assert_eq!(last_line(&t), "↓ pong!");
    assert_eq!(t.received_bytes(), 5);
}

#[test]
fn worker_terminal_worker_decisions() {
    assert_eq!(PortWorker::started(), "🟡 Потік читання запущено");
    assert_eq!(PortWorker::finished(), "🔻 Потік порту завершився");
    assert!(matches!(PortWorker::poll(WriteRequest::Empty), PollStep::Read));
    match PortWorker::poll(WriteRequest::Data("hi".to_string())) {
        PollStep::Write(w) => assert_eq!(w, "hi"),
        _ => panic!("expected Write"),
    }
    match PortWorker::poll(WriteRequest::Disconnected) {
        PollStep::Stop(t) => assert_eq!(t, "! Канал запису закритий"),
        _ => panic!("expected Stop"),
    }
    assert_eq!(PortWorker::write_outcome(Ok(())), "✓ Данні відправлені");
    assert_eq!(PortWorker::write_outcome(Err("busy".to_string())), "✗ Помилка запису: busy");
    let step = PortWorker::read(PortRead::Bytes(b"hey".to_vec()));
    assert!(step.go_on);
    assert_eq!(step.reports, vec!["📦 Отримано 3 байт".to_string(), "hey".to_string()]);
    let step = PortWorker::read(PortRead::TimedOut);
    assert!(step.go_on && step.reports.is_empty());
    let step = PortWorker::read(PortRead::Failed("eof".to_string()));
    assert!(!step.go_on);
    assert_eq!(step.reports, vec!["! Помилка читання: eof".to_string()]);
}

#[test]
fn worker_terminal_clear_and_simulated_files() {
    let (mut t, _) = ComTerminal::new();
    t.update(Message::OpenFile);
    assert_eq!(last_line(&t), "=== Файл відкритий (симуляція) ===");
    t.update(Message::SaveLog);
    assert_eq!(last_line(&t), "=== Лог збережено (симуляція) ===");
    t.update(Message::StartMonitoring);
    assert!(t.monitoring());
    t.update(Message::ClearTerminal);
    assert_eq!(t.terminal_output().len(), 1);
    assert_eq!(last_line(&t), "=== Термінал очищено ===");
}
