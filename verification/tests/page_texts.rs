use com_terminal::{claude_com, claude_com2, com_gemini, com_gpt, com_term};

#[test]
fn page_texts_russian_disconnected() {
    let (t, _) = claude_com::ComTerminal::new();
    assert_eq!(t.status_text(), "❌ Отключен");
    assert_eq!(t.traffic_text(), "Отправлено: 0 байт | Получено: 0 байт");
    let (label, msg) = t.connect_button();
    assert_eq!(label, "🔌 Подключиться");
    assert!(matches!(msg, claude_com::Message::ConnectPort));
    assert_eq!(
        t.monitor_texts(),
        vec![
            "📤 Отправлено: 0 байт".to_string(),
            "📥 Получено: 0 байт".to_string(),
            "📊 Мониторинг: 🔴 Остановлен".to_string(),
            "🔗 Соединение: Отключено".to_string(),
        ]
    );
    let (label, msg) = t.monitor_button();
    assert_eq!(label, "▶️ Начать мониторинг");
    assert!(matches!(msg, claude_com::Message::StartMonitoring));
    assert_eq!(t.file_text(), "📄 Файл не выбран");
    assert_eq!(t.nav_text_size(claude_com::WindowState::Terminal), 16);
    assert_eq!(t.nav_text_size(claude_com::WindowState::Monitor), 14);
}

#[test]
fn page_texts_russian_connected() {
    let (mut t, _) = claude_com2::ComTerminal::new();
    t.update(claude_com2::Message::PortSelected("COM2".to_string()));
    t.connect_result(Ok(()));
    t.update(claude_com2::Message::StartMonitoring);
    t.update(claude_com2::Message::OpenFile);
    t.update(claude_com2::Message::DataReceived("12345".to_string()));
    assert_eq!(t.status_text(), "✅ Подключен к COM2 (9600)");
    assert_eq!(t.traffic_text(), "Отправлено: 0 байт | Получено: 5 байт");
    let (label, msg) = t.connect_button();
    assert_eq!(label, "🔌 Отключиться");
    assert!(matches!(msg, claude_com2::Message::DisconnectPort));
    assert_eq!(t.monitor_texts()[2], "📊 Мониторинг: 🟢 Активен");
    assert_eq!(t.monitor_texts()[3], "🔗 Соединение: COM2 (9600)");
    assert_eq!(t.monitor_button().0, "⏹️ Остановить мониторинг");
    assert_eq!(t.file_text(), "📄 Текущий файл: example.log");
}

#[test]
fn page_texts_log_preview_keeps_first_ten_lines() {
    let (mut t, _) = claude_com::ComTerminal::new();
    assert_eq!(t.log_preview().len(), 2);
    for _ in 0..20 {
        t.update(claude_com::Message::SaveLog);
    }
    let preview = t.log_preview();
    assert_eq!(preview.len(), 10);
    assert_eq!(preview[0], "=== COM Terminal запущен ===");
    assert_eq!(preview[9], "=== Лог сохранен (симуляция) ===");
}

#[test]
fn page_texts_ukrainian() {
    let (mut t, _) = com_term::ComTerminal::new();
    assert_eq!(t.status_text(), "✗ Відключено");
    assert_eq!(t.monitor_texts()[3], "🔗 З'єднаня: Відключено");
    assert_eq!(t.connect_button().0, "⊗ Підключитися");
    assert_eq!(t.file_text(), "📄 Файл не вибрано");
    t.update(com_term::Message::PortSelected("COM1".to_string()));
    t.connect_result(Ok(()));
    t.update(com_term::Message::InputChanged("ab".to_string()));
    t.update(com_term::Message::SendData);
    assert_eq!(t.status_text(), "✓ Підключений до COM1 (115200)");
    assert_eq!(t.traffic_text(), "Відправлено: 2 байт | Отримано: 0 байт");
    assert_eq!(
        t.monitor_texts(),
        vec![
            "↑ Відправлено: 2 байт".to_string(),
            "↓ Отримано: 0 байт".to_string(),
            "≡ Моніторинг: ○ Зупинений".to_string(),
            "🔗 З'єднання: COM1 (115200)".to_string(),
        ]
    );
    assert_eq!(t.monitor_button().0, "► Почати моніторинг");
    t.update(com_term::Message::OpenFile);
    assert_eq!(t.file_text(), "📄 Теперішній файл: example.log");
}

#[test]
fn page_texts_connect_buttons_of_the_other_terminals() {
    let (mut app, _) = com_gpt::SerialApp::new();
    assert_eq!(app.connect_button().0, "Connect");
    app.update(com_gpt::Message::PortOpened);
    let (label, msg) = app.connect_button();
    assert_eq!(label, "Disconnect");
    assert!(matches!(msg, com_gpt::Message::ConnectToggle));
    let (mut g, _) = com_gemini::ComApp::new();
    assert!(matches!(g.connect_button().1, com_gemini::Message::Connect));
    g.update(com_gemini::Message::PortSelected("p".to_string()));
    g.update(com_gemini::Message::Connect);
    let (label, msg) = g.connect_button();
    assert_eq!(label, "Disconnect");
    assert!(matches!(msg, com_gemini::Message::Disconnect));
}
