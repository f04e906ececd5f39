//! Texts shown on the pages of the Russian-language terminals.
use vstd::prelude::*;
use vstd::string::*;
use crate::text::{concat2, decimal, push_decimal, text_and_number};

verus! {

/// The port named in texts: the chosen one, or "Unknown".
pub open spec fn shown_port(port_name: Option<Seq<char>>) -> Seq<char> {
    match port_name {
        Some(n) => n,
        None => "Unknown"@,
    }
}

/// The connection status above the log.
pub open spec fn status_text(connected: bool, port_name: Option<Seq<char>>, baud: u32) -> Seq<char> {
    if connected {
        "✅ Подключен к "@ + shown_port(port_name) + " ("@ + decimal(baud as nat) + ")"@
    } else {
        "❌ Отключен"@
    }
}

/// The byte counters below the log.
pub open spec fn traffic_text(sent: u64, received: u64) -> Seq<char> {
    "Отправлено: "@ + decimal(sent as nat) + " байт | Получено: "@ + decimal(received as nat) + " байт"@
}

/// The label of the connect button.
pub open spec fn connection_label(connected: bool) -> Seq<char> {
    if connected { "🔌 Отключиться"@ } else { "🔌 Подключиться"@ }
}

/// The four statistics lines of the monitor page.
pub open spec fn monitor_texts(
    connected: bool,
    port_name: Option<Seq<char>>,
    baud: u32,
    sent: u64,
    received: u64,
    monitoring: bool,
) -> Seq<Seq<char>> {
    seq![
        "📤 Отправлено: "@ + decimal(sent as nat) + " байт"@,
        "📥 Получено: "@ + decimal(received as nat) + " байт"@,
        if monitoring { "📊 Мониторинг: 🟢 Активен"@ } else { "📊 Мониторинг: 🔴 Остановлен"@ },
        if connected {
            "🔗 Соединение: "@ + port_name.unwrap() + " ("@ + decimal(baud as nat) + ")"@
        } else {
            "🔗 Соединение: Отключено"@
        },
    ]
}

/// The label of the monitoring button.
pub open spec fn monitor_label(monitoring: bool) -> Seq<char> {
    if monitoring { "⏹️ Остановить мониторинг"@ } else { "▶️ Начать мониторинг"@ }
}

/// The line naming the log file.
pub open spec fn file_text(path: Option<Seq<char>>) -> Seq<char> {
    match path {
        Some(p) => "📄 Текущий файл: "@ + p,
        None => "📄 Файл не выбран"@,
    }
}

fn port_and_baud(prefix: &str, name: &str, baud: u32) -> (r: String)
    ensures
        r@ == prefix@ + name@ + " ("@ + decimal(baud as nat) + ")"@,
{
    let mut s = concat2(prefix, name);
    s.append(" (");
    push_decimal(&mut s, baud as u64);
    s.append(")");
    s
}

/// Builds [`status_text`].
pub fn status(connected: bool, port_name: &Option<String>, baud: u32) -> (r: String)
    ensures
        r@ == status_text(connected, crate::text::opt_text(*port_name), baud),
{
    if connected {
        match port_name {
            Some(n) => port_and_baud("✅ Подключен к ", n.as_str(), baud),
            None => port_and_baud("✅ Подключен к ", "Unknown", baud),
        }
    } else {
        String::from_str("❌ Отключен")
    }
}

/// Builds [`traffic_text`].
pub fn traffic(sent: u64, received: u64) -> (r: String)
    ensures
        r@ == traffic_text(sent, received),
{
    let mut s = text_and_number("Отправлено: ", sent);
    s.append(" байт | Получено: ");
    push_decimal(&mut s, received);
    s.append(" байт");
    s
}

/// Builds [`connection_label`].
pub fn connection(connected: bool) -> (r: String)
    ensures
        r@ == connection_label(connected),
{
    if connected {
        String::from_str("🔌 Отключиться")
    } else {
        String::from_str("🔌 Подключиться")
    }
}

/// Builds [`monitor_texts`]; a connected terminal must have a port chosen.
pub fn monitor(
    connected: bool,
    port_name: &Option<String>,
    baud: u32,
    sent: u64,
    received: u64,
    monitoring: bool,
) -> (r: Vec<String>)
    requires
        connected ==> port_name is Some,
    ensures
        crate::text::texts(r@) == monitor_texts(
            connected,
            crate::text::opt_text(*port_name),
            baud,
            sent,
            received,
            monitoring,
        ),
{
    let mut a = text_and_number("📤 Отправлено: ", sent);
    a.append(" байт");
    let mut b = text_and_number("📥 Получено: ", received);
    b.append(" байт");
    let c = if monitoring {
        String::from_str("📊 Мониторинг: 🟢 Активен")
    } else {
        String::from_str("📊 Мониторинг: 🔴 Остановлен")
    };
    let d = if connected {
        match port_name {
            Some(n) => port_and_baud("🔗 Соединение: ", n.as_str(), baud),
            None => String::new(),
        }
    } else {
        String::from_str("🔗 Соединение: Отключено")
    };
    let ghost (va, vb, vc, vd) = (a@, b@, c@, d@);
    let mut r: Vec<String> = Vec::new();
    r.push(a);
    r.push(b);
    r.push(c);
    r.push(d);
    assert(crate::text::texts(r@) =~= seq![va, vb, vc, vd]);
    r
}

/// Builds [`monitor_label`].
pub fn monitor_button(monitoring: bool) -> (r: String)
    ensures
        r@ == monitor_label(monitoring),
{
    if monitoring {
        String::from_str("⏹️ Остановить мониторинг")
    } else {
        String::from_str("▶️ Начать мониторинг")
    }
}

/// Builds [`file_text`].
pub fn file(path: &Option<String>) -> (r: String)
    ensures
        r@ == file_text(crate::text::opt_text(*path)),
{
    match path {
        Some(p) => concat2("📄 Текущий файл: ", p.as_str()),
        None => String::from_str("📄 Файл не выбран"),
    }
}

} // verus!
