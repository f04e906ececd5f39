//! The four-page COM terminal whose port work runs as background tasks.
//!
//! [`ComTerminal::update`] decides what a message does to the terminal and
//! which port work the application has to start ([`Command`]). The
//! application reports the outcome of that work back as messages
//! ([`Message::SendResult`], [`Message::DataReceived`],
//! [`Message::PortError`], [`Message::PortsUpdated`]) or, for opening a port,
//! through [`ComTerminal::connect_result`].
use vstd::prelude::*;
use std::collections::VecDeque;
use vstd::string::*;
use crate::text::{first_lines, log_head, 
    byte_count, byte_len, concat2, concat3, decimal, log_clear, log_line, opt_text,
    push_decimal, texts,
};
use crate::port_io::{decode_lossy, PortRead};

verus! {

/// The page the terminal shows.
#[derive(Clone, Copy, Debug, PartialEq, Eq, Structural)]
pub enum WindowState {
    Terminal,
    Settings,
    Monitor,
    FileView,
}

impl Default for WindowState {
    fn default() -> (r: Self)
        ensures
            r == WindowState::Terminal,
    {
        WindowState::Terminal
    }
}

/// Port name, speed and connection flag.
#[derive(Clone, Debug)]
pub struct PortSettings {
    pub port_name: Option<String>,
    pub baud_rate: u32,
    pub connected: bool,
}

impl Default for PortSettings {
    /// No port chosen, 9600 baud, not connected.
    fn default() -> (r: Self)
        ensures
            r.port_name is None,
            r.baud_rate == 9600,
            !r.connected,
    {
        PortSettings { port_name: None, baud_rate: 9600, connected: false }
    }
}

/// What the user or the port work tells the terminal.
#[derive(Clone, Debug)]
pub enum Message {
    ShowTerminal,
    ShowSettings,
    ShowMonitor,
    ShowFileView,
    InputChanged(String),
    SendData,
    ClearTerminal,
    PortSelected(String),
    BaudRateSelected(u32),
    ConnectPort,
    DisconnectPort,
    RefreshPorts,
    PortsUpdated(Vec<String>),
    StartMonitoring,
    StopMonitoring,
    OpenFile,
    SaveLog,
    DataReceived(String),
    SendResult(String),
    PortError(String),
}

/// Port work the application has to carry out after an update.
#[derive(Debug)]
pub enum Command {
    /// Nothing to do.
    Idle,
    /// List the available ports and answer with [`Message::PortsUpdated`].
    ListPorts,
    /// Open the named port (one second timeout) and answer with
    /// [`ComTerminal::connect_result`].
    OpenPort { name: String, baud_rate: u32 },
    /// Write these bytes to the open port and answer with
    /// [`Message::SendResult`] (text of [`send_report`]) or
    /// [`Message::PortError`].
    Write { data: String },
    /// Read from the open port until data arrives or a read fails (see
    /// [`read_step`]) and answer with [`Message::DataReceived`] or
    /// [`Message::PortError`].
    ReadPort,
}

/// [`Command`] with texts as character sequences.
pub enum CommandModel {
    Idle,
    ListPorts,
    OpenPort { name: Seq<char>, baud_rate: u32 },
    Write { data: Seq<char> },
    ReadPort,
}

impl View for Command {
    type V = CommandModel;

    open spec fn view(&self) -> CommandModel {
        match self {
            Command::Idle => CommandModel::Idle,
            Command::ListPorts => CommandModel::ListPorts,
            Command::OpenPort { name, baud_rate } => CommandModel::OpenPort {
                name: name@,
                baud_rate: *baud_rate,
            },
            Command::Write { data } => CommandModel::Write { data: data@ },
            Command::ReadPort => CommandModel::ReadPort,
        }
    }
}

/// The terminal's state.
pub struct ComTerminal {
    current_window: WindowState,
    input_text: String,
    terminal_output: VecDeque<String>,
    port_settings: PortSettings,
    available_ports: Vec<String>,
    baud_rates: Vec<u32>,
    monitoring: bool,
    received_bytes: u64,
    sent_bytes: u64,
    log_file_path: Option<String>,
    /// Whether the application holds an open port.
    port_open: bool,
}

/// The terminal's state with texts as character sequences.
pub struct TerminalModel {
    pub window: WindowState,
    pub input: Seq<char>,
    pub output: Seq<Seq<char>>,
    pub port_name: Option<Seq<char>>,
    pub baud_rate: u32,
    pub connected: bool,
    pub ports: Seq<Seq<char>>,
    pub baud_rates: Seq<u32>,
    pub monitoring: bool,
    pub received_bytes: u64,
    pub sent_bytes: u64,
    pub log_file: Option<Seq<char>>,
    pub port_open: bool,
}

impl View for ComTerminal {
    type V = TerminalModel;

    closed spec fn view(&self) -> TerminalModel {
        TerminalModel {
            window: self.current_window,
            input: self.input_text@,
            output: texts(self.terminal_output@),
            port_name: opt_text(self.port_settings.port_name),
            baud_rate: self.port_settings.baud_rate,
            connected: self.port_settings.connected,
            ports: texts(self.available_ports@),
            baud_rates: self.baud_rates@,
            monitoring: self.monitoring,
            received_bytes: self.received_bytes,
            sent_bytes: self.sent_bytes,
            log_file: opt_text(self.log_file_path),
            port_open: self.port_open,
        }
    }
}

// ---------------------------------------------------------------------------
// Specification
// ---------------------------------------------------------------------------

/// The state right after start-up.
pub open spec fn initial_model() -> TerminalModel {
    TerminalModel {
        window: WindowState::Terminal,
        input: seq![],
        output: seq!["=== COM Terminal запущен ==="@, "Загружаем список COM портов..."@],
        port_name: None,
        baud_rate: 9600,
        connected: false,
        ports: seq![],
        baud_rates: seq![9600u32, 19200u32, 38400u32, 57600u32, 115200u32],
        monitoring: false,
        received_bytes: 0,
        sent_bytes: 0,
        log_file: None,
        port_open: false,
    }
}

/// The state with one more line in the log.
pub open spec fn with_line(m: TerminalModel, line: Seq<char>) -> TerminalModel {
    TerminalModel { output: m.output.push(line), ..m }
}

/// The line that reports how many ports were found.
pub open spec fn ports_found_line(n: nat) -> Seq<char> {
    "📋 Найдено портов: "@ + decimal(n)
}

/// Whether sending the input goes ahead: there is input and the port is
/// marked connected.
pub open spec fn sends(m: TerminalModel) -> bool {
    m.input.len() > 0 && m.connected
}

/// The messages `update` accepts in a state: received data continues a read,
/// which needs an open port, and the byte counter must not overflow.
pub open spec fn accepts(m: TerminalModel, msg: Message) -> bool {
    &&& msg is DataReceived ==> m.port_open
    &&& (msg is SendData && sends(m)) ==> m.sent_bytes + byte_count(m.input) <= u64::MAX
}

/// What a message does: the next state and the port work to start.
pub open spec fn next(m: TerminalModel, msg: Message) -> (TerminalModel, CommandModel) {
    match msg {
        Message::ShowTerminal => (TerminalModel { window: WindowState::Terminal, ..m }, CommandModel::Idle),
        Message::ShowSettings => (TerminalModel { window: WindowState::Settings, ..m }, CommandModel::Idle),
        Message::ShowMonitor => (TerminalModel { window: WindowState::Monitor, ..m }, CommandModel::Idle),
        Message::ShowFileView => (TerminalModel { window: WindowState::FileView, ..m }, CommandModel::Idle),
        Message::InputChanged(t) => (TerminalModel { input: t@, ..m }, CommandModel::Idle),
        Message::SendData => if sends(m) {
            let sent = TerminalModel {
                output: m.output.push(">>> "@ + m.input),
                sent_bytes: (m.sent_bytes + byte_count(m.input)) as u64,
                input: seq![],
                ..m
            };
            (sent, if m.port_open { CommandModel::Write { data: m.input } } else { CommandModel::Idle })
        } else {
            (m, CommandModel::Idle)
        },
        Message::SendResult(t) => (with_line(m, t@), CommandModel::Idle),
        Message::ClearTerminal => (TerminalModel { output: seq!["=== Терминал очищен ==="@], ..m }, CommandModel::Idle),
        Message::PortSelected(p) => (TerminalModel { port_name: Some(p@), ..m }, CommandModel::Idle),
        Message::BaudRateSelected(r) => (TerminalModel { baud_rate: r, ..m }, CommandModel::Idle),
        Message::ConnectPort => match m.port_name {
            Some(name) => (m, CommandModel::OpenPort { name, baud_rate: m.baud_rate }),
            None => (m, CommandModel::Idle),
        },
        Message::DisconnectPort => match m.port_name {
            Some(name) => (
                TerminalModel {
                    connected: false,
                    port_open: false,
                    output: m.output.push("🔌 Отключен от "@ + name),
                    ..m
                },
                CommandModel::Idle,
            ),
            None => (m, CommandModel::Idle),
        },
        Message::RefreshPorts => (m, CommandModel::ListPorts),
        Message::PortsUpdated(ports) => {
            let listed = TerminalModel { ports: texts(ports@), ..m };
            if ports@.len() == 0 {
                (with_line(listed, "⚠️ COM порты не найдены"@), CommandModel::Idle)
            } else {
                (with_line(listed, ports_found_line(ports@.len())), CommandModel::Idle)
            }
        },
        Message::StartMonitoring => (
            with_line(TerminalModel { monitoring: true, ..m }, "=== Мониторинг запущен ==="@),
            CommandModel::Idle,
        ),
        Message::StopMonitoring => (
            with_line(TerminalModel { monitoring: false, ..m }, "=== Мониторинг остановлен ==="@),
            CommandModel::Idle,
        ),
        Message::OpenFile => (
            with_line(
                TerminalModel { log_file: Some("example.log"@), ..m },
                "=== Файл открыт (симуляция) ==="@,
            ),
            CommandModel::Idle,
        ),
        Message::SaveLog => (with_line(m, "=== Лог сохранен (симуляция) ==="@), CommandModel::Idle),
        Message::DataReceived(d) => (with_line(m, "<- "@ + d@), CommandModel::ReadPort),
        Message::PortError(e) => (with_line(m, "❌ "@ + e@), CommandModel::Idle),
    }
}

/// What the outcome of opening the chosen port does.
pub open spec fn next_after_open(m: TerminalModel, name: Seq<char>, result: Result<(), Seq<char>>) -> (
    TerminalModel,
    CommandModel,
) {
    match result {
        Ok(()) => (
            with_line(
                TerminalModel { connected: true, port_open: true, ..m },
                "✅ Подключен к "@ + name + " на "@ + decimal(m.baud_rate as nat) + " baud"@,
            ),
            CommandModel::ReadPort,
        ),
        Err(e) => (with_line(m, "❌ Ошибка подключения к "@ + name + ": "@ + e), CommandModel::Idle),
    }
}

/// The window title.
pub open spec fn title_text(m: TerminalModel) -> Seq<char> {
    let status = if m.connected {
        " - Подключен к "@ + match m.port_name {
            Some(n) => n,
            None => "Unknown"@,
        }
    } else {
        " - Отключен"@
    };
    match m.window {
        WindowState::Terminal => "COM Terminal - Терминал"@ + status,
        WindowState::Settings => "COM Terminal - Настройки"@ + status,
        WindowState::Monitor => "COM Terminal - Мониторинг"@ + status,
        WindowState::FileView => "COM Terminal - Файлы"@ + status,
    }
}

/// What one read of the port means while waiting for data.
pub enum ReadStep {
    /// Nothing arrived yet; read again.
    Again,
    /// Data arrived, as text.
    Data(String),
    /// The read failed; the text is the error to report.
    Failed(String),
}

// ---------------------------------------------------------------------------
// Executable code
// ---------------------------------------------------------------------------

/// The line that reports a successful write of `data`.
pub fn send_report(data: &str) -> (r: String)
    ensures
        r@ == "✓ Данные отправлены: "@ + data@,
{
    concat2("✓ Данные отправлены: ", data)
}

/// The error text reported when writing to the port fails.
pub fn send_failure() -> (r: String)
    ensures
        r@ == "Ошибка отправки данных"@,
{
    String::from_str("Ошибка отправки данных")
}

/// Decides what one read of the port means while waiting for data: bytes
/// end the wait (decoded, invalid UTF-8 replaced), no bytes or a timeout
/// mean reading again, any other failure ends it with "Ошибка чтения порта".
pub fn read_step(read: PortRead) -> (r: ReadStep)
    ensures
        match read {
            PortRead::Bytes(b) => if b@.len() > 0 {
                r matches ReadStep::Data(t) && t@ == crate::port_io::lossy_utf8(b@)
            } else {
                r is Again
            },
            PortRead::TimedOut => r is Again,
            PortRead::Failed(_) => r matches ReadStep::Failed(e) && e@ == "Ошибка чтения порта"@,
        },
{
    match read {
        PortRead::Bytes(b) => {
            if b.len() > 0 {
                ReadStep::Data(decode_lossy(b.as_slice()))
            } else {
                ReadStep::Again
            }
        },
        PortRead::TimedOut => ReadStep::Again,
        PortRead::Failed(_) => ReadStep::Failed(String::from_str("Ошибка чтения порта")),
    }
}

impl ComTerminal {
    /// A terminal on its terminal page with the two start-up lines logged;
    /// the application lists the ports next.
    pub fn new() -> (r: (ComTerminal, Command))
        ensures
            r.0@ == initial_model(),
            r.1@ == CommandModel::ListPorts,
    {
        let mut baud_rates: Vec<u32> = Vec::new();
        baud_rates.push(9600);
        baud_rates.push(19200);
        baud_rates.push(38400);
        baud_rates.push(57600);
        baud_rates.push(115200);
        let mut terminal = ComTerminal {
            current_window: WindowState::Terminal,
            input_text: String::new(),
            terminal_output: VecDeque::new(),
            port_settings: PortSettings::default(),
            available_ports: Vec::new(),
            baud_rates,
            monitoring: false,
            received_bytes: 0,
            sent_bytes: 0,
            log_file_path: None,
            port_open: false,
        };
        assert(texts(terminal.terminal_output@) =~= Seq::<Seq<char>>::empty());
        log_line(&mut terminal.terminal_output, String::from_str("=== COM Terminal запущен ==="));
        log_line(&mut terminal.terminal_output, String::from_str("Загружаем список COM портов..."));
        assert(terminal.baud_rates@ =~= seq![9600u32, 19200u32, 38400u32, 57600u32, 115200u32]);
        assert(texts(terminal.available_ports@) =~= Seq::<Seq<char>>::empty());
        assert(terminal@.output =~= initial_model().output);
        (terminal, Command::ListPorts)
    }

    /// Applies a message: the new state and the port work to start are those
    /// of [`next`].
    pub fn update(&mut self, message: Message) -> (cmd: Command)
        requires
            accepts(old(self)@, message),
        ensures
            (final(self)@, cmd@) == next(old(self)@, message),
    {
        match message {
            Message::ShowTerminal => {
                self.current_window = WindowState::Terminal;
                Command::Idle
            },
            Message::ShowSettings => {
                self.current_window = WindowState::Settings;
                Command::Idle
            },
            Message::ShowMonitor => {
                self.current_window = WindowState::Monitor;
                Command::Idle
            },
            Message::ShowFileView => {
                self.current_window = WindowState::FileView;
                Command::Idle
            },
            Message::InputChanged(text) => {
                self.input_text = text;
                Command::Idle
            },
            Message::SendData => {
                if self.input_text.as_str().is_empty() || !self.port_settings.connected {
                    return Command::Idle;
                }
                let data = self.input_text.clone();
                log_line(&mut self.terminal_output, concat2(">>> ", data.as_str()));
                let n = byte_len(&data);
                self.sent_bytes = self.sent_bytes + n as u64;
                self.input_text = String::new();
                if self.port_open {
                    Command::Write { data }
                } else {
                    Command::Idle
                }
            },
            Message::SendResult(message) => {
                log_line(&mut self.terminal_output, message);
                Command::Idle
            },
            Message::ClearTerminal => {
                log_clear(&mut self.terminal_output);
                log_line(&mut self.terminal_output, String::from_str("=== Терминал очищен ==="));
                assert(self@.output =~= seq!["=== Терминал очищен ==="@]);
                Command::Idle
            },
            Message::PortSelected(port) => {
                self.port_settings.port_name = Some(port);
                Command::Idle
            },
            Message::BaudRateSelected(rate) => {
                self.port_settings.baud_rate = rate;
                Command::Idle
            },
            Message::ConnectPort => {
                match &self.port_settings.port_name {
                    Some(name) => Command::OpenPort {
                        name: name.clone(),
                        baud_rate: self.port_settings.baud_rate,
                    },
                    None => Command::Idle,
                }
            },
            Message::DisconnectPort => {
                match &self.port_settings.port_name {
                    Some(name) => {
                        let line = concat2("🔌 Отключен от ", name.as_str());
                        self.port_settings.connected = false;
                        self.port_open = false;
                        log_line(&mut self.terminal_output, line);
                    },
                    None => {},
                }
                Command::Idle
            },
            Message::RefreshPorts => Command::ListPorts,
            Message::PortsUpdated(ports) => {
                self.available_ports = ports;
                if self.available_ports.len() == 0 {
                    log_line(&mut self.terminal_output, String::from_str("⚠️ COM порты не найдены"));
                } else {
                    let mut line = String::from_str("📋 Найдено портов: ");
                    push_decimal(&mut line, self.available_ports.len() as u64);
                    log_line(&mut self.terminal_output, line);
                }
                Command::Idle
            },
            Message::StartMonitoring => {
                self.monitoring = true;
                log_line(&mut self.terminal_output, String::from_str("=== Мониторинг запущен ==="));
                Command::Idle
            },
            Message::StopMonitoring => {
                self.monitoring = false;
                log_line(&mut self.terminal_output, String::from_str("=== Мониторинг остановлен ==="));
                Command::Idle
            },
            Message::OpenFile => {
                self.log_file_path = Some(String::from_str("example.log"));
                log_line(&mut self.terminal_output, String::from_str("=== Файл открыт (симуляция) ==="));
                Command::Idle
            },
            Message::SaveLog => {
                log_line(&mut self.terminal_output, String::from_str("=== Лог сохранен (симуляция) ==="));
                Command::Idle
            },
            Message::DataReceived(data) => {
                log_line(&mut self.terminal_output, concat2("<- ", data.as_str()));
                Command::ReadPort
            },
            Message::PortError(error) => {
                log_line(&mut self.terminal_output, concat2("❌ ", error.as_str()));
                Command::Idle
            },
        }
    }

    /// Applies the outcome of opening the chosen port ([`Command::OpenPort`]):
    /// `Err` holds the error's text.
    pub fn connect_result(&mut self, result: Result<(), String>) -> (cmd: Command)
        requires
            old(self)@.port_name is Some,
        ensures
            (final(self)@, cmd@) == next_after_open(
                old(self)@,
                old(self)@.port_name.unwrap(),
                match result {
                    Ok(()) => Ok(()),
                    Err(e) => Err(e@),
                },
            ),
    {
        let name = match &self.port_settings.port_name {
            Some(n) => n.clone(),
            None => String::new(),
        };
        match result {
            Ok(()) => {
                self.port_settings.connected = true;
                self.port_open = true;
                let mut line = concat3("✅ Подключен к ", name.as_str(), " на ");
                push_decimal(&mut line, self.port_settings.baud_rate as u64);
                line.append(" baud");
                log_line(&mut self.terminal_output, line);
                Command::ReadPort
            },
            Err(e) => {
                let line = concat3("❌ Ошибка подключения к ", name.as_str(), ": ");
                let line = line.concat(e.as_str());
                log_line(&mut self.terminal_output, line);
                Command::Idle
            },
        }
    }

    /// The window title: the page's name and the connection status.
    pub fn title(&self) -> (r: String)
        ensures
            r@ == title_text(self@),
    {
        let mut status = if self.port_settings.connected {
            let mut s = String::from_str(" - Подключен к ");
            match &self.port_settings.port_name {
                Some(n) => s.append(n.as_str()),
                None => s.append("Unknown"),
            }
            s
        } else {
            String::from_str(" - Отключен")
        };
        match self.current_window {
            WindowState::Terminal => concat2("COM Terminal - Терминал", status.as_str()),
            WindowState::Settings => concat2("COM Terminal - Настройки", status.as_str()),
            WindowState::Monitor => concat2("COM Terminal - Мониторинг", status.as_str()),
            WindowState::FileView => concat2("COM Terminal - Файлы", status.as_str()),
        }
    }

    /// The page shown.
    pub fn current_window(&self) -> (r: WindowState)
        ensures
            r == self@.window,
    {
        self.current_window
    }

    /// The text typed so far.
    pub fn input_text(&self) -> (r: &String)
        ensures
            r@ == self@.input,
    {
        &self.input_text
    }

    /// The log lines, oldest first.
    pub fn terminal_output(&self) -> (r: &VecDeque<String>)
        ensures
            texts(r@) == self@.output,
    {
        &self.terminal_output
    }

    /// The port settings.
    pub fn port_settings(&self) -> (r: &PortSettings)
        ensures
            opt_text(r.port_name) == self@.port_name,
            r.baud_rate == self@.baud_rate,
            r.connected == self@.connected,
    {
        &self.port_settings
    }

    /// The ports last listed.
    pub fn available_ports(&self) -> (r: &Vec<String>)
        ensures
            texts(r@) == self@.ports,
    {
        &self.available_ports
    }

    /// The speeds offered.
    pub fn baud_rates(&self) -> (r: &Vec<u32>)
        ensures
            r@ == self@.baud_rates,
    {
        &self.baud_rates
    }

    /// Whether monitoring is on.
    pub fn monitoring(&self) -> (r: bool)
        ensures
            r == self@.monitoring,
    {
        self.monitoring
    }

    /// Bytes sent so far.
    pub fn sent_bytes(&self) -> (r: u64)
        ensures
            r == self@.sent_bytes,
    {
        self.sent_bytes
    }

    /// Bytes received so far.
    pub fn received_bytes(&self) -> (r: u64)
        ensures
            r == self@.received_bytes,
    {
        self.received_bytes
    }

    /// The log file chosen, if any.
    pub fn log_file_path(&self) -> (r: &Option<String>)
        ensures
            opt_text(*r) == self@.log_file,
    {
        &self.log_file_path
    }

    /// Whether the application holds an open port.
    pub fn port_open(&self) -> (r: bool)
        ensures
            r == self@.port_open,
    {
        self.port_open
    }
}

} // verus!

verus! {

// ---------------------------------------------------------------------------
// Laws
// ---------------------------------------------------------------------------

/// The terminal's consistency: a connected terminal has a port chosen, and
/// an open port belongs to a connected terminal.
pub open spec fn consistent(m: TerminalModel) -> bool {
    &&& m.connected ==> m.port_name is Some
    &&& m.port_open ==> m.connected
}

/// A new terminal is consistent, and every message and every outcome of
/// opening a port keeps it consistent.
pub proof fn law_consistency_kept(m: TerminalModel, msg: Message, open: Result<(), Seq<char>>)
    requires
        consistent(m),
    ensures
        consistent(initial_model()),
        consistent(next(m, msg).0),
        m.port_name is Some ==> consistent(next_after_open(m, m.port_name.unwrap(), open).0),
{
}

/// The log only grows: every message but clearing keeps the lines logged so
/// far, in order, at the front.
pub proof fn law_log_only_grows(m: TerminalModel, msg: Message)
    requires
        !(msg is ClearTerminal),
    ensures
        m.output.is_prefix_of(next(m, msg).0.output),
{
    let n = next(m, msg).0.output;
    assert(m.output.len() <= n.len());
    assert forall|i: int| 0 <= i < m.output.len() implies m.output[i] == n[i] by {}
}

/// The byte counters never go down, and sending adds exactly the UTF-8
/// byte count of the text sent.
pub proof fn law_counters(m: TerminalModel, msg: Message)
    requires
        accepts(m, msg),
    ensures
        next(m, msg).0.received_bytes == m.received_bytes,
        next(m, msg).0.sent_bytes == (if msg is SendData && sends(m) {
            m.sent_bytes + byte_count(m.input)
        } else {
            m.sent_bytes as int
        }),
{
}

/// Clearing leaves exactly the one line that says so.
pub proof fn law_clear_leaves_one_line(m: TerminalModel)
    ensures
        next(m, Message::ClearTerminal).0.output == seq!["=== Терминал очищен ==="@],
{
}

} // verus!

verus! {

// ---------------------------------------------------------------------------
// Page texts
// ---------------------------------------------------------------------------

impl ComTerminal {
    /// The connection status shown above the log.
    pub fn status_text(&self) -> (r: String)
        ensures
            r@ == crate::pages_ru::status_text(self@.connected, self@.port_name, self@.baud_rate),
    {
        crate::pages_ru::status(self.port_settings.connected, &self.port_settings.port_name, self.port_settings.baud_rate)
    }

    /// The byte counters shown below the log.
    pub fn traffic_text(&self) -> (r: String)
        ensures
            r@ == crate::pages_ru::traffic_text(self@.sent_bytes, self@.received_bytes),
    {
        crate::pages_ru::traffic(self.sent_bytes, self.received_bytes)
    }

    /// The connect button: its label and the message it sends
    /// ([`Message::DisconnectPort`] while connected, [`Message::ConnectPort`]
    /// otherwise).
    pub fn connect_button(&self) -> (r: (String, Message))
        ensures
            r.0@ == crate::pages_ru::connection_label(self@.connected),
            self@.connected ==> r.1 is DisconnectPort,
            !self@.connected ==> r.1 is ConnectPort,
    {
        let label = crate::pages_ru::connection(self.port_settings.connected);
        if self.port_settings.connected {
            (label, Message::DisconnectPort)
        } else {
            (label, Message::ConnectPort)
        }
    }

    /// The statistics lines of the monitor page; a connected terminal must
    /// have a port chosen (which every state reached by the terminal's
    /// messages has).
    pub fn monitor_texts(&self) -> (r: Vec<String>)
        requires
            self@.connected ==> self@.port_name is Some,
        ensures
            texts(r@) == crate::pages_ru::monitor_texts(
                self@.connected,
                self@.port_name,
                self@.baud_rate,
                self@.sent_bytes,
                self@.received_bytes,
                self@.monitoring,
            ),
    {
        crate::pages_ru::monitor(
            self.port_settings.connected,
            &self.port_settings.port_name,
            self.port_settings.baud_rate,
            self.sent_bytes,
            self.received_bytes,
            self.monitoring,
        )
    }

    /// The monitoring button: its label and the message it sends
    /// ([`Message::StopMonitoring`] while monitoring,
    /// [`Message::StartMonitoring`] otherwise).
    pub fn monitor_button(&self) -> (r: (String, Message))
        ensures
            r.0@ == crate::pages_ru::monitor_label(self@.monitoring),
            self@.monitoring ==> r.1 is StopMonitoring,
            !self@.monitoring ==> r.1 is StartMonitoring,
    {
        let label = crate::pages_ru::monitor_button(self.monitoring);
        if self.monitoring {
            (label, Message::StopMonitoring)
        } else {
            (label, Message::StartMonitoring)
        }
    }

    /// The line naming the log file.
    pub fn file_text(&self) -> (r: String)
        ensures
            r@ == crate::pages_ru::file_text(self@.log_file),
    {
        crate::pages_ru::file(&self.log_file_path)
    }

    /// The first ten log lines, previewed on the file page.
    pub fn log_preview(&self) -> (r: Vec<String>)
        ensures
            texts(r@) == first_lines(self@.output, 10),
    {
        log_head(&self.terminal_output, 10)
    }

    /// Text size of a page's navigation button: larger for the page shown.
    pub fn nav_text_size(&self, window: WindowState) -> (r: u16)
        ensures
            r == (if window == self@.window { 16u16 } else { 14u16 }),
    {
        if window == self.current_window {
            16
        } else {
            14
        }
    }
}

} // verus!

verus! {

/// Each settings and page message sets what it names and nothing of the
/// connection: pages, input, port, speed, monitoring and the log file.
pub proof fn law_settings_messages(m: TerminalModel, t: String, p: String, r: u32)
    ensures
        next(m, Message::ShowTerminal).0.window == WindowState::Terminal,
        next(m, Message::ShowSettings).0.window == WindowState::Settings,
        next(m, Message::ShowMonitor).0.window == WindowState::Monitor,
        next(m, Message::ShowFileView).0.window == WindowState::FileView,
        next(m, Message::InputChanged(t)).0.input == t@,
        next(m, Message::PortSelected(p)).0.port_name == Some(p@),
        next(m, Message::BaudRateSelected(r)).0.baud_rate == r,
        next(m, Message::BaudRateSelected(r)).0.port_name == m.port_name,
        next(m, Message::PortSelected(p)).0.baud_rate == m.baud_rate,
        next(m, Message::StartMonitoring).0.monitoring,
        !next(m, Message::StopMonitoring).0.monitoring,
        next(m, Message::OpenFile).0.log_file == Some("example.log"@),
{
}

/// Connecting opens the chosen port at the chosen speed, and does nothing
/// when no port is chosen; a successful open connects and starts reading,
/// a failed one leaves the terminal disconnected.
pub proof fn law_connect_opens_chosen_port(m: TerminalModel, e: Seq<char>)
    ensures
        m.port_name matches Some(n) ==> next(m, Message::ConnectPort) == (m, CommandModel::OpenPort {
            name: n,
            baud_rate: m.baud_rate,
        }),
        m.port_name is None ==> next(m, Message::ConnectPort) == (m, CommandModel::Idle),
        m.port_name matches Some(n) ==> ({
            let (s, c) = next_after_open(m, n, Ok(()));
            s.connected && s.port_open && c == CommandModel::ReadPort
        }),
        m.port_name matches Some(n) ==> next_after_open(m, n, Err(e)).0.connected == m.connected,
        m.port_name is Some ==> !next(m, Message::DisconnectPort).0.connected
            && !next(m, Message::DisconnectPort).0.port_open,
{
}

/// Sending logs the input after `>>> `, empties the input and, with a port
/// open, writes exactly the input; without input or connection nothing
/// changes.
pub proof fn law_send_writes_the_input(m: TerminalModel)
    ensures
        sends(m) ==> ({
            let (s, c) = next(m, Message::SendData);
            &&& s.input.len() == 0
            &&& s.output == m.output.push(">>> "@ + m.input)
            &&& m.port_open ==> c == CommandModel::Write { data: m.input }
        }),
        !sends(m) ==> next(m, Message::SendData) == (m, CommandModel::Idle),
{
}

/// A port list replaces the listed ports, and the count logged is that of
/// the new list.
pub proof fn law_port_list_replaces_ports(m: TerminalModel, ports: Vec<String>)
    ensures
        next(m, Message::PortsUpdated(ports)).0.ports == texts(ports@),
        ports@.len() > 0 ==> next(m, Message::PortsUpdated(ports)).0.output == m.output.push(
            "📋 Найдено портов: "@ + decimal(ports@.len()),
        ),
{
}

} // verus!
