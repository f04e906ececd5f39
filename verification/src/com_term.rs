//! The four-page COM terminal whose port is served by a worker thread.
//!
//! [`ComTerminal::update`] decides what a message does to the terminal and
//! which port work the application has to do at once ([`Command`]); the
//! application reports the outcome through the `*_result` methods. Once a
//! port is open, a worker owns it: [`PortWorker`] decides what the worker
//! reports to the terminal (as [`Message::DataReceived`]) and when it stops.
use vstd::prelude::*;
use std::collections::VecDeque;
use vstd::string::*;
use crate::text::{first_lines, log_head, 
    byte_count, byte_len, concat2, concat3, decimal, log_clear, log_line, opt_text, push_decimal,
    texts,
};
use crate::port_io::{decode_lossy, lossy_utf8, PortRead};

verus! {

/// The page the terminal shows.
#[derive(Clone, Copy, Debug, PartialEq, Eq, Structural)]
pub enum WindowState {
    Terminal,
    Settings,
    Monitor,
    FileView,
}

impl Default for WindowState {
    fn default() -> (r: Self)
        ensures
            r == WindowState::Terminal,
    {
        WindowState::Terminal
    }
}

/// Port name, speed and connection flag.
#[derive(Clone, Debug)]
pub struct PortSettings {
    pub port_name: Option<String>,
    pub baud_rate: u32,
    pub connected: bool,
}

impl Default for PortSettings {
    /// No port chosen, 115200 baud, not connected.
    fn default() -> (r: Self)
        ensures
            r.port_name is None,
            r.baud_rate == 115200,
            !r.connected,
    {
        PortSettings { port_name: None, baud_rate: 115200, connected: false }
    }
}

/// What the user or the port worker tells the terminal.
#[derive(Clone, Debug)]
pub enum Message {
    ShowTerminal,
    ShowSettings,
    ShowMonitor,
    ShowFileView,
    InputChanged(String),
    SendData,
    ClearTerminal,
    PortSelected(String),
    BaudRateSelected(u32),
    ConnectPort,
    DisconnectPort,
    RefreshPorts,
    PortsUpdated(Vec<String>),
    StartMonitoring,
    StopMonitoring,
    OpenFile,
    SaveLog,
    DataReceived(String),
    PortError(String),
}

/// Port work the application has to carry out after an update.
#[derive(Debug)]
pub enum Command {
    /// Nothing to do.
    Idle,
    /// List the available ports at start-up and answer with
    /// [`ComTerminal::startup_ports`].
    ListStartupPorts,
    /// List the available ports and answer with
    /// [`ComTerminal::refresh_result`].
    ListPorts,
    /// Open the named port (10 ms timeout) and answer with
    /// [`ComTerminal::connect_result`].
    OpenPort { name: String, baud_rate: u32 },
    /// Hand the opened port to a new worker (see [`PortWorker`]), whose
    /// reports reach the terminal as [`Message::DataReceived`].
    StartWorker,
    /// Put [`Message::DataReceived`] with this text on the worker's report
    /// channel.
    Report { text: String },
}

/// [`Command`] with texts as character sequences.
pub enum CommandModel {
    Idle,
    ListStartupPorts,
    ListPorts,
    OpenPort { name: Seq<char>, baud_rate: u32 },
    StartWorker,
    Report { text: Seq<char> },
}

impl View for Command {
    type V = CommandModel;

    open spec fn view(&self) -> CommandModel {
        match self {
            Command::Idle => CommandModel::Idle,
            Command::ListStartupPorts => CommandModel::ListStartupPorts,
            Command::ListPorts => CommandModel::ListPorts,
            Command::OpenPort { name, baud_rate } => CommandModel::OpenPort {
                name: name@,
                baud_rate: *baud_rate,
            },
            Command::StartWorker => CommandModel::StartWorker,
            Command::Report { text } => CommandModel::Report { text: text@ },
        }
    }
}

/// The terminal's state.
pub struct ComTerminal {
    current_window: WindowState,
    input_text: String,
    terminal_output: VecDeque<String>,
    port_settings: PortSettings,
    available_ports: Vec<String>,
    baud_rates: Vec<u32>,
    monitoring: bool,
    received_bytes: u64,
    sent_bytes: u64,
    log_file_path: Option<String>,
    /// Whether a worker's report channel has been set up.
    reports_open: bool,
}

/// The terminal's state with texts as character sequences.
pub struct TerminalModel {
    pub window: WindowState,
    pub input: Seq<char>,
    pub output: Seq<Seq<char>>,
    pub port_name: Option<Seq<char>>,
    pub baud_rate: u32,
    pub connected: bool,
    pub ports: Seq<Seq<char>>,
    pub baud_rates: Seq<u32>,
    pub monitoring: bool,
    pub received_bytes: u64,
    pub sent_bytes: u64,
    pub log_file: Option<Seq<char>>,
    pub reports_open: bool,
}

impl View for ComTerminal {
    type V = TerminalModel;

    closed spec fn view(&self) -> TerminalModel {
        TerminalModel {
            window: self.current_window,
            input: self.input_text@,
            output: texts(self.terminal_output@),
            port_name: opt_text(self.port_settings.port_name),
            baud_rate: self.port_settings.baud_rate,
            connected: self.port_settings.connected,
            ports: texts(self.available_ports@),
            baud_rates: self.baud_rates@,
            monitoring: self.monitoring,
            received_bytes: self.received_bytes,
            sent_bytes: self.sent_bytes,
            log_file: opt_text(self.log_file_path),
            reports_open: self.reports_open,
        }
    }
}

// ---------------------------------------------------------------------------
// Specification
// ---------------------------------------------------------------------------

/// The state right after start-up.
pub open spec fn initial_model() -> TerminalModel {
    TerminalModel {
        window: WindowState::Terminal,
        input: seq![],
        output: seq!["=== COM Terminal запущено ==="@, "Завантаження списку COM портів..."@],
        port_name: None,
        baud_rate: 115200,
        connected: false,
        ports: seq![],
        baud_rates: seq![9600u32, 19200u32, 38400u32, 57600u32, 115200u32],
        monitoring: false,
        received_bytes: 0,
        sent_bytes: 0,
        log_file: None,
        reports_open: false,
    }
}

/// The state with one more line in the log.
pub open spec fn with_line(m: TerminalModel, line: Seq<char>) -> TerminalModel {
    TerminalModel { output: m.output.push(line), ..m }
}

/// The line that reports how many ports were found.
pub open spec fn ports_found_line(n: nat) -> Seq<char> {
    "📋 Знайдено портів: "@ + decimal(n)
}

/// Whether sending the input goes ahead: there is input and the port is
/// marked connected.
pub open spec fn sends(m: TerminalModel) -> bool {
    m.input.len() > 0 && m.connected
}

/// The messages `update` accepts in a state: the byte counters must not
/// overflow.
pub open spec fn accepts(m: TerminalModel, msg: Message) -> bool {
    &&& (msg is SendData && sends(m)) ==> m.sent_bytes + byte_count(m.input) <= u64::MAX
    &&& msg matches Message::DataReceived(d) ==> m.received_bytes + byte_count(d@) <= u64::MAX
}

/// What a message does: the next state and the port work to do.
pub open spec fn next(m: TerminalModel, msg: Message) -> (TerminalModel, CommandModel) {
    match msg {
        Message::ShowTerminal => (TerminalModel { window: WindowState::Terminal, ..m }, CommandModel::Idle),
        Message::ShowSettings => (TerminalModel { window: WindowState::Settings, ..m }, CommandModel::Idle),
        Message::ShowMonitor => (TerminalModel { window: WindowState::Monitor, ..m }, CommandModel::Idle),
        Message::ShowFileView => (TerminalModel { window: WindowState::FileView, ..m }, CommandModel::Idle),
        Message::InputChanged(t) => (TerminalModel { input: t@, ..m }, CommandModel::Idle),
        Message::SendData => if sends(m) {
            (
                TerminalModel {
                    output: m.output.push(">>> "@ + m.input),
                    sent_bytes: (m.sent_bytes + byte_count(m.input)) as u64,
                    input: seq![],
                    ..m
                },
                CommandModel::Idle,
            )
        } else {
            (m, CommandModel::Idle)
        },
        Message::ClearTerminal => (TerminalModel { output: seq!["=== Термінал очищено ==="@], ..m }, CommandModel::Idle),
        Message::PortSelected(p) => (TerminalModel { port_name: Some(p@), ..m }, CommandModel::Idle),
        Message::BaudRateSelected(r) => (TerminalModel { baud_rate: r, ..m }, CommandModel::Idle),
        Message::ConnectPort => match m.port_name {
            Some(name) => (m, CommandModel::OpenPort { name, baud_rate: m.baud_rate }),
            None => (m, CommandModel::Idle),
        },
        Message::DisconnectPort => match m.port_name {
            Some(name) => (
                TerminalModel { connected: false, output: m.output.push("⊗ Відключен від "@ + name), ..m },
                CommandModel::Idle,
            ),
            None => (m, CommandModel::Idle),
        },
        Message::RefreshPorts => (m, CommandModel::ListPorts),
        Message::PortsUpdated(ports) => {
            let listed = TerminalModel { ports: texts(ports@), ..m };
            if ports@.len() == 0 {
                (with_line(listed, "! COM порти не знайдені"@), CommandModel::Idle)
            } else {
                (with_line(listed, ports_found_line(ports@.len())), CommandModel::Idle)
            }
        },
        Message::StartMonitoring => (
            with_line(TerminalModel { monitoring: true, ..m }, "=== Моніторинг запущено ==="@),
            CommandModel::Idle,
        ),
        Message::StopMonitoring => (
            with_line(TerminalModel { monitoring: false, ..m }, "=== Моніторинг зупинено ==="@),
            CommandModel::Idle,
        ),
        Message::OpenFile => (
            with_line(
                TerminalModel { log_file: Some("example.log"@), ..m },
                "=== Файл відкритий (симуляція) ==="@,
            ),
            CommandModel::Idle,
        ),
        Message::SaveLog => (with_line(m, "=== Лог збережено (симуляція) ==="@), CommandModel::Idle),
        Message::DataReceived(d) => (
            TerminalModel {
                output: m.output.push("↓ "@ + d@),
                received_bytes: (m.received_bytes + byte_count(d@)) as u64,
                ..m
            },
            CommandModel::Idle,
        ),
        Message::PortError(e) => (
            with_line(m, "✗ "@ + e@),
            if m.reports_open {
                CommandModel::Report { text: "! Помилка порту: "@ + e@ }
            } else {
                CommandModel::Idle
            },
        ),
    }
}

/// What the outcome of opening the chosen port does.
pub open spec fn next_after_open(m: TerminalModel, name: Seq<char>, result: Result<(), Seq<char>>) -> (
    TerminalModel,
    CommandModel,
) {
    match result {
        Ok(()) => (
            with_line(
                TerminalModel { connected: true, reports_open: true, ..m },
                "✓ Підключений до "@ + name + " на "@ + decimal(m.baud_rate as nat) + " baud"@,
            ),
            CommandModel::StartWorker,
        ),
        Err(e) => (with_line(m, "✗ Помилка підключення до "@ + name + ": "@ + e), CommandModel::Idle),
    }
}

/// What the port list taken at start-up does.
pub open spec fn next_after_startup(m: TerminalModel, result: Result<Seq<Seq<char>>, Seq<char>>) -> TerminalModel {
    match result {
        Ok(ports) => {
            let listed = TerminalModel { ports, ..m };
            if ports.len() == 0 {
                with_line(listed, "! COM порти не Знайдено"@)
            } else {
                with_line(listed, ports_found_line(ports.len()))
            }
        },
        Err(e) => with_line(m, "✗ Помилка отримання списку портів: "@ + e),
    }
}

/// What a refreshed port list does.
pub open spec fn next_after_refresh(m: TerminalModel, result: Result<Seq<Seq<char>>, Seq<char>>) -> TerminalModel {
    match result {
        Ok(ports) => with_line(TerminalModel { ports, ..m }, ports_found_line(ports.len())),
        Err(e) => with_line(m, "✗ Помилка отримання списку портів: "@ + e),
    }
}

/// A port list outcome with texts as character sequences.
pub open spec fn list_model(r: Result<Vec<String>, String>) -> Result<Seq<Seq<char>>, Seq<char>> {
    match r {
        Ok(v) => Ok(texts(v@)),
        Err(e) => Err(e@),
    }
}

/// An outcome without value, with the error as a character sequence.
pub open spec fn unit_model(r: Result<(), String>) -> Result<(), Seq<char>> {
    match r {
        Ok(()) => Ok(()),
        Err(e) => Err(e@),
    }
}

/// The status line of the window title.
pub open spec fn title_status(m: TerminalModel) -> Seq<char> {
    if m.connected {
        " - Підключений до "@ + match m.port_name {
            Some(n) => n,
            None => "Unknown"@,
        }
    } else {
        " - Відключений"@
    }
}

/// The window title with the page and the connection status.
pub open spec fn window_title_text(m: TerminalModel) -> Seq<char> {
    match m.window {
        WindowState::Terminal => "COM Terminal - Термінал"@ + title_status(m),
        WindowState::Settings => "COM Terminal - Налаштунки"@ + title_status(m),
        WindowState::Monitor => "COM Terminal - Моніторинг"@ + title_status(m),
        WindowState::FileView => "COM Terminal - Файлы"@ + title_status(m),
    }
}

// ---------------------------------------------------------------------------
// The port worker
// ---------------------------------------------------------------------------

/// What the worker finds on its write-request channel.
pub enum WriteRequest {
    /// A text to write to the port.
    Data(String),
    /// No request is waiting.
    Empty,
    /// The sending side is gone.
    Disconnected,
}

/// What the worker does after looking at its write-request channel.
pub enum PollStep {
    /// Write this text to the port, then report with
    /// [`PortWorker::write_outcome`].
    Write(String),
    /// Go on to read from the port.
    Read,
    /// Report this text and stop.
    Stop(String),
}

/// What the worker does after one read: report these texts, in order, and
/// go on or stop.
pub struct ReadStep {
    pub reports: Vec<String>,
    pub go_on: bool,
}

/// The decisions of the worker thread that owns an open port. It reports
/// [`PortWorker::started`] once, then repeatedly polls its write-request
/// channel and reads the port, and reports [`PortWorker::finished`] when it
/// stops.
pub struct PortWorker;

impl PortWorker {
    /// The report sent when the worker starts.
    pub fn started() -> (r: String)
        ensures
            r@ == "🟡 Потік читання запущено"@,
    {
        String::from_str("🟡 Потік читання запущено")
    }

    /// The report sent when the worker stops.
    pub fn finished() -> (r: String)
        ensures
            r@ == "🔻 Потік порту завершився"@,
    {
        String::from_str("🔻 Потік порту завершився")
    }

    /// A waiting write request is written, no request means reading, a
    /// closed channel stops the worker with a report.
    pub fn poll(request: WriteRequest) -> (r: PollStep)
        ensures
            match request {
                WriteRequest::Data(d) => r matches PollStep::Write(w) && w@ == d@,
                WriteRequest::Empty => r is Read,
                WriteRequest::Disconnected => r matches PollStep::Stop(t) && t@
                    == "! Канал запису закритий"@,
            },
    {
        match request {
            WriteRequest::Data(d) => PollStep::Write(d),
            WriteRequest::Empty => PollStep::Read,
            WriteRequest::Disconnected => PollStep::Stop(String::from_str("! Канал запису закритий")),
        }
    }

    /// The report of a write: confirmation (the port is flushed after a
    /// successful write), or the error's text.
    pub fn write_outcome(result: Result<(), String>) -> (r: String)
        ensures
            r@ == match result {
                Ok(()) => "✓ Данні відправлені"@,
                Err(e) => "✗ Помилка запису: "@ + e@,
            },
    {
        match result {
            Ok(()) => String::from_str("✓ Данні відправлені"),
            Err(e) => concat2("✗ Помилка запису: ", e.as_str()),
        }
    }

    /// Received bytes are reported as their count and then as text (invalid
    /// UTF-8 replaced); no bytes and a timeout report nothing; a failed read
    /// is reported and stops the worker.
    pub fn read(read: PortRead) -> (r: ReadStep)
        ensures
            match read {
                PortRead::Bytes(b) => if b@.len() > 0 {
                    &&& r.go_on
                    &&& texts(r.reports@) == seq![
                        "📦 Отримано "@ + decimal(b@.len()) + " байт"@,
                        lossy_utf8(b@),
                    ]
                } else {
                    r.go_on && r.reports@.len() == 0
                },
                PortRead::TimedOut => r.go_on && r.reports@.len() == 0,
                PortRead::Failed(e) => !r.go_on && texts(r.reports@) == seq![
                    "! Помилка читання: "@ + e@,
                ],
            },
    {
        let mut reports: Vec<String> = Vec::new();
        match read {
            PortRead::Bytes(b) => {
                if b.len() > 0 {
                    let mut count = String::from_str("📦 Отримано ");
                    push_decimal(&mut count, b.len() as u64);
                    count.append(" байт");
                    let data = decode_lossy(b.as_slice());
                    let ghost c = count@;
                    let ghost d = data@;
                    reports.push(count);
                    reports.push(data);
                    assert(texts(reports@) =~= seq![c, d]);
                }
                ReadStep { reports, go_on: true }
            },
            PortRead::TimedOut => ReadStep { reports, go_on: true },
            PortRead::Failed(e) => {
                let line = concat2("! Помилка читання: ", e.as_str());
                let ghost l = line@;
                reports.push(line);
                assert(texts(reports@) =~= seq![l]);
                ReadStep { reports, go_on: false }
            },
        }
    }
}

// ---------------------------------------------------------------------------
// The terminal
// ---------------------------------------------------------------------------

impl ComTerminal {
    /// A terminal on its terminal page with the two start-up lines logged;
    /// the application lists the ports next and reports the list to
    /// [`ComTerminal::startup_ports`].
    pub fn new() -> (r: (ComTerminal, Command))
        ensures
            r.0@ == initial_model(),
            r.1@ == CommandModel::ListStartupPorts,
    {
        let mut baud_rates: Vec<u32> = Vec::new();
        baud_rates.push(9600);
        baud_rates.push(19200);
        baud_rates.push(38400);
        baud_rates.push(57600);
        baud_rates.push(115200);
        let mut terminal = ComTerminal {
            current_window: WindowState::Terminal,
            input_text: String::new(),
            terminal_output: VecDeque::new(),
            port_settings: PortSettings::default(),
            available_ports: Vec::new(),
            baud_rates,
            monitoring: false,
            received_bytes: 0,
            sent_bytes: 0,
            log_file_path: None,
            reports_open: false,
        };
        assert(texts(terminal.terminal_output@) =~= Seq::<Seq<char>>::empty());
        log_line(&mut terminal.terminal_output, String::from_str("=== COM Terminal запущено ==="));
        log_line(&mut terminal.terminal_output, String::from_str("Завантаження списку COM портів..."));
        assert(terminal.baud_rates@ =~= seq![9600u32, 19200u32, 38400u32, 57600u32, 115200u32]);
        assert(texts(terminal.available_ports@) =~= Seq::<Seq<char>>::empty());
        assert(terminal@.output =~= initial_model().output);
        (terminal, Command::ListStartupPorts)
    }

    fn log_ports(&mut self, ports: Vec<String>, none_found: &str)
        ensures
            final(self)@ == with_line(
                TerminalModel { ports: texts(ports@), ..old(self)@ },
                if ports@.len() == 0 { none_found@ } else { ports_found_line(ports@.len()) },
            ),
    {
        self.available_ports = ports;
        if self.available_ports.len() == 0 {
            log_line(&mut self.terminal_output, String::from_str(none_found));
        } else {
            let mut line = String::from_str("📋 Знайдено портів: ");
            push_decimal(&mut line, self.available_ports.len() as u64);
            log_line(&mut self.terminal_output, line);
        }
    }

    /// Applies a message: the new state and the port work to do are those of
    /// [`next`].
    pub fn update(&mut self, message: Message) -> (cmd: Command)
        requires
            accepts(old(self)@, message),
        ensures
            (final(self)@, cmd@) == next(old(self)@, message),
    {
        match message {
            Message::ShowTerminal => {
                self.current_window = WindowState::Terminal;
                Command::Idle
            },
            Message::ShowSettings => {
                self.current_window = WindowState::Settings;
                Command::Idle
            },
            Message::ShowMonitor => {
                self.current_window = WindowState::Monitor;
                Command::Idle
            },
            Message::ShowFileView => {
                self.current_window = WindowState::FileView;
                Command::Idle
            },
            Message::InputChanged(text) => {
                self.input_text = text;
                Command::Idle
            },
            Message::SendData => {
                if self.input_text.as_str().is_empty() || !self.port_settings.connected {
                    return Command::Idle;
                }
                log_line(&mut self.terminal_output, concat2(">>> ", self.input_text.as_str()));
                let n = byte_len(&self.input_text);
                self.sent_bytes = self.sent_bytes + n as u64;
                self.input_text = String::new();
                Command::Idle
            },
            Message::ClearTerminal => {
                log_clear(&mut self.terminal_output);
                log_line(&mut self.terminal_output, String::from_str("=== Термінал очищено ==="));
                assert(self@.output =~= seq!["=== Термінал очищено ==="@]);
                Command::Idle
            },
            Message::PortSelected(port) => {
                self.port_settings.port_name = Some(port);
                Command::Idle
            },
            Message::BaudRateSelected(rate) => {
                self.port_settings.baud_rate = rate;
                Command::Idle
            },
            Message::ConnectPort => {
                match &self.port_settings.port_name {
                    Some(name) => Command::OpenPort {
                        name: name.clone(),
                        baud_rate: self.port_settings.baud_rate,
                    },
                    None => Command::Idle,
                }
            },
            Message::DisconnectPort => {
                match &self.port_settings.port_name {
                    Some(name) => {
                        let line = concat2("⊗ Відключен від ", name.as_str());
                        self.port_settings.connected = false;
                        log_line(&mut self.terminal_output, line);
                    },
                    None => {},
                }
                Command::Idle
            },
            Message::RefreshPorts => Command::ListPorts,
            Message::PortsUpdated(ports) => {
                self.log_ports(ports, "! COM порти не знайдені");
                Command::Idle
            },
            Message::StartMonitoring => {
                self.monitoring = true;
                log_line(&mut self.terminal_output, String::from_str("=== Моніторинг запущено ==="));
                Command::Idle
            },
            Message::StopMonitoring => {
                self.monitoring = false;
                log_line(&mut self.terminal_output, String::from_str("=== Моніторинг зупинено ==="));
                Command::Idle
            },
            Message::OpenFile => {
                self.log_file_path = Some(String::from_str("example.log"));
                log_line(&mut self.terminal_output, String::from_str("=== Файл відкритий (симуляція) ==="));
                Command::Idle
            },
            Message::SaveLog => {
                log_line(&mut self.terminal_output, String::from_str("=== Лог збережено (симуляція) ==="));
                Command::Idle
            },
            Message::DataReceived(data) => {
                let n = byte_len(&data);
                log_line(&mut self.terminal_output, concat2("↓ ", data.as_str()));
                self.received_bytes = self.received_bytes + n as u64;
                Command::Idle
            },
            Message::PortError(error) => {
                let cmd = if self.reports_open {
                    Command::Report { text: concat2("! Помилка порту: ", error.as_str()) }
                } else {
                    Command::Idle
                };
                log_line(&mut self.terminal_output, concat2("✗ ", error.as_str()));
                cmd
            },
        }
    }

    /// Applies the outcome of opening the chosen port ([`Command::OpenPort`]):
    /// `Err` holds the error's text. On success the report channel is set up
    /// and the application starts the worker.
    pub fn connect_result(&mut self, result: Result<(), String>) -> (cmd: Command)
        requires
            old(self)@.port_name is Some,
        ensures
            (final(self)@, cmd@) == next_after_open(
                old(self)@,
                old(self)@.port_name.unwrap(),
                unit_model(result),
            ),
    {
        let name = match &self.port_settings.port_name {
            Some(n) => n.clone(),
            None => String::new(),
        };
        match result {
            Ok(()) => {
                self.port_settings.connected = true;
                self.reports_open = true;
                let mut line = concat3("✓ Підключений до ", name.as_str(), " на ");
                push_decimal(&mut line, self.port_settings.baud_rate as u64);
                line.append(" baud");
                log_line(&mut self.terminal_output, line);
                Command::StartWorker
            },
            Err(e) => {
                let line = concat3("✗ Помилка підключення до ", name.as_str(), ": ");
                let line = line.concat(e.as_str());
                log_line(&mut self.terminal_output, line);
                Command::Idle
            },
        }
    }

    /// Applies the port list taken at start-up ([`Command::ListStartupPorts`]):
    /// `Ok` holds the port names, `Err` the error's text.
    pub fn startup_ports(&mut self, result: Result<Vec<String>, String>)
        ensures
            final(self)@ == next_after_startup(old(self)@, list_model(result)),
    {
        match result {
            Ok(ports) => self.log_ports(ports, "! COM порти не Знайдено"),
            Err(e) => log_line(
                &mut self.terminal_output,
                concat2("✗ Помилка отримання списку портів: ", e.as_str()),
            ),
        }
    }

    /// Applies a refreshed port list ([`Command::ListPorts`]): `Ok` holds the
    /// port names, `Err` the error's text.
    pub fn refresh_result(&mut self, result: Result<Vec<String>, String>)
        ensures
            final(self)@ == next_after_refresh(old(self)@, list_model(result)),
    {
        match result {
            Ok(ports) => {
                self.available_ports = ports;
                let mut line = String::from_str("📋 Знайдено портів: ");
                push_decimal(&mut line, self.available_ports.len() as u64);
                log_line(&mut self.terminal_output, line);
            },
            Err(e) => log_line(
                &mut self.terminal_output,
                concat2("✗ Помилка отримання списку портів: ", e.as_str()),
            ),
        }
    }

    /// Whether the terminal listens to a worker's report channel.
    pub fn listens_to_reports(&self) -> (r: bool)
        ensures
            r == self@.reports_open,
    {
        self.reports_open
    }

    /// The application's title.
    pub fn title(&self) -> (r: String)
        ensures
            r@ == "COM Terminal"@,
    {
        String::from_str("COM Terminal")
    }

    /// The window title: the page's name and the connection status.
    pub fn window_title(&self) -> (r: String)
        ensures
            r@ == window_title_text(self@),
    {
        let status = if self.port_settings.connected {
            let mut s = String::from_str(" - Підключений до ");
            match &self.port_settings.port_name {
                Some(n) => s.append(n.as_str()),
                None => s.append("Unknown"),
            }
            s
        } else {
            String::from_str(" - Відключений")
        };
        match self.current_window {
            WindowState::Terminal => concat2("COM Terminal - Термінал", status.as_str()),
            WindowState::Settings => concat2("COM Terminal - Налаштунки", status.as_str()),
            WindowState::Monitor => concat2("COM Terminal - Моніторинг", status.as_str()),
            WindowState::FileView => concat2("COM Terminal - Файлы", status.as_str()),
        }
    }

    /// The page shown.
    pub fn current_window(&self) -> (r: WindowState)
        ensures
            r == self@.window,
    {
        self.current_window
    }

    /// The text typed so far.
    pub fn input_text(&self) -> (r: &String)
        ensures
            r@ == self@.input,
    {
        &self.input_text
    }

    /// The log lines, oldest first.
    pub fn terminal_output(&self) -> (r: &VecDeque<String>)
        ensures
            texts(r@) == self@.output,
    {
        &self.terminal_output
    }

    /// The port settings.
    pub fn port_settings(&self) -> (r: &PortSettings)
        ensures
            opt_text(r.port_name) == self@.port_name,
            r.baud_rate == self@.baud_rate,
            r.connected == self@.connected,
    {
        &self.port_settings
    }

    /// The ports last listed.
    pub fn available_ports(&self) -> (r: &Vec<String>)
        ensures
            texts(r@) == self@.ports,
    {
        &self.available_ports
    }

    /// The speeds offered.
    pub fn baud_rates(&self) -> (r: &Vec<u32>)
        ensures
            r@ == self@.baud_rates,
    {
        &self.baud_rates
    }

    /// Whether monitoring is on.
    pub fn monitoring(&self) -> (r: bool)
        ensures
            r == self@.monitoring,
    {
        self.monitoring
    }

    /// Bytes sent so far.
    pub fn sent_bytes(&self) -> (r: u64)
        ensures
            r == self@.sent_bytes,
    {
        self.sent_bytes
    }

    /// Bytes received so far.
    pub fn received_bytes(&self) -> (r: u64)
        ensures
            r == self@.received_bytes,
    {
        self.received_bytes
    }

    /// The log file chosen, if any.
    pub fn log_file_path(&self) -> (r: &Option<String>)
        ensures
            opt_text(*r) == self@.log_file,
    {
        &self.log_file_path
    }
}

} // verus!

verus! {

// ---------------------------------------------------------------------------
// Laws
// ---------------------------------------------------------------------------

/// The terminal's consistency: a connected terminal has a port chosen, and
/// a connected terminal listens to a worker's reports.
pub open spec fn consistent(m: TerminalModel) -> bool {
    &&& m.connected ==> m.port_name is Some
    &&& m.connected ==> m.reports_open
}

/// A new terminal is consistent, and every message and every outcome of
/// port work keeps it consistent.
pub proof fn law_consistency_kept(
    m: TerminalModel,
    msg: Message,
    open: Result<(), Seq<char>>,
    list: Result<Seq<Seq<char>>, Seq<char>>,
)
    requires
        consistent(m),
    ensures
        consistent(initial_model()),
        consistent(next(m, msg).0),
        m.port_name is Some ==> consistent(next_after_open(m, m.port_name.unwrap(), open).0),
        consistent(next_after_startup(m, list)),
        consistent(next_after_refresh(m, list)),
{
}

/// The log only grows: every message but clearing, and every outcome of
/// port work, keeps the lines logged so far, in order, at the front.
pub proof fn law_log_only_grows(m: TerminalModel, msg: Message, list: Result<Seq<Seq<char>>, Seq<char>>)
    requires
        !(msg is ClearTerminal),
    ensures
        m.output.is_prefix_of(next(m, msg).0.output),
        m.output.is_prefix_of(next_after_startup(m, list).output),
        m.output.is_prefix_of(next_after_refresh(m, list).output),
{
    let n = next(m, msg).0.output;
    assert forall|i: int| 0 <= i < m.output.len() implies m.output[i] == n[i] by {}
    let s = next_after_startup(m, list).output;
    assert forall|i: int| 0 <= i < m.output.len() implies m.output[i] == s[i] by {}
    let r = next_after_refresh(m, list).output;
    assert forall|i: int| 0 <= i < m.output.len() implies m.output[i] == r[i] by {}
}

/// The byte counters never go down: sending adds exactly the UTF-8 byte
/// count of the text sent, receiving that of the text received.
pub proof fn law_counters(m: TerminalModel, msg: Message)
    requires
        accepts(m, msg),
    ensures
        next(m, msg).0.sent_bytes == (if msg is SendData && sends(m) {
            m.sent_bytes + byte_count(m.input)
        } else {
            m.sent_bytes as int
        }),
        next(m, msg).0.received_bytes == (match msg {
            Message::DataReceived(d) => m.received_bytes + byte_count(d@),
            _ => m.received_bytes as int,
        }),
{
}

} // verus!

verus! {

// ---------------------------------------------------------------------------
// Page texts
// ---------------------------------------------------------------------------

impl ComTerminal {
    /// The connection status shown above the log.
    pub fn status_text(&self) -> (r: String)
        ensures
            r@ == crate::pages_uk::status_text(self@.connected, self@.port_name, self@.baud_rate),
    {
        crate::pages_uk::status(self.port_settings.connected, &self.port_settings.port_name, self.port_settings.baud_rate)
    }

    /// The byte counters shown below the log.
    pub fn traffic_text(&self) -> (r: String)
        ensures
            r@ == crate::pages_uk::traffic_text(self@.sent_bytes, self@.received_bytes),
    {
        crate::pages_uk::traffic(self.sent_bytes, self.received_bytes)
    }

    /// The connect button: its label and the message it sends
    /// ([`Message::DisconnectPort`] while connected, [`Message::ConnectPort`]
    /// otherwise).
    pub fn connect_button(&self) -> (r: (String, Message))
        ensures
            r.0@ == crate::pages_uk::connection_label(self@.connected),
            self@.connected ==> r.1 is DisconnectPort,
            !self@.connected ==> r.1 is ConnectPort,
    {
        let label = crate::pages_uk::connection(self.port_settings.connected);
        if self.port_settings.connected {
            (label, Message::DisconnectPort)
        } else {
            (label, Message::ConnectPort)
        }
    }

    /// The statistics lines of the monitor page; a connected terminal must
    /// have a port chosen (which every state reached by the terminal's
    /// messages has).
    pub fn monitor_texts(&self) -> (r: Vec<String>)
        requires
            self@.connected ==> self@.port_name is Some,
        ensures
            texts(r@) == crate::pages_uk::monitor_texts(
                self@.connected,
                self@.port_name,
                self@.baud_rate,
                self@.sent_bytes,
                self@.received_bytes,
                self@.monitoring,
            ),
    {
        crate::pages_uk::monitor(
            self.port_settings.connected,
            &self.port_settings.port_name,
            self.port_settings.baud_rate,
            self.sent_bytes,
            self.received_bytes,
            self.monitoring,
        )
    }

    /// The monitoring button: its label and the message it sends
    /// ([`Message::StopMonitoring`] while monitoring,
    /// [`Message::StartMonitoring`] otherwise).
    pub fn monitor_button(&self) -> (r: (String, Message))
        ensures
            r.0@ == crate::pages_uk::monitor_label(self@.monitoring),
            self@.monitoring ==> r.1 is StopMonitoring,
            !self@.monitoring ==> r.1 is StartMonitoring,
    {
        let label = crate::pages_uk::monitor_button(self.monitoring);
        if self.monitoring {
            (label, Message::StopMonitoring)
        } else {
            (label, Message::StartMonitoring)
        }
    }

    /// The line naming the log file.
    pub fn file_text(&self) -> (r: String)
        ensures
            r@ == crate::pages_uk::file_text(self@.log_file),
    {
        crate::pages_uk::file(&self.log_file_path)
    }

    /// The first ten log lines, previewed on the file page.
    pub fn log_preview(&self) -> (r: Vec<String>)
        ensures
            texts(r@) == first_lines(self@.output, 10),
    {
        log_head(&self.terminal_output, 10)
    }

    /// Text size of a page's navigation button: larger for the page shown.
    pub fn nav_text_size(&self, window: WindowState) -> (r: u16)
        ensures
            r == (if window == self@.window { 16u16 } else { 14u16 }),
    {
        if window == self.current_window {
            16
        } else {
            14
        }
    }
}

} // verus!

verus! {

/// Each settings and page message sets what it names and nothing of the
/// connection: pages, input, port, speed, monitoring and the log file.
pub proof fn law_settings_messages(m: TerminalModel, t: String, p: String, r: u32)
    ensures
        next(m, Message::ShowTerminal).0.window == WindowState::Terminal,
        next(m, Message::ShowSettings).0.window == WindowState::Settings,
        next(m, Message::ShowMonitor).0.window == WindowState::Monitor,
        next(m, Message::ShowFileView).0.window == WindowState::FileView,
        next(m, Message::InputChanged(t)).0.input == t@,
        next(m, Message::PortSelected(p)).0.port_name == Some(p@),
        next(m, Message::BaudRateSelected(r)).0.baud_rate == r,
        next(m, Message::BaudRateSelected(r)).0.port_name == m.port_name,
        next(m, Message::PortSelected(p)).0.baud_rate == m.baud_rate,
        next(m, Message::StartMonitoring).0.monitoring,
        !next(m, Message::StopMonitoring).0.monitoring,
        next(m, Message::OpenFile).0.log_file == Some("example.log"@),
{
}

/// Connecting opens the chosen port at the chosen speed, and does nothing
/// when no port is chosen; a successful open connects, starts the worker
/// and listens to its reports, a failed one leaves the terminal as it was
/// but for the logged error; disconnecting clears the connection.
pub proof fn law_connect_opens_chosen_port(m: TerminalModel, e: Seq<char>)
    ensures
        m.port_name matches Some(n) ==> next(m, Message::ConnectPort) == (m, CommandModel::OpenPort {
            name: n,
            baud_rate: m.baud_rate,
        }),
        m.port_name is None ==> next(m, Message::ConnectPort) == (m, CommandModel::Idle),
        m.port_name matches Some(n) ==> ({
            let (s, c) = next_after_open(m, n, Ok(()));
            &&& s.connected && s.reports_open
            &&& c == CommandModel::StartWorker
            &&& s.output == m.output.push(
                "✓ Підключений до "@ + n + " на "@ + decimal(m.baud_rate as nat) + " baud"@,
            )
        }),
        m.port_name matches Some(n) ==> next_after_open(m, n, Err(e)) == (
            with_line(m, "✗ Помилка підключення до "@ + n + ": "@ + e),
            CommandModel::Idle,
        ),
        m.port_name is Some ==> !next(m, Message::DisconnectPort).0.connected,
{
}

/// Sending logs the input after `>>> `, counts its bytes and empties the
/// input; without input or connection nothing changes.
pub proof fn law_send_logs_the_input(m: TerminalModel)
    ensures
        sends(m) ==> ({
            let s = next(m, Message::SendData).0;
            &&& s.input.len() == 0
            &&& s.output == m.output.push(">>> "@ + m.input)
            &&& accepts(m, Message::SendData) ==> s.sent_bytes == m.sent_bytes + byte_count(m.input)
        }),
        !sends(m) ==> next(m, Message::SendData) == (m, CommandModel::Idle),
{
}

/// A port list, reported by message, at start-up or on refresh, replaces the
/// listed ports, and the count logged is that of the new list; a failed
/// listing keeps the old list.
pub proof fn law_port_list_replaces_ports(
    m: TerminalModel,
    ports: Vec<String>,
    list: Seq<Seq<char>>,
    e: Seq<char>,
)
    ensures
        next(m, Message::PortsUpdated(ports)).0.ports == texts(ports@),
        ports@.len() > 0 ==> next(m, Message::PortsUpdated(ports)).0.output == m.output.push(
            "📋 Знайдено портів: "@ + decimal(ports@.len()),
        ),
        next_after_startup(m, Ok(list)).ports == list,
        list.len() > 0 ==> next_after_startup(m, Ok(list)).output == m.output.push(
            "📋 Знайдено портів: "@ + decimal(list.len()),
        ),
        next_after_refresh(m, Ok(list)).ports == list,
        next_after_refresh(m, Ok(list)).output == m.output.push(
            "📋 Знайдено портів: "@ + decimal(list.len()),
        ),
        next_after_startup(m, Err(e)).ports == m.ports,
        next_after_refresh(m, Err(e)).ports == m.ports,
{
}

/// A port error is logged and, while the worker's reports are listened to,
/// reported back with its text.
pub proof fn law_port_error_reported(m: TerminalModel, e: String)
    ensures
        next(m, Message::PortError(e)).0.output == m.output.push("✗ "@ + e@),
        m.reports_open ==> next(m, Message::PortError(e)).1 == (CommandModel::Report {
            text: "! Помилка порту: "@ + e@,
        }),
        !m.reports_open ==> next(m, Message::PortError(e)).1 == CommandModel::Idle,
{
}

} // verus!
