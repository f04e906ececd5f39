//! The one-page COM terminal with line and hex modes.
//!
//! [`SerialApp::update`] decides what a message does to the terminal and
//! which work the application has to start ([`Command`]); the outcome of that
//! work comes back as messages. Payloads are built from the input line: in
//! hex mode the input is decoded with [`crate::hex_utils::hex_to_bytes`], in
//! line mode a missing line feed is added. Sent payloads and, in hex mode,
//! received data are logged as hex dumps.
use vstd::prelude::*;
use vstd::string::*;
use vstd::utf8::encode_utf8;
use crate::hex::{hex_decode, hex_dump, invalid_digit_text, HexDecode};
use crate::hex_utils::{bytes_to_hex, hex_to_bytes};
use crate::port_io::{decode_lossy, lossy_utf8};
use crate::text::{concat2, concat3, decimal, opt_text, push_decimal, texts};

verus! {

/// The parity choices offered.
#[derive(Clone, Copy, Debug, PartialEq, Eq, Structural)]
pub enum ParityOption {
    /// No parity bit (shown as "None").
    NoParity,
    Even,
    Odd,
}

impl ParityOption {
    /// The choices in the order they are offered.
    pub fn all() -> (r: Vec<ParityOption>)
        ensures
            r@ == seq![ParityOption::NoParity, ParityOption::Even, ParityOption::Odd],
    {
        let mut v: Vec<ParityOption> = Vec::new();
        v.push(ParityOption::NoParity);
        v.push(ParityOption::Even);
        v.push(ParityOption::Odd);
        assert(v@ =~= seq![ParityOption::NoParity, ParityOption::Even, ParityOption::Odd]);
        v
    }

    /// The name shown for the choice.
    pub fn label(&self) -> (r: String)
        ensures
            r@ == match *self {
                ParityOption::NoParity => "None"@,
                ParityOption::Even => "Even"@,
                ParityOption::Odd => "Odd"@,
            },
    {
        match self {
            ParityOption::NoParity => String::from_str("None"),
            ParityOption::Even => String::from_str("Even"),
            ParityOption::Odd => String::from_str("Odd"),
        }
    }
}

/// What the user or the application's work tells the terminal.
#[derive(Clone, Debug)]
pub enum Message {
    RefreshPorts,
    Ports(Vec<String>),
    SelectPort(Option<String>),
    SelectBaud(u32),
    SelectParity(ParityOption),
    ToggleLineMode(bool),
    ToggleHexMode(bool),
    ConnectToggle,
    Disconnect,
    OpenFile,
    FileLoaded(String),
    InputChanged(String),
    ClearInput,
    SendInput,
    ClearTerminal,
    SaveTerminal,
    CopyTerminal,
    /// The port was opened; the application keeps it.
    PortOpened,
    /// Opening the port failed; the text describes the error.
    PortOpenFailed(String),
    SerialData(String),
    SerialError(String),
    Tick,
}

/// Work the application has to start after an update.
#[derive(Debug)]
pub enum Command {
    /// Nothing to do.
    Idle,
    /// List the available ports and answer with [`Message::Ports`].
    ListPorts,
    /// Drop the port and answer with [`Message::Disconnect`].
    Disconnect,
    /// Open the port and answer with [`Message::PortOpened`] or
    /// [`Message::PortOpenFailed`].
    OpenPort { name: String, baud_rate: u32, parity: ParityOption },
    /// Let the user pick a text file and answer with [`Message::FileLoaded`]
    /// holding its contents (empty if none was picked) or
    /// [`Message::SerialError`] holding the error's text.
    OpenFileDialog,
    /// Write the bytes to the port and answer with the message that
    /// [`write_report`] makes of the outcome.
    Write { bytes: Vec<u8> },
    /// Answer with [`Message::SerialError`] holding this text.
    ReportError { text: String },
    /// Let the user save this text under a chosen name (offered as
    /// `file_name`) and answer with [`Message::Tick`].
    SaveFile { file_name: String, contents: String },
    /// Put this text on the clipboard and answer with [`Message::Tick`].
    CopyToClipboard { text: String },
}

/// [`Command`] with texts and bytes as sequences.
pub enum CommandModel {
    Idle,
    ListPorts,
    Disconnect,
    OpenPort { name: Seq<char>, baud_rate: u32, parity: ParityOption },
    OpenFileDialog,
    Write { bytes: Seq<u8> },
    ReportError { text: Seq<char> },
    SaveFile { file_name: Seq<char>, contents: Seq<char> },
    CopyToClipboard { text: Seq<char> },
}

impl View for Command {
    type V = CommandModel;

    open spec fn view(&self) -> CommandModel {
        match self {
            Command::Idle => CommandModel::Idle,
            Command::ListPorts => CommandModel::ListPorts,
            Command::Disconnect => CommandModel::Disconnect,
            Command::OpenPort { name, baud_rate, parity } => CommandModel::OpenPort {
                name: name@,
                baud_rate: *baud_rate,
                parity: *parity,
            },
            Command::OpenFileDialog => CommandModel::OpenFileDialog,
            Command::Write { bytes } => CommandModel::Write { bytes: bytes@ },
            Command::ReportError { text } => CommandModel::ReportError { text: text@ },
            Command::SaveFile { file_name, contents } => CommandModel::SaveFile {
                file_name: file_name@,
                contents: contents@,
            },
            Command::CopyToClipboard { text } => CommandModel::CopyToClipboard { text: text@ },
        }
    }
}

/// The terminal's settings and texts.
pub struct AppState {
    ports: Vec<String>,
    selected_port: Option<String>,
    baud_rates: Vec<u32>,
    selected_baud: u32,
    parity: ParityOption,
    line_mode: bool,
    hex_mode: bool,
    /// Whether the application holds an open port.
    port_open: bool,
    terminal: String,
    input: String,
    scanning: bool,
}

/// [`AppState`] with texts as character sequences.
pub struct AppModel {
    pub ports: Seq<Seq<char>>,
    pub selected_port: Option<Seq<char>>,
    pub baud_rates: Seq<u32>,
    pub selected_baud: u32,
    pub parity: ParityOption,
    pub line_mode: bool,
    pub hex_mode: bool,
    pub port_open: bool,
    pub terminal: Seq<char>,
    pub input: Seq<char>,
    pub scanning: bool,
}

impl View for AppState {
    type V = AppModel;

    closed spec fn view(&self) -> AppModel {
        AppModel {
            ports: texts(self.ports@),
            selected_port: opt_text(self.selected_port),
            baud_rates: self.baud_rates@,
            selected_baud: self.selected_baud,
            parity: self.parity,
            line_mode: self.line_mode,
            hex_mode: self.hex_mode,
            port_open: self.port_open,
            terminal: self.terminal@,
            input: self.input@,
            scanning: self.scanning,
        }
    }
}

/// The terminal application.
pub struct SerialApp {
    state: AppState,
}

impl View for SerialApp {
    type V = AppModel;

    closed spec fn view(&self) -> AppModel {
        self.state@
    }
}

// ---------------------------------------------------------------------------
// Specification
// ---------------------------------------------------------------------------

/// The state of a new terminal.
pub open spec fn default_model() -> AppModel {
    AppModel {
        ports: seq![],
        selected_port: None,
        baud_rates: seq![9600u32, 19200u32, 38400u32, 57600u32, 115200u32, 128000u32, 256000u32],
        selected_baud: 115200,
        parity: ParityOption::NoParity,
        line_mode: false,
        hex_mode: false,
        port_open: false,
        terminal: seq![],
        input: seq![],
        scanning: true,
    }
}

/// The port kept selected after a new port list: the old choice if it is
/// still listed, the first listed port otherwise.
pub open spec fn reselect(selected: Option<Seq<char>>, ports: Seq<Seq<char>>) -> Option<Seq<char>> {
    match selected {
        Some(p) => if ports.contains(p) {
            Some(p)
        } else if ports.len() > 0 {
            Some(ports[0])
        } else {
            None
        },
        None => if ports.len() > 0 {
            Some(ports[0])
        } else {
            None
        },
    }
}

/// The bytes to send for an input line: in hex mode its decoding, otherwise
/// its UTF-8 bytes with a line feed added in line mode when missing.
pub open spec fn payload(input: Seq<char>, hex_mode: bool, line_mode: bool) -> Result<Seq<u8>, Seq<char>> {
    if hex_mode {
        match hex_decode(input) {
            HexDecode::Bytes(b) => Ok(b),
            HexDecode::OddLength => Err("Hex string must have even length"@),
            _ => Err(invalid_digit_text()),
        }
    } else {
        let v = encode_utf8(input);
        if line_mode && !(v.len() > 0 && v.last() == 10u8) {
            Ok(v.push(10u8))
        } else {
            Ok(v)
        }
    }
}

/// The state with text added at the end of the terminal.
pub open spec fn with_text(m: AppModel, t: Seq<char>) -> AppModel {
    AppModel { terminal: m.terminal + t, ..m }
}

/// The messages `update` accepts in a state: building a hex payload must
/// not slice inside a character.
pub open spec fn accepts(m: AppModel, msg: Message) -> bool {
    (msg is SendInput && m.port_open && m.hex_mode) ==> !(hex_decode(m.input) is SliceFails)
}

/// What a message does: the next state and the work to start.
pub open spec fn next(m: AppModel, msg: Message) -> (AppModel, CommandModel) {
    match msg {
        Message::RefreshPorts => (m, CommandModel::ListPorts),
        Message::Tick => (m, CommandModel::ListPorts),
        Message::Ports(list) => (
            AppModel { ports: texts(list@), selected_port: reselect(m.selected_port, texts(list@)), ..m },
            CommandModel::Idle,
        ),
        Message::SelectPort(p) => (AppModel { selected_port: opt_text(p), ..m }, CommandModel::Idle),
        Message::SelectBaud(b) => (AppModel { selected_baud: b, ..m }, CommandModel::Idle),
        Message::SelectParity(p) => (AppModel { parity: p, ..m }, CommandModel::Idle),
        Message::ToggleLineMode(v) => (AppModel { line_mode: v, ..m }, CommandModel::Idle),
        Message::ToggleHexMode(v) => (AppModel { hex_mode: v, ..m }, CommandModel::Idle),
        Message::ConnectToggle => if m.port_open {
            (with_text(AppModel { port_open: false, ..m }, "[Disconnected]\n"@), CommandModel::Disconnect)
        } else {
            match m.selected_port {
                Some(p) => (
                    with_text(m, "[Opening "@ + p + " @ "@ + decimal(m.selected_baud as nat) + "]\n"@),
                    CommandModel::OpenPort { name: p, baud_rate: m.selected_baud, parity: m.parity },
                ),
                None => (with_text(m, "[No port selected]\n"@), CommandModel::Idle),
            }
        },
        Message::Disconnect => (with_text(AppModel { port_open: false, ..m }, "[Disconnected]\n"@), CommandModel::Idle),
        Message::PortOpened => (with_text(AppModel { port_open: true, ..m }, "[Connected]\n"@), CommandModel::Idle),
        Message::PortOpenFailed(e) => (with_text(m, "[Open error: "@ + e@ + "]\n"@), CommandModel::Idle),
        Message::OpenFile => (m, CommandModel::OpenFileDialog),
        Message::FileLoaded(t) => (AppModel { input: t@, ..m }, CommandModel::Idle),
        Message::InputChanged(t) => (AppModel { input: t@, ..m }, CommandModel::Idle),
        Message::ClearInput => (AppModel { input: seq![], ..m }, CommandModel::Idle),
        Message::SendInput => if m.port_open {
            match payload(m.input, m.hex_mode, m.line_mode) {
                Ok(b) => (m, CommandModel::Write { bytes: b }),
                Err(e) => (m, CommandModel::ReportError { text: "Send error: "@ + e }),
            }
        } else {
            (with_text(m, "[Not connected]\n"@), CommandModel::Idle)
        },
        Message::SerialData(s) => if m.hex_mode {
            (with_text(m, "<= "@ + hex_dump(encode_utf8(s@)) + "\n"@), CommandModel::Idle)
        } else {
            (with_text(m, s@), CommandModel::Idle)
        },
        Message::SerialError(e) => (
            with_text(AppModel { port_open: false, ..m }, "[Serial error: "@ + e@ + "]\n"@),
            CommandModel::Idle,
        ),
        Message::ClearTerminal => (AppModel { terminal: seq![], ..m }, CommandModel::Idle),
        Message::SaveTerminal => (
            m,
            CommandModel::SaveFile { file_name: "terminal_log.txt"@, contents: m.terminal },
        ),
        Message::CopyTerminal => (m, CommandModel::CopyToClipboard { text: m.terminal }),
    }
}

// ---------------------------------------------------------------------------
// Executable code
// ---------------------------------------------------------------------------

fn contains_text(v: &Vec<String>, s: &String) -> (r: bool)
    ensures
        r == texts(v@).contains(s@),
{
    let n = v.len();
    let mut i: usize = 0;
    while i < n
        invariant
            n == v@.len(),
            i <= n,
            forall|k: int| 0 <= k < i ==> texts(v@)[k] != s@,
        decreases n - i,
    {
        if v[i] == *s {
            assert(texts(v@)[i as int] == s@);
            return true;
        }
        i = i + 1;
    }
    false
}

fn first_text(v: &Vec<String>) -> (r: Option<String>)
    ensures
        opt_text(r) == (if v@.len() > 0 { Some(texts(v@)[0]) } else { None::<Seq<char>> }),
{
    if v.len() > 0 {
        Some(v[0].clone())
    } else {
        None
    }
}

/// Builds the bytes to send for an input line (see [`payload`]).
pub fn build_payload(input: &String, hex_mode: bool, line_mode: bool) -> (r: Result<Vec<u8>, String>)
    requires
        hex_mode ==> !(hex_decode(input@) is SliceFails),
    ensures
        match payload(input@, hex_mode, line_mode) {
            Ok(b) => r matches Ok(v) && v@ == b,
            Err(e) => r matches Err(t) && t@ == e,
        },
{
    if hex_mode {
        hex_to_bytes(input.as_str())
    } else {
        let mut v = input.as_str().as_bytes_vec();
        if line_mode && !(v.len() > 0 && v[v.len() - 1] == 10u8) {
            v.push(10u8);
        }
        Ok(v)
    }
}

/// The message the outcome of writing `bytes` is answered with: the hex dump
/// of what was sent, or the error's text.
pub fn write_report(bytes: &[u8], result: Result<(), String>) -> (r: Message)
    ensures
        match result {
            Ok(()) => r matches Message::SerialData(t) && t@ == "=> "@ + hex_dump(bytes@) + "\n"@,
            Err(e) => r matches Message::SerialError(t) && t@ == "Send error: "@ + e@,
        },
{
    match result {
        Ok(()) => {
            let hex = bytes_to_hex(bytes);
            Message::SerialData(concat3("=> ", hex.as_str(), "\n"))
        },
        Err(e) => Message::SerialError(concat2("Send error: ", e.as_str())),
    }
}

/// What one read by the port reader leads to.
pub enum ReadStep {
    /// Deliver this text as [`Message::SerialData`] and read on.
    Deliver(String),
    /// Nothing arrived: wait 10 ms and read again.
    Pause,
    /// Deliver this text as [`Message::SerialError`] and stop reading.
    Fail(String),
}

/// Decides what one read of the open port leads to: received bytes are
/// delivered as text (invalid UTF-8 replaced), no bytes mean a pause, an
/// error (`Err` holds its text) ends reading.
pub fn read_step(read: Result<Vec<u8>, String>) -> (r: ReadStep)
    ensures
        match read {
            Ok(b) => if b@.len() > 0 {
                r matches ReadStep::Deliver(t) && t@ == lossy_utf8(b@)
            } else {
                r is Pause
            },
            Err(e) => r matches ReadStep::Fail(t) && t@ == e@,
        },
{
    match read {
        Ok(b) => if b.len() > 0 {
            ReadStep::Deliver(decode_lossy(b.as_slice()))
        } else {
            ReadStep::Pause
        },
        Err(e) => ReadStep::Fail(e),
    }
}

impl AppState {
    /// No ports listed, speeds 9600 to 256000 offered with 115200 chosen, no
    /// parity, both modes off, no port, empty texts, scanning on.
    pub fn default() -> (r: AppState)
        ensures
            r@ == default_model(),
    {
        let mut baud_rates: Vec<u32> = Vec::new();
        baud_rates.push(9600);
        baud_rates.push(19200);
        baud_rates.push(38400);
        baud_rates.push(57600);
        baud_rates.push(115200);
        baud_rates.push(128000);
        baud_rates.push(256000);
        let r = AppState {
            ports: Vec::new(),
            selected_port: None,
            baud_rates,
            selected_baud: 115200,
            parity: ParityOption::NoParity,
            line_mode: false,
            hex_mode: false,
            port_open: false,
            terminal: String::new(),
            input: String::new(),
            scanning: true,
        };
        assert(r.baud_rates@ =~= default_model().baud_rates);
        assert(texts(r.ports@) =~= Seq::<Seq<char>>::empty());
        r
    }
}

impl SerialApp {
    /// A terminal in its default state; the application refreshes the port
    /// list next (the command is that of [`Message::RefreshPorts`]).
    pub fn new() -> (r: (SerialApp, Command))
        ensures
            r.0@ == default_model(),
            r.1@ == CommandModel::ListPorts,
    {
        (SerialApp { state: AppState::default() }, Command::ListPorts)
    }

    /// The window title.
    pub fn title(&self) -> (r: String)
        ensures
            r@ == "COM Terminal"@,
    {
        String::from_str("COM Terminal")
    }

    /// Applies a message: the new state and the work to start are those of
    /// [`next`].
    pub fn update(&mut self, message: Message) -> (cmd: Command)
        requires
            accepts(old(self)@, message),
        ensures
            (final(self)@, cmd@) == next(old(self)@, message),
    {
        let st = &mut self.state;
        match message {
            Message::RefreshPorts => Command::ListPorts,
            Message::Tick => Command::ListPorts,
            Message::Ports(list) => {
                let keep = match &st.selected_port {
                    Some(sel) => contains_text(&list, sel),
                    None => false,
                };
                if !keep {
                    st.selected_port = first_text(&list);
                }
                st.ports = list;
                Command::Idle
            },
            Message::SelectPort(p) => {
                st.selected_port = p;
                Command::Idle
            },
            Message::SelectBaud(b) => {
                st.selected_baud = b;
                Command::Idle
            },
            Message::SelectParity(p) => {
                st.parity = p;
                Command::Idle
            },
            Message::ToggleLineMode(v) => {
                st.line_mode = v;
                Command::Idle
            },
            Message::ToggleHexMode(v) => {
                st.hex_mode = v;
                Command::Idle
            },
            Message::ConnectToggle => {
                if st.port_open {
                    st.port_open = false;
                    st.terminal.append("[Disconnected]\n");
                    return Command::Disconnect;
                }
                match &st.selected_port {
                    Some(p) => {
                        let name = p.clone();
                        let mut line = concat3("[Opening ", name.as_str(), " @ ");
                        push_decimal(&mut line, st.selected_baud as u64);
                        line.append("]\n");
                        st.terminal.append(line.as_str());
                        Command::OpenPort { name, baud_rate: st.selected_baud, parity: st.parity }
                    },
                    None => {
                        st.terminal.append("[No port selected]\n");
                        Command::Idle
                    },
                }
            },
            Message::Disconnect => {
                st.port_open = false;
                st.terminal.append("[Disconnected]\n");
                Command::Idle
            },
            Message::PortOpened => {
                st.port_open = true;
                st.terminal.append("[Connected]\n");
                Command::Idle
            },
            Message::PortOpenFailed(e) => {
                let line = concat3("[Open error: ", e.as_str(), "]\n");
                st.terminal.append(line.as_str());
                Command::Idle
            },
            Message::OpenFile => Command::OpenFileDialog,
            Message::FileLoaded(t) => {
                st.input = t;
                Command::Idle
            },
            Message::InputChanged(t) => {
                st.input = t;
                Command::Idle
            },
            Message::ClearInput => {
                st.input = String::new();
                Command::Idle
            },
            Message::SendInput => {
                if st.port_open {
                    match build_payload(&st.input, st.hex_mode, st.line_mode) {
                        Ok(bytes) => Command::Write { bytes },
                        Err(e) => Command::ReportError { text: concat2("Send error: ", e.as_str()) },
                    }
                } else {
                    st.terminal.append("[Not connected]\n");
                    Command::Idle
                }
            },
            Message::SerialData(s) => {
                if st.hex_mode {
                    let hex = bytes_to_hex(s.as_str().as_bytes());
                    let line = concat3("<= ", hex.as_str(), "\n");
                    st.terminal.append(line.as_str());
                } else {
                    st.terminal.append(s.as_str());
                }
                Command::Idle
            },
            Message::SerialError(e) => {
                let line = concat3("[Serial error: ", e.as_str(), "]\n");
                st.terminal.append(line.as_str());
                st.port_open = false;
                Command::Idle
            },
            Message::ClearTerminal => {
                st.terminal = String::new();
                Command::Idle
            },
            Message::SaveTerminal => Command::SaveFile {
                file_name: String::from_str("terminal_log.txt"),
                contents: st.terminal.clone(),
            },
            Message::CopyTerminal => Command::CopyToClipboard { text: st.terminal.clone() },
        }
    }

    /// The connect button: "Disconnect" while a port is open, "Connect"
    /// otherwise; it always sends [`Message::ConnectToggle`].
    pub fn connect_button(&self) -> (r: (String, Message))
        ensures
            r.0@ == (if self@.port_open { "Disconnect"@ } else { "Connect"@ }),
            r.1 is ConnectToggle,
    {
        if self.state.port_open {
            (String::from_str("Disconnect"), Message::ConnectToggle)
        } else {
            (String::from_str("Connect"), Message::ConnectToggle)
        }
    }

    /// Whether the port reader runs (while a port is open), and the period in
    /// milliseconds of the port scan, which always runs.
    pub fn subscriptions(&self) -> (r: (bool, u64))
        ensures
            r.0 == self@.port_open,
            r.1 == 5000,
    {
        (self.state.port_open, 5000)
    }

    /// The ports last listed.
    pub fn ports(&self) -> (r: &Vec<String>)
        ensures
            texts(r@) == self@.ports,
    {
        &self.state.ports
    }

    /// The port chosen, if any.
    pub fn selected_port(&self) -> (r: &Option<String>)
        ensures
            opt_text(*r) == self@.selected_port,
    {
        &self.state.selected_port
    }

    /// The speeds offered.
    pub fn baud_rates(&self) -> (r: &Vec<u32>)
        ensures
            r@ == self@.baud_rates,
    {
        &self.state.baud_rates
    }

    /// The speed chosen.
    pub fn selected_baud(&self) -> (r: u32)
        ensures
            r == self@.selected_baud,
    {
        self.state.selected_baud
    }

    /// The parity chosen.
    pub fn parity(&self) -> (r: ParityOption)
        ensures
            r == self@.parity,
    {
        self.state.parity
    }

    /// Whether line mode is on.
    pub fn line_mode(&self) -> (r: bool)
        ensures
            r == self@.line_mode,
    {
        self.state.line_mode
    }

    /// Whether hex mode is on.
    pub fn hex_mode(&self) -> (r: bool)
        ensures
            r == self@.hex_mode,
    {
        self.state.hex_mode
    }

    /// Whether the application holds an open port.
    pub fn port_open(&self) -> (r: bool)
        ensures
            r == self@.port_open,
    {
        self.state.port_open
    }

    /// The terminal text.
    pub fn terminal(&self) -> (r: &String)
        ensures
            r@ == self@.terminal,
    {
        &self.state.terminal
    }

    /// The input line.
    pub fn input(&self) -> (r: &String)
        ensures
            r@ == self@.input,
    {
        &self.state.input
    }
}

} // verus!

verus! {

// ---------------------------------------------------------------------------
// Laws
// ---------------------------------------------------------------------------

/// The selection after a port list `ports` arrived in state `m`, giving `n`.
pub open spec fn selection_follows(m: AppModel, n: AppModel, ports: Seq<Seq<char>>) -> bool {
    &&& n.ports == ports
    &&& (n.selected_port is None <==> ports.len() == 0)
    &&& n.selected_port matches Some(p) ==> ports.contains(p)
    &&& (m.selected_port matches Some(p) && ports.contains(p)) ==> n.selected_port
        == m.selected_port
}

/// After a port list arrives, a port is selected exactly when the list is
/// not empty, and the selected port is one of the listed ports; a selection
/// that is still listed is kept.
pub proof fn law_selection_follows_list(m: AppModel, list: Vec<String>)
    ensures
        selection_follows(m, next(m, Message::Ports(list)).0, texts(list@)),
{
    let ports = texts(list@);
    if ports.len() > 0 {
        assert(ports.contains(ports[0]));
    }
}

/// The terminal text only grows: every message but clearing keeps the text
/// so far at the front.
pub proof fn law_terminal_only_grows(m: AppModel, msg: Message)
    requires
        !(msg is ClearTerminal),
    ensures
        m.terminal.is_prefix_of(next(m, msg).0.terminal),
{
    let t = next(m, msg).0.terminal;
    assert forall|i: int| 0 <= i < m.terminal.len() implies m.terminal[i] == t[i] by {}
}

/// In hex mode, sending writes exactly the decoded input, and the hex dump
/// logged for that write decodes back to what was written.
pub proof fn law_hex_send_logs_its_payload(m: AppModel, bytes: Seq<u8>)
    requires
        m.port_open,
        m.hex_mode,
        hex_decode(m.input) == HexDecode::Bytes(bytes),
    ensures
        next(m, Message::SendInput).1 == (CommandModel::Write { bytes }),
        hex_decode(hex_dump(bytes)) == HexDecode::Bytes(bytes),
{
    crate::hex::law_hex_round_trip(bytes);
}

/// In line mode (hex mode off) every payload ends with a line feed, and is
/// the input's UTF-8 bytes with at most that line feed added.
pub proof fn law_line_mode_ends_lines(input: Seq<char>)
    ensures
        payload(input, false, true) matches Ok(v) && v.len() > 0 && v.last() == 10u8 && (v
            == encode_utf8(input) || v == encode_utf8(input).push(10u8)),
{
}

/// With hex and line mode off, the payload is exactly the input's UTF-8
/// bytes, and sending with a port open writes just those bytes.
pub proof fn law_plain_payload_is_the_input(m: AppModel, input: Seq<char>)
    ensures
        payload(input, false, false) == Ok::<Seq<u8>, Seq<char>>(encode_utf8(input)),
        (m.port_open && !m.hex_mode && !m.line_mode) ==> next(m, Message::SendInput) == (
            m,
            CommandModel::Write { bytes: encode_utf8(m.input) },
        ),
{
}

/// In line mode (hex mode off) a line feed is added exactly when the
/// input's UTF-8 bytes do not already end with one.
pub proof fn law_line_mode_adds_missing_line_feed(input: Seq<char>)
    ensures
        ({
            let v = encode_utf8(input);
            payload(input, false, true) == Ok::<Seq<u8>, Seq<char>>(
                if v.len() > 0 && v.last() == 10u8 { v } else { v.push(10u8) },
            )
        }),
{
}

/// In hex mode the payload is the input's hex decoding whatever the line
/// mode: `Ok` exactly when the input decodes, an odd digit count and a bad
/// digit each reported by their own text.
pub proof fn law_hex_payload_is_the_decoding(input: Seq<char>, line_mode: bool, b: Seq<u8>)
    ensures
        payload(input, true, line_mode) == Ok::<Seq<u8>, Seq<char>>(b) <==> hex_decode(input)
            == HexDecode::Bytes(b),
        hex_decode(input) is OddLength ==> payload(input, true, line_mode) == Err::<Seq<u8>, Seq<char>>(
            "Hex string must have even length"@,
        ),
        hex_decode(input) is InvalidDigit ==> payload(input, true, line_mode) == Err::<Seq<u8>, Seq<char>>(
            invalid_digit_text(),
        ),
{
}

/// Each settings message sets what it names, and clearing empties the input
/// or the terminal.
pub proof fn law_settings_messages(m: AppModel, b: u32, par: ParityOption, v: bool, t: String)
    ensures
        next(m, Message::SelectBaud(b)).0.selected_baud == b,
        next(m, Message::SelectParity(par)).0.parity == par,
        next(m, Message::ToggleLineMode(v)).0.line_mode == v,
        next(m, Message::ToggleHexMode(v)).0.hex_mode == v,
        next(m, Message::InputChanged(t)).0.input == t@,
        next(m, Message::FileLoaded(t)).0.input == t@,
        next(m, Message::ClearInput).0.input.len() == 0,
        next(m, Message::ClearTerminal).0.terminal.len() == 0,
{
}

/// Connecting opens the selected port with the selected speed and parity,
/// or disconnects an open port; the outcome of opening and a serial error
/// set whether the port is open; without an open port nothing is sent.
pub proof fn law_connect_toggle(m: AppModel, e: String)
    ensures
        m.selected_port matches Some(p) ==> (!m.port_open ==> next(m, Message::ConnectToggle).1 == (
            CommandModel::OpenPort { name: p, baud_rate: m.selected_baud, parity: m.parity })),
        (!m.port_open && m.selected_port is None) ==> next(m, Message::ConnectToggle).1
            == CommandModel::Idle,
        m.port_open ==> next(m, Message::ConnectToggle).1 == CommandModel::Disconnect
            && !next(m, Message::ConnectToggle).0.port_open,
        next(m, Message::PortOpened).0.port_open,
        !next(m, Message::Disconnect).0.port_open,
        !next(m, Message::SerialError(e)).0.port_open,
        next(m, Message::PortOpenFailed(e)).0.port_open == m.port_open,
        !m.port_open ==> next(m, Message::SendInput) == (
            with_text(m, "[Not connected]\n"@),
            CommandModel::Idle,
        ),
{
}

} // verus!
