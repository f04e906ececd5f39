//! The serial terminal with a plot of incoming values.
//!
//! [`ComApp::update`] decides what a message does and which work the
//! application has to start ([`Command`]). Incoming port data is read by a
//! stream ([`StreamState`]) that reopens the port for every chunk, and by a
//! background reader ([`ReaderWorker`]). Plotted values are kept by the
//! application; the terminal decides at which position each new value is
//! plotted and when the oldest one is dropped.
use vstd::prelude::*;
use vstd::string::*;
use vstd::utf8::{decode_utf8, valid_utf8};
use crate::port_io::{decode_utf8_strict, PortRead};
use crate::text::{concat2, decimal, digit_char, opt_text, texts};

verus! {

/// Speeds offered for choice.
pub fn baud_rates() -> (r: Vec<u32>)
    ensures
        r@ == seq![110u32, 300u32, 600u32, 1200u32, 2400u32, 4800u32, 9600u32, 19200u32, 38400u32, 57600u32],
{
    let mut v: Vec<u32> = Vec::new();
    v.push(110);
    v.push(300);
    v.push(600);
    v.push(1200);
    v.push(2400);
    v.push(4800);
    v.push(9600);
    v.push(19200);
    v.push(38400);
    v.push(57600);
    assert(v@ =~= seq![110u32, 300u32, 600u32, 1200u32, 2400u32, 4800u32, 9600u32, 19200u32, 38400u32, 57600u32]);
    v
}

/// Most values the plot holds.
pub const MAX_DATA_POINTS: usize = 100;

/// Speed of a new terminal.
pub const BAUD_DEFAULT: u32 = 9600;

/// Data bits per character.
#[derive(Clone, Copy, Debug, PartialEq, Eq, Structural)]
pub enum DataBits {
    Five,
    Six,
    Seven,
    Eight,
}

/// Parity checking.
#[derive(Clone, Copy, Debug, PartialEq, Eq, Structural)]
pub enum Parity {
    /// No parity bit.
    NoParity,
    Odd,
    Even,
}

/// Stop bits per character.
#[derive(Clone, Copy, Debug, PartialEq, Eq, Structural)]
pub enum StopBits {
    One,
    Two,
}

/// What the user or the application's work tells the terminal.
#[derive(Clone, Debug)]
pub enum Message {
    Connect,
    Disconnect,
    PortSelected(String),
    BaudRateSelected(u32),
    BaudRateTextChanged(String),
    InputTextChanged(String),
    Send,
    SerialDataReceived(Vec<u8>),
    ListPorts,
    PortListReceived(Vec<String>),
    PortListError(String),
    /// A value to plot arrived; the application holds the value and plots
    /// it as [`Command::PlotValue`] says.
    DataReceived,
    ErrorOccurred(String),
}

/// Work the application has to start after an update.
#[derive(Debug)]
pub enum Command {
    /// Nothing to do.
    Idle,
    /// List the available ports and answer with [`Message::PortListReceived`]
    /// or [`Message::PortListError`] (holding the error's text).
    ListPorts,
    /// Start a background reader (see [`ReaderWorker`]) on this port.
    StartReader { port_name: String, baud_rate: u32 },
    /// Stop the background reader.
    AbortReader,
    /// Plot the value that arrived at horizontal position `x`, dropping the
    /// oldest plotted value first when `drop_oldest` holds.
    PlotValue { x: usize, drop_oldest: bool },
}

/// [`Command`] with texts as character sequences.
pub enum CommandModel {
    Idle,
    ListPorts,
    StartReader { port_name: Seq<char>, baud_rate: u32 },
    AbortReader,
    PlotValue { x: usize, drop_oldest: bool },
}

impl View for Command {
    type V = CommandModel;

    open spec fn view(&self) -> CommandModel {
        match self {
            Command::Idle => CommandModel::Idle,
            Command::ListPorts => CommandModel::ListPorts,
            Command::StartReader { port_name, baud_rate } => CommandModel::StartReader {
                port_name: port_name@,
                baud_rate: *baud_rate,
            },
            Command::AbortReader => CommandModel::AbortReader,
            Command::PlotValue { x, drop_oldest } => CommandModel::PlotValue {
                x: *x,
                drop_oldest: *drop_oldest,
            },
        }
    }
}

/// The terminal's state.
pub struct ComApp {
    serial_port_name: Option<String>,
    baud_rate: u32,
    data_bits: DataBits,
    parity: Parity,
    stop_bits: StopBits,
    buffer: String,
    input_text: String,
    is_connected: bool,
    /// Whether a background reader runs.
    reader_running: bool,
    /// Whether the reader's report channel is held.
    sender_open: bool,
    ports_names: Vec<String>,
    errors: Vec<String>,
    /// How many values the plot holds.
    data_points: usize,
    data_counter: usize,
}

/// [`ComApp`] with texts as character sequences.
pub struct ComAppModel {
    pub port_name: Option<Seq<char>>,
    pub baud_rate: u32,
    pub data_bits: DataBits,
    pub parity: Parity,
    pub stop_bits: StopBits,
    pub buffer: Seq<char>,
    pub input: Seq<char>,
    pub connected: bool,
    pub reader_running: bool,
    pub sender_open: bool,
    pub ports: Seq<Seq<char>>,
    pub errors: Seq<Seq<char>>,
    pub data_points: usize,
    pub data_counter: usize,
}

impl View for ComApp {
    type V = ComAppModel;

    closed spec fn view(&self) -> ComAppModel {
        ComAppModel {
            port_name: opt_text(self.serial_port_name),
            baud_rate: self.baud_rate,
            data_bits: self.data_bits,
            parity: self.parity,
            stop_bits: self.stop_bits,
            buffer: self.buffer@,
            input: self.input_text@,
            connected: self.is_connected,
            reader_running: self.reader_running,
            sender_open: self.sender_open,
            ports: texts(self.ports_names@),
            errors: texts(self.errors@),
            data_points: self.data_points,
            data_counter: self.data_counter,
        }
    }
}

// ---------------------------------------------------------------------------
// Specification
// ---------------------------------------------------------------------------

/// Whether a character is an ASCII decimal digit.
pub open spec fn is_digit(c: char) -> bool {
    '0' <= c <= '9'
}

/// Value of a sequence of ASCII decimal digits.
pub open spec fn digits_value(ds: Seq<char>) -> nat
    decreases ds.len(),
{
    if ds.len() == 0 {
        0
    } else {
        digits_value(ds.drop_last()) * 10 + ((ds.last() as u32) - 48) as nat
    }
}

/// Whether every character is an ASCII decimal digit.
pub open spec fn all_digits(ds: Seq<char>) -> bool {
    forall|i: int| 0 <= i < ds.len() ==> is_digit(#[trigger] ds[i])
}

/// The text without a leading `+`.
pub open spec fn unsigned_digits(s: Seq<char>) -> Seq<char> {
    if s.len() > 0 && s[0] == '+' {
        s.subrange(1, s.len() as int)
    } else {
        s
    }
}

/// What parsing a text as an unsigned 32-bit decimal number gives: an
/// optional `+`, then at least one ASCII digit, and a value that fits.
pub open spec fn parse_u32_text(s: Seq<char>) -> Option<u32> {
    let ds = unsigned_digits(s);
    if ds.len() > 0 && all_digits(ds) && digits_value(ds) <= u32::MAX {
        Some(digits_value(ds) as u32)
    } else {
        None
    }
}

/// The state of a new terminal.
pub open spec fn initial_model() -> ComAppModel {
    ComAppModel {
        port_name: None,
        baud_rate: 9600,
        data_bits: DataBits::Eight,
        parity: Parity::NoParity,
        stop_bits: StopBits::One,
        buffer: seq![],
        input: seq![],
        connected: false,
        reader_running: false,
        sender_open: false,
        ports: seq![],
        errors: seq![],
        data_points: 0,
        data_counter: 0,
    }
}

/// The messages `update` accepts in a state: the plot's position counter
/// must not overflow, and the plot holds at most [`MAX_DATA_POINTS`] values.
pub open spec fn accepts(m: ComAppModel, msg: Message) -> bool {
    &&& m.data_points <= MAX_DATA_POINTS
    &&& msg is DataReceived ==> m.data_counter < usize::MAX
}

/// What a message does: the next state and the work to start.
pub open spec fn next(m: ComAppModel, msg: Message) -> (ComAppModel, CommandModel) {
    match msg {
        Message::Connect => match m.port_name {
            Some(p) => (
                ComAppModel { sender_open: true, connected: true, reader_running: true, ..m },
                CommandModel::StartReader { port_name: p, baud_rate: m.baud_rate },
            ),
            None => (m, CommandModel::Idle),
        },
        Message::Disconnect => (
            ComAppModel { reader_running: false, connected: false, sender_open: false, ..m },
            if m.reader_running { CommandModel::AbortReader } else { CommandModel::Idle },
        ),
        Message::PortSelected(p) => (ComAppModel { port_name: Some(p@), ..m }, CommandModel::Idle),
        Message::BaudRateSelected(b) => (ComAppModel { baud_rate: b, ..m }, CommandModel::Idle),
        Message::BaudRateTextChanged(t) => match parse_u32_text(t@) {
            Some(b) => (ComAppModel { baud_rate: b, ..m }, CommandModel::Idle),
            None => (m, CommandModel::Idle),
        },
        Message::InputTextChanged(t) => (ComAppModel { input: t@, ..m }, CommandModel::Idle),
        Message::Send => (ComAppModel { input: seq![], ..m }, CommandModel::Idle),
        Message::SerialDataReceived(d) => if valid_utf8(d@) {
            (ComAppModel { buffer: m.buffer + decode_utf8(d@), ..m }, CommandModel::Idle)
        } else {
            (m, CommandModel::Idle)
        },
        Message::ListPorts => (m, CommandModel::ListPorts),
        Message::PortListReceived(ports) => (
            ComAppModel {
                ports: texts(ports@),
                port_name: if ports@.len() > 0 { Some(ports@[0]@) } else { m.port_name },
                ..m
            },
            CommandModel::Idle,
        ),
        Message::PortListError(e) => (ComAppModel { errors: m.errors.push(e@), ..m }, CommandModel::Idle),
        Message::DataReceived => {
            let drop = m.data_points + 1 > MAX_DATA_POINTS;
            (
                ComAppModel {
                    data_points: if drop { m.data_points } else { (m.data_points + 1) as usize },
                    data_counter: (m.data_counter + 1) as usize,
                    ..m
                },
                CommandModel::PlotValue { x: m.data_counter, drop_oldest: drop },
            )
        },
        Message::ErrorOccurred(e) => (ComAppModel { errors: m.errors.push(e@), ..m }, CommandModel::Idle),
    }
}

// ---------------------------------------------------------------------------
// Executable code
// ---------------------------------------------------------------------------

proof fn lemma_digits_value_grows(ds: Seq<char>, c: char)
    requires
        is_digit(c),
    ensures
        digits_value(ds.push(c)) == digits_value(ds) * 10 + ((c as u32) - 48) as nat,
        digits_value(ds.push(c)) >= digits_value(ds),
{
    assert(ds.push(c).drop_last() == ds);
}

/// Parses a text as an unsigned 32-bit decimal number (what `str::parse`
/// accepts for `u32`): an optional `+`, then ASCII digits only, at least one,
/// and a value that fits.
pub fn parse_u32(s: &str) -> (r: Option<u32>)
    ensures
        r == parse_u32_text(s@),
{
    let n = s.unicode_len();
    let start: usize = if n > 0 && s.get_char(0) == '+' { 1 } else { 0 };
    let ghost ds = unsigned_digits(s@);
    assert(ds == s@.subrange(start as int, n as int));
    if start == n {
        return None;
    }
    let mut acc: u64 = 0;
    let mut big = false;
    let mut i: usize = start;
    while i < n
        invariant
            n == s@.len(),
            start <= i <= n,
            ds == s@.subrange(start as int, n as int),
            ds == unsigned_digits(s@),
            forall|k: int| 0 <= k < i - start ==> is_digit(#[trigger] ds[k]),
            big ==> digits_value(ds.take(i - start)) > u32::MAX,
            !big ==> acc == digits_value(ds.take(i - start)) && acc <= u32::MAX,
        decreases n - i,
    {
        let c = s.get_char(i);
        assert(ds[i - start] == c);
        if !('0' <= c && c <= '9') {
            assert(!is_digit(ds[i - start]));
            assert(!all_digits(ds));
            return None;
        }
        let ghost prefix = ds.take(i - start);
        assert(ds.take(i + 1 - start) == prefix.push(c));
        proof {
            lemma_digits_value_grows(prefix, c);
        }
        if !big {
            let d = (c as u32 - 48) as u64;
            acc = acc * 10 + d;
            if acc > 4294967295 {
                big = true;
            }
        }
        i = i + 1;
    }
    assert(ds.take(n - start) == ds);
    if big {
        None
    } else {
        Some(acc as u32)
    }
}

impl ComApp {
    /// A terminal with no port chosen, 9600 baud, eight data bits, no
    /// parity, one stop bit and empty texts; the application lists the ports
    /// next.
    pub fn new() -> (r: (ComApp, Command))
        ensures
            r.0@ == initial_model(),
            r.1@ == CommandModel::ListPorts,
    {
        let app = ComApp {
            serial_port_name: None,
            baud_rate: BAUD_DEFAULT,
            data_bits: DataBits::Eight,
            parity: Parity::NoParity,
            stop_bits: StopBits::One,
            buffer: String::new(),
            input_text: String::new(),
            is_connected: false,
            reader_running: false,
            sender_open: false,
            ports_names: Vec::new(),
            errors: Vec::new(),
            data_points: 0,
            data_counter: 0,
        };
        assert(texts(app.ports_names@) =~= Seq::<Seq<char>>::empty());
        assert(texts(app.errors@) =~= Seq::<Seq<char>>::empty());
        (app, Command::ListPorts)
    }

    /// The window title.
    pub fn title(&self) -> (r: String)
        ensures
            r@ == "Serial Terminal"@,
    {
        String::from_str("Serial Terminal")
    }

    fn push_error(&mut self, e: String)
        ensures
            final(self)@ == (ComAppModel { errors: old(self)@.errors.push(e@), ..old(self)@ }),
    {
        let ghost before = self.errors@;
        self.errors.push(e);
        assert(texts(self.errors@) =~= texts(before).push(e@));
    }

    /// Applies a message: the new state and the work to start are those of
    /// [`next`].
    pub fn update(&mut self, message: Message) -> (cmd: Command)
        requires
            accepts(old(self)@, message),
        ensures
            (final(self)@, cmd@) == next(old(self)@, message),
    {
        match message {
            Message::Connect => {
                match &self.serial_port_name {
                    Some(p) => {
                        let port_name = p.clone();
                        self.sender_open = true;
                        self.is_connected = true;
                        self.reader_running = true;
                        Command::StartReader { port_name, baud_rate: self.baud_rate }
                    },
                    None => Command::Idle,
                }
            },
            Message::Disconnect => {
                let cmd = if self.reader_running {
                    Command::AbortReader
                } else {
                    Command::Idle
                };
                self.reader_running = false;
                self.is_connected = false;
                self.sender_open = false;
                cmd
            },
            Message::PortSelected(p) => {
                self.serial_port_name = Some(p);
                Command::Idle
            },
            Message::BaudRateSelected(b) => {
                self.baud_rate = b;
                Command::Idle
            },
            Message::BaudRateTextChanged(t) => {
                match parse_u32(t.as_str()) {
                    Some(b) => self.baud_rate = b,
                    None => {},
                }
                Command::Idle
            },
            Message::InputTextChanged(t) => {
                self.input_text = t;
                Command::Idle
            },
            Message::Send => {
                self.input_text = String::new();
                Command::Idle
            },
            Message::SerialDataReceived(d) => {
                match decode_utf8_strict(d) {
                    Some(s) => self.buffer.append(s.as_str()),
                    None => {},
                }
                Command::Idle
            },
            Message::ListPorts => Command::ListPorts,
            Message::PortListReceived(ports) => {
                if ports.len() > 0 {
                    self.serial_port_name = Some(ports[0].clone());
                }
                self.ports_names = ports;
                Command::Idle
            },
            Message::PortListError(e) => {
                self.push_error(e);
                Command::Idle
            },
            Message::DataReceived => {
                let x = self.data_counter;
                self.data_counter = self.data_counter + 1;
                let drop_oldest = self.data_points + 1 > MAX_DATA_POINTS;
                if !drop_oldest {
                    self.data_points = self.data_points + 1;
                }
                Command::PlotValue { x, drop_oldest }
            },
            Message::ErrorOccurred(e) => {
                self.push_error(e);
                Command::Idle
            },
        }
    }

    /// The connect button: "Disconnect" (sending [`Message::Disconnect`])
    /// while connected, "Connect" (sending [`Message::Connect`]) otherwise.
    pub fn connect_button(&self) -> (r: (String, Message))
        ensures
            r.0@ == (if self@.connected { "Disconnect"@ } else { "Connect"@ }),
            self@.connected ==> r.1 is Disconnect,
            !self@.connected ==> r.1 is Connect,
    {
        if self.is_connected {
            (String::from_str("Disconnect"), Message::Disconnect)
        } else {
            (String::from_str("Connect"), Message::Connect)
        }
    }

    /// The port stream to run: while connected, the chosen port (empty name
    /// if none) at the chosen speed.
    pub fn stream_config(&self) -> (r: Option<(String, u32)>)
        ensures
            match r {
                Some((p, b)) => self@.connected && p@ == (match self@.port_name {
                    Some(n) => n,
                    None => Seq::<char>::empty(),
                }) && b == self@.baud_rate,
                None => !self@.connected,
            },
    {
        if self.is_connected {
            let p = match &self.serial_port_name {
                Some(n) => n.clone(),
                None => String::new(),
            };
            Some((p, self.baud_rate))
        } else {
            None
        }
    }

    /// The chosen port, if any.
    pub fn serial_port_name(&self) -> (r: &Option<String>)
        ensures
            opt_text(*r) == self@.port_name,
    {
        &self.serial_port_name
    }

    /// The chosen speed.
    pub fn baud_rate(&self) -> (r: u32)
        ensures
            r == self@.baud_rate,
    {
        self.baud_rate
    }

    /// Data bits, parity and stop bits.
    pub fn framing(&self) -> (r: (DataBits, Parity, StopBits))
        ensures
            r == (self@.data_bits, self@.parity, self@.stop_bits),
    {
        (self.data_bits, self.parity, self.stop_bits)
    }

    /// The received text.
    pub fn buffer(&self) -> (r: &String)
        ensures
            r@ == self@.buffer,
    {
        &self.buffer
    }

    /// The input line.
    pub fn input_text(&self) -> (r: &String)
        ensures
            r@ == self@.input,
    {
        &self.input_text
    }

    /// Whether the terminal is connected.
    pub fn is_connected(&self) -> (r: bool)
        ensures
            r == self@.connected,
    {
        self.is_connected
    }

    /// The ports last listed.
    pub fn ports_names(&self) -> (r: &Vec<String>)
        ensures
            texts(r@) == self@.ports,
    {
        &self.ports_names
    }

    /// The errors reported so far.
    pub fn errors(&self) -> (r: &Vec<String>)
        ensures
            texts(r@) == self@.errors,
    {
        &self.errors
    }

    /// How many values the plot holds, and the position of the next one.
    pub fn plot_counts(&self) -> (r: (usize, usize))
        ensures
            r == (self@.data_points, self@.data_counter),
    {
        (self.data_points, self.data_counter)
    }
}

// ---------------------------------------------------------------------------
// The background reader
// ---------------------------------------------------------------------------

/// The decisions of the background reader: it opens the port (100 ms
/// timeout), then reads until a read fails, reporting text on its channel.
pub struct ReaderWorker;

/// What the reader does after one read: report this text, if any, and go on
/// or stop.
pub struct ReaderStep {
    pub report: Option<String>,
    pub go_on: bool,
}

impl ReaderWorker {
    /// The report when the port cannot be opened (the reader then stops).
    pub fn open_failed(error: &str) -> (r: String)
        ensures
            r@ == "Error opening serial port: "@ + error@,
    {
        concat2("Error opening serial port: ", error)
    }

    /// Received bytes that are valid UTF-8 are reported as text, other bytes,
    /// no bytes and a timeout report nothing; a failed read is reported and
    /// stops the reader.
    pub fn read(read: PortRead) -> (r: ReaderStep)
        ensures
            match read {
                PortRead::Bytes(b) => r.go_on && (if b@.len() > 0 && valid_utf8(b@) {
                    r.report matches Some(t) && t@ == decode_utf8(b@)
                } else {
                    r.report is None
                }),
                PortRead::TimedOut => r.go_on && r.report is None,
                PortRead::Failed(e) => !r.go_on && (r.report matches Some(t) && t@
                    == "Error reading from serial port: "@ + e@),
            },
    {
        match read {
            PortRead::Bytes(b) => {
                if b.len() > 0 {
                    ReaderStep { report: decode_utf8_strict(b), go_on: true }
                } else {
                    ReaderStep { report: None, go_on: true }
                }
            },
            PortRead::TimedOut => ReaderStep { report: None, go_on: true },
            PortRead::Failed(e) => ReaderStep {
                report: Some(concat2("Error reading from serial port: ", e.as_str())),
                go_on: false,
            },
        }
    }
}

// ---------------------------------------------------------------------------
// The port stream
// ---------------------------------------------------------------------------

/// The state the port stream carries from one item to the next.
#[derive(Clone, Debug)]
pub struct StreamState {
    pub port_name: Option<String>,
    pub baud_rate: Option<u32>,
}

/// What the stream does after one read of the port it opened.
pub enum StreamStep {
    /// Yield this message and carry this state on.
    Emit(Message, StreamState),
    /// Nothing arrived: wait 10 ms and read again.
    Retry,
}

impl StreamState {
    /// The state the stream starts from.
    pub fn start(port_name: String, baud_rate: u32) -> (r: StreamState)
        ensures
            opt_text(r.port_name) == Some(port_name@),
            r.baud_rate == Some(baud_rate),
    {
        StreamState { port_name: Some(port_name), baud_rate: Some(baud_rate) }
    }

    /// The port to open for the next item (eight data bits, no parity, one
    /// stop bit, 100 ms timeout), or `None` when the stream has ended.
    pub fn port_to_open(&self) -> (r: Option<(String, u32)>)
        ensures
            match r {
                Some((p, b)) => opt_text(self.port_name) == Some(p@) && self.baud_rate == Some(b),
                None => self.port_name is None || self.baud_rate is None,
            },
    {
        match (&self.port_name, self.baud_rate) {
            (Some(p), Some(b)) => Some((p.clone(), b)),
            _ => None,
        }
    }

    /// When the port cannot be opened: an error message, and a state that
    /// ends the stream.
    pub fn open_failed() -> (r: (Message, StreamState))
        ensures
            r.0 matches Message::ErrorOccurred(t) && t@ == "Could not open serial port"@,
            r.1.port_name is None && r.1.baud_rate is None,
    {
        (
            Message::ErrorOccurred(String::from_str("Could not open serial port")),
            StreamState { port_name: None, baud_rate: None },
        )
    }

    /// After a read (`Err` holds the error's text): bytes are yielded and
    /// the state is kept, no bytes mean a retry, an error is yielded and ends
    /// the stream.
    pub fn after_read(&self, read: Result<Vec<u8>, String>) -> (r: StreamStep)
        ensures
            match read {
                Ok(b) => if b@.len() > 0 {
                    r matches StreamStep::Emit(Message::SerialDataReceived(d), s)
                        && d@ == b@ && opt_text(s.port_name) == opt_text(self.port_name)
                        && s.baud_rate == self.baud_rate
                } else {
                    r is Retry
                },
                Err(e) => r matches StreamStep::Emit(Message::ErrorOccurred(t), s) && t@ == e@
                    && s.port_name is None && s.baud_rate is None,
            },
    {
        match read {
            Ok(b) => {
                if b.len() > 0 {
                    let keep = StreamState {
                        port_name: match &self.port_name {
                            Some(p) => Some(p.clone()),
                            None => None,
                        },
                        baud_rate: self.baud_rate,
                    };
                    StreamStep::Emit(Message::SerialDataReceived(b), keep)
                } else {
                    StreamStep::Retry
                }
            },
            Err(e) => StreamStep::Emit(
                Message::ErrorOccurred(e),
                StreamState { port_name: None, baud_rate: None },
            ),
        }
    }
}

} // verus!

verus! {

// ---------------------------------------------------------------------------
// Laws
// ---------------------------------------------------------------------------

/// A running reader belongs to a connected terminal, and the plot never
/// holds more than [`MAX_DATA_POINTS`] values.
pub open spec fn consistent(m: ComAppModel) -> bool {
    &&& m.reader_running ==> m.connected
    &&& m.data_points <= MAX_DATA_POINTS
}

/// A new terminal is consistent, and every accepted message keeps it so.
pub proof fn law_consistency_kept(m: ComAppModel, msg: Message)
    requires
        consistent(m),
        accepts(m, msg),
    ensures
        consistent(initial_model()),
        consistent(next(m, msg).0),
{
}

/// Each plotted value goes one position further right than the one before,
/// and the oldest value is dropped exactly when the plot is full.
pub proof fn law_plot_window(m: ComAppModel)
    requires
        consistent(m),
        m.data_counter < usize::MAX,
    ensures
        next(m, Message::DataReceived).1 == (CommandModel::PlotValue {
            x: m.data_counter,
            drop_oldest: m.data_points == MAX_DATA_POINTS,
        }),
        next(m, Message::DataReceived).0.data_counter == m.data_counter + 1,
        next(m, Message::DataReceived).0.data_points == (if m.data_points == MAX_DATA_POINTS {
            MAX_DATA_POINTS
        } else {
            (m.data_points + 1) as usize
        }),
{
}

proof fn lemma_digit_char(d: nat)
    requires
        d < 10,
    ensures
        (digit_char(d) as u32) == d + 48,
        is_digit(digit_char(d)),
{
}

proof fn lemma_decimal_digits(n: nat)
    ensures
        decimal(n).len() > 0,
        all_digits(decimal(n)),
        decimal(n)[0] != '+',
        digits_value(decimal(n)) == n,
    decreases n,
{
    if n < 10 {
        lemma_digit_char(n);
        let d = decimal(n);
        assert(d.drop_last() == Seq::<char>::empty());
        assert(d.last() == digit_char(n));
        assert(digits_value(d.drop_last()) == 0);
        assert(digits_value(d) == digits_value(d.drop_last()) * 10 + ((d.last() as u32) - 48) as nat);
    } else {
        lemma_decimal_digits(n / 10);
        lemma_digit_char(n % 10);
        let p = decimal(n / 10);
        let d = decimal(n);
        assert(d == p.push(digit_char(n % 10)));
        assert(d.drop_last() == p);
        assert(d.last() == digit_char(n % 10));
        assert(digits_value(d) == digits_value(p) * 10 + ((d.last() as u32) - 48) as nat);
        assert(digits_value(d) == (n / 10) * 10 + n % 10);
        assert(d[0] == p[0]);
        assert forall|i: int| 0 <= i < d.len() implies is_digit(#[trigger] d[i]) by {
            if i < p.len() {
                assert(d[i] == p[i]);
            }
        }
    }
}

/// Typing a speed in decimal sets exactly that speed: the decimal rendering
/// of a number parses back to it.
pub proof fn law_typed_speed_reads_back(b: u32)
    ensures
        parse_u32_text(decimal(b as nat)) == Some(b),
{
    lemma_decimal_digits(b as nat);
}

/// Connecting starts a reader on the chosen port at the chosen speed and
/// marks the terminal connected, and does nothing with no port chosen;
/// disconnecting stops a running reader and clears the connection; choosing
/// a port or a speed sets just that.
pub proof fn law_connect_reads_chosen_port(m: ComAppModel, p: String, b: u32)
    ensures
        m.port_name matches Some(n) ==> next(m, Message::Connect) == (
            ComAppModel { sender_open: true, connected: true, reader_running: true, ..m },
            CommandModel::StartReader { port_name: n, baud_rate: m.baud_rate },
        ),
        m.port_name is None ==> next(m, Message::Connect) == (m, CommandModel::Idle),
        !next(m, Message::Disconnect).0.connected && !next(m, Message::Disconnect).0.reader_running,
        m.reader_running ==> next(m, Message::Disconnect).1 == CommandModel::AbortReader,
        next(m, Message::PortSelected(p)).0 == (ComAppModel { port_name: Some(p@), ..m }),
        next(m, Message::BaudRateSelected(b)).0 == (ComAppModel { baud_rate: b, ..m }),
{
}

/// A port list replaces the listed ports and chooses its first port; an
/// empty list keeps the choice; a listing error is kept in the error list.
pub proof fn law_port_list_replaces_ports(m: ComAppModel, ports: Vec<String>, e: String)
    ensures
        next(m, Message::PortListReceived(ports)).0.ports == texts(ports@),
        ports@.len() > 0 ==> next(m, Message::PortListReceived(ports)).0.port_name == Some(ports@[0]@),
        ports@.len() == 0 ==> next(m, Message::PortListReceived(ports)).0.port_name == m.port_name,
        next(m, Message::PortListError(e)).0.errors == m.errors.push(e@),
{
}

} // verus!
