//! The command-line sender: it streams a file to a serial port between a
//! `start` and a `stop` command.
use vstd::prelude::*;
use vstd::string::*;
use crate::text::concat3;

verus! {

/// Speed the port is opened at.
pub const BAUD_RATE: u32 = 115200;

/// Largest piece of the file written at once.
pub const CHUNK_SIZE: usize = 512;

/// Pause between pieces, in milliseconds.
pub const CHUNK_PAUSE_MS: u64 = 10;

/// The port name and the file name from the command line (program name
/// first), or `None` when either is missing.
pub fn parse_args(args: &Vec<String>) -> (r: Option<(String, String)>)
    ensures
        match r {
            Some((port, file)) => args@.len() >= 3 && port@ == args@[1]@ && file@ == args@[2]@,
            None => args@.len() < 3,
        },
{
    if args.len() < 3 {
        None
    } else {
        Some((args[1].clone(), args[2].clone()))
    }
}

/// The line printed when arguments are missing.
pub fn usage() -> (r: String)
    ensures
        r@ == "Usage: send_wav <COM port> <file.wav>"@,
{
    String::from_str("Usage: send_wav <COM port> <file.wav>")
}

/// The command sent before the file: `start`, the file name and a line feed.
pub fn start_command(filename: &str) -> (r: String)
    ensures
        r@ == "start "@ + filename@ + "\n"@,
{
    concat3("start ", filename, "\n")
}

/// The command sent after the file.
pub fn stop_command() -> (r: String)
    ensures
        r@ == "stop\n"@,
{
    String::from_str("stop\n")
}

/// The line printed when the whole file was sent.
pub fn sent_message(filename: &str) -> (r: String)
    ensures
        r@ == "File "@ + filename@ + " sent successfully!"@,
{
    concat3("File ", filename, " sent successfully!")
}

} // verus!
