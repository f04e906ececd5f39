use com_terminal::app::{App, Message};
use com_terminal::cli_com::{
    parse_args, sent_message, start_command, stop_command, usage, BAUD_RATE, CHUNK_SIZE,
};

#[test]
fn sender_reads_port_and_file_from_arguments() {
    let args = vec!["send_wav".to_string(), "COM5".to_string(), "aaa.wav".to_string()];
    assert_eq!(parse_args(&args), Some(("COM5".to_string(), "aaa.wav".to_string())));
    assert_eq!(parse_args(&args[..2].to_vec()), None);
    assert_eq!(usage(), "Usage: send_wav <COM port> <file.wav>");
}

#[test]
fn sender_commands_frame_the_file() {
    assert_eq!(start_command("aaa.wav"), "start aaa.wav\n");
    assert_eq!(stop_command(), "stop\n");
    assert_eq!(sent_message("aaa.wav"), "File aaa.wav sent successfully!");
    assert_eq!(BAUD_RATE, 115200);
    assert_eq!(CHUNK_SIZE, 512);
}

#[test]
fn scaffold_app_starts_empty_and_ignores_messages() {
    let mut app = App::new();
    assert_eq!(app.terminal, "");
    assert_eq!(app.input, "");
    assert!(!app.port_open);
    assert!(app.selected_port.is_none());
    app.update(Message::NoOp);
    assert_eq!(app.terminal, "");
}

#[test]
fn decimal_rendering_of_counters() {
    let mut s = String::from("n=");
    com_terminal::text::push_decimal(&mut s, 0);
    assert_eq!(s, "n=0");
    let mut s = String::new();
    com_terminal::text::push_decimal(&mut s, u64::MAX);
    assert_eq!(s, "18446744073709551615");
    assert_eq!(com_terminal::text::text_and_number("x", 1050), "x1050");
}
