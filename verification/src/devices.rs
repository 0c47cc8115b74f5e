use vstd::prelude::*;

use std::io::Read;
use std::io::Write;

verus! {

/// Relies on termios::Termios::from_fd and termios::tcsetattr, which save
/// and restore the terminal attributes of standard input around the read
/// (explicitly, so a failed restore is an error, never a panic), and on
/// timeout_readwrite::TimeoutReader: waits up to the fixed timeout for one
/// byte from standard input. A quiet timeout is no byte and no error. Which
/// byte arrives, or whether one arrives at all, depends on the outside
/// world, so nothing is promised of the outcome.
#[verifier::external_body]
pub(crate) fn poll_keyboard_byte() -> (r: Result<Option<u8>, String>) {
    let saved = termios::Termios::from_fd(0).map_err(|error| format!("{:?}", error))?;
    let mut input_buffer: [u8; 1] = [0; 1];
    let timeout = std::time::Duration::from_millis(50000);
    let mut reader = timeout_readwrite::TimeoutReader::new(std::io::stdin(), timeout);
    let outcome = reader.read_exact(&mut input_buffer);
    let restore = termios::tcsetattr(0, termios::os::target::TCSANOW, &saved);
    restore.map_err(|error| format!("{:?}", error))?;
    match outcome {
        Ok(()) => Ok(Some(input_buffer[0])),
        Err(error) => if error.kind() == std::io::ErrorKind::TimedOut {
            Ok(None)
        } else {
            Err(format!("{:?}", error))
        },
    }
}

/// Relies on std::io::Stdin::read: blocks for one byte from standard input.
/// When the stream is at its end the buffer keeps its zero byte, so a zero
/// is handed back, as a real keyboard never is.
#[verifier::external_body]
pub(crate) fn read_input_byte() -> (r: Result<u8, String>) {
    let mut buffer: [u8; 1] = [0; 1];
    std::io::stdin().read(&mut buffer).map_err(|error| format!("{:?}", error))?;
    Ok(buffer[0])
}

/// Relies on console::Term::stdout and its std::io::Write implementation:
/// write_all sends exactly the given bytes to the unbuffered terminal on
/// standard output.
#[verifier::external_body]
pub(crate) fn write_output_bytes(bytes: &Vec<u8>) -> (r: Result<(), String>) {
    let mut term = console::Term::stdout();
    term.write_all(bytes.as_slice()).map_err(|error| format!("{:?}", error))
}

/// Relies on console::Term::flush: forces any buffered terminal output out.
#[verifier::external_body]
pub(crate) fn flush_output() -> (r: Result<(), String>) {
    console::Term::stdout().flush().map_err(|error| format!("{:?}", error))
}

/// Relies on std::io::Stdout and writeln: prints the given text and a
/// newline on standard output.
#[verifier::external_body]
pub(crate) fn write_output_line(line: &str) -> (r: Result<(), String>) {
    writeln!(std::io::stdout(), "{}", line).map_err(|error| format!("{:?}", error))
}

} // verus!
