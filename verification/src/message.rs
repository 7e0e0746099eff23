//! The text of log lines and of the diagnostics the logger reports.

use vstd::prelude::*;
use vstd::string::StringExecFns;

verus! {

/// The separator between a timestamp and the message text.
pub open spec fn separator() -> Seq<char> {
    seq![':', ' ']
}

/// A log line: the timestamp, a colon and a space, then the message as given.
pub open spec fn line_text(stamp: Seq<char>, msg: Seq<char>) -> Seq<char> {
    stamp + separator() + msg
}

/// Builds the line for `msg` stamped with `stamp`. The message is not escaped.
pub fn format_line(stamp: &str, msg: &str) -> (line: String)
    ensures
        line@ == line_text(stamp@, msg@),
{
    let mut line = String::from_str(stamp);
    line.append(": ");
    line.append(msg);
    proof {
        reveal_strlit(": ");
        assert(": "@ =~= separator());
    }
    line
}

/// What a file line holds for one message: the line and a newline.
pub open spec fn record_text(line: Seq<char>) -> Seq<char> {
    line + seq!['\n']
}

/// The text the writer appends to the file for `line`.
pub fn format_record(line: &str) -> (record: String)
    ensures
        record@ == record_text(line@),
{
    let mut record = String::from_str(line);
    record.append("\n");
    proof {
        reveal_strlit("\n");
        assert("\n"@ =~= seq!['\n']);
    }
    record
}

/// The diagnostic for a buffer size of zero.
pub open spec fn invalid_size_text() -> Seq<char> {
    "Buffer size needs to be bigger than 0"@
}

/// The diagnostic for a log file that could not be opened: it names the path
/// and carries the system's own words.
pub open spec fn open_error_text(filename: Seq<char>, cause: Seq<char>) -> Seq<char> {
    "Error opening log file '"@ + filename + "': "@ + cause
}

/// The diagnostic for a line that could not be written.
pub open spec fn write_error_text(filename: Seq<char>, cause: Seq<char>) -> Seq<char> {
    "Error writing to log file '"@ + filename + "': "@ + cause
}

/// The diagnostic for a handle that no longer has a way to the writer.
pub open spec fn detached_text(filename: Seq<char>) -> Seq<char> {
    "Error talking to logging thread for log file '"@ + filename + "'"@
}

/// The diagnostic for a writer that no longer takes messages.
pub open spec fn disconnected_text(filename: Seq<char>) -> Seq<char> {
    detached_text(filename) + ": "@ + "sending on a closed channel"@
}

/// The diagnostic for a buffer size of zero.
pub fn invalid_size_message() -> (text: String)
    ensures
        text@ == invalid_size_text(),
{
    String::from_str("Buffer size needs to be bigger than 0")
}

/// The diagnostic for the log file at `filename` that could not be opened
/// for the reason `cause`.
pub fn open_error_message(filename: &str, cause: &str) -> (text: String)
    ensures
        text@ == open_error_text(filename@, cause@),
{
    let mut text = String::from_str("Error opening log file '");
    text.append(filename);
    text.append("': ");
    text.append(cause);
    text
}

/// The diagnostic for a line that could not be appended to the log file at
/// `filename` for the reason `cause`.
pub fn write_error_message(filename: &str, cause: &str) -> (text: String)
    ensures
        text@ == write_error_text(filename@, cause@),
{
    let mut text = String::from_str("Error writing to log file '");
    text.append(filename);
    text.append("': ");
    text.append(cause);
    text
}

/// The diagnostic for a handle that has let go of its sending side.
pub fn detached_message(filename: &str) -> (text: String)
    ensures
        text@ == detached_text(filename@),
{
    let mut text = String::from_str("Error talking to logging thread for log file '");
    text.append(filename);
    text.append("'");
    text
}

/// The diagnostic for a writer that takes no more messages.
pub fn disconnected_message(filename: &str) -> (text: String)
    ensures
        text@ == disconnected_text(filename@),
{
    let mut text = detached_message(filename);
    text.append(": ");
    text.append("sending on a closed channel");
    assert(text@ =~= disconnected_text(filename@));
    text
}

} // verus!
