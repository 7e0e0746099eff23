use logfast::message::{
    detached_message, disconnected_message, format_line, format_record, invalid_size_message,
    open_error_message, write_error_message,
};

#[test]
fn line_is_stamp_colon_space_message() {
    assert_eq!(
        format_line("2024-01-15 09:30:00.123456", "hello"),
        "2024-01-15 09:30:00.123456: hello"
    );
}

#[test]
fn line_of_empty_message_ends_with_separator() {
    assert_eq!(format_line("2024-01-15 09:30:00", ""), "2024-01-15 09:30:00: ");
}

#[test]
fn line_keeps_embedded_newline() {
    assert_eq!(format_line("t", "one\ntwo"), "t: one\ntwo");
    assert_eq!(format_record("t: one\ntwo"), "t: one\ntwo\n");
}

#[test]
fn line_keeps_non_ascii_text() {
    assert_eq!(format_line("t", "héllo ✓"), "t: héllo ✓");
}

#[test]
fn record_is_line_and_newline() {
    assert_eq!(format_record("2024-01-15 09:30:00: a"), "2024-01-15 09:30:00: a\n");
    assert_eq!(format_record(""), "\n");
}

#[test]
fn invalid_size_message_text() {
    assert_eq!(invalid_size_message(), "Buffer size needs to be bigger than 0");
}

#[test]
fn open_error_names_path_and_cause() {
    assert_eq!(
        open_error_message("/no/such/dir/my.log", "No such file or directory (os error 2)"),
        "Error opening log file '/no/such/dir/my.log': No such file or directory (os error 2)"
    );
}

#[test]
fn write_error_names_path_and_cause() {
    assert_eq!(
        write_error_message("my.log", "No space left on device (os error 28)"),
        "Error writing to log file 'my.log': No space left on device (os error 28)"
    );
}

#[test]
fn detached_message_names_path() {
    assert_eq!(
        detached_message("my.log"),
        "Error talking to logging thread for log file 'my.log'"
    );
}

#[test]
fn disconnected_message_names_path_and_cause() {
    assert_eq!(
        disconnected_message("my.log"),
        "Error talking to logging thread for log file 'my.log': sending on a closed channel"
    );
}
