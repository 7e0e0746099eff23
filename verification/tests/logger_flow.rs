use logfast::logger::{LogFast, LogOutcome, WorkerAction, WorkerState};

fn record(action: WorkerAction) -> String {
    match action {
        WorkerAction::Write(r) => r,
        WorkerAction::Wait => panic!("told to wait"),
        WorkerAction::Finish => panic!("told to finish"),
        WorkerAction::Halted => panic!("halted"),
    }
}

fn is_digits(s: &str) -> bool {
    !s.is_empty() && s.chars().all(|c| c.is_ascii_digit())
}

/// True for `YYYY-MM-DD HH:MM:SS`, with an optional fraction of 3, 6 or 9 digits.
fn is_local_stamp(s: &str) -> bool {
    let (whole, fraction) = match s.split_once('.') {
        Some((w, f)) => (w, Some(f)),
        None => (s, None),
    };
    let parts: Vec<&str> = whole.split(' ').collect();
    if parts.len() != 2 {
        return false;
    }
    let date: Vec<&str> = parts[0].split('-').collect();
    let time: Vec<&str> = parts[1].split(':').collect();
    let date_ok = date.len() == 3
        && date[0].len() == 4
        && date[1].len() == 2
        && date[2].len() == 2
        && date.iter().all(|p| is_digits(p));
    let time_ok = time.len() == 3 && time.iter().all(|p| p.len() == 2 && is_digits(p));
    let fraction_ok = match fraction {
        None => true,
        Some(f) => (f.len() == 3 || f.len() == 6 || f.len() == 9) && is_digits(f),
    };
    date_ok && time_ok && fraction_ok
}

fn stamp_and_message(record: &str) -> (String, String) {
    let line = record.strip_suffix('\n').expect("a record ends with a newline");
    let at = line.find(": ").expect("a line holds the separator");
    (line[..at].to_string(), line[at + 2..].to_string())
}

#[test]
fn new_rejects_zero_buffer_size() {
    match LogFast::new("my.log", 0) {
        Err(text) => assert_eq!(text, "Buffer size needs to be bigger than 0"),
        Ok(_) => panic!("a buffer size of zero was accepted"),
    }
}

#[test]
fn new_logger_is_open_empty_and_running() {
    let lf = LogFast::new("my.log", 100).unwrap();
    assert_eq!(lf.filename, "my.log");
    assert_eq!(lf.capacity(), 100);
    assert_eq!(lf.pending(), 0);
    assert!(lf.is_open());
    assert!(!lf.is_full());
    assert!(!lf.released());
    assert_eq!(lf.worker(), WorkerState::Running);
}

#[test]
fn three_messages_through_a_buffer_of_two() {
    let mut lf = LogFast::new("test.log", 2).unwrap();
    assert!(matches!(lf.log("a"), LogOutcome::Accepted));
    assert!(matches!(lf.log("b"), LogOutcome::Accepted));
    let held = match lf.log("c") {
        LogOutcome::Blocked(line) => line,
        _ => panic!("the third message did not wait for room"),
    };
    assert_eq!(lf.pending(), 2);

    let first = record(lf.poll());
    assert!(matches!(lf.offer(held), LogOutcome::Accepted));
    lf.close();
    assert!(!lf.released());
    let second = record(lf.poll());
    let third = record(lf.poll());
    assert!(!lf.released());
    assert!(matches!(lf.poll(), WorkerAction::Finish));
    assert!(lf.released());

    let records = [first, second, third];
    let expected = ["a", "b", "c"];
    for i in 0..3 {
        let (stamp, message) = stamp_and_message(&records[i]);
        assert!(is_local_stamp(&stamp), "not a timestamp: {}", stamp);
        assert_eq!(message, expected[i]);
    }
}

#[test]
fn log_stamps_with_the_current_year() {
    let mut lf = LogFast::new("my.log", 1).unwrap();
    assert!(matches!(lf.log("x"), LogOutcome::Accepted));
    let (stamp, _) = stamp_and_message(&record(lf.poll()));
    let year: i32 = stamp[..4].parse().unwrap();
    assert!(year >= 2024);
}

#[test]
fn offered_line_is_written_as_it_is() {
    let mut lf = LogFast::new("my.log", 4).unwrap();
    assert!(matches!(
        lf.offer("2024-01-15 09:30:00.123456: hello".to_string()),
        LogOutcome::Accepted
    ));
    assert_eq!(record(lf.poll()), "2024-01-15 09:30:00.123456: hello\n");
}

#[test]
fn writer_waits_on_an_empty_open_channel() {
    let mut lf = LogFast::new("my.log", 4).unwrap();
    assert!(matches!(lf.poll(), WorkerAction::Wait));
    assert_eq!(lf.worker(), WorkerState::Running);
}

#[test]
fn lines_come_out_in_the_order_they_went_in() {
    let mut lf = LogFast::new("my.log", 8).unwrap();
    for i in 0..8 {
        assert!(matches!(lf.offer(format!("t: m{}", i)), LogOutcome::Accepted));
    }
    for i in 0..8 {
        assert_eq!(record(lf.poll()), format!("t: m{}\n", i));
    }
    assert!(matches!(lf.poll(), WorkerAction::Wait));
}

#[test]
fn every_accepted_line_is_written_before_release() {
    let mut lf = LogFast::new("my.log", 3).unwrap();
    let mut written: Vec<String> = Vec::new();
    let mut accepted = 0;
    for i in 0..10 {
        let mut line = format!("t: m{}", i);
        loop {
            match lf.offer(line) {
                LogOutcome::Accepted => break,
                LogOutcome::Blocked(back) => {
                    written.push(record(lf.poll()));
                    line = back;
                }
                LogOutcome::Fatal(text) => panic!("{}", text),
            }
        }
        accepted += 1;
    }
    lf.close();
    loop {
        match lf.poll() {
            WorkerAction::Write(r) => {
                assert!(!lf.released());
                written.push(r);
            }
            WorkerAction::Finish => break,
            _ => panic!("the writer neither wrote nor finished"),
        }
    }
    assert!(lf.released());
    assert_eq!(written.len(), accepted);
    for i in 0..10 {
        assert_eq!(written[i], format!("t: m{}\n", i));
    }
}

#[test]
fn full_buffer_blocks_until_the_writer_takes_one() {
    let capacity = 5;
    let mut lf = LogFast::new("my.log", capacity).unwrap();
    for i in 0..capacity {
        assert!(matches!(lf.offer(format!("t: m{}", i)), LogOutcome::Accepted));
    }
    assert!(lf.is_full());
    let back = match lf.offer("t: extra".to_string()) {
        LogOutcome::Blocked(line) => line,
        _ => panic!("a full buffer did not block"),
    };
    assert_eq!(back, "t: extra");
    assert_eq!(lf.pending(), capacity);
    let again = match lf.offer(back) {
        LogOutcome::Blocked(line) => line,
        _ => panic!("a full buffer did not block"),
    };
    assert_eq!(record(lf.poll()), "t: m0\n");
    assert!(matches!(lf.offer(again), LogOutcome::Accepted));
    assert_eq!(lf.pending(), capacity);
}

#[test]
fn log_after_close_is_fatal() {
    let mut lf = LogFast::new("my.log", 2).unwrap();
    lf.close();
    assert!(!lf.is_open());
    match lf.log("late") {
        LogOutcome::Fatal(text) => {
            assert_eq!(text, "Error talking to logging thread for log file 'my.log'")
        }
        _ => panic!("a closed handle took a message"),
    }
    assert_eq!(lf.pending(), 0);
    assert!(matches!(lf.poll(), WorkerAction::Finish));
    assert!(lf.released());
}

#[test]
fn close_without_messages_releases_after_one_poll() {
    let mut lf = LogFast::new("my.log", 2).unwrap();
    lf.close();
    assert!(!lf.released());
    assert!(matches!(lf.poll(), WorkerAction::Finish));
    assert_eq!(lf.worker(), WorkerState::Exited);
    assert!(lf.released());
    assert!(matches!(lf.poll(), WorkerAction::Finish));
    assert!(lf.released());
}

#[test]
fn write_failure_stops_the_writer() {
    let mut lf = LogFast::new("my.log", 2).unwrap();
    assert!(matches!(lf.offer("t: a".to_string()), LogOutcome::Accepted));
    assert!(matches!(lf.offer("t: b".to_string()), LogOutcome::Accepted));
    assert_eq!(record(lf.poll()), "t: a\n");
    let text = lf.write_failed("No space left on device (os error 28)");
    assert_eq!(
        text,
        "Error writing to log file 'my.log': No space left on device (os error 28)"
    );
    assert_eq!(lf.worker(), WorkerState::Failed);
    assert!(matches!(lf.poll(), WorkerAction::Halted));
    assert_eq!(lf.pending(), 1);
    match lf.log("c") {
        LogOutcome::Fatal(text) => assert_eq!(
            text,
            "Error talking to logging thread for log file 'my.log': sending on a closed channel"
        ),
        _ => panic!("a failed writer took a message"),
    }
    lf.close();
    assert!(!lf.released());
}

#[test]
fn write_failure_after_exit_changes_nothing() {
    let mut lf = LogFast::new("my.log", 2).unwrap();
    lf.close();
    assert!(matches!(lf.poll(), WorkerAction::Finish));
    let text = lf.write_failed("late");
    assert_eq!(text, "Error writing to log file 'my.log': late");
    assert_eq!(lf.worker(), WorkerState::Exited);
    assert!(lf.released());
}

#[test]
fn diagnostics_follow_the_filename_field() {
    let mut lf = LogFast::new("first.log", 1).unwrap();
    lf.filename = "second.log".to_string();
    lf.close();
    match lf.log("x") {
        LogOutcome::Fatal(text) => {
            assert_eq!(text, "Error talking to logging thread for log file 'second.log'")
        }
        _ => panic!("a closed handle took a message"),
    }
}
