use bootlog::boot::{boot_entry_application, boot_entry_diagnostic, boot_entry_test, Status};
use bootlog::console::{Console, WriteError};
use bootlog::harness::{run_tests, RecordingRegistry};
use bootlog::level::{color_for, Color, Level};
use bootlog::logger::Registration;
use bootlog::render::{label_for, render_record, u64_to_dec};
use bootlog::sim::{BufferConsole, EventRec, RecordingTimer};

fn installed_logger() -> bootlog::logger::Logger {
    let mut slot = Registration::new();
    slot.install()
}

#[test]
fn color_assignment_matches_table() {
    assert_eq!(color_for(Level::Error), Color::Red);
    assert_eq!(color_for(Level::Warn), Color::Yellow);
    assert_eq!(color_for(Level::Info), Color::Green);
    assert_eq!(color_for(Level::Debug), Color::Blue);
    assert_eq!(color_for(Level::Trace), Color::Magenta);
}

#[test]
fn color_assignment_shares_no_color() {
    let levels = [Level::Error, Level::Warn, Level::Info, Level::Debug, Level::Trace];
    for a in levels {
        for b in levels {
            if a != b {
                assert_ne!(color_for(a), color_for(b));
            }
        }
    }
}

#[test]
fn labels_match_severities() {
    assert_eq!(label_for(Level::Error), "ERROR");
    assert_eq!(label_for(Level::Warn), "WARN");
    assert_eq!(label_for(Level::Info), "INFO");
    assert_eq!(label_for(Level::Debug), "DEBUG");
    assert_eq!(label_for(Level::Trace), "TRACE");
}

#[test]
fn rendering_frames_the_message() {
    assert_eq!(render_record(Level::Debug, "x"), "[DEBUG] x\n");
    assert_eq!(render_record(Level::Error, ""), "[ERROR] \n");
}

#[test]
fn decimal_rendering_exact_values() {
    assert_eq!(u64_to_dec(0), "0");
    assert_eq!(u64_to_dec(9), "9");
    assert_eq!(u64_to_dec(10), "10");
    assert_eq!(u64_to_dec(12345), "12345");
    assert_eq!(u64_to_dec(10_000_000), "10000000");
    assert_eq!(u64_to_dec(u64::MAX), "18446744073709551615");
}

#[test]
fn log_info_writes_one_framed_record() {
    let logger = installed_logger();
    let mut con = BufferConsole::new();
    logger.log(&mut con, Level::Info, "hello, world!");
    let expected = vec![
        EventRec::SetColor(Color::Green),
        EventRec::Text(String::from("[INFO] hello, world!\n")),
        EventRec::SetColor(Color::LightGray),
    ];
    assert_eq!(*con.actions(), expected);
    assert_eq!(con.current_color(), Color::LightGray);
    assert!(con.reports().is_empty());
}

#[test]
fn log_restores_color_for_every_level() {
    let logger = installed_logger();
    let levels = [Level::Error, Level::Warn, Level::Info, Level::Debug, Level::Trace];
    for level in levels {
        let mut con = BufferConsole::new();
        logger.log(&mut con, level, "msg");
        assert_eq!(con.current_color(), Color::LightGray);
        assert_eq!(con.actions()[0], EventRec::SetColor(color_for(level)));
        assert_eq!(con.actions()[2], EventRec::SetColor(Color::LightGray));
    }
}

#[test]
fn log_swallows_a_refused_write() {
    let logger = installed_logger();
    let mut con = BufferConsole::refusing(WriteError::DeviceError);
    logger.log(&mut con, Level::Info, "hello, world!");
    let expected = vec![
        EventRec::SetColor(Color::Green),
        EventRec::SetColor(Color::LightGray),
    ];
    assert_eq!(*con.actions(), expected);
    assert_eq!(con.current_color(), Color::LightGray);
    assert_eq!(*con.reports(), vec![String::from("log: console write failed")]);
}

#[test]
fn write_errors_carry_their_cause() {
    let mut refused = BufferConsole::refusing(WriteError::DeviceError);
    assert_eq!(refused.write_text("x"), Err(WriteError::DeviceError));
    let mut unsupported = BufferConsole::refusing(WriteError::Unsupported);
    assert_eq!(unsupported.write_text("x"), Err(WriteError::Unsupported));
    let mut open = BufferConsole::new();
    assert_eq!(open.write_text("x"), Ok(()));
}

#[test]
fn is_enabled_filters_nothing() {
    let logger = installed_logger();
    let levels = [Level::Error, Level::Warn, Level::Info, Level::Debug, Level::Trace];
    for level in levels {
        assert!(logger.is_enabled(level));
    }
}

#[test]
fn flush_leaves_the_console_alone() {
    let logger = installed_logger();
    let mut con = BufferConsole::new();
    logger.log(&mut con, Level::Warn, "w");
    let before = con.actions().len();
    logger.flush(&mut con);
    assert_eq!(con.actions().len(), before);
    assert_eq!(con.current_color(), Color::LightGray);
    assert!(con.reports().is_empty());
}

#[test]
fn run_tests_over_empty_registry_only_announces() {
    let logger = installed_logger();
    let mut con = BufferConsole::new();
    let mut reg = RecordingRegistry::new(0);
    run_tests(&logger, &mut con, &mut reg);
    assert!(reg.runs().is_empty());
    let expected = vec![
        EventRec::SetColor(Color::Green),
        EventRec::Text(String::from("[INFO] running 0 tests\n")),
        EventRec::SetColor(Color::LightGray),
    ];
    assert_eq!(*con.actions(), expected);
}

#[test]
fn run_tests_walks_the_registry_in_order() {
    let logger = installed_logger();
    let mut con = BufferConsole::new();
    let mut reg = RecordingRegistry::new(3);
    run_tests(&logger, &mut con, &mut reg);
    assert_eq!(*reg.runs(), vec![0, 1, 2]);
    assert_eq!(
        con.actions()[1],
        EventRec::Text(String::from("[INFO] running 3 tests\n"))
    );
}

#[test]
fn run_tests_announces_even_when_the_console_refuses() {
    let logger = installed_logger();
    let mut con = BufferConsole::refusing(WriteError::Unsupported);
    let mut reg = RecordingRegistry::new(2);
    run_tests(&logger, &mut con, &mut reg);
    assert_eq!(*reg.runs(), vec![0, 1]);
    assert_eq!(*con.reports(), vec![String::from("log: console write failed")]);
    assert_eq!(con.current_color(), Color::LightGray);
}

#[test]
fn diagnostic_entry_greets_and_hands_back_the_logger() {
    let mut con = BufferConsole::new();
    let mut slot = Registration::new();
    let logger = boot_entry_diagnostic(&mut con, &mut slot);
    let expected = vec![
        EventRec::SetColor(Color::Green),
        EventRec::Text(String::from("[INFO] hello, world!\n")),
        EventRec::SetColor(Color::LightGray),
    ];
    assert_eq!(*con.actions(), expected);
    logger.log(&mut con, Level::Trace, "idle");
    assert_eq!(con.actions().len(), 6);
}

#[test]
fn application_entry_stalls_and_reports_success() {
    let mut con = BufferConsole::new();
    let mut timer = RecordingTimer::new();
    let mut slot = Registration::new();
    let status = boot_entry_application(&mut con, &mut timer, &mut slot);
    assert_eq!(status, Status::Success);
    assert_eq!(*timer.requested(), vec![10_000_000u64]);
    let expected = vec![
        EventRec::SetColor(Color::Green),
        EventRec::Text(String::from("[INFO] Hello world!\n")),
        EventRec::SetColor(Color::LightGray),
    ];
    assert_eq!(*con.actions(), expected);
}

#[test]
fn test_entry_greets_then_runs_the_harness() {
    let mut con = BufferConsole::new();
    let mut slot = Registration::new();
    let mut reg = RecordingRegistry::new(2);
    boot_entry_test(&mut con, &mut slot, &mut reg);
    assert_eq!(*reg.runs(), vec![0, 1]);
    let expected = vec![
        EventRec::SetColor(Color::Green),
        EventRec::Text(String::from("[INFO] hello, world!\n")),
        EventRec::SetColor(Color::LightGray),
        EventRec::SetColor(Color::Green),
        EventRec::Text(String::from("[INFO] running 2 tests\n")),
        EventRec::SetColor(Color::LightGray),
    ];
    assert_eq!(*con.actions(), expected);
    assert_eq!(con.current_color(), Color::LightGray);
}
