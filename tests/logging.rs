use log::{Log, Metadata, Record};
use nocash_gba_log::guard::InterruptGuard;
use nocash_gba_log::record::{format_record, Level, LevelFilter};
use nocash_gba_log::registrar::{check_environment, finish_install, Error};
use nocash_gba_log::signature::detect;

struct Discard;

impl Log for Discard {
    fn enabled(&self, _metadata: &Metadata) -> bool {
        true
    }

    fn log(&self, _record: &Record) {}

    fn flush(&self) {}
}

fn refused_install() -> log::SetLoggerError {
    let _ = log::set_logger(Box::leak(Box::new(Discard)));
    log::set_logger(Box::leak(Box::new(Discard))).unwrap_err()
}

#[test]
fn detect_accepts_signature() {
    assert!(detect(b"no$gba "));
}

#[test]
fn detect_rejects_missing_trailing_space() {
    assert!(!detect(b"no$gba_"));
    assert!(!detect(b"no$gbaa"));
}

#[test]
fn detect_rejects_other_case() {
    assert!(!detect(b"NO$GBA "));
    assert!(!detect(b"No$gba "));
}

#[test]
fn detect_rejects_zeroes_and_first_byte() {
    assert!(!detect(&[0u8; 7]));
    assert!(!detect(b"mo$gba "));
}

#[test]
fn check_environment_mismatch_is_error_every_time() {
    for _ in 0..3 {
        assert!(matches!(check_environment(b"mgba   "), Err(Error::NotRunningInNoCashGba)));
    }
}

#[test]
fn check_environment_match_is_ok() {
    assert!(check_environment(b"no$gba ").is_ok());
}

#[test]
fn finish_install_success_sets_most_verbose_threshold() {
    assert_eq!(finish_install(Ok(())).unwrap(), LevelFilter::Trace);
}

#[test]
fn finish_install_refusal_is_wrapped() {
    let error = refused_install();
    assert!(matches!(finish_install(Err(error)), Err(Error::SetLoggerError(_))));
}

#[test]
fn error_from_set_logger_error() {
    let error = refused_install();
    assert!(matches!(Error::from(error), Error::SetLoggerError(_)));
}

#[test]
fn guard_restores_enabled_flag() {
    let mut ime = true;
    let guard = InterruptGuard::acquire(&mut ime);
    assert!(!ime);
    assert!(guard.previous());
    guard.release(&mut ime);
    assert!(ime);
}

#[test]
fn guard_keeps_disabled_flag() {
    let mut ime = false;
    let guard = InterruptGuard::acquire(&mut ime);
    assert!(!ime);
    guard.release(&mut ime);
    assert!(!ime);
}

#[test]
fn nested_guards_restore_in_order() {
    let mut ime = true;
    let outer = InterruptGuard::acquire(&mut ime);
    let inner = InterruptGuard::acquire(&mut ime);
    assert!(!inner.previous());
    inner.release(&mut ime);
    assert!(!ime);
    outer.release(&mut ime);
    assert!(ime);
}

#[test]
fn format_info_hello_world() {
    assert_eq!(format_record(Level::Info, "Hello, world!"), b"[INFO ]: Hello, world!\n".to_vec());
}

#[test]
fn format_pads_each_level_to_five() {
    assert_eq!(format_record(Level::Error, "e"), b"[ERROR]: e\n".to_vec());
    assert_eq!(format_record(Level::Warn, "w"), b"[WARN ]: w\n".to_vec());
    assert_eq!(format_record(Level::Debug, "d"), b"[DEBUG]: d\n".to_vec());
    assert_eq!(format_record(Level::Trace, "t"), b"[TRACE]: t\n".to_vec());
}

#[test]
fn format_empty_message() {
    assert_eq!(format_record(Level::Trace, ""), b"[TRACE]: \n".to_vec());
}

#[test]
fn format_keeps_utf8_and_newlines() {
    assert_eq!(format_record(Level::Info, "é\nx"), "[INFO ]: é\nx\n".as_bytes().to_vec());
}

#[test]
fn records_stay_contiguous_in_stream() {
    let mut stream = Vec::new();
    stream.extend(format_record(Level::Info, "first"));
    stream.extend(format_record(Level::Warn, "second"));
    assert_eq!(stream, b"[INFO ]: first\n[WARN ]: second\n".to_vec());
}
