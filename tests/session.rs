use logcat_injector::adb::{AdbErrorKind, AdbWrapper};
use logcat_injector::entry::{LogCatEntry, DEFAULT_TAG};
use logcat_injector::session::{stop_requested, InputEvent, Session, Step};

fn strings(v: &[&str]) -> Vec<String> {
    v.iter().map(|s| s.to_string()).collect()
}

#[test]
fn entry_keeps_fields() {
    let e = LogCatEntry::new("MyTag", "a message");
    assert_eq!(e.get_log_tag(), "MyTag");
    assert_eq!(e.get_log_msg(), "a message");
}

#[test]
fn entry_keeps_empty_and_special_fields() {
    let e = LogCatEntry::new("", "");
    assert_eq!(e.get_log_tag(), "");
    assert_eq!(e.get_log_msg(), "");
    let e = LogCatEntry::new("-t", "-m \"quoted\" ; $(x)\n\r");
    assert_eq!(e.get_log_tag(), "-t");
    assert_eq!(e.get_log_msg(), "-m \"quoted\" ; $(x)\n\r");
}

#[test]
fn default_tag_when_none_given() {
    let s = Session::new(AdbWrapper::set_device_from_matches("emu"), None);
    assert_eq!(s.tag(), DEFAULT_TAG);
    assert_eq!(s.tag(), "HostLogInjector");
    let s = Session::new(AdbWrapper::set_device_from_matches("emu"), Some("Mine"));
    assert_eq!(s.tag(), "Mine");
    assert_eq!(s.device().device_name(), Some("emu".to_string()));
}

#[test]
fn one_shot_injects_message_as_given() {
    let s = Session::new(AdbWrapper::set_device_from_matches("emu"), Some("T"));
    let e = s.one_shot("boot done");
    assert_eq!(e.get_log_tag(), "T");
    assert_eq!(e.get_log_msg(), "boot done");
    assert_eq!(
        s.device().log_command_args(&e),
        strings(&["-s", "emu", "shell", "log", "-t", "T", "boot done"])
    );
}

#[test]
fn command_without_device_name() {
    let adb = AdbWrapper::set_device_from_matches("");
    let e = LogCatEntry::new("T", "m");
    assert_eq!(adb.log_command_args(&e), strings(&["shell", "log", "-t", "T", "m"]));
}

#[test]
fn stop_lines_end_the_session() {
    let s = Session::new(AdbWrapper::set_device_from_matches("emu"), None);
    assert!(matches!(s.on_input(InputEvent::Line("exit\n\r".to_string())), Step::Exit));
    assert!(matches!(s.on_input(InputEvent::Line("quit\n\r".to_string())), Step::Exit));
    assert!(stop_requested(&"exit\n\r".to_string()));
    assert!(!stop_requested(&"exit\n".to_string()));
    assert!(!stop_requested(&"exit".to_string()));
}

#[test]
fn other_lines_are_injected_verbatim() {
    let s = Session::new(AdbWrapper::set_device_from_matches("emu"), Some("T"));
    for line in ["exit\n", "quit", "", "x\r\n"] {
        match s.on_input(InputEvent::Line(line.to_string())) {
            Step::Inject(e) => {
                assert_eq!(e.get_log_tag(), "T");
                assert_eq!(e.get_log_msg(), line);
            }
            _ => panic!("expected an injection for {:?}", line),
        }
    }
}

#[test]
fn end_of_input_ends_the_session() {
    let s = Session::new(AdbWrapper::set_device_from_matches("emu"), None);
    assert!(matches!(s.on_input(InputEvent::EndOfInput), Step::Exit));
}

#[test]
fn failed_read_is_reported() {
    let s = Session::new(AdbWrapper::set_device_from_matches("emu"), None);
    match s.on_input(InputEvent::ReadFailed("stream did not contain valid UTF-8".to_string())) {
        Step::Report(e) => {
            assert_eq!(e.kind(), AdbErrorKind::StdinReadError);
            assert_eq!(e.message(), "stream did not contain valid UTF-8");
        }
        _ => panic!("expected a report"),
    }
}

#[test]
fn hello_line_with_discovered_device() {
    let listing = strings(&["List of devices attached", "emulator-5554\tdevice", ""]);
    let adb = AdbWrapper::discover(&listing).unwrap();
    let s = Session::new(adb, None);
    match s.on_input(InputEvent::Line("hello\n".to_string())) {
        Step::Inject(e) => {
            assert_eq!(e.get_log_tag(), "HostLogInjector");
            assert_eq!(e.get_log_msg(), "hello\n");
            assert_eq!(
                s.device().log_command_args(&e),
                strings(&["-s", "emulator-5554", "shell", "log", "-t", "HostLogInjector", "hello\n"])
            );
        }
        _ => panic!("expected an injection"),
    }
    assert!(matches!(s.on_input(InputEvent::EndOfInput), Step::Exit));
}

#[test]
fn two_devices_without_explicit_name() {
    let listing = strings(&["List of devices attached", "emulator-5554\tdevice", "emulator-5556\tdevice"]);
    let err = AdbWrapper::discover(&listing).unwrap_err();
    assert_eq!(err.kind(), AdbErrorKind::AmbiguousDevice);
}
