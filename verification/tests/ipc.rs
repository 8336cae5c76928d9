use mxbattery::ipc::{parse_request, pid_file_text, pid_to_probe, IpcCommand, OPEN_PREFS_REQUEST};

#[test]
fn request_sent_by_second_instance_is_understood() {
    assert_eq!(parse_request(OPEN_PREFS_REQUEST), Some(IpcCommand::OpenPrefs));
    assert_eq!(parse_request("  open_prefs \r\n"), Some(IpcCommand::OpenPrefs));
}

#[test]
fn other_requests_are_ignored() {
    assert_eq!(parse_request("open_prefs please"), None);
    assert_eq!(parse_request("OPEN_PREFS"), None);
    assert_eq!(parse_request(""), None);
}

#[test]
fn pid_file_round_trips() {
    let t = pid_file_text(4242);
    assert_eq!(t, "4242");
    assert_eq!(pid_to_probe(&t), Some(4242));
    assert_eq!(pid_to_probe(" 17\n"), Some(17));
}

#[test]
fn unusable_pid_files_are_not_probed() {
    assert_eq!(pid_to_probe("0"), None);
    assert_eq!(pid_to_probe("-5"), None);
    assert_eq!(pid_to_probe("abc"), None);
    assert_eq!(pid_to_probe(""), None);
    assert_eq!(pid_to_probe("2147483648"), None);
    assert_eq!(pid_to_probe("2147483647"), Some(2147483647));
    assert_eq!(pid_to_probe("+12"), Some(12));
}
