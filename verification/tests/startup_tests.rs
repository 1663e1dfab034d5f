use webplay::guide::usage_guide_lines;
use webplay::startup::startup_report;
use webplay::DEFAULT_PORT;

#[test]
fn default_port_is_3000() {
    assert_eq!(DEFAULT_PORT, 3000);
}

#[test]
fn successful_bind_announces_server() {
    let report = startup_report(None, 3000);
    assert_eq!(report.exit_code, 0);
    assert_eq!(report.lines, vec![
        String::from("Server is running!"),
        String::from("Share any of the above URLs with devices on your network"),
    ]);
}

#[test]
fn failed_bind_exits_nonzero() {
    let report = startup_report(Some("Address already in use (os error 98)"), 3000);
    assert_ne!(report.exit_code, 0);
    assert_eq!(report.lines, vec![
        String::from("Failed to bind to port 3000: Address already in use (os error 98)"),
        String::from("Try a different port with --port <number>"),
    ]);
}

#[test]
fn failed_bind_never_claims_to_be_running() {
    let report = startup_report(Some("permission denied"), 80);
    assert_ne!(report.exit_code, 0);
    for line in &report.lines {
        assert_ne!(line.as_str(), "Server is running!");
        assert!(!line.contains("Server is running"));
    }
}

#[test]
fn failure_diagnostic_names_the_port() {
    let report = startup_report(Some("in use"), 65535);
    assert!(report.lines[0].contains("65535"));
}

#[test]
fn usage_guide_is_exactly_as_specified() {
    let lines = usage_guide_lines();
    assert_eq!(lines.len(), 25);
    assert_eq!(lines[0], "WebPlay Usage Guide");
    assert_eq!(lines[2], "HOW TO USE:");
    assert_eq!(lines[3], "   1. Copy a video URL from any source");
    assert_eq!(lines[24], "   - Supported formats: MP4, WebM, OGV, HLS");
}
