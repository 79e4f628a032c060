use installer::cli::{Line, Lvl, Sink};
use installer::exec::{
    begins, end, made, mktmp, probe, removed, rmtmp, run, success_status, verify_link, Command,
    Outcome, Reply,
};

fn cmd(line: &str, interactive: bool, verbose: bool) -> Command {
    Command { line: line.to_string(), interactive, verbose }
}

fn exited(success: bool, code: Option<i32>, stdout: &str, stderr: &str) -> Outcome {
    Outcome::Exited { success, code, stdout: stdout.to_string(), stderr: stderr.to_string() }
}

fn texts(lines: &Vec<Line>) -> Vec<(Sink, String)> {
    lines.iter().map(|l: &Line| (l.sink, l.text.clone())).collect()
}

fn ok(output: &str) -> Reply {
    Ok(output.to_string())
}

fn err(error: &str) -> Reply {
    Err(error.to_string())
}

#[test]
fn announce_words_a_verbose_command() {
    let lines = cmd("mkdir -p /tmp/x", false, true).announce();
    assert_eq!(
        texts(&lines),
        vec![(Sink::Log(Lvl::Info), "Running command: mkdir -p /tmp/x".to_string())]
    );
}

#[test]
fn announce_is_silent_for_a_quiet_command() {
    assert!(cmd("pacman -Q cuda", false, false).announce().is_empty());
}

#[test]
fn run_success_gives_the_output() {
    let ran = run(&cmd("echo hi", false, true), exited(true, Some(0), "hi\n", "noise"));
    assert_eq!(ran.reply, ok("hi\n"));
    assert_eq!(
        texts(&ran.lines),
        vec![(Sink::Log(Lvl::Success), "Command executed successfully".to_string())]
    );
}

#[test]
fn run_success_of_a_quiet_command_writes_nothing() {
    let ran = run(&cmd("pacman -Q cuda", false, false), exited(true, Some(0), "cuda 12.3", ""));
    assert_eq!(ran.reply, ok("cuda 12.3"));
    assert!(ran.lines.is_empty());
}

#[test]
fn run_exit_status_one_is_read_as_declined() {
    let ran = run(&cmd("sudo pacman -U a b", true, true), exited(false, Some(1), "", "nope"));
    assert_eq!(ran.reply, err("Operation was canceled by the user."));
    assert_eq!(
        texts(&ran.lines),
        vec![(
            Sink::Log(Lvl::Warning),
            "User declined to proceed with the installation.".to_string()
        )]
    );
}

#[test]
fn run_exit_status_one_of_a_quiet_command_writes_nothing() {
    let ran = run(&cmd("pacman -Q cuda", false, false), exited(false, Some(1), "", "not found"));
    assert_eq!(ran.reply, err("Operation was canceled by the user."));
    assert!(ran.lines.is_empty());
}

#[test]
fn run_other_failure_quotes_command_and_standard_error() {
    let ran = run(&cmd("curl -I http://x", false, true), exited(false, Some(6), "out", "no host"));
    assert_eq!(
        ran.reply,
        err("Command executed with errors: curl -I http://x\nError: no host")
    );
    assert!(ran.lines.is_empty());
}

#[test]
fn run_ending_by_signal_is_an_error() {
    let ran = run(&cmd("sleep 9", false, true), exited(false, None, "", ""));
    assert_eq!(ran.reply, err("Command executed with errors: sleep 9\nError: "));
    assert!(ran.lines.is_empty());
}

#[test]
fn run_success_wins_over_the_exit_status() {
    let ran = run(&cmd("true", false, false), exited(true, Some(1), "fine", ""));
    assert_eq!(ran.reply, ok("fine"));
}

#[test]
fn run_command_that_did_not_start() {
    let ran = run(
        &cmd("ls", false, true),
        Outcome::Failed { error: "No such file or directory (os error 2)".to_string() },
    );
    assert_eq!(
        ran.reply,
        err("Failed to execute command: No such file or directory (os error 2)")
    );
    assert!(ran.lines.is_empty());
}

#[test]
fn probe_asks_for_the_headers() {
    let c = probe("https://example.org/a.pkg.tar.zst");
    assert_eq!(c.line, "curl -I https://example.org/a.pkg.tar.zst");
    assert!(!c.interactive);
    assert!(c.verbose);
}

#[test]
fn verify_link_accepts_the_status_line_of_success() {
    let (valid, lines) = verify_link(&ok("HTTP/2 200 \r\ncontent-type: application/zstd\r\n"));
    assert!(valid);
    assert_eq!(texts(&lines), vec![(Sink::Log(Lvl::Success), "Valid link".to_string())]);
}

#[test]
fn verify_link_reads_the_status_line_only() {
    let (valid, lines) = verify_link(&ok("HTTP/2 301 \r\nlocation: /b\r\n\r\nHTTP/2 200 \r\n"));
    assert!(!valid);
    assert!(lines.is_empty());
}

#[test]
fn verify_link_rejects_a_bad_status_with_the_good_one_in_a_header() {
    let (valid, lines) = verify_link(&ok("HTTP/2 404 \r\nx-cache: HTTP/2 200\r\n\r\n"));
    assert!(!valid);
    assert!(lines.is_empty());
}

#[test]
fn verify_link_rejects_a_status_line_that_does_not_open_the_answer() {
    assert!(!verify_link(&ok("\nHTTP/2 200 \r\n")).0);
    assert!(!verify_link(&ok(" HTTP/2 200 \r\n")).0);
}

#[test]
fn verify_link_accepts_the_bare_status_line() {
    assert!(verify_link(&ok("HTTP/2 200")).0);
    assert!(verify_link(&ok("HTTP/2 200\r\n")).0);
    assert!(verify_link(&ok("HTTP/2 200\n")).0);
    assert!(verify_link(&ok("HTTP/2 200 OK\r\n")).0);
}

#[test]
fn verify_link_rejects_a_longer_status_code() {
    assert!(!verify_link(&ok("HTTP/2 2000 \r\n")).0);
    assert!(!verify_link(&ok("HTTP/2 200x\r\n")).0);
}

#[test]
fn begins_compares_the_start_only() {
    assert!(begins("HTTP/2 200 \r\n", "HTTP/2 200"));
    assert!(begins("abc", "abc"));
    assert!(begins("abc", ""));
    assert!(begins("", ""));
    assert!(!begins("ab", "abc"));
    assert!(!begins("xabc", "abc"));
    assert!(!begins("", "a"));
    assert!(begins("\u{e9}t\u{e9}", "\u{e9}t"));
    assert!(!begins("\u{e9}t\u{e9}", "et"));
}

#[test]
fn success_status_needs_the_code_to_end() {
    assert!(success_status("HTTP/2 200 \r\ncontent-length: 5\r\n"));
    assert!(success_status("HTTP/2 200"));
    assert!(!success_status("HTTP/2 204 \r\n"));
    assert!(!success_status("HTTP/2 2001"));
    assert!(!success_status(""));
    assert!(!success_status("HTTP/2 20"));
}

#[test]
fn verify_link_rejects_another_status() {
    let (valid, lines) = verify_link(&ok("HTTP/2 404 \r\n"));
    assert!(!valid);
    assert!(lines.is_empty());
}

#[test]
fn verify_link_rejects_success_of_another_protocol_version() {
    let (valid, _) = verify_link(&ok("HTTP/1.1 200 OK\r\n"));
    assert!(!valid);
}

#[test]
fn verify_link_rejects_empty_output() {
    let (valid, lines) = verify_link(&ok(""));
    assert!(!valid);
    assert!(lines.is_empty());
}

#[test]
fn verify_link_rejects_a_status_line_cut_short() {
    let (valid, _) = verify_link(&ok("HTTP/2 20"));
    assert!(!valid);
}

#[test]
fn verify_link_reports_a_failed_probe_on_standard_error() {
    let (valid, lines) = verify_link(&err("Command executed with errors: curl -I x\nError: t"));
    assert!(!valid);
    assert_eq!(
        texts(&lines),
        vec![(
            Sink::Stderr,
            "Failed to check link: Command executed with errors: curl -I x\nError: t".to_string()
        )]
    );
}

#[test]
fn verify_link_does_not_read_an_error_text_as_output() {
    let (valid, _) = verify_link(&err("HTTP/2 200"));
    assert!(!valid);
}

#[test]
fn mktmp_creates_the_scratch_directory() {
    let c = mktmp();
    assert_eq!(c.line, "mkdir -p /tmp/cuda_installer");
    assert!(!c.interactive);
    assert!(c.verbose);
}

#[test]
fn rmtmp_removes_the_scratch_directory_also_if_absent() {
    let c = rmtmp();
    assert_eq!(c.line, "rm -rf /tmp/cuda_installer");
    assert!(!c.interactive);
    assert!(c.verbose);
}

#[test]
fn made_reports_the_directory() {
    let (there, lines) = made(&ok(""));
    assert!(there);
    assert_eq!(
        texts(&lines),
        vec![(Sink::Log(Lvl::Success), "Tmp directory created: /tmp/cuda_installer".to_string())]
    );
}

#[test]
fn made_reports_the_failure() {
    let (there, lines) = made(&err("read-only file system"));
    assert!(!there);
    assert_eq!(
        texts(&lines),
        vec![(
            Sink::Log(Lvl::Error),
            "Failed to create tmp directory: read-only file system".to_string()
        )]
    );
}

#[test]
fn removed_reports_the_removal() {
    let lines = removed(&ok(""));
    assert_eq!(
        texts(&lines),
        vec![(Sink::Log(Lvl::Success), "Tmp directory removed: /tmp/cuda_installer".to_string())]
    );
}

#[test]
fn removed_asks_for_removal_by_hand_after_a_failure() {
    let lines = removed(&err("busy"));
    assert_eq!(
        texts(&lines),
        vec![
            (Sink::Log(Lvl::Error), "Failed to remove tmp directory: busy".to_string()),
            (
                Sink::Log(Lvl::Warning),
                "Please remove the tmp directory manually at /tmp/cuda_installer".to_string()
            ),
        ]
    );
}

#[test]
fn end_of_a_run_that_went_through() {
    let (line, code) = end(false);
    assert_eq!(code, 0);
    assert_eq!(line.sink, Sink::Log(Lvl::Success));
    assert_eq!(line.text, "Installation completed successfully!");
}

#[test]
fn end_of_a_run_that_was_given_up() {
    let (line, code) = end(true);
    assert_eq!(code, 1);
    assert_eq!(line.sink, Sink::Log(Lvl::Error));
    assert_eq!(line.text, "Installation exited!");
}
