use resume_gen::viewer::{opener_command, Platform};

#[test]
fn windows_opens_through_cmd_start() {
    let cmd = opener_command(Platform::Windows, "resume.pdf").unwrap();
    assert_eq!(cmd.program, "cmd");
    assert_eq!(cmd.args, vec!["/C", "start", "resume.pdf"]);
}

#[test]
fn macos_opens_through_open() {
    let cmd = opener_command(Platform::MacOs, "resume.pdf").unwrap();
    assert_eq!(cmd.program, "open");
    assert_eq!(cmd.args, vec!["resume.pdf"]);
}

#[test]
fn linux_opens_through_xdg_open() {
    let cmd = opener_command(Platform::Linux, "resume.pdf").unwrap();
    assert_eq!(cmd.program, "xdg-open");
    assert_eq!(cmd.args, vec!["resume.pdf"]);
}

#[test]
fn unknown_platforms_get_no_command() {
    assert!(opener_command(Platform::Other, "resume.pdf").is_none());
}
