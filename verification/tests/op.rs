use yazi_process::op::{ExitStatus, Mode, ProcessOpOpen, ShellOpt};
use yazi_process::prog::TaskProg;

fn job(block: bool, orphan: bool) -> ProcessOpOpen {
    ProcessOpOpen {
        id: 3,
        cmd: String::from("vi"),
        args: vec![String::from("a.txt"), String::from("b c.txt")],
        block,
        orphan,
    }
}

#[test]
fn mode_without_flags_is_streamed() {
    assert_eq!(job(false, false).mode(), Mode::Stream);
}

#[test]
fn mode_with_orphan_is_orphan() {
    assert_eq!(job(false, true).mode(), Mode::Orphan);
}

#[test]
fn mode_with_block_is_block() {
    assert_eq!(job(true, false).mode(), Mode::Block);
}

#[test]
fn mode_looks_at_block_first() {
    assert_eq!(job(true, true).mode(), Mode::Block);
}

#[test]
fn shell_captures_output_in_streamed_mode_only() {
    assert!(job(false, false).shell().piped);
    assert!(!job(false, true).shell().piped);
    assert!(!job(true, false).shell().piped);
    assert!(!job(true, true).shell().piped);
}

#[test]
fn shell_keeps_the_command_and_its_arguments() {
    let opt = job(false, false).shell();
    assert_eq!(
        opt,
        ShellOpt {
            cmd: String::from("vi"),
            args: vec![String::from("a.txt"), String::from("b c.txt")],
            piped: true,
            orphan: false,
        }
    );
}

#[test]
fn shell_passes_the_orphan_flag_on() {
    assert!(job(false, true).shell().orphan);
    assert!(job(true, true).shell().orphan);
    assert!(!job(true, false).shell().orphan);
    assert!(!job(false, false).shell().orphan);
}

#[test]
fn shell_without_arguments() {
    let opt = ProcessOpOpen {
        id: 0,
        cmd: String::from("true"),
        args: Vec::new(),
        block: false,
        orphan: false,
    }
    .shell();
    assert_eq!(opt.cmd, "true");
    assert!(opt.args.is_empty());
}

#[test]
fn message_knows_its_task() {
    assert_eq!(TaskProg::New(4, 0).id(), 4);
    assert_eq!(TaskProg::Adv(5, 1, 0).id(), 5);
    assert_eq!(TaskProg::Succ(6).id(), 6);
    assert_eq!(TaskProg::Fail(7, String::from("no")).id(), 7);
    assert_eq!(TaskProg::Log(8, String::from("line")).id(), 8);
}

#[test]
fn succ_and_fail_are_terminal() {
    assert!(TaskProg::Succ(1).is_terminal());
    assert!(TaskProg::Fail(1, String::new()).is_terminal());
    assert!(!TaskProg::New(1, 0).is_terminal());
    assert!(!TaskProg::Adv(1, 1, 0).is_terminal());
    assert!(!TaskProg::Log(1, String::new()).is_terminal());
}

#[test]
fn exit_status_is_plain_data() {
    let status = ExitStatus { success: false, code: Some(2) };
    let copy = status;
    assert_eq!(status, copy);
    assert_eq!(copy.code, Some(2));
    assert!(!copy.success);
}
