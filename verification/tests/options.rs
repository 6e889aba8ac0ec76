use yazi_process::options::{OpenDoOpt, OpenWithOpt, Opener};

fn opener() -> Opener {
    Opener { run: String::from("vi \"$@\""), block: true, orphan: false, desc: String::from("vi") }
}

#[test]
fn open_do_default_is_empty() {
    let opt = OpenDoOpt::default();
    assert_eq!(opt.hovered, "");
    assert!(opt.targets.is_empty());
    assert!(!opt.interactive);
}

#[test]
fn open_do_from_a_command_with_data() {
    let given = OpenDoOpt {
        hovered: String::from("/tmp/a.txt"),
        targets: vec![(String::from("/tmp/a.txt"), String::from("text/plain"))],
        interactive: true,
    };
    assert_eq!(OpenDoOpt::from_data(Some(given.clone())), given);
}

#[test]
fn open_do_from_a_command_without_data() {
    assert_eq!(OpenDoOpt::from_data(None), OpenDoOpt::default());
}

#[test]
fn open_with_from_a_command_with_data() {
    let given = OpenWithOpt { targets: vec![String::from("/tmp/a.txt")], opener: opener() };
    assert_eq!(OpenWithOpt::try_from_data(Some(given.clone())), Ok(given));
}

#[test]
fn open_with_from_a_command_without_data() {
    assert_eq!(OpenWithOpt::try_from_data(None), Err(()));
}
