use yazi_process::text::{
    exit_line_text, exit_warning_text, process_failed_text, push_decimal, push_digits,
    spawn_failure_text,
};

fn in_decimal(code: i32) -> String {
    let mut out = String::new();
    push_decimal(&mut out, code);
    out
}

#[test]
fn decimal_of_zero() {
    assert_eq!(in_decimal(0), "0");
}

#[test]
fn decimal_of_single_digits() {
    assert_eq!(in_decimal(1), "1");
    assert_eq!(in_decimal(7), "7");
    assert_eq!(in_decimal(9), "9");
}

#[test]
fn decimal_of_several_digits() {
    assert_eq!(in_decimal(10), "10");
    assert_eq!(in_decimal(127), "127");
    assert_eq!(in_decimal(255), "255");
    assert_eq!(in_decimal(1000), "1000");
    assert_eq!(in_decimal(90210), "90210");
}

#[test]
fn decimal_of_negative_codes() {
    assert_eq!(in_decimal(-1), "-1");
    assert_eq!(in_decimal(-10), "-10");
    assert_eq!(in_decimal(-1073741819), "-1073741819");
}

#[test]
fn decimal_at_the_limits() {
    assert_eq!(in_decimal(i32::MAX), "2147483647");
    assert_eq!(in_decimal(i32::MIN), "-2147483648");
}

#[test]
fn decimal_agrees_with_std() {
    let mut code: i32 = -70000;
    while code <= 70000 {
        assert_eq!(in_decimal(code), format!("{}", code));
        code += 137;
    }
    for code in [i32::MIN, i32::MIN + 1, -1, 0, 1, i32::MAX - 1, i32::MAX] {
        assert_eq!(in_decimal(code), format!("{}", code));
    }
}

#[test]
fn digits_are_appended_to_what_is_there() {
    let mut out = String::from("code ");
    push_digits(&mut out, 4096);
    assert_eq!(out, "code 4096");
    push_digits(&mut out, 0);
    assert_eq!(out, "code 40960");
    push_digits(&mut out, u32::MAX);
    assert_eq!(out, "code 409604294967295");
}

#[test]
fn decimal_is_appended_to_what_is_there() {
    let mut out = String::from("x=");
    push_decimal(&mut out, -42);
    assert_eq!(out, "x=-42");
}

#[test]
fn exit_line_with_a_code() {
    assert_eq!(exit_line_text(Some(0)), "Exited with status code: 0");
    assert_eq!(exit_line_text(Some(1)), "Exited with status code: 1");
    assert_eq!(exit_line_text(Some(127)), "Exited with status code: 127");
    assert_eq!(exit_line_text(Some(-3)), "Exited with status code: -3");
}

#[test]
fn exit_line_without_a_code() {
    assert_eq!(exit_line_text(None), "Process terminated by signal");
}

#[test]
fn exit_warning_with_a_code() {
    assert_eq!(exit_warning_text(Some(1)), "Process exited with status code: 1");
    assert_eq!(exit_warning_text(Some(130)), "Process exited with status code: 130");
}

#[test]
fn exit_warning_without_a_code() {
    assert_eq!(exit_warning_text(None), "Process terminated by signal");
}

#[test]
fn spawn_failure_names_the_reason() {
    assert_eq!(
        spawn_failure_text("No such file or directory (os error 2)"),
        "Failed to spawn process: No such file or directory (os error 2)"
    );
    assert_eq!(spawn_failure_text(""), "Failed to spawn process: ");
}

#[test]
fn process_failed_wording() {
    assert_eq!(process_failed_text(), "Process failed");
}
