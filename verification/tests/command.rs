use ixcalc::dispatch::handle_command;
use ixcalc::present::{get_greeting_message, result_line};

fn strings(words: &[&str]) -> Vec<String> {
    words.iter().map(|w| w.to_string()).collect()
}

#[test]
fn calc_add_reports_the_sum() {
    let options = strings(&["add", "1", "2", "3"]);
    let r = handle_command("calc", &options);
    assert_eq!(r, Ok(Some(6)));
    assert_eq!(result_line(6), "The result is 6.");
}

#[test]
fn calc_sub_reports_the_fold() {
    let options = strings(&["sub", "10", "3", "2"]);
    let r = handle_command("calc", &options);
    assert_eq!(r, Ok(Some(5)));
    assert_eq!(result_line(5), "The result is 5.");
}

#[test]
fn unknown_operator_is_reported() {
    let options = strings(&["mul", "1", "2"]);
    let r = handle_command("calc", &options);
    assert_eq!(r, Err("Unsupported operator.".to_string()));
}

#[test]
fn unknown_command_is_reported() {
    let options = strings(&["bar"]);
    let r = handle_command("foo", &options);
    assert_eq!(r, Err("Unsupported command.".to_string()));
}

#[test]
fn missing_operands_are_reported() {
    let options = strings(&["add"]);
    let r = handle_command("calc", &options);
    assert_eq!(r, Err("Input operands must not be empty.".to_string()));
}

#[test]
fn missing_operands_are_noticed_before_the_operator() {
    let options = strings(&["mul"]);
    let r = handle_command("calc", &options);
    assert_eq!(r, Err("Input operands must not be empty.".to_string()));
}

#[test]
fn malformed_operand_is_reported() {
    let options = strings(&["add", "1", "x"]);
    let r = handle_command("calc", &options);
    assert_eq!(r, Err("Failed to parse operands as number.".to_string()));
}

#[test]
fn malformed_operand_is_noticed_before_the_operator() {
    let options = strings(&["mul", "x"]);
    let r = handle_command("calc", &options);
    assert_eq!(r, Err("Failed to parse operands as number.".to_string()));
}

#[test]
fn negative_results_render_with_a_sign() {
    let options = strings(&["sub", "3", "10"]);
    let r = handle_command("calc", &options);
    assert_eq!(r, Ok(Some(-7)));
    assert_eq!(result_line(-7), "The result is -7.");
}

#[test]
fn result_line_renders_the_bounds() {
    assert_eq!(result_line(0), "The result is 0.");
    assert_eq!(result_line(i32::MAX), "The result is 2147483647.");
    assert_eq!(result_line(i32::MIN), "The result is -2147483648.");
}

#[test]
fn greeting_is_the_fixed_message() {
    assert_eq!(
        get_greeting_message(),
        "Hi bro. Welcome to the IXCodeRS Project - a dev sandbox for Rust."
    );
}

#[test]
fn string_comparison_follows_the_characters() {
    assert!(ixcalc::strutil::str_eq("abc", "abc"));
    assert!(!ixcalc::strutil::str_eq("abc", "abd"));
    assert!(!ixcalc::strutil::str_eq("abc", "ab"));
    assert!(ixcalc::strutil::str_eq("", ""));
    assert!(ixcalc::strutil::str_eq("héllo", "héllo"));
    assert!(!ixcalc::strutil::str_eq("héllo", "hello"));
}
