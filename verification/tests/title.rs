use procplot::title::{join_command, push_decimal, resolve_title, Opts};

fn words(w: &[&str]) -> Vec<String> {
    w.iter().map(|s| s.to_string()).collect()
}

#[test]
fn title_of_a_pid() {
    let opts = Opts { pid: Some(42), command: Vec::new() };
    assert_eq!(resolve_title(&opts), "PID 42");
}

#[test]
fn title_of_a_pid_ignores_the_command() {
    let opts = Opts { pid: Some(7), command: words(&["sleep", "10"]) };
    assert_eq!(resolve_title(&opts), "PID 7");
}

#[test]
fn title_of_a_command() {
    let opts = Opts { pid: None, command: words(&["sleep", "10"]) };
    assert_eq!(resolve_title(&opts), "sleep 10");
}

#[test]
fn title_of_a_single_word() {
    let opts = Opts { pid: None, command: words(&["top"]) };
    assert_eq!(resolve_title(&opts), "top");
}

#[test]
fn title_of_no_command_is_empty() {
    let opts = Opts { pid: None, command: Vec::new() };
    assert_eq!(resolve_title(&opts), "");
}

#[test]
fn title_keeps_empty_words() {
    assert_eq!(join_command(&words(&["a", "", "b"])), "a  b");
}

#[test]
fn decimal_of_edge_values() {
    for n in [0u32, 9, 10, 99, 100, 1234567890, u32::MAX] {
        let mut s = String::from("x");
        push_decimal(&mut s, n);
        assert_eq!(s, format!("x{}", n));
    }
}

#[test]
fn title_of_the_largest_pid() {
    let opts = Opts { pid: Some(u32::MAX), command: Vec::new() };
    assert_eq!(resolve_title(&opts), "PID 4294967295");
}
