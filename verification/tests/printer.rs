use tty_greeter::{greet, i_am_untested, GreetError};

#[test]
fn prints_one_line() {
    let mut out = String::new();
    i_am_untested(&mut out);
    assert_eq!(out, "untested\n");
    assert_eq!(out.len(), 9);
}

#[test]
fn three_calls_give_three_lines() {
    let mut out = String::new();
    i_am_untested(&mut out);
    i_am_untested(&mut out);
    i_am_untested(&mut out);
    assert_eq!(out, "untested\nuntested\nuntested\n");
    let lines: Vec<&str> = out.lines().collect();
    assert_eq!(lines, vec!["untested", "untested", "untested"]);
}

#[test]
fn every_call_adds_the_same_line() {
    let mut out = String::from("header\n");
    let mut seen = out.len();
    for round in 0..20 {
        i_am_untested(&mut out);
        assert!(out.starts_with("header\n"));
        assert_eq!(&out[seen..], "untested\n");
        assert_eq!(out.len(), 7 + 9 * (round + 1));
        seen = out.len();
    }
}

#[test]
fn printer_does_not_care_what_the_greeter_did() {
    let mut after_greeting = String::new();
    assert_eq!(greet(true, &mut after_greeting), Ok(()));
    i_am_untested(&mut after_greeting);
    assert_eq!(after_greeting, "Hello, world!\nuntested\n");

    let mut after_refusal = String::new();
    assert_eq!(greet(false, &mut after_refusal), Err(GreetError::NotATerminal));
    i_am_untested(&mut after_refusal);
    assert_eq!(after_refusal, "untested\n");
}

#[test]
fn greeter_does_not_care_that_the_printer_ran() {
    let mut out = String::new();
    i_am_untested(&mut out);
    assert_eq!(greet(false, &mut out), Err(GreetError::NotATerminal));
    assert_eq!(out, "untested\n");
    assert_eq!(greet(true, &mut out), Ok(()));
    assert_eq!(out, "untested\nHello, world!\n");
    i_am_untested(&mut out);
    assert_eq!(greet(true, &mut out), Ok(()));
    assert_eq!(out, "untested\nHello, world!\nuntested\nHello, world!\n");
}
