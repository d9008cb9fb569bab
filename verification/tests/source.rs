//! From a source command to a program, and from a finished process to a value.

use hemli::error::HemliError;
use hemli::model::SourceType;
use hemli::source::{fetch_result, fetch_result_text, invocation, Invocation};

fn strings(items: &[&str]) -> Vec<String> {
    items.iter().map(|s| s.to_string()).collect()
}

#[test]
fn shell_line_goes_to_sh_untouched() {
    let inv = invocation("echo '  hello  ' | tr a-z A-Z", &SourceType::Sh).unwrap();
    assert_eq!(
        inv,
        Invocation {
            program: "sh".to_string(),
            args: strings(&["-c", "echo '  hello  ' | tr a-z A-Z"]),
        }
    );
    let empty = invocation("", &SourceType::Sh).unwrap();
    assert_eq!(empty.args, strings(&["-c", ""]));
}

#[test]
fn direct_command_is_split_on_whitespace() {
    let inv = invocation("echo hello", &SourceType::Cmd).unwrap();
    assert_eq!(inv.program, "echo");
    assert_eq!(inv.args, strings(&["hello"]));
    let spaced = invocation("  vault\tread \n  secret/x  ", &SourceType::Cmd).unwrap();
    assert_eq!(spaced.program, "vault");
    assert_eq!(spaced.args, strings(&["read", "secret/x"]));
    let alone = invocation("false", &SourceType::Cmd).unwrap();
    assert_eq!(alone.program, "false");
    assert!(alone.args.is_empty());
    let quoted = invocation("echo 'a b'", &SourceType::Cmd).unwrap();
    assert_eq!(quoted.args, strings(&["'a", "b'"]));
}

#[test]
fn empty_direct_command_fails_without_a_process() {
    assert_eq!(
        invocation("", &SourceType::Cmd),
        Err(HemliError::SourceFailed("empty command".to_string()))
    );
    assert_eq!(
        invocation(" \t\n", &SourceType::Cmd),
        Err(HemliError::SourceFailed("empty command".to_string()))
    );
}

#[test]
fn output_is_trimmed() {
    assert_eq!(
        fetch_result(true, "exit status: 0", b"hello\n", b""),
        Ok("hello".to_string())
    );
    assert_eq!(
        fetch_result(true, "exit status: 0", b"  hello  \n", b"noise"),
        Ok("hello".to_string())
    );
    assert_eq!(
        fetch_result(true, "exit status: 0", b"hello world\n", b""),
        Ok("hello world".to_string())
    );
    assert_eq!(
        fetch_result(true, "exit status: 0", b"\n\n", b""),
        Ok(String::new())
    );
    assert_eq!(
        fetch_result_text(true, "exit status: 0", "\u{a0}v\u{2003}\r\n", ""),
        Ok("v".to_string())
    );
}

#[test]
fn failure_carries_status_and_trimmed_stderr() {
    assert_eq!(
        fetch_result(false, "exit status: 1", b"ignored", b"  boom\n"),
        Err(HemliError::SourceFailed(
            "command exited with exit status: 1: boom".to_string()
        ))
    );
    assert_eq!(
        fetch_result(false, "signal: 9 (SIGKILL)", b"", b""),
        Err(HemliError::SourceFailed(
            "command exited with signal: 9 (SIGKILL): ".to_string()
        ))
    );
}

#[test]
fn bytes_that_are_no_text_are_replaced() {
    assert_eq!(
        fetch_result(true, "exit status: 0", b"a\xffb\n", b""),
        Ok("a\u{fffd}b".to_string())
    );
    assert_eq!(
        fetch_result(true, "exit status: 0", "gr\u{fc}n ".as_bytes(), b""),
        Ok("gr\u{fc}n".to_string())
    );
}
