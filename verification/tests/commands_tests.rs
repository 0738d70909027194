use scathanna_core::commands::{one_arg, CommandError};

#[test]
fn one_argument_is_handed_back() {
    assert_eq!(one_arg(&["frog"]), Ok("frog"));
    assert_eq!(one_arg(&[""]), Ok(""));
}

#[test]
fn no_argument_is_an_error() {
    assert_eq!(one_arg(&[]), Err(CommandError::NeedOneArgument));
}

#[test]
fn several_arguments_are_an_error() {
    assert_eq!(one_arg(&["a", "b"]), Err(CommandError::NeedOneArgument));
    assert_eq!(one_arg(&["a", "b", "c"]), Err(CommandError::NeedOneArgument));
}

#[test]
fn the_error_says_what_is_needed() {
    assert_eq!(CommandError::NeedOneArgument.message(), "need 1 argument");
}
