use awsaml::prompt::Prompt;
use awsaml::prompt::PromptError;
use awsaml::prompt::Required;

#[test]
fn test_prompt() {
    assert_eq!(
        Prompt { msg: "Enter a number".to_string(), required: Required::Yes(None) }
            .get_value("123")
            .unwrap(),
        "123"
    );
}

#[test]
fn answers_are_trimmed() {
    let prompt = Prompt { msg: "Enter a number".to_string(), required: Required::Yes(None) };
    assert_eq!(prompt.get_value(" 123 \n").unwrap(), "123");
    assert_eq!(prompt.get_value("\u{3000}123\u{3000}").unwrap(), "123");
}

#[test]
fn empty_answer_falls_back_to_default() {
    let prompt = Prompt {
        msg: "Enter the session duration in hours".to_string(),
        required: Required::Yes(Some("6".to_string())),
    };
    assert_eq!(prompt.get_value("").unwrap(), "6");
    assert_eq!(prompt.get_value("   \n").unwrap(), "6");
    assert_eq!(prompt.get_value("8").unwrap(), "8");
}

#[test]
fn empty_required_answer_without_default_is_an_error() {
    let prompt = Prompt { msg: "Enter the app ID URI".to_string(), required: Required::Yes(None) };
    assert_eq!(prompt.get_value(""), Err(PromptError::InputRequired));
    assert_eq!(prompt.get_value(" \t"), Err(PromptError::InputRequired));
}

#[test]
fn empty_optional_answer_stands() {
    let prompt = Prompt { msg: "Anything".to_string(), required: Required::No };
    assert_eq!(prompt.get_value("").unwrap(), "");
    assert_eq!(prompt.get_value("x").unwrap(), "x");
}

#[test]
fn input_msg_names_the_policy() {
    let required = Prompt { msg: "Enter a number".to_string(), required: Required::Yes(None) };
    assert_eq!(required.input_msg(), "Enter a number (required) >");

    let with_default = Prompt {
        msg: "Enter the session duration in hours".to_string(),
        required: Required::Yes(Some("6".to_string())),
    };
    assert_eq!(with_default.input_msg(), "Enter the session duration in hours (default: 6) >");

    let optional = Prompt { msg: "Anything".to_string(), required: Required::No };
    assert_eq!(optional.input_msg(), "Anything (optional) >");
}
