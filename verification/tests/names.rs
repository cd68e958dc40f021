use function_lifecycle::lifecycle::validate_name;
use function_lifecycle::name::{is_valid_name, FunctionName, MAX_NAME_LEN};
use function_lifecycle::record::LifecycleError;
use function_lifecycle::record::Stage;

const REJECTION: &str =
    " is invalid, it can contain the following characters only [a-zA-Z0-9-_] and has 1 to 64 of them";

#[test]
fn accepts_a_plain_name() {
    let name = FunctionName::validate_data("isEven".to_string()).unwrap();
    assert_eq!(name.as_str(), "isEven");
    assert_eq!(name.into_string(), "isEven".to_string());
}

#[test]
fn accepts_every_kind_of_name_character() {
    let name = FunctionName::validate_data("a-b_C9".to_string()).unwrap();
    assert_eq!(name.as_str(), "a-b_C9");
    assert!(is_valid_name("0"));
    assert!(is_valid_name("-"));
    assert!(is_valid_name("_"));
    assert!(is_valid_name("azAZ09"));
}

#[test]
fn trims_white_space_around_a_name() {
    let name = FunctionName::validate_data("  isEven \n".to_string()).unwrap();
    assert_eq!(name.as_str(), "isEven");
    let name = FunctionName::validate_data("\tcheck_1\r\n".to_string()).unwrap();
    assert_eq!(name.as_str(), "check_1");
}

#[test]
fn trims_unicode_white_space_around_a_name() {
    let name = FunctionName::validate_data("\u{3000}abc\u{a0}\u{2003}".to_string()).unwrap();
    assert_eq!(name.as_str(), "abc");
    let name = FunctionName::validate_data("\u{85}\u{1680}x\u{2028}\u{205f}".to_string()).unwrap();
    assert_eq!(name.as_str(), "x");
}

#[test]
fn rejects_an_empty_name() {
    let err = FunctionName::validate_data(String::new()).unwrap_err();
    assert_eq!(err, REJECTION.to_string());
    let err = FunctionName::validate_data("   \t ".to_string()).unwrap_err();
    assert_eq!(err, REJECTION.to_string());
}

#[test]
fn rejects_white_space_inside_a_name() {
    let err = FunctionName::validate_data(" is even ".to_string()).unwrap_err();
    assert_eq!(err, format!("is even{}", REJECTION));
}

#[test]
fn rejects_characters_outside_the_pattern() {
    for bad in ["a.b", "a/b", "a+b", "a@b", "a:b", "a[b", "a`b", "a{b", "caf\u{e9}", "\u{4e2d}"] {
        assert!(!is_valid_name(bad), "{}", bad);
        let err = FunctionName::validate_data(bad.to_string()).unwrap_err();
        assert_eq!(err, format!("{}{}", bad, REJECTION));
    }
}

#[test]
fn name_length_is_bounded() {
    assert_eq!(MAX_NAME_LEN, 64);
    let longest = "n".repeat(64);
    let too_long = "n".repeat(65);
    assert!(is_valid_name(&longest));
    assert!(!is_valid_name(&too_long));
    assert_eq!(FunctionName::validate_data(longest.clone()).unwrap().as_str(), longest);
    assert!(FunctionName::validate_data(too_long).is_err());
}

#[test]
fn untrimmed_text_is_not_a_valid_name() {
    assert!(!is_valid_name(" isEven"));
    assert!(!is_valid_name("isEven\n"));
    assert!(!is_valid_name(""));
}

#[test]
fn characters_next_to_the_ranges_are_rejected() {
    // the neighbours of 0-9, A-Z, a-z, '-' and '_' in ASCII
    for bad in ["/", ":", "@", "[", "`", "{", ",", ".", "^", "\u{7f}", "\0"] {
        assert!(!is_valid_name(bad), "{:?}", bad);
    }
}

#[test]
fn stages_have_lower_case_names() {
    assert_eq!(Stage::Draft.to_string(), "draft");
    assert_eq!(Stage::Published.to_string(), "published");
}

#[test]
fn try_from_validates_like_validate_data() {
    let name = FunctionName::try_from(" isEven ".to_string()).unwrap();
    assert_eq!(name.as_str(), "isEven");
    let err = FunctionName::try_from("is.even".to_string()).unwrap_err();
    assert_eq!(err, format!("is.even{}", REJECTION));
}

#[test]
fn a_bad_name_is_a_validation_error() {
    assert_eq!(validate_name("\tisEven\n".to_string()).unwrap().as_str(), "isEven");
    match validate_name(" not a name ".to_string()) {
        Err(LifecycleError::Validation(message)) => {
            assert_eq!(message, format!("not a name{}", REJECTION))
        }
        other => panic!("{:?}", other),
    }
    assert!(matches!(validate_name(String::new()), Err(LifecycleError::Validation(_))));
}
