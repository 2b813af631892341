use oxidebot::source::user::{Role, Sex};
use oxidebot::utils::wait::{EasyBool, InvalidEasyBool};

#[test]
fn sex_reads_chinese_and_english_words() {
    assert_eq!(Sex::from("男"), Sex::Male);
    assert_eq!(Sex::from("MALE"), Sex::Male);
    assert_eq!(Sex::from("女"), Sex::Female);
    assert_eq!(Sex::from("Female"), Sex::Female);
    assert_eq!(Sex::from("other"), Sex::Unknown);
    assert_eq!(Sex::from(""), Sex::Unknown);
}

#[test]
fn sex_classify_takes_the_lowered_text() {
    assert_eq!(Sex::classify("MALE", "male"), Sex::Male);
    assert_eq!(Sex::classify("MALE", "MALE"), Sex::Unknown);
    assert_eq!(Sex::classify("女", "女"), Sex::Female);
}

#[test]
fn defaults_are_unknown() {
    assert_eq!(Role::default(), Role::Unknown);
    assert_eq!(Sex::default(), Sex::Unknown);
}

#[test]
fn easy_bool_reads_answers_in_any_case() {
    let yes: EasyBool = "YES".parse().unwrap();
    assert!(bool::from(yes));
    let no: EasyBool = "n".parse().unwrap();
    assert!(!bool::from(no));
    assert_eq!("1".parse::<EasyBool>(), Ok(EasyBool(true)));
    assert_eq!("False".parse::<EasyBool>(), Ok(EasyBool(false)));
    assert_eq!("maybe".parse::<EasyBool>(), Err(InvalidEasyBool));
    assert_eq!(EasyBool::from_lowered("true"), Some(EasyBool(true)));
    assert_eq!(EasyBool::from_lowered("TRUE"), None);
}
