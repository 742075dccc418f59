use rrcli::gen_pass;

const UPPER_CASE: &[u8] = b"ABCDEFGHJKLMNPQRSTUVWXYZ";
const LOWER_CASE: &[u8] = b"abcdefghijkmnopqrstuvwxyz";
const NUMBER: &[u8] = b"23456789";
const SYMBOL: &[u8] = b"!@#$%&*=";

#[test]
fn test_handle_gen_pass_command() {
    let result = gen_pass(8, false, false, false, false);
    assert_eq!(result.unwrap().len(), 8);

    let result = gen_pass(8, false, true, true, true);
    assert!(result
        .unwrap()
        .chars()
        .any(|c| String::from_utf8_lossy(UPPER_CASE).into_owned().contains(c)));

    let result = gen_pass(8, true, false, true, true);
    assert!(result
        .unwrap()
        .chars()
        .any(|c| String::from_utf8_lossy(LOWER_CASE).into_owned().contains(c)));

    let result = gen_pass(8, true, true, false, true);
    assert!(result
        .unwrap()
        .chars()
        .any(|c| String::from_utf8_lossy(NUMBER).into_owned().contains(c)));

    let result = gen_pass(8, true, true, true, false);
    assert!(result
        .unwrap()
        .chars()
        .any(|c| String::from_utf8_lossy(SYMBOL).into_owned().contains(c)));
}

#[test]
fn test_gen_pass_every_class_present() {
    let password = gen_pass(16, false, false, false, false).unwrap();
    assert_eq!(password.len(), 16);
    assert!(password.chars().any(|c| UPPER_CASE.contains(&(c as u8))));
    assert!(password.chars().any(|c| LOWER_CASE.contains(&(c as u8))));
    assert!(password.chars().any(|c| NUMBER.contains(&(c as u8))));
    assert!(password.chars().any(|c| SYMBOL.contains(&(c as u8))));
}

#[test]
fn test_gen_pass_only_enabled_classes() {
    let password = gen_pass(12, true, false, true, true).unwrap();
    assert_eq!(password.len(), 12);
    assert!(password.chars().all(|c| LOWER_CASE.contains(&(c as u8))));
}

#[test]
fn test_gen_pass_empty_when_all_disabled() {
    let password = gen_pass(0, true, true, true, true).unwrap();
    assert_eq!(password.len(), 0);
}
