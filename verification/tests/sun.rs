use ph_mobile_network::sun::Sun;
use ph_mobile_network::validate::Validate;

fn strings(items: &[&str]) -> Vec<String> {
    items.iter().map(|s| s.to_string()).collect()
}

#[test]
fn is_ok_pattern_initialization() {
    let prefixes = strings(&["0917", "0925"]);
    let result = Sun::new(&prefixes);
    // no error on initialization
    assert!(result.is_ok());
}

#[test]
fn is_valid() {
    let prefixes = strings(&["0917", "0925"]);
    let result = Sun::new(&prefixes).unwrap();
    // exact length and prefix  and is a valid number
    assert!(result.validate("09171234567").unwrap());
}

#[test]
fn is_err_for_non_numeric() {
    let prefixes = strings(&["0917", "0925"]);
    let result = Sun::new(&prefixes).unwrap();
    // contains letters
    assert!(result.validate("0917abc4567").is_err());
}

#[test]
fn is_err_on_invalid_length() {
    let prefixes = strings(&["0917", "0925"]);
    let result = Sun::new(&prefixes).unwrap();
    // 9 digits
    assert!(result.validate("0917123456").is_err());
    // 12 digits
    assert!(result.validate("091712345678").is_err());
}

#[test]
fn is_err_on_unrecognized_prefix() {
    let prefixes = strings(&["0917", "0925"]);

    let result = Sun::new(&prefixes).unwrap();

    let result = result.validate("09991234567");

    assert!(result.is_err());
}
