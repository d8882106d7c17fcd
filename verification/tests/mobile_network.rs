use ph_mobile_network::errors::MobileNetworkError;
use ph_mobile_network::mobile_network::MobileNetwork;
use ph_mobile_network::mutate::{
    append_dito_prefixes, append_globe_prefixes, append_smart_prefixes, append_sun_prefixes,
    append_tnt_prefixes, reset_dito_prefixes, reset_globe_prefixes, reset_smart_prefixes,
    reset_sun_prefixes, reset_tnt_prefixes,
};
use ph_mobile_network::registry::Registry;
use ph_mobile_network::validate::Validate;

fn strings(items: &[&str]) -> Vec<String> {
    items.iter().map(|s| s.to_string()).collect()
}

// Testing setup function that prepares test data and environment
fn setup() -> Registry {
    // Clear and set up each prefix list before each test
    let mut registry = Registry::new();
    reset_dito_prefixes(&mut registry);
    reset_globe_prefixes(&mut registry);
    reset_smart_prefixes(&mut registry);
    reset_sun_prefixes(&mut registry);
    reset_tnt_prefixes(&mut registry);

    append_dito_prefixes(&mut registry, &strings(&["0897", "0898"]));
    append_globe_prefixes(&mut registry, &strings(&["0917", "0918"]));
    append_smart_prefixes(&mut registry, &strings(&["0919", "0920"]));
    append_sun_prefixes(&mut registry, &strings(&["0922", "0923"]));
    append_tnt_prefixes(&mut registry, &strings(&["0930", "0938"]));
    registry
}

#[test]
fn display_formats_are_correct() {
    let registry = setup();
    let globe = MobileNetwork::get("09171234567", &registry).unwrap();
    let smart = MobileNetwork::get("09191234567", &registry).unwrap();
    let sun = MobileNetwork::get("09221234567", &registry).unwrap();
    let tnt = MobileNetwork::get("09301234567", &registry).unwrap();
    let dito = MobileNetwork::get("08971234567", &registry).unwrap();
    let invalid = MobileNetwork::Invalid("test".to_string());

    assert_eq!(globe.to_string(), "globe");
    assert_eq!(smart.to_string(), "smart");
    assert_eq!(sun.to_string(), "sun");
    assert_eq!(tnt.to_string(), "tnt");
    assert_eq!(dito.to_string(), "dito");
    assert_eq!(invalid.to_string(), "invalid (test)");
}

#[test]
fn validate_all_network() {
    let registry = setup();
    let globe = MobileNetwork::get("09171234567", &registry).unwrap();

    assert!(globe.validate("09171234567").is_ok());

    let smart = MobileNetwork::get("09191234567", &registry).unwrap();
    assert!(smart.validate("09191234567").is_ok());

    let sun = MobileNetwork::get("09221234567", &registry).unwrap();
    assert!(sun.validate("09221234567").is_ok());

    let tnt = MobileNetwork::get("09301234567", &registry).unwrap();
    assert!(tnt.validate("09301234567").is_ok());

    let dito = MobileNetwork::get("08971234567", &registry).unwrap();
    assert!(dito.validate("08971234567").is_ok());

    let invalid = MobileNetwork::Invalid("test".to_string());
    assert!(invalid.validate("any_number").is_err());
}

#[test]
fn test_get_globe_network() {
    let registry = setup();
    let result = MobileNetwork::get("09171234567", &registry);
    assert!(matches!(result, Ok(MobileNetwork::Globe(_))));
}

#[test]
fn test_get_smart_network() {
    let registry = setup();
    let result = MobileNetwork::get("09191234567", &registry);
    assert!(matches!(result, Ok(MobileNetwork::Smart(_))));
}

#[test]
fn test_get_sun_network() {
    let registry = setup();
    let result = MobileNetwork::get("09221234567", &registry);
    assert!(matches!(result, Ok(MobileNetwork::Sun(_))));
}

#[test]
fn test_get_tnt_network() {
    let registry = setup();
    let result = MobileNetwork::get("09301234567", &registry);
    assert!(matches!(result, Ok(MobileNetwork::TNT(_))));
}

#[test]
fn test_get_dito_network() {
    let registry = setup();
    let result = MobileNetwork::get("08971234567", &registry);
    assert!(matches!(result, Ok(MobileNetwork::Dito(_))));
}

#[test]
fn test_get_invalid_network() {
    let registry = setup();
    let result = MobileNetwork::get("09871234567", &registry);
    assert!(matches!(
        result,
        Err(MobileNetworkError::UnrecognizedPrefix(_))
    ));
}
