//! Scenario tests on concrete values: the default tables, the fixed
//! classification order, the validation checks in order, and every error
//! variant.

use ph_mobile_network::dito::Dito;
use ph_mobile_network::errors::MobileNetworkError;
use ph_mobile_network::globe::Globe;
use ph_mobile_network::mobile_network::MobileNetwork;
use ph_mobile_network::mutate::{append_globe_prefixes, reset_globe_prefixes};
use ph_mobile_network::pattern::generate_pattern;
use ph_mobile_network::registry::Registry;
use ph_mobile_network::smart::Smart;
use ph_mobile_network::sun::Sun;
use ph_mobile_network::talk_n_text::TNT;
use ph_mobile_network::validate::Validate;

fn strings(items: &[&str]) -> Vec<String> {
    items.iter().map(|s| s.to_string()).collect()
}

#[test]
fn default_globe_prefix_classifies_and_validates() {
    let registry = Registry::new();
    let network = MobileNetwork::get("09171234567", &registry).unwrap();
    assert!(matches!(network, MobileNetwork::Globe(_)));
    assert_eq!(network.validate("09171234567").unwrap(), true);
}

#[test]
fn default_smart_prefix_classifies_and_validates() {
    let registry = Registry::new();
    let network = MobileNetwork::get("09191234567", &registry).unwrap();
    assert!(matches!(network, MobileNetwork::Smart(_)));
    assert_eq!(network.validate("09191234567").unwrap(), true);
}

#[test]
fn default_sun_prefix_classifies_and_validates() {
    let registry = Registry::new();
    let network = MobileNetwork::get("09221234567", &registry).unwrap();
    assert!(matches!(network, MobileNetwork::Sun(_)));
    assert_eq!(network.validate("09221234567").unwrap(), true);
}

#[test]
fn default_tnt_prefix_classifies_and_validates() {
    let registry = Registry::new();
    let network = MobileNetwork::get("09071234567", &registry).unwrap();
    assert!(matches!(network, MobileNetwork::TNT(_)));
    assert_eq!(network.validate("09071234567").unwrap(), true);
}

#[test]
fn default_dito_prefix_classifies_and_validates() {
    let registry = Registry::new();
    let network = MobileNetwork::get("08971234567", &registry).unwrap();
    assert!(matches!(network, MobileNetwork::Dito(_)));
    assert_eq!(network.validate("08971234567").unwrap(), true);
}

#[test]
fn every_default_prefix_of_four_digits_validates_for_its_carrier() {
    let registry = Registry::new();
    let tables: [&Vec<String>; 5] = [
        registry.globe_prefixes(),
        registry.smart_prefixes(),
        registry.sun_prefixes(),
        registry.tnt_prefixes(),
        registry.dito_prefixes(),
    ];
    for (which, table) in tables.iter().enumerate() {
        for prefix in table.iter().filter(|p| p.len() == 4) {
            let number = format!("{}0000000", prefix);
            let outcome = match which {
                0 => Globe::new(table).unwrap().validate(&number),
                1 => Smart::new(table).unwrap().validate(&number),
                2 => Sun::new(table).unwrap().validate(&number),
                3 => TNT::new(table).unwrap().validate(&number),
                _ => Dito::new(table).unwrap().validate(&number),
            };
            assert_eq!(outcome.unwrap(), true, "prefix {} should validate", prefix);
        }
    }
}

#[test]
fn five_digit_default_prefix_leads_a_twelve_digit_number() {
    // A five-digit sub-range entry plus seven digits has twelve digits, so it
    // classifies (its first four digits are also a Globe entry) but fails the
    // eleven-digit length check.
    let registry = Registry::new();
    let network = MobileNetwork::get("091730000000", &registry).unwrap();
    assert!(matches!(network, MobileNetwork::Globe(_)));
    assert!(matches!(
        network.validate("091730000000"),
        Err(MobileNetworkError::InvalidLength)
    ));
}

#[test]
fn five_digit_entry_wins_classification_over_a_later_table() {
    // Globe's sub-range entry "09253" is consulted before Sun's "0925", and
    // prefix-of-prefix matching lets it claim the number. An eleven-digit
    // number cannot be a five-digit prefix plus seven digits, though, so the
    // Globe rule then rejects it.
    let registry = Registry::new();
    let network = MobileNetwork::get("09253000000", &registry).unwrap();
    assert!(matches!(network, MobileNetwork::Globe(_)));
    assert!(matches!(
        network.validate("09253000000"),
        Err(MobileNetworkError::UnrecognizedPrefix(_))
    ));
}

#[test]
fn non_numeric_is_reported_whatever_the_length() {
    let globe = Globe::new(&strings(&["0917"])).unwrap();
    assert!(matches!(
        globe.validate("0917abc4567"),
        Err(MobileNetworkError::NonNumeric)
    ));
    assert!(matches!(
        globe.validate("abc"),
        Err(MobileNetworkError::NonNumeric)
    ));
    assert!(matches!(
        globe.validate("0917-123-4567"),
        Err(MobileNetworkError::NonNumeric)
    ));
}

#[test]
fn wrong_length_is_reported_for_all_digit_strings() {
    let smart = Smart::new(&strings(&["0919"])).unwrap();
    assert!(matches!(
        smart.validate("0919123456"),
        Err(MobileNetworkError::InvalidLength)
    ));
    assert!(matches!(
        smart.validate("091912345678"),
        Err(MobileNetworkError::InvalidLength)
    ));
    assert!(matches!(
        smart.validate(""),
        Err(MobileNetworkError::InvalidLength)
    ));
}

#[test]
fn unmatched_number_is_reported_as_unrecognized() {
    let tnt = TNT::new(&strings(&["0907"])).unwrap();
    let outcome = tnt.validate("09991234567");
    match outcome {
        Err(MobileNetworkError::UnrecognizedPrefix(text)) => {
            assert_eq!(text, "09991234567");
        },
        _ => panic!("expected UnrecognizedPrefix"),
    }
}

#[test]
fn unknown_prefix_fails_classification_with_the_lookup_key() {
    let registry = Registry::new();
    let result = MobileNetwork::get("09871234567", &registry);
    match result {
        Err(MobileNetworkError::UnrecognizedPrefix(text)) => {
            assert_eq!(text, "0987");
        },
        _ => panic!("expected UnrecognizedPrefix"),
    }
}

#[test]
fn short_input_reports_its_whole_text_as_the_key() {
    let registry = Registry::new();
    let result = MobileNetwork::get("09", &registry);
    match result {
        Err(MobileNetworkError::UnrecognizedPrefix(text)) => {
            assert_eq!(text, "09");
        },
        _ => panic!("expected UnrecognizedPrefix"),
    }
}

#[test]
fn reset_twice_leaves_the_table_empty_both_times() {
    let mut registry = Registry::new();
    reset_globe_prefixes(&mut registry);
    assert!(registry.globe_prefixes().is_empty());
    reset_globe_prefixes(&mut registry);
    assert!(registry.globe_prefixes().is_empty());
}

#[test]
fn append_then_get_round_trip() {
    let mut registry = Registry::new();
    append_globe_prefixes(&mut registry, &strings(&["0917"]));
    let network = MobileNetwork::get("09171234567", &registry).unwrap();
    assert!(matches!(network, MobileNetwork::Globe(_)));
}

#[test]
fn classification_follows_whichever_table_holds_the_prefix() {
    // With the default tables, "0999" is Smart's literal entry.
    let registry = Registry::new();
    let network = MobileNetwork::get("09991234567", &registry).unwrap();
    assert!(matches!(network, MobileNetwork::Smart(_)));
    assert_eq!(network.validate("09991234567").unwrap(), true);
}

#[test]
fn classification_finds_a_carrier_but_validation_rejects_letters() {
    // "0917" claims the number, but validation still rejects the letters.
    let registry = Registry::new();
    let network = MobileNetwork::get("0917abc4567", &registry).unwrap();
    assert!(matches!(network, MobileNetwork::Globe(_)));
    assert!(matches!(
        network.validate("0917abc4567"),
        Err(MobileNetworkError::NonNumeric)
    ));
}

#[test]
fn after_reset_only_appended_prefixes_classify() {
    let mut registry = Registry::new();
    reset_globe_prefixes(&mut registry);
    append_globe_prefixes(&mut registry, &strings(&["0917"]));
    // The other tables were reset too, so nothing else claims 0999.
    ph_mobile_network::mutate::reset_smart_prefixes(&mut registry);
    ph_mobile_network::mutate::reset_sun_prefixes(&mut registry);
    ph_mobile_network::mutate::reset_tnt_prefixes(&mut registry);
    ph_mobile_network::mutate::reset_dito_prefixes(&mut registry);

    let globe = MobileNetwork::get("09171234567", &registry).unwrap();
    assert!(matches!(globe, MobileNetwork::Globe(_)));

    let missing = MobileNetwork::get("09991234567", &registry);
    assert!(matches!(
        missing,
        Err(MobileNetworkError::UnrecognizedPrefix(_))
    ));
}

#[test]
fn empty_table_matches_nothing() {
    // The rule of an empty table deterministically never matches: neither an
    // always-match nor a construction error.
    let sun = Sun::new(&strings(&[])).unwrap();
    assert!(matches!(
        sun.validate("09171234567"),
        Err(MobileNetworkError::UnrecognizedPrefix(_))
    ));
}

#[test]
fn malformed_prefix_surfaces_as_a_regex_error() {
    let result = Globe::new(&strings(&["("]));
    assert!(matches!(result, Err(MobileNetworkError::RegexError(_))));

    let mut registry = Registry::new();
    reset_globe_prefixes(&mut registry);
    append_globe_prefixes(&mut registry, &strings(&["("]));
    let outcome = MobileNetwork::get("(1234567890", &registry);
    assert!(matches!(outcome, Err(MobileNetworkError::RegexError(_))));
}

#[test]
fn generated_pattern_is_the_anchored_alternation() {
    let pattern = generate_pattern(&strings(&["0917", "0925"])).unwrap();
    assert_eq!(pattern, "^(0917|0925)\\d{7}$");
    let empty = generate_pattern(&strings(&[])).unwrap();
    assert_eq!(empty, "^()\\d{7}$");
    let single = generate_pattern(&strings(&["0907"])).unwrap();
    assert_eq!(single, "^(0907)\\d{7}$");
}

#[test]
fn error_messages_are_fixed_sentences() {
    assert_eq!(
        MobileNetworkError::InvalidLength.message(),
        "Invalid phone number length. Expected exactly 11 digits."
    );
    assert_eq!(
        MobileNetworkError::NonNumeric.message(),
        "Mobile number contains non-numeric characters."
    );
    assert_eq!(
        MobileNetworkError::UnrecognizedPrefix("0987".to_string()).message(),
        "Unrecognized mobile number prefix: 0987"
    );
    assert_eq!(
        MobileNetworkError::RegexError("boom".to_string()).message(),
        "Regex error boom"
    );
    assert_eq!(
        MobileNetworkError::MutexError("busy".to_string()).message(),
        "Mutex lock error busy"
    );
}
