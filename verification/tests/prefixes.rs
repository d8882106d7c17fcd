use ph_mobile_network::mutate::{
    append_dito_prefixes, append_globe_prefixes, append_smart_prefixes, append_sun_prefixes,
    append_tnt_prefixes, reset_dito_prefixes, reset_globe_prefixes, reset_smart_prefixes,
    reset_sun_prefixes, reset_tnt_prefixes,
};
use ph_mobile_network::registry::Registry;
use ph_mobile_network::{
    append_dito_prefix, append_globe_prefix, append_smart_prefix, append_sun_prefix,
    append_tnt_prefix,
};

fn strings(items: &[&str]) -> Vec<String> {
    items.iter().map(|s| s.to_string()).collect()
}

#[test]
fn dito_prefixes_test_append_dito_prefix() {
    // Clear existing prefixes for a clean test environment
    let mut registry = Registry::new();
    reset_dito_prefixes(&mut registry);
    append_dito_prefixes(&mut registry, &strings(&["0895", "0896"])); // Reset to a known state

    // Append a new prefix and test
    append_dito_prefixes(&mut registry, &strings(&["0991"]));
    let prefixes = registry.dito_prefixes();
    assert!(
        prefixes.contains(&"0991".to_string()),
        "Prefix 0991 should be in the list"
    );
}

#[test]
fn globe_prefixes_test_append_globe_prefix() {
    let mut registry = Registry::new();
    reset_globe_prefixes(&mut registry);
    append_globe_prefixes(&mut registry, &strings(&["0817", "0905"]));

    append_globe_prefixes(&mut registry, &strings(&["0912"]));
    let prefixes = registry.globe_prefixes();
    assert!(
        prefixes.contains(&"0912".to_string()),
        "Prefix 0912 should be in the list"
    );
}

#[test]
fn smart_prefixes_test_append_smart_prefix() {
    let mut registry = Registry::new();
    reset_smart_prefixes(&mut registry);
    append_smart_prefixes(&mut registry, &strings(&["0908", "0919"]));

    append_smart_prefixes(&mut registry, &strings(&["0999"]));
    let prefixes = registry.smart_prefixes();
    assert!(
        prefixes.contains(&"0999".to_string()),
        "Prefix 0999 should be in the list"
    );
}

#[test]
fn sun_prefixes_test_append_sun_prefix() {
    let mut registry = Registry::new();
    reset_sun_prefixes(&mut registry);
    append_sun_prefixes(&mut registry, &strings(&["0922", "0923"]));

    append_sun_prefixes(&mut registry, &strings(&["0943"]));
    let prefixes = registry.sun_prefixes();
    assert!(
        prefixes.contains(&"0943".to_string()),
        "Prefix 0943 should be in the list"
    );
}

#[test]
fn tnt_prefixes_test_append_tnt_prefix() {
    let mut registry = Registry::new();
    reset_tnt_prefixes(&mut registry);
    append_tnt_prefixes(&mut registry, &strings(&["0907", "0912"]));

    append_tnt_prefixes(&mut registry, &strings(&["0989"]));
    let prefixes = registry.tnt_prefixes();
    assert!(
        prefixes.contains(&"0989".to_string()),
        "Prefix 0989 should be in the list"
    );
}

#[test]
fn lib_test_append_dito_prefix() {
    let mut registry = Registry::new();
    reset_dito_prefixes(&mut registry);
    append_dito_prefixes(&mut registry, &strings(&["0895", "0896"]));

    append_dito_prefix(&mut registry, "0991".to_string());
    let prefixes = registry.dito_prefixes();
    assert!(
        prefixes.contains(&"0991".to_string()),
        "Prefix 0991 should be in the list"
    );
}

#[test]
fn lib_test_append_globe_prefix() {
    let mut registry = Registry::new();
    reset_globe_prefixes(&mut registry);
    append_globe_prefixes(&mut registry, &strings(&["0817", "0905"]));

    append_globe_prefix(&mut registry, "0912".to_string());
    let prefixes = registry.globe_prefixes();
    assert!(
        prefixes.contains(&"0912".to_string()),
        "Prefix 0912 should be in the list"
    );
}

#[test]
fn lib_test_append_smart_prefix() {
    let mut registry = Registry::new();
    reset_smart_prefixes(&mut registry);
    append_smart_prefixes(&mut registry, &strings(&["0908", "0919"]));

    append_smart_prefix(&mut registry, "0999".to_string());
    let prefixes = registry.smart_prefixes();
    assert!(
        prefixes.contains(&"0999".to_string()),
        "Prefix 0999 should be in the list"
    );
}

#[test]
fn lib_test_append_sun_prefix() {
    let mut registry = Registry::new();
    reset_sun_prefixes(&mut registry);
    append_sun_prefixes(&mut registry, &strings(&["0922", "0923"]));

    append_sun_prefix(&mut registry, "0943".to_string());
    let prefixes = registry.sun_prefixes();
    assert!(
        prefixes.contains(&"0943".to_string()),
        "Prefix 0943 should be in the list"
    );
}

#[test]
fn lib_test_append_tnt_prefix() {
    let mut registry = Registry::new();
    reset_tnt_prefixes(&mut registry);
    append_tnt_prefixes(&mut registry, &strings(&["0907", "0912"]));

    append_tnt_prefix(&mut registry, "0989".to_string());
    let prefixes = registry.tnt_prefixes();
    assert!(
        prefixes.contains(&"0989".to_string()),
        "Prefix 0989 should be in the list"
    );
}
