use ph_mobile_network::mutate::{
    append_dito_prefixes, append_globe_prefixes, append_smart_prefixes, append_sun_prefixes,
    append_tnt_prefixes, reset_dito_prefixes, reset_globe_prefixes, reset_smart_prefixes,
    reset_sun_prefixes, reset_tnt_prefixes,
};
use ph_mobile_network::registry::Registry;

fn strings(items: &[&str]) -> Vec<String> {
    items.iter().map(|s| s.to_string()).collect()
}

fn setup() -> Registry {
    let mut registry = Registry::new();
    reset_globe_prefixes(&mut registry);
    reset_dito_prefixes(&mut registry);
    reset_smart_prefixes(&mut registry);
    reset_sun_prefixes(&mut registry);
    reset_tnt_prefixes(&mut registry);
    registry
}

#[test]
fn reset_dito_prefixes_should_return_empty() {
    let mut registry = Registry::new();
    reset_dito_prefixes(&mut registry);
    let prefixes = registry.dito_prefixes();
    assert!(prefixes.is_empty());
}

#[test]
fn reset_globe_prefixes_should_return_empty() {
    let mut registry = Registry::new();
    reset_globe_prefixes(&mut registry);
    let prefixes = registry.globe_prefixes();
    assert!(prefixes.is_empty());
}

#[test]
fn reset_smart_prefixes_should_return_empty() {
    let mut registry = Registry::new();
    reset_smart_prefixes(&mut registry);
    let prefixes = registry.smart_prefixes();
    assert!(prefixes.is_empty());
}

#[test]
fn reset_sun_prefixes_should_return_empty() {
    let mut registry = Registry::new();
    reset_sun_prefixes(&mut registry);
    let prefixes = registry.sun_prefixes();
    assert!(prefixes.is_empty());
}

#[test]
fn reset_tnt_prefixes_should_return_empty() {
    let registry = setup();
    let prefixes = registry.tnt_prefixes();
    assert!(prefixes.is_empty());
}

#[test]
fn append_globe_prefixes_should_contain_prefixes() {
    let mut registry = setup();
    append_globe_prefixes(&mut registry, &strings(&["0917", "0925"]));
    let prefixes = registry.globe_prefixes();
    assert!(prefixes.len() == 2);
    assert!(
        prefixes.contains(&"0917".to_string()) && prefixes.contains(&"0925".to_string())
    );
}

#[test]
fn append_dito_prefixes_should_contain_prefixes() {
    let mut registry = setup();
    append_dito_prefixes(&mut registry, &strings(&["0897", "0898"]));
    let prefixes = registry.dito_prefixes();
    assert!(prefixes.len() == 2);
    assert!(
        prefixes.contains(&"0897".to_string()) && prefixes.contains(&"0898".to_string())
    );
}

#[test]
fn append_smart_prefixes_should_contain_prefixes() {
    let mut registry = setup();
    append_smart_prefixes(&mut registry, &strings(&["0912", "0918"]));
    let prefixes = registry.smart_prefixes();
    assert!(prefixes.len() == 2);
    assert!(
        prefixes.contains(&"0912".to_string()) && prefixes.contains(&"0918".to_string())
    );
}

#[test]
fn append_sun_prefixes_should_contain_prefixes() {
    let mut registry = setup();
    append_sun_prefixes(&mut registry, &strings(&["0922", "0933"]));
    let prefixes = registry.sun_prefixes();
    assert!(prefixes.len() == 2);
    assert!(
        prefixes.contains(&"0922".to_string()) && prefixes.contains(&"0933".to_string())
    );
}

#[test]
fn append_tnt_prefixes_should_contain_prefixes() {
    let mut registry = setup();
    append_tnt_prefixes(&mut registry, &strings(&["0910", "0911"]));
    let prefixes = registry.tnt_prefixes();
    assert!(prefixes.len() == 2);
    assert!(
        prefixes.contains(&"0910".to_string()) && prefixes.contains(&"0911".to_string())
    );
}
