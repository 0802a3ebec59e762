use std::collections::HashSet;

use aimcal_ical::property_spec::property_specs;

#[test]
fn test_unique_property_names() {
    let specs = property_specs();
    let names = specs.iter().map(|spec| spec.name).collect::<HashSet<_>>();

    assert_eq!(names.len(), specs.len(), "Property names should be unique");
}

#[test]
fn test_property_specs() {
    for spec in property_specs() {
        let name = spec.name;
        assert!(!name.is_empty(), "Property name should not be empty");
        assert!(
            name.chars().all(|a| a.is_ascii_uppercase()),
            "Property {name}: name should be uppercase ASCII"
        );
        assert!(
            spec.allowed_kinds.contains(&spec.default_kind),
            "Property {name}: default_kind should be in allowed_kinds"
        );
    }
}
