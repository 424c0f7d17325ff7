use nbody::simulate::ConfigError;
use nbody::units::WeightUnit;

#[test]
fn weight_unit_names() {
    assert_eq!(WeightUnit::Kilograms.name(), "Kilograms");
    assert_eq!(WeightUnit::Tonnes.name(), "Tonnes");
    assert_eq!(WeightUnit::SolarMasses.name(), "SolarMasses");
}

#[test]
fn weight_unit_default_is_kilograms() {
    assert_eq!(WeightUnit::default(), WeightUnit::Kilograms);
}

#[test]
fn weight_unit_is_read_from_its_keyword() {
    assert_eq!(WeightUnit::from_str("kilograms"), Ok(WeightUnit::Kilograms));
    assert_eq!(WeightUnit::from_str("tonnes"), Ok(WeightUnit::Tonnes));
    assert_eq!(WeightUnit::from_str("solar masses"), Ok(WeightUnit::SolarMasses));
}

#[test]
fn weight_unit_is_read_in_any_case() {
    assert_eq!(WeightUnit::from_str("KILOGRAMS"), Ok(WeightUnit::Kilograms));
    assert_eq!(WeightUnit::from_str("Tonnes"), Ok(WeightUnit::Tonnes));
    assert_eq!(WeightUnit::from_str("Solar Masses"), Ok(WeightUnit::SolarMasses));
    assert_eq!(WeightUnit::from_str("sOlAr mAsSeS"), Ok(WeightUnit::SolarMasses));
}

#[test]
fn weight_unit_refuses_other_words_and_quotes_them() {
    assert_eq!(
        WeightUnit::from_str("pounds"),
        Err("Unknown weight unit: pounds".to_string())
    );
    assert_eq!(
        WeightUnit::from_str("Pounds"),
        Err("Unknown weight unit: Pounds".to_string())
    );
    assert_eq!(WeightUnit::from_str(""), Err("Unknown weight unit: ".to_string()));
    assert_eq!(
        WeightUnit::from_str(" kilograms"),
        Err("Unknown weight unit:  kilograms".to_string())
    );
}

#[test]
fn weight_unit_display_name_of_solar_masses_is_no_keyword() {
    assert_eq!(
        WeightUnit::from_str("SolarMasses"),
        Err("Unknown weight unit: SolarMasses".to_string())
    );
    assert_eq!(
        WeightUnit::from_str(&WeightUnit::Kilograms.name()),
        Ok(WeightUnit::Kilograms)
    );
    assert_eq!(
        WeightUnit::from_str(&WeightUnit::Tonnes.name()),
        Ok(WeightUnit::Tonnes)
    );
}

#[test]
fn weight_unit_lowers_ascii_letters_only() {
    // U+212A, the Kelvin sign, has a lower-case form `k` but is no ASCII letter.
    assert_eq!(
        WeightUnit::from_str("\u{212A}ilograms"),
        Err("Unknown weight unit: \u{212A}ilograms".to_string())
    );
}

#[test]
fn config_errors_describe_themselves() {
    assert_eq!(
        ConfigError::InvalidTimeStep.message(),
        "the time step must be finite and nonzero"
    );
    assert_eq!(
        ConfigError::InvalidScale.message(),
        "the number of meters per pixel must be positive"
    );
}
