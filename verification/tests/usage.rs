use upsctl::failure::Failure;
use upsctl::usage::UsageType;

#[test]
fn voltage_in_synonyms_resolve() {
    assert_eq!(UsageType::from_str("vin"), Ok(UsageType::VoltageIn));
    assert_eq!(UsageType::from_str("volt_in"), Ok(UsageType::VoltageIn));
    assert_eq!(UsageType::from_str("voltage_in"), Ok(UsageType::VoltageIn));
}

#[test]
fn voltage_out_synonyms_resolve() {
    assert_eq!(UsageType::from_str("vout"), Ok(UsageType::VoltageOut));
    assert_eq!(UsageType::from_str("volt_out"), Ok(UsageType::VoltageOut));
    assert_eq!(UsageType::from_str("voltage_out"), Ok(UsageType::VoltageOut));
}

#[test]
fn current_out_synonyms_resolve() {
    assert_eq!(UsageType::from_str("cout"), Ok(UsageType::CurrentOut));
    assert_eq!(UsageType::from_str("cur_out"), Ok(UsageType::CurrentOut));
    assert_eq!(UsageType::from_str("current_out"), Ok(UsageType::CurrentOut));
}

#[test]
fn power_synonyms_resolve() {
    assert_eq!(UsageType::from_str("pwr"), Ok(UsageType::Power));
    assert_eq!(UsageType::from_str("power"), Ok(UsageType::Power));
}

#[test]
fn unknown_tokens_are_rejected() {
    for token in ["", "voltage", "watts", "vin2", "vi", "input.voltage", "volt-in", "p"] {
        assert_eq!(UsageType::from_str(token), Err(Failure::InvalidUsageType), "{token:?}");
    }
}

#[test]
fn tokens_are_case_sensitive() {
    for token in ["VIN", "Vin", "Power", "PWR", "Voltage_In", "cOut"] {
        assert_eq!(UsageType::from_str(token), Err(Failure::InvalidUsageType), "{token:?}");
    }
}

#[test]
fn tokens_are_not_trimmed() {
    for token in [" vin", "vin ", "\tpower", "power\n", " cout "] {
        assert_eq!(UsageType::from_str(token), Err(Failure::InvalidUsageType), "{token:?}");
    }
}

#[test]
fn variable_names() {
    assert_eq!(UsageType::VoltageIn.var_name(), "input.voltage");
    assert_eq!(UsageType::VoltageOut.var_name(), "output.voltage");
    assert_eq!(UsageType::CurrentOut.var_name(), "output.current");
}

#[test]
fn power_has_no_variable_name() {
    assert_eq!(UsageType::Power.var_name(), "");
}

#[test]
fn variable_names_are_distinct() {
    let kinds = [UsageType::VoltageIn, UsageType::VoltageOut, UsageType::CurrentOut];
    for a in kinds {
        assert!(!a.var_name().is_empty());
        for b in kinds {
            assert_eq!(a.var_name() == b.var_name(), a == b);
        }
    }
}

#[test]
fn invalid_usage_type_message() {
    let failure = UsageType::from_str("amps").unwrap_err();
    assert_eq!(failure.message(), "Invalid usage type value.");
}
