use industruino::configuration::{parse_config, Arguments};

fn given() -> Arguments {
    Arguments {
        name: Some("simulator".to_string()),
        hostname: Some("broker.local".to_string()),
        port: Some("1883".to_string()),
        secret_token: Some("SECRET-REDACTED".to_string()),
        temperatures: Some(vec!["temp1".to_string(), "temp2".to_string()]),
    }
}

#[test]
fn a_configuration_holds_the_values_as_given() {
    assert!(given().is_complete());
    let config = parse_config(given()).unwrap();
    assert_eq!(config.name, "simulator");
    assert_eq!(config.hostname, "broker.local");
    assert_eq!(config.port, 1883);
    assert_eq!(config.secret_token, "SECRET-REDACTED");
    assert_eq!(config.temperatures, vec!["temp1".to_string(), "temp2".to_string()]);
}

#[test]
fn a_configuration_may_hold_no_sensor() {
    let args = Arguments { temperatures: Some(Vec::new()), ..given() };
    assert!(args.is_complete());
    let config = parse_config(args).unwrap();
    assert!(config.temperatures.is_empty());
}

#[test]
fn the_port_is_read_as_a_number_of_16_bits() {
    for (text, port) in [("0", 0u16), ("+443", 443), ("08883", 8883), ("65535", 65535)] {
        let args = Arguments { port: Some(text.to_string()), ..given() };
        assert!(args.is_complete());
        assert_eq!(parse_config(args).unwrap().port, port);
    }
}

#[test]
fn a_port_that_is_no_number_makes_no_configuration() {
    for text in ["", "mqtt", "65536", "-1", "1883 ", "18.83"] {
        let args = Arguments { port: Some(text.to_string()), ..given() };
        assert!(!args.is_complete());
    }
}

#[test]
fn a_missing_value_makes_no_configuration() {
    assert!(!Arguments { name: None, ..given() }.is_complete());
    assert!(!Arguments { hostname: None, ..given() }.is_complete());
    assert!(!Arguments { port: None, ..given() }.is_complete());
    assert!(!Arguments { secret_token: None, ..given() }.is_complete());
    assert!(!Arguments { temperatures: None, ..given() }.is_complete());
}

#[test]
fn a_configuration_can_be_copied() {
    let config = parse_config(given()).unwrap();
    let copy = config.clone();
    assert_eq!(copy.name, config.name);
    assert_eq!(copy.hostname, config.hostname);
    assert_eq!(copy.port, config.port);
    assert_eq!(copy.secret_token, config.secret_token);
    assert_eq!(copy.temperatures, config.temperatures);
}
