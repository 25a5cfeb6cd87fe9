
use safe_kill::config::{AllowedPorts, Config, PortRange, ProcessList};
use safe_kill::error::SafeKillError;

// Config structure tests
#[test]
fn test_config_default() {
    let config = Config::default();
    assert!(config.allowlist.is_none());
    assert!(config.denylist.is_none());
}

#[test]
fn test_config_with_defaults() {
    let config = Config::with_defaults();
    assert!(config.allowlist.is_none());
    assert!(config.denylist.is_some());
    assert!(!config.denylist.as_ref().unwrap().processes.is_empty());
    // allowed_ports is None by default (port killing disabled unless configured)
    assert!(config.allowed_ports.is_none());
}

// Default denylist tests
#[test]
fn test_default_denylist_not_empty() {
    let denylist = Config::default_denylist();
    assert!(!denylist.is_empty());
}

#[test]
fn test_default_denylist_linux() {
    let denylist = Config::default_denylist();
    assert!(denylist.contains(&"systemd".to_string()));
    assert!(denylist.contains(&"init".to_string()));
}

// Config path tests
#[test]
fn test_is_allowed_with_allowlist() {
    let config = Config {
        allowlist: Some(ProcessList {
            processes: vec!["node".to_string(), "npm".to_string()],
        }),
        denylist: None,
        allowed_ports: None,
    };
    assert!(config.is_allowed("node"));
    assert!(config.is_allowed("npm"));
    assert!(!config.is_allowed("python"));
}

#[test]
fn test_is_allowed_without_allowlist() {
    let config = Config {
        allowlist: None,
        denylist: None,
        allowed_ports: None,
    };
    assert!(!config.is_allowed("node"));
    assert!(!config.is_allowed("anything"));
}

// is_denied tests
#[test]
fn test_is_denied_with_denylist() {
    let config = Config {
        allowlist: None,
        denylist: Some(ProcessList {
            processes: vec!["systemd".to_string(), "launchd".to_string()],
        }),
        allowed_ports: None,
    };
    assert!(config.is_denied("systemd"));
    assert!(config.is_denied("launchd"));
    assert!(!config.is_denied("node"));
}

#[test]
fn test_is_denied_without_denylist() {
    let config = Config {
        allowlist: None,
        denylist: None,
        allowed_ports: None,
    };
    assert!(!config.is_denied("systemd"));
    assert!(!config.is_denied("anything"));
}

// Clone and equality tests
#[test]
fn test_config_clone() {
    let config = Config {
        allowlist: Some(ProcessList {
            processes: vec!["node".to_string()],
        }),
        denylist: Some(ProcessList {
            processes: vec!["systemd".to_string()],
        }),
        allowed_ports: None,
    };
    let cloned = config.clone();
    assert_eq!(config, cloned);
}

#[test]
fn test_process_list_clone() {
    let list = ProcessList {
        processes: vec!["a".to_string(), "b".to_string()],
    };
    let cloned = list.clone();
    assert_eq!(list, cloned);
}

// Debug tests
#[test]
fn test_config_debug() {
    let config = Config::default();
    let debug_str = format!("{:?}", config);
    assert!(debug_str.contains("Config"));
}

#[test]
fn test_process_list_debug() {
    let list = ProcessList {
        processes: vec!["test".to_string()],
    };
    let debug_str = format!("{:?}", list);
    assert!(debug_str.contains("ProcessList"));
    assert!(debug_str.contains("test"));
}

// PortRange tests
#[test]
fn test_port_range_parse_single() {
    let range = PortRange::parse("3306").unwrap();
    assert_eq!(range, PortRange::Single(3306));
}

#[test]
fn test_port_range_parse_range() {
    let range = PortRange::parse("3000-3100").unwrap();
    assert_eq!(
        range,
        PortRange::Range {
            start: 3000,
            end: 3100
        }
    );
}

#[test]
fn test_port_range_parse_with_spaces() {
    let range = PortRange::parse(" 3000 - 3100 ").unwrap();
    assert_eq!(
        range,
        PortRange::Range {
            start: 3000,
            end: 3100
        }
    );
}

#[test]
fn test_port_range_parse_invalid() {
    assert!(PortRange::parse("abc").is_err());
    assert!(PortRange::parse("123-abc").is_err());
    assert!(PortRange::parse("abc-456").is_err());
    assert!(PortRange::parse("100-50").is_err()); // start > end
    assert!(PortRange::parse("1-2-3").is_err());
}

#[test]
fn test_port_range_contains_single() {
    let range = PortRange::Single(3306);
    assert!(range.contains(3306));
    assert!(!range.contains(3307));
}

#[test]
fn test_port_range_contains_range() {
    let range = PortRange::Range {
        start: 3000,
        end: 3100,
    };
    assert!(range.contains(3000));
    assert!(range.contains(3050));
    assert!(range.contains(3100));
    assert!(!range.contains(2999));
    assert!(!range.contains(3101));
}

// is_port_allowed tests
#[test]
fn test_is_port_allowed_no_config() {
    let config = Config {
        allowlist: None,
        denylist: None,
        allowed_ports: None,
    };
    // No allowed_ports configuration means port killing is disabled
    // All ports return false
    assert!(!config.is_port_allowed(1420));
    assert!(!config.is_port_allowed(3000));
    assert!(!config.is_port_allowed(3005));
    assert!(!config.is_port_allowed(8080));
    assert!(!config.is_port_allowed(22));
    assert!(!config.is_port_allowed(3306));
}

#[test]
fn test_is_port_allowed_with_single_port() {
    let config = Config {
        allowlist: None,
        denylist: None,
        allowed_ports: Some(AllowedPorts {
            ports: vec!["3306".to_string()],
        }),
    };
    assert!(config.is_port_allowed(3306));
    assert!(!config.is_port_allowed(3307));
    assert!(!config.is_port_allowed(22));
}

#[test]
fn test_is_port_allowed_with_range() {
    let config = Config {
        allowlist: None,
        denylist: None,
        allowed_ports: Some(AllowedPorts {
            ports: vec!["3000-3100".to_string()],
        }),
    };
    assert!(config.is_port_allowed(3000));
    assert!(config.is_port_allowed(3050));
    assert!(config.is_port_allowed(3100));
    assert!(!config.is_port_allowed(2999));
    assert!(!config.is_port_allowed(3101));
}

#[test]
fn test_is_port_allowed_with_mixed() {
    let config = Config {
        allowlist: None,
        denylist: None,
        allowed_ports: Some(AllowedPorts {
            ports: vec![
                "3000-3100".to_string(),
                "3306".to_string(),
                "5432".to_string(),
            ],
        }),
    };
    assert!(config.is_port_allowed(3050)); // In range
    assert!(config.is_port_allowed(3306)); // Single
    assert!(config.is_port_allowed(5432)); // Single
    assert!(!config.is_port_allowed(22)); // Not allowed
}

#[test]
fn test_get_port_ranges() {
    let config = Config {
        allowlist: None,
        denylist: None,
        allowed_ports: Some(AllowedPorts {
            ports: vec!["3000-3100".to_string(), "3306".to_string()],
        }),
    };
    let ranges = config.get_port_ranges();
    assert_eq!(ranges.len(), 2);
}

#[test]
fn test_get_port_ranges_empty() {
    let config = Config {
        allowlist: None,
        denylist: None,
        allowed_ports: None,
    };
    let ranges = config.get_port_ranges();
    assert!(ranges.is_empty());
}

// port_not_allowed_hint tests
#[test]
fn test_port_not_allowed_hint_with_config() {
    let config = Config {
        allowlist: None,
        denylist: None,
        allowed_ports: Some(AllowedPorts {
            ports: vec!["3000-3100".to_string()],
        }),
    };
    let hint = config.port_not_allowed_hint(22);
    assert!(hint.contains("22"));
    assert!(hint.contains("[allowed_ports]"));
    assert!(hint.contains("config.toml"));
}

#[test]
fn test_port_not_allowed_hint_includes_port_number() {
    let config = Config {
        allowlist: None,
        denylist: None,
        allowed_ports: Some(AllowedPorts {
            ports: vec!["8080".to_string()],
        }),
    };
    let hint = config.port_not_allowed_hint(3306);
    assert!(hint.contains("3306"));
}

// check_port_allowed tests
#[test]
fn test_check_port_allowed_no_config_all_fail() {
    let config = Config {
        allowlist: None,
        denylist: None,
        allowed_ports: None,
    };
    // No allowed_ports configuration means all port checks fail
    assert!(config.check_port_allowed(1420).is_err());
    assert!(config.check_port_allowed(3000).is_err());
    assert!(config.check_port_allowed(8080).is_err());
    assert!(config.check_port_allowed(22).is_err());
    assert!(config.check_port_allowed(3306).is_err());
}

#[test]
fn test_check_port_allowed_success_in_list() {
    let config = Config {
        allowlist: None,
        denylist: None,
        allowed_ports: Some(AllowedPorts {
            ports: vec!["3000-3100".to_string(), "3306".to_string()],
        }),
    };
    assert!(config.check_port_allowed(3050).is_ok());
    assert!(config.check_port_allowed(3306).is_ok());
}

#[test]
fn test_check_port_allowed_failure() {
    let config = Config {
        allowlist: None,
        denylist: None,
        allowed_ports: Some(AllowedPorts {
            ports: vec!["3000-3100".to_string()],
        }),
    };
    let result = config.check_port_allowed(22);
    assert!(result.is_err());
    match result {
        Err(SafeKillError::PortNotAllowed { port, hint }) => {
            assert_eq!(port, 22);
            assert!(hint.contains("22"));
        }
        _ => panic!("Expected PortNotAllowed error"),
    }
}

#[test]
fn test_port_range_bounds() {
    let range = PortRange::parse("3000-3100").unwrap();
    assert!(range.contains(3000));
    assert!(range.contains(3100));
    assert!(!range.contains(2999));
    assert!(!range.contains(3101));
}

#[test]
fn test_port_range_parse_errors_carry_trimmed_text() {
    match PortRange::parse("  100-50 ") {
        Err(SafeKillError::InvalidPortRange(s)) => assert_eq!(s, "100-50"),
        _ => panic!("Expected InvalidPortRange"),
    }
    match PortRange::parse("abc") {
        Err(SafeKillError::InvalidPortRange(s)) => assert_eq!(s, "abc"),
        _ => panic!("Expected InvalidPortRange"),
    }
}

#[test]
fn test_port_range_parse_edge_cases() {
    assert_eq!(PortRange::parse("0").unwrap(), PortRange::Single(0));
    assert_eq!(PortRange::parse("65535").unwrap(), PortRange::Single(65535));
    assert!(PortRange::parse("65536").is_err());
    assert!(PortRange::parse("").is_err());
    assert!(PortRange::parse("-").is_err());
    assert!(PortRange::parse("-80").is_err());
    assert!(PortRange::parse("80-").is_err());
    assert_eq!(PortRange::parse("+80").unwrap(), PortRange::Single(80));
    assert_eq!(
        PortRange::parse("7-7").unwrap(),
        PortRange::Range { start: 7, end: 7 }
    );
    assert!(PortRange::parse("8 0").is_err());
}

#[test]
fn test_get_port_ranges_skips_invalid() {
    let config = Config {
        allowlist: None,
        denylist: None,
        allowed_ports: Some(AllowedPorts {
            ports: vec![
                "bad".to_string(),
                "8080".to_string(),
                "9-1".to_string(),
                "1-2".to_string(),
            ],
        }),
    };
    let ranges = config.get_port_ranges();
    assert_eq!(
        ranges,
        vec![PortRange::Single(8080), PortRange::Range { start: 1, end: 2 }]
    );
    assert!(!config.is_port_allowed(9));
    assert!(config.is_port_allowed(2));
}

#[test]
fn test_port_not_allowed_hint_exact() {
    let config = Config::default();
    assert_eq!(
        config.port_not_allowed_hint(8080),
        "Add 8080 to [allowed_ports] in config.toml or run 'safe-kill init' to create a config file"
    );
}

#[test]
fn test_default_denylist_exact() {
    assert_eq!(
        Config::default_denylist(),
        vec!["systemd", "init", "kthreadd", "dbus-daemon", "gnome-shell", "Xorg", "sshd"]
    );
}

#[test]
fn test_default_allowed_ports_exact() {
    assert_eq!(Config::default_allowed_ports(), vec!["1420", "3000-3010", "8080"]);
}

#[test]
fn test_merge_defaults_fills_missing_denylist() {
    let mut config = Config {
        allowlist: Some(ProcessList { processes: vec!["node".to_string()] }),
        denylist: None,
        allowed_ports: None,
    };
    config.merge_defaults();
    assert!(config.is_allowed("node"));
    assert!(config.is_denied("systemd"));
    assert!(config.allowed_ports.is_none());
}

#[test]
fn test_merge_defaults_keeps_given_denylist() {
    let mut config = Config {
        allowlist: None,
        denylist: Some(ProcessList { processes: vec!["postgres".to_string()] }),
        allowed_ports: None,
    };
    config.merge_defaults();
    assert!(config.is_denied("postgres"));
    assert!(!config.is_denied("systemd"));
}

#[test]
fn test_config_denylist_precedence_over_allowlist() {
    let config = Config {
        allowlist: Some(ProcessList {
            processes: vec!["conflict".to_string()],
        }),
        denylist: Some(ProcessList {
            processes: vec!["conflict".to_string()],
        }),
        allowed_ports: None,
    };

    // Denylist takes precedence
    assert!(config.is_denied("conflict"));
    // Even though it's in allowlist, denylist check comes first
}
