use foc_ctrl::cmd::CmdMap;
use foc_ctrl::cmd::UNKNOWN_ID;

const TABLE: [(&str, u8); 35] = [
    ("enable", 1),
    ("target", 2),
    ("loop_mode", 3),
    ("voltage_limit", 4),
    ("voltage_power", 5),
    ("velocity_limit", 6),
    ("torque_limit", 7),
    ("torque_p", 11),
    ("torque_i", 12),
    ("torque_d", 13),
    ("torque_ramp", 14),
    ("torque_tf", 15),
    ("velocity_p", 21),
    ("velocity_i", 22),
    ("velocity_d", 23),
    ("velocity_ramp", 24),
    ("velocity_tf", 25),
    ("position_p", 31),
    ("position_i", 32),
    ("position_d", 33),
    ("position_ramp", 34),
    ("position_tf", 35),
    ("conf_base", 100),
    ("conf_velocity", 101),
    ("conf_position", 102),
    ("conf_torque", 103),
    ("conf_torque_pid", 104),
    ("conf_velocity_pid", 105),
    ("conf_position_pid", 106),
    ("conf_limit", 107),
    ("conf_voltage_offset", 108),
    ("stream_states", 150),
    ("stream_q", 151),
    ("stream_current", 152),
    ("stream_time", 153),
];

#[test]
fn every_name_resolves_to_its_identifier() {
    let mut registry = CmdMap::new();
    for (name, id) in TABLE.iter() {
        assert_eq!(registry.key2id(name), *id, "{}", name);
    }
}

#[test]
fn registry_holds_the_table_and_nothing_else() {
    let registry = CmdMap::new();
    assert_eq!(registry.map.len(), 35);
    for (entry, (name, id)) in registry.map.iter().zip(TABLE.iter()) {
        assert_eq!(entry.0, *name);
        assert_eq!(entry.1, *id);
    }
}

#[test]
fn unknown_names_resolve_to_zero() {
    let mut registry = CmdMap::new();
    assert_eq!(UNKNOWN_ID, 0);
    assert_eq!(registry.key2id(""), 0);
    assert_eq!(registry.key2id("Enable"), 0);
    assert_eq!(registry.key2id("enable "), 0);
    assert_eq!(registry.key2id("stream"), 0);
    assert_eq!(registry.key2id("stream_debug"), 0);
    assert_eq!(registry.key2id("loop_sleep_ms"), 0);
    assert_eq!(registry.key2id("torque_\u{e9}"), 0);
}

#[test]
fn lookups_are_repeatable_and_leave_the_registry_alone() {
    let mut registry = CmdMap::new();
    let before = registry.map.clone();
    for _ in 0..3 {
        assert_eq!(registry.key2id("velocity_limit"), 6);
        assert_eq!(registry.key2id("no_such_key"), 0);
    }
    assert_eq!(registry.map, before);
    let mut other = CmdMap::new();
    assert_eq!(other.key2id("velocity_limit"), registry.key2id("velocity_limit"));
}

#[test]
fn first_entry_of_a_name_wins() {
    let mut registry = CmdMap {
        map: vec![("a".to_string(), 9), ("b".to_string(), 8), ("a".to_string(), 7)],
    };
    assert_eq!(registry.key2id("a"), 9);
    assert_eq!(registry.key2id("b"), 8);
    assert_eq!(registry.key2id("c"), 0);
    let mut empty = CmdMap { map: Vec::new() };
    assert_eq!(empty.key2id("enable"), 0);
}
