use zerotier_bridge::flags::{toggle, NetworkFlag, NetworkFlags};

const ALL_FLAGS: [NetworkFlag; 4] = [
    NetworkFlag::AllowDNS,
    NetworkFlag::AllowGlobal,
    NetworkFlag::AllowManaged,
    NetworkFlag::AllowDefault,
];

fn with_all(value: Option<bool>) -> NetworkFlags {
    NetworkFlags { allow_default: value, allow_dns: value, allow_global: value, allow_managed: value }
}

#[test]
fn toggle_rule_on_each_state() {
    assert_eq!(toggle(None), Some(false));
    assert_eq!(toggle(Some(true)), Some(false));
    assert_eq!(toggle(Some(false)), Some(true));
}

#[test]
fn new_flags_are_all_unset() {
    assert_eq!(NetworkFlags::new(), with_all(None));
}

#[test]
fn toggling_an_unset_flag_turns_it_off() {
    for flag in ALL_FLAGS {
        let mut flags = NetworkFlags::new();
        flags.toggle(flag);
        assert_eq!(flags.get(flag), Some(false));
    }
}

#[test]
fn toggling_an_unset_flag_does_not_turn_it_on() {
    for flag in ALL_FLAGS {
        let mut flags = NetworkFlags::new();
        flags.toggle(flag);
        assert_ne!(flags.get(flag), Some(true));
        assert_ne!(flags.get(flag), None);
    }
}

#[test]
fn toggling_a_configured_flag_flips_it() {
    for flag in ALL_FLAGS {
        let mut on = with_all(Some(true));
        on.toggle(flag);
        assert_eq!(on.get(flag), Some(false));

        let mut off = with_all(Some(false));
        off.toggle(flag);
        assert_eq!(off.get(flag), Some(true));
    }
}

#[test]
fn toggling_twice_restores_a_configured_flag() {
    for flag in ALL_FLAGS {
        for start in [Some(true), Some(false)] {
            let before = with_all(start);
            let mut flags = before;
            flags.toggle(flag);
            assert_ne!(flags, before);
            flags.toggle(flag);
            assert_eq!(flags, before);
        }
    }
}

#[test]
fn toggling_twice_from_unset_ends_on() {
    for flag in ALL_FLAGS {
        let mut flags = NetworkFlags::new();
        flags.toggle(flag);
        flags.toggle(flag);
        assert_eq!(flags.get(flag), Some(true));
    }
}

#[test]
fn toggling_leaves_the_other_flags_alone() {
    let before = NetworkFlags {
        allow_default: Some(true),
        allow_dns: None,
        allow_global: Some(false),
        allow_managed: None,
    };
    for flag in ALL_FLAGS {
        let mut flags = before;
        flags.toggle(flag);
        for other in ALL_FLAGS {
            if other != flag {
                assert_eq!(flags.get(other), before.get(other));
            }
        }
    }
}

#[test]
fn toggle_dns_touches_the_dns_field() {
    let mut flags = NetworkFlags::new();
    flags.toggle(NetworkFlag::AllowDNS);
    assert_eq!(
        flags,
        NetworkFlags { allow_default: None, allow_dns: Some(false), allow_global: None, allow_managed: None }
    );
}

#[test]
fn set_replaces_one_field() {
    let mut flags = NetworkFlags::new();
    flags.set(NetworkFlag::AllowGlobal, Some(true));
    assert_eq!(
        flags,
        NetworkFlags { allow_default: None, allow_dns: None, allow_global: Some(true), allow_managed: None }
    );
    flags.set(NetworkFlag::AllowManaged, Some(false));
    flags.set(NetworkFlag::AllowDefault, Some(true));
    flags.set(NetworkFlag::AllowGlobal, None);
    assert_eq!(
        flags,
        NetworkFlags {
            allow_default: Some(true),
            allow_dns: None,
            allow_global: None,
            allow_managed: Some(false),
        }
    );
}
