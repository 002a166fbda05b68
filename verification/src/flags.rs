//! The four policy settings of a joined network and the rule that toggles one.

use vstd::prelude::*;

verus! {

/// Names one of the four policy settings of a joined network.
#[derive(Clone, Copy, Debug, PartialEq, Eq, Structural)]
pub enum NetworkFlag {
    AllowDNS,
    AllowGlobal,
    AllowManaged,
    AllowDefault,
}

/// The value a setting takes when it is toggled.
///
/// A setting that was never configured counts as on, so its first toggle
/// turns it explicitly off. A configured setting flips.
pub open spec fn toggled(value: Option<bool>) -> Option<bool> {
    match value {
        Some(on) => Some(!on),
        None => Some(false),
    }
}

/// Computes the value a setting takes when it is toggled.
pub fn toggle(value: Option<bool>) -> (next: Option<bool>)
    ensures
        next == toggled(value),
{
    match value {
        Some(on) => Some(!on),
        None => Some(false),
    }
}

/// The policy settings of one network as the local agent holds them.
/// `None` is a setting that was never configured.
#[derive(Clone, Copy, Debug, PartialEq, Eq, Structural)]
pub struct NetworkFlags {
    pub allow_default: Option<bool>,
    pub allow_dns: Option<bool>,
    pub allow_global: Option<bool>,
    pub allow_managed: Option<bool>,
}

impl NetworkFlags {
    /// The settings of a network on which nothing was ever configured.
    pub open spec fn unset() -> NetworkFlags {
        NetworkFlags {
            allow_default: None,
            allow_dns: None,
            allow_global: None,
            allow_managed: None,
        }
    }

    /// The value of the setting that `flag` names.
    pub open spec fn value_of(self, flag: NetworkFlag) -> Option<bool> {
        match flag {
            NetworkFlag::AllowDNS => self.allow_dns,
            NetworkFlag::AllowGlobal => self.allow_global,
            NetworkFlag::AllowManaged => self.allow_managed,
            NetworkFlag::AllowDefault => self.allow_default,
        }
    }

    /// These settings with the one that `flag` names replaced by `value`.
    pub open spec fn with_value(self, flag: NetworkFlag, value: Option<bool>) -> NetworkFlags {
        match flag {
            NetworkFlag::AllowDNS => NetworkFlags { allow_dns: value, ..self },
            NetworkFlag::AllowGlobal => NetworkFlags { allow_global: value, ..self },
            NetworkFlag::AllowManaged => NetworkFlags { allow_managed: value, ..self },
            NetworkFlag::AllowDefault => NetworkFlags { allow_default: value, ..self },
        }
    }

    /// These settings after the one that `flag` names was toggled.
    pub open spec fn with_toggled(self, flag: NetworkFlag) -> NetworkFlags {
        self.with_value(flag, toggled(self.value_of(flag)))
    }

    /// Settings on which nothing is configured.
    pub fn new() -> (flags: NetworkFlags)
        ensures
            flags == NetworkFlags::unset(),
    {
        NetworkFlags { allow_default: None, allow_dns: None, allow_global: None, allow_managed: None }
    }

    /// Reads the setting that `flag` names.
    pub fn get(&self, flag: NetworkFlag) -> (value: Option<bool>)
        ensures
            value == self.value_of(flag),
    {
        match flag {
            NetworkFlag::AllowDNS => self.allow_dns,
            NetworkFlag::AllowGlobal => self.allow_global,
            NetworkFlag::AllowManaged => self.allow_managed,
            NetworkFlag::AllowDefault => self.allow_default,
        }
    }

    /// Replaces the setting that `flag` names and leaves the other three alone.
    pub fn set(&mut self, flag: NetworkFlag, value: Option<bool>)
        ensures
            *final(self) == old(self).with_value(flag, value),
    {
        match flag {
            NetworkFlag::AllowDNS => {
                self.allow_dns = value;
            },
            NetworkFlag::AllowGlobal => {
                self.allow_global = value;
            },
            NetworkFlag::AllowManaged => {
                self.allow_managed = value;
            },
            NetworkFlag::AllowDefault => {
                self.allow_default = value;
            },
        }
    }

    /// Toggles the setting that `flag` names and leaves the other three alone.
    pub fn toggle(&mut self, flag: NetworkFlag)
        ensures
            *final(self) == old(self).with_toggled(flag),
    {
        let next = toggle(self.get(flag));
        self.set(flag, next);
    }
}

/// Toggling a setting that was never configured turns it off, whichever of
/// the four it is, and touches no other setting.
pub proof fn toggle_of_unset_is_off(flags: NetworkFlags, flag: NetworkFlag)
    requires
        flags.value_of(flag) is None,
    ensures
        flags.with_toggled(flag).value_of(flag) == Some(false),
        forall|other: NetworkFlag|
            other != flag ==> #[trigger] flags.with_toggled(flag).value_of(other)
                == flags.value_of(other),
{
}

/// Toggling a configured setting flips it, whichever of the four it is, and
/// touches no other setting.
pub proof fn toggle_of_configured_flips(flags: NetworkFlags, flag: NetworkFlag, on: bool)
    requires
        flags.value_of(flag) == Some(on),
    ensures
        flags.with_toggled(flag).value_of(flag) == Some(!on),
        forall|other: NetworkFlag|
            other != flag ==> #[trigger] flags.with_toggled(flag).value_of(other)
                == flags.value_of(other),
{
}

/// Toggling a configured setting twice gives back the settings one started
/// from.
pub proof fn double_toggle_restores(flags: NetworkFlags, flag: NetworkFlag)
    requires
        flags.value_of(flag) is Some,
    ensures
        flags.with_toggled(flag).with_toggled(flag) == flags,
{
}

/// A setting that was toggled is configured, so from then on two more
/// toggles give back what there was.
pub proof fn toggled_is_configured(flags: NetworkFlags, flag: NetworkFlag)
    ensures
        flags.with_toggled(flag).value_of(flag) is Some,
        flags.with_toggled(flag).with_toggled(flag).with_toggled(flag) == flags.with_toggled(flag),
{
}

} // verus!
