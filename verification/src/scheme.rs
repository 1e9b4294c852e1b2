use vstd::prelude::*;
use crate::resolve::is_guid_shaped;
use crate::resolve::unalias;
use crate::resolve::unalias_v;
use crate::service::PowerSource;
use crate::service::ServiceCall;
use crate::service::ServiceReply;
use crate::service::CallV;

verus! {

/// The OS-recognized pseudo-identifiers: the currently active scheme, the
/// balanced scheme, and the minimal and maximal energy-saving schemes
/// (minimal saving meaning maximum performance).
#[derive(Clone, Copy, PartialEq, Eq, Structural, Debug)]
pub enum KnownPowerSchemes {
    Active,
    Balanced,
    Min,
    Max,
}

/// The fixed OS alias string each pseudo-identifier maps to.
pub open spec fn spec_alias(k: KnownPowerSchemes) -> Seq<char> {
    match k {
        KnownPowerSchemes::Active => "scheme_current"@,
        KnownPowerSchemes::Balanced => "scheme_balanced"@,
        KnownPowerSchemes::Min => "scheme_min"@,
        KnownPowerSchemes::Max => "scheme_max"@,
    }
}

impl KnownPowerSchemes {
    /// The OS alias string for this pseudo-identifier.
    pub fn alias(&self) -> (r: &'static str)
        ensures
            r@ == spec_alias(*self),
    {
        match *self {
            KnownPowerSchemes::Active => "scheme_current",
            KnownPowerSchemes::Balanced => "scheme_balanced",
            KnownPowerSchemes::Min => "scheme_min",
            KnownPowerSchemes::Max => "scheme_max",
        }
    }
}

/// A handle to one OS power scheme, held by its canonical identifier. The
/// handle itself carries no other state: every operation is one service
/// invocation against this identifier.
#[derive(Debug)]
pub struct PowerScheme {
    guid: String,
}

impl View for PowerScheme {
    type V = Seq<char>;

    closed spec fn view(&self) -> Seq<char> {
        self.guid@
    }
}

impl Clone for PowerScheme {
    fn clone(&self) -> (r: Self)
        ensures
            r@ == self@,
    {
        PowerScheme { guid: self.guid.clone() }
    }
}

impl PowerScheme {
    /// The identifier is a canonical one: it came from the resolver or was
    /// chosen as a well-formed target of a duplication.
    pub open spec fn wf(&self) -> bool {
        is_guid_shaped(self@)
    }

    /// The canonical identifier this handle is bound to.
    pub fn guid(&self) -> (r: &str)
        ensures
            r@ == self@,
    {
        self.guid.as_str()
    }

    /// Interprets the reply to a `Query` for an alias or identifier: a
    /// handle bound to the canonical identifier the reply names, or nothing
    /// when the query failed or named none.
    pub fn get(reply: &ServiceReply) -> (r: Option<PowerScheme>)
        ensures
            (r is Some) == (unalias_v(reply@) is Some),
            r matches Some(p) ==> p@ == unalias_v(reply@)->0 && p.wf(),
            !reply.success ==> r is None,
    {
        match unalias(reply) {
            Some(guid) => Some(PowerScheme { guid }),
            None => None,
        }
    }

    /// The request that clones this scheme's full settings under the
    /// caller-chosen identifier `guid`, paired with the handle that is bound
    /// to `guid` once the service reports success. The source scheme is
    /// untouched.
    pub fn duplicate(&self, guid: &str) -> (r: (ServiceCall, PowerScheme))
        requires
            is_guid_shaped(guid@),
        ensures
            r.0@ == (CallV::Duplicate { source: self@, target: guid@ }),
            r.1@ == guid@,
            r.1.wf(),
    {
        let call = ServiceCall::Duplicate { source: self.guid.clone(), target: guid.to_owned() };
        (call, PowerScheme { guid: guid.to_owned() })
    }

    /// The request that sets this scheme's display name and description.
    pub fn change_name(&self, name: &str, description: &str) -> (r: ServiceCall)
        ensures
            r@ == (CallV::ChangeName {
                target: self@,
                name: name@,
                description: description@,
            }),
    {
        ServiceCall::ChangeName {
            target: self.guid.clone(),
            name: name.to_owned(),
            description: description.to_owned(),
        }
    }

    /// The request that writes the scalar `idx` into the setting
    /// `sub_guid`/`setting` of this scheme, in the AC or DC table as `src`
    /// selects.
    pub fn set_value_index(&self, src: PowerSource, sub_guid: &str, setting: &str, idx: u32) -> (r:
        ServiceCall)
        ensures
            r@ == (CallV::SetValue {
                target: self@,
                source: src,
                subgroup: sub_guid@,
                setting: setting@,
                value: idx,
            }),
    {
        ServiceCall::SetValue {
            target: self.guid.clone(),
            source: src,
            subgroup: sub_guid.to_owned(),
            setting: setting.to_owned(),
            value: idx,
        }
    }

    /// The request that makes this scheme the OS's currently active scheme.
    pub fn activate(&self) -> (r: ServiceCall)
        ensures
            r@ == (CallV::SetActive { target: self@ }),
    {
        ServiceCall::SetActive { target: self.guid.clone() }
    }
}

} // verus!
