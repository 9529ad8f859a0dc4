use vstd::prelude::*;

use crate::config::Config;
use crate::config::spec_lookup;
use crate::device::AttachedDevices;
use crate::device::DeviceV;

verus! {

/// The display name a device ends up with under an override table: the
/// override keyed by its MAC if one exists, otherwise the override keyed by
/// its current display name, otherwise the name it already has. The MAC key
/// always wins; the name key is consulted only when no MAC key matches.
pub open spec fn resolved_name(d: DeviceV, overrides: Seq<(Seq<char>, Seq<char>)>) -> Seq<char> {
    match spec_lookup(overrides, d.mac) {
        Some(n) => n,
        None => match spec_lookup(overrides, d.name) {
            Some(n) => n,
            None => d.name,
        },
    }
}

/// A device after override resolution: the display name is rewritten, every
/// other field is untouched.
pub open spec fn resolved_device(d: DeviceV, overrides: Seq<(Seq<char>, Seq<char>)>) -> DeviceV {
    DeviceV { name: resolved_name(d, overrides), ..d }
}

/// Rewrites the display names of the client devices (not the satellites)
/// according to the configured overrides, in place.
pub fn resolve_overrides(response: &mut AttachedDevices, config: &Config)
    ensures
        final(response)@.satellites == old(response)@.satellites,
        final(response)@.devices.len() == old(response)@.devices.len(),
        forall|i: int|
            0 <= i < old(response)@.devices.len() ==> final(response)@.devices[i]
                == resolved_device(
                old(response)@.devices[i],
                config@.device_name_overrides,
            ),
{
    let ghost overrides = config@.device_name_overrides;
    let n = response.devices.len();
    for i in 0..n
        invariant
            n == response.devices.len(),
            overrides == config@.device_name_overrides,
            response.satellites@ == old(response).satellites@,
            forall|j: int|
                i <= j < n ==> #[trigger] response.devices@[j] == old(response).devices@[j],
            forall|j: int|
                0 <= j < i ==> (#[trigger] response.devices@[j])@ == resolved_device(
                    old(response).devices@[j]@,
                    overrides,
                ),
    {
        let ghost dv = response.devices@[i as int]@;
        proof {
            assert(dv == old(response).devices@[i as int]@);
        }
        let mac_key = response.devices[i].mac.clone();
        let name_key = response.devices[i].name.clone();
        proof {
            assert(mac_key@ == dv.mac && name_key@ == dv.name);
        }
        if let Some(v) = config.lookup_override(&mac_key) {
            let new_name = v.clone();
            proof {
                assert(spec_lookup(overrides, dv.mac) == Some(new_name@));
            }
            let mut d = response.devices[i].clone();
            d.name = new_name;
            response.devices.set(i, d);
            proof {
                assert(response.devices@[i as int]@ =~= resolved_device(dv, overrides));
            }
        } else if let Some(v) = config.lookup_override(&name_key) {
            let new_name = v.clone();
            proof {
                assert(spec_lookup(overrides, dv.mac) is None);
                assert(spec_lookup(overrides, dv.name) == Some(new_name@));
            }
            let mut d = response.devices[i].clone();
            d.name = new_name;
            response.devices.set(i, d);
            proof {
                assert(response.devices@[i as int]@ =~= resolved_device(dv, overrides));
            }
        } else {
            proof {
                assert(spec_lookup(overrides, dv.mac) is None);
                assert(spec_lookup(overrides, dv.name) is None);
                assert(response.devices@[i as int]@ =~= resolved_device(dv, overrides));
            }
        }
    }
    proof {
        assert(response@.satellites =~= old(response)@.satellites);
        assert forall|i: int| 0 <= i < old(response)@.devices.len() implies response@.devices[i]
            == resolved_device(old(response)@.devices[i], config@.device_name_overrides) by {
            assert(response@.devices[i] == response.devices@[i]@);
            assert(old(response)@.devices[i] == old(response).devices@[i]@);
        }
    }
}

/// An override keyed by a device's MAC decides its resolved name, whatever
/// the device's original name was.
pub proof fn lemma_mac_override_applies(
    d: DeviceV,
    overrides: Seq<(Seq<char>, Seq<char>)>,
    n: Seq<char>,
)
    requires
        spec_lookup(overrides, d.mac) == Some(n),
    ensures
        resolved_device(d, overrides).name == n,
{
}

/// When both a MAC-keyed and a name-keyed override could match the same
/// device, the MAC-keyed one takes precedence.
pub proof fn lemma_mac_precedence(
    d: DeviceV,
    overrides: Seq<(Seq<char>, Seq<char>)>,
    by_mac: Seq<char>,
    by_name: Seq<char>,
)
    requires
        spec_lookup(overrides, d.mac) == Some(by_mac),
        spec_lookup(overrides, d.name) == Some(by_name),
    ensures
        resolved_device(d, overrides).name == by_mac,
{
}

/// A device matched by no override — neither by MAC nor by name — comes out
/// of resolution entirely unchanged.
pub proof fn lemma_no_override_keeps_device(d: DeviceV, overrides: Seq<(Seq<char>, Seq<char>)>)
    requires
        spec_lookup(overrides, d.mac) is None,
        spec_lookup(overrides, d.name) is None,
    ensures
        resolved_device(d, overrides) == d,
{
}

} // verus!

