use vstd::prelude::*;

use crate::config::Config;
use crate::device::AttachedDevices;
use crate::device::AttachedDevicesV;
use crate::devicejson::attached_json;
use crate::devicejson::encode_attached_devices;
use crate::devicejson::decode_attached_devices;
use crate::devicejson::spec_decode;
use crate::error::Error;
use crate::overrides::resolve_overrides;
use crate::overrides::resolved_device;
use crate::render::DeviceField;
use crate::render::effective_fields;
use crate::render::header_of;
use crate::render::render_plain_text_http;
use crate::render::rows_of;
use crate::table::cell_shown_verbatim;
use crate::table::table_text;
use crate::text::contains_seq;
use crate::text::str_eq;

verus! {

/// A fetch result after override resolution: satellites untouched, every
/// client device's name rewritten by the override table.
pub open spec fn resolved_attached(
    a: AttachedDevicesV,
    overrides: Seq<(Seq<char>, Seq<char>)>,
) -> AttachedDevicesV {
    AttachedDevicesV {
        satellites: a.satellites,
        devices: a.devices.map_values(|d: crate::device::DeviceV| resolved_device(d, overrides)),
    }
}

/// Decodes the router's response body and applies the configured name
/// overrides: the computational core of a device fetch. Succeeds exactly on
/// bodies the decoder accepts.
pub fn decode_and_resolve(body: &str, config: &Config) -> (r: Result<AttachedDevices, Error>)
    ensures
        match r {
            Ok(a) => spec_decode(body@) is Some && a@ == resolved_attached(
                spec_decode(body@)->Some_0,
                config@.device_name_overrides,
            ),
            Err(e) => e matches Error::ResponseParseError && spec_decode(body@) is None,
        },
{
    let mut response = decode_attached_devices(body)?;
    let ghost raw = response@;
    resolve_overrides(&mut response, config);
    proof {
        assert(response@ =~= resolved_attached(raw, config@.device_name_overrides));
    }
    Ok(response)
}

/// The body for the HTTP surface, negotiated on the request's media type:
/// `application/json` gets the canonical JSON form, `text/plain` gets the
/// ASCII table with the default fields, and anything else has no satisfiable
/// representation.
pub fn transform_response(devices: &AttachedDevices, media_type: &str, media_subtype: &str) -> (r:
    Option<String>)
    ensures
        (media_type@ == "application"@ && media_subtype@ == "json"@) ==> (r is Some && (
        r->Some_0)@ == attached_json(devices@)),
        (media_type@ == "text"@ && media_subtype@ == "plain"@) ==> (r is Some && (r->Some_0)@
            == table_text(
            header_of(effective_fields(Seq::<DeviceField>::empty())),
            rows_of(devices@.devices, effective_fields(Seq::<DeviceField>::empty())),
        )),
        (media_type@ == "text"@ && media_subtype@ == "plain"@) ==> (forall|i: int|
            0 <= i < devices@.devices.len() && cell_shown_verbatim(
                #[trigger] devices@.devices[i].name,
            ) ==> contains_seq((r->Some_0)@, devices@.devices[i].name)),
        !((media_type@ == "application"@ && media_subtype@ == "json"@) || (media_type@ == "text"@
            && media_subtype@ == "plain"@)) ==> r is None,
{
    proof {
        reveal_strlit("application");
        reveal_strlit("json");
        reveal_strlit("text");
        reveal_strlit("plain");
    }
    let is_app = str_eq(media_type, "application");
    let is_json = str_eq(media_subtype, "json");
    let is_text = str_eq(media_type, "text");
    let is_plain = str_eq(media_subtype, "plain");
    proof {
        assert("application"@.len() != "text"@.len());
        assert("json"@.len() != "plain"@.len());
    }
    if is_app && is_json {
        Some(encode_attached_devices(devices))
    } else if is_text && is_plain {
        Some(render_plain_text_http(devices))
    } else {
        None
    }
}

} // verus!
