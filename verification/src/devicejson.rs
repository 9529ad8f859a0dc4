use vstd::prelude::*;

use crate::device::AttachedDevices;
use crate::device::AttachedDevicesV;
use crate::device::Device;
use crate::device::DeviceV;
use crate::error::Error;
use crate::json::JsonScalar;
use crate::json::JsonTopVal;
use crate::json::MembersV;
use crate::json::ScalarV;
use crate::json::TopV;
use crate::json::TopValV;
use crate::json::dec_digits;
use crate::json::digit_char;
use crate::json::members_view;
use crate::json::objs_view;
use crate::json::parse_top;
use crate::json::spec_parse_top;
use crate::json::top_view;
use crate::quoted::escape_into;
use crate::quoted::quoted;
use crate::text::append_str;
use crate::text::chars_to_string;
use crate::text::str_eq;
use crate::text::str_to_chars;

verus! {

impl Clone for JsonScalar {
    fn clone(&self) -> (r: JsonScalar)
        ensures
            r@ == self@,
    {
        match self {
            JsonScalar::Str(s) => JsonScalar::Str(s.clone()),
            JsonScalar::Num(n) => JsonScalar::Num(*n),
            JsonScalar::Bool(b) => JsonScalar::Bool(*b),
            JsonScalar::Null => JsonScalar::Null,
            JsonScalar::Other => JsonScalar::Other,
        }
    }
}

/// The views of a list of accepted field names.
pub open spec fn names_view(v: Seq<&str>) -> Seq<Seq<char>> {
    v.map_values(|x: &str| x@)
}

/// The value of the first member whose key is among `names`, if any.
pub open spec fn scal_lookup(ms: MembersV, names: Seq<Seq<char>>) -> Option<ScalarV>
    decreases ms.len(),
{
    if ms.len() == 0 {
        None
    } else if names.contains(ms[0].0) {
        Some(ms[0].1)
    } else {
        scal_lookup(ms.drop_first(), names)
    }
}

/// The member selected by `names`, when it is a string.
pub open spec fn str_field(ms: MembersV, names: Seq<Seq<char>>) -> Option<Seq<char>> {
    match scal_lookup(ms, names) {
        Some(ScalarV::Str(s)) => Some(s),
        _ => None,
    }
}

/// The member selected by `names`, when it is a number.
pub open spec fn num_field(ms: MembersV, names: Seq<Seq<char>>) -> Option<u32> {
    match scal_lookup(ms, names) {
        Some(ScalarV::Num(n)) => Some(n),
        _ => None,
    }
}

/// The accepted spellings of the `mac` field.
pub open spec fn names_mac() -> Seq<Seq<char>> {
    seq!["mac"@]
}

/// The accepted spellings of the `kind` field.
pub open spec fn names_kind() -> Seq<Seq<char>> {
    seq!["type"@]
}

/// The accepted spellings of the `model` field.
pub open spec fn names_model() -> Seq<Seq<char>> {
    seq!["model"@]
}

/// The accepted spellings of the `name` field.
pub open spec fn names_name() -> Seq<Seq<char>> {
    seq!["name"@]
}

/// The accepted spellings of the `ip` field.
pub open spec fn names_ip() -> Seq<Seq<char>> {
    seq!["ip"@]
}

/// The accepted spellings of the `connection_type` field.
pub open spec fn names_connection_type() -> Seq<Seq<char>> {
    seq!["connectionType"@]
}

/// The accepted spellings of the `connected_orbi` field.
pub open spec fn names_connected_orbi() -> Seq<Seq<char>> {
    seq!["connectedOrbi"@, "ConnectedOrbi"@]
}

/// The accepted spellings of the `connected_orbi_mac` field.
pub open spec fn names_connected_orbi_mac() -> Seq<Seq<char>> {
    seq!["connectedOrbiMac"@, "ConnectedOrbiMAC"@]
}

/// The accepted spellings of the `connection_img` field.
pub open spec fn names_connection_img() -> Seq<Seq<char>> {
    seq!["connectionImg"@]
}

/// The accepted spellings of the `backhaul_status_style` field.
pub open spec fn names_backhaul_status_style() -> Seq<Seq<char>> {
    seq!["backhaulStatusStyle"@]
}

/// The accepted spellings of the `backhaul_status` field.
pub open spec fn names_backhaul_status() -> Seq<Seq<char>> {
    seq!["backhaulStatus"@]
}

/// The accepted spellings of the `category` field.
pub open spec fn names_category() -> Seq<Seq<char>> {
    seq!["category"@]
}

/// The accepted spellings of the `status` field.
pub open spec fn names_status() -> Seq<Seq<char>> {
    seq!["status"@]
}

/// The accepted spellings of the `sat_type` field.
pub open spec fn names_sat_type() -> Seq<Seq<char>> {
    seq!["satType"@, "sat_type"@]
}

/// The accepted spellings of the `led_status` field.
pub open spec fn names_led_status() -> Seq<Seq<char>> {
    seq!["ledStatus"@, "led_status"@]
}

/// The accepted spellings of the `led_brightness` field.
pub open spec fn names_led_brightness() -> Seq<Seq<char>> {
    seq!["ledBrightness"@, "led_brightness"@]
}

/// The accepted spellings of the `led_sync` field.
pub open spec fn names_led_sync() -> Seq<Seq<char>> {
    seq!["ledSync"@, "led_sync"@]
}

/// The accepted spellings of the `voice_reg` field.
pub open spec fn names_voice_reg() -> Seq<Seq<char>> {
    seq!["voiceReg"@, "voice_reg"@]
}

/// Every field of the device model is present with the right type.
pub open spec fn device_fields_ok(ms: MembersV) -> bool {
    str_field(ms, names_mac()) is Some && str_field(ms, names_kind()) is Some && str_field(ms, names_model()) is Some && str_field(ms, names_name()) is Some && str_field(ms, names_ip()) is Some && str_field(ms, names_connection_type()) is Some && str_field(ms, names_connected_orbi()) is Some && str_field(ms, names_connected_orbi_mac()) is Some && str_field(ms, names_connection_img()) is Some && str_field(ms, names_backhaul_status_style()) is Some && str_field(ms, names_backhaul_status()) is Some && str_field(ms, names_category()) is Some && num_field(ms, names_status()) is Some && num_field(ms, names_sat_type()) is Some && num_field(ms, names_led_status()) is Some && num_field(ms, names_led_brightness()) is Some && num_field(ms, names_led_sync()) is Some && str_field(ms, names_voice_reg()) is Some
}

/// The device a flat object describes, once `device_fields_ok` holds.
pub open spec fn spec_device_of(ms: MembersV) -> DeviceV {
    DeviceV {
        mac: str_field(ms, names_mac())->Some_0,
        kind: str_field(ms, names_kind())->Some_0,
        model: str_field(ms, names_model())->Some_0,
        name: str_field(ms, names_name())->Some_0,
        ip: str_field(ms, names_ip())->Some_0,
        connection_type: str_field(ms, names_connection_type())->Some_0,
        connected_orbi: str_field(ms, names_connected_orbi())->Some_0,
        connected_orbi_mac: str_field(ms, names_connected_orbi_mac())->Some_0,
        connection_img: str_field(ms, names_connection_img())->Some_0,
        backhaul_status_style: str_field(ms, names_backhaul_status_style())->Some_0,
        backhaul_status: str_field(ms, names_backhaul_status())->Some_0,
        category: str_field(ms, names_category())->Some_0,
        status: num_field(ms, names_status())->Some_0,
        sat_type: num_field(ms, names_sat_type())->Some_0,
        led_status: num_field(ms, names_led_status())->Some_0,
        led_brightness: num_field(ms, names_led_brightness())->Some_0,
        led_sync: num_field(ms, names_led_sync())->Some_0,
        voice_reg: str_field(ms, names_voice_reg())->Some_0,
    }
}

/// The devices an array of flat objects describes, in order; nothing when
/// any object lacks a field.
pub open spec fn spec_devices_of(objs: Seq<MembersV>) -> Option<Seq<DeviceV>>
    decreases objs.len(),
{
    if objs.len() == 0 {
        Some(Seq::empty())
    } else if !device_fields_ok(objs[0]) {
        None
    } else {
        match spec_devices_of(objs.drop_first()) {
            Some(rest) => Some(seq![spec_device_of(objs[0])] + rest),
            None => None,
        }
    }
}

/// The value of the first top-level member with the given key, if any.
pub open spec fn top_lookup(top: TopV, key: Seq<char>) -> Option<TopValV>
    decreases top.len(),
{
    if top.len() == 0 {
        None
    } else if top[0].0 == key {
        Some(top[0].1)
    } else {
        top_lookup(top.drop_first(), key)
    }
}

/// The fetch result a top-level object describes: its `satellites` and
/// `devices` members must both be arrays of complete device objects.
pub open spec fn spec_attached_of(top: TopV) -> Option<AttachedDevicesV> {
    match top_lookup(top, "satellites"@) {
        Some(TopValV::Arr(sat_objs)) => match top_lookup(top, "devices"@) {
            Some(TopValV::Arr(dev_objs)) => match spec_devices_of(sat_objs) {
                Some(ss) => match spec_devices_of(dev_objs) {
                    Some(dd) => Some(AttachedDevicesV { satellites: ss, devices: dd }),
                    None => None,
                },
                None => None,
            },
            _ => None,
        },
        _ => None,
    }
}

/// What a response text decodes to, if anything: parse, then interpret.
pub open spec fn spec_decode(s: Seq<char>) -> Option<AttachedDevicesV> {
    match spec_parse_top(s) {
        Some(top) => spec_attached_of(top),
        None => None,
    }
}

/// Whether `key` has one of the accepted spellings.
fn name_matches(key: &String, names: &Vec<&str>) -> (r: bool)
    ensures
        r == names_view(names@).contains(key@),
{
    let n = names.len();
    for j in 0..n
        invariant
            n == names@.len(),
            forall|m: int| 0 <= m < j ==> (#[trigger] names@[m])@ != key@,
    {
        if str_eq(key.as_str(), names[j]) {
            proof {
                assert(names_view(names@)[j as int] == key@);
            }
            return true;
        }
    }
    proof {
        assert forall|m: int| 0 <= m < names_view(names@).len() implies names_view(names@)[m]
            != key@ by {
            assert(names_view(names@)[m] == names@[m]@);
        }
    }
    false
}

/// The first member whose key is among `names`, if any.
fn find_scalar(ms: &Vec<(String, JsonScalar)>, names: &Vec<&str>) -> (r: Option<JsonScalar>)
    ensures
        match r {
            Some(v) => scal_lookup(members_view(ms@), names_view(names@)) == Some(v@),
            None => scal_lookup(members_view(ms@), names_view(names@)) is None,
        },
{
    let ghost mv = members_view(ms@);
    let ghost nv = names_view(names@);
    let n = ms.len();
    proof {
        assert(mv.skip(0) =~= mv);
    }
    for i in 0..n
        invariant
            n == ms@.len(),
            mv == members_view(ms@),
            nv == names_view(names@),
            mv.len() == n,
            scal_lookup(mv, nv) == scal_lookup(mv.skip(i as int), nv),
    {
        proof {
            assert(mv.skip(i as int).drop_first() =~= mv.skip(i + 1));
            assert(mv.skip(i as int)[0] == mv[i as int]);
            assert(mv[i as int] == (ms@[i as int].0@, ms@[i as int].1@));
        }
        if name_matches(&ms[i].0, names) {
            return Some(ms[i].1.clone());
        }
    }
    proof {
        assert(mv.skip(mv.len() as int) =~= Seq::<(Seq<char>, ScalarV)>::empty());
    }
    None
}

/// The string member selected by `names`, if present with that type.
fn get_str(ms: &Vec<(String, JsonScalar)>, names: &Vec<&str>) -> (r: Option<String>)
    ensures
        match r {
            Some(v) => str_field(members_view(ms@), names_view(names@)) == Some(v@),
            None => str_field(members_view(ms@), names_view(names@)) is None,
        },
{
    match find_scalar(ms, names) {
        Some(JsonScalar::Str(s)) => Some(s),
        _ => None,
    }
}

/// The numeric member selected by `names`, if present with that type.
fn get_num(ms: &Vec<(String, JsonScalar)>, names: &Vec<&str>) -> (r: Option<u32>)
    ensures
        match r {
            Some(v) => num_field(members_view(ms@), names_view(names@)) == Some(v),
            None => num_field(members_view(ms@), names_view(names@)) is None,
        },
{
    match find_scalar(ms, names) {
        Some(JsonScalar::Num(n)) => Some(n),
        _ => None,
    }
}

/// Interprets one flat object as a device, accepting the historical field
/// spellings and ignoring unknown members.
pub fn device_of_members(ms: &Vec<(String, JsonScalar)>) -> (r: Option<Device>)
    ensures
        match r {
            Some(d) => device_fields_ok(members_view(ms@)) && d@ == spec_device_of(
                members_view(ms@),
            ),
            None => !device_fields_ok(members_view(ms@)),
        },
{
    let names_l: Vec<&str> = vec!["mac"];
    proof {
        assert(names_view(names_l@) =~= names_mac());
    }
    let mac = match get_str(ms, &names_l) {
        Some(x) => x,
        None => {
            return None;
        },
    };
    let names_l: Vec<&str> = vec!["type"];
    proof {
        assert(names_view(names_l@) =~= names_kind());
    }
    let kind = match get_str(ms, &names_l) {
        Some(x) => x,
        None => {
            return None;
        },
    };
    let names_l: Vec<&str> = vec!["model"];
    proof {
        assert(names_view(names_l@) =~= names_model());
    }
    let model = match get_str(ms, &names_l) {
        Some(x) => x,
        None => {
            return None;
        },
    };
    let names_l: Vec<&str> = vec!["name"];
    proof {
        assert(names_view(names_l@) =~= names_name());
    }
    let name = match get_str(ms, &names_l) {
        Some(x) => x,
        None => {
            return None;
        },
    };
    let names_l: Vec<&str> = vec!["ip"];
    proof {
        assert(names_view(names_l@) =~= names_ip());
    }
    let ip = match get_str(ms, &names_l) {
        Some(x) => x,
        None => {
            return None;
        },
    };
    let names_l: Vec<&str> = vec!["connectionType"];
    proof {
        assert(names_view(names_l@) =~= names_connection_type());
    }
    let connection_type = match get_str(ms, &names_l) {
        Some(x) => x,
        None => {
            return None;
        },
    };
    let names_l: Vec<&str> = vec!["connectedOrbi", "ConnectedOrbi"];
    proof {
        assert(names_view(names_l@) =~= names_connected_orbi());
    }
    let connected_orbi = match get_str(ms, &names_l) {
        Some(x) => x,
        None => {
            return None;
        },
    };
    let names_l: Vec<&str> = vec!["connectedOrbiMac", "ConnectedOrbiMAC"];
    proof {
        assert(names_view(names_l@) =~= names_connected_orbi_mac());
    }
    let connected_orbi_mac = match get_str(ms, &names_l) {
        Some(x) => x,
        None => {
            return None;
        },
    };
    let names_l: Vec<&str> = vec!["connectionImg"];
    proof {
        assert(names_view(names_l@) =~= names_connection_img());
    }
    let connection_img = match get_str(ms, &names_l) {
        Some(x) => x,
        None => {
            return None;
        },
    };
    let names_l: Vec<&str> = vec!["backhaulStatusStyle"];
    proof {
        assert(names_view(names_l@) =~= names_backhaul_status_style());
    }
    let backhaul_status_style = match get_str(ms, &names_l) {
        Some(x) => x,
        None => {
            return None;
        },
    };
    let names_l: Vec<&str> = vec!["backhaulStatus"];
    proof {
        assert(names_view(names_l@) =~= names_backhaul_status());
    }
    let backhaul_status = match get_str(ms, &names_l) {
        Some(x) => x,
        None => {
            return None;
        },
    };
    let names_l: Vec<&str> = vec!["category"];
    proof {
        assert(names_view(names_l@) =~= names_category());
    }
    let category = match get_str(ms, &names_l) {
        Some(x) => x,
        None => {
            return None;
        },
    };
    let names_l: Vec<&str> = vec!["status"];
    proof {
        assert(names_view(names_l@) =~= names_status());
    }
    let status = match get_num(ms, &names_l) {
        Some(x) => x,
        None => {
            return None;
        },
    };
    let names_l: Vec<&str> = vec!["satType", "sat_type"];
    proof {
        assert(names_view(names_l@) =~= names_sat_type());
    }
    let sat_type = match get_num(ms, &names_l) {
        Some(x) => x,
        None => {
            return None;
        },
    };
    let names_l: Vec<&str> = vec!["ledStatus", "led_status"];
    proof {
        assert(names_view(names_l@) =~= names_led_status());
    }
    let led_status = match get_num(ms, &names_l) {
        Some(x) => x,
        None => {
            return None;
        },
    };
    let names_l: Vec<&str> = vec!["ledBrightness", "led_brightness"];
    proof {
        assert(names_view(names_l@) =~= names_led_brightness());
    }
    let led_brightness = match get_num(ms, &names_l) {
        Some(x) => x,
        None => {
            return None;
        },
    };
    let names_l: Vec<&str> = vec!["ledSync", "led_sync"];
    proof {
        assert(names_view(names_l@) =~= names_led_sync());
    }
    let led_sync = match get_num(ms, &names_l) {
        Some(x) => x,
        None => {
            return None;
        },
    };
    let names_l: Vec<&str> = vec!["voiceReg", "voice_reg"];
    proof {
        assert(names_view(names_l@) =~= names_voice_reg());
    }
    let voice_reg = match get_str(ms, &names_l) {
        Some(x) => x,
        None => {
            return None;
        },
    };
    let d = Device { mac, kind, model, name, ip, connection_type, connected_orbi, connected_orbi_mac, connection_img, backhaul_status_style, backhaul_status, category, status, sat_type, led_status, led_brightness, led_sync, voice_reg };
    proof {
        assert(d@ =~= spec_device_of(members_view(ms@)));
    }
    Some(d)
}

/// Interprets an array of flat objects as devices, in order.
pub fn devices_of_objs(objs: &Vec<Vec<(String, JsonScalar)>>) -> (r: Option<Vec<Device>>)
    ensures
        match r {
            Some(ds) => spec_devices_of(objs_view(objs@)) == Some(
                ds@.map_values(|d: Device| d@),
            ),
            None => spec_devices_of(objs_view(objs@)) is None,
        },
{
    let ghost ov = objs_view(objs@);
    let mut acc: Vec<Device> = Vec::new();
    let n = objs.len();
    proof {
        assert(ov.skip(0) =~= ov);
        match spec_devices_of(ov) {
            Some(rest) => {
                assert(acc@.map_values(|d: Device| d@) + rest =~= rest);
            },
            None => {},
        }
    }
    for i in 0..n
        invariant
            n == objs@.len(),
            ov == objs_view(objs@),
            ov.len() == n,
            match spec_devices_of(ov.skip(i as int)) {
                Some(rest) => spec_devices_of(ov) == Some(
                    acc@.map_values(|d: Device| d@) + rest,
                ),
                None => spec_devices_of(ov) is None,
            },
    {
        proof {
            assert(ov.skip(i as int).drop_first() =~= ov.skip(i + 1));
            assert(ov.skip(i as int)[0] == ov[i as int]);
            assert(ov[i as int] == members_view(objs@[i as int]@));
        }
        let ghost old_acc = acc@.map_values(|d: Device| d@);
        match device_of_members(&objs[i]) {
            Some(d) => {
                let ghost dv = d@;
                acc.push(d);
                proof {
                    assert(acc@.map_values(|d: Device| d@) =~= old_acc + seq![dv]);
                    match spec_devices_of(ov.skip(i + 1)) {
                        Some(rest) => {
                            assert((old_acc + seq![dv]) + rest =~= old_acc + (seq![dv] + rest));
                        },
                        None => {},
                    }
                }
            },
            None => {
                return None;
            },
        }
    }
    proof {
        assert(ov.skip(ov.len() as int) =~= Seq::<MembersV>::empty());
        match spec_devices_of(ov) {
            Some(rest) => {
                assert(acc@.map_values(|d: Device| d@) + Seq::<DeviceV>::empty() =~= acc@.map_values(
                    |d: Device| d@,
                ));
            },
            None => {},
        }
    }
    Some(acc)
}

/// The index of the first top-level member with the given key, if any.
fn find_top(top: &Vec<(String, JsonTopVal)>, name: &str) -> (r: Option<usize>)
    ensures
        match r {
            Some(ix) => ix < top@.len() && top_lookup(top_view(top@), name@) == Some(
                top_view(top@)[ix as int].1,
            ),
            None => top_lookup(top_view(top@), name@) is None,
        },
{
    let ghost tv = top_view(top@);
    let n = top.len();
    proof {
        assert(tv.skip(0) =~= tv);
    }
    for i in 0..n
        invariant
            n == top@.len(),
            tv == top_view(top@),
            tv.len() == n,
            top_lookup(tv, name@) == top_lookup(tv.skip(i as int), name@),
    {
        proof {
            assert(tv.skip(i as int).drop_first() =~= tv.skip(i + 1));
            assert(tv.skip(i as int)[0] == tv[i as int]);
            assert(tv[i as int] == (top@[i as int].0@, top@[i as int].1@));
        }
        if str_eq(top[i].0.as_str(), name) {
            return Some(i);
        }
    }
    proof {
        assert(tv.skip(tv.len() as int) =~= Seq::<(Seq<char>, TopValV)>::empty());
    }
    None
}

/// Decodes the router's attached-devices response. Exactly the texts that
/// `spec_decode` accepts succeed; everything else is a `ResponseParseError`.
pub fn decode_attached_devices(body: &str) -> (r: Result<AttachedDevices, Error>)
    ensures
        match r {
            Ok(a) => spec_decode(body@) == Some(a@),
            Err(e) => e matches Error::ResponseParseError && spec_decode(body@) is None,
        },
{
    let chars = str_to_chars(body);
    let top = match parse_top(&chars) {
        Some(t) => t,
        None => {
            return Err(Error::ResponseParseError);
        },
    };
    let sat_ix = match find_top(&top, "satellites") {
        Some(i) => i,
        None => {
            return Err(Error::ResponseParseError);
        },
    };
    let dev_ix = match find_top(&top, "devices") {
        Some(i) => i,
        None => {
            return Err(Error::ResponseParseError);
        },
    };
    proof {
        assert(top_view(top@)[sat_ix as int] == (top@[sat_ix as int].0@, top@[sat_ix as int].1@));
        assert(top_view(top@)[dev_ix as int] == (top@[dev_ix as int].0@, top@[dev_ix as int].1@));
    }
    let satellites = match &top[sat_ix].1 {
        JsonTopVal::Arr(objs) => match devices_of_objs(objs) {
            Some(ds) => ds,
            None => {
                return Err(Error::ResponseParseError);
            },
        },
        JsonTopVal::Scal(_) => {
            return Err(Error::ResponseParseError);
        },
    };
    let devices = match &top[dev_ix].1 {
        JsonTopVal::Arr(objs) => match devices_of_objs(objs) {
            Some(ds) => ds,
            None => {
                return Err(Error::ResponseParseError);
            },
        },
        JsonTopVal::Scal(_) => {
            return Err(Error::ResponseParseError);
        },
    };
    let a = AttachedDevices { satellites, devices };
    proof {
        assert(a@ =~= spec_decode(body@)->Some_0);
    }
    Ok(a)
}

/// The canonical JSON form of one device.
pub open spec fn device_json(d: DeviceV) -> Seq<char> {
    "{\"mac\":"@ + quoted(d.mac) + ",\"type\":"@ + quoted(d.kind) + ",\"model\":"@ + quoted(d.model) + ",\"name\":"@ + quoted(d.name) + ",\"ip\":"@ + quoted(d.ip) + ",\"connectionType\":"@ + quoted(d.connection_type) + ",\"connectedOrbi\":"@ + quoted(d.connected_orbi) + ",\"connectedOrbiMac\":"@ + quoted(d.connected_orbi_mac) + ",\"connectionImg\":"@ + quoted(d.connection_img) + ",\"backhaulStatusStyle\":"@ + quoted(d.backhaul_status_style) + ",\"backhaulStatus\":"@ + quoted(d.backhaul_status) + ",\"category\":"@ + quoted(d.category) + ",\"status\":"@ + dec_digits(d.status as nat) + ",\"satType\":"@ + dec_digits(d.sat_type as nat) + ",\"ledStatus\":"@ + dec_digits(d.led_status as nat) + ",\"ledBrightness\":"@ + dec_digits(d.led_brightness as nat) + ",\"ledSync\":"@ + dec_digits(d.led_sync as nat) + ",\"voiceReg\":"@ + quoted(d.voice_reg) + "}"@
}

/// The canonical JSON forms of a device list, comma separated.
pub open spec fn devices_json(ds: Seq<DeviceV>) -> Seq<char>
    decreases ds.len(),
{
    if ds.len() == 0 {
        Seq::empty()
    } else if ds.len() == 1 {
        device_json(ds[0])
    } else {
        devices_json(ds.drop_last()) + ","@ + device_json(ds.last())
    }
}

/// The canonical JSON form of a fetch result.
pub open spec fn attached_json(a: AttachedDevicesV) -> Seq<char> {
    "{\"satellites\":["@ + devices_json(a.satellites) + "],\"devices\":["@ + devices_json(
        a.devices,
    ) + "]}"@
}

/// Appends the decimal form of `n`.
fn write_num(out: &mut Vec<char>, n: u32)
    ensures
        final(out)@ == old(out)@ + dec_digits(n as nat),
    decreases n,
{
    if n < 10 {
        out.push(digit_char_exec(n));
        proof {
            assert(out@ =~= old(out)@ + dec_digits(n as nat));
        }
    } else {
        write_num(out, n / 10);
        out.push(digit_char_exec(n % 10));
        proof {
            assert(out@ =~= old(out)@ + dec_digits(n as nat));
        }
    }
}

/// The digit for a value below ten.
fn digit_char_exec(d: u32) -> (r: char)
    requires
        d < 10,
    ensures
        r == digit_char(d as nat),
{
    if d == 0 {
        '0'
    } else if d == 1 {
        '1'
    } else if d == 2 {
        '2'
    } else if d == 3 {
        '3'
    } else if d == 4 {
        '4'
    } else if d == 5 {
        '5'
    } else if d == 6 {
        '6'
    } else if d == 7 {
        '7'
    } else if d == 8 {
        '8'
    } else {
        '9'
    }
}

/// Appends a quoted string member with its leading punctuation.
fn write_qfield(out: &mut Vec<char>, prefix: &str, v: &str)
    ensures
        final(out)@ == old(out)@ + prefix@ + quoted(v@),
{
    append_str(out, prefix);
    out.push('"');
    escape_into(v, out);
    out.push('"');
    proof {
        assert(out@ =~= old(out)@ + prefix@ + quoted(v@));
    }
}

/// Appends a numeric member with its leading punctuation.
fn write_nfield(out: &mut Vec<char>, prefix: &str, n: u32)
    ensures
        final(out)@ == old(out)@ + prefix@ + dec_digits(n as nat),
{
    append_str(out, prefix);
    write_num(out, n);
    proof {
        assert(out@ =~= old(out)@ + prefix@ + dec_digits(n as nat));
    }
}

/// Concatenation of character sequences is associative.
proof fn lemma_add_assoc(a: Seq<char>, b: Seq<char>, c: Seq<char>)
    ensures
        (a + b) + c == a + (b + c),
{
    assert((a + b) + c =~= a + (b + c));
}

/// Appends the canonical JSON form of one device.
fn write_device(out: &mut Vec<char>, d: &Device)
    ensures
        final(out)@ == old(out)@ + device_json(d@),
{
    write_qfield(out, "{\"mac\":", d.mac.as_str());
    write_qfield(out, ",\"type\":", d.kind.as_str());
    proof {
        lemma_add_assoc(old(out)@, "{\"mac\":"@ + quoted(d@.mac), ",\"type\":"@);
        lemma_add_assoc(old(out)@, "{\"mac\":"@ + quoted(d@.mac) + ",\"type\":"@, quoted(d@.kind));
    }
    write_qfield(out, ",\"model\":", d.model.as_str());
    proof {
        lemma_add_assoc(old(out)@, "{\"mac\":"@ + quoted(d@.mac) + ",\"type\":"@ + quoted(d@.kind), ",\"model\":"@);
        lemma_add_assoc(old(out)@, "{\"mac\":"@ + quoted(d@.mac) + ",\"type\":"@ + quoted(d@.kind) + ",\"model\":"@, quoted(d@.model));
    }
    write_qfield(out, ",\"name\":", d.name.as_str());
    proof {
        lemma_add_assoc(old(out)@, "{\"mac\":"@ + quoted(d@.mac) + ",\"type\":"@ + quoted(d@.kind) + ",\"model\":"@ + quoted(d@.model), ",\"name\":"@);
        lemma_add_assoc(old(out)@, "{\"mac\":"@ + quoted(d@.mac) + ",\"type\":"@ + quoted(d@.kind) + ",\"model\":"@ + quoted(d@.model) + ",\"name\":"@, quoted(d@.name));
    }
    write_qfield(out, ",\"ip\":", d.ip.as_str());
    proof {
        lemma_add_assoc(old(out)@, "{\"mac\":"@ + quoted(d@.mac) + ",\"type\":"@ + quoted(d@.kind) + ",\"model\":"@ + quoted(d@.model) + ",\"name\":"@ + quoted(d@.name), ",\"ip\":"@);
        lemma_add_assoc(old(out)@, "{\"mac\":"@ + quoted(d@.mac) + ",\"type\":"@ + quoted(d@.kind) + ",\"model\":"@ + quoted(d@.model) + ",\"name\":"@ + quoted(d@.name) + ",\"ip\":"@, quoted(d@.ip));
    }
    write_qfield(out, ",\"connectionType\":", d.connection_type.as_str());
    proof {
        lemma_add_assoc(old(out)@, "{\"mac\":"@ + quoted(d@.mac) + ",\"type\":"@ + quoted(d@.kind) + ",\"model\":"@ + quoted(d@.model) + ",\"name\":"@ + quoted(d@.name) + ",\"ip\":"@ + quoted(d@.ip), ",\"connectionType\":"@);
        lemma_add_assoc(old(out)@, "{\"mac\":"@ + quoted(d@.mac) + ",\"type\":"@ + quoted(d@.kind) + ",\"model\":"@ + quoted(d@.model) + ",\"name\":"@ + quoted(d@.name) + ",\"ip\":"@ + quoted(d@.ip) + ",\"connectionType\":"@, quoted(d@.connection_type));
    }
    write_qfield(out, ",\"connectedOrbi\":", d.connected_orbi.as_str());
    proof {
        lemma_add_assoc(old(out)@, "{\"mac\":"@ + quoted(d@.mac) + ",\"type\":"@ + quoted(d@.kind) + ",\"model\":"@ + quoted(d@.model) + ",\"name\":"@ + quoted(d@.name) + ",\"ip\":"@ + quoted(d@.ip) + ",\"connectionType\":"@ + quoted(d@.connection_type), ",\"connectedOrbi\":"@);
        lemma_add_assoc(old(out)@, "{\"mac\":"@ + quoted(d@.mac) + ",\"type\":"@ + quoted(d@.kind) + ",\"model\":"@ + quoted(d@.model) + ",\"name\":"@ + quoted(d@.name) + ",\"ip\":"@ + quoted(d@.ip) + ",\"connectionType\":"@ + quoted(d@.connection_type) + ",\"connectedOrbi\":"@, quoted(d@.connected_orbi));
    }
    write_qfield(out, ",\"connectedOrbiMac\":", d.connected_orbi_mac.as_str());
    proof {
        lemma_add_assoc(old(out)@, "{\"mac\":"@ + quoted(d@.mac) + ",\"type\":"@ + quoted(d@.kind) + ",\"model\":"@ + quoted(d@.model) + ",\"name\":"@ + quoted(d@.name) + ",\"ip\":"@ + quoted(d@.ip) + ",\"connectionType\":"@ + quoted(d@.connection_type) + ",\"connectedOrbi\":"@ + quoted(d@.connected_orbi), ",\"connectedOrbiMac\":"@);
        lemma_add_assoc(old(out)@, "{\"mac\":"@ + quoted(d@.mac) + ",\"type\":"@ + quoted(d@.kind) + ",\"model\":"@ + quoted(d@.model) + ",\"name\":"@ + quoted(d@.name) + ",\"ip\":"@ + quoted(d@.ip) + ",\"connectionType\":"@ + quoted(d@.connection_type) + ",\"connectedOrbi\":"@ + quoted(d@.connected_orbi) + ",\"connectedOrbiMac\":"@, quoted(d@.connected_orbi_mac));
    }
    write_qfield(out, ",\"connectionImg\":", d.connection_img.as_str());
    proof {
        lemma_add_assoc(old(out)@, "{\"mac\":"@ + quoted(d@.mac) + ",\"type\":"@ + quoted(d@.kind) + ",\"model\":"@ + quoted(d@.model) + ",\"name\":"@ + quoted(d@.name) + ",\"ip\":"@ + quoted(d@.ip) + ",\"connectionType\":"@ + quoted(d@.connection_type) + ",\"connectedOrbi\":"@ + quoted(d@.connected_orbi) + ",\"connectedOrbiMac\":"@ + quoted(d@.connected_orbi_mac), ",\"connectionImg\":"@);
        lemma_add_assoc(old(out)@, "{\"mac\":"@ + quoted(d@.mac) + ",\"type\":"@ + quoted(d@.kind) + ",\"model\":"@ + quoted(d@.model) + ",\"name\":"@ + quoted(d@.name) + ",\"ip\":"@ + quoted(d@.ip) + ",\"connectionType\":"@ + quoted(d@.connection_type) + ",\"connectedOrbi\":"@ + quoted(d@.connected_orbi) + ",\"connectedOrbiMac\":"@ + quoted(d@.connected_orbi_mac) + ",\"connectionImg\":"@, quoted(d@.connection_img));
    }
    write_qfield(out, ",\"backhaulStatusStyle\":", d.backhaul_status_style.as_str());
    proof {
        lemma_add_assoc(old(out)@, "{\"mac\":"@ + quoted(d@.mac) + ",\"type\":"@ + quoted(d@.kind) + ",\"model\":"@ + quoted(d@.model) + ",\"name\":"@ + quoted(d@.name) + ",\"ip\":"@ + quoted(d@.ip) + ",\"connectionType\":"@ + quoted(d@.connection_type) + ",\"connectedOrbi\":"@ + quoted(d@.connected_orbi) + ",\"connectedOrbiMac\":"@ + quoted(d@.connected_orbi_mac) + ",\"connectionImg\":"@ + quoted(d@.connection_img), ",\"backhaulStatusStyle\":"@);
        lemma_add_assoc(old(out)@, "{\"mac\":"@ + quoted(d@.mac) + ",\"type\":"@ + quoted(d@.kind) + ",\"model\":"@ + quoted(d@.model) + ",\"name\":"@ + quoted(d@.name) + ",\"ip\":"@ + quoted(d@.ip) + ",\"connectionType\":"@ + quoted(d@.connection_type) + ",\"connectedOrbi\":"@ + quoted(d@.connected_orbi) + ",\"connectedOrbiMac\":"@ + quoted(d@.connected_orbi_mac) + ",\"connectionImg\":"@ + quoted(d@.connection_img) + ",\"backhaulStatusStyle\":"@, quoted(d@.backhaul_status_style));
    }
    write_qfield(out, ",\"backhaulStatus\":", d.backhaul_status.as_str());
    proof {
        lemma_add_assoc(old(out)@, "{\"mac\":"@ + quoted(d@.mac) + ",\"type\":"@ + quoted(d@.kind) + ",\"model\":"@ + quoted(d@.model) + ",\"name\":"@ + quoted(d@.name) + ",\"ip\":"@ + quoted(d@.ip) + ",\"connectionType\":"@ + quoted(d@.connection_type) + ",\"connectedOrbi\":"@ + quoted(d@.connected_orbi) + ",\"connectedOrbiMac\":"@ + quoted(d@.connected_orbi_mac) + ",\"connectionImg\":"@ + quoted(d@.connection_img) + ",\"backhaulStatusStyle\":"@ + quoted(d@.backhaul_status_style), ",\"backhaulStatus\":"@);
        lemma_add_assoc(old(out)@, "{\"mac\":"@ + quoted(d@.mac) + ",\"type\":"@ + quoted(d@.kind) + ",\"model\":"@ + quoted(d@.model) + ",\"name\":"@ + quoted(d@.name) + ",\"ip\":"@ + quoted(d@.ip) + ",\"connectionType\":"@ + quoted(d@.connection_type) + ",\"connectedOrbi\":"@ + quoted(d@.connected_orbi) + ",\"connectedOrbiMac\":"@ + quoted(d@.connected_orbi_mac) + ",\"connectionImg\":"@ + quoted(d@.connection_img) + ",\"backhaulStatusStyle\":"@ + quoted(d@.backhaul_status_style) + ",\"backhaulStatus\":"@, quoted(d@.backhaul_status));
    }
    write_qfield(out, ",\"category\":", d.category.as_str());
    proof {
        lemma_add_assoc(old(out)@, "{\"mac\":"@ + quoted(d@.mac) + ",\"type\":"@ + quoted(d@.kind) + ",\"model\":"@ + quoted(d@.model) + ",\"name\":"@ + quoted(d@.name) + ",\"ip\":"@ + quoted(d@.ip) + ",\"connectionType\":"@ + quoted(d@.connection_type) + ",\"connectedOrbi\":"@ + quoted(d@.connected_orbi) + ",\"connectedOrbiMac\":"@ + quoted(d@.connected_orbi_mac) + ",\"connectionImg\":"@ + quoted(d@.connection_img) + ",\"backhaulStatusStyle\":"@ + quoted(d@.backhaul_status_style) + ",\"backhaulStatus\":"@ + quoted(d@.backhaul_status), ",\"category\":"@);
        lemma_add_assoc(old(out)@, "{\"mac\":"@ + quoted(d@.mac) + ",\"type\":"@ + quoted(d@.kind) + ",\"model\":"@ + quoted(d@.model) + ",\"name\":"@ + quoted(d@.name) + ",\"ip\":"@ + quoted(d@.ip) + ",\"connectionType\":"@ + quoted(d@.connection_type) + ",\"connectedOrbi\":"@ + quoted(d@.connected_orbi) + ",\"connectedOrbiMac\":"@ + quoted(d@.connected_orbi_mac) + ",\"connectionImg\":"@ + quoted(d@.connection_img) + ",\"backhaulStatusStyle\":"@ + quoted(d@.backhaul_status_style) + ",\"backhaulStatus\":"@ + quoted(d@.backhaul_status) + ",\"category\":"@, quoted(d@.category));
    }
    write_nfield(out, ",\"status\":", d.status);
    proof {
        lemma_add_assoc(old(out)@, "{\"mac\":"@ + quoted(d@.mac) + ",\"type\":"@ + quoted(d@.kind) + ",\"model\":"@ + quoted(d@.model) + ",\"name\":"@ + quoted(d@.name) + ",\"ip\":"@ + quoted(d@.ip) + ",\"connectionType\":"@ + quoted(d@.connection_type) + ",\"connectedOrbi\":"@ + quoted(d@.connected_orbi) + ",\"connectedOrbiMac\":"@ + quoted(d@.connected_orbi_mac) + ",\"connectionImg\":"@ + quoted(d@.connection_img) + ",\"backhaulStatusStyle\":"@ + quoted(d@.backhaul_status_style) + ",\"backhaulStatus\":"@ + quoted(d@.backhaul_status) + ",\"category\":"@ + quoted(d@.category), ",\"status\":"@);
        lemma_add_assoc(old(out)@, "{\"mac\":"@ + quoted(d@.mac) + ",\"type\":"@ + quoted(d@.kind) + ",\"model\":"@ + quoted(d@.model) + ",\"name\":"@ + quoted(d@.name) + ",\"ip\":"@ + quoted(d@.ip) + ",\"connectionType\":"@ + quoted(d@.connection_type) + ",\"connectedOrbi\":"@ + quoted(d@.connected_orbi) + ",\"connectedOrbiMac\":"@ + quoted(d@.connected_orbi_mac) + ",\"connectionImg\":"@ + quoted(d@.connection_img) + ",\"backhaulStatusStyle\":"@ + quoted(d@.backhaul_status_style) + ",\"backhaulStatus\":"@ + quoted(d@.backhaul_status) + ",\"category\":"@ + quoted(d@.category) + ",\"status\":"@, dec_digits(d@.status as nat));
    }
    write_nfield(out, ",\"satType\":", d.sat_type);
    proof {
        lemma_add_assoc(old(out)@, "{\"mac\":"@ + quoted(d@.mac) + ",\"type\":"@ + quoted(d@.kind) + ",\"model\":"@ + quoted(d@.model) + ",\"name\":"@ + quoted(d@.name) + ",\"ip\":"@ + quoted(d@.ip) + ",\"connectionType\":"@ + quoted(d@.connection_type) + ",\"connectedOrbi\":"@ + quoted(d@.connected_orbi) + ",\"connectedOrbiMac\":"@ + quoted(d@.connected_orbi_mac) + ",\"connectionImg\":"@ + quoted(d@.connection_img) + ",\"backhaulStatusStyle\":"@ + quoted(d@.backhaul_status_style) + ",\"backhaulStatus\":"@ + quoted(d@.backhaul_status) + ",\"category\":"@ + quoted(d@.category) + ",\"status\":"@ + dec_digits(d@.status as nat), ",\"satType\":"@);
        lemma_add_assoc(old(out)@, "{\"mac\":"@ + quoted(d@.mac) + ",\"type\":"@ + quoted(d@.kind) + ",\"model\":"@ + quoted(d@.model) + ",\"name\":"@ + quoted(d@.name) + ",\"ip\":"@ + quoted(d@.ip) + ",\"connectionType\":"@ + quoted(d@.connection_type) + ",\"connectedOrbi\":"@ + quoted(d@.connected_orbi) + ",\"connectedOrbiMac\":"@ + quoted(d@.connected_orbi_mac) + ",\"connectionImg\":"@ + quoted(d@.connection_img) + ",\"backhaulStatusStyle\":"@ + quoted(d@.backhaul_status_style) + ",\"backhaulStatus\":"@ + quoted(d@.backhaul_status) + ",\"category\":"@ + quoted(d@.category) + ",\"status\":"@ + dec_digits(d@.status as nat) + ",\"satType\":"@, dec_digits(d@.sat_type as nat));
    }
    write_nfield(out, ",\"ledStatus\":", d.led_status);
    proof {
        lemma_add_assoc(old(out)@, "{\"mac\":"@ + quoted(d@.mac) + ",\"type\":"@ + quoted(d@.kind) + ",\"model\":"@ + quoted(d@.model) + ",\"name\":"@ + quoted(d@.name) + ",\"ip\":"@ + quoted(d@.ip) + ",\"connectionType\":"@ + quoted(d@.connection_type) + ",\"connectedOrbi\":"@ + quoted(d@.connected_orbi) + ",\"connectedOrbiMac\":"@ + quoted(d@.connected_orbi_mac) + ",\"connectionImg\":"@ + quoted(d@.connection_img) + ",\"backhaulStatusStyle\":"@ + quoted(d@.backhaul_status_style) + ",\"backhaulStatus\":"@ + quoted(d@.backhaul_status) + ",\"category\":"@ + quoted(d@.category) + ",\"status\":"@ + dec_digits(d@.status as nat) + ",\"satType\":"@ + dec_digits(d@.sat_type as nat), ",\"ledStatus\":"@);
        lemma_add_assoc(old(out)@, "{\"mac\":"@ + quoted(d@.mac) + ",\"type\":"@ + quoted(d@.kind) + ",\"model\":"@ + quoted(d@.model) + ",\"name\":"@ + quoted(d@.name) + ",\"ip\":"@ + quoted(d@.ip) + ",\"connectionType\":"@ + quoted(d@.connection_type) + ",\"connectedOrbi\":"@ + quoted(d@.connected_orbi) + ",\"connectedOrbiMac\":"@ + quoted(d@.connected_orbi_mac) + ",\"connectionImg\":"@ + quoted(d@.connection_img) + ",\"backhaulStatusStyle\":"@ + quoted(d@.backhaul_status_style) + ",\"backhaulStatus\":"@ + quoted(d@.backhaul_status) + ",\"category\":"@ + quoted(d@.category) + ",\"status\":"@ + dec_digits(d@.status as nat) + ",\"satType\":"@ + dec_digits(d@.sat_type as nat) + ",\"ledStatus\":"@, dec_digits(d@.led_status as nat));
    }
    write_nfield(out, ",\"ledBrightness\":", d.led_brightness);
    proof {
        lemma_add_assoc(old(out)@, "{\"mac\":"@ + quoted(d@.mac) + ",\"type\":"@ + quoted(d@.kind) + ",\"model\":"@ + quoted(d@.model) + ",\"name\":"@ + quoted(d@.name) + ",\"ip\":"@ + quoted(d@.ip) + ",\"connectionType\":"@ + quoted(d@.connection_type) + ",\"connectedOrbi\":"@ + quoted(d@.connected_orbi) + ",\"connectedOrbiMac\":"@ + quoted(d@.connected_orbi_mac) + ",\"connectionImg\":"@ + quoted(d@.connection_img) + ",\"backhaulStatusStyle\":"@ + quoted(d@.backhaul_status_style) + ",\"backhaulStatus\":"@ + quoted(d@.backhaul_status) + ",\"category\":"@ + quoted(d@.category) + ",\"status\":"@ + dec_digits(d@.status as nat) + ",\"satType\":"@ + dec_digits(d@.sat_type as nat) + ",\"ledStatus\":"@ + dec_digits(d@.led_status as nat), ",\"ledBrightness\":"@);
        lemma_add_assoc(old(out)@, "{\"mac\":"@ + quoted(d@.mac) + ",\"type\":"@ + quoted(d@.kind) + ",\"model\":"@ + quoted(d@.model) + ",\"name\":"@ + quoted(d@.name) + ",\"ip\":"@ + quoted(d@.ip) + ",\"connectionType\":"@ + quoted(d@.connection_type) + ",\"connectedOrbi\":"@ + quoted(d@.connected_orbi) + ",\"connectedOrbiMac\":"@ + quoted(d@.connected_orbi_mac) + ",\"connectionImg\":"@ + quoted(d@.connection_img) + ",\"backhaulStatusStyle\":"@ + quoted(d@.backhaul_status_style) + ",\"backhaulStatus\":"@ + quoted(d@.backhaul_status) + ",\"category\":"@ + quoted(d@.category) + ",\"status\":"@ + dec_digits(d@.status as nat) + ",\"satType\":"@ + dec_digits(d@.sat_type as nat) + ",\"ledStatus\":"@ + dec_digits(d@.led_status as nat) + ",\"ledBrightness\":"@, dec_digits(d@.led_brightness as nat));
    }
    write_nfield(out, ",\"ledSync\":", d.led_sync);
    proof {
        lemma_add_assoc(old(out)@, "{\"mac\":"@ + quoted(d@.mac) + ",\"type\":"@ + quoted(d@.kind) + ",\"model\":"@ + quoted(d@.model) + ",\"name\":"@ + quoted(d@.name) + ",\"ip\":"@ + quoted(d@.ip) + ",\"connectionType\":"@ + quoted(d@.connection_type) + ",\"connectedOrbi\":"@ + quoted(d@.connected_orbi) + ",\"connectedOrbiMac\":"@ + quoted(d@.connected_orbi_mac) + ",\"connectionImg\":"@ + quoted(d@.connection_img) + ",\"backhaulStatusStyle\":"@ + quoted(d@.backhaul_status_style) + ",\"backhaulStatus\":"@ + quoted(d@.backhaul_status) + ",\"category\":"@ + quoted(d@.category) + ",\"status\":"@ + dec_digits(d@.status as nat) + ",\"satType\":"@ + dec_digits(d@.sat_type as nat) + ",\"ledStatus\":"@ + dec_digits(d@.led_status as nat) + ",\"ledBrightness\":"@ + dec_digits(d@.led_brightness as nat), ",\"ledSync\":"@);
        lemma_add_assoc(old(out)@, "{\"mac\":"@ + quoted(d@.mac) + ",\"type\":"@ + quoted(d@.kind) + ",\"model\":"@ + quoted(d@.model) + ",\"name\":"@ + quoted(d@.name) + ",\"ip\":"@ + quoted(d@.ip) + ",\"connectionType\":"@ + quoted(d@.connection_type) + ",\"connectedOrbi\":"@ + quoted(d@.connected_orbi) + ",\"connectedOrbiMac\":"@ + quoted(d@.connected_orbi_mac) + ",\"connectionImg\":"@ + quoted(d@.connection_img) + ",\"backhaulStatusStyle\":"@ + quoted(d@.backhaul_status_style) + ",\"backhaulStatus\":"@ + quoted(d@.backhaul_status) + ",\"category\":"@ + quoted(d@.category) + ",\"status\":"@ + dec_digits(d@.status as nat) + ",\"satType\":"@ + dec_digits(d@.sat_type as nat) + ",\"ledStatus\":"@ + dec_digits(d@.led_status as nat) + ",\"ledBrightness\":"@ + dec_digits(d@.led_brightness as nat) + ",\"ledSync\":"@, dec_digits(d@.led_sync as nat));
    }
    write_qfield(out, ",\"voiceReg\":", d.voice_reg.as_str());
    proof {
        lemma_add_assoc(old(out)@, "{\"mac\":"@ + quoted(d@.mac) + ",\"type\":"@ + quoted(d@.kind) + ",\"model\":"@ + quoted(d@.model) + ",\"name\":"@ + quoted(d@.name) + ",\"ip\":"@ + quoted(d@.ip) + ",\"connectionType\":"@ + quoted(d@.connection_type) + ",\"connectedOrbi\":"@ + quoted(d@.connected_orbi) + ",\"connectedOrbiMac\":"@ + quoted(d@.connected_orbi_mac) + ",\"connectionImg\":"@ + quoted(d@.connection_img) + ",\"backhaulStatusStyle\":"@ + quoted(d@.backhaul_status_style) + ",\"backhaulStatus\":"@ + quoted(d@.backhaul_status) + ",\"category\":"@ + quoted(d@.category) + ",\"status\":"@ + dec_digits(d@.status as nat) + ",\"satType\":"@ + dec_digits(d@.sat_type as nat) + ",\"ledStatus\":"@ + dec_digits(d@.led_status as nat) + ",\"ledBrightness\":"@ + dec_digits(d@.led_brightness as nat) + ",\"ledSync\":"@ + dec_digits(d@.led_sync as nat), ",\"voiceReg\":"@);
        lemma_add_assoc(old(out)@, "{\"mac\":"@ + quoted(d@.mac) + ",\"type\":"@ + quoted(d@.kind) + ",\"model\":"@ + quoted(d@.model) + ",\"name\":"@ + quoted(d@.name) + ",\"ip\":"@ + quoted(d@.ip) + ",\"connectionType\":"@ + quoted(d@.connection_type) + ",\"connectedOrbi\":"@ + quoted(d@.connected_orbi) + ",\"connectedOrbiMac\":"@ + quoted(d@.connected_orbi_mac) + ",\"connectionImg\":"@ + quoted(d@.connection_img) + ",\"backhaulStatusStyle\":"@ + quoted(d@.backhaul_status_style) + ",\"backhaulStatus\":"@ + quoted(d@.backhaul_status) + ",\"category\":"@ + quoted(d@.category) + ",\"status\":"@ + dec_digits(d@.status as nat) + ",\"satType\":"@ + dec_digits(d@.sat_type as nat) + ",\"ledStatus\":"@ + dec_digits(d@.led_status as nat) + ",\"ledBrightness\":"@ + dec_digits(d@.led_brightness as nat) + ",\"ledSync\":"@ + dec_digits(d@.led_sync as nat) + ",\"voiceReg\":"@, quoted(d@.voice_reg));
    }
    append_str(out, "}");
    proof {
        lemma_add_assoc(old(out)@, "{\"mac\":"@ + quoted(d@.mac) + ",\"type\":"@ + quoted(d@.kind) + ",\"model\":"@ + quoted(d@.model) + ",\"name\":"@ + quoted(d@.name) + ",\"ip\":"@ + quoted(d@.ip) + ",\"connectionType\":"@ + quoted(d@.connection_type) + ",\"connectedOrbi\":"@ + quoted(d@.connected_orbi) + ",\"connectedOrbiMac\":"@ + quoted(d@.connected_orbi_mac) + ",\"connectionImg\":"@ + quoted(d@.connection_img) + ",\"backhaulStatusStyle\":"@ + quoted(d@.backhaul_status_style) + ",\"backhaulStatus\":"@ + quoted(d@.backhaul_status) + ",\"category\":"@ + quoted(d@.category) + ",\"status\":"@ + dec_digits(d@.status as nat) + ",\"satType\":"@ + dec_digits(d@.sat_type as nat) + ",\"ledStatus\":"@ + dec_digits(d@.led_status as nat) + ",\"ledBrightness\":"@ + dec_digits(d@.led_brightness as nat) + ",\"ledSync\":"@ + dec_digits(d@.led_sync as nat) + ",\"voiceReg\":"@ + quoted(d@.voice_reg), "}"@);
        assert(out@ == old(out)@ + device_json(d@));
    }
}

/// Appends the canonical JSON forms of a device list.
#[verifier::rlimit(60)]
fn write_devices(out: &mut Vec<char>, ds: &Vec<Device>)
    ensures
        final(out)@ == old(out)@ + devices_json(ds@.map_values(|d: Device| d@)),
{
    let ghost dv = ds@.map_values(|d: Device| d@);
    let n = ds.len();
    proof {
        assert(dv.len() == n);
        assert(out@ + devices_json(dv.subrange(0, 0)) =~= out@);
    }
    for i in 0..n
        invariant
            n == ds@.len(),
            dv == ds@.map_values(|d: Device| d@),
            dv.len() == n,
            out@ == old(out)@ + devices_json(dv.subrange(0, i as int)),
    {
        if i > 0 {
            append_str(out, ",");
        }
        write_device(out, &ds[i]);
        proof {
            let pre = dv.subrange(0, i + 1);
            let prev = dv.subrange(0, i as int);
            assert(pre.last() == dv[i as int]);
            assert(dv[i as int] == ds@[i as int]@);
            if i == 0 {
                assert(old(out)@ + devices_json(prev) =~= old(out)@);
                assert(pre[0] == dv[0]);
                assert(devices_json(pre) == device_json(pre[0]));
            } else {
                assert(pre.drop_last() =~= prev);
                lemma_add_assoc(old(out)@, devices_json(prev), ","@);
                lemma_add_assoc(old(out)@, devices_json(prev) + ","@, device_json(dv[i as int]));
                assert(devices_json(pre) == devices_json(prev) + ","@ + device_json(
                    dv[i as int],
                ));
            }
        }
    }
    proof {
        assert(dv.subrange(0, dv.len() as int) =~= dv);
    }
}

/// Encodes a fetch result as its canonical JSON text.
pub fn encode_attached_devices(a: &AttachedDevices) -> (r: String)
    ensures
        r@ == attached_json(a@),
{
    let mut out: Vec<char> = Vec::new();
    append_str(&mut out, "{\"satellites\":[");
    write_devices(&mut out, &a.satellites);
    append_str(&mut out, "],\"devices\":[");
    write_devices(&mut out, &a.devices);
    append_str(&mut out, "]}");
    proof {
        assert(out@ =~= attached_json(a@));
    }
    chars_to_string(&out)
}

} // verus!
