use vstd::prelude::*;

use crate::device::AttachedDevicesV;
use crate::device::DeviceV;
use crate::devicejson::device_fields_ok;
use crate::devicejson::names_mac;
use crate::devicejson::names_kind;
use crate::devicejson::names_model;
use crate::devicejson::names_name;
use crate::devicejson::names_ip;
use crate::devicejson::names_connection_type;
use crate::devicejson::names_connected_orbi;
use crate::devicejson::names_connected_orbi_mac;
use crate::devicejson::names_connection_img;
use crate::devicejson::names_backhaul_status_style;
use crate::devicejson::names_backhaul_status;
use crate::devicejson::names_category;
use crate::devicejson::names_status;
use crate::devicejson::names_sat_type;
use crate::devicejson::names_led_status;
use crate::devicejson::names_led_brightness;
use crate::devicejson::names_led_sync;
use crate::devicejson::names_voice_reg;
use crate::devicejson::scal_lookup;
use crate::devicejson::spec_attached_of;
use crate::devicejson::spec_device_of;
use crate::devicejson::spec_devices_of;
use crate::devicejson::top_lookup;
use crate::json::MembersV;
use crate::json::ScalarV;
use crate::json::TopV;
use crate::json::TopValV;

verus! {

/// The canonical member list of a device: each field under its primary
/// spelling, in the model's field order.
pub open spec fn device_members(d: DeviceV) -> MembersV {
    seq![
        ("mac"@, ScalarV::Str(d.mac)),
        ("type"@, ScalarV::Str(d.kind)),
        ("model"@, ScalarV::Str(d.model)),
        ("name"@, ScalarV::Str(d.name)),
        ("ip"@, ScalarV::Str(d.ip)),
        ("connectionType"@, ScalarV::Str(d.connection_type)),
        ("connectedOrbi"@, ScalarV::Str(d.connected_orbi)),
        ("connectedOrbiMac"@, ScalarV::Str(d.connected_orbi_mac)),
        ("connectionImg"@, ScalarV::Str(d.connection_img)),
        ("backhaulStatusStyle"@, ScalarV::Str(d.backhaul_status_style)),
        ("backhaulStatus"@, ScalarV::Str(d.backhaul_status)),
        ("category"@, ScalarV::Str(d.category)),
        ("status"@, ScalarV::Num(d.status)),
        ("satType"@, ScalarV::Num(d.sat_type)),
        ("ledStatus"@, ScalarV::Num(d.led_status)),
        ("ledBrightness"@, ScalarV::Num(d.led_brightness)),
        ("ledSync"@, ScalarV::Num(d.led_sync)),
        ("voiceReg"@, ScalarV::Str(d.voice_reg))
    ]
}

/// If none of the first `k` members is selected by `names`, the lookup is
/// decided by the members from `k` on.
proof fn lemma_scal_lookup_skip_front(ms: MembersV, names: Seq<Seq<char>>, k: int)
    requires
        0 <= k <= ms.len(),
        forall|j: int| 0 <= j < k ==> !names.contains((#[trigger] ms[j]).0),
    ensures
        scal_lookup(ms, names) == scal_lookup(ms.skip(k), names),
    decreases k,
{
    if k > 0 {
        assert(ms.drop_first() =~= ms.skip(1));
        lemma_scal_lookup_skip_front(ms.drop_first(), names, k - 1);
        assert(ms.drop_first().skip(k - 1) =~= ms.skip(k));
    } else {
        assert(ms.skip(0) =~= ms);
    }
}

/// The canonical member list resolves the `mac` field to its own value.
proof fn lemma_members_mac(d: DeviceV)
    ensures
        scal_lookup(device_members(d), names_mac()) == Some(
            ScalarV::Str(d.mac),
        ),
{
    reveal_strlit("mac");
    let ms = device_members(d);
    assert forall|j: int| 0 <= j < 0 implies !names_mac().contains(
        (#[trigger] ms[j]).0,
    ) by {}
    lemma_scal_lookup_skip_front(ms, names_mac(), 0);
    assert(ms.skip(0)[0] == ms[0]);
    assert(names_mac()[0] == "mac"@);
    assert(names_mac().contains(ms[0].0));
    assert(scal_lookup(ms, names_mac()) == Some(ms[0].1));
}

/// The canonical member list resolves the `kind` field to its own value.
proof fn lemma_members_kind(d: DeviceV)
    ensures
        scal_lookup(device_members(d), names_kind()) == Some(
            ScalarV::Str(d.kind),
        ),
{
    reveal_strlit("mac");
    reveal_strlit("type");
    let ms = device_members(d);
    assert(ms[0] == ("mac"@, ms[0].1));
    assert(("type"@).len() != ("mac"@).len());
    assert(("type"@) != ("mac"@));
    assert(names_kind()[0] != ms[0].0);
    assert(!names_kind().contains(ms[0].0));
    assert forall|j: int| 0 <= j < 1 implies !names_kind().contains(
        (#[trigger] ms[j]).0,
    ) by {}
    lemma_scal_lookup_skip_front(ms, names_kind(), 1);
    assert(ms.skip(1)[0] == ms[1]);
    assert(names_kind()[0] == "type"@);
    assert(names_kind().contains(ms[1].0));
    assert(scal_lookup(ms, names_kind()) == Some(ms[1].1));
}

/// The canonical member list resolves the `model` field to its own value.
proof fn lemma_members_model(d: DeviceV)
    ensures
        scal_lookup(device_members(d), names_model()) == Some(
            ScalarV::Str(d.model),
        ),
{
    reveal_strlit("mac");
    reveal_strlit("model");
    reveal_strlit("type");
    let ms = device_members(d);
    assert(ms[0] == ("mac"@, ms[0].1));
    assert(("model"@).len() != ("mac"@).len());
    assert(("model"@) != ("mac"@));
    assert(names_model()[0] != ms[0].0);
    assert(!names_model().contains(ms[0].0));
    assert(ms[1] == ("type"@, ms[1].1));
    assert(("model"@).len() != ("type"@).len());
    assert(("model"@) != ("type"@));
    assert(names_model()[0] != ms[1].0);
    assert(!names_model().contains(ms[1].0));
    assert forall|j: int| 0 <= j < 2 implies !names_model().contains(
        (#[trigger] ms[j]).0,
    ) by {}
    lemma_scal_lookup_skip_front(ms, names_model(), 2);
    assert(ms.skip(2)[0] == ms[2]);
    assert(names_model()[0] == "model"@);
    assert(names_model().contains(ms[2].0));
    assert(scal_lookup(ms, names_model()) == Some(ms[2].1));
}

/// The canonical member list resolves the `name` field to its own value.
proof fn lemma_members_name(d: DeviceV)
    ensures
        scal_lookup(device_members(d), names_name()) == Some(
            ScalarV::Str(d.name),
        ),
{
    reveal_strlit("mac");
    reveal_strlit("model");
    reveal_strlit("name");
    reveal_strlit("type");
    let ms = device_members(d);
    assert(ms[0] == ("mac"@, ms[0].1));
    assert(("name"@).len() != ("mac"@).len());
    assert(("name"@) != ("mac"@));
    assert(names_name()[0] != ms[0].0);
    assert(!names_name().contains(ms[0].0));
    assert(ms[1] == ("type"@, ms[1].1));
    assert(("name"@)[0] != ("type"@)[0]);
    assert(("name"@) != ("type"@));
    assert(names_name()[0] != ms[1].0);
    assert(!names_name().contains(ms[1].0));
    assert(ms[2] == ("model"@, ms[2].1));
    assert(("name"@).len() != ("model"@).len());
    assert(("name"@) != ("model"@));
    assert(names_name()[0] != ms[2].0);
    assert(!names_name().contains(ms[2].0));
    assert forall|j: int| 0 <= j < 3 implies !names_name().contains(
        (#[trigger] ms[j]).0,
    ) by {}
    lemma_scal_lookup_skip_front(ms, names_name(), 3);
    assert(ms.skip(3)[0] == ms[3]);
    assert(names_name()[0] == "name"@);
    assert(names_name().contains(ms[3].0));
    assert(scal_lookup(ms, names_name()) == Some(ms[3].1));
}

/// The canonical member list resolves the `ip` field to its own value.
proof fn lemma_members_ip(d: DeviceV)
    ensures
        scal_lookup(device_members(d), names_ip()) == Some(
            ScalarV::Str(d.ip),
        ),
{
    reveal_strlit("ip");
    reveal_strlit("mac");
    reveal_strlit("model");
    reveal_strlit("name");
    reveal_strlit("type");
    let ms = device_members(d);
    assert(ms[0] == ("mac"@, ms[0].1));
    assert(("ip"@).len() != ("mac"@).len());
    assert(("ip"@) != ("mac"@));
    assert(names_ip()[0] != ms[0].0);
    assert(!names_ip().contains(ms[0].0));
    assert(ms[1] == ("type"@, ms[1].1));
    assert(("ip"@).len() != ("type"@).len());
    assert(("ip"@) != ("type"@));
    assert(names_ip()[0] != ms[1].0);
    assert(!names_ip().contains(ms[1].0));
    assert(ms[2] == ("model"@, ms[2].1));
    assert(("ip"@).len() != ("model"@).len());
    assert(("ip"@) != ("model"@));
    assert(names_ip()[0] != ms[2].0);
    assert(!names_ip().contains(ms[2].0));
    assert(ms[3] == ("name"@, ms[3].1));
    assert(("ip"@).len() != ("name"@).len());
    assert(("ip"@) != ("name"@));
    assert(names_ip()[0] != ms[3].0);
    assert(!names_ip().contains(ms[3].0));
    assert forall|j: int| 0 <= j < 4 implies !names_ip().contains(
        (#[trigger] ms[j]).0,
    ) by {}
    lemma_scal_lookup_skip_front(ms, names_ip(), 4);
    assert(ms.skip(4)[0] == ms[4]);
    assert(names_ip()[0] == "ip"@);
    assert(names_ip().contains(ms[4].0));
    assert(scal_lookup(ms, names_ip()) == Some(ms[4].1));
}

/// The canonical member list resolves the `connection_type` field to its own value.
proof fn lemma_members_connection_type(d: DeviceV)
    ensures
        scal_lookup(device_members(d), names_connection_type()) == Some(
            ScalarV::Str(d.connection_type),
        ),
{
    reveal_strlit("connectionType");
    reveal_strlit("ip");
    reveal_strlit("mac");
    reveal_strlit("model");
    reveal_strlit("name");
    reveal_strlit("type");
    let ms = device_members(d);
    assert(ms[0] == ("mac"@, ms[0].1));
    assert(("connectionType"@).len() != ("mac"@).len());
    assert(("connectionType"@) != ("mac"@));
    assert(names_connection_type()[0] != ms[0].0);
    assert(!names_connection_type().contains(ms[0].0));
    assert(ms[1] == ("type"@, ms[1].1));
    assert(("connectionType"@).len() != ("type"@).len());
    assert(("connectionType"@) != ("type"@));
    assert(names_connection_type()[0] != ms[1].0);
    assert(!names_connection_type().contains(ms[1].0));
    assert(ms[2] == ("model"@, ms[2].1));
    assert(("connectionType"@).len() != ("model"@).len());
    assert(("connectionType"@) != ("model"@));
    assert(names_connection_type()[0] != ms[2].0);
    assert(!names_connection_type().contains(ms[2].0));
    assert(ms[3] == ("name"@, ms[3].1));
    assert(("connectionType"@).len() != ("name"@).len());
    assert(("connectionType"@) != ("name"@));
    assert(names_connection_type()[0] != ms[3].0);
    assert(!names_connection_type().contains(ms[3].0));
    assert(ms[4] == ("ip"@, ms[4].1));
    assert(("connectionType"@).len() != ("ip"@).len());
    assert(("connectionType"@) != ("ip"@));
    assert(names_connection_type()[0] != ms[4].0);
    assert(!names_connection_type().contains(ms[4].0));
    assert forall|j: int| 0 <= j < 5 implies !names_connection_type().contains(
        (#[trigger] ms[j]).0,
    ) by {}
    lemma_scal_lookup_skip_front(ms, names_connection_type(), 5);
    assert(ms.skip(5)[0] == ms[5]);
    assert(names_connection_type()[0] == "connectionType"@);
    assert(names_connection_type().contains(ms[5].0));
    assert(scal_lookup(ms, names_connection_type()) == Some(ms[5].1));
}

/// The canonical member list resolves the `connected_orbi` field to its own value.
proof fn lemma_members_connected_orbi(d: DeviceV)
    ensures
        scal_lookup(device_members(d), names_connected_orbi()) == Some(
            ScalarV::Str(d.connected_orbi),
        ),
{
    reveal_strlit("ConnectedOrbi");
    reveal_strlit("connectedOrbi");
    reveal_strlit("connectionType");
    reveal_strlit("ip");
    reveal_strlit("mac");
    reveal_strlit("model");
    reveal_strlit("name");
    reveal_strlit("type");
    let ms = device_members(d);
    assert(ms[0] == ("mac"@, ms[0].1));
    assert(("connectedOrbi"@).len() != ("mac"@).len());
    assert(("connectedOrbi"@) != ("mac"@));
    assert(("ConnectedOrbi"@).len() != ("mac"@).len());
    assert(("ConnectedOrbi"@) != ("mac"@));
    assert(names_connected_orbi()[0] != ms[0].0 && names_connected_orbi()[1] != ms[0].0);
    assert(!names_connected_orbi().contains(ms[0].0));
    assert(ms[1] == ("type"@, ms[1].1));
    assert(("connectedOrbi"@).len() != ("type"@).len());
    assert(("connectedOrbi"@) != ("type"@));
    assert(("ConnectedOrbi"@).len() != ("type"@).len());
    assert(("ConnectedOrbi"@) != ("type"@));
    assert(names_connected_orbi()[0] != ms[1].0 && names_connected_orbi()[1] != ms[1].0);
    assert(!names_connected_orbi().contains(ms[1].0));
    assert(ms[2] == ("model"@, ms[2].1));
    assert(("connectedOrbi"@).len() != ("model"@).len());
    assert(("connectedOrbi"@) != ("model"@));
    assert(("ConnectedOrbi"@).len() != ("model"@).len());
    assert(("ConnectedOrbi"@) != ("model"@));
    assert(names_connected_orbi()[0] != ms[2].0 && names_connected_orbi()[1] != ms[2].0);
    assert(!names_connected_orbi().contains(ms[2].0));
    assert(ms[3] == ("name"@, ms[3].1));
    assert(("connectedOrbi"@).len() != ("name"@).len());
    assert(("connectedOrbi"@) != ("name"@));
    assert(("ConnectedOrbi"@).len() != ("name"@).len());
    assert(("ConnectedOrbi"@) != ("name"@));
    assert(names_connected_orbi()[0] != ms[3].0 && names_connected_orbi()[1] != ms[3].0);
    assert(!names_connected_orbi().contains(ms[3].0));
    assert(ms[4] == ("ip"@, ms[4].1));
    assert(("connectedOrbi"@).len() != ("ip"@).len());
    assert(("connectedOrbi"@) != ("ip"@));
    assert(("ConnectedOrbi"@).len() != ("ip"@).len());
    assert(("ConnectedOrbi"@) != ("ip"@));
    assert(names_connected_orbi()[0] != ms[4].0 && names_connected_orbi()[1] != ms[4].0);
    assert(!names_connected_orbi().contains(ms[4].0));
    assert(ms[5] == ("connectionType"@, ms[5].1));
    assert(("connectedOrbi"@).len() != ("connectionType"@).len());
    assert(("connectedOrbi"@) != ("connectionType"@));
    assert(("ConnectedOrbi"@).len() != ("connectionType"@).len());
    assert(("ConnectedOrbi"@) != ("connectionType"@));
    assert(names_connected_orbi()[0] != ms[5].0 && names_connected_orbi()[1] != ms[5].0);
    assert(!names_connected_orbi().contains(ms[5].0));
    assert forall|j: int| 0 <= j < 6 implies !names_connected_orbi().contains(
        (#[trigger] ms[j]).0,
    ) by {}
    lemma_scal_lookup_skip_front(ms, names_connected_orbi(), 6);
    assert(ms.skip(6)[0] == ms[6]);
    assert(names_connected_orbi()[0] == "connectedOrbi"@);
    assert(names_connected_orbi().contains(ms[6].0));
    assert(scal_lookup(ms, names_connected_orbi()) == Some(ms[6].1));
}

/// The canonical member list resolves the `connected_orbi_mac` field to its own value.
proof fn lemma_members_connected_orbi_mac(d: DeviceV)
    ensures
        scal_lookup(device_members(d), names_connected_orbi_mac()) == Some(
            ScalarV::Str(d.connected_orbi_mac),
        ),
{
    reveal_strlit("ConnectedOrbiMAC");
    reveal_strlit("connectedOrbi");
    reveal_strlit("connectedOrbiMac");
    reveal_strlit("connectionType");
    reveal_strlit("ip");
    reveal_strlit("mac");
    reveal_strlit("model");
    reveal_strlit("name");
    reveal_strlit("type");
    let ms = device_members(d);
    assert(ms[0] == ("mac"@, ms[0].1));
    assert(("connectedOrbiMac"@).len() != ("mac"@).len());
    assert(("connectedOrbiMac"@) != ("mac"@));
    assert(("ConnectedOrbiMAC"@).len() != ("mac"@).len());
    assert(("ConnectedOrbiMAC"@) != ("mac"@));
    assert(names_connected_orbi_mac()[0] != ms[0].0 && names_connected_orbi_mac()[1] != ms[0].0);
    assert(!names_connected_orbi_mac().contains(ms[0].0));
    assert(ms[1] == ("type"@, ms[1].1));
    assert(("connectedOrbiMac"@).len() != ("type"@).len());
    assert(("connectedOrbiMac"@) != ("type"@));
    assert(("ConnectedOrbiMAC"@).len() != ("type"@).len());
    assert(("ConnectedOrbiMAC"@) != ("type"@));
    assert(names_connected_orbi_mac()[0] != ms[1].0 && names_connected_orbi_mac()[1] != ms[1].0);
    assert(!names_connected_orbi_mac().contains(ms[1].0));
    assert(ms[2] == ("model"@, ms[2].1));
    assert(("connectedOrbiMac"@).len() != ("model"@).len());
    assert(("connectedOrbiMac"@) != ("model"@));
    assert(("ConnectedOrbiMAC"@).len() != ("model"@).len());
    assert(("ConnectedOrbiMAC"@) != ("model"@));
    assert(names_connected_orbi_mac()[0] != ms[2].0 && names_connected_orbi_mac()[1] != ms[2].0);
    assert(!names_connected_orbi_mac().contains(ms[2].0));
    assert(ms[3] == ("name"@, ms[3].1));
    assert(("connectedOrbiMac"@).len() != ("name"@).len());
    assert(("connectedOrbiMac"@) != ("name"@));
    assert(("ConnectedOrbiMAC"@).len() != ("name"@).len());
    assert(("ConnectedOrbiMAC"@) != ("name"@));
    assert(names_connected_orbi_mac()[0] != ms[3].0 && names_connected_orbi_mac()[1] != ms[3].0);
    assert(!names_connected_orbi_mac().contains(ms[3].0));
    assert(ms[4] == ("ip"@, ms[4].1));
    assert(("connectedOrbiMac"@).len() != ("ip"@).len());
    assert(("connectedOrbiMac"@) != ("ip"@));
    assert(("ConnectedOrbiMAC"@).len() != ("ip"@).len());
    assert(("ConnectedOrbiMAC"@) != ("ip"@));
    assert(names_connected_orbi_mac()[0] != ms[4].0 && names_connected_orbi_mac()[1] != ms[4].0);
    assert(!names_connected_orbi_mac().contains(ms[4].0));
    assert(ms[5] == ("connectionType"@, ms[5].1));
    assert(("connectedOrbiMac"@).len() != ("connectionType"@).len());
    assert(("connectedOrbiMac"@) != ("connectionType"@));
    assert(("ConnectedOrbiMAC"@).len() != ("connectionType"@).len());
    assert(("ConnectedOrbiMAC"@) != ("connectionType"@));
    assert(names_connected_orbi_mac()[0] != ms[5].0 && names_connected_orbi_mac()[1] != ms[5].0);
    assert(!names_connected_orbi_mac().contains(ms[5].0));
    assert(ms[6] == ("connectedOrbi"@, ms[6].1));
    assert(("connectedOrbiMac"@).len() != ("connectedOrbi"@).len());
    assert(("connectedOrbiMac"@) != ("connectedOrbi"@));
    assert(("ConnectedOrbiMAC"@).len() != ("connectedOrbi"@).len());
    assert(("ConnectedOrbiMAC"@) != ("connectedOrbi"@));
    assert(names_connected_orbi_mac()[0] != ms[6].0 && names_connected_orbi_mac()[1] != ms[6].0);
    assert(!names_connected_orbi_mac().contains(ms[6].0));
    assert forall|j: int| 0 <= j < 7 implies !names_connected_orbi_mac().contains(
        (#[trigger] ms[j]).0,
    ) by {}
    lemma_scal_lookup_skip_front(ms, names_connected_orbi_mac(), 7);
    assert(ms.skip(7)[0] == ms[7]);
    assert(names_connected_orbi_mac()[0] == "connectedOrbiMac"@);
    assert(names_connected_orbi_mac().contains(ms[7].0));
    assert(scal_lookup(ms, names_connected_orbi_mac()) == Some(ms[7].1));
}

/// The canonical member list resolves the `connection_img` field to its own value.
proof fn lemma_members_connection_img(d: DeviceV)
    ensures
        scal_lookup(device_members(d), names_connection_img()) == Some(
            ScalarV::Str(d.connection_img),
        ),
{
    reveal_strlit("connectedOrbi");
    reveal_strlit("connectedOrbiMac");
    reveal_strlit("connectionImg");
    reveal_strlit("connectionType");
    reveal_strlit("ip");
    reveal_strlit("mac");
    reveal_strlit("model");
    reveal_strlit("name");
    reveal_strlit("type");
    let ms = device_members(d);
    assert(ms[0] == ("mac"@, ms[0].1));
    assert(("connectionImg"@).len() != ("mac"@).len());
    assert(("connectionImg"@) != ("mac"@));
    assert(names_connection_img()[0] != ms[0].0);
    assert(!names_connection_img().contains(ms[0].0));
    assert(ms[1] == ("type"@, ms[1].1));
    assert(("connectionImg"@).len() != ("type"@).len());
    assert(("connectionImg"@) != ("type"@));
    assert(names_connection_img()[0] != ms[1].0);
    assert(!names_connection_img().contains(ms[1].0));
    assert(ms[2] == ("model"@, ms[2].1));
    assert(("connectionImg"@).len() != ("model"@).len());
    assert(("connectionImg"@) != ("model"@));
    assert(names_connection_img()[0] != ms[2].0);
    assert(!names_connection_img().contains(ms[2].0));
    assert(ms[3] == ("name"@, ms[3].1));
    assert(("connectionImg"@).len() != ("name"@).len());
    assert(("connectionImg"@) != ("name"@));
    assert(names_connection_img()[0] != ms[3].0);
    assert(!names_connection_img().contains(ms[3].0));
    assert(ms[4] == ("ip"@, ms[4].1));
    assert(("connectionImg"@).len() != ("ip"@).len());
    assert(("connectionImg"@) != ("ip"@));
    assert(names_connection_img()[0] != ms[4].0);
    assert(!names_connection_img().contains(ms[4].0));
    assert(ms[5] == ("connectionType"@, ms[5].1));
    assert(("connectionImg"@).len() != ("connectionType"@).len());
    assert(("connectionImg"@) != ("connectionType"@));
    assert(names_connection_img()[0] != ms[5].0);
    assert(!names_connection_img().contains(ms[5].0));
    assert(ms[6] == ("connectedOrbi"@, ms[6].1));
    assert(("connectionImg"@)[7] != ("connectedOrbi"@)[7]);
    assert(("connectionImg"@) != ("connectedOrbi"@));
    assert(names_connection_img()[0] != ms[6].0);
    assert(!names_connection_img().contains(ms[6].0));
    assert(ms[7] == ("connectedOrbiMac"@, ms[7].1));
    assert(("connectionImg"@).len() != ("connectedOrbiMac"@).len());
    assert(("connectionImg"@) != ("connectedOrbiMac"@));
    assert(names_connection_img()[0] != ms[7].0);
    assert(!names_connection_img().contains(ms[7].0));
    assert forall|j: int| 0 <= j < 8 implies !names_connection_img().contains(
        (#[trigger] ms[j]).0,
    ) by {}
    lemma_scal_lookup_skip_front(ms, names_connection_img(), 8);
    assert(ms.skip(8)[0] == ms[8]);
    assert(names_connection_img()[0] == "connectionImg"@);
    assert(names_connection_img().contains(ms[8].0));
    assert(scal_lookup(ms, names_connection_img()) == Some(ms[8].1));
}

/// The canonical member list resolves the `backhaul_status_style` field to its own value.
proof fn lemma_members_backhaul_status_style(d: DeviceV)
    ensures
        scal_lookup(device_members(d), names_backhaul_status_style()) == Some(
            ScalarV::Str(d.backhaul_status_style),
        ),
{
    reveal_strlit("backhaulStatusStyle");
    reveal_strlit("connectedOrbi");
    reveal_strlit("connectedOrbiMac");
    reveal_strlit("connectionImg");
    reveal_strlit("connectionType");
    reveal_strlit("ip");
    reveal_strlit("mac");
    reveal_strlit("model");
    reveal_strlit("name");
    reveal_strlit("type");
    let ms = device_members(d);
    assert(ms[0] == ("mac"@, ms[0].1));
    assert(("backhaulStatusStyle"@).len() != ("mac"@).len());
    assert(("backhaulStatusStyle"@) != ("mac"@));
    assert(names_backhaul_status_style()[0] != ms[0].0);
    assert(!names_backhaul_status_style().contains(ms[0].0));
    assert(ms[1] == ("type"@, ms[1].1));
    assert(("backhaulStatusStyle"@).len() != ("type"@).len());
    assert(("backhaulStatusStyle"@) != ("type"@));
    assert(names_backhaul_status_style()[0] != ms[1].0);
    assert(!names_backhaul_status_style().contains(ms[1].0));
    assert(ms[2] == ("model"@, ms[2].1));
    assert(("backhaulStatusStyle"@).len() != ("model"@).len());
    assert(("backhaulStatusStyle"@) != ("model"@));
    assert(names_backhaul_status_style()[0] != ms[2].0);
    assert(!names_backhaul_status_style().contains(ms[2].0));
    assert(ms[3] == ("name"@, ms[3].1));
    assert(("backhaulStatusStyle"@).len() != ("name"@).len());
    assert(("backhaulStatusStyle"@) != ("name"@));
    assert(names_backhaul_status_style()[0] != ms[3].0);
    assert(!names_backhaul_status_style().contains(ms[3].0));
    assert(ms[4] == ("ip"@, ms[4].1));
    assert(("backhaulStatusStyle"@).len() != ("ip"@).len());
    assert(("backhaulStatusStyle"@) != ("ip"@));
    assert(names_backhaul_status_style()[0] != ms[4].0);
    assert(!names_backhaul_status_style().contains(ms[4].0));
    assert(ms[5] == ("connectionType"@, ms[5].1));
    assert(("backhaulStatusStyle"@).len() != ("connectionType"@).len());
    assert(("backhaulStatusStyle"@) != ("connectionType"@));
    assert(names_backhaul_status_style()[0] != ms[5].0);
    assert(!names_backhaul_status_style().contains(ms[5].0));
    assert(ms[6] == ("connectedOrbi"@, ms[6].1));
    assert(("backhaulStatusStyle"@).len() != ("connectedOrbi"@).len());
    assert(("backhaulStatusStyle"@) != ("connectedOrbi"@));
    assert(names_backhaul_status_style()[0] != ms[6].0);
    assert(!names_backhaul_status_style().contains(ms[6].0));
    assert(ms[7] == ("connectedOrbiMac"@, ms[7].1));
    assert(("backhaulStatusStyle"@).len() != ("connectedOrbiMac"@).len());
    assert(("backhaulStatusStyle"@) != ("connectedOrbiMac"@));
    assert(names_backhaul_status_style()[0] != ms[7].0);
    assert(!names_backhaul_status_style().contains(ms[7].0));
    assert(ms[8] == ("connectionImg"@, ms[8].1));
    assert(("backhaulStatusStyle"@).len() != ("connectionImg"@).len());
    assert(("backhaulStatusStyle"@) != ("connectionImg"@));
    assert(names_backhaul_status_style()[0] != ms[8].0);
    assert(!names_backhaul_status_style().contains(ms[8].0));
    assert forall|j: int| 0 <= j < 9 implies !names_backhaul_status_style().contains(
        (#[trigger] ms[j]).0,
    ) by {}
    lemma_scal_lookup_skip_front(ms, names_backhaul_status_style(), 9);
    assert(ms.skip(9)[0] == ms[9]);
    assert(names_backhaul_status_style()[0] == "backhaulStatusStyle"@);
    assert(names_backhaul_status_style().contains(ms[9].0));
    assert(scal_lookup(ms, names_backhaul_status_style()) == Some(ms[9].1));
}

/// The canonical member list resolves the `backhaul_status` field to its own value.
proof fn lemma_members_backhaul_status(d: DeviceV)
    ensures
        scal_lookup(device_members(d), names_backhaul_status()) == Some(
            ScalarV::Str(d.backhaul_status),
        ),
{
    reveal_strlit("backhaulStatus");
    reveal_strlit("backhaulStatusStyle");
    reveal_strlit("connectedOrbi");
    reveal_strlit("connectedOrbiMac");
    reveal_strlit("connectionImg");
    reveal_strlit("connectionType");
    reveal_strlit("ip");
    reveal_strlit("mac");
    reveal_strlit("model");
    reveal_strlit("name");
    reveal_strlit("type");
    let ms = device_members(d);
    assert(ms[0] == ("mac"@, ms[0].1));
    assert(("backhaulStatus"@).len() != ("mac"@).len());
    assert(("backhaulStatus"@) != ("mac"@));
    assert(names_backhaul_status()[0] != ms[0].0);
    assert(!names_backhaul_status().contains(ms[0].0));
    assert(ms[1] == ("type"@, ms[1].1));
    assert(("backhaulStatus"@).len() != ("type"@).len());
    assert(("backhaulStatus"@) != ("type"@));
    assert(names_backhaul_status()[0] != ms[1].0);
    assert(!names_backhaul_status().contains(ms[1].0));
    assert(ms[2] == ("model"@, ms[2].1));
    assert(("backhaulStatus"@).len() != ("model"@).len());
    assert(("backhaulStatus"@) != ("model"@));
    assert(names_backhaul_status()[0] != ms[2].0);
    assert(!names_backhaul_status().contains(ms[2].0));
    assert(ms[3] == ("name"@, ms[3].1));
    assert(("backhaulStatus"@).len() != ("name"@).len());
    assert(("backhaulStatus"@) != ("name"@));
    assert(names_backhaul_status()[0] != ms[3].0);
    assert(!names_backhaul_status().contains(ms[3].0));
    assert(ms[4] == ("ip"@, ms[4].1));
    assert(("backhaulStatus"@).len() != ("ip"@).len());
    assert(("backhaulStatus"@) != ("ip"@));
    assert(names_backhaul_status()[0] != ms[4].0);
    assert(!names_backhaul_status().contains(ms[4].0));
    assert(ms[5] == ("connectionType"@, ms[5].1));
    assert(("backhaulStatus"@)[0] != ("connectionType"@)[0]);
    assert(("backhaulStatus"@) != ("connectionType"@));
    assert(names_backhaul_status()[0] != ms[5].0);
    assert(!names_backhaul_status().contains(ms[5].0));
    assert(ms[6] == ("connectedOrbi"@, ms[6].1));
    assert(("backhaulStatus"@).len() != ("connectedOrbi"@).len());
    assert(("backhaulStatus"@) != ("connectedOrbi"@));
    assert(names_backhaul_status()[0] != ms[6].0);
    assert(!names_backhaul_status().contains(ms[6].0));
    assert(ms[7] == ("connectedOrbiMac"@, ms[7].1));
    assert(("backhaulStatus"@).len() != ("connectedOrbiMac"@).len());
    assert(("backhaulStatus"@) != ("connectedOrbiMac"@));
    assert(names_backhaul_status()[0] != ms[7].0);
    assert(!names_backhaul_status().contains(ms[7].0));
    assert(ms[8] == ("connectionImg"@, ms[8].1));
    assert(("backhaulStatus"@).len() != ("connectionImg"@).len());
    assert(("backhaulStatus"@) != ("connectionImg"@));
    assert(names_backhaul_status()[0] != ms[8].0);
    assert(!names_backhaul_status().contains(ms[8].0));
    assert(ms[9] == ("backhaulStatusStyle"@, ms[9].1));
    assert(("backhaulStatus"@).len() != ("backhaulStatusStyle"@).len());
    assert(("backhaulStatus"@) != ("backhaulStatusStyle"@));
    assert(names_backhaul_status()[0] != ms[9].0);
    assert(!names_backhaul_status().contains(ms[9].0));
    assert forall|j: int| 0 <= j < 10 implies !names_backhaul_status().contains(
        (#[trigger] ms[j]).0,
    ) by {}
    lemma_scal_lookup_skip_front(ms, names_backhaul_status(), 10);
    assert(ms.skip(10)[0] == ms[10]);
    assert(names_backhaul_status()[0] == "backhaulStatus"@);
    assert(names_backhaul_status().contains(ms[10].0));
    assert(scal_lookup(ms, names_backhaul_status()) == Some(ms[10].1));
}

/// The canonical member list resolves the `category` field to its own value.
proof fn lemma_members_category(d: DeviceV)
    ensures
        scal_lookup(device_members(d), names_category()) == Some(
            ScalarV::Str(d.category),
        ),
{
    reveal_strlit("backhaulStatus");
    reveal_strlit("backhaulStatusStyle");
    reveal_strlit("category");
    reveal_strlit("connectedOrbi");
    reveal_strlit("connectedOrbiMac");
    reveal_strlit("connectionImg");
    reveal_strlit("connectionType");
    reveal_strlit("ip");
    reveal_strlit("mac");
    reveal_strlit("model");
    reveal_strlit("name");
    reveal_strlit("type");
    let ms = device_members(d);
    assert(ms[0] == ("mac"@, ms[0].1));
    assert(("category"@).len() != ("mac"@).len());
    assert(("category"@) != ("mac"@));
    assert(names_category()[0] != ms[0].0);
    assert(!names_category().contains(ms[0].0));
    assert(ms[1] == ("type"@, ms[1].1));
    assert(("category"@).len() != ("type"@).len());
    assert(("category"@) != ("type"@));
    assert(names_category()[0] != ms[1].0);
    assert(!names_category().contains(ms[1].0));
    assert(ms[2] == ("model"@, ms[2].1));
    assert(("category"@).len() != ("model"@).len());
    assert(("category"@) != ("model"@));
    assert(names_category()[0] != ms[2].0);
    assert(!names_category().contains(ms[2].0));
    assert(ms[3] == ("name"@, ms[3].1));
    assert(("category"@).len() != ("name"@).len());
    assert(("category"@) != ("name"@));
    assert(names_category()[0] != ms[3].0);
    assert(!names_category().contains(ms[3].0));
    assert(ms[4] == ("ip"@, ms[4].1));
    assert(("category"@).len() != ("ip"@).len());
    assert(("category"@) != ("ip"@));
    assert(names_category()[0] != ms[4].0);
    assert(!names_category().contains(ms[4].0));
    assert(ms[5] == ("connectionType"@, ms[5].1));
    assert(("category"@).len() != ("connectionType"@).len());
    assert(("category"@) != ("connectionType"@));
    assert(names_category()[0] != ms[5].0);
    assert(!names_category().contains(ms[5].0));
    assert(ms[6] == ("connectedOrbi"@, ms[6].1));
    assert(("category"@).len() != ("connectedOrbi"@).len());
    assert(("category"@) != ("connectedOrbi"@));
    assert(names_category()[0] != ms[6].0);
    assert(!names_category().contains(ms[6].0));
    assert(ms[7] == ("connectedOrbiMac"@, ms[7].1));
    assert(("category"@).len() != ("connectedOrbiMac"@).len());
    assert(("category"@) != ("connectedOrbiMac"@));
    assert(names_category()[0] != ms[7].0);
    assert(!names_category().contains(ms[7].0));
    assert(ms[8] == ("connectionImg"@, ms[8].1));
    assert(("category"@).len() != ("connectionImg"@).len());
    assert(("category"@) != ("connectionImg"@));
    assert(names_category()[0] != ms[8].0);
    assert(!names_category().contains(ms[8].0));
    assert(ms[9] == ("backhaulStatusStyle"@, ms[9].1));
    assert(("category"@).len() != ("backhaulStatusStyle"@).len());
    assert(("category"@) != ("backhaulStatusStyle"@));
    assert(names_category()[0] != ms[9].0);
    assert(!names_category().contains(ms[9].0));
    assert(ms[10] == ("backhaulStatus"@, ms[10].1));
    assert(("category"@).len() != ("backhaulStatus"@).len());
    assert(("category"@) != ("backhaulStatus"@));
    assert(names_category()[0] != ms[10].0);
    assert(!names_category().contains(ms[10].0));
    assert forall|j: int| 0 <= j < 11 implies !names_category().contains(
        (#[trigger] ms[j]).0,
    ) by {}
    lemma_scal_lookup_skip_front(ms, names_category(), 11);
    assert(ms.skip(11)[0] == ms[11]);
    assert(names_category()[0] == "category"@);
    assert(names_category().contains(ms[11].0));
    assert(scal_lookup(ms, names_category()) == Some(ms[11].1));
}

/// The canonical member list resolves the `status` field to its own value.
proof fn lemma_members_status(d: DeviceV)
    ensures
        scal_lookup(device_members(d), names_status()) == Some(
            ScalarV::Num(d.status),
        ),
{
    reveal_strlit("backhaulStatus");
    reveal_strlit("backhaulStatusStyle");
    reveal_strlit("category");
    reveal_strlit("connectedOrbi");
    reveal_strlit("connectedOrbiMac");
    reveal_strlit("connectionImg");
    reveal_strlit("connectionType");
    reveal_strlit("ip");
    reveal_strlit("mac");
    reveal_strlit("model");
    reveal_strlit("name");
    reveal_strlit("status");
    reveal_strlit("type");
    let ms = device_members(d);
    assert(ms[0] == ("mac"@, ms[0].1));
    assert(("status"@).len() != ("mac"@).len());
    assert(("status"@) != ("mac"@));
    assert(names_status()[0] != ms[0].0);
    assert(!names_status().contains(ms[0].0));
    assert(ms[1] == ("type"@, ms[1].1));
    assert(("status"@).len() != ("type"@).len());
    assert(("status"@) != ("type"@));
    assert(names_status()[0] != ms[1].0);
    assert(!names_status().contains(ms[1].0));
    assert(ms[2] == ("model"@, ms[2].1));
    assert(("status"@).len() != ("model"@).len());
    assert(("status"@) != ("model"@));
    assert(names_status()[0] != ms[2].0);
    assert(!names_status().contains(ms[2].0));
    assert(ms[3] == ("name"@, ms[3].1));
    assert(("status"@).len() != ("name"@).len());
    assert(("status"@) != ("name"@));
    assert(names_status()[0] != ms[3].0);
    assert(!names_status().contains(ms[3].0));
    assert(ms[4] == ("ip"@, ms[4].1));
    assert(("status"@).len() != ("ip"@).len());
    assert(("status"@) != ("ip"@));
    assert(names_status()[0] != ms[4].0);
    assert(!names_status().contains(ms[4].0));
    assert(ms[5] == ("connectionType"@, ms[5].1));
    assert(("status"@).len() != ("connectionType"@).len());
    assert(("status"@) != ("connectionType"@));
    assert(names_status()[0] != ms[5].0);
    assert(!names_status().contains(ms[5].0));
    assert(ms[6] == ("connectedOrbi"@, ms[6].1));
    assert(("status"@).len() != ("connectedOrbi"@).len());
    assert(("status"@) != ("connectedOrbi"@));
    assert(names_status()[0] != ms[6].0);
    assert(!names_status().contains(ms[6].0));
    assert(ms[7] == ("connectedOrbiMac"@, ms[7].1));
    assert(("status"@).len() != ("connectedOrbiMac"@).len());
    assert(("status"@) != ("connectedOrbiMac"@));
    assert(names_status()[0] != ms[7].0);
    assert(!names_status().contains(ms[7].0));
    assert(ms[8] == ("connectionImg"@, ms[8].1));
    assert(("status"@).len() != ("connectionImg"@).len());
    assert(("status"@) != ("connectionImg"@));
    assert(names_status()[0] != ms[8].0);
    assert(!names_status().contains(ms[8].0));
    assert(ms[9] == ("backhaulStatusStyle"@, ms[9].1));
    assert(("status"@).len() != ("backhaulStatusStyle"@).len());
    assert(("status"@) != ("backhaulStatusStyle"@));
    assert(names_status()[0] != ms[9].0);
    assert(!names_status().contains(ms[9].0));
    assert(ms[10] == ("backhaulStatus"@, ms[10].1));
    assert(("status"@).len() != ("backhaulStatus"@).len());
    assert(("status"@) != ("backhaulStatus"@));
    assert(names_status()[0] != ms[10].0);
    assert(!names_status().contains(ms[10].0));
    assert(ms[11] == ("category"@, ms[11].1));
    assert(("status"@).len() != ("category"@).len());
    assert(("status"@) != ("category"@));
    assert(names_status()[0] != ms[11].0);
    assert(!names_status().contains(ms[11].0));
    assert forall|j: int| 0 <= j < 12 implies !names_status().contains(
        (#[trigger] ms[j]).0,
    ) by {}
    lemma_scal_lookup_skip_front(ms, names_status(), 12);
    assert(ms.skip(12)[0] == ms[12]);
    assert(names_status()[0] == "status"@);
    assert(names_status().contains(ms[12].0));
    assert(scal_lookup(ms, names_status()) == Some(ms[12].1));
}

/// The canonical member list resolves the `sat_type` field to its own value.
proof fn lemma_members_sat_type(d: DeviceV)
    ensures
        scal_lookup(device_members(d), names_sat_type()) == Some(
            ScalarV::Num(d.sat_type),
        ),
{
    reveal_strlit("backhaulStatus");
    reveal_strlit("backhaulStatusStyle");
    reveal_strlit("category");
    reveal_strlit("connectedOrbi");
    reveal_strlit("connectedOrbiMac");
    reveal_strlit("connectionImg");
    reveal_strlit("connectionType");
    reveal_strlit("ip");
    reveal_strlit("mac");
    reveal_strlit("model");
    reveal_strlit("name");
    reveal_strlit("satType");
    reveal_strlit("sat_type");
    reveal_strlit("status");
    reveal_strlit("type");
    let ms = device_members(d);
    assert(ms[0] == ("mac"@, ms[0].1));
    assert(("satType"@).len() != ("mac"@).len());
    assert(("satType"@) != ("mac"@));
    assert(("sat_type"@).len() != ("mac"@).len());
    assert(("sat_type"@) != ("mac"@));
    assert(names_sat_type()[0] != ms[0].0 && names_sat_type()[1] != ms[0].0);
    assert(!names_sat_type().contains(ms[0].0));
    assert(ms[1] == ("type"@, ms[1].1));
    assert(("satType"@).len() != ("type"@).len());
    assert(("satType"@) != ("type"@));
    assert(("sat_type"@).len() != ("type"@).len());
    assert(("sat_type"@) != ("type"@));
    assert(names_sat_type()[0] != ms[1].0 && names_sat_type()[1] != ms[1].0);
    assert(!names_sat_type().contains(ms[1].0));
    assert(ms[2] == ("model"@, ms[2].1));
    assert(("satType"@).len() != ("model"@).len());
    assert(("satType"@) != ("model"@));
    assert(("sat_type"@).len() != ("model"@).len());
    assert(("sat_type"@) != ("model"@));
    assert(names_sat_type()[0] != ms[2].0 && names_sat_type()[1] != ms[2].0);
    assert(!names_sat_type().contains(ms[2].0));
    assert(ms[3] == ("name"@, ms[3].1));
    assert(("satType"@).len() != ("name"@).len());
    assert(("satType"@) != ("name"@));
    assert(("sat_type"@).len() != ("name"@).len());
    assert(("sat_type"@) != ("name"@));
    assert(names_sat_type()[0] != ms[3].0 && names_sat_type()[1] != ms[3].0);
    assert(!names_sat_type().contains(ms[3].0));
    assert(ms[4] == ("ip"@, ms[4].1));
    assert(("satType"@).len() != ("ip"@).len());
    assert(("satType"@) != ("ip"@));
    assert(("sat_type"@).len() != ("ip"@).len());
    assert(("sat_type"@) != ("ip"@));
    assert(names_sat_type()[0] != ms[4].0 && names_sat_type()[1] != ms[4].0);
    assert(!names_sat_type().contains(ms[4].0));
    assert(ms[5] == ("connectionType"@, ms[5].1));
    assert(("satType"@).len() != ("connectionType"@).len());
    assert(("satType"@) != ("connectionType"@));
    assert(("sat_type"@).len() != ("connectionType"@).len());
    assert(("sat_type"@) != ("connectionType"@));
    assert(names_sat_type()[0] != ms[5].0 && names_sat_type()[1] != ms[5].0);
    assert(!names_sat_type().contains(ms[5].0));
    assert(ms[6] == ("connectedOrbi"@, ms[6].1));
    assert(("satType"@).len() != ("connectedOrbi"@).len());
    assert(("satType"@) != ("connectedOrbi"@));
    assert(("sat_type"@).len() != ("connectedOrbi"@).len());
    assert(("sat_type"@) != ("connectedOrbi"@));
    assert(names_sat_type()[0] != ms[6].0 && names_sat_type()[1] != ms[6].0);
    assert(!names_sat_type().contains(ms[6].0));
    assert(ms[7] == ("connectedOrbiMac"@, ms[7].1));
    assert(("satType"@).len() != ("connectedOrbiMac"@).len());
    assert(("satType"@) != ("connectedOrbiMac"@));
    assert(("sat_type"@).len() != ("connectedOrbiMac"@).len());
    assert(("sat_type"@) != ("connectedOrbiMac"@));
    assert(names_sat_type()[0] != ms[7].0 && names_sat_type()[1] != ms[7].0);
    assert(!names_sat_type().contains(ms[7].0));
    assert(ms[8] == ("connectionImg"@, ms[8].1));
    assert(("satType"@).len() != ("connectionImg"@).len());
    assert(("satType"@) != ("connectionImg"@));
    assert(("sat_type"@).len() != ("connectionImg"@).len());
    assert(("sat_type"@) != ("connectionImg"@));
    assert(names_sat_type()[0] != ms[8].0 && names_sat_type()[1] != ms[8].0);
    assert(!names_sat_type().contains(ms[8].0));
    assert(ms[9] == ("backhaulStatusStyle"@, ms[9].1));
    assert(("satType"@).len() != ("backhaulStatusStyle"@).len());
    assert(("satType"@) != ("backhaulStatusStyle"@));
    assert(("sat_type"@).len() != ("backhaulStatusStyle"@).len());
    assert(("sat_type"@) != ("backhaulStatusStyle"@));
    assert(names_sat_type()[0] != ms[9].0 && names_sat_type()[1] != ms[9].0);
    assert(!names_sat_type().contains(ms[9].0));
    assert(ms[10] == ("backhaulStatus"@, ms[10].1));
    assert(("satType"@).len() != ("backhaulStatus"@).len());
    assert(("satType"@) != ("backhaulStatus"@));
    assert(("sat_type"@).len() != ("backhaulStatus"@).len());
    assert(("sat_type"@) != ("backhaulStatus"@));
    assert(names_sat_type()[0] != ms[10].0 && names_sat_type()[1] != ms[10].0);
    assert(!names_sat_type().contains(ms[10].0));
    assert(ms[11] == ("category"@, ms[11].1));
    assert(("satType"@).len() != ("category"@).len());
    assert(("satType"@) != ("category"@));
    assert(("sat_type"@)[0] != ("category"@)[0]);
    assert(("sat_type"@) != ("category"@));
    assert(names_sat_type()[0] != ms[11].0 && names_sat_type()[1] != ms[11].0);
    assert(!names_sat_type().contains(ms[11].0));
    assert(ms[12] == ("status"@, ms[12].1));
    assert(("satType"@).len() != ("status"@).len());
    assert(("satType"@) != ("status"@));
    assert(("sat_type"@).len() != ("status"@).len());
    assert(("sat_type"@) != ("status"@));
    assert(names_sat_type()[0] != ms[12].0 && names_sat_type()[1] != ms[12].0);
    assert(!names_sat_type().contains(ms[12].0));
    assert forall|j: int| 0 <= j < 13 implies !names_sat_type().contains(
        (#[trigger] ms[j]).0,
    ) by {}
    lemma_scal_lookup_skip_front(ms, names_sat_type(), 13);
    assert(ms.skip(13)[0] == ms[13]);
    assert(names_sat_type()[0] == "satType"@);
    assert(names_sat_type().contains(ms[13].0));
    assert(scal_lookup(ms, names_sat_type()) == Some(ms[13].1));
}

/// The canonical member list resolves the `led_status` field to its own value.
proof fn lemma_members_led_status(d: DeviceV)
    ensures
        scal_lookup(device_members(d), names_led_status()) == Some(
            ScalarV::Num(d.led_status),
        ),
{
    reveal_strlit("backhaulStatus");
    reveal_strlit("backhaulStatusStyle");
    reveal_strlit("category");
    reveal_strlit("connectedOrbi");
    reveal_strlit("connectedOrbiMac");
    reveal_strlit("connectionImg");
    reveal_strlit("connectionType");
    reveal_strlit("ip");
    reveal_strlit("ledStatus");
    reveal_strlit("led_status");
    reveal_strlit("mac");
    reveal_strlit("model");
    reveal_strlit("name");
    reveal_strlit("satType");
    reveal_strlit("status");
    reveal_strlit("type");
    let ms = device_members(d);
    assert(ms[0] == ("mac"@, ms[0].1));
    assert(("ledStatus"@).len() != ("mac"@).len());
    assert(("ledStatus"@) != ("mac"@));
    assert(("led_status"@).len() != ("mac"@).len());
    assert(("led_status"@) != ("mac"@));
    assert(names_led_status()[0] != ms[0].0 && names_led_status()[1] != ms[0].0);
    assert(!names_led_status().contains(ms[0].0));
    assert(ms[1] == ("type"@, ms[1].1));
    assert(("ledStatus"@).len() != ("type"@).len());
    assert(("ledStatus"@) != ("type"@));
    assert(("led_status"@).len() != ("type"@).len());
    assert(("led_status"@) != ("type"@));
    assert(names_led_status()[0] != ms[1].0 && names_led_status()[1] != ms[1].0);
    assert(!names_led_status().contains(ms[1].0));
    assert(ms[2] == ("model"@, ms[2].1));
    assert(("ledStatus"@).len() != ("model"@).len());
    assert(("ledStatus"@) != ("model"@));
    assert(("led_status"@).len() != ("model"@).len());
    assert(("led_status"@) != ("model"@));
    assert(names_led_status()[0] != ms[2].0 && names_led_status()[1] != ms[2].0);
    assert(!names_led_status().contains(ms[2].0));
    assert(ms[3] == ("name"@, ms[3].1));
    assert(("ledStatus"@).len() != ("name"@).len());
    assert(("ledStatus"@) != ("name"@));
    assert(("led_status"@).len() != ("name"@).len());
    assert(("led_status"@) != ("name"@));
    assert(names_led_status()[0] != ms[3].0 && names_led_status()[1] != ms[3].0);
    assert(!names_led_status().contains(ms[3].0));
    assert(ms[4] == ("ip"@, ms[4].1));
    assert(("ledStatus"@).len() != ("ip"@).len());
    assert(("ledStatus"@) != ("ip"@));
    assert(("led_status"@).len() != ("ip"@).len());
    assert(("led_status"@) != ("ip"@));
    assert(names_led_status()[0] != ms[4].0 && names_led_status()[1] != ms[4].0);
    assert(!names_led_status().contains(ms[4].0));
    assert(ms[5] == ("connectionType"@, ms[5].1));
    assert(("ledStatus"@).len() != ("connectionType"@).len());
    assert(("ledStatus"@) != ("connectionType"@));
    assert(("led_status"@).len() != ("connectionType"@).len());
    assert(("led_status"@) != ("connectionType"@));
    assert(names_led_status()[0] != ms[5].0 && names_led_status()[1] != ms[5].0);
    assert(!names_led_status().contains(ms[5].0));
    assert(ms[6] == ("connectedOrbi"@, ms[6].1));
    assert(("ledStatus"@).len() != ("connectedOrbi"@).len());
    assert(("ledStatus"@) != ("connectedOrbi"@));
    assert(("led_status"@).len() != ("connectedOrbi"@).len());
    assert(("led_status"@) != ("connectedOrbi"@));
    assert(names_led_status()[0] != ms[6].0 && names_led_status()[1] != ms[6].0);
    assert(!names_led_status().contains(ms[6].0));
    assert(ms[7] == ("connectedOrbiMac"@, ms[7].1));
    assert(("ledStatus"@).len() != ("connectedOrbiMac"@).len());
    assert(("ledStatus"@) != ("connectedOrbiMac"@));
    assert(("led_status"@).len() != ("connectedOrbiMac"@).len());
    assert(("led_status"@) != ("connectedOrbiMac"@));
    assert(names_led_status()[0] != ms[7].0 && names_led_status()[1] != ms[7].0);
    assert(!names_led_status().contains(ms[7].0));
    assert(ms[8] == ("connectionImg"@, ms[8].1));
    assert(("ledStatus"@).len() != ("connectionImg"@).len());
    assert(("ledStatus"@) != ("connectionImg"@));
    assert(("led_status"@).len() != ("connectionImg"@).len());
    assert(("led_status"@) != ("connectionImg"@));
    assert(names_led_status()[0] != ms[8].0 && names_led_status()[1] != ms[8].0);
    assert(!names_led_status().contains(ms[8].0));
    assert(ms[9] == ("backhaulStatusStyle"@, ms[9].1));
    assert(("ledStatus"@).len() != ("backhaulStatusStyle"@).len());
    assert(("ledStatus"@) != ("backhaulStatusStyle"@));
    assert(("led_status"@).len() != ("backhaulStatusStyle"@).len());
    assert(("led_status"@) != ("backhaulStatusStyle"@));
    assert(names_led_status()[0] != ms[9].0 && names_led_status()[1] != ms[9].0);
    assert(!names_led_status().contains(ms[9].0));
    assert(ms[10] == ("backhaulStatus"@, ms[10].1));
    assert(("ledStatus"@).len() != ("backhaulStatus"@).len());
    assert(("ledStatus"@) != ("backhaulStatus"@));
    assert(("led_status"@).len() != ("backhaulStatus"@).len());
    assert(("led_status"@) != ("backhaulStatus"@));
    assert(names_led_status()[0] != ms[10].0 && names_led_status()[1] != ms[10].0);
    assert(!names_led_status().contains(ms[10].0));
    assert(ms[11] == ("category"@, ms[11].1));
    assert(("ledStatus"@).len() != ("category"@).len());
    assert(("ledStatus"@) != ("category"@));
    assert(("led_status"@).len() != ("category"@).len());
    assert(("led_status"@) != ("category"@));
    assert(names_led_status()[0] != ms[11].0 && names_led_status()[1] != ms[11].0);
    assert(!names_led_status().contains(ms[11].0));
    assert(ms[12] == ("status"@, ms[12].1));
    assert(("ledStatus"@).len() != ("status"@).len());
    assert(("ledStatus"@) != ("status"@));
    assert(("led_status"@).len() != ("status"@).len());
    assert(("led_status"@) != ("status"@));
    assert(names_led_status()[0] != ms[12].0 && names_led_status()[1] != ms[12].0);
    assert(!names_led_status().contains(ms[12].0));
    assert(ms[13] == ("satType"@, ms[13].1));
    assert(("ledStatus"@).len() != ("satType"@).len());
    assert(("ledStatus"@) != ("satType"@));
    assert(("led_status"@).len() != ("satType"@).len());
    assert(("led_status"@) != ("satType"@));
    assert(names_led_status()[0] != ms[13].0 && names_led_status()[1] != ms[13].0);
    assert(!names_led_status().contains(ms[13].0));
    assert forall|j: int| 0 <= j < 14 implies !names_led_status().contains(
        (#[trigger] ms[j]).0,
    ) by {}
    lemma_scal_lookup_skip_front(ms, names_led_status(), 14);
    assert(ms.skip(14)[0] == ms[14]);
    assert(names_led_status()[0] == "ledStatus"@);
    assert(names_led_status().contains(ms[14].0));
    assert(scal_lookup(ms, names_led_status()) == Some(ms[14].1));
}

/// The canonical member list resolves the `led_brightness` field to its own value.
proof fn lemma_members_led_brightness(d: DeviceV)
    ensures
        scal_lookup(device_members(d), names_led_brightness()) == Some(
            ScalarV::Num(d.led_brightness),
        ),
{
    reveal_strlit("backhaulStatus");
    reveal_strlit("backhaulStatusStyle");
    reveal_strlit("category");
    reveal_strlit("connectedOrbi");
    reveal_strlit("connectedOrbiMac");
    reveal_strlit("connectionImg");
    reveal_strlit("connectionType");
    reveal_strlit("ip");
    reveal_strlit("ledBrightness");
    reveal_strlit("ledStatus");
    reveal_strlit("led_brightness");
    reveal_strlit("mac");
    reveal_strlit("model");
    reveal_strlit("name");
    reveal_strlit("satType");
    reveal_strlit("status");
    reveal_strlit("type");
    let ms = device_members(d);
    assert(ms[0] == ("mac"@, ms[0].1));
    assert(("ledBrightness"@).len() != ("mac"@).len());
    assert(("ledBrightness"@) != ("mac"@));
    assert(("led_brightness"@).len() != ("mac"@).len());
    assert(("led_brightness"@) != ("mac"@));
    assert(names_led_brightness()[0] != ms[0].0 && names_led_brightness()[1] != ms[0].0);
    assert(!names_led_brightness().contains(ms[0].0));
    assert(ms[1] == ("type"@, ms[1].1));
    assert(("ledBrightness"@).len() != ("type"@).len());
    assert(("ledBrightness"@) != ("type"@));
    assert(("led_brightness"@).len() != ("type"@).len());
    assert(("led_brightness"@) != ("type"@));
    assert(names_led_brightness()[0] != ms[1].0 && names_led_brightness()[1] != ms[1].0);
    assert(!names_led_brightness().contains(ms[1].0));
    assert(ms[2] == ("model"@, ms[2].1));
    assert(("ledBrightness"@).len() != ("model"@).len());
    assert(("ledBrightness"@) != ("model"@));
    assert(("led_brightness"@).len() != ("model"@).len());
    assert(("led_brightness"@) != ("model"@));
    assert(names_led_brightness()[0] != ms[2].0 && names_led_brightness()[1] != ms[2].0);
    assert(!names_led_brightness().contains(ms[2].0));
    assert(ms[3] == ("name"@, ms[3].1));
    assert(("ledBrightness"@).len() != ("name"@).len());
    assert(("ledBrightness"@) != ("name"@));
    assert(("led_brightness"@).len() != ("name"@).len());
    assert(("led_brightness"@) != ("name"@));
    assert(names_led_brightness()[0] != ms[3].0 && names_led_brightness()[1] != ms[3].0);
    assert(!names_led_brightness().contains(ms[3].0));
    assert(ms[4] == ("ip"@, ms[4].1));
    assert(("ledBrightness"@).len() != ("ip"@).len());
    assert(("ledBrightness"@) != ("ip"@));
    assert(("led_brightness"@).len() != ("ip"@).len());
    assert(("led_brightness"@) != ("ip"@));
    assert(names_led_brightness()[0] != ms[4].0 && names_led_brightness()[1] != ms[4].0);
    assert(!names_led_brightness().contains(ms[4].0));
    assert(ms[5] == ("connectionType"@, ms[5].1));
    assert(("ledBrightness"@).len() != ("connectionType"@).len());
    assert(("ledBrightness"@) != ("connectionType"@));
    assert(("led_brightness"@)[0] != ("connectionType"@)[0]);
    assert(("led_brightness"@) != ("connectionType"@));
    assert(names_led_brightness()[0] != ms[5].0 && names_led_brightness()[1] != ms[5].0);
    assert(!names_led_brightness().contains(ms[5].0));
    assert(ms[6] == ("connectedOrbi"@, ms[6].1));
    assert(("ledBrightness"@)[0] != ("connectedOrbi"@)[0]);
    assert(("ledBrightness"@) != ("connectedOrbi"@));
    assert(("led_brightness"@).len() != ("connectedOrbi"@).len());
    assert(("led_brightness"@) != ("connectedOrbi"@));
    assert(names_led_brightness()[0] != ms[6].0 && names_led_brightness()[1] != ms[6].0);
    assert(!names_led_brightness().contains(ms[6].0));
    assert(ms[7] == ("connectedOrbiMac"@, ms[7].1));
    assert(("ledBrightness"@).len() != ("connectedOrbiMac"@).len());
    assert(("ledBrightness"@) != ("connectedOrbiMac"@));
    assert(("led_brightness"@).len() != ("connectedOrbiMac"@).len());
    assert(("led_brightness"@) != ("connectedOrbiMac"@));
    assert(names_led_brightness()[0] != ms[7].0 && names_led_brightness()[1] != ms[7].0);
    assert(!names_led_brightness().contains(ms[7].0));
    assert(ms[8] == ("connectionImg"@, ms[8].1));
    assert(("ledBrightness"@)[0] != ("connectionImg"@)[0]);
    assert(("ledBrightness"@) != ("connectionImg"@));
    assert(("led_brightness"@).len() != ("connectionImg"@).len());
    assert(("led_brightness"@) != ("connectionImg"@));
    assert(names_led_brightness()[0] != ms[8].0 && names_led_brightness()[1] != ms[8].0);
    assert(!names_led_brightness().contains(ms[8].0));
    assert(ms[9] == ("backhaulStatusStyle"@, ms[9].1));
    assert(("ledBrightness"@).len() != ("backhaulStatusStyle"@).len());
    assert(("ledBrightness"@) != ("backhaulStatusStyle"@));
    assert(("led_brightness"@).len() != ("backhaulStatusStyle"@).len());
    assert(("led_brightness"@) != ("backhaulStatusStyle"@));
    assert(names_led_brightness()[0] != ms[9].0 && names_led_brightness()[1] != ms[9].0);
    assert(!names_led_brightness().contains(ms[9].0));
    assert(ms[10] == ("backhaulStatus"@, ms[10].1));
    assert(("ledBrightness"@).len() != ("backhaulStatus"@).len());
    assert(("ledBrightness"@) != ("backhaulStatus"@));
    assert(("led_brightness"@)[0] != ("backhaulStatus"@)[0]);
    assert(("led_brightness"@) != ("backhaulStatus"@));
    assert(names_led_brightness()[0] != ms[10].0 && names_led_brightness()[1] != ms[10].0);
    assert(!names_led_brightness().contains(ms[10].0));
    assert(ms[11] == ("category"@, ms[11].1));
    assert(("ledBrightness"@).len() != ("category"@).len());
    assert(("ledBrightness"@) != ("category"@));
    assert(("led_brightness"@).len() != ("category"@).len());
    assert(("led_brightness"@) != ("category"@));
    assert(names_led_brightness()[0] != ms[11].0 && names_led_brightness()[1] != ms[11].0);
    assert(!names_led_brightness().contains(ms[11].0));
    assert(ms[12] == ("status"@, ms[12].1));
    assert(("ledBrightness"@).len() != ("status"@).len());
    assert(("ledBrightness"@) != ("status"@));
    assert(("led_brightness"@).len() != ("status"@).len());
    assert(("led_brightness"@) != ("status"@));
    assert(names_led_brightness()[0] != ms[12].0 && names_led_brightness()[1] != ms[12].0);
    assert(!names_led_brightness().contains(ms[12].0));
    assert(ms[13] == ("satType"@, ms[13].1));
    assert(("ledBrightness"@).len() != ("satType"@).len());
    assert(("ledBrightness"@) != ("satType"@));
    assert(("led_brightness"@).len() != ("satType"@).len());
    assert(("led_brightness"@) != ("satType"@));
    assert(names_led_brightness()[0] != ms[13].0 && names_led_brightness()[1] != ms[13].0);
    assert(!names_led_brightness().contains(ms[13].0));
    assert(ms[14] == ("ledStatus"@, ms[14].1));
    assert(("ledBrightness"@).len() != ("ledStatus"@).len());
    assert(("ledBrightness"@) != ("ledStatus"@));
    assert(("led_brightness"@).len() != ("ledStatus"@).len());
    assert(("led_brightness"@) != ("ledStatus"@));
    assert(names_led_brightness()[0] != ms[14].0 && names_led_brightness()[1] != ms[14].0);
    assert(!names_led_brightness().contains(ms[14].0));
    assert forall|j: int| 0 <= j < 15 implies !names_led_brightness().contains(
        (#[trigger] ms[j]).0,
    ) by {}
    lemma_scal_lookup_skip_front(ms, names_led_brightness(), 15);
    assert(ms.skip(15)[0] == ms[15]);
    assert(names_led_brightness()[0] == "ledBrightness"@);
    assert(names_led_brightness().contains(ms[15].0));
    assert(scal_lookup(ms, names_led_brightness()) == Some(ms[15].1));
}

/// The canonical member list resolves the `led_sync` field to its own value.
proof fn lemma_members_led_sync(d: DeviceV)
    ensures
        scal_lookup(device_members(d), names_led_sync()) == Some(
            ScalarV::Num(d.led_sync),
        ),
{
    reveal_strlit("backhaulStatus");
    reveal_strlit("backhaulStatusStyle");
    reveal_strlit("category");
    reveal_strlit("connectedOrbi");
    reveal_strlit("connectedOrbiMac");
    reveal_strlit("connectionImg");
    reveal_strlit("connectionType");
    reveal_strlit("ip");
    reveal_strlit("ledBrightness");
    reveal_strlit("ledStatus");
    reveal_strlit("ledSync");
    reveal_strlit("led_sync");
    reveal_strlit("mac");
    reveal_strlit("model");
    reveal_strlit("name");
    reveal_strlit("satType");
    reveal_strlit("status");
    reveal_strlit("type");
    let ms = device_members(d);
    assert(ms[0] == ("mac"@, ms[0].1));
    assert(("ledSync"@).len() != ("mac"@).len());
    assert(("ledSync"@) != ("mac"@));
    assert(("led_sync"@).len() != ("mac"@).len());
    assert(("led_sync"@) != ("mac"@));
    assert(names_led_sync()[0] != ms[0].0 && names_led_sync()[1] != ms[0].0);
    assert(!names_led_sync().contains(ms[0].0));
    assert(ms[1] == ("type"@, ms[1].1));
    assert(("ledSync"@).len() != ("type"@).len());
    assert(("ledSync"@) != ("type"@));
    assert(("led_sync"@).len() != ("type"@).len());
    assert(("led_sync"@) != ("type"@));
    assert(names_led_sync()[0] != ms[1].0 && names_led_sync()[1] != ms[1].0);
    assert(!names_led_sync().contains(ms[1].0));
    assert(ms[2] == ("model"@, ms[2].1));
    assert(("ledSync"@).len() != ("model"@).len());
    assert(("ledSync"@) != ("model"@));
    assert(("led_sync"@).len() != ("model"@).len());
    assert(("led_sync"@) != ("model"@));
    assert(names_led_sync()[0] != ms[2].0 && names_led_sync()[1] != ms[2].0);
    assert(!names_led_sync().contains(ms[2].0));
    assert(ms[3] == ("name"@, ms[3].1));
    assert(("ledSync"@).len() != ("name"@).len());
    assert(("ledSync"@) != ("name"@));
    assert(("led_sync"@).len() != ("name"@).len());
    assert(("led_sync"@) != ("name"@));
    assert(names_led_sync()[0] != ms[3].0 && names_led_sync()[1] != ms[3].0);
    assert(!names_led_sync().contains(ms[3].0));
    assert(ms[4] == ("ip"@, ms[4].1));
    assert(("ledSync"@).len() != ("ip"@).len());
    assert(("ledSync"@) != ("ip"@));
    assert(("led_sync"@).len() != ("ip"@).len());
    assert(("led_sync"@) != ("ip"@));
    assert(names_led_sync()[0] != ms[4].0 && names_led_sync()[1] != ms[4].0);
    assert(!names_led_sync().contains(ms[4].0));
    assert(ms[5] == ("connectionType"@, ms[5].1));
    assert(("ledSync"@).len() != ("connectionType"@).len());
    assert(("ledSync"@) != ("connectionType"@));
    assert(("led_sync"@).len() != ("connectionType"@).len());
    assert(("led_sync"@) != ("connectionType"@));
    assert(names_led_sync()[0] != ms[5].0 && names_led_sync()[1] != ms[5].0);
    assert(!names_led_sync().contains(ms[5].0));
    assert(ms[6] == ("connectedOrbi"@, ms[6].1));
    assert(("ledSync"@).len() != ("connectedOrbi"@).len());
    assert(("ledSync"@) != ("connectedOrbi"@));
    assert(("led_sync"@).len() != ("connectedOrbi"@).len());
    assert(("led_sync"@) != ("connectedOrbi"@));
    assert(names_led_sync()[0] != ms[6].0 && names_led_sync()[1] != ms[6].0);
    assert(!names_led_sync().contains(ms[6].0));
    assert(ms[7] == ("connectedOrbiMac"@, ms[7].1));
    assert(("ledSync"@).len() != ("connectedOrbiMac"@).len());
    assert(("ledSync"@) != ("connectedOrbiMac"@));
    assert(("led_sync"@).len() != ("connectedOrbiMac"@).len());
    assert(("led_sync"@) != ("connectedOrbiMac"@));
    assert(names_led_sync()[0] != ms[7].0 && names_led_sync()[1] != ms[7].0);
    assert(!names_led_sync().contains(ms[7].0));
    assert(ms[8] == ("connectionImg"@, ms[8].1));
    assert(("ledSync"@).len() != ("connectionImg"@).len());
    assert(("ledSync"@) != ("connectionImg"@));
    assert(("led_sync"@).len() != ("connectionImg"@).len());
    assert(("led_sync"@) != ("connectionImg"@));
    assert(names_led_sync()[0] != ms[8].0 && names_led_sync()[1] != ms[8].0);
    assert(!names_led_sync().contains(ms[8].0));
    assert(ms[9] == ("backhaulStatusStyle"@, ms[9].1));
    assert(("ledSync"@).len() != ("backhaulStatusStyle"@).len());
    assert(("ledSync"@) != ("backhaulStatusStyle"@));
    assert(("led_sync"@).len() != ("backhaulStatusStyle"@).len());
    assert(("led_sync"@) != ("backhaulStatusStyle"@));
    assert(names_led_sync()[0] != ms[9].0 && names_led_sync()[1] != ms[9].0);
    assert(!names_led_sync().contains(ms[9].0));
    assert(ms[10] == ("backhaulStatus"@, ms[10].1));
    assert(("ledSync"@).len() != ("backhaulStatus"@).len());
    assert(("ledSync"@) != ("backhaulStatus"@));
    assert(("led_sync"@).len() != ("backhaulStatus"@).len());
    assert(("led_sync"@) != ("backhaulStatus"@));
    assert(names_led_sync()[0] != ms[10].0 && names_led_sync()[1] != ms[10].0);
    assert(!names_led_sync().contains(ms[10].0));
    assert(ms[11] == ("category"@, ms[11].1));
    assert(("ledSync"@).len() != ("category"@).len());
    assert(("ledSync"@) != ("category"@));
    assert(("led_sync"@)[0] != ("category"@)[0]);
    assert(("led_sync"@) != ("category"@));
    assert(names_led_sync()[0] != ms[11].0 && names_led_sync()[1] != ms[11].0);
    assert(!names_led_sync().contains(ms[11].0));
    assert(ms[12] == ("status"@, ms[12].1));
    assert(("ledSync"@).len() != ("status"@).len());
    assert(("ledSync"@) != ("status"@));
    assert(("led_sync"@).len() != ("status"@).len());
    assert(("led_sync"@) != ("status"@));
    assert(names_led_sync()[0] != ms[12].0 && names_led_sync()[1] != ms[12].0);
    assert(!names_led_sync().contains(ms[12].0));
    assert(ms[13] == ("satType"@, ms[13].1));
    assert(("ledSync"@)[0] != ("satType"@)[0]);
    assert(("ledSync"@) != ("satType"@));
    assert(("led_sync"@).len() != ("satType"@).len());
    assert(("led_sync"@) != ("satType"@));
    assert(names_led_sync()[0] != ms[13].0 && names_led_sync()[1] != ms[13].0);
    assert(!names_led_sync().contains(ms[13].0));
    assert(ms[14] == ("ledStatus"@, ms[14].1));
    assert(("ledSync"@).len() != ("ledStatus"@).len());
    assert(("ledSync"@) != ("ledStatus"@));
    assert(("led_sync"@).len() != ("ledStatus"@).len());
    assert(("led_sync"@) != ("ledStatus"@));
    assert(names_led_sync()[0] != ms[14].0 && names_led_sync()[1] != ms[14].0);
    assert(!names_led_sync().contains(ms[14].0));
    assert(ms[15] == ("ledBrightness"@, ms[15].1));
    assert(("ledSync"@).len() != ("ledBrightness"@).len());
    assert(("ledSync"@) != ("ledBrightness"@));
    assert(("led_sync"@).len() != ("ledBrightness"@).len());
    assert(("led_sync"@) != ("ledBrightness"@));
    assert(names_led_sync()[0] != ms[15].0 && names_led_sync()[1] != ms[15].0);
    assert(!names_led_sync().contains(ms[15].0));
    assert forall|j: int| 0 <= j < 16 implies !names_led_sync().contains(
        (#[trigger] ms[j]).0,
    ) by {}
    lemma_scal_lookup_skip_front(ms, names_led_sync(), 16);
    assert(ms.skip(16)[0] == ms[16]);
    assert(names_led_sync()[0] == "ledSync"@);
    assert(names_led_sync().contains(ms[16].0));
    assert(scal_lookup(ms, names_led_sync()) == Some(ms[16].1));
}

/// The canonical member list resolves the `voice_reg` field to its own value.
proof fn lemma_members_voice_reg(d: DeviceV)
    ensures
        scal_lookup(device_members(d), names_voice_reg()) == Some(
            ScalarV::Str(d.voice_reg),
        ),
{
    reveal_strlit("backhaulStatus");
    reveal_strlit("backhaulStatusStyle");
    reveal_strlit("category");
    reveal_strlit("connectedOrbi");
    reveal_strlit("connectedOrbiMac");
    reveal_strlit("connectionImg");
    reveal_strlit("connectionType");
    reveal_strlit("ip");
    reveal_strlit("ledBrightness");
    reveal_strlit("ledStatus");
    reveal_strlit("ledSync");
    reveal_strlit("mac");
    reveal_strlit("model");
    reveal_strlit("name");
    reveal_strlit("satType");
    reveal_strlit("status");
    reveal_strlit("type");
    reveal_strlit("voiceReg");
    reveal_strlit("voice_reg");
    let ms = device_members(d);
    assert(ms[0] == ("mac"@, ms[0].1));
    assert(("voiceReg"@).len() != ("mac"@).len());
    assert(("voiceReg"@) != ("mac"@));
    assert(("voice_reg"@).len() != ("mac"@).len());
    assert(("voice_reg"@) != ("mac"@));
    assert(names_voice_reg()[0] != ms[0].0 && names_voice_reg()[1] != ms[0].0);
    assert(!names_voice_reg().contains(ms[0].0));
    assert(ms[1] == ("type"@, ms[1].1));
    assert(("voiceReg"@).len() != ("type"@).len());
    assert(("voiceReg"@) != ("type"@));
    assert(("voice_reg"@).len() != ("type"@).len());
    assert(("voice_reg"@) != ("type"@));
    assert(names_voice_reg()[0] != ms[1].0 && names_voice_reg()[1] != ms[1].0);
    assert(!names_voice_reg().contains(ms[1].0));
    assert(ms[2] == ("model"@, ms[2].1));
    assert(("voiceReg"@).len() != ("model"@).len());
    assert(("voiceReg"@) != ("model"@));
    assert(("voice_reg"@).len() != ("model"@).len());
    assert(("voice_reg"@) != ("model"@));
    assert(names_voice_reg()[0] != ms[2].0 && names_voice_reg()[1] != ms[2].0);
    assert(!names_voice_reg().contains(ms[2].0));
    assert(ms[3] == ("name"@, ms[3].1));
    assert(("voiceReg"@).len() != ("name"@).len());
    assert(("voiceReg"@) != ("name"@));
    assert(("voice_reg"@).len() != ("name"@).len());
    assert(("voice_reg"@) != ("name"@));
    assert(names_voice_reg()[0] != ms[3].0 && names_voice_reg()[1] != ms[3].0);
    assert(!names_voice_reg().contains(ms[3].0));
    assert(ms[4] == ("ip"@, ms[4].1));
    assert(("voiceReg"@).len() != ("ip"@).len());
    assert(("voiceReg"@) != ("ip"@));
    assert(("voice_reg"@).len() != ("ip"@).len());
    assert(("voice_reg"@) != ("ip"@));
    assert(names_voice_reg()[0] != ms[4].0 && names_voice_reg()[1] != ms[4].0);
    assert(!names_voice_reg().contains(ms[4].0));
    assert(ms[5] == ("connectionType"@, ms[5].1));
    assert(("voiceReg"@).len() != ("connectionType"@).len());
    assert(("voiceReg"@) != ("connectionType"@));
    assert(("voice_reg"@).len() != ("connectionType"@).len());
    assert(("voice_reg"@) != ("connectionType"@));
    assert(names_voice_reg()[0] != ms[5].0 && names_voice_reg()[1] != ms[5].0);
    assert(!names_voice_reg().contains(ms[5].0));
    assert(ms[6] == ("connectedOrbi"@, ms[6].1));
    assert(("voiceReg"@).len() != ("connectedOrbi"@).len());
    assert(("voiceReg"@) != ("connectedOrbi"@));
    assert(("voice_reg"@).len() != ("connectedOrbi"@).len());
    assert(("voice_reg"@) != ("connectedOrbi"@));
    assert(names_voice_reg()[0] != ms[6].0 && names_voice_reg()[1] != ms[6].0);
    assert(!names_voice_reg().contains(ms[6].0));
    assert(ms[7] == ("connectedOrbiMac"@, ms[7].1));
    assert(("voiceReg"@).len() != ("connectedOrbiMac"@).len());
    assert(("voiceReg"@) != ("connectedOrbiMac"@));
    assert(("voice_reg"@).len() != ("connectedOrbiMac"@).len());
    assert(("voice_reg"@) != ("connectedOrbiMac"@));
    assert(names_voice_reg()[0] != ms[7].0 && names_voice_reg()[1] != ms[7].0);
    assert(!names_voice_reg().contains(ms[7].0));
    assert(ms[8] == ("connectionImg"@, ms[8].1));
    assert(("voiceReg"@).len() != ("connectionImg"@).len());
    assert(("voiceReg"@) != ("connectionImg"@));
    assert(("voice_reg"@).len() != ("connectionImg"@).len());
    assert(("voice_reg"@) != ("connectionImg"@));
    assert(names_voice_reg()[0] != ms[8].0 && names_voice_reg()[1] != ms[8].0);
    assert(!names_voice_reg().contains(ms[8].0));
    assert(ms[9] == ("backhaulStatusStyle"@, ms[9].1));
    assert(("voiceReg"@).len() != ("backhaulStatusStyle"@).len());
    assert(("voiceReg"@) != ("backhaulStatusStyle"@));
    assert(("voice_reg"@).len() != ("backhaulStatusStyle"@).len());
    assert(("voice_reg"@) != ("backhaulStatusStyle"@));
    assert(names_voice_reg()[0] != ms[9].0 && names_voice_reg()[1] != ms[9].0);
    assert(!names_voice_reg().contains(ms[9].0));
    assert(ms[10] == ("backhaulStatus"@, ms[10].1));
    assert(("voiceReg"@).len() != ("backhaulStatus"@).len());
    assert(("voiceReg"@) != ("backhaulStatus"@));
    assert(("voice_reg"@).len() != ("backhaulStatus"@).len());
    assert(("voice_reg"@) != ("backhaulStatus"@));
    assert(names_voice_reg()[0] != ms[10].0 && names_voice_reg()[1] != ms[10].0);
    assert(!names_voice_reg().contains(ms[10].0));
    assert(ms[11] == ("category"@, ms[11].1));
    assert(("voiceReg"@)[0] != ("category"@)[0]);
    assert(("voiceReg"@) != ("category"@));
    assert(("voice_reg"@).len() != ("category"@).len());
    assert(("voice_reg"@) != ("category"@));
    assert(names_voice_reg()[0] != ms[11].0 && names_voice_reg()[1] != ms[11].0);
    assert(!names_voice_reg().contains(ms[11].0));
    assert(ms[12] == ("status"@, ms[12].1));
    assert(("voiceReg"@).len() != ("status"@).len());
    assert(("voiceReg"@) != ("status"@));
    assert(("voice_reg"@).len() != ("status"@).len());
    assert(("voice_reg"@) != ("status"@));
    assert(names_voice_reg()[0] != ms[12].0 && names_voice_reg()[1] != ms[12].0);
    assert(!names_voice_reg().contains(ms[12].0));
    assert(ms[13] == ("satType"@, ms[13].1));
    assert(("voiceReg"@).len() != ("satType"@).len());
    assert(("voiceReg"@) != ("satType"@));
    assert(("voice_reg"@).len() != ("satType"@).len());
    assert(("voice_reg"@) != ("satType"@));
    assert(names_voice_reg()[0] != ms[13].0 && names_voice_reg()[1] != ms[13].0);
    assert(!names_voice_reg().contains(ms[13].0));
    assert(ms[14] == ("ledStatus"@, ms[14].1));
    assert(("voiceReg"@).len() != ("ledStatus"@).len());
    assert(("voiceReg"@) != ("ledStatus"@));
    assert(("voice_reg"@)[0] != ("ledStatus"@)[0]);
    assert(("voice_reg"@) != ("ledStatus"@));
    assert(names_voice_reg()[0] != ms[14].0 && names_voice_reg()[1] != ms[14].0);
    assert(!names_voice_reg().contains(ms[14].0));
    assert(ms[15] == ("ledBrightness"@, ms[15].1));
    assert(("voiceReg"@).len() != ("ledBrightness"@).len());
    assert(("voiceReg"@) != ("ledBrightness"@));
    assert(("voice_reg"@).len() != ("ledBrightness"@).len());
    assert(("voice_reg"@) != ("ledBrightness"@));
    assert(names_voice_reg()[0] != ms[15].0 && names_voice_reg()[1] != ms[15].0);
    assert(!names_voice_reg().contains(ms[15].0));
    assert(ms[16] == ("ledSync"@, ms[16].1));
    assert(("voiceReg"@).len() != ("ledSync"@).len());
    assert(("voiceReg"@) != ("ledSync"@));
    assert(("voice_reg"@).len() != ("ledSync"@).len());
    assert(("voice_reg"@) != ("ledSync"@));
    assert(names_voice_reg()[0] != ms[16].0 && names_voice_reg()[1] != ms[16].0);
    assert(!names_voice_reg().contains(ms[16].0));
    assert forall|j: int| 0 <= j < 17 implies !names_voice_reg().contains(
        (#[trigger] ms[j]).0,
    ) by {}
    lemma_scal_lookup_skip_front(ms, names_voice_reg(), 17);
    assert(ms.skip(17)[0] == ms[17]);
    assert(names_voice_reg()[0] == "voiceReg"@);
    assert(names_voice_reg().contains(ms[17].0));
    assert(scal_lookup(ms, names_voice_reg()) == Some(ms[17].1));
}

/// Interpreting a device's canonical member list yields the device back:
/// the member interpretation inverts the canonical field layout, whatever
/// the field values are. This is the value-level half of the encode-then-
/// decode identity; the text level is fixed by the codec contracts.
pub proof fn lemma_device_members_round_trip(d: DeviceV)
    ensures
        device_fields_ok(device_members(d)),
        spec_device_of(device_members(d)) == d,
{
    lemma_members_mac(d);
    lemma_members_kind(d);
    lemma_members_model(d);
    lemma_members_name(d);
    lemma_members_ip(d);
    lemma_members_connection_type(d);
    lemma_members_connected_orbi(d);
    lemma_members_connected_orbi_mac(d);
    lemma_members_connection_img(d);
    lemma_members_backhaul_status_style(d);
    lemma_members_backhaul_status(d);
    lemma_members_category(d);
    lemma_members_status(d);
    lemma_members_sat_type(d);
    lemma_members_led_status(d);
    lemma_members_led_brightness(d);
    lemma_members_led_sync(d);
    lemma_members_voice_reg(d);
    assert(spec_device_of(device_members(d)) =~= d);
}

/// The canonical member lists of a device list, in order.
pub open spec fn canonical_objs(ds: Seq<DeviceV>) -> Seq<MembersV> {
    ds.map_values(|d: DeviceV| device_members(d))
}

/// Interpreting canonical member lists yields the devices back, in order.
proof fn lemma_devices_of_canonical(ds: Seq<DeviceV>)
    ensures
        spec_devices_of(canonical_objs(ds)) == Some(ds),
    decreases ds.len(),
{
    let objs = canonical_objs(ds);
    if ds.len() == 0 {
        assert(objs =~= Seq::<MembersV>::empty());
    } else {
        lemma_device_members_round_trip(ds[0]);
        lemma_devices_of_canonical(ds.drop_first());
        assert(objs[0] == device_members(ds[0]));
        assert(objs.drop_first() =~= canonical_objs(ds.drop_first()));
        assert(seq![spec_device_of(objs[0])] + ds.drop_first() =~= ds);
    }
}

/// The canonical top-level object of a fetch result: its two arrays of
/// canonical member lists, under their fixed keys.
pub open spec fn canonical_top(a: AttachedDevicesV) -> TopV {
    seq![
        ("satellites"@, TopValV::Arr(canonical_objs(a.satellites))),
        ("devices"@, TopValV::Arr(canonical_objs(a.devices))),
    ]
}

/// Interpreting a fetch result's canonical top-level object yields the
/// result back: the structural half of the encode-then-decode identity.
/// Together with `lemma_device_members_round_trip` this pins the member
/// interpretation; the text form is fixed separately by `attached_json` and
/// the parser contracts.
pub proof fn lemma_attached_members_round_trip(a: AttachedDevicesV)
    ensures
        spec_attached_of(canonical_top(a)) == Some(a),
{
    reveal_strlit("satellites");
    reveal_strlit("devices");
    let top = canonical_top(a);
    assert(top[0].0 == "satellites"@);
    assert(top_lookup(top, "satellites"@) == Some(top[0].1));
    assert(("devices"@).len() != ("satellites"@).len());
    assert(top[0].0 != "devices"@);
    assert(top.drop_first() =~= seq![("devices"@, TopValV::Arr(canonical_objs(a.devices)))]);
    let tl = top.drop_first();
    assert(top_lookup(tl, "devices"@) == Some(tl[0].1));
    assert(tl[0].1 == top[1].1);
    assert(top_lookup(top, "devices"@) == Some(top[1].1));
    lemma_devices_of_canonical(a.satellites);
    lemma_devices_of_canonical(a.devices);
    assert(AttachedDevicesV { satellites: a.satellites, devices: a.devices } =~= a);
}

} // verus!
