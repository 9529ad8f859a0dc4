use vstd::prelude::*;

use crate::config::Config;
use crate::config::ConfigV;
use crate::device::AttachedDevices;
use crate::device::Device;
use crate::device::DeviceV;
use crate::table::cell_shown_verbatim;
use crate::table::table_add_row;
use crate::table::table_header;
use crate::table::table_new;
use crate::table::table_rows;
use crate::table::table_render;
use crate::table::table_set_header;
use crate::table::table_text;
use crate::text::append_str;
use crate::text::chars_to_string;
use crate::text::contains_seq;
use crate::text::spec_stars;
use crate::text::stars;

verus! {

/// The fixed set of device attributes a caller may select for tabular output.
#[derive(Clone, Copy, Debug, PartialEq, Eq, Structural)]
pub enum DeviceField {
    Mac,
    Kind,
    Model,
    Name,
    Ip,
    Orbi,
    Connection,
}

/// The static column label of a field.
pub open spec fn spec_label(f: DeviceField) -> Seq<char> {
    match f {
        DeviceField::Mac => "Mac"@,
        DeviceField::Kind => "Kind"@,
        DeviceField::Model => "Model"@,
        DeviceField::Name => "Name"@,
        DeviceField::Ip => "Ip"@,
        DeviceField::Orbi => "Orbi"@,
        DeviceField::Connection => "Connection"@,
    }
}

/// The attribute of a device that a field selects.
pub open spec fn field_of(f: DeviceField, d: DeviceV) -> Seq<char> {
    match f {
        DeviceField::Mac => d.mac,
        DeviceField::Kind => d.kind,
        DeviceField::Model => d.model,
        DeviceField::Name => d.name,
        DeviceField::Ip => d.ip,
        DeviceField::Orbi => d.connected_orbi,
        DeviceField::Connection => d.connection_type,
    }
}

/// The field set actually rendered: an empty selection falls back to the
/// default set — name, IP, connection and kind, in that order.
pub open spec fn effective_fields(fields: Seq<DeviceField>) -> Seq<DeviceField> {
    if fields.len() == 0 {
        seq![DeviceField::Name, DeviceField::Ip, DeviceField::Connection, DeviceField::Kind]
    } else {
        fields
    }
}

/// The header row: one label per selected field.
pub open spec fn header_of(fields: Seq<DeviceField>) -> Seq<Seq<char>> {
    fields.map_values(|f: DeviceField| spec_label(f))
}

/// The data rows: for each device, the selected attributes in selection order.
pub open spec fn rows_of(devices: Seq<DeviceV>, fields: Seq<DeviceField>) -> Seq<Seq<Seq<char>>> {
    devices.map_values(|d: DeviceV| fields.map_values(|f: DeviceField| field_of(f, d)))
}

impl DeviceField {
    /// The static display label used as this field's table header.
    pub fn label(&self) -> (r: &'static str)
        ensures
            r@ == spec_label(*self),
    {
        match self {
            DeviceField::Mac => "Mac",
            DeviceField::Kind => "Kind",
            DeviceField::Model => "Model",
            DeviceField::Name => "Name",
            DeviceField::Ip => "Ip",
            DeviceField::Orbi => "Orbi",
            DeviceField::Connection => "Connection",
        }
    }
}

/// One table row for a device: the selected attributes, in order.
pub fn construct_row_from<'a>(fields: &[DeviceField], device: &'a Device) -> (r: Vec<&'a str>)
    ensures
        r@.len() == fields@.len(),
        forall|i: int| 0 <= i < fields@.len() ==> (#[trigger] r@[i])@ == field_of(
            fields@[i],
            device@,
        ),
{
    let mut r: Vec<&'a str> = Vec::new();
    let n = fields.len();
    for i in 0..n
        invariant
            n == fields@.len(),
            r@.len() == i,
            forall|j: int| 0 <= j < i ==> (#[trigger] r@[j])@ == field_of(fields@[j], device@),
    {
        match fields[i] {
            DeviceField::Name => r.push(device.name.as_str()),
            DeviceField::Kind => r.push(device.kind.as_str()),
            DeviceField::Ip => r.push(device.ip.as_str()),
            DeviceField::Orbi => r.push(device.connected_orbi.as_str()),
            DeviceField::Connection => r.push(device.connection_type.as_str()),
            DeviceField::Mac => r.push(device.mac.as_str()),
            DeviceField::Model => r.push(device.model.as_str()),
        }
    }
    r
}

/// The default field selection, as a vector.
pub fn default_fields() -> (r: Vec<DeviceField>)
    ensures
        r@ == effective_fields(Seq::<DeviceField>::empty()),
{
    let mut r: Vec<DeviceField> = Vec::new();
    r.push(DeviceField::Name);
    r.push(DeviceField::Ip);
    r.push(DeviceField::Connection);
    r.push(DeviceField::Kind);
    proof {
        assert(r@ =~= effective_fields(Seq::<DeviceField>::empty()));
    }
    r
}

/// The ASCII table for the client devices: a header of labels for the
/// selected fields (the default set when none are selected) and one row per
/// device with those attributes in the same order.
pub fn render_table(devs: &AttachedDevices, device_fields: &[DeviceField]) -> (r: String)
    ensures
        r@ == table_text(
            header_of(effective_fields(device_fields@)),
            rows_of(devs@.devices, effective_fields(device_fields@)),
        ),
        forall|i: int, j: int|
            0 <= i < devs@.devices.len() && 0 <= j < effective_fields(device_fields@).len()
                && cell_shown_verbatim(
                #[trigger] field_of(effective_fields(device_fields@)[j], devs@.devices[i]),
            ) ==> contains_seq(
                r@,
                field_of(effective_fields(device_fields@)[j], devs@.devices[i]),
            ),
{
    let ghost eff = effective_fields(device_fields@);
    let owned_default: Vec<DeviceField>;
    let fields: &[DeviceField] = if device_fields.len() == 0 {
        owned_default = default_fields();
        owned_default.as_slice()
    } else {
        device_fields
    };
    proof {
        assert(fields@ == eff);
    }
    let mut t = table_new();
    let mut header: Vec<String> = Vec::new();
    let nf = fields.len();
    for i in 0..nf
        invariant
            nf == fields@.len(),
            fields@ == eff,
            header@.len() == i,
            forall|j: int| 0 <= j < i ==> (#[trigger] header@[j])@ == spec_label(eff[j]),
    {
        header.push(fields[i].label().to_owned());
    }
    proof {
        assert(header@.map_values(|s: String| s@) =~= header_of(eff));
    }
    table_set_header(&mut t, header);
    let nd = devs.devices.len();
    for i in 0..nd
        invariant
            nd == devs.devices@.len(),
            fields@ == eff,
            table_header(t) == header_of(eff),
            table_rows(t) == rows_of(devs@.devices.subrange(0, i as int), eff),
    {
        let row = construct_row_from(fields, &devs.devices[i]);
        let mut cells: Vec<String> = Vec::new();
        let nr = row.len();
        for k in 0..nr
            invariant
                nr == row@.len(),
                row@.len() == eff.len(),
                fields@ == eff,
                cells@.len() == k,
                forall|j: int| 0 <= j < eff.len() ==> (#[trigger] row@[j])@ == field_of(
                    eff[j],
                    devs@.devices[i as int],
                ),
                forall|j: int| 0 <= j < k ==> (#[trigger] cells@[j])@ == field_of(
                    eff[j],
                    devs@.devices[i as int],
                ),
        {
            cells.push(row[k].to_owned());
        }
        proof {
            assert(cells@.map_values(|s: String| s@) =~= eff.map_values(
                |f: DeviceField| field_of(f, devs@.devices[i as int]),
            ));
        }
        table_add_row(&mut t, cells);
        proof {
            assert(rows_of(devs@.devices.subrange(0, i as int), eff).push(
                eff.map_values(|f: DeviceField| field_of(f, devs@.devices[i as int])),
            ) =~= rows_of(devs@.devices.subrange(0, i + 1), eff));
        }
    }
    proof {
        assert(devs@.devices.subrange(0, devs@.devices.len() as int) =~= devs@.devices);
    }
    let r = table_render(&t);
    proof {
        let rows = rows_of(devs@.devices, eff);
        assert forall|i: int, j: int|
            0 <= i < devs@.devices.len() && 0 <= j < eff.len() && cell_shown_verbatim(
                #[trigger] field_of(eff[j], devs@.devices[i]),
            ) implies contains_seq(r@, field_of(eff[j], devs@.devices[i])) by {
            assert(rows[i][j] == field_of(eff[j], devs@.devices[i]));
        }
    }
    r
}

/// The simple listing: one `"<name>: <ip>"` line per client device.
pub open spec fn simple_text(devices: Seq<DeviceV>) -> Seq<char>
    decreases devices.len(),
{
    if devices.len() == 0 {
        Seq::empty()
    } else {
        simple_text(devices.drop_last()) + devices.last().name + ": "@ + devices.last().ip + "\n"@
    }
}

/// Renders the simple listing.
pub fn render_simple(devs: &AttachedDevices) -> (r: String)
    ensures
        r@ == simple_text(devs@.devices),
{
    let mut r = String::new();
    let n = devs.devices.len();
    for i in 0..n
        invariant
            n == devs.devices@.len(),
            r@ == simple_text(devs@.devices.subrange(0, i as int)),
    {
        r.append(devs.devices[i].name.as_str());
        r.append(": ");
        r.append(devs.devices[i].ip.as_str());
        r.append("\n");
        proof {
            let prefix = devs@.devices.subrange(0, i + 1);
            assert(prefix.drop_last() =~= devs@.devices.subrange(0, i as int));
            assert(prefix.last() == devs@.devices[i as int]);
        }
    }
    proof {
        assert(devs@.devices.subrange(0, devs@.devices.len() as int) =~= devs@.devices);
    }
    r
}

/// The plain-text body for the HTTP surface: the same tabular shape as
/// `render_table` with the default field set. Every device's display name
/// (when it holds no line break) appears verbatim in the body.
pub fn render_plain_text_http(devs: &AttachedDevices) -> (r: String)
    ensures
        r@ == table_text(
            header_of(effective_fields(Seq::<DeviceField>::empty())),
            rows_of(devs@.devices, effective_fields(Seq::<DeviceField>::empty())),
        ),
        forall|i: int|
            0 <= i < devs@.devices.len() && cell_shown_verbatim(#[trigger] devs@.devices[i].name)
                ==> contains_seq(r@, devs@.devices[i].name),
{
    let empty: Vec<DeviceField> = Vec::new();
    proof {
        assert(empty@ =~= Seq::<DeviceField>::empty());
    }
    let r = render_table(devs, empty.as_slice());
    proof {
        let eff = effective_fields(Seq::<DeviceField>::empty());
        assert forall|i: int|
            0 <= i < devs@.devices.len() && cell_shown_verbatim(#[trigger] devs@.devices[i].name)
            implies contains_seq(r@, devs@.devices[i].name) by {
            assert(eff[0] == DeviceField::Name);
            assert(field_of(eff[0], devs@.devices[i]) == devs@.devices[i].name);
        }
    }
    r
}

/// One override line of the configuration dump.
pub open spec fn override_dump_line(key: Seq<char>, value: Seq<char>) -> Seq<char> {
    "  "@ + key + " -> "@ + value + "\n"@
}

/// The override lines of the configuration dump, in table order.
pub open spec fn overrides_dump(entries: Seq<(Seq<char>, Seq<char>)>) -> Seq<char>
    decreases entries.len(),
{
    if entries.len() == 0 {
        Seq::empty()
    } else {
        override_dump_line(entries[0].0, entries[0].1) + overrides_dump(entries.drop_first())
    }
}

/// The configuration dump: the username, the password — masked with one
/// asterisk per character unless its display was asked for — and every
/// override on a line of its own.
pub open spec fn dump_text(c: ConfigV, show_password: bool) -> Seq<char> {
    "username: "@ + c.username + "\n"@ + "password: "@ + (if show_password {
        c.password
    } else {
        spec_stars(c.password.len())
    }) + "\n"@ + "overrides:\n"@ + overrides_dump(c.device_name_overrides)
}

/// Dumping one more override appends its line.
proof fn lemma_overrides_dump_snoc(
    entries: Seq<(Seq<char>, Seq<char>)>,
    e: (Seq<char>, Seq<char>),
)
    ensures
        overrides_dump(entries.push(e)) == overrides_dump(entries) + override_dump_line(e.0, e.1),
    decreases entries.len(),
{
    if entries.len() == 0 {
        assert(entries.push(e)[0] == e);
        assert(entries.push(e).drop_first() =~= entries);
        assert(overrides_dump(entries.push(e)) =~= overrides_dump(entries) + override_dump_line(
            e.0,
            e.1,
        ));
    } else {
        assert(entries.push(e)[0] == entries[0]);
        assert(entries.push(e).drop_first() =~= entries.drop_first().push(e));
        lemma_overrides_dump_snoc(entries.drop_first(), e);
        assert(overrides_dump(entries.push(e)) =~= overrides_dump(entries) + override_dump_line(
            e.0,
            e.1,
        ));
    }
}

/// Renders the configuration dump.
pub fn render_config_dump(c: &Config, show_password: bool) -> (r: String)
    ensures
        r@ == dump_text(c@, show_password),
{
    let mut out: Vec<char> = Vec::new();
    append_str(&mut out, "username: ");
    append_str(&mut out, c.username.as_str());
    append_str(&mut out, "\n");
    append_str(&mut out, "password: ");
    if show_password {
        append_str(&mut out, c.password.as_str());
    } else {
        let masked = stars(c.password.as_str().unicode_len());
        append_str(&mut out, masked.as_str());
    }
    append_str(&mut out, "\noverrides:\n");
    proof {
        reveal_strlit("\n");
        reveal_strlit("overrides:\n");
        reveal_strlit("\noverrides:\n");
    }
    let ghost head = out@;
    proof {
        assert(head =~= "username: "@ + c@.username + "\n"@ + "password: "@ + (
        if show_password {
            c@.password
        } else {
            spec_stars(c@.password.len())
        }) + "\n"@ + "overrides:\n"@);
        assert(out@ + overrides_dump(c@.device_name_overrides.subrange(0, 0)) =~= out@);
    }
    let n = c.device_name_overrides.len();
    for i in 0..n
        invariant
            n == c.device_name_overrides.len(),
            c@.device_name_overrides.len() == n,
            out@ == head + overrides_dump(c@.device_name_overrides.subrange(0, i as int)),
            forall|j: int| 0 <= j < n ==> #[trigger] c@.device_name_overrides[j] == (
                c.device_name_overrides@[j].0@,
                c.device_name_overrides@[j].1@,
            ),
    {
        append_str(&mut out, "  ");
        append_str(&mut out, c.device_name_overrides[i].0.as_str());
        append_str(&mut out, " -> ");
        append_str(&mut out, c.device_name_overrides[i].1.as_str());
        append_str(&mut out, "\n");
        proof {
            let entries = c@.device_name_overrides;
            lemma_overrides_dump_snoc(entries.subrange(0, i as int), entries[i as int]);
            assert(entries.subrange(0, i as int).push(entries[i as int]) =~= entries.subrange(
                0,
                i + 1,
            ));
            assert(out@ =~= head + overrides_dump(entries.subrange(0, i + 1)));
        }
    }
    proof {
        assert(c@.device_name_overrides.subrange(0, c@.device_name_overrides.len() as int)
            =~= c@.device_name_overrides);
        assert(head + overrides_dump(c@.device_name_overrides) =~= dump_text(c@, show_password));
    }
    chars_to_string(&out)
}

} // verus!
