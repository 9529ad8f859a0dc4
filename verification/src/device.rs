use vstd::prelude::*;

verus! {

/// One attached network endpoint as the router reports it. Only `name` is
/// ever rewritten (by the override resolver); every other field is a
/// read-only snapshot of the remote response.
#[derive(Debug, PartialEq)]
pub struct Device {
    pub mac: String,
    pub kind: String,
    pub model: String,
    pub name: String,
    pub ip: String,
    pub connection_type: String,
    pub connected_orbi: String,
    pub connected_orbi_mac: String,
    pub connection_img: String,
    pub backhaul_status_style: String,
    pub backhaul_status: String,
    pub category: String,
    pub status: u32,
    pub sat_type: u32,
    pub led_status: u32,
    pub led_brightness: u32,
    pub led_sync: u32,
    pub voice_reg: String,
}

/// The mathematical value of a `Device`: each text field as a character
/// sequence, each numeric field as itself.
#[verifier::ext_equal]
pub ghost struct DeviceV {
    pub mac: Seq<char>,
    pub kind: Seq<char>,
    pub model: Seq<char>,
    pub name: Seq<char>,
    pub ip: Seq<char>,
    pub connection_type: Seq<char>,
    pub connected_orbi: Seq<char>,
    pub connected_orbi_mac: Seq<char>,
    pub connection_img: Seq<char>,
    pub backhaul_status_style: Seq<char>,
    pub backhaul_status: Seq<char>,
    pub category: Seq<char>,
    pub status: u32,
    pub sat_type: u32,
    pub led_status: u32,
    pub led_brightness: u32,
    pub led_sync: u32,
    pub voice_reg: Seq<char>,
}

impl View for Device {
    type V = DeviceV;

    open spec fn view(&self) -> DeviceV {
        DeviceV {
            mac: self.mac@,
            kind: self.kind@,
            model: self.model@,
            name: self.name@,
            ip: self.ip@,
            connection_type: self.connection_type@,
            connected_orbi: self.connected_orbi@,
            connected_orbi_mac: self.connected_orbi_mac@,
            connection_img: self.connection_img@,
            backhaul_status_style: self.backhaul_status_style@,
            backhaul_status: self.backhaul_status@,
            category: self.category@,
            status: self.status,
            sat_type: self.sat_type,
            led_status: self.led_status,
            led_brightness: self.led_brightness,
            led_sync: self.led_sync,
            voice_reg: self.voice_reg@,
        }
    }
}

impl Clone for Device {
    fn clone(&self) -> (r: Device)
        ensures
            r@ == self@,
    {
        Device {
            mac: self.mac.clone(),
            kind: self.kind.clone(),
            model: self.model.clone(),
            name: self.name.clone(),
            ip: self.ip.clone(),
            connection_type: self.connection_type.clone(),
            connected_orbi: self.connected_orbi.clone(),
            connected_orbi_mac: self.connected_orbi_mac.clone(),
            connection_img: self.connection_img.clone(),
            backhaul_status_style: self.backhaul_status_style.clone(),
            backhaul_status: self.backhaul_status.clone(),
            category: self.category.clone(),
            status: self.status,
            sat_type: self.sat_type,
            led_status: self.led_status,
            led_brightness: self.led_brightness,
            led_sync: self.led_sync,
            voice_reg: self.voice_reg.clone(),
        }
    }
}

/// One fetch result: the router's satellite entries and its directly
/// attached client devices, in the order the router reported them.
#[derive(Debug, PartialEq)]
pub struct AttachedDevices {
    pub satellites: Vec<Device>,
    pub devices: Vec<Device>,
}

/// The mathematical value of an `AttachedDevices`.
#[verifier::ext_equal]
pub ghost struct AttachedDevicesV {
    pub satellites: Seq<DeviceV>,
    pub devices: Seq<DeviceV>,
}

impl View for AttachedDevices {
    type V = AttachedDevicesV;

    open spec fn view(&self) -> AttachedDevicesV {
        AttachedDevicesV {
            satellites: self.satellites@.map_values(|d: Device| d@),
            devices: self.devices@.map_values(|d: Device| d@),
        }
    }
}

impl Clone for AttachedDevices {
    fn clone(&self) -> (r: AttachedDevices)
        ensures
            r@ == self@,
    {
        let mut satellites: Vec<Device> = Vec::new();
        let mut devices: Vec<Device> = Vec::new();
        for i in 0..self.satellites.len()
            invariant
                satellites@.len() == i,
                forall|j: int| 0 <= j < i ==> (#[trigger] satellites@[j])@ == self.satellites@[j]@,
        {
            satellites.push(self.satellites[i].clone());
        }
        for i in 0..self.devices.len()
            invariant
                devices@.len() == i,
                forall|j: int| 0 <= j < i ==> (#[trigger] devices@[j])@ == self.devices@[j]@,
        {
            devices.push(self.devices[i].clone());
        }
        let r = AttachedDevices { satellites, devices };
        proof {
            assert(r@.satellites =~= self@.satellites);
            assert(r@.devices =~= self@.devices);
        }
        r
    }
}

} // verus!
