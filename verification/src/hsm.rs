//! Attaching the hardware security module of the host to the guest.
//!
//! The module is a USB device that is recognised by its vendor and
//! product numbers. It is handed to the guest by a device description in
//! XML that names the bus and the address at which it was found.

use crate::command::{push_arg, Invocation, InvocationModel};
use crate::text::{decimal, hex_word, push_decimal, push_hex_word};
use vstd::prelude::*;
use vstd::string::*;

verus! {

/// Vendor number of the module.
pub const HSM_VENDOR: u16 = 8352;

/// Product number of the module.
pub const HSM_PRODUCT: u16 = 16944;

/// Where a module was found.
#[derive(Clone, Copy, Debug, PartialEq, Eq, Structural)]
pub struct HSMInfo {
    pub hsm_bus_num: u8,
    pub hsm_address: u8,
}

/// The vendor and product numbers that a device reports about itself.
#[derive(Clone, Copy, Debug, PartialEq, Eq, Structural)]
pub struct DeviceDescriptor {
    pub vendor_id: u16,
    pub product_id: u16,
}

/// One USB device as it was found on the host. A device whose descriptor
/// could not be read has none.
#[derive(Clone, Copy, Debug, PartialEq, Eq, Structural)]
pub struct UsbDevice {
    pub bus_number: u8,
    pub address: u8,
    pub descriptor: Option<DeviceDescriptor>,
}

/// Whether a device is the module: its descriptor can be read and shows
/// the vendor and product numbers of the module.
pub open spec fn is_hsm(device: UsbDevice) -> bool {
    device.descriptor matches Some(d) && d.vendor_id == HSM_VENDOR && d.product_id
        == HSM_PRODUCT
}

/// The position of the first module among the devices from position `from`
/// on.
pub open spec fn first_hsm(devices: Seq<UsbDevice>, from: int) -> Option<int>
    decreases devices.len() - from,
{
    if from < 0 || from >= devices.len() {
        None
    } else if is_hsm(devices[from]) {
        Some(from)
    } else {
        first_hsm(devices, from + 1)
    }
}

/// The device description that hands the module at `info` to the guest.
pub open spec fn hsm_xml(info: HSMInfo) -> Seq<char> {
    "\n<hostdev mode='subsystem' type='usb' managed='yes'>\n    <source>\n        <vendor id='"@
        + hex_word(HSM_VENDOR) + "'/>\n        <product id='"@ + hex_word(HSM_PRODUCT)
        + "'/>\n        <address bus='"@ + decimal(info.hsm_bus_num as nat)
        + "' port='1' device='"@ + decimal(info.hsm_address as nat)
        + "'/>\n    </source>\n    <address type='usb' bus='0' port='2'/>\n</hostdev>\n"@
}

/// The arguments with which the virtualisation shell is given a device
/// command for the guest.
pub open spec fn virsh_args(command: Seq<char>, xml_file: Seq<char>) -> Seq<Seq<char>> {
    seq![command, "guestos"@, "--file"@, xml_file]
}

/// What `first_hsm` finds is a module, and no device before it is one.
pub proof fn lemma_first_hsm(devices: Seq<UsbDevice>, from: int)
    requires
        0 <= from,
    ensures
        match first_hsm(devices, from) {
            Some(at) => from <= at < devices.len() && is_hsm(devices[at]) && forall|j: int|
                from <= j < at ==> !is_hsm(#[trigger] devices[j]),
            None => forall|j: int| from <= j < devices.len() ==> !is_hsm(#[trigger] devices[j]),
        },
    decreases devices.len() - from,
{
    if from < devices.len() && !is_hsm(devices[from]) {
        lemma_first_hsm(devices, from + 1);
    }
}

impl HSMInfo {
    /// The place of the module in words.
    pub open spec fn text(&self) -> Seq<char> {
        "HSMInfo { bus: "@ + decimal(self.hsm_bus_num as nat) + ", address: "@ + decimal(
            self.hsm_address as nat,
        ) + " }"@
    }

    /// Renders the place of the module in words.
    pub fn to_text(&self) -> (text: String)
        ensures
            text@ == self.text(),
    {
        let mut text = "HSMInfo { bus: ".to_owned();
        push_decimal(&mut text, self.hsm_bus_num as u64);
        text.append(", address: ");
        push_decimal(&mut text, self.hsm_address as u64);
        text.append(" }");
        text
    }
}

/// Tells whether a device is the module.
pub fn is_hsm_device(device: &UsbDevice) -> (found: bool)
    ensures
        found == is_hsm(*device),
{
    match device.descriptor {
        Some(descriptor) => descriptor.vendor_id == HSM_VENDOR && descriptor.product_id
            == HSM_PRODUCT,
        None => false,
    }
}

/// Finds the module among the devices of the host: the first device that
/// shows its vendor and product numbers.
pub fn get_hsm_info(devices: &Vec<UsbDevice>) -> (result: Result<HSMInfo, String>)
    ensures
        match first_hsm(devices@, 0) {
            Some(at) => result == Ok::<HSMInfo, String>(
                HSMInfo { hsm_bus_num: devices@[at].bus_number, hsm_address: devices@[at].address },
            ),
            None => result is Err && result->Err_0@ == "No HSM device found"@,
        },
{
    let mut i: usize = 0;
    while i < devices.len()
        invariant
            i <= devices.len(),
            first_hsm(devices@, 0) == first_hsm(devices@, i as int),
        decreases devices.len() - i,
    {
        if is_hsm_device(&devices[i]) {
            return Ok(
                HSMInfo { hsm_bus_num: devices[i].bus_number, hsm_address: devices[i].address },
            );
        }
        i = i + 1;
    }
    Err("No HSM device found".to_owned())
}

/// Writes the device description for the module at `hsm_info`. The vendor
/// and product numbers appear in hexadecimal, the bus and the address in
/// decimal.
pub fn get_hsm_xml_string(hsm_info: &HSMInfo) -> (xml: String)
    ensures
        xml@ == hsm_xml(*hsm_info),
{
    let mut xml =
        "\n<hostdev mode='subsystem' type='usb' managed='yes'>\n    <source>\n        <vendor id='".to_owned();
    push_hex_word(&mut xml, HSM_VENDOR);
    xml.append("'/>\n        <product id='");
    push_hex_word(&mut xml, HSM_PRODUCT);
    xml.append("'/>\n        <address bus='");
    push_decimal(&mut xml, hsm_info.hsm_bus_num as u64);
    xml.append("' port='1' device='");
    push_decimal(&mut xml, hsm_info.hsm_address as u64);
    xml.append("'/>\n    </source>\n    <address type='usb' bus='0' port='2'/>\n</hostdev>\n");
    xml
}

/// The invocation of the virtualisation shell that applies a device
/// command to the guest with the device description in `hsm_xml_file`.
pub fn hsm_helper(command: &str, hsm_xml_file: &str) -> (cmd: Invocation)
    ensures
        cmd.deep_view() == (InvocationModel {
            program: "virsh"@,
            args: virsh_args(command@, hsm_xml_file@),
        }),
{
    let mut args: Vec<String> = Vec::new();
    push_arg(&mut args, command);
    push_arg(&mut args, "guestos");
    push_arg(&mut args, "--file");
    push_arg(&mut args, hsm_xml_file);
    assert(args.deep_view() =~= virsh_args(command@, hsm_xml_file@));
    Invocation { program: "virsh".to_owned(), args }
}

/// The invocation that attaches the module described in `hsm_xml_file` to
/// the guest.
pub fn attach_hsm(hsm_xml_file: &str) -> (cmd: Invocation)
    ensures
        cmd.deep_view() == (InvocationModel {
            program: "virsh"@,
            args: virsh_args("attach-device"@, hsm_xml_file@),
        }),
{
    hsm_helper("attach-device", hsm_xml_file)
}

/// The invocation that detaches the module described in `hsm_xml_file`
/// from the guest.
pub fn detach_hsm(hsm_xml_file: &str) -> (cmd: Invocation)
    ensures
        cmd.deep_view() == (InvocationModel {
            program: "virsh"@,
            args: virsh_args("detach-device"@, hsm_xml_file@),
        }),
{
    hsm_helper("detach-device", hsm_xml_file)
}

} // verus!
