//! The serial ports on offer, as the configurator lists them.

use vstd::prelude::*;
use crate::protocol::join3;

verus! {

/// What a USB port says about the device behind it.
#[derive(Debug, Clone)]
pub struct UsbDescription {
    pub manufacturer: Option<String>,
    pub product: Option<String>,
}

/// The kind of a serial port.
#[derive(Debug, Clone)]
pub enum PortKind {
    Usb(UsbDescription),
    Other,
}

/// A serial port found on the system.
#[derive(Debug, Clone)]
pub struct PortInfo {
    pub port_name: String,
    pub kind: PortKind,
}

/// The label of a port: the product of a USB device, else its
/// manufacturer, else `USB Device`; `Serial Port` for a port that is not USB.
pub open spec fn port_label(kind: PortKind) -> Seq<char> {
    match kind {
        PortKind::Usb(usb) => match usb.product {
            Some(product) => product@,
            None => match usb.manufacturer {
                Some(manufacturer) => manufacturer@,
                None => "USB Device"@,
            },
        },
        PortKind::Other => "Serial Port"@,
    }
}

/// The name under which a port is offered: its label, then its name in
/// brackets.
pub fn get_port_display_name(port: &PortInfo) -> (name: String)
    ensures
        name@ == port_label(port.kind) + " ("@ + port.port_name@ + ")"@,
{
    let label = match &port.kind {
        PortKind::Usb(usb) => {
            if let Some(product) = &usb.product {
                product.clone()
            } else if let Some(manufacturer) = &usb.manufacturer {
                manufacturer.clone()
            } else {
                String::from_str("USB Device")
            }
        },
        PortKind::Other => String::from_str("Serial Port"),
    };
    let mut name = join3(label.as_str(), " (", port.port_name.as_str());
    name.append(")");
    name
}

/// A USB port is named by its product whenever the product is known,
/// whatever its manufacturer; by its manufacturer when only that is known;
/// as `USB Device` when neither is; any other port is a `Serial Port`.
pub proof fn law_port_label(usb: UsbDescription)
    ensures
        usb.product matches Some(product) ==> port_label(PortKind::Usb(usb)) == product@,
        (usb.product is None && usb.manufacturer is Some) ==> port_label(PortKind::Usb(usb))
            == usb.manufacturer->0@,
        (usb.product is None && usb.manufacturer is None) ==> port_label(PortKind::Usb(usb))
            == "USB Device"@,
        port_label(PortKind::Other) == "Serial Port"@,
{
}

/// The message shown when the ports cannot be listed.
pub fn scan_error_message(error: &str) -> (message: String)
    ensures
        message@ == "Error scanning ports: "@ + error@,
{
    let mut message = String::from_str("Error scanning ports: ");
    message.append(error);
    message
}

} // verus!
