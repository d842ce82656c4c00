use vstd::prelude::*;

verus! {

/// USB vendor identifier of the thermal camera.
pub const USB_VENDOR_ID: u16 = 0x303A;

/// USB product identifier of the thermal camera.
pub const USB_PRODUCT_ID: u16 = 0x4001;

/// Baud rate the camera's serial port runs at.
pub const BAUD_RATE: u32 = 921600;

/// Read timeout of the serial transport, in seconds.
pub const READ_TIMEOUT_SECS: u64 = 1;

/// One serial port as enumeration reports it: its system name and, for a
/// USB port, its vendor and product identifiers.
pub struct PortCandidate {
    pub port_name: String,
    pub usb_ids: Option<(u16, u16)>,
}

/// Whether a port is the thermal camera: a USB port carrying the
/// camera's vendor and product identifiers.
pub open spec fn is_target_port(c: PortCandidate) -> bool {
    c.usb_ids matches Some(ids) && ids.0 == USB_VENDOR_ID && ids.1 == USB_PRODUCT_ID
}

/// Pick the camera's port from an enumeration: the name of the last
/// matching USB port in scan order, or nothing when no port matches.
pub fn select_port(ports: &Vec<PortCandidate>) -> (r: Option<String>)
    ensures
        match r {
            Option::None => forall|i: int|
                0 <= i < ports@.len() ==> !is_target_port(#[trigger] ports@[i]),
            Option::Some(name) => exists|i: int|
                0 <= i < ports@.len() && #[trigger] is_target_port(ports@[i]) && name@
                    == ports@[i].port_name@ && (forall|j: int|
                    i < j < ports@.len() ==> !is_target_port(#[trigger] ports@[j])),
        },
{
    let n = ports.len();
    let mut r: Option<String> = Option::None;
    let ghost mut last: int = -1;
    let mut i: usize = 0;
    while i < n
        invariant
            i <= n,
            n == ports@.len(),
            -1 <= last < i,
            (r is None) <==> (last == -1),
            r matches Some(name) ==> 0 <= last && is_target_port(ports@[last]) && name@
                == ports@[last].port_name@,
            forall|j: int| last < j < i ==> !is_target_port(#[trigger] ports@[j]),
        decreases n - i,
    {
        let c = &ports[i];
        let matched = match &c.usb_ids {
            Option::Some(ids) => ids.0 == USB_VENDOR_ID && ids.1 == USB_PRODUCT_ID,
            Option::None => false,
        };
        if matched {
            r = Option::Some(c.port_name.clone());
            proof {
                last = i as int;
            }
        }
        i = i + 1;
    }
    r
}

} // verus!
