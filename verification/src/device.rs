//! Installed pass-through devices.

use vstd::prelude::*;

verus! {

/// An installed device: its name, its vendor and the path of its driver library.
#[derive(Debug, Clone, PartialEq, Eq)]
pub struct J2534Device {
    pub name: String,
    pub vendor: String,
    pub dll_path: String,
}

/// An installed device, with its texts as sequences.
pub struct DeviceView {
    pub name: Seq<char>,
    pub vendor: Seq<char>,
    pub dll_path: Seq<char>,
}

impl View for J2534Device {
    type V = DeviceView;

    open spec fn view(&self) -> DeviceView {
        DeviceView { name: self.name@, vendor: self.vendor@, dll_path: self.dll_path@ }
    }
}

/// The text, or the empty text where there is none.
pub open spec fn text_or_empty(text: Option<String>) -> Seq<char> {
    match text {
        Some(s) => s@,
        None => Seq::empty(),
    }
}

/// The device that a registration describes. A registration without a library
/// path describes none. A missing name is replaced by the name of the
/// registration, a missing vendor by the empty text.
pub open spec fn registered(
    key_name: Seq<char>,
    vendor: Option<String>,
    name: Option<String>,
    dll_path: Option<String>,
) -> Option<DeviceView> {
    if text_or_empty(dll_path).len() == 0 {
        None
    } else {
        Some(
            DeviceView {
                name: match name {
                    Some(s) => s@,
                    None => key_name,
                },
                vendor: text_or_empty(vendor),
                dll_path: text_or_empty(dll_path),
            },
        )
    }
}

/// View of an optional device.
pub open spec fn device_view(device: Option<J2534Device>) -> Option<DeviceView> {
    match device {
        Some(d) => Some(d@),
        None => None,
    }
}

/// Makes a device of the values read from its registration.
pub fn device_entry(
    key_name: String,
    vendor: Option<String>,
    name: Option<String>,
    dll_path: Option<String>,
) -> (device: Option<J2534Device>)
    ensures
        device_view(device) == registered(key_name@, vendor, name, dll_path),
{
    let dll_path = match dll_path {
        Some(s) => s,
        None => String::new(),
    };
    if dll_path.as_str().is_empty() {
        return None;
    }
    let vendor = match vendor {
        Some(s) => s,
        None => String::new(),
    };
    let name = match name {
        Some(s) => s,
        None => key_name,
    };
    Some(J2534Device { name, vendor, dll_path })
}

} // verus!
