//! Input audio devices as reported to the user.

use vstd::prelude::*;

verus! {

/// An input device: its name and whether it is the system's default.
#[derive(Debug)]
pub struct AudioDevice {
    pub name: String,
    pub is_default: bool,
}

/// Whether a device is the default one: both names, as the system reports them (or fails to),
/// are the same; a device is never the default when there is no default device.
pub open spec fn spec_is_default(default_name: Option<Option<Seq<char>>>, name: Option<Seq<char>>) -> bool {
    match default_name {
        Some(d) => d == name,
        None => false,
    }
}

/// The view of an optional text.
pub open spec fn opt_text(o: Option<String>) -> Option<Seq<char>> {
    match o {
        Some(s) => Some(s@),
        None => None,
    }
}

impl AudioDevice {
    /// A device with the name the system reported; a device whose name could not be read is
    /// called "Unknown".
    pub fn from_reported_name(name: Option<String>, is_default: bool) -> (r: Self)
        ensures
            r.name@ == (match name {
                Some(n) => n@,
                None => "Unknown"@,
            }),
            r.is_default == is_default,
    {
        let name = match name {
            Some(n) => n,
            None => String::from_str("Unknown"),
        };
        AudioDevice { name, is_default }
    }

    /// Whether a device is the default one, given the default device's name (`None` when there
    /// is no default device; an inner `None` when its name could not be read) and the device's.
    pub fn is_default_name(default_name: Option<Option<String>>, name: Option<String>) -> (r: bool)
        ensures
            r == spec_is_default(
                match default_name {
                    Some(d) => Some(opt_text(d)),
                    None => None,
                },
                opt_text(name),
            ),
    {
        match default_name {
            Some(Some(d)) => match name {
                Some(n) => d == n,
                None => false,
            },
            Some(None) => name.is_none(),
            None => false,
        }
    }
}

} // verus!
