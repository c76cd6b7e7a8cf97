//! Choosing the microphone to capture from.
//!
//! The caller enumerates the input devices (a device whose name cannot be
//! read has no name) and opens the chosen one; this module chooses.

use crate::config::color::{chars_of, spells};
use crate::error::{AppError, AppResult};
use vstd::prelude::*;
use vstd::string::StringExecFns;

verus! {

/// Whether device name `name` is `requested`.
pub open spec fn is_named(name: Option<Seq<char>>, requested: Seq<char>) -> bool {
    name == Some(requested)
}

/// Message when no input device has the requested name.
pub open spec fn device_not_found_message(requested: Seq<char>) -> Seq<char> {
    "找不到输入设备 "@ + requested
}

/// Name shown for the default input device when its own name is unreadable.
pub open spec fn default_device_name() -> Seq<char> {
    "默认设备"@
}

/// Index of the first device called `requested`, or a "device not found"
/// error when none is.
pub fn pick_input_device(requested: &str, names: &Vec<Option<String>>) -> (r: AppResult<usize>)
    ensures
        match r {
            Ok(i) => {
                &&& i < names@.len()
                &&& is_named(names.deep_view()[i as int], requested@)
                &&& forall|j: int| 0 <= j < i ==> !is_named(#[trigger] names.deep_view()[j], requested@)
            },
            Err(e) => {
                &&& e matches AppError::AudioDeviceNotFound(msg) && msg@ == device_not_found_message(requested@)
                &&& forall|j: int| 0 <= j < names@.len() ==> !is_named(#[trigger] names.deep_view()[j], requested@)
            },
        },
{
    let wanted = chars_of(requested);
    let mut i: usize = 0;
    while i < names.len()
        invariant
            i <= names@.len(),
            wanted@ == requested@,
            forall|j: int| 0 <= j < i ==> !is_named(#[trigger] names.deep_view()[j], requested@),
        decreases names@.len() - i,
    {
        match &names[i] {
            Some(name) => {
                if spells(&wanted, name.as_str()) {
                    return Ok(i);
                }
            },
            None => {},
        }
        i = i + 1;
    }
    let msg = String::from_str("找不到输入设备 ").concat(requested);
    Err(AppError::AudioDeviceNotFound(msg))
}

/// Name to show for the default input device: its own, or a generic one.
pub fn default_device_label(name: Option<String>) -> (label: String)
    ensures
        label@ == match name {
            Some(n) => n@,
            None => default_device_name(),
        },
{
    match name {
        Some(n) => n,
        None => String::from_str("默认设备"),
    }
}

} // verus!
