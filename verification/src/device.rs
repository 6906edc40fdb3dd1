//! Choosing an audio device by name and describing what a device offers.
//! Finding the devices themselves is left to the caller.

use crate::config::AudioConfig;
use vstd::prelude::*;

verus! {

/// Which device to open.
#[derive(Clone, Copy, Debug, PartialEq, Eq, Structural)]
pub enum DeviceChoice {
    /// No name was configured: the system's default device.
    Default,
    /// The device at this place in the list.
    Named(usize),
    /// A name was configured and no device carries it.
    Missing,
}

/// The range of buffer sizes a device offers, as it is shown to the user.
#[derive(Clone, Copy, Debug, PartialEq, Eq, Structural)]
pub enum BufferRange {
    /// The device does not say.
    Unknown,
    /// From nothing to more than a million: as good as no limit.
    Limitless,
    /// Between these two sizes.
    Range { min: u32, max: u32 },
}

/// The largest upper end that is still shown as a number.
pub const LIMITLESS_ABOVE: u32 = 1000000;

/// How a range of buffer sizes is shown.
pub open spec fn buffer_range(range: Option<(u32, u32)>) -> BufferRange {
    match range {
        None => BufferRange::Unknown,
        Some((min, max)) => if min == 0 && max > LIMITLESS_ABOVE {
            BufferRange::Limitless
        } else {
            BufferRange::Range { min, max }
        },
    }
}

/// How a range of buffer sizes is shown; `None` stands for a device that
/// gives no range.
pub fn describe_buffer_size(range: Option<(u32, u32)>) -> (shown: BufferRange)
    ensures
        shown == buffer_range(range),
{
    match range {
        None => BufferRange::Unknown,
        Some((min, max)) => if min == 0 && max > LIMITLESS_ABOVE {
            BufferRange::Limitless
        } else {
            BufferRange::Range { min, max }
        },
    }
}

/// Whether `choice` is the device to open when `target` is configured and
/// the devices at hand are called `names`: the first that carries the name.
pub open spec fn chosen(target: Option<String>, names: Seq<String>, choice: DeviceChoice) -> bool {
    match target {
        None => choice == DeviceChoice::Default,
        Some(t) => match choice {
            DeviceChoice::Default => false,
            DeviceChoice::Named(i) => {
                &&& i < names.len()
                &&& names[i as int]@ == t@
                &&& forall|j: int| 0 <= j < i ==> names[j]@ != t@
            },
            DeviceChoice::Missing => forall|j: int| 0 <= j < names.len() ==> names[j]@ != t@,
        },
    }
}

impl AudioConfig {
    /// Picks the device to open from the names of the devices at hand, in
    /// the order in which the system lists them.
    pub fn choose_device(&self, names: &[String]) -> (choice: DeviceChoice)
        ensures
            chosen(self.target_device_name, names@, choice),
    {
        match &self.target_device_name {
            None => DeviceChoice::Default,
            Some(target) => {
                let mut k: usize = 0;
                while k < names.len()
                    invariant
                        k <= names@.len(),
                        self.target_device_name == Some(*target),
                        forall|j: int| 0 <= j < k ==> names@[j]@ != target@,
                    decreases names@.len() - k,
                {
                    if names[k] == *target {
                        return DeviceChoice::Named(k);
                    }
                    k += 1;
                }
                DeviceChoice::Missing
            },
        }
    }
}

} // verus!
