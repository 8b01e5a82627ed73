//! Choosing the devices to poll.

use vstd::prelude::*;

use crate::device::{DeviceDescriptor, TypedDevice};

verus! {

/// Chooses among the devices of an enumeration.
pub struct DeviceFilterer<'a> {
    /// The serial numbers to choose from, or `None` for every controller.
    pub serial_numbers: Option<&'a [String]>,
}

/// Whether `serial` is one of the serial numbers in `list`.
pub open spec fn listed(list: Seq<String>, serial: Seq<char>) -> bool {
    exists|i: int| 0 <= i < list.len() && (#[trigger] list[i])@ == serial
}

/// Whether `serial` is one of the serial numbers in `list`.
pub fn is_listed(list: &[String], serial: &String) -> (found: bool)
    ensures
        found == listed(list@, serial@),
{
    let mut i: usize = 0;
    while i < list.len()
        invariant
            i <= list.len(),
            forall|j: int| 0 <= j < i ==> (#[trigger] list@[j])@ != serial@,
        decreases list.len() - i,
    {
        if list[i] == *serial {
            return true;
        }
        i = i + 1;
    }
    false
}

impl<'a> DeviceFilterer<'a> {
    /// Whether a device with this serial number passes the list. With a
    /// list, a device without a serial number does not.
    pub open spec fn admits(&self, serial_number: Option<String>) -> bool {
        match self.serial_numbers {
            None => true,
            Some(list) => serial_number matches Some(serial) && listed(list@, serial@),
        }
    }

    /// Whether `device` is chosen: it is a supported controller, and its
    /// serial number passes the list.
    pub open spec fn selects(&self, device: DeviceDescriptor) -> bool {
        TypedDevice::supported(device) && self.admits(device.serial_number)
    }

    /// Classifies `device` and hands it out if it is chosen.
    pub fn predicate(&self, device: &'a DeviceDescriptor) -> (res: Option<TypedDevice<'a>>)
        ensures
            res is Some <==> self.selects(*device),
            res matches Some(typed) ==> typed.classified_from(*device),
    {
        let typed_device = match TypedDevice::make_device(device) {
            Some(typed_device) => typed_device,
            None => {
                return None;
            },
        };
        let sn_list = match self.serial_numbers {
            Some(sn_list) => sn_list,
            None => {
                return Some(typed_device);
            },
        };
        match &device.serial_number {
            Some(dev_sn) => {
                if is_listed(sn_list, dev_sn) {
                    Some(typed_device)
                } else {
                    None
                }
            },
            None => None,
        }
    }
}

/// Without a list the filter chooses every supported controller. With a
/// list it chooses none that has no serial number, and none whose serial
/// number the list does not hold.
pub proof fn lemma_filter_choice(filter: DeviceFilterer, device: DeviceDescriptor)
    ensures
        filter.serial_numbers is None ==> filter.selects(device) == TypedDevice::supported(device),
        filter.serial_numbers is Some && device.serial_number is None ==> !filter.selects(device),
        filter.serial_numbers is Some && device.serial_number is Some ==> filter.selects(device)
            == (TypedDevice::supported(device) && listed(
            filter.serial_numbers->0@,
            device.serial_number->0@,
        )),
        filter.selects(device) ==> TypedDevice::supported(device),
{
}

} // verus!
