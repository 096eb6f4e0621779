//! Choosing a device from the list that the verbs library reports.

use vstd::prelude::*;
use vstd::string::StringExecFns;
use crate::error::{failure_text, is_rdma_error, Failure, RdmaError, Result};

verus! {

/// The devices that `ibv_get_device_list` reported, in order: for each
/// entry its name, or `None` for a null entry.
pub struct DeviceList {
    devices: Vec<Option<String>>,
}

/// The name of an entry, if it is not null.
pub open spec fn entry_name(e: Option<String>) -> Option<Seq<char>> {
    match e {
        Some(n) => Some(n@),
        None => None,
    }
}

/// Whether entry `i` of `names` is a device named `name`.
pub open spec fn names_device(names: Seq<Option<Seq<char>>>, i: int, name: Seq<char>) -> bool {
    0 <= i < names.len() && names[i] == Some(name)
}

/// A device is named `name` exactly when its entry holds that very name:
/// a longer name that starts with it, or any other name, does not count.
pub proof fn lemma_names_device_is_exact(names: Seq<Option<Seq<char>>>, i: int, name: Seq<char>)
    ensures
        names_device(names, i, name) <==> (0 <= i < names.len() && names[i] == Some(name)),
        names_device(names, i, name) ==> names[i]->Some_0.len() == name.len(),
{
}

impl DeviceList {
    /// The entries, by position.
    pub closed spec fn view(&self) -> Seq<Option<Seq<char>>> {
        self.devices@.map_values(|e: Option<String>| entry_name(e))
    }

    /// The list, from what the device-list call gave: `None` when it
    /// returned a null list.
    pub fn available(list: Option<Vec<Option<String>>>) -> (r: Result<DeviceList>)
        ensures
            list is None ==> (r matches Err(e) && is_rdma_error(e, failure_text(Failure::GetDeviceList))),
            list matches Some(v) ==> (r matches Ok(l) && l@ == v@.map_values(
                |e: Option<String>| entry_name(e),
            )),
    {
        match list {
            None => Err(Failure::GetDeviceList.error()),
            Some(devices) => Ok(DeviceList { devices }),
        }
    }

    /// The number of entries.
    pub fn count(&self) -> (n: usize)
        ensures
            n == self@.len(),
    {
        self.devices.len()
    }

    /// The name of the device at `index`: `None` past the end of the list
    /// or for a null entry.
    pub fn get(&self, index: usize) -> (r: Option<&String>)
        ensures
            index >= self@.len() ==> r is None,
            index < self@.len() ==> match r {
                Some(n) => self@[index as int] == Some(n@),
                None => self@[index as int] is None,
            },
    {
        if index >= self.devices.len() {
            return None;
        }
        match &self.devices[index] {
            Some(n) => Some(n),
            None => None,
        }
    }

    /// The position of the first device named `name`.
    pub fn find_by_name(&self, name: &str) -> (r: Option<usize>)
        ensures
            r matches Some(i) ==> names_device(self@, i as int, name@) && forall|j: int|
                0 <= j < i ==> !names_device(self@, j, name@),
            r is None ==> forall|j: int| !names_device(self@, j, name@),
            r matches Some(i) ==> i < self@.len() && self@[i as int] == Some(name@) && forall|j: int|
                0 <= j < i ==> self@[j] != Some(name@),
            r is None ==> forall|j: int| 0 <= j < self@.len() ==> self@[j] != Some(name@),
    {
        let target = String::from_str(name);
        let mut i: usize = 0;
        while i < self.devices.len()
            invariant
                i <= self@.len(),
                target@ == name@,
                forall|j: int| 0 <= j < i ==> !names_device(self@, j, name@),
                forall|j: int| 0 <= j < i ==> self@[j] != Some(name@),
            decreases self.devices.len() - i,
        {
            match self.get(i) {
                Some(dev) => {
                    if dev.eq(&target) {
                        assert(self@[i as int] == Some(name@));
                        return Some(i);
                    }
                },
                None => {},
            }
            i = i + 1;
        }
        None
    }

    /// The device to open: the first one named `name` when a name is
    /// given, the first entry otherwise; no such device is an error.
    pub fn select(&self, name: Option<&str>) -> (r: Result<usize>)
        ensures
            name matches Some(n) ==> match r {
                Ok(i) => names_device(self@, i as int, n@) && forall|j: int|
                    0 <= j < i ==> !names_device(self@, j, n@),
                Err(e) => e is DeviceNotFound && forall|j: int| !names_device(self@, j, n@),
            },
            name matches Some(n) ==> match r {
                Ok(i) => i < self@.len() && self@[i as int] == Some(n@) && forall|j: int|
                    0 <= j < i ==> self@[j] != Some(n@),
                Err(_) => forall|j: int| 0 <= j < self@.len() ==> self@[j] != Some(n@),
            },
            name is None ==> match r {
                Ok(i) => i == 0 && self@.len() > 0 && self@[0] is Some,
                Err(e) => e is DeviceNotFound && (self@.len() == 0 || self@[0] is None),
            },
    {
        match name {
            Some(n) => match self.find_by_name(n) {
                Some(i) => Ok(i),
                None => Err(RdmaError::DeviceNotFound),
            },
            None => match self.get(0) {
                Some(_) => Ok(0),
                None => Err(RdmaError::DeviceNotFound),
            },
        }
    }
}

} // verus!
