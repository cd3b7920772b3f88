//! The records that the service exposes, and the registry that finds a
//! record by its object path.

use vstd::prelude::*;
use vstd::hash_map::StringHashMap;
use crate::path::{is_valid_object_path, valid_object_path};

verus! {

/// One addressable record: a description, and the object path at which the
/// record is exposed. The path of every `Device` is a valid object path.
pub struct Device {
    description: String,
    path: String,
}

/// What a `Device` is, with its strings as character sequences.
pub ghost struct DeviceView {
    pub description: Seq<char>,
    pub path: Seq<char>,
}

impl View for Device {
    type V = DeviceView;

    closed spec fn view(&self) -> DeviceView {
        DeviceView { description: self.description@, path: self.path@ }
    }
}

impl Device {
    #[verifier::type_invariant]
    spec fn path_is_valid(&self) -> bool {
        valid_object_path(self.path@)
    }

    /// The record of this service: it is exposed at the root path.
    pub fn new() -> (device: Device)
        ensures
            device@.description == "A simple krunner test"@,
            device@.path == "/"@,
    {
        proof {
            reveal_strlit("/");
        }
        Device {
            description: String::from_str("A simple krunner test"),
            path: String::from_str("/"),
        }
    }

    /// A record with the given description at the given path, if that is a
    /// valid object path.
    pub fn at(description: String, path: String) -> (device: Option<Device>)
        ensures
            device is Some <==> valid_object_path(path@),
            device is Some ==> device->Some_0@ == (DeviceView {
                description: description@,
                path: path@,
            }),
    {
        if is_valid_object_path(path.as_str()) {
            Some(Device { description, path })
        } else {
            None
        }
    }

    pub fn description(&self) -> (description: &str)
        ensures
            description@ == self@.description,
    {
        self.description.as_str()
    }

    /// The object path of this record, which is always a valid one.
    pub fn path(&self) -> (path: &str)
        ensures
            path@ == self@.path,
            valid_object_path(path@),
    {
        proof {
            use_type_invariant(self);
        }
        self.path.as_str()
    }
}

/// The records of the service, each found by its object path.
pub struct Registry {
    records: StringHashMap<Device>,
}

impl View for Registry {
    type V = Map<Seq<char>, DeviceView>;

    closed spec fn view(&self) -> Map<Seq<char>, DeviceView> {
        self.records@.map_values(|d: Device| d@)
    }
}

impl Registry {
    #[verifier::type_invariant]
    spec fn keyed_by_path(&self) -> bool {
        forall|p: Seq<char>| #[trigger] self.records@.contains_key(p) ==> self.records@[p]@.path == p
    }

    /// A registry without records.
    pub fn new() -> (registry: Registry)
        ensures
            registry@ == Map::<Seq<char>, DeviceView>::empty(),
    {
        Registry { records: StringHashMap::new() }
    }

    /// This registry with `device` at its path, in place of any record that
    /// was there.
    pub fn with(self, device: Device) -> (registry: Registry)
        ensures
            registry@ == self@.insert(device@.path, device@),
    {
        proof {
            use_type_invariant(&self);
        }
        let mut records = self.records;
        let key = String::from_str(device.path());
        records.insert(key, device);
        Registry { records }
    }

    /// The record at `path`, if there is one.
    pub fn lookup(&self, path: &str) -> (found: Option<&Device>)
        ensures
            found is Some <==> self@.contains_key(path@),
            found is Some ==> found->Some_0@ == self@[path@] && found->Some_0@.path == path@,
    {
        proof {
            use_type_invariant(self);
        }
        self.records.get(path)
    }
}

} // verus!
