//! The `Device` record: three descriptive strings and the metadata that the
//! cluster keeps for every object.

use vstd::prelude::*;
use vstd::string::StringExecFns;

verus! {

/// API group under which devices are registered.
pub const GROUP: &'static str = "device.crd";

/// Version of the device API.
pub const VERSION: &'static str = "v1";

/// Kind that every device object carries.
pub const KIND: &'static str = "Device";

/// Name of the collection that holds the devices of a namespace.
pub const PLURAL: &'static str = "device";

/// Devices live in a namespace, not in the cluster as a whole.
pub const NAMESPACED: bool = true;

/// What a device is: its type, its display name and who makes it.
#[derive(Debug, PartialEq, Eq)]
pub struct DeviceSpec {
    pub device_type: String,
    pub name: String,
    pub vendor: String,
}

/// The mathematical value of a [`DeviceSpec`].
pub struct DeviceSpecView {
    pub device_type: Seq<char>,
    pub name: Seq<char>,
    pub vendor: Seq<char>,
}

impl View for DeviceSpec {
    type V = DeviceSpecView;

    open spec fn view(&self) -> DeviceSpecView {
        DeviceSpecView {
            device_type: self.device_type@,
            name: self.name@,
            vendor: self.vendor@,
        }
    }
}

impl Default for DeviceSpec {
    /// A spec whose three fields are empty.
    fn default() -> (spec: DeviceSpec)
        ensures
            spec@.device_type == Seq::<char>::empty(),
            spec@.name == Seq::<char>::empty(),
            spec@.vendor == Seq::<char>::empty(),
    {
        DeviceSpec { device_type: String::new(), name: String::new(), vendor: String::new() }
    }
}

impl Clone for DeviceSpec {
    fn clone(&self) -> (copy: DeviceSpec)
        ensures
            copy == *self,
    {
        DeviceSpec {
            device_type: self.device_type.clone(),
            name: self.name.clone(),
            vendor: self.vendor.clone(),
        }
    }
}

/// The part of an object's metadata that the cluster assigns and this
/// library looks at. Each entry may be absent.
#[derive(Debug, PartialEq, Eq)]
pub struct Metadata {
    pub name: Option<String>,
    pub namespace: Option<String>,
    pub resource_version: Option<String>,
}

/// The mathematical value of a [`Metadata`].
pub struct MetadataView {
    pub name: Option<Seq<char>>,
    pub namespace: Option<Seq<char>>,
    pub resource_version: Option<Seq<char>>,
}

impl View for Metadata {
    type V = MetadataView;

    open spec fn view(&self) -> MetadataView {
        MetadataView {
            name: self.name.deep_view(),
            namespace: self.namespace.deep_view(),
            resource_version: self.resource_version.deep_view(),
        }
    }
}

impl Clone for Metadata {
    fn clone(&self) -> (copy: Metadata)
        ensures
            copy == *self,
    {
        Metadata {
            name: self.name.clone(),
            namespace: self.namespace.clone(),
            resource_version: self.resource_version.clone(),
        }
    }
}

/// A device as the cluster stores it: metadata and spec.
#[derive(Debug, PartialEq, Eq)]
pub struct Device {
    pub metadata: Metadata,
    pub spec: DeviceSpec,
}

/// The mathematical value of a [`Device`].
pub struct DeviceView {
    pub metadata: MetadataView,
    pub spec: DeviceSpecView,
}

impl View for Device {
    type V = DeviceView;

    open spec fn view(&self) -> DeviceView {
        DeviceView { metadata: self.metadata@, spec: self.spec@ }
    }
}

impl Clone for Device {
    fn clone(&self) -> (copy: Device)
        ensures
            copy == *self,
    {
        Device { metadata: self.metadata.clone(), spec: self.spec.clone() }
    }
}

impl DeviceView {
    /// A device can be addressed when it has a name and the name is not empty.
    pub open spec fn identified(self) -> bool {
        self.metadata.name matches Some(name) && name.len() > 0
    }
}

impl Device {
    /// A device called `name` that the cluster has not seen yet: it has no
    /// namespace and no resource version.
    pub fn new(name: &str, spec: DeviceSpec) -> (device: Device)
        ensures
            device@.metadata.name == Some(name@),
            device@.metadata.namespace.is_none(),
            device@.metadata.resource_version.is_none(),
            device@.spec == spec@,
            device@.identified() <==> name@.len() > 0,
    {
        Device {
            metadata: Metadata {
                name: Some(String::from_str(name)),
                namespace: None,
                resource_version: None,
            },
            spec,
        }
    }

    /// Whether the device has a name that is not empty.
    pub fn is_identified(&self) -> (identified: bool)
        ensures
            identified == self@.identified(),
    {
        match &self.metadata.name {
            Some(name) => !name.as_str().is_empty(),
            None => false,
        }
    }
}

} // verus!
