use device_operator::device::{
    Device, DeviceSpec, Metadata, GROUP, KIND, NAMESPACED, PLURAL, VERSION,
};

fn thinkpad() -> DeviceSpec {
    DeviceSpec {
        device_type: "laptop".to_string(),
        name: "thinkpad t480s".to_string(),
        vendor: "lenovo".to_string(),
    }
}

#[test]
fn resource_identifiers() {
    assert_eq!(GROUP, "device.crd");
    assert_eq!(VERSION, "v1");
    assert_eq!(KIND, "Device");
    assert_eq!(PLURAL, "device");
    assert!(NAMESPACED);
}

#[test]
fn default_spec_is_empty() {
    let spec = DeviceSpec::default();
    assert_eq!(spec.device_type, "");
    assert_eq!(spec.name, "");
    assert_eq!(spec.vendor, "");
}

#[test]
fn new_device_has_name_and_spec_only() {
    let device = Device::new("think", thinkpad());
    assert_eq!(device.metadata.name, Some("think".to_string()));
    assert_eq!(device.metadata.namespace, None);
    assert_eq!(device.metadata.resource_version, None);
    assert_eq!(device.spec, thinkpad());
    assert_eq!(device.spec.device_type, "laptop");
    assert_eq!(device.spec.name, "thinkpad t480s");
    assert_eq!(device.spec.vendor, "lenovo");
}

#[test]
fn new_device_keeps_the_spec_apart_from_the_name() {
    let device = Device::new("think", thinkpad());
    assert_ne!(device.metadata.name, Some(device.spec.name.clone()));
}

#[test]
fn named_device_is_identified() {
    assert!(Device::new("think", thinkpad()).is_identified());
    assert!(Device::new("t", DeviceSpec::default()).is_identified());
}

#[test]
fn empty_name_does_not_identify() {
    assert!(!Device::new("", thinkpad()).is_identified());
}

#[test]
fn absent_name_does_not_identify() {
    let device = Device {
        metadata: Metadata {
            name: None,
            namespace: Some("default".to_string()),
            resource_version: Some("42".to_string()),
        },
        spec: thinkpad(),
    };
    assert!(!device.is_identified());
}

#[test]
fn cluster_metadata_leaves_identity_to_the_name() {
    let device = Device {
        metadata: Metadata {
            name: Some("think".to_string()),
            namespace: Some("default".to_string()),
            resource_version: Some("42".to_string()),
        },
        spec: thinkpad(),
    };
    assert!(device.is_identified());
}

#[test]
fn clone_keeps_every_field() {
    let device = Device {
        metadata: Metadata {
            name: Some("think".to_string()),
            namespace: Some("default".to_string()),
            resource_version: None,
        },
        spec: thinkpad(),
    };
    let copy = device.clone();
    assert_eq!(copy, device);
    assert_eq!(copy.metadata.clone(), device.metadata);
    assert_eq!(copy.spec.clone(), thinkpad());
}
