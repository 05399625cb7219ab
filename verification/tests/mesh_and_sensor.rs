//! The mesh layer: application registration, network calls, the sensor
//! model, and profiles.

use gatt_server::application::TeardownStep;
use gatt_server::error::Error;
use gatt_server::mesh::{
    Application, Element, MeshObject, ModelIdentifier, RegisteredApplication, RegisteredElement,
};
use gatt_server::network::{MeshCall, Network};
use gatt_server::profile::Profile;
use gatt_server::sensor::{
    BoundedBuffer, InsufficientBuffer, ParseError, SensorModel, Temperature,
};

#[test]
fn element_model_lists() {
    let e = Element {
        models: vec![
            ModelIdentifier::SIG(0x1102),
            ModelIdentifier::Vendor(0x05f1, 0x0001),
            ModelIdentifier::SIG(0x1000),
        ],
    };
    let re = RegisteredElement::new(e, 3);
    assert_eq!(re.index_property(), 3);
    assert_eq!(re.sig_models(), vec![0x1102, 0x1000]);
    assert_eq!(re.vendor_models(), vec![(0x05f1, 0x0001)]);
}

#[test]
fn mesh_registration_paths() {
    let app = Application {
        path: "/example".to_string(),
        elements: vec![
            Element { models: vec![ModelIdentifier::SIG(0x1102)] },
            Element { models: vec![ModelIdentifier::Vendor(0x05f1, 0x0001)] },
        ],
    };
    let ra = RegisteredApplication::new(app);
    assert_eq!(ra.company_id(), 0x05f1);
    assert_eq!(ra.product_id(), 0x0001);
    assert_eq!(ra.version_id(), 0x0001);

    let (nodes, mut handle) = ra.register();
    let paths: Vec<&str> = nodes.iter().map(|n| n.path.as_str()).collect();
    assert_eq!(
        paths,
        vec!["/example", "/example/application", "/example/ele00", "/example/ele01"]
    );
    assert!(matches!(nodes[0].object, MeshObject::Root));
    match &nodes[1].object {
        MeshObject::Application(inner) => {
            assert_eq!(inner.app.path, "/example");
            assert!(inner.app.elements.is_empty());
        }
        _ => panic!("no application object under /example/application"),
    }
    match &nodes[3].object {
        MeshObject::Element(re) => assert_eq!(re.index, 1),
        _ => panic!("no element under /example/ele01"),
    }

    let steps = handle.release();
    assert_eq!(steps.len(), 1);
    match &steps[0] {
        TeardownStep::Remove(p) => assert_eq!(p, "/example"),
        other => panic!("unexpected teardown step: {:?}", other),
    }
    assert!(handle.release().is_empty());
}

#[test]
fn network_calls() {
    let net = Network::new();

    match net.join("/example", 0x1234).unwrap() {
        MeshCall::Join { path, uuid } => {
            assert_eq!(path, "/example");
            assert_eq!(uuid.len(), 16);
            assert_eq!(&uuid[14..], &[0x12, 0x34]);
        }
        other => panic!("not a join call: {:?}", other),
    }
    assert_eq!(net.join("no-slash", 1).unwrap_err(), Error::InvalidValue);

    match net.attach("/example", "0badc0de").unwrap() {
        MeshCall::Attach { path, token } => {
            assert_eq!(path, "/example");
            assert_eq!(token, 0x0badc0de);
        }
        other => panic!("not an attach call: {:?}", other),
    }
    assert_eq!(
        net.attach("/example", "not-hex").unwrap_err(),
        Error::InvalidValue
    );
    assert_eq!(net.attach("bad path", "ff").unwrap_err(), Error::InvalidValue);

    assert!(matches!(net.cancel(), MeshCall::Cancel));

    match net.leave("ff").unwrap() {
        MeshCall::Leave { token } => assert_eq!(token, 0xff),
        other => panic!("not a leave call: {:?}", other),
    }
    assert_eq!(net.leave("").unwrap_err(), Error::InvalidValue);
}

#[test]
fn temperature_codec() {
    let descs = SensorModel::descriptors();
    assert_eq!(descs, vec![(0x4F, 1)]);

    let mut t = Temperature(0);
    assert_eq!(t.decode(0x4F, &[0xFF]), Ok(()));
    assert_eq!(t.0, -1);
    assert_eq!(t.decode(0x4F, &[0x15, 0x99]), Ok(()));
    assert_eq!(t.0, 0x15);
    assert_eq!(t.decode(0x50, &[0x01]), Err(ParseError::InvalidValue));
    assert_eq!(t.0, 0x15);

    let mut buf = BoundedBuffer::new(2);
    assert_eq!(Temperature(-2).encode(&mut buf), Ok(()));
    assert_eq!(Temperature(3).encode(&mut buf), Ok(()));
    assert_eq!(buf.data, vec![0xFE, 0x03]);
    assert_eq!(Temperature(4).encode(&mut buf), Err(InsufficientBuffer));
    assert_eq!(buf.data, vec![0xFE, 0x03]);
}

#[test]
fn profile_lifecycle() {
    let profile = Profile {
        uuids: vec![0x0000180d_0000_1000_8000_00805f9b34fb, 1],
    };
    assert_eq!(
        profile.uuid_strings(),
        vec![
            "0000180d-0000-1000-8000-00805f9b34fb",
            "00000000-0000-0000-0000-000000000001"
        ]
    );
    let (profile, mut handle) = profile.register();
    assert_eq!(profile.uuids.len(), 2);
    assert!(handle.name.starts_with("/io/crates/tokio_bluez/gatt/profile/"));
    let steps = handle.release();
    assert_eq!(steps.len(), 2);
    assert!(matches!(steps[0], TeardownStep::Unregister));
    match &steps[1] {
        TeardownStep::Remove(p) => assert_eq!(p, &handle.name),
        other => panic!("unexpected teardown step: {:?}", other),
    }
    assert!(handle.release().is_empty());
}
