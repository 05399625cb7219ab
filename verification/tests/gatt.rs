//! The attribute server: dispatch, flags, notification sessions,
//! registration and teardown.

use gatt_server::application::{
    Application, AttributePath, RegisteredObject, TeardownStep,
};
use gatt_server::characteristic::{
    characteristic_control, Characteristic, CharacteristicControlHandle, CharacteristicNotify,
    CharacteristicNotifyMethod, CharacteristicRead, CharacteristicWrite,
    CharacteristicWriteMethod, RegisteredCharacteristic,
};
use gatt_server::descriptor::{
    descriptor_control, Descriptor, DescriptorControlHandle, DescriptorRead, RegisteredDescriptor,
};
use gatt_server::error::Error;
use gatt_server::flags::{CharacteristicDescriptorFlags, CharacteristicFlags};
use gatt_server::notify::{CharacteristicNotifier, NotifyOutcome};
use gatt_server::reject::Reject;
use gatt_server::request::{
    handler_reply, CallFailure, CharacteristicReadRequest, CharacteristicWriteRequest,
    DecodeError, LinkType, OptionDict, WriteValueType,
};
use gatt_server::service::{service_control, RegisteredService, Service, ServiceControlHandle};

const HEART_RATE: u128 = 0x0000180d_0000_1000_8000_00805f9b34fb;

fn dict_with_mtu(mtu: u16) -> OptionDict {
    let mut d = OptionDict::empty();
    d.mtu = Some(mtu);
    d
}

fn read_only_characteristic() -> Characteristic {
    Characteristic {
        uuid: HEART_RATE + 1,
        handle: None,
        broadcast: false,
        writable_auxiliaries: false,
        authorize: false,
        descriptors: Vec::new(),
        read: Some(CharacteristicRead {
            read: true,
            encrypt_read: false,
            encrypt_authenticated_read: false,
            secure_read: false,
        }),
        write: None,
        notify: None,
        control_handle: CharacteristicControlHandle::new(),
    }
}

#[test]
fn reject_names() {
    assert_eq!(Reject::default(), Reject::Failed);
    assert_eq!(Reject::NotSupported.name(), "NotSupported");
    assert_eq!(Reject::InvalidOffset.name(), "InvalidOffset");
    assert_eq!(
        Reject::NotSupported.error_name(),
        "org.bluez.Error.NotSupported"
    );
    assert_eq!(Reject::Failed.error_name(), "org.bluez.Error.Failed");
    assert_eq!(Reject::InProgress.error_name(), "org.bluez.Error.InProgress");
    assert_eq!(
        Reject::InvalidValueLength.error_name(),
        "org.bluez.Error.InvalidValueLength"
    );
    assert_eq!(
        Reject::NotPermitted.error_name(),
        "org.bluez.Error.NotPermitted"
    );
    assert_eq!(
        Reject::NotAuthorized.error_name(),
        "org.bluez.Error.NotAuthorized"
    );
}

#[test]
fn characteristic_flag_words() {
    let mut f = CharacteristicFlags::default();
    assert_eq!(f.to_vec(), Vec::<String>::new());
    f.read = true;
    f.notify = true;
    f.secure_read = true;
    assert_eq!(f.to_vec(), vec!["read", "notify", "secure-read"]);
}

#[test]
fn descriptor_flag_words() {
    let mut f = CharacteristicDescriptorFlags::default();
    f.write = true;
    f.authorize = true;
    assert_eq!(f.to_vec(), vec!["write", "authorize"]);
}

#[test]
fn read_request_decoding() {
    let d = dict_with_mtu(23);
    let req = CharacteristicReadRequest::from_dict(&d).unwrap();
    assert_eq!(req.offset, 0);
    assert_eq!(req.mtu, 23);
    assert_eq!(req.link, None);

    let empty = OptionDict::empty();
    assert_eq!(
        CharacteristicReadRequest::from_dict(&empty),
        Err(DecodeError::MissingMtu)
    );

    let mut with_link = dict_with_mtu(23);
    with_link.offset = Some(4);
    with_link.link = Some("LE".to_string());
    let req = CharacteristicReadRequest::from_dict(&with_link).unwrap();
    assert_eq!(req.offset, 4);
    assert_eq!(req.link, Some(LinkType::Le));

    let mut odd_link = dict_with_mtu(23);
    odd_link.link = Some("carrier-pigeon".to_string());
    let req = CharacteristicReadRequest::from_dict(&odd_link).unwrap();
    assert_eq!(req.link, None);
}

#[test]
fn write_request_decoding() {
    let mut d = dict_with_mtu(48);
    d.op_type = Some("reliable".to_string());
    let req = CharacteristicWriteRequest::from_dict(&d).unwrap();
    assert_eq!(req.op_type, WriteValueType::Reliable);
    assert!(!req.prepare_authorize);

    let d = dict_with_mtu(48);
    let req = CharacteristicWriteRequest::from_dict(&d).unwrap();
    assert_eq!(req.op_type, WriteValueType::Command);

    let mut bad = dict_with_mtu(48);
    bad.op_type = Some("sideways".to_string());
    assert_eq!(
        CharacteristicWriteRequest::from_dict(&bad),
        Err(DecodeError::InvalidWriteType)
    );

    // an unrecognized operation name is reported even when the MTU is
    // also missing
    let mut bad = OptionDict::empty();
    bad.op_type = Some("sideways".to_string());
    assert_eq!(
        CharacteristicWriteRequest::from_dict(&bad),
        Err(DecodeError::InvalidWriteType)
    );
}

#[test]
fn handle_channel_observation() {
    let (control, handle) = service_control();
    assert_eq!(control.handle(), Err(Error::NotRegistered));

    let service = Service {
        uuid: HEART_RATE,
        handle: Some(5),
        primary: true,
        characteristics: Vec::new(),
        control_handle: handle,
    };
    let registered = RegisteredService::new(service);
    assert_eq!(control.handle(), Ok(5));
    assert_eq!(registered.handle_property(), 5);
    assert_eq!(
        registered.uuid_property(),
        "0000180d-0000-1000-8000-00805f9b34fb"
    );

    registered.set_handle_property(9);
    assert_eq!(control.handle(), Ok(9));
    registered.set_handle_property(0);
    assert_eq!(control.handle(), Err(Error::NotRegistered));
}

#[test]
fn descriptor_dispatch() {
    let (control, handle) = descriptor_control();
    let d = Descriptor {
        uuid: HEART_RATE + 2,
        handle: Some(11),
        authorize: false,
        read: Some(DescriptorRead {
            read: true,
            encrypt_read: false,
            encrypt_authenticated_read: false,
            secure_read: false,
        }),
        write: None,
        control_handle: handle,
    };
    let rd = RegisteredDescriptor::new(d);
    assert_eq!(control.handle(), Ok(11));
    assert_eq!(rd.advertised_flags().to_vec(), vec!["read"]);

    let mut dict = OptionDict::empty();
    dict.offset = Some(0);
    let req = rd.read_value_call(&dict).unwrap();
    assert_eq!(req.offset, 0);

    // offset is required on descriptor accesses
    let empty = OptionDict::empty();
    assert_eq!(
        rd.read_value_call(&empty),
        Err(CallFailure::InvalidArguments(DecodeError::MissingOffset))
    );

    // no write capability: rejected before any handler could run
    let mut wdict = OptionDict::empty();
    wdict.offset = Some(0);
    wdict.prepare_authorize = Some(false);
    assert_eq!(
        rd.write_value_call(&wdict),
        Err(CallFailure::Rejected(Reject::NotSupported))
    );

    // prepare-authorize is required on descriptor writes
    let mut short = OptionDict::empty();
    short.offset = Some(0);
    assert_eq!(
        rd.write_value_call(&short),
        Err(CallFailure::InvalidArguments(
            DecodeError::MissingPrepareAuthorize
        ))
    );
}

#[test]
fn capability_collapse_and_acquire() {
    // stream-mode write with a retained control: stays enabled
    let (_control, handle) = characteristic_control();
    let c = Characteristic {
        uuid: HEART_RATE + 3,
        handle: None,
        broadcast: false,
        writable_auxiliaries: false,
        authorize: false,
        descriptors: Vec::new(),
        read: None,
        write: Some(CharacteristicWrite {
            write: true,
            write_without_response: false,
            reliable_write: false,
            authenticated_signed_writes: false,
            encrypt_write: false,
            encrypt_authenticated_write: false,
            secure_write: false,
            method: CharacteristicWriteMethod::Io,
        }),
        notify: None,
        control_handle: handle,
    };
    let rc = RegisteredCharacteristic::new(c);
    assert!(rc.c.control_handle.write_request_retained);
    assert!(!rc.c.control_handle.notify_writer_retained);
    assert_eq!(rc.write_acquired_property(), Some(false));
    assert_eq!(rc.notify_acquired_property(), None);

    // the negotiated transfer unit equals the requested one
    let req = rc.acquire_write_call(&dict_with_mtu(247)).unwrap();
    assert_eq!(req.mtu, 247);

    // a stream-mode write is not served by WriteValue
    let mut wdict = dict_with_mtu(23);
    wdict.op_type = Some("command".to_string());
    assert_eq!(
        rc.write_value_call(&wdict),
        Err(CallFailure::Rejected(Reject::NotSupported))
    );

    // stream-mode write whose control was not retained: silently disabled
    let c2 = Characteristic {
        uuid: HEART_RATE + 4,
        handle: None,
        broadcast: false,
        writable_auxiliaries: false,
        authorize: false,
        descriptors: Vec::new(),
        read: None,
        write: Some(CharacteristicWrite {
            write: true,
            write_without_response: false,
            reliable_write: false,
            authenticated_signed_writes: false,
            encrypt_write: false,
            encrypt_authenticated_write: false,
            secure_write: false,
            method: CharacteristicWriteMethod::Io,
        }),
        notify: None,
        control_handle: CharacteristicControlHandle::new(),
    };
    let rc2 = RegisteredCharacteristic::new(c2);
    assert!(!rc2.c.control_handle.write_request_retained);
    assert_eq!(rc2.write_acquired_property(), None);
    assert_eq!(
        rc2.acquire_write_call(&dict_with_mtu(247)),
        Err(CallFailure::Rejected(Reject::NotSupported))
    );
    assert_eq!(
        rc2.acquire_notify_call(&dict_with_mtu(247)),
        Err(CallFailure::Rejected(Reject::NotSupported))
    );
}

#[test]
fn plain_notification_needs_no_confirmation() {
    let mut session = CharacteristicNotifier::new(false);
    assert!(!session.confirming());
    assert!(!session.is_stopped());
    match session.notify(vec![1, 2, 3]) {
        NotifyOutcome::Sent(v) => assert_eq!(v, vec![1, 2, 3]),
        other => panic!("notification did not complete at once: {:?}", other),
    }
    // and again, still without any confirmation
    assert!(matches!(session.notify(vec![4]), NotifyOutcome::Sent(_)));
}

#[test]
fn indication_waits_for_confirm() {
    let mut session = CharacteristicNotifier::new(true);
    assert!(session.confirming());
    match session.notify(vec![9]) {
        NotifyOutcome::AwaitingConfirm(v) => assert_eq!(v, vec![9]),
        other => panic!("indication did not block: {:?}", other),
    }
    assert!(session.confirm());

    // a stop releases a pending indication with the unconfirmed error
    match session.notify(vec![10]) {
        NotifyOutcome::AwaitingConfirm(_) => (),
        other => panic!("indication did not block: {:?}", other),
    }
    assert_eq!(session.stop(), Some(Error::IndicationUnconfirmed));
    assert!(session.is_stopped());
    assert!(matches!(session.notify(vec![11]), NotifyOutcome::Stopped));
}

#[test]
fn stale_confirmation_is_flushed() {
    let mut session = CharacteristicNotifier::new(true);
    // a confirmation arrives while nothing is pending
    assert!(!session.confirm());
    // the next emission must still wait for a fresh confirmation
    assert!(matches!(
        session.notify(vec![1]),
        NotifyOutcome::AwaitingConfirm(_)
    ));
    assert_eq!(session.pending_confirms, 0);
    assert!(session.confirm());
}

#[test]
fn notify_and_indicate_together_use_notification() {
    // confirmations are awaited only when indication is in use alone
    let mut c = read_only_characteristic();
    c.notify = Some(CharacteristicNotify {
        notify: true,
        indicate: true,
        method: CharacteristicNotifyMethod::Fun,
    });
    let rc = RegisteredCharacteristic::new(c);
    let mut session = rc.start_notify_call().unwrap();
    assert!(!session.confirming());
    assert!(matches!(session.notify(vec![1]), NotifyOutcome::Sent(_)));
}

#[test]
fn acquire_requires_mtu() {
    let (_control, handle) = characteristic_control();
    let mut c = read_only_characteristic();
    c.write = Some(CharacteristicWrite {
        write: true,
        write_without_response: false,
        reliable_write: false,
        authenticated_signed_writes: false,
        encrypt_write: false,
        encrypt_authenticated_write: false,
        secure_write: false,
        method: CharacteristicWriteMethod::Io,
    });
    c.control_handle = handle;
    let rc = RegisteredCharacteristic::new(c);
    let empty = OptionDict::empty();
    assert_eq!(
        rc.acquire_write_call(&empty),
        Err(CallFailure::InvalidArguments(DecodeError::MissingMtu))
    );
}

#[test]
fn start_notify_dispatch() {
    let mut c = read_only_characteristic();
    let rc = RegisteredCharacteristic::new(c);
    // no notify capability at all
    assert_eq!(rc.start_notify_call().unwrap_err(), Reject::NotSupported);

    c = read_only_characteristic();
    c.notify = Some(CharacteristicNotify {
        notify: false,
        indicate: true,
        method: CharacteristicNotifyMethod::Fun,
    });
    let rc = RegisteredCharacteristic::new(c);
    let session = rc.start_notify_call().unwrap();
    assert!(session.confirming());
    assert!(!session.is_stopped());

    // stream-mode notify sessions start through AcquireNotify instead
    let mut c = read_only_characteristic();
    c.notify = Some(CharacteristicNotify {
        notify: true,
        indicate: false,
        method: CharacteristicNotifyMethod::Io,
    });
    let rc = RegisteredCharacteristic::new(c);
    assert_eq!(rc.start_notify_call().unwrap_err(), Reject::NotSupported);
}

#[test]
fn registration_publishes_declared_tree() {
    let c = read_only_characteristic();
    let service = Service {
        uuid: HEART_RATE,
        handle: None,
        primary: true,
        characteristics: vec![c],
        control_handle: ServiceControlHandle::new(),
    };
    let app = Application { services: vec![service] };
    let (nodes, mut handle) = app.register_at("/app0".to_string());

    let paths: Vec<&str> = nodes.iter().map(|n| n.path.as_str()).collect();
    assert_eq!(paths, vec!["/app0", "/app0/service0", "/app0/service0/char0"]);
    assert!(matches!(nodes[0].object, RegisteredObject::Root));
    match &nodes[1].object {
        RegisteredObject::Service(rs) => {
            assert_eq!(rs.s.uuid, HEART_RATE);
            assert!(rs.s.primary);
            assert!(rs.s.characteristics.is_empty());
        }
        _ => panic!("no service under /app0/service0"),
    }
    let rc = match &nodes[2].object {
        RegisteredObject::Characteristic(rc) => rc,
        _ => panic!("no characteristic under /app0/service0/char0"),
    };

    // the declared scenario: a read with mtu 23 reaches the handler,
    // whose fixed bytes come back verbatim
    let request = rc.read_value_call(&dict_with_mtu(23)).unwrap();
    assert_eq!(request.mtu, 23);
    let handler_outcome: Result<Vec<u8>, Reject> = Ok(vec![0x01, 0x02]);
    assert_eq!(handler_reply(handler_outcome), Ok(vec![0x01, 0x02]));

    // a write against the same characteristic (it has no write
    // capability) is rejected with NotSupported
    let mut wdict = dict_with_mtu(23);
    wdict.op_type = Some("command".to_string());
    assert_eq!(
        rc.write_value_call(&wdict),
        Err(CallFailure::Rejected(Reject::NotSupported))
    );

    // teardown: unregister first, then every node, the root last
    assert!(!handle.released);
    assert_eq!(handle.name, "/app0");
    let steps = handle.release();
    assert_eq!(steps.len(), 4);
    assert!(matches!(steps[0], TeardownStep::Unregister));
    match (&steps[1], &steps[2], &steps[3]) {
        (TeardownStep::Remove(a), TeardownStep::Remove(b), TeardownStep::Remove(c)) => {
            assert_eq!(a, "/app0/service0/char0");
            assert_eq!(b, "/app0/service0");
            assert_eq!(c, "/app0");
        }
        other => panic!("teardown out of order: {:?}", other),
    }

    // releasing a second time has no observable effect
    let again = handle.release();
    assert!(again.is_empty());
    assert_eq!(handle.name, "/app0");
}

#[test]
fn rollback_removes_without_unregister() {
    let service = Service {
        uuid: HEART_RATE,
        handle: None,
        primary: true,
        characteristics: Vec::new(),
        control_handle: ServiceControlHandle::new(),
    };
    let app = Application { services: vec![service] };
    let (_nodes, mut handle) = app.register_at("/app1".to_string());
    let steps = handle.rollback();
    assert_eq!(steps.len(), 2);
    match (&steps[0], &steps[1]) {
        (TeardownStep::Remove(a), TeardownStep::Remove(b)) => {
            assert_eq!(a, "/app1/service0");
            assert_eq!(b, "/app1");
        }
        other => panic!("rollback out of order: {:?}", other),
    }
    assert!(handle.release().is_empty());
}

#[test]
fn generated_roots_are_distinct() {
    let app1 = Application { services: Vec::new() };
    let app2 = Application { services: Vec::new() };
    let (nodes1, h1) = app1.register();
    let (nodes2, h2) = app2.register();
    assert_eq!(nodes1.len(), 1);
    assert_eq!(nodes2.len(), 1);
    assert!(h1.name.starts_with("/io/crates/tokio_bluez/gatt/app/"));
    assert_ne!(h1.name, h2.name);
}

#[test]
fn descriptor_paths_nest_under_characteristics() {
    let mut c = read_only_characteristic();
    c.descriptors = vec![
        Descriptor {
            uuid: HEART_RATE + 7,
            handle: None,
            authorize: false,
            read: None,
            write: None,
            control_handle: DescriptorControlHandle::new(),
        },
        Descriptor {
            uuid: HEART_RATE + 8,
            handle: None,
            authorize: true,
            read: None,
            write: None,
            control_handle: DescriptorControlHandle::new(),
        },
    ];
    let service = Service {
        uuid: HEART_RATE,
        handle: None,
        primary: false,
        characteristics: vec![read_only_characteristic(), c],
        control_handle: ServiceControlHandle::new(),
    };
    let app = Application { services: vec![service] };
    let (nodes, _handle) = app.register_at("/app2".to_string());
    let paths: Vec<&str> = nodes.iter().map(|n| n.path.as_str()).collect();
    assert_eq!(
        paths,
        vec![
            "/app2",
            "/app2/service0",
            "/app2/service0/char0",
            "/app2/service0/char1",
            "/app2/service0/char1/desc0",
            "/app2/service0/char1/desc1",
        ]
    );
    match &nodes[5].object {
        RegisteredObject::Descriptor(rd) => {
            assert_eq!(rd.d.uuid, HEART_RATE + 8);
            assert!(rd.d.authorize);
        }
        _ => panic!("no descriptor under /app2/service0/char1/desc1"),
    }
    // paths mention only declared positions
    assert!(!paths.contains(&"/app2/service1"));
    assert!(!paths.contains(&"/app2/service0/char0/desc0"));
}
