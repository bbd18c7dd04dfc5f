use rk_loader::error::LoaderError;
use rk_loader::session::{
    bind, connect, find_device, find_endpoint, BindEvent, Binder, DeviceId, Endpoint, Mode,
    Session, Speed, CLAIM_PERIOD_US, CLAIM_TIMEOUT_US, PRODUCT_ID, VENDOR_ID,
};
use rk_loader::wire::Direction;

fn target() -> DeviceId {
    DeviceId { vendor_id: 0x2207, product_id: 0x350a }
}

fn hub() -> DeviceId {
    DeviceId { vendor_id: 0x1d6b, product_id: 0x0002 }
}

fn usb_plug_endpoints() -> Vec<Endpoint> {
    vec![
        Endpoint { address: 0x81, direction: Direction::In },
        Endpoint { address: 0x01, direction: Direction::Out },
    ]
}

fn mask_rom_endpoints() -> Vec<Endpoint> {
    vec![
        Endpoint { address: 0x02, direction: Direction::Out },
        Endpoint { address: 0x81, direction: Direction::In },
    ]
}

#[test]
fn identity_and_claim_constants() {
    assert_eq!(VENDOR_ID, 0x2207);
    assert_eq!(PRODUCT_ID, 0x350a);
    assert_eq!(CLAIM_TIMEOUT_US, 1_000_000);
    assert_eq!(CLAIM_PERIOD_US, 200);
}

#[test]
fn target_needs_both_identifiers() {
    assert!(target().is_target());
    assert!(!hub().is_target());
    assert!(!DeviceId { vendor_id: 0x2207, product_id: 0x350b }.is_target());
    assert!(!DeviceId { vendor_id: 0x2208, product_id: 0x350a }.is_target());
}

#[test]
fn first_matching_device_is_found() {
    assert_eq!(find_device(&[]), None);
    assert_eq!(find_device(&[hub(), hub()]), None);
    assert_eq!(find_device(&[target()]), Some(0));
    assert_eq!(find_device(&[hub(), target(), hub(), target()]), Some(1));
    assert_eq!(find_device(&[hub(), hub(), target()]), Some(2));
}

#[test]
fn packet_size_per_speed() {
    assert_eq!(Speed::Low.max_packet_size(), Some(64));
    assert_eq!(Speed::Full.max_packet_size(), Some(64));
    assert_eq!(Speed::High.max_packet_size(), Some(512));
    assert_eq!(Speed::Super.max_packet_size(), Some(1024));
    assert_eq!(Speed::SuperPlus.max_packet_size(), Some(1024));
    assert_eq!(Speed::Other.max_packet_size(), None);
}

#[test]
fn mode_per_out_endpoint() {
    assert_eq!(Mode::of_endpoint(0x01), Mode::UsbPlug);
    assert_eq!(Mode::of_endpoint(0x02), Mode::MaskROM);
    assert_eq!(Mode::of_endpoint(0x00), Mode::Unknown);
    assert_eq!(Mode::of_endpoint(0x03), Mode::Unknown);
    assert_eq!(Mode::of_endpoint(0x81), Mode::Unknown);
    assert_eq!(Mode::of_endpoint(0xff), Mode::Unknown);
}

#[test]
fn mode_names() {
    assert_eq!(Mode::UsbPlug.name(), "USB plug");
    assert_eq!(Mode::MaskROM.name(), "mask ROM");
    assert_eq!(Mode::Unknown.name(), "unknown");
}

#[test]
fn session_mode_follows_the_out_endpoint() {
    assert_eq!(Session { ep_in: 0x81, ep_out: 1, max_packet_size: 512 }.mode(), Mode::UsbPlug);
    assert_eq!(Session { ep_in: 0x81, ep_out: 2, max_packet_size: 512 }.mode(), Mode::MaskROM);
    assert_eq!(Session { ep_in: 0x01, ep_out: 0x81, max_packet_size: 64 }.mode(), Mode::Unknown);
}

#[test]
fn first_endpoint_of_each_direction() {
    let endpoints = vec![
        Endpoint { address: 0x83, direction: Direction::In },
        Endpoint { address: 0x02, direction: Direction::Out },
        Endpoint { address: 0x81, direction: Direction::In },
        Endpoint { address: 0x01, direction: Direction::Out },
    ];
    assert_eq!(find_endpoint(&endpoints, Direction::In), Some(0x83));
    assert_eq!(find_endpoint(&endpoints, Direction::Out), Some(0x02));
    assert_eq!(find_endpoint(&endpoints[..1], Direction::Out), None);
    assert_eq!(find_endpoint(&[], Direction::In), None);
}

#[test]
fn bind_takes_speed_and_endpoints() {
    assert_eq!(
        bind(Speed::High, &usb_plug_endpoints()),
        Ok(Session { ep_in: 0x81, ep_out: 0x01, max_packet_size: 512 })
    );
    assert_eq!(
        bind(Speed::Full, &mask_rom_endpoints()),
        Ok(Session { ep_in: 0x81, ep_out: 0x02, max_packet_size: 64 })
    );
    assert_eq!(
        bind(Speed::SuperPlus, &mask_rom_endpoints()),
        Ok(Session { ep_in: 0x81, ep_out: 0x02, max_packet_size: 1024 })
    );
}

#[test]
fn bind_rejects_unknown_speed() {
    assert_eq!(bind(Speed::Other, &usb_plug_endpoints()), Err(LoaderError::SpeedUnsupported));
    assert_eq!(bind(Speed::Other, &[]), Err(LoaderError::SpeedUnsupported));
}

#[test]
fn bind_needs_both_endpoints() {
    let only_in = [Endpoint { address: 0x81, direction: Direction::In }];
    let only_out = [Endpoint { address: 0x01, direction: Direction::Out }];
    assert_eq!(bind(Speed::High, &only_in), Err(LoaderError::DeviceNotFound));
    assert_eq!(bind(Speed::High, &only_out), Err(LoaderError::DeviceNotFound));
    assert_eq!(bind(Speed::High, &[]), Err(LoaderError::DeviceNotFound));
}

#[test]
fn connect_starts_by_enumerating() {
    assert_eq!(connect(), Binder::Enumerate);
    assert!(!connect().is_settled());
}

#[test]
fn binder_happy_path() {
    let binder = connect();
    let binder = binder.advance(BindEvent::Devices(vec![hub(), target()]));
    assert_eq!(binder, Binder::Claim { device: 1 });
    let binder = binder.advance(BindEvent::Granted);
    assert_eq!(binder, Binder::Describe { device: 1 });
    let binder = binder
        .advance(BindEvent::Described { speed: Speed::High, endpoints: usb_plug_endpoints() });
    let session = Session { ep_in: 0x81, ep_out: 0x01, max_packet_size: 512 };
    assert_eq!(binder, Binder::Bound(session));
    assert!(binder.is_settled());
    assert_eq!(session.mode(), Mode::UsbPlug);
}

#[test]
fn binder_without_the_device() {
    let binder = connect().advance(BindEvent::Devices(vec![hub()]));
    assert_eq!(binder, Binder::Failed(LoaderError::DeviceNotFound));
    assert!(binder.is_settled());
    assert_eq!(
        connect().advance(BindEvent::Devices(Vec::new())),
        Binder::Failed(LoaderError::DeviceNotFound)
    );
}

#[test]
fn claim_succeeds_at_the_fourth_attempt() {
    let mut binder = connect().advance(BindEvent::Devices(vec![target()]));
    let mut elapsed_us = 0;
    for _ in 0..3 {
        assert_eq!(binder, Binder::Claim { device: 0 });
        binder = binder.advance(BindEvent::Refused);
        assert_eq!(binder, Binder::Pause { device: 0, micros: 200 });
        elapsed_us += 250;
        binder = binder.advance(BindEvent::Resumed { elapsed_us });
    }
    assert_eq!(binder, Binder::Claim { device: 0 });
    binder = binder.advance(BindEvent::Granted);
    assert_eq!(binder, Binder::Describe { device: 0 });
    binder = binder
        .advance(BindEvent::Described { speed: Speed::High, endpoints: mask_rom_endpoints() });
    assert_eq!(binder, Binder::Bound(Session { ep_in: 0x81, ep_out: 0x02, max_packet_size: 512 }));
}

#[test]
fn claim_gives_up_after_the_deadline() {
    let binder = connect().advance(BindEvent::Devices(vec![target()]));
    let binder = binder.advance(BindEvent::Refused);
    let binder = binder.advance(BindEvent::Resumed { elapsed_us: 5_000_000 });
    assert_eq!(binder, Binder::Failed(LoaderError::InterfaceBusy));
}

#[test]
fn claim_deadline_is_one_second_inclusive() {
    let paused = Binder::Pause { device: 4, micros: 200 };
    assert_eq!(
        paused.advance(BindEvent::Resumed { elapsed_us: 1_000_000 }),
        Binder::Claim { device: 4 }
    );
    assert_eq!(
        paused.advance(BindEvent::Resumed { elapsed_us: 1_000_001 }),
        Binder::Failed(LoaderError::InterfaceBusy)
    );
    assert_eq!(paused.advance(BindEvent::Resumed { elapsed_us: 0 }), Binder::Claim { device: 4 });
    assert_eq!(
        paused.advance(BindEvent::Resumed { elapsed_us: u64::MAX }),
        Binder::Failed(LoaderError::InterfaceBusy)
    );
}

#[test]
fn refusal_until_the_deadline() {
    let mut binder = connect().advance(BindEvent::Devices(vec![target()]));
    let mut elapsed_us = 0;
    let mut attempts = 0;
    while let Binder::Claim { .. } = binder {
        attempts += 1;
        binder = binder.advance(BindEvent::Refused);
        elapsed_us += 200;
        binder = binder.advance(BindEvent::Resumed { elapsed_us });
    }
    assert_eq!(binder, Binder::Failed(LoaderError::InterfaceBusy));
    assert_eq!(attempts, 5001);
}

#[test]
fn binder_reports_unknown_speed() {
    let binder = Binder::Describe { device: 0 };
    assert_eq!(
        binder.advance(BindEvent::Described { speed: Speed::Other, endpoints: usb_plug_endpoints() }),
        Binder::Failed(LoaderError::SpeedUnsupported)
    );
}

#[test]
fn binder_reports_missing_endpoints() {
    let binder = Binder::Describe { device: 0 };
    assert_eq!(
        binder.advance(BindEvent::Described { speed: Speed::High, endpoints: Vec::new() }),
        Binder::Failed(LoaderError::DeviceNotFound)
    );
}

#[test]
fn binder_ignores_events_that_answer_nothing() {
    assert_eq!(connect().advance(BindEvent::Granted), Binder::Enumerate);
    assert_eq!(connect().advance(BindEvent::Refused), Binder::Enumerate);
    assert_eq!(connect().advance(BindEvent::Resumed { elapsed_us: 0 }), Binder::Enumerate);
    let claim = Binder::Claim { device: 2 };
    assert_eq!(claim.advance(BindEvent::Devices(vec![target()])), claim);
    assert_eq!(claim.advance(BindEvent::Resumed { elapsed_us: 2_000_000 }), claim);
    let pause = Binder::Pause { device: 2, micros: 200 };
    assert_eq!(pause.advance(BindEvent::Granted), pause);
    let describe = Binder::Describe { device: 2 };
    assert_eq!(describe.advance(BindEvent::Refused), describe);
}

#[test]
fn settled_binder_stays() {
    let bound = Binder::Bound(Session { ep_in: 0x81, ep_out: 1, max_packet_size: 64 });
    assert_eq!(bound.advance(BindEvent::Devices(vec![target()])), bound);
    assert_eq!(bound.advance(BindEvent::Refused), bound);
    let failed = Binder::Failed(LoaderError::InterfaceBusy);
    assert_eq!(failed.advance(BindEvent::Granted), failed);
    assert_eq!(
        failed.advance(BindEvent::Described { speed: Speed::High, endpoints: usb_plug_endpoints() }),
        failed
    );
}
