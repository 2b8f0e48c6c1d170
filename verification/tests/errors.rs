use pcan_basic::{BusStatus, Error, HandleStatus, PCANStatus, QueueStatus, pcan_fn_to_result};

fn named_statuses() -> Vec<PCANStatus> {
    vec![
        PCANStatus::Okay,
        PCANStatus::XmtFull,
        PCANStatus::Overrun,
        PCANStatus::Bus(BusStatus::BusLight),
        PCANStatus::Bus(BusStatus::BusHeavy),
        PCANStatus::Bus(BusStatus::BusWarning),
        PCANStatus::Bus(BusStatus::BusPassive),
        PCANStatus::Bus(BusStatus::BusOff),
        PCANStatus::Queue(QueueStatus::RecieveEmpty),
        PCANStatus::Queue(QueueStatus::Overrun),
        PCANStatus::Queue(QueueStatus::TransmitFull),
        PCANStatus::RegTest,
        PCANStatus::NoDriver,
        PCANStatus::HardwareInUse,
        PCANStatus::NetworkInUse,
        PCANStatus::Handle(HandleStatus::InvalidHwHandle),
        PCANStatus::Handle(HandleStatus::InvalidNetworkHandle),
        PCANStatus::Handle(HandleStatus::InvalidClientHandle),
        PCANStatus::ResourceCannotBeCreated,
        PCANStatus::InvalidParameter,
        PCANStatus::InvalidParameterValue,
        PCANStatus::Unknown,
        PCANStatus::InvalidData,
        PCANStatus::Caution,
        PCANStatus::NotInitialized,
        PCANStatus::InvalidOperation,
    ]
}

#[test]
fn status_round_trip() {
    for s in named_statuses() {
        assert_eq!(PCANStatus::classify(s.to_raw()), s);
    }
}

#[test]
fn status_codes_distinct() {
    let statuses = named_statuses();
    for (i, a) in statuses.iter().enumerate() {
        for (j, b) in statuses.iter().enumerate() {
            if i != j {
                assert_ne!(a.to_raw(), b.to_raw());
            }
        }
    }
}

#[test]
fn unknown_sentinel_is_not_success() {
    let sentinel = PCANStatus::Unknown.to_raw();
    assert_ne!(sentinel, 0);
    assert_eq!(PCANStatus::classify(sentinel), PCANStatus::Unknown);
}

#[test]
fn classify_bus_light_and_unused_code() {
    assert_eq!(PCANStatus::classify(0x00000020), PCANStatus::Bus(BusStatus::BusLight));
    assert_eq!(PCANStatus::classify(0xFFFFFFFF), PCANStatus::Unknown);
}

#[test]
fn classify_exact_codes() {
    assert_eq!(PCANStatus::classify(0x00000000), PCANStatus::Okay);
    assert_eq!(PCANStatus::classify(0x00000001), PCANStatus::XmtFull);
    assert_eq!(PCANStatus::classify(0x00000002), PCANStatus::Overrun);
    assert_eq!(PCANStatus::classify(0x00000040), PCANStatus::Bus(BusStatus::BusHeavy));
    assert_eq!(PCANStatus::classify(0x00000080), PCANStatus::Bus(BusStatus::BusWarning));
    assert_eq!(PCANStatus::classify(0x00000100), PCANStatus::Bus(BusStatus::BusPassive));
    assert_eq!(PCANStatus::classify(0x00000200), PCANStatus::Bus(BusStatus::BusOff));
    assert_eq!(PCANStatus::classify(0x00000400), PCANStatus::Queue(QueueStatus::RecieveEmpty));
    assert_eq!(PCANStatus::classify(0x00000800), PCANStatus::Queue(QueueStatus::Overrun));
    assert_eq!(PCANStatus::classify(0x00001000), PCANStatus::Queue(QueueStatus::TransmitFull));
    assert_eq!(PCANStatus::classify(0x00002000), PCANStatus::RegTest);
    assert_eq!(PCANStatus::classify(0x00004000), PCANStatus::NoDriver);
    assert_eq!(PCANStatus::classify(0x00008000), PCANStatus::HardwareInUse);
    assert_eq!(PCANStatus::classify(0x00010000), PCANStatus::NetworkInUse);
    assert_eq!(PCANStatus::classify(0x00020000), PCANStatus::Handle(HandleStatus::InvalidHwHandle));
    assert_eq!(
        PCANStatus::classify(0x00040000),
        PCANStatus::Handle(HandleStatus::InvalidNetworkHandle)
    );
    assert_eq!(
        PCANStatus::classify(0x00080000),
        PCANStatus::Handle(HandleStatus::InvalidClientHandle)
    );
    assert_eq!(PCANStatus::classify(0x00100000), PCANStatus::ResourceCannotBeCreated);
    assert_eq!(PCANStatus::classify(0x00200000), PCANStatus::InvalidParameter);
    assert_eq!(PCANStatus::classify(0x00400000), PCANStatus::InvalidParameterValue);
    assert_eq!(PCANStatus::classify(0x01000000), PCANStatus::InvalidData);
    assert_eq!(PCANStatus::classify(0x02000000), PCANStatus::Caution);
    assert_eq!(PCANStatus::classify(0x04000000), PCANStatus::NotInitialized);
    assert_eq!(PCANStatus::classify(0x08000000), PCANStatus::InvalidOperation);
}

#[test]
fn classify_combined_flags_are_unknown() {
    // A code carrying several condition bits names no single known code.
    assert_eq!(PCANStatus::classify(0x00000003), PCANStatus::Unknown);
    assert_eq!(PCANStatus::classify(0x00000060), PCANStatus::Unknown);
}

#[test]
fn sub_taxonomies_classify() {
    assert_eq!(BusStatus::classify(0x00000020), BusStatus::BusLight);
    assert_eq!(BusStatus::classify(0x00000007), BusStatus::Unknown);
    assert_eq!(QueueStatus::classify(0x00001000), QueueStatus::TransmitFull);
    assert_eq!(QueueStatus::classify(0x00000001), QueueStatus::Unknown);
    assert_eq!(HandleStatus::classify(0x00020000), HandleStatus::InvalidHwHandle);
    assert_eq!(HandleStatus::classify(0x00000001), HandleStatus::Unknown);
    assert_eq!(BusStatus::Unknown.to_raw(), 0);
    assert_eq!(QueueStatus::Unknown.to_raw(), 0);
    assert_eq!(HandleStatus::Unknown.to_raw(), 0);
}

#[test]
fn check_classifies_every_failure() {
    assert_eq!(pcan_fn_to_result(0), Ok(()));
    assert_eq!(
        pcan_fn_to_result(0x00000400),
        Err(Error::PCAN(PCANStatus::Queue(QueueStatus::RecieveEmpty)))
    );
    assert_eq!(pcan_fn_to_result(0x00004000), Err(Error::PCAN(PCANStatus::NoDriver)));
    assert_eq!(pcan_fn_to_result(0xDEADBEEF), Err(Error::PCAN(PCANStatus::Unknown)));
}
