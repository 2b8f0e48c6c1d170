use pcan_basic::{BaudRate, Device, Handle, LogParameterValue, MessageType, Mode, Parameter,
    PCANParameterValue, ParameterValue, ServiceParameterValue, TraceParameterValue, Type};

#[test]
fn it_works() {}

#[test]
fn handle_to_value() {
    assert!(Handle::Undefined.to_value() == Some(0x00));
    assert!(Handle::Isa(0).to_value() == None);
    assert!(Handle::Isa(1).to_value() == Some(0x21));
    assert!(Handle::Isa(8).to_value() == Some(0x28));
    assert!(Handle::Isa(9).to_value() == None);
    assert!(Handle::Usb(0).to_value() == None);
    assert!(Handle::Usb(1).to_value() == Some(0x51));
    assert!(Handle::Usb(8).to_value() == Some(0x58));
    assert!(Handle::Usb(9).to_value() == Some(0x509));
    assert!(Handle::Usb(16).to_value() == Some(0x510));
    assert!(Handle::Usb(17).to_value() == None);
}

#[test]
fn handle_to_value_remaining_families() {
    assert_eq!(Handle::Dng(0).to_value(), None);
    assert_eq!(Handle::Dng(1).to_value(), Some(0x31));
    assert_eq!(Handle::Dng(2).to_value(), None);
    assert_eq!(Handle::Pci(0).to_value(), None);
    assert_eq!(Handle::Pci(1).to_value(), Some(0x41));
    assert_eq!(Handle::Pci(8).to_value(), Some(0x48));
    assert_eq!(Handle::Pci(9).to_value(), Some(0x409));
    assert_eq!(Handle::Pci(16).to_value(), Some(0x410));
    assert_eq!(Handle::Pci(17).to_value(), None);
    assert_eq!(Handle::Pcc(0).to_value(), None);
    assert_eq!(Handle::Pcc(1).to_value(), Some(0x61));
    assert_eq!(Handle::Pcc(2).to_value(), Some(0x62));
    assert_eq!(Handle::Pcc(3).to_value(), None);
    assert_eq!(Handle::Lan(0).to_value(), None);
    assert_eq!(Handle::Lan(1).to_value(), Some(0x801));
    assert_eq!(Handle::Lan(16).to_value(), Some(0x810));
    assert_eq!(Handle::Lan(17).to_value(), None);
}

#[test]
fn baud_rate_table_exact() {
    assert_eq!(BaudRate::Baud1M.to_value(), 0x0014);
    assert_eq!(BaudRate::Baud800K.to_value(), 0x0016);
    assert_eq!(BaudRate::Baud500K.to_value(), 0x001C);
    assert_eq!(BaudRate::Baud250K.to_value(), 0x011C);
    assert_eq!(BaudRate::Baud125K.to_value(), 0x031C);
    assert_eq!(BaudRate::Baud100K.to_value(), 0x432F);
    assert_eq!(BaudRate::Baud95K.to_value(), 0xC34E);
    assert_eq!(BaudRate::Baud83K.to_value(), 0x852B);
    assert_eq!(BaudRate::Baud50K.to_value(), 0x472F);
    assert_eq!(BaudRate::Baud47K.to_value(), 0x1414);
    assert_eq!(BaudRate::Baud33K.to_value(), 0x8B2F);
    assert_eq!(BaudRate::Baud20K.to_value(), 0x532F);
    assert_eq!(BaudRate::Baud10K.to_value(), 0x672F);
    assert_eq!(BaudRate::Baud5K.to_value(), 0x7F7F);
}

#[test]
fn baud_rate_table_distinct() {
    let rates = vec![
        BaudRate::Baud1M,
        BaudRate::Baud800K,
        BaudRate::Baud500K,
        BaudRate::Baud250K,
        BaudRate::Baud125K,
        BaudRate::Baud100K,
        BaudRate::Baud95K,
        BaudRate::Baud83K,
        BaudRate::Baud50K,
        BaudRate::Baud47K,
        BaudRate::Baud33K,
        BaudRate::Baud20K,
        BaudRate::Baud10K,
        BaudRate::Baud5K,
    ];
    for (i, a) in rates.iter().enumerate() {
        for (j, b) in rates.iter().enumerate() {
            if i != j {
                assert_ne!(a.to_value(), b.to_value());
            }
        }
    }
}

#[test]
fn device_to_value() {
    assert_eq!(Device::Undefined.to_value(), 0x00);
    assert_eq!(Device::Isa.to_value(), 0x01);
    assert_eq!(Device::Dng.to_value(), 0x02);
    assert_eq!(Device::Pci.to_value(), 0x05);
    assert_eq!(Device::Usb.to_value(), 0x06);
    assert_eq!(Device::Pcc.to_value(), 0x07);
    assert_eq!(Device::Lan.to_value(), 0x08);
}

#[test]
fn parameter_to_value() {
    assert_eq!(Parameter::DeviceNumber.to_value(), 0x01);
    assert_eq!(Parameter::ListenOnly.to_value(), 0x08);
    assert_eq!(Parameter::ControllerNumber.to_value(), 0x10);
    assert_eq!(Parameter::LanServiceStatus.to_value(), 0x1D);
}

#[test]
fn parameter_values_to_value() {
    assert_eq!(PCANParameterValue::Off.to_value(), 0x00);
    assert_eq!(PCANParameterValue::On.to_value(), 0x01);
    assert_eq!(PCANParameterValue::FilterCustom.to_value(), 0x02);
    assert_eq!(PCANParameterValue::ChannelOccupied.to_value(), 0x02);
    assert_eq!(LogParameterValue::Default.to_value(), 0x00);
    assert_eq!(LogParameterValue::Read.to_value(), 0x10);
    assert_eq!(TraceParameterValue::Segmented.to_value(), 0x01);
    assert_eq!(TraceParameterValue::Overwrite.to_value(), 0x80);
    assert_eq!(ServiceParameterValue::Stopped.to_value(), 0x01);
    assert_eq!(ServiceParameterValue::Running.to_value(), 0x04);
    assert_eq!(ParameterValue::FdCapable.to_value(), 0x01);
    assert_eq!(ParameterValue::PCAN(PCANParameterValue::FilterCustom).to_value(), 0x02);
    assert_eq!(ParameterValue::Log(LogParameterValue::Write).to_value(), 0x08);
    assert_eq!(ParameterValue::Trace(TraceParameterValue::Time).to_value(), 0x04);
    assert_eq!(ParameterValue::Service(ServiceParameterValue::Running).to_value(), 0x04);
}

#[test]
fn message_type_codes() {
    assert_eq!(MessageType::Standard.to_value(), 0x00);
    assert_eq!(MessageType::Rtr.to_value(), 0x01);
    assert_eq!(MessageType::Extended.to_value(), 0x02);
    assert_eq!(MessageType::Fd.to_value(), 0x04);
    assert_eq!(MessageType::Brs.to_value(), 0x08);
    assert_eq!(MessageType::Esi.to_value(), 0x10);
    assert_eq!(MessageType::Status.to_value(), 0x80);
    let kinds = vec![
        MessageType::Standard,
        MessageType::Rtr,
        MessageType::Extended,
        MessageType::Fd,
        MessageType::Brs,
        MessageType::Esi,
        MessageType::Status,
    ];
    for k in kinds {
        assert_eq!(MessageType::from_value(k.to_value()), Some(k));
    }
    assert_eq!(MessageType::from_value(0x03), None);
    assert_eq!(MessageType::from_value(0x40), None);
}

#[test]
fn mode_and_type_to_value() {
    assert_eq!(Mode::Standard.to_value(), 0x00);
    assert_eq!(Mode::Extended.to_value(), 0x02);
    assert_eq!(Type::Isa.to_value(), 0x01);
    assert_eq!(Type::IsaSja.to_value(), 0x09);
    assert_eq!(Type::IsaPhytec.to_value(), 0x04);
    assert_eq!(Type::Dng.to_value(), 0x02);
    assert_eq!(Type::DngEpp.to_value(), 0x03);
    assert_eq!(Type::DngSja.to_value(), 0x05);
    assert_eq!(Type::DngSjaEpp.to_value(), 0x06);
}
