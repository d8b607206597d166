use canbus_core::cantypes::{CanBaudRate, PcanBaudRate, VciCanBaudRate};
use canbus_core::session::{resolve_vci_channels, LogRecord};

#[test]
fn vci_lookup_covers_every_supported_rate() {
    let table: [(u32, (u8, u8)); 17] = [
        (10, (0x31, 0x1C)),
        (20, (0x18, 0x1C)),
        (33, (0x09, 0x6F)),
        (40, (0x87, 0xFF)),
        (50, (0x09, 0x1C)),
        (66, (0x04, 0x6F)),
        (80, (0x83, 0xFF)),
        (83, (0x03, 0x6F)),
        (100, (0x04, 0x1C)),
        (125, (0x03, 0x1C)),
        (200, (0x81, 0xFA)),
        (250, (0x01, 0x1C)),
        (400, (0x80, 0xFA)),
        (500, (0x00, 0x1C)),
        (666, (0x80, 0xB6)),
        (800, (0x00, 0x16)),
        (1000, (0x00, 0x14)),
    ];
    for (kbps, timing) in table {
        let rate = VciCanBaudRate::from_u32(kbps).expect("supported rate");
        assert_eq!(rate.to_timing_values(), timing);
        // the same number gives the same encoding on every call
        assert_eq!(VciCanBaudRate::from_u32(kbps), Some(rate));
    }
}

#[test]
fn vci_lookup_rejects_unknown_numbers() {
    for kbps in [0u32, 1, 5, 34, 95, 249, 251, 999, 1001, u32::MAX] {
        assert_eq!(VciCanBaudRate::from_u32(kbps), None);
    }
}

#[test]
fn vci_named_rates() {
    assert_eq!(VciCanBaudRate::from_u32(250), Some(VciCanBaudRate::Baud250K));
    assert_eq!(VciCanBaudRate::from_u32(1000), Some(VciCanBaudRate::Baud1M));
    assert_eq!(VciCanBaudRate::from_u32(33), Some(VciCanBaudRate::Baud33_33K));
    assert_eq!(VciCanBaudRate::Baud500K.to_timing_values(), (0x00, 0x1C));
}

#[test]
fn pcan_lookup_covers_every_supported_rate() {
    let table: [(u32, u16); 14] = [
        (1000, 0x0014),
        (800, 0x0016),
        (500, 0x001C),
        (250, 0x011C),
        (125, 0x031C),
        (100, 0x432F),
        (95, 0xC34E),
        (83, 0x852B),
        (50, 0x472F),
        (47, 0x1414),
        (33, 0x8B2F),
        (20, 0x532F),
        (10, 0x672F),
        (5, 0x7F7F),
    ];
    for (kbps, word) in table {
        let rate = PcanBaudRate::from_u32(kbps).expect("supported rate");
        assert_eq!(rate.to_u16(), word);
        assert_eq!(PcanBaudRate::from_u32(kbps), Some(rate));
    }
}

#[test]
fn pcan_lookup_rejects_unknown_numbers() {
    for kbps in [0u32, 40, 66, 200, 400, 666, 2000] {
        assert_eq!(PcanBaudRate::from_u32(kbps), None);
    }
}

#[test]
fn fallback_is_taken_only_for_unknown_numbers() {
    assert_eq!(
        VciCanBaudRate::from_u32_or(500, VciCanBaudRate::Baud250K),
        (VciCanBaudRate::Baud500K, false)
    );
    assert_eq!(
        VciCanBaudRate::from_u32_or(7, VciCanBaudRate::Baud250K),
        (VciCanBaudRate::Baud250K, true)
    );
    assert_eq!(
        PcanBaudRate::from_u32_or(95, PcanBaudRate::Baud250K),
        (PcanBaudRate::Baud95K, false)
    );
    assert_eq!(
        PcanBaudRate::from_u32_or(96, PcanBaudRate::Baud250K),
        (PcanBaudRate::Baud250K, true)
    );
}

#[test]
fn resolving_channels_reports_each_fallback() {
    let requests = vec![(0u32, 250u32), (1, 123), (2, 1000), (3, 0)];
    let (channels, notes) = resolve_vci_channels(&requests, VciCanBaudRate::Baud250K);
    assert_eq!(
        channels,
        vec![
            (0, VciCanBaudRate::Baud250K),
            (1, VciCanBaudRate::Baud250K),
            (2, VciCanBaudRate::Baud1M),
            (3, VciCanBaudRate::Baud250K),
        ]
    );
    assert_eq!(notes.len(), 2);
    assert!(matches!(
        notes[0],
        LogRecord::BaudFallback {
            channel: 1,
            requested: 123,
            used: CanBaudRate::ControlCan(VciCanBaudRate::Baud250K)
        }
    ));
    assert!(matches!(
        notes[1],
        LogRecord::BaudFallback { channel: 3, requested: 0, .. }
    ));
}

#[test]
fn resolving_no_channels_gives_nothing() {
    let (channels, notes) = resolve_vci_channels(&Vec::new(), VciCanBaudRate::Baud1M);
    assert!(channels.is_empty());
    assert!(notes.is_empty());
}
