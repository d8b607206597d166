use canbus_core::cantypes::{PcanMsg, VciCanObj};
use canbus_core::frame::{frame_from_pcan, frame_from_vci, trim_nul};

#[test]
fn vci_poll_with_a_frame_yields_it() {
    let obj = VciCanObj {
        id: 0x18FF_50E5,
        data_len: 3,
        data: [1, 2, 3, 4, 5, 6, 7, 8],
        ..VciCanObj::default()
    };
    let frame = frame_from_vci(0, 1, &obj).expect("one frame received");
    assert_eq!(frame.channel, 0);
    assert_eq!(frame.id, 0x18FF_50E5);
    assert_eq!(frame.data, vec![1, 2, 3]);
}

#[test]
fn vci_poll_without_frames_yields_nothing() {
    let obj = VciCanObj { id: 7, data_len: 8, ..VciCanObj::default() };
    assert!(frame_from_vci(1, 0, &obj).is_none());
    assert!(frame_from_vci(1, -1, &obj).is_none());
}

#[test]
fn vci_payload_is_capped_at_eight_bytes() {
    let obj = VciCanObj {
        id: 1,
        data_len: 15,
        data: [9, 8, 7, 6, 5, 4, 3, 2],
        ..VciCanObj::default()
    };
    let frame = frame_from_vci(1, 2, &obj).expect("frames received");
    assert_eq!(frame.data, vec![9, 8, 7, 6, 5, 4, 3, 2]);
    let empty = VciCanObj { id: 1, data_len: 0, ..VciCanObj::default() };
    assert_eq!(frame_from_vci(1, 1, &empty).expect("frame").data, Vec::<u8>::new());
}

#[test]
fn pcan_read_yields_a_frame_only_on_success() {
    let msg = PcanMsg { id: 0x123, msgtype: 0, len: 2, data: [0xAA, 0xBB, 0, 0, 0, 0, 0, 0] };
    let frame = frame_from_pcan(0x51, 0, &msg).expect("read succeeded");
    assert_eq!(frame.channel, 0x51);
    assert_eq!(frame.id, 0x123);
    assert_eq!(frame.data, vec![0xAA, 0xBB]);
    // 0x20 is the driver's "receive queue empty"
    assert!(frame_from_pcan(0x51, 0x20, &msg).is_none());
}

#[test]
fn trim_removes_nul_padding_on_both_ends() {
    assert_eq!(trim_nul(b"\0\0ABC123\0\0\0"), b"ABC123".to_vec());
    assert_eq!(trim_nul(b"A\0B\0"), b"A\0B".to_vec());
    assert_eq!(trim_nul(&[0u8; 20]), Vec::<u8>::new());
    assert_eq!(trim_nul(b""), Vec::<u8>::new());
    assert_eq!(trim_nul(b"xyz"), b"xyz".to_vec());
}
