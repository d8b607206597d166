use canbus_core::cantypes::{CanBaudRate, PcanBaudRate, VciBoardInfo, VciCanBaudRate, VciCanObj};
use canbus_core::frame::frame_from_vci;
use canbus_core::session::{
    Action, Adapter, DriverCall, LogRecord, Reply, Session, SessionError, SessionState,
};

/// A stand-in for the native driver: every call succeeds unless told otherwise.
struct MockDriver {
    failing_init: Option<u32>,
    failing_start: Option<u32>,
    open_status: i32,
    board_status: i32,
    close_status: i32,
    calls: Vec<DriverCall>,
}

impl MockDriver {
    fn new() -> MockDriver {
        MockDriver {
            failing_init: None,
            failing_start: None,
            open_status: 1,
            board_status: 1,
            close_status: 1,
            calls: Vec::new(),
        }
    }

    fn answer(&mut self, call: DriverCall) -> Reply {
        self.calls.push(call);
        match call {
            DriverCall::VciOpenDevice { .. } => Reply::Vci(self.open_status),
            DriverCall::VciInitCan { channel, .. } => {
                Reply::Vci(if self.failing_init == Some(channel) { 0 } else { 1 })
            }
            DriverCall::VciStartCan { channel, .. } => {
                Reply::Vci(if self.failing_start == Some(channel) { -1 } else { 1 })
            }
            DriverCall::VciReadBoardInfo { .. } => {
                let mut info = VciBoardInfo::default();
                info.fw_version = 0x0310;
                info.str_serial_num[..6].copy_from_slice(b"SN1234");
                Reply::VciBoard { status: self.board_status, info }
            }
            DriverCall::VciCloseDevice { .. } => Reply::Vci(self.close_status),
            DriverCall::PcanUninitialize { .. } => Reply::Pcan(0),
            DriverCall::PcanInitialize { .. } => Reply::Pcan(0),
            DriverCall::PcanSetValue { .. } => Reply::Pcan(0),
            DriverCall::PcanGetApiVersion { .. } => {
                let mut text = b"4.6.1.728".to_vec();
                text.resize(24, 0);
                Reply::PcanApiVersion { status: 0, text }
            }
        }
    }

    fn close_calls(&self) -> usize {
        self.calls
            .iter()
            .filter(|c| matches!(c, DriverCall::VciCloseDevice { .. }))
            .count()
    }
}

/// Performs what the session asks for until the operation is over.
fn drive(session: &mut Session, first: Action, driver: &mut MockDriver) -> Action {
    let mut action = first;
    loop {
        action = match action {
            Action::Call(call) => {
                let reply = driver.answer(call);
                assert!(session.expects(&reply));
                session.resume(reply)
            }
            Action::Join => session.resume(Reply::Joined),
            done => return done,
        };
    }
}

fn family_a_session() -> Session {
    Session::control_can(4, 0, vec![(0, VciCanBaudRate::Baud250K), (1, VciCanBaudRate::Baud1M)])
}

fn open(session: &mut Session, driver: &mut MockDriver) -> Action {
    let first = session.open_device();
    drive(session, first, driver)
}

fn close(session: &mut Session, driver: &mut MockDriver) -> Action {
    let first = session.close_device();
    drive(session, first, driver)
}

#[test]
fn family_a_full_cycle() {
    let mut session = family_a_session();
    let mut driver = MockDriver::new();

    assert!(matches!(open(&mut session, &mut driver), Action::Done(Ok(()))));
    assert!(session.is_initialized());
    assert_eq!(session.state(), SessionState::Initialized);
    assert_eq!(
        driver.calls[1],
        DriverCall::VciInitCan {
            dev_type: 4,
            dev_index: 0,
            channel: 0,
            config: canbus_core::cantypes::VciInitConfig {
                acc_code: 0,
                acc_mask: 0xFFFF_FFFF,
                reserved: 0,
                filter: 1,
                timing0: 0x01,
                timing1: 0x1C,
                mode: 0,
            },
        }
    );
    let log = session.take_log();
    match log.last() {
        Some(LogRecord::BoardInfo { serial, firmware }) => {
            assert_eq!(serial, &b"SN1234".to_vec());
            assert_eq!(*firmware, 0x0310);
        }
        other => panic!("expected a board summary, got {:?}", other),
    }

    let start = session.start_receiving();
    assert!(matches!(drive(&mut session, start, &mut driver), Action::Spawn));
    assert_eq!(session.pollers(), vec![0, 1]);
    assert_eq!(session.state(), SessionState::Receiving);

    // one mock frame arrives on channel 0
    let obj = VciCanObj { id: 0x1A0, data_len: 2, data: [5, 6, 0, 0, 0, 0, 0, 0], ..VciCanObj::default() };
    let records: Vec<_> = [(0u32, 1i32), (1, 0)]
        .iter()
        .filter_map(|&(ch, n)| frame_from_vci(ch, n, &obj))
        .collect();
    assert_eq!(records.len(), 1);
    assert_eq!(records[0].channel, 0);
    assert_eq!(records[0].id, 0x1A0);

    let stop = session.stop_receiving();
    assert!(matches!(stop, Action::Join));
    assert!(matches!(drive(&mut session, stop, &mut driver), Action::Done(Ok(()))));
    assert!(session.pollers().is_empty());
    let log = session.take_log();
    let stopped: Vec<u32> = log
        .iter()
        .filter_map(|r| match r {
            LogRecord::StoppedReceiving { channel } => Some(*channel),
            _ => None,
        })
        .collect();
    assert_eq!(stopped, vec![0, 1]);

    assert!(matches!(close(&mut session, &mut driver), Action::Done(Ok(()))));
    let log = session.take_log();
    assert!(matches!(log.last(), Some(LogRecord::DeviceClosed { status: 1 })));
    assert_eq!(session.state(), SessionState::Closed);
}

#[test]
fn family_a_channel_one_init_fails() {
    let mut session = family_a_session();
    let mut driver = MockDriver::new();
    driver.failing_init = Some(1);

    let outcome = open(&mut session, &mut driver);
    assert!(matches!(
        outcome,
        Action::Done(Err(SessionError::ChannelInit { channel: 1, code: 0 }))
    ));
    assert_eq!(driver.close_calls(), 1);
    assert!(!session.is_initialized());
    assert_eq!(session.state(), SessionState::Closed);
    let log = session.take_log();
    assert!(log
        .iter()
        .any(|r| matches!(r, LogRecord::ChannelInitFailed { channel: 1, code: 0 })));
    assert!(!log.iter().any(|r| matches!(r, LogRecord::BoardInfo { .. })));
}

#[test]
fn first_channel_failure_stops_further_inits() {
    let mut session = family_a_session();
    let mut driver = MockDriver::new();
    driver.failing_init = Some(0);
    let outcome = open(&mut session, &mut driver);
    assert!(matches!(outcome, Action::Done(Err(SessionError::ChannelInit { channel: 0, .. }))));
    let inits = driver
        .calls
        .iter()
        .filter(|c| matches!(c, DriverCall::VciInitCan { .. }))
        .count();
    assert_eq!(inits, 1);
    assert_eq!(driver.close_calls(), 1);
}

#[test]
fn device_open_failure_is_reported() {
    let mut session = family_a_session();
    let mut driver = MockDriver::new();
    driver.open_status = 0;
    let outcome = open(&mut session, &mut driver);
    assert!(matches!(outcome, Action::Done(Err(SessionError::DeviceOpen { code: 0 }))));
    assert_eq!(driver.calls.len(), 1);
    assert!(!session.is_initialized());
    assert_eq!(session.state(), SessionState::Closed);
}

#[test]
fn board_info_failure_fails_the_open() {
    let mut session = family_a_session();
    let mut driver = MockDriver::new();
    driver.board_status = -7;
    let outcome = open(&mut session, &mut driver);
    assert!(matches!(outcome, Action::Done(Err(SessionError::BoardInfo { code: -7 }))));
    // the channels were initialised, so the session is
    assert!(session.is_initialized());
    let log = session.take_log();
    assert!(matches!(log.last(), Some(LogRecord::BoardInfoFailed { code: -7 })));
}

#[test]
fn close_twice_logs_two_statuses() {
    let mut session = family_a_session();
    let mut driver = MockDriver::new();
    assert!(matches!(open(&mut session, &mut driver), Action::Done(Ok(()))));
    session.take_log();
    assert!(matches!(close(&mut session, &mut driver), Action::Done(Ok(()))));
    driver.close_status = 0;
    assert!(matches!(close(&mut session, &mut driver), Action::Done(Ok(()))));
    let log = session.take_log();
    assert_eq!(log.len(), 2);
    assert!(matches!(log[0], LogRecord::DeviceClosed { status: 1 }));
    assert!(matches!(log[1], LogRecord::DeviceClosed { status: 0 }));
    assert_eq!(driver.close_calls(), 2);
    assert!(!session.is_initialized());
}

#[test]
fn close_while_receiving_stops_pollers_first() {
    let mut session = family_a_session();
    let mut driver = MockDriver::new();
    open(&mut session, &mut driver);
    let start = session.start_receiving();
    drive(&mut session, start, &mut driver);
    session.take_log();
    let first = session.close_device();
    assert!(matches!(first, Action::Join));
    assert!(matches!(drive(&mut session, first, &mut driver), Action::Done(Ok(()))));
    let log = session.take_log();
    assert!(matches!(log[0], LogRecord::StoppedReceiving { channel: 0 }));
    assert!(matches!(log[1], LogRecord::StoppedReceiving { channel: 1 }));
    assert!(matches!(log[2], LogRecord::DeviceClosed { .. }));
    assert!(session.pollers().is_empty());
}

#[test]
fn failed_channel_start_is_skipped() {
    let mut session = family_a_session();
    let mut driver = MockDriver::new();
    driver.failing_start = Some(0);
    open(&mut session, &mut driver);
    session.take_log();
    let start = session.start_receiving();
    assert!(matches!(drive(&mut session, start, &mut driver), Action::Spawn));
    assert_eq!(session.pollers(), vec![1]);
    let log = session.take_log();
    assert!(matches!(log[0], LogRecord::ChannelStartFailed { channel: 0, code: -1 }));
    assert!(matches!(log[1], LogRecord::ChannelStarted { channel: 1 }));
    let stop = session.stop_receiving();
    drive(&mut session, stop, &mut driver);
    let log = session.take_log();
    assert_eq!(log.len(), 1);
    assert!(matches!(log[0], LogRecord::StoppedReceiving { channel: 1 }));
}

#[test]
fn start_outside_initialized_does_nothing() {
    let mut session = family_a_session();
    assert!(matches!(session.start_receiving(), Action::Done(Ok(()))));
    assert_eq!(session.state(), SessionState::Closed);
    let mut driver = MockDriver::new();
    open(&mut session, &mut driver);
    let start = session.start_receiving();
    drive(&mut session, start, &mut driver);
    // a second start while receiving spawns nothing more
    assert!(matches!(session.start_receiving(), Action::Done(Ok(()))));
    assert_eq!(session.pollers(), vec![0, 1]);
}

#[test]
fn stop_when_not_receiving_does_nothing() {
    let mut session = family_a_session();
    assert!(matches!(session.stop_receiving(), Action::Done(Ok(()))));
    assert!(session.take_log().is_empty());
}

#[test]
fn board_info_needs_an_initialized_session() {
    let mut session = family_a_session();
    assert!(matches!(session.read_board_info(), Action::Done(Ok(()))));
    let log = session.take_log();
    assert_eq!(log.len(), 1);
    assert!(matches!(log[0], LogRecord::NotInitialized));

    let mut driver = MockDriver::new();
    open(&mut session, &mut driver);
    session.take_log();
    let read = session.read_board_info();
    assert!(matches!(read, Action::Call(DriverCall::VciReadBoardInfo { dev_type: 4, dev_index: 0 })));
    drive(&mut session, read, &mut driver);
    let log = session.take_log();
    assert!(matches!(&log[0], LogRecord::BoardInfo { firmware: 0x0310, .. }));
}

#[test]
fn replies_of_the_wrong_kind_are_not_expected() {
    let mut session = family_a_session();
    assert!(!session.expects(&Reply::Vci(1)));
    session.open_device();
    assert!(session.expects(&Reply::Vci(1)));
    assert!(!session.expects(&Reply::Pcan(0)));
    assert!(!session.expects(&Reply::Joined));
}

#[test]
fn pcan_session_cycle() {
    let mut session = Session::pcan(0x51, PcanBaudRate::Baud500K);
    assert_eq!(session.adapter(), Adapter::Pcan { channel: 0x51 });
    let mut driver = MockDriver::new();
    assert!(matches!(open(&mut session, &mut driver), Action::Done(Ok(()))));
    assert_eq!(driver.calls[0], DriverCall::PcanUninitialize { channel: 0 });
    assert!(matches!(
        driver.calls[1],
        DriverCall::PcanInitialize { channel: 0x51, config } if config.baud_rate == 0x001C
    ));
    assert_eq!(driver.calls[2], DriverCall::PcanSetValue { channel: 0x51, parameter: 0x04, value: 1 });
    assert_eq!(driver.calls[3], DriverCall::PcanSetValue { channel: 0x51, parameter: 0x08, value: 0 });
    assert_eq!(driver.calls[4], DriverCall::PcanSetValue { channel: 0x51, parameter: 0x07, value: 1 });
    let log = session.take_log();
    match log.last() {
        Some(LogRecord::ApiVersion { version }) => assert_eq!(version, &b"4.6.1.728".to_vec()),
        other => panic!("expected the API version, got {:?}", other),
    }
    assert!(log.iter().any(|r| matches!(
        r,
        LogRecord::ChannelInitialized { channel: 0x51, baud: CanBaudRate::Pcan(PcanBaudRate::Baud500K) }
    )));

    assert!(matches!(session.start_receiving(), Action::Spawn));
    assert_eq!(session.pollers(), vec![0x51]);
    let log = session.take_log();
    assert!(matches!(log[0], LogRecord::ReadyForReceiving { channel: 0x51 }));

    let stop = session.stop_receiving();
    drive(&mut session, stop, &mut driver);
    assert!(session.pollers().is_empty());
    assert!(matches!(close(&mut session, &mut driver), Action::Done(Ok(()))));
    assert_eq!(
        driver.calls.last(),
        Some(&DriverCall::PcanUninitialize { channel: 0x51 })
    );
}

#[test]
fn session_with_no_channels_opens() {
    let mut session = Session::control_can(4, 0, Vec::new());
    let mut driver = MockDriver::new();
    assert!(matches!(open(&mut session, &mut driver), Action::Done(Ok(()))));
    let start = session.start_receiving();
    assert!(matches!(drive(&mut session, start, &mut driver), Action::Spawn));
    assert!(session.pollers().is_empty());
}
