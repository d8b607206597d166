use vstd::prelude::*;
use crate::cantypes::{
    CanBaudRate, PcanBaudRate, PcanInitConfig, VciBoardInfo, VciCanBaudRate, VciInitConfig,
};
use crate::frame::{trim_nul, trim_nuls, PCAN_ERROR_OK, VCI_SUCCESS};

verus! {

/// PCAN channel handle that stands for every channel at once.
pub const PCAN_NONEBUS: u32 = 0x00;

/// PCAN parameter: message filter.
pub const PCAN_MESSAGE_FILTER: u32 = 0x04;

/// PCAN parameter: listen-only mode.
pub const PCAN_LISTEN_ONLY: u32 = 0x08;

/// PCAN parameter: automatic reset after bus-off.
pub const PCAN_BUSOFF_AUTORESET: u32 = 0x07;

/// Number of parameters that a PCAN session sets after initialising its channel.
pub const PCAN_SETTINGS: usize = 3;

/// Which adapter a session drives, with the handles its driver calls need.
#[derive(Debug, Clone, Copy, PartialEq, Eq, Structural)]
pub enum Adapter {
    ControlCan { dev_type: u32, dev_index: u32 },
    Pcan { channel: u32 },
}

/// A logical channel and its bit rate.
#[derive(Debug, Clone, Copy, PartialEq, Eq, Structural)]
pub struct ChannelSpec {
    pub channel_id: u32,
    pub baud: CanBaudRate,
}

/// The lifecycle state of a session.
#[derive(Debug, Clone, Copy, PartialEq, Eq, Structural)]
pub enum SessionState {
    Closed,
    Opening,
    Initialized,
    Receiving,
}

/// The operation in flight, and which driver reply it waits for.
#[derive(Debug, Clone, Copy, PartialEq, Eq, Structural)]
pub enum Step {
    Idle,
    /// open: the device-open call
    OpenDevice,
    /// open: initialisation of the channel at this index
    InitChannel(usize),
    /// open (PCAN): the parameter setting at this index
    Configure(usize),
    /// open: the board-information read
    OpenBoardInfo,
    /// open: the device close after the channel at this index failed with this code
    Rollback(usize, i64),
    /// close: the device close
    Closing,
    /// close: waiting for the pollers to end before the device close
    CloseJoin,
    /// start: the start call of the channel at this index
    Starting(usize),
    /// stop: waiting for the pollers to end
    StopJoin,
    /// read_board_info: the board-information read
    ReadingBoard,
}

/// One native driver call, with all of its arguments.
#[derive(Debug, Clone, Copy, PartialEq, Eq, Structural)]
pub enum DriverCall {
    VciOpenDevice { dev_type: u32, dev_index: u32 },
    VciInitCan { dev_type: u32, dev_index: u32, channel: u32, config: VciInitConfig },
    VciStartCan { dev_type: u32, dev_index: u32, channel: u32 },
    VciReadBoardInfo { dev_type: u32, dev_index: u32 },
    VciCloseDevice { dev_type: u32, dev_index: u32 },
    PcanUninitialize { channel: u32 },
    PcanInitialize { channel: u32, config: PcanInitConfig },
    PcanSetValue { channel: u32, parameter: u32, value: u32 },
    PcanGetApiVersion { channel: u32 },
}

/// What the driver answered to the last call, or that the pollers have ended.
#[derive(Debug)]
pub enum Reply {
    Vci(i32),
    Pcan(u32),
    VciBoard { status: i32, info: VciBoardInfo },
    PcanApiVersion { status: u32, text: Vec<u8> },
    Joined,
}

/// Why an open did not succeed.
#[derive(Debug, Clone, Copy, PartialEq, Eq, Structural)]
pub enum SessionError {
    DeviceOpen { code: i64 },
    ChannelInit { channel: u32, code: i64 },
    BoardInfo { code: i64 },
}

/// What the caller does next for the session.
#[derive(Debug, Clone, Copy)]
pub enum Action {
    /// perform this driver call and hand its reply to `resume`
    Call(DriverCall),
    /// start one poller for each channel of `pollers()`; the operation is over
    Spawn,
    /// clear the pollers' running flag, wait until every poller has ended,
    /// and hand `Reply::Joined` to `resume`
    Join,
    /// the operation is over, with this outcome
    Done(Result<(), SessionError>),
}

/// A status record for the log sink.
#[derive(Debug)]
pub enum LogRecord {
    DeviceOpenFailed { code: i64 },
    DeviceOpened,
    ChannelInitFailed { channel: u32, code: i64 },
    ChannelInitialized { channel: u32, baud: CanBaudRate },
    ParameterSet { parameter: u32, ok: bool },
    BoardInfo { serial: Vec<u8>, firmware: u16 },
    ApiVersion { version: Vec<u8> },
    BoardInfoFailed { code: i64 },
    NotInitialized,
    DeviceClosed { status: i64 },
    ChannelStartFailed { channel: u32, code: i64 },
    ChannelStarted { channel: u32 },
    ReadyForReceiving { channel: u32 },
    StoppedReceiving { channel: u32 },
    BaudFallback { channel: u32, requested: u32, used: CanBaudRate },
}

/// A log record as a mathematical value.
pub enum LogEntry {
    DeviceOpenFailed { code: i64 },
    DeviceOpened,
    ChannelInitFailed { channel: u32, code: i64 },
    ChannelInitialized { channel: u32, baud: CanBaudRate },
    ParameterSet { parameter: u32, ok: bool },
    BoardInfo { serial: Seq<u8>, firmware: u16 },
    ApiVersion { version: Seq<u8> },
    BoardInfoFailed { code: i64 },
    NotInitialized,
    DeviceClosed { status: i64 },
    ChannelStartFailed { channel: u32, code: i64 },
    ChannelStarted { channel: u32 },
    ReadyForReceiving { channel: u32 },
    StoppedReceiving { channel: u32 },
    BaudFallback { channel: u32, requested: u32, used: CanBaudRate },
}

impl View for LogRecord {
    type V = LogEntry;

    open spec fn view(&self) -> LogEntry {
        match self {
            LogRecord::DeviceOpenFailed { code } => LogEntry::DeviceOpenFailed { code: *code },
            LogRecord::DeviceOpened => LogEntry::DeviceOpened,
            LogRecord::ChannelInitFailed { channel, code } => LogEntry::ChannelInitFailed {
                channel: *channel,
                code: *code,
            },
            LogRecord::ChannelInitialized { channel, baud } => LogEntry::ChannelInitialized {
                channel: *channel,
                baud: *baud,
            },
            LogRecord::ParameterSet { parameter, ok } => LogEntry::ParameterSet {
                parameter: *parameter,
                ok: *ok,
            },
            LogRecord::BoardInfo { serial, firmware } => LogEntry::BoardInfo {
                serial: serial@,
                firmware: *firmware,
            },
            LogRecord::ApiVersion { version } => LogEntry::ApiVersion { version: version@ },
            LogRecord::BoardInfoFailed { code } => LogEntry::BoardInfoFailed { code: *code },
            LogRecord::NotInitialized => LogEntry::NotInitialized,
            LogRecord::DeviceClosed { status } => LogEntry::DeviceClosed { status: *status },
            LogRecord::ChannelStartFailed { channel, code } => LogEntry::ChannelStartFailed {
                channel: *channel,
                code: *code,
            },
            LogRecord::ChannelStarted { channel } => LogEntry::ChannelStarted { channel: *channel },
            LogRecord::ReadyForReceiving { channel } => LogEntry::ReadyForReceiving {
                channel: *channel,
            },
            LogRecord::StoppedReceiving { channel } => LogEntry::StoppedReceiving {
                channel: *channel,
            },
            LogRecord::BaudFallback { channel, requested, used } => LogEntry::BaudFallback {
                channel: *channel,
                requested: *requested,
                used: *used,
            },
        }
    }
}

/// A device session as a mathematical value.
pub struct SessionModel {
    pub adapter: Adapter,
    pub channels: Seq<ChannelSpec>,
    pub state: SessionState,
    pub initialized: bool,
    pub step: Step,
    pub pollers: Seq<u32>,
    pub log: Seq<LogEntry>,
}

/// The VCI initialisation record for a channel at rate `b`: all
/// identifiers accepted, normal mode.
pub open spec fn vci_config(b: VciCanBaudRate) -> VciInitConfig {
    VciInitConfig {
        acc_code: 0,
        acc_mask: 0xFFFF_FFFF,
        reserved: 0,
        filter: 1,
        timing0: b.timing().0,
        timing1: b.timing().1,
        mode: 0,
    }
}

/// The PCAN parameter setting at index `k` of the setup sequence: open the
/// message filter, leave listen-only mode, reset automatically after bus-off.
pub open spec fn pcan_setting(k: int) -> (u32, u32) {
    if k == 0 {
        (PCAN_MESSAGE_FILTER, 1)
    } else if k == 1 {
        (PCAN_LISTEN_ONLY, 0)
    } else {
        (PCAN_BUSOFF_AUTORESET, 1)
    }
}

/// The numeric code carried by a reply, widened so that both families fit.
pub open spec fn reply_code(r: Reply) -> i64 {
    match r {
        Reply::Vci(s) => s as i64,
        Reply::Pcan(s) => s as i64,
        Reply::VciBoard { status, .. } => status as i64,
        Reply::PcanApiVersion { status, .. } => status as i64,
        Reply::Joined => 0,
    }
}

/// The log entry that a successful board-information reply produces.
pub open spec fn board_entry(r: Reply) -> LogEntry {
    match r {
        Reply::VciBoard { info, .. } => LogEntry::BoardInfo {
            serial: trim_nuls(info.str_serial_num@),
            firmware: info.fw_version,
        },
        Reply::PcanApiVersion { text, .. } => LogEntry::ApiVersion { version: trim_nuls(text@) },
        _ => LogEntry::NotInitialized,
    }
}

/// One "stopped receiving" entry for each poller, in order.
pub open spec fn stopped_entries(pollers: Seq<u32>) -> Seq<LogEntry> {
    pollers.map_values(|c: u32| LogEntry::StoppedReceiving { channel: c })
}

/// One "ready for receiving" entry for each channel, in order.
pub open spec fn ready_entries(channels: Seq<ChannelSpec>) -> Seq<LogEntry> {
    channels.map_values(|c: ChannelSpec| LogEntry::ReadyForReceiving { channel: c.channel_id })
}

/// The channel numbers of a channel list, in order.
pub open spec fn channel_ids(channels: Seq<ChannelSpec>) -> Seq<u32> {
    channels.map_values(|c: ChannelSpec| c.channel_id)
}

impl Adapter {
    /// The channel's rate is one that this adapter family knows.
    pub open spec fn fits(self, c: ChannelSpec) -> bool {
        match self {
            Adapter::ControlCan { .. } => c.baud is ControlCan,
            Adapter::Pcan { .. } => c.baud is Pcan,
        }
    }

    /// The call that opens the device. A PCAN adapter has no such call: it
    /// releases every channel left initialised instead.
    pub open spec fn open_call(self) -> DriverCall {
        match self {
            Adapter::ControlCan { dev_type, dev_index } => DriverCall::VciOpenDevice {
                dev_type,
                dev_index,
            },
            Adapter::Pcan { .. } => DriverCall::PcanUninitialize { channel: PCAN_NONEBUS },
        }
    }

    /// The call that initialises channel `c`.
    pub open spec fn init_call(self, c: ChannelSpec) -> DriverCall {
        match (self, c.baud) {
            (Adapter::ControlCan { dev_type, dev_index }, CanBaudRate::ControlCan(b)) => {
                DriverCall::VciInitCan { dev_type, dev_index, channel: c.channel_id, config: vci_config(b) }
            },
            (Adapter::Pcan { .. }, CanBaudRate::Pcan(b)) => DriverCall::PcanInitialize {
                channel: c.channel_id,
                config: PcanInitConfig { baud_rate: b.btr0btr1() as u32 },
            },
            _ => arbitrary(),
        }
    }

    /// The call that sets the PCAN parameter at index `k` of the setup sequence.
    pub open spec fn configure_call(self, k: int) -> DriverCall {
        match self {
            Adapter::Pcan { channel } => DriverCall::PcanSetValue {
                channel,
                parameter: pcan_setting(k).0,
                value: pcan_setting(k).1,
            },
            _ => arbitrary(),
        }
    }

    /// The call that reads the board information.
    pub open spec fn board_call(self) -> DriverCall {
        match self {
            Adapter::ControlCan { dev_type, dev_index } => DriverCall::VciReadBoardInfo {
                dev_type,
                dev_index,
            },
            Adapter::Pcan { channel } => DriverCall::PcanGetApiVersion { channel },
        }
    }

    /// The call that starts reception on channel `channel` (VCI adapters only).
    pub open spec fn start_call(self, channel: u32) -> DriverCall {
        match self {
            Adapter::ControlCan { dev_type, dev_index } => DriverCall::VciStartCan {
                dev_type,
                dev_index,
                channel,
            },
            _ => arbitrary(),
        }
    }

    /// The call that closes the device.
    pub open spec fn close_call(self) -> DriverCall {
        match self {
            Adapter::ControlCan { dev_type, dev_index } => DriverCall::VciCloseDevice {
                dev_type,
                dev_index,
            },
            Adapter::Pcan { channel } => DriverCall::PcanUninitialize { channel },
        }
    }

    /// The reply reports success in this family's terms.
    pub open spec fn succeeded(self, r: Reply) -> bool {
        match (self, r) {
            (Adapter::ControlCan { .. }, Reply::Vci(s)) => s == VCI_SUCCESS,
            (Adapter::ControlCan { .. }, Reply::VciBoard { status, .. }) => status == VCI_SUCCESS,
            (Adapter::Pcan { .. }, Reply::Pcan(s)) => s == PCAN_ERROR_OK,
            (Adapter::Pcan { .. }, Reply::PcanApiVersion { status, .. }) => status
                == PCAN_ERROR_OK,
            _ => false,
        }
    }

    /// The device-open step went through. Releasing stale PCAN channels
    /// cannot fail in a way that matters, so its status is not looked at.
    pub open spec fn opened(self, r: Reply) -> bool {
        match self {
            Adapter::ControlCan { .. } => self.succeeded(r),
            Adapter::Pcan { .. } => true,
        }
    }

    /// The reply has the shape that this family gives to a status call.
    pub open spec fn status_reply(self, r: Reply) -> bool {
        match self {
            Adapter::ControlCan { .. } => r is Vci,
            Adapter::Pcan { .. } => r is Pcan,
        }
    }

    /// The reply has the shape that this family gives to a board read.
    pub open spec fn board_reply(self, r: Reply) -> bool {
        match self {
            Adapter::ControlCan { .. } => r is VciBoard,
            Adapter::Pcan { .. } => r is PcanApiVersion,
        }
    }
}

impl SessionModel {
    /// The invariant of every session.
    pub open spec fn wf(self) -> bool {
        &&& forall|i: int| 0 <= i < self.channels.len() ==> self.adapter.fits(#[trigger] self.channels[i])
        &&& self.channels.len() <= usize::MAX
        &&& match self.step {
            Step::InitChannel(k) => k < self.channels.len(),
            Step::Rollback(k, _) => k < self.channels.len(),
            Step::Starting(k) => k < self.channels.len() && self.adapter is ControlCan,
            Step::Configure(k) => k < PCAN_SETTINGS && self.adapter is Pcan,
            _ => true,
        }
    }

    /// `reply` is of the kind that the step in flight waits for.
    pub open spec fn expects(self, reply: Reply) -> bool {
        match self.step {
            Step::Idle => false,
            Step::OpenBoardInfo | Step::ReadingBoard => self.adapter.board_reply(reply),
            Step::CloseJoin | Step::StopJoin => reply is Joined,
            _ => self.adapter.status_reply(reply),
        }
    }

    pub open spec fn logged(self, e: LogEntry) -> SessionModel {
        SessionModel { log: self.log.push(e), ..self }
    }

    pub open spec fn at(self, step: Step) -> SessionModel {
        SessionModel { step, ..self }
    }

    /// The session once the device is closed.
    pub open spec fn closed(self) -> SessionModel {
        SessionModel {
            state: SessionState::Closed,
            initialized: false,
            step: Step::Idle,
            pollers: Seq::empty(),
            ..self
        }
    }

    /// An operation ends with `result`, leaving the session in `state`.
    pub open spec fn finish(self, state: SessionState, result: Result<(), SessionError>) -> (
        SessionModel,
        Action,
    ) {
        (SessionModel { state, step: Step::Idle, ..self }, Action::Done(result))
    }

    /// Open goes on with the channel at index `k`, or with what follows the
    /// channels once all of them are initialised.
    pub open spec fn init_from(self, k: int) -> (SessionModel, Action) {
        if k < self.channels.len() {
            (self.at(Step::InitChannel(k as usize)), Action::Call(self.adapter.init_call(self.channels[k])))
        } else {
            let s = SessionModel { initialized: true, ..self };
            match self.adapter {
                Adapter::ControlCan { .. } => (s.at(Step::OpenBoardInfo), Action::Call(self.adapter.board_call())),
                Adapter::Pcan { .. } => (s.at(Step::Configure(0)), Action::Call(self.adapter.configure_call(0))),
            }
        }
    }

    /// Start goes on with the channel at index `k`, or spawns the pollers
    /// once every channel has had its start call.
    pub open spec fn start_from(self, k: int) -> (SessionModel, Action) {
        if k < self.channels.len() {
            (self.at(Step::Starting(k as usize)), Action::Call(self.adapter.start_call(self.channels[k].channel_id)))
        } else {
            (SessionModel { state: SessionState::Receiving, step: Step::Idle, ..self }, Action::Spawn)
        }
    }

    /// `open`: open the device, then initialise each channel in order, then
    /// read the board information.
    pub open spec fn open(self) -> (SessionModel, Action) {
        (SessionModel { state: SessionState::Opening, ..self }.at(Step::OpenDevice), Action::Call(self.adapter.open_call()))
    }

    /// `close`: stop the pollers if any run, then close the device; valid in
    /// every state, closed included.
    pub open spec fn close(self) -> (SessionModel, Action) {
        if self.state == SessionState::Receiving {
            (self.at(Step::CloseJoin), Action::Join)
        } else {
            (self.at(Step::Closing), Action::Call(self.adapter.close_call()))
        }
    }

    /// `start_receiving`: only from `Initialized`, and a no-op otherwise.
    pub open spec fn start(self) -> (SessionModel, Action) {
        if self.state != SessionState::Initialized {
            (self, Action::Done(Ok(())))
        } else {
            match self.adapter {
                Adapter::ControlCan { .. } => SessionModel { pollers: Seq::empty(), ..self }.start_from(0),
                Adapter::Pcan { .. } => (
                    SessionModel {
                        state: SessionState::Receiving,
                        pollers: channel_ids(self.channels),
                        log: self.log + ready_entries(self.channels),
                        ..self
                    },
                    Action::Spawn,
                ),
            }
        }
    }

    /// `stop_receiving`: only while receiving, and a no-op otherwise.
    pub open spec fn stop(self) -> (SessionModel, Action) {
        if self.state == SessionState::Receiving {
            (self.at(Step::StopJoin), Action::Join)
        } else {
            (self, Action::Done(Ok(())))
        }
    }

    /// `read_board_info`: refused with a log entry unless initialised.
    pub open spec fn read_board(self) -> (SessionModel, Action) {
        if !self.initialized {
            (self.logged(LogEntry::NotInitialized), Action::Done(Ok(())))
        } else {
            (self.at(Step::ReadingBoard), Action::Call(self.adapter.board_call()))
        }
    }

    /// The session after the pollers have ended: one "stopped" entry each.
    pub open spec fn joined(self) -> SessionModel {
        SessionModel { log: self.log + stopped_entries(self.pollers), pollers: Seq::empty(), ..self }
    }

    /// What the reply to the step in flight leads to.
    pub open spec fn resume(self, r: Reply) -> (SessionModel, Action) {
        let a = self.adapter;
        match self.step {
            Step::Idle => (self, Action::Done(Ok(()))),
            Step::OpenDevice => {
                if a.opened(r) {
                    self.logged(LogEntry::DeviceOpened).init_from(0)
                } else {
                    let code = reply_code(r);
                    self.logged(LogEntry::DeviceOpenFailed { code }).finish(
                        SessionState::Closed,
                        Err(SessionError::DeviceOpen { code }),
                    )
                }
            },
            Step::InitChannel(k) => {
                let c = self.channels[k as int];
                if a.succeeded(r) {
                    self.logged(LogEntry::ChannelInitialized { channel: c.channel_id, baud: c.baud }).init_from(k + 1)
                } else {
                    let code = reply_code(r);
                    (
                        self.logged(LogEntry::ChannelInitFailed { channel: c.channel_id, code }).at(Step::Rollback(k, code)),
                        Action::Call(a.close_call()),
                    )
                }
            },
            Step::Configure(k) => {
                let s = self.logged(LogEntry::ParameterSet { parameter: pcan_setting(k as int).0, ok: a.succeeded(r) });
                if k + 1 < PCAN_SETTINGS {
                    (s.at(Step::Configure((k + 1) as usize)), Action::Call(a.configure_call(k + 1)))
                } else {
                    (s.at(Step::OpenBoardInfo), Action::Call(a.board_call()))
                }
            },
            Step::OpenBoardInfo => {
                if a.succeeded(r) {
                    self.logged(board_entry(r)).finish(SessionState::Initialized, Ok(()))
                } else {
                    let code = reply_code(r);
                    self.logged(LogEntry::BoardInfoFailed { code }).finish(
                        SessionState::Initialized,
                        Err(SessionError::BoardInfo { code }),
                    )
                }
            },
            Step::Rollback(k, code) => (
                self.logged(LogEntry::DeviceClosed { status: reply_code(r) }).closed(),
                Action::Done(Err(SessionError::ChannelInit { channel: self.channels[k as int].channel_id, code })),
            ),
            Step::Closing => (
                self.logged(LogEntry::DeviceClosed { status: reply_code(r) }).closed(),
                Action::Done(Ok(())),
            ),
            Step::CloseJoin => (self.joined().at(Step::Closing), Action::Call(a.close_call())),
            Step::Starting(k) => {
                let ch = self.channels[k as int].channel_id;
                if a.succeeded(r) {
                    SessionModel {
                        pollers: self.pollers.push(ch),
                        ..self.logged(LogEntry::ChannelStarted { channel: ch })
                    }.start_from(k + 1)
                } else {
                    self.logged(LogEntry::ChannelStartFailed { channel: ch, code: reply_code(r) }).start_from(k + 1)
                }
            },
            Step::StopJoin => self.joined().finish(SessionState::Initialized, Ok(())),
            Step::ReadingBoard => {
                let e = if a.succeeded(r) {
                    board_entry(r)
                } else {
                    LogEntry::BoardInfoFailed { code: reply_code(r) }
                };
                self.logged(e).finish(self.state, Ok(()))
            },
        }
    }
}

impl Adapter {
    fn make_open_call(self) -> (r: DriverCall)
        ensures
            r == self.open_call(),
    {
        match self {
            Adapter::ControlCan { dev_type, dev_index } => DriverCall::VciOpenDevice { dev_type, dev_index },
            Adapter::Pcan { .. } => DriverCall::PcanUninitialize { channel: PCAN_NONEBUS },
        }
    }

    fn make_init_call(self, c: ChannelSpec) -> (r: DriverCall)
        requires
            self.fits(c),
        ensures
            r == self.init_call(c),
    {
        match self {
            Adapter::ControlCan { dev_type, dev_index } => match c.baud {
                CanBaudRate::ControlCan(b) => {
                    let (timing0, timing1) = b.to_timing_values();
                    let config = VciInitConfig {
                        acc_code: 0,
                        acc_mask: 0xFFFF_FFFF,
                        reserved: 0,
                        filter: 1,
                        timing0,
                        timing1,
                        mode: 0,
                    };
                    DriverCall::VciInitCan { dev_type, dev_index, channel: c.channel_id, config }
                },
                CanBaudRate::Pcan(_) => unreached(),
            },
            Adapter::Pcan { .. } => match c.baud {
                CanBaudRate::Pcan(b) => DriverCall::PcanInitialize {
                    channel: c.channel_id,
                    config: PcanInitConfig { baud_rate: b.to_u16() as u32 },
                },
                CanBaudRate::ControlCan(_) => unreached(),
            },
        }
    }

    fn make_configure_call(self, k: usize) -> (r: DriverCall)
        requires
            self is Pcan,
        ensures
            r == self.configure_call(k as int),
    {
        let (parameter, value) = if k == 0 {
            (PCAN_MESSAGE_FILTER, 1u32)
        } else if k == 1 {
            (PCAN_LISTEN_ONLY, 0u32)
        } else {
            (PCAN_BUSOFF_AUTORESET, 1u32)
        };
        match self {
            Adapter::Pcan { channel } => DriverCall::PcanSetValue { channel, parameter, value },
            Adapter::ControlCan { .. } => unreached(),
        }
    }

    fn make_board_call(self) -> (r: DriverCall)
        ensures
            r == self.board_call(),
    {
        match self {
            Adapter::ControlCan { dev_type, dev_index } => DriverCall::VciReadBoardInfo { dev_type, dev_index },
            Adapter::Pcan { channel } => DriverCall::PcanGetApiVersion { channel },
        }
    }

    fn make_start_call(self, channel: u32) -> (r: DriverCall)
        requires
            self is ControlCan,
        ensures
            r == self.start_call(channel),
    {
        match self {
            Adapter::ControlCan { dev_type, dev_index } => DriverCall::VciStartCan { dev_type, dev_index, channel },
            Adapter::Pcan { .. } => unreached(),
        }
    }

    fn make_close_call(self) -> (r: DriverCall)
        ensures
            r == self.close_call(),
    {
        match self {
            Adapter::ControlCan { dev_type, dev_index } => DriverCall::VciCloseDevice { dev_type, dev_index },
            Adapter::Pcan { channel } => DriverCall::PcanUninitialize { channel },
        }
    }

    fn check_success(self, r: &Reply) -> (b: bool)
        ensures
            b == self.succeeded(*r),
    {
        match (self, r) {
            (Adapter::ControlCan { .. }, Reply::Vci(s)) => *s == VCI_SUCCESS,
            (Adapter::ControlCan { .. }, Reply::VciBoard { status, .. }) => *status == VCI_SUCCESS,
            (Adapter::Pcan { .. }, Reply::Pcan(s)) => *s == PCAN_ERROR_OK,
            (Adapter::Pcan { .. }, Reply::PcanApiVersion { status, .. }) => *status == PCAN_ERROR_OK,
            _ => false,
        }
    }
}

fn code_of(r: &Reply) -> (c: i64)
    ensures
        c == reply_code(*r),
{
    match r {
        Reply::Vci(s) => *s as i64,
        Reply::Pcan(s) => *s as i64,
        Reply::VciBoard { status, .. } => *status as i64,
        Reply::PcanApiVersion { status, .. } => *status as i64,
        Reply::Joined => 0,
    }
}

fn board_record(r: &Reply) -> (e: LogRecord)
    ensures
        e@ == board_entry(*r),
{
    match r {
        Reply::VciBoard { info, .. } => LogRecord::BoardInfo {
            serial: trim_nul(info.str_serial_num.as_slice()),
            firmware: info.fw_version,
        },
        Reply::PcanApiVersion { text, .. } => LogRecord::ApiVersion { version: trim_nul(text.as_slice()) },
        _ => LogRecord::NotInitialized,
    }
}

/// The channel list of a VCI session, from (channel, rate) pairs.
pub open spec fn vci_channel_specs(pairs: Seq<(u32, VciCanBaudRate)>) -> Seq<ChannelSpec> {
    pairs.map_values(|p: (u32, VciCanBaudRate)| ChannelSpec { channel_id: p.0, baud: CanBaudRate::ControlCan(p.1) })
}

impl SessionModel {
    /// A closed session that has done nothing yet.
    pub open spec fn fresh(adapter: Adapter, channels: Seq<ChannelSpec>) -> SessionModel {
        SessionModel {
            adapter,
            channels,
            state: SessionState::Closed,
            initialized: false,
            step: Step::Idle,
            pollers: Seq::empty(),
            log: Seq::empty(),
        }
    }
}

/// A device session: the lifecycle of one adapter and its channels.
///
/// Every operation returns an `Action`. While it is `Action::Call` or
/// `Action::Join`, the caller performs it and hands the outcome to `resume`;
/// `Spawn` and `Done` end the operation. Status records collect in the
/// session until `take_log`.
pub struct Session {
    adapter: Adapter,
    channels: Vec<ChannelSpec>,
    state: SessionState,
    is_initialized: bool,
    step: Step,
    pollers: Vec<u32>,
    log: Vec<LogRecord>,
}

impl View for Session {
    type V = SessionModel;

    closed spec fn view(&self) -> SessionModel {
        SessionModel {
            adapter: self.adapter,
            channels: self.channels@,
            state: self.state,
            initialized: self.is_initialized,
            step: self.step,
            pollers: self.pollers@,
            log: self.log@.map_values(|r: LogRecord| r@),
        }
    }
}

impl Session {
    /// A closed session on a VCI adapter, with channels initialised in the given order.
    pub fn control_can(dev_type: u32, dev_index: u32, can_channels: Vec<(u32, VciCanBaudRate)>) -> (r: Session)
        ensures
            r@ == SessionModel::fresh(Adapter::ControlCan { dev_type, dev_index }, vci_channel_specs(can_channels@)),
            r@.wf(),
    {
        let mut channels: Vec<ChannelSpec> = Vec::new();
        let mut i: usize = 0;
        while i < can_channels.len()
            invariant
                i <= can_channels@.len(),
                channels@ == vci_channel_specs(can_channels@.take(i as int)),
            decreases can_channels@.len() - i,
        {
            let (channel_id, b) = can_channels[i];
            channels.push(ChannelSpec { channel_id, baud: CanBaudRate::ControlCan(b) });
            i = i + 1;
            assert(channels@ =~= vci_channel_specs(can_channels@.take(i as int)));
        }
        assert(can_channels@.take(i as int) =~= can_channels@);
        let _n = channels.len();
        let log: Vec<LogRecord> = Vec::new();
        let pollers: Vec<u32> = Vec::new();
        let r = Session {
            adapter: Adapter::ControlCan { dev_type, dev_index },
            channels,
            state: SessionState::Closed,
            is_initialized: false,
            step: Step::Idle,
            pollers,
            log,
        };
        assert(r@.log =~= Seq::<LogEntry>::empty());
        assert(r@.pollers =~= Seq::<u32>::empty());
        r
    }

    /// A closed session on one PCAN channel.
    pub fn pcan(channel: u32, baud_rate: PcanBaudRate) -> (r: Session)
        ensures
            r@ == SessionModel::fresh(
                Adapter::Pcan { channel },
                seq![ChannelSpec { channel_id: channel, baud: CanBaudRate::Pcan(baud_rate) }],
            ),
            r@.wf(),
    {
        let mut channels: Vec<ChannelSpec> = Vec::new();
        channels.push(ChannelSpec { channel_id: channel, baud: CanBaudRate::Pcan(baud_rate) });
        let _n = channels.len();
        let log: Vec<LogRecord> = Vec::new();
        let pollers: Vec<u32> = Vec::new();
        let r = Session {
            adapter: Adapter::Pcan { channel },
            channels,
            state: SessionState::Closed,
            is_initialized: false,
            step: Step::Idle,
            pollers,
            log,
        };
        assert(r@.log =~= Seq::<LogEntry>::empty());
        assert(r@.pollers =~= Seq::<u32>::empty());
        assert(r@.channels =~= seq![ChannelSpec { channel_id: channel, baud: CanBaudRate::Pcan(baud_rate) }]);
        r
    }

    pub fn state(&self) -> (r: SessionState)
        ensures
            r == self@.state,
    {
        self.state
    }

    pub fn is_initialized(&self) -> (r: bool)
        ensures
            r == self@.initialized,
    {
        self.is_initialized
    }

    /// No operation is in flight.
    pub fn is_idle(&self) -> (r: bool)
        ensures
            r == (self@.step == Step::Idle),
    {
        self.step == Step::Idle
    }

    pub fn adapter(&self) -> (r: Adapter)
        ensures
            r == self@.adapter,
    {
        self.adapter
    }

    /// The channels whose pollers run (or are to be started after `Spawn`).
    pub fn pollers(&self) -> (r: Vec<u32>)
        ensures
            r@ == self@.pollers,
    {
        self.pollers.clone()
    }

    /// The reply is of the kind that the operation in flight waits for.
    pub fn expects(&self, reply: &Reply) -> (r: bool)
        ensures
            r == self@.expects(*reply),
    {
        match self.step {
            Step::Idle => false,
            Step::OpenBoardInfo | Step::ReadingBoard => match (self.adapter, reply) {
                (Adapter::ControlCan { .. }, Reply::VciBoard { .. }) => true,
                (Adapter::Pcan { .. }, Reply::PcanApiVersion { .. }) => true,
                _ => false,
            },
            Step::CloseJoin | Step::StopJoin => match reply {
                Reply::Joined => true,
                _ => false,
            },
            _ => match (self.adapter, reply) {
                (Adapter::ControlCan { .. }, Reply::Vci(_)) => true,
                (Adapter::Pcan { .. }, Reply::Pcan(_)) => true,
                _ => false,
            },
        }
    }

    /// Hands out the status records collected so far, oldest first.
    pub fn take_log(&mut self) -> (r: Vec<LogRecord>)
        ensures
            r@.map_values(|e: LogRecord| e@) == old(self)@.log,
            final(self)@ == (SessionModel { log: Seq::empty(), ..old(self)@ }),
    {
        let mut r: Vec<LogRecord> = Vec::new();
        std::mem::swap(&mut self.log, &mut r);
        assert(self@.log =~= Seq::<LogEntry>::empty());
        r
    }

    fn record(&mut self, e: LogRecord)
        ensures
            final(self)@ == old(self)@.logged(e@),
    {
        let ghost e_view = e@;
        self.log.push(e);
        assert(self.log@.map_values(|r: LogRecord| r@) =~= old(self)@.log.push(e_view));
    }

    fn finish(&mut self, state: SessionState, result: Result<(), SessionError>) -> (a: Action)
        ensures
            (final(self)@, a) == old(self)@.finish(state, result),
    {
        self.state = state;
        self.step = Step::Idle;
        Action::Done(result)
    }

    fn init_from(&mut self, k: usize) -> (a: Action)
        requires
            old(self)@.wf(),
            k <= old(self)@.channels.len(),
        ensures
            (final(self)@, a) == old(self)@.init_from(k as int),
            final(self)@.wf(),
    {
        if k < self.channels.len() {
            self.step = Step::InitChannel(k);
            let c = self.channels[k];
            Action::Call(self.adapter.make_init_call(c))
        } else {
            self.is_initialized = true;
            match self.adapter {
                Adapter::ControlCan { .. } => {
                    self.step = Step::OpenBoardInfo;
                    Action::Call(self.adapter.make_board_call())
                },
                Adapter::Pcan { .. } => {
                    self.step = Step::Configure(0);
                    Action::Call(self.adapter.make_configure_call(0))
                },
            }
        }
    }

    fn start_from(&mut self, k: usize) -> (a: Action)
        requires
            old(self)@.wf(),
            old(self)@.adapter is ControlCan,
            k <= old(self)@.channels.len(),
        ensures
            (final(self)@, a) == old(self)@.start_from(k as int),
            final(self)@.wf(),
    {
        if k < self.channels.len() {
            self.step = Step::Starting(k);
            let ch = self.channels[k].channel_id;
            Action::Call(self.adapter.make_start_call(ch))
        } else {
            self.state = SessionState::Receiving;
            self.step = Step::Idle;
            Action::Spawn
        }
    }

    /// Logs one "stopped receiving" record per poller, then forgets the pollers.
    fn release_pollers(&mut self)
        ensures
            final(self)@ == old(self)@.joined(),
    {
        let ghost p = self@.pollers;
        let mut i: usize = 0;
        while i < self.pollers.len()
            invariant
                i <= p.len(),
                self.pollers@ == p,
                self@ == (SessionModel { log: old(self)@.log + stopped_entries(p.take(i as int)), ..old(self)@ }),
            decreases p.len() - i,
        {
            let ch = self.pollers[i];
            self.record(LogRecord::StoppedReceiving { channel: ch });
            i = i + 1;
            assert(stopped_entries(p.take(i as int)) =~= stopped_entries(p.take(i - 1)).push(
                LogEntry::StoppedReceiving { channel: ch },
            ));
            assert(self@.log =~= old(self)@.log + stopped_entries(p.take(i as int)));
        }
        assert(p.take(i as int) =~= p);
        self.pollers = Vec::new();
        assert(self@.pollers =~= Seq::<u32>::empty());
    }

    /// Opens the device: the device-open call, then one initialisation call
    /// per channel in order, then the board-information read. A failed
    /// channel initialisation closes the whole device and ends the open
    /// with an error that names the channel and the driver's code. A failed
    /// board read also fails the open, but leaves the channels initialised
    /// and the session `Initialized`, to be closed by the caller.
    pub fn open_device(&mut self) -> (a: Action)
        requires
            old(self)@.wf(),
            old(self)@.step == Step::Idle,
            old(self)@.state == SessionState::Closed,
        ensures
            (final(self)@, a) == old(self)@.open(),
            final(self)@.wf(),
    {
        self.state = SessionState::Opening;
        self.step = Step::OpenDevice;
        assert(self@.channels == old(self)@.channels);
        Action::Call(self.adapter.make_open_call())
    }

    /// Closes the device and logs the driver's status; running pollers are
    /// stopped first. Closing a closed session closes it again.
    pub fn close_device(&mut self) -> (a: Action)
        requires
            old(self)@.wf(),
            old(self)@.step == Step::Idle,
        ensures
            (final(self)@, a) == old(self)@.close(),
            final(self)@.wf(),
    {
        if self.state == SessionState::Receiving {
            self.step = Step::CloseJoin;
            assert(self@.channels == old(self)@.channels);
            Action::Join
        } else {
            self.step = Step::Closing;
            assert(self@.channels == old(self)@.channels);
            Action::Call(self.adapter.make_close_call())
        }
    }

    /// Starts reception: one start call per channel, in order (VCI), and
    /// then a poller for each channel that started. A channel that fails to
    /// start is logged and skipped. Outside `Initialized` this does nothing,
    /// so a second call while receiving spawns no second set of pollers.
    pub fn start_receiving(&mut self) -> (a: Action)
        requires
            old(self)@.wf(),
            old(self)@.step == Step::Idle,
        ensures
            (final(self)@, a) == old(self)@.start(),
            final(self)@.wf(),
    {
        if self.state != SessionState::Initialized {
            return Action::Done(Ok(()));
        }
        match self.adapter {
            Adapter::ControlCan { .. } => {
                self.pollers = Vec::new();
                assert(self@ == (SessionModel { pollers: Seq::empty(), ..old(self)@ }));
                self.start_from(0)
            },
            Adapter::Pcan { .. } => {
                let ghost s0 = self@;
                let mut ids: Vec<u32> = Vec::new();
                let mut i: usize = 0;
                while i < self.channels.len()
                    invariant
                        i <= s0.channels.len(),
                        self@ == (SessionModel { log: s0.log + ready_entries(s0.channels.take(i as int)), ..s0 }),
                        ids@ == channel_ids(s0.channels.take(i as int)),
                    decreases s0.channels.len() - i,
                {
                    let ch = self.channels[i].channel_id;
                    self.record(LogRecord::ReadyForReceiving { channel: ch });
                    ids.push(ch);
                    i = i + 1;
                    assert(ready_entries(s0.channels.take(i as int)) =~= ready_entries(
                        s0.channels.take(i - 1),
                    ).push(LogEntry::ReadyForReceiving { channel: ch }));
                    assert(self@.log =~= s0.log + ready_entries(s0.channels.take(i as int)));
                    assert(ids@ =~= channel_ids(s0.channels.take(i as int)));
                }
                assert(s0.channels.take(i as int) =~= s0.channels);
                self.pollers = ids;
                self.state = SessionState::Receiving;
                Action::Spawn
            },
        }
    }

    /// Stops reception: every poller is told to stop and waited for. Outside
    /// `Receiving` this does nothing.
    pub fn stop_receiving(&mut self) -> (a: Action)
        requires
            old(self)@.wf(),
            old(self)@.step == Step::Idle,
        ensures
            (final(self)@, a) == old(self)@.stop(),
            final(self)@.wf(),
    {
        if self.state == SessionState::Receiving {
            self.step = Step::StopJoin;
            assert(self@.channels == old(self)@.channels);
            Action::Join
        } else {
            Action::Done(Ok(()))
        }
    }

    /// Reads and logs the board information; refused, with a log record,
    /// while the session is not initialised.
    pub fn read_board_info(&mut self) -> (a: Action)
        requires
            old(self)@.wf(),
            old(self)@.step == Step::Idle,
        ensures
            (final(self)@, a) == old(self)@.read_board(),
            final(self)@.wf(),
    {
        if !self.is_initialized {
            self.record(LogRecord::NotInitialized);
            Action::Done(Ok(()))
        } else {
            self.step = Step::ReadingBoard;
            Action::Call(self.adapter.make_board_call())
        }
    }

    /// Takes the reply to the step in flight and says what comes next.
    pub fn resume(&mut self, reply: Reply) -> (a: Action)
        requires
            old(self)@.wf(),
            old(self)@.expects(reply),
        ensures
            (final(self)@, a) == old(self)@.resume(reply),
            final(self)@.wf(),
    {
        let adapter = self.adapter;
        match self.step {
            Step::Idle => Action::Done(Ok(())),
            Step::OpenDevice => {
                let opened = match adapter {
                    Adapter::ControlCan { .. } => adapter.check_success(&reply),
                    Adapter::Pcan { .. } => true,
                };
                if opened {
                    self.record(LogRecord::DeviceOpened);
                    self.init_from(0)
                } else {
                    let code = code_of(&reply);
                    self.record(LogRecord::DeviceOpenFailed { code });
                    self.finish(SessionState::Closed, Err(SessionError::DeviceOpen { code }))
                }
            },
            Step::InitChannel(k) => {
                let _n = self.channels.len();
                let c = self.channels[k];
                if adapter.check_success(&reply) {
                    self.record(LogRecord::ChannelInitialized { channel: c.channel_id, baud: c.baud });
                    self.init_from(k + 1)
                } else {
                    let code = code_of(&reply);
                    self.record(LogRecord::ChannelInitFailed { channel: c.channel_id, code });
                    self.step = Step::Rollback(k, code);
                    Action::Call(adapter.make_close_call())
                }
            },
            Step::Configure(k) => {
                let ok = adapter.check_success(&reply);
                let parameter = if k == 0 {
                    PCAN_MESSAGE_FILTER
                } else if k == 1 {
                    PCAN_LISTEN_ONLY
                } else {
                    PCAN_BUSOFF_AUTORESET
                };
                self.record(LogRecord::ParameterSet { parameter, ok });
                if k + 1 < PCAN_SETTINGS {
                    self.step = Step::Configure(k + 1);
                    Action::Call(adapter.make_configure_call(k + 1))
                } else {
                    self.step = Step::OpenBoardInfo;
                    Action::Call(adapter.make_board_call())
                }
            },
            Step::OpenBoardInfo => {
                if adapter.check_success(&reply) {
                    self.record(board_record(&reply));
                    self.finish(SessionState::Initialized, Ok(()))
                } else {
                    let code = code_of(&reply);
                    self.record(LogRecord::BoardInfoFailed { code });
                    self.finish(SessionState::Initialized, Err(SessionError::BoardInfo { code }))
                }
            },
            Step::Rollback(k, code) => {
                let status = code_of(&reply);
                self.record(LogRecord::DeviceClosed { status });
                self.mark_closed();
                Action::Done(Err(SessionError::ChannelInit { channel: self.channels[k].channel_id, code }))
            },
            Step::Closing => {
                let status = code_of(&reply);
                self.record(LogRecord::DeviceClosed { status });
                self.mark_closed();
                Action::Done(Ok(()))
            },
            Step::CloseJoin => {
                self.release_pollers();
                self.step = Step::Closing;
                Action::Call(adapter.make_close_call())
            },
            Step::Starting(k) => {
                let _n = self.channels.len();
                let ch = self.channels[k].channel_id;
                if adapter.check_success(&reply) {
                    self.record(LogRecord::ChannelStarted { channel: ch });
                    self.pollers.push(ch);
                } else {
                    let code = code_of(&reply);
                    self.record(LogRecord::ChannelStartFailed { channel: ch, code });
                }
                self.start_from(k + 1)
            },
            Step::StopJoin => {
                self.release_pollers();
                self.finish(SessionState::Initialized, Ok(()))
            },
            Step::ReadingBoard => {
                if adapter.check_success(&reply) {
                    self.record(board_record(&reply));
                } else {
                    let code = code_of(&reply);
                    self.record(LogRecord::BoardInfoFailed { code });
                }
                let state = self.state;
                self.finish(state, Ok(()))
            },
        }
    }

    fn mark_closed(&mut self)
        ensures
            final(self)@ == old(self)@.closed(),
    {
        self.state = SessionState::Closed;
        self.is_initialized = false;
        self.step = Step::Idle;
        self.pollers = Vec::new();
        assert(self@.pollers =~= Seq::<u32>::empty());
    }
}

/// The entries that report each request whose number names no VCI rate and
/// so gets `fallback`, in order.
pub open spec fn fallback_entries(requests: Seq<(u32, u32)>, fallback: VciCanBaudRate) -> Seq<LogEntry>
    decreases requests.len(),
{
    if requests.len() == 0 {
        Seq::empty()
    } else {
        let prev = fallback_entries(requests.drop_last(), fallback);
        let p = requests.last();
        if VciCanBaudRate::of_kbps(p.1) is None {
            prev.push(LogEntry::BaudFallback { channel: p.0, requested: p.1, used: CanBaudRate::ControlCan(fallback) })
        } else {
            prev
        }
    }
}

/// The rate that a requested number gets: the one it names, or `fallback`.
pub open spec fn resolved_rate(requested: u32, fallback: VciCanBaudRate) -> VciCanBaudRate {
    match VciCanBaudRate::of_kbps(requested) {
        Some(b) => b,
        None => fallback,
    }
}

/// Turns (channel, kbit/s) requests into the channel list of a VCI session.
/// A number that names no rate is never refused silently: it gets `fallback`,
/// and a log record reports the substitution.
pub fn resolve_vci_channels(requests: &Vec<(u32, u32)>, fallback: VciCanBaudRate) -> (r: (
    Vec<(u32, VciCanBaudRate)>,
    Vec<LogRecord>,
))
    ensures
        r.0@.len() == requests@.len(),
        forall|i: int| 0 <= i < requests@.len() ==> #[trigger] r.0@[i] == (requests@[i].0, resolved_rate(requests@[i].1, fallback)),
        r.1@.map_values(|e: LogRecord| e@) == fallback_entries(requests@, fallback),
{
    let mut channels: Vec<(u32, VciCanBaudRate)> = Vec::new();
    let mut notes: Vec<LogRecord> = Vec::new();
    let mut i: usize = 0;
    while i < requests.len()
        invariant
            i <= requests@.len(),
            channels@.len() == i,
            forall|j: int| 0 <= j < i ==> #[trigger] channels@[j] == (requests@[j].0, resolved_rate(requests@[j].1, fallback)),
            notes@.map_values(|e: LogRecord| e@) == fallback_entries(requests@.take(i as int), fallback),
        decreases requests@.len() - i,
    {
        let (channel, requested) = requests[i];
        let (b, fell_back) = VciCanBaudRate::from_u32_or(requested, fallback);
        channels.push((channel, b));
        let ghost before = notes@.map_values(|e: LogRecord| e@);
        if fell_back {
            notes.push(LogRecord::BaudFallback { channel, requested, used: CanBaudRate::ControlCan(fallback) });
            assert(notes@.map_values(|e: LogRecord| e@) =~= before.push(
                LogEntry::BaudFallback { channel, requested, used: CanBaudRate::ControlCan(fallback) },
            ));
        }
        assert(requests@.take(i + 1).drop_last() =~= requests@.take(i as int));
        i = i + 1;
    }
    assert(requests@.take(i as int) =~= requests@);
    (channels, notes)
}

} // verus!
