use vstd::prelude::*;
use crate::session::{
    board_entry, channel_ids, reply_code, stopped_entries, Action, Adapter, ChannelSpec, LogEntry,
    Reply, SessionError, SessionModel, SessionState, Step,
};

verus! {

/// Hands the replies, one by one, to the operation that `start` began, and
/// gives the session and the action after the last of them.
pub open spec fn feed(start: (SessionModel, Action), replies: Seq<Reply>) -> (SessionModel, Action)
    decreases replies.len(),
{
    if replies.len() == 0 {
        start
    } else {
        feed(start.0.resume(replies[0]), replies.drop_first())
    }
}

/// One "initialised" entry per channel, in order.
pub open spec fn init_entries(channels: Seq<ChannelSpec>) -> Seq<LogEntry> {
    channels.map_values(|c: ChannelSpec| LogEntry::ChannelInitialized { channel: c.channel_id, baud: c.baud })
}

proof fn lemma_feed_cons(start: (SessionModel, Action), r: Reply, rest: Seq<Reply>)
    ensures
        feed(start, seq![r] + rest) == feed(start.0.resume(r), rest),
{
    assert((seq![r] + rest).drop_first() =~= rest);
    assert((seq![r] + rest)[0] == r);
}

/// Channel initialisations from index `k` on, all successful, only add their
/// "initialised" entries before open goes on past the channels.
proof fn lemma_inits_succeed(s: SessionModel, k: int, inits: Seq<Reply>, tail: Seq<Reply>)
    requires
        s.wf(),
        0 <= k <= s.channels.len(),
        inits.len() == s.channels.len(),
        forall|i: int| k <= i < inits.len() ==> #[trigger] s.adapter.succeeded(inits[i]),
    ensures
        feed(s.init_from(k), inits.subrange(k, inits.len() as int) + tail) == feed(
            SessionModel { log: s.log + init_entries(s.channels.subrange(k, s.channels.len() as int)), ..s }.init_from(
                s.channels.len() as int,
            ),
            tail,
        ),
    decreases s.channels.len() - k,
{
    let n = s.channels.len() as int;
    if k < n {
        let c = s.channels[k];
        let s1 = s.init_from(k).0;
        assert(inits.subrange(k, n) + tail =~= seq![inits[k]] + (inits.subrange(k + 1, n) + tail));
        lemma_feed_cons(s.init_from(k), inits[k], inits.subrange(k + 1, n) + tail);
        let s2 = s1.logged(LogEntry::ChannelInitialized { channel: c.channel_id, baud: c.baud });
        assert(s.adapter.succeeded(inits[k]));
        assert(s1.resume(inits[k]) == s2.init_from(k + 1));
        lemma_inits_succeed(s2, k + 1, inits, tail);
        assert(s2.log + init_entries(s.channels.subrange(k + 1, n)) =~= s.log + init_entries(
            s.channels.subrange(k, n),
        ));
    } else {
        assert(inits.subrange(k, n) + tail =~= tail);
        assert(s.log + init_entries(s.channels.subrange(k, n)) =~= s.log);
    }
}

/// When the device opens and every channel initialisation succeeds, and the
/// board information is read, `open` succeeds: the session is initialised,
/// and its last log entry is the board summary.
pub proof fn lemma_open_succeeds(
    s: SessionModel,
    open_reply: Reply,
    inits: Seq<Reply>,
    settings: Seq<Reply>,
    board: Reply,
)
    requires
        s.wf(),
        s.state == SessionState::Closed,
        s.step == Step::Idle,
        s.adapter.opened(open_reply),
        inits.len() == s.channels.len(),
        forall|i: int| 0 <= i < inits.len() ==> #[trigger] s.adapter.succeeded(inits[i]),
        settings.len() == (if s.adapter is Pcan { 3int } else { 0int }),
        s.adapter.succeeded(board),
    ensures
        ({
            let (t, a) = feed(s.open(), seq![open_reply] + inits + settings + seq![board]);
            &&& a == Action::Done(Ok(()))
            &&& t.initialized
            &&& t.state == SessionState::Initialized
            &&& t.step == Step::Idle
            &&& t.log.last() == board_entry(board)
        }),
{
    let n = s.channels.len() as int;
    let tail = settings + seq![board];
    assert(seq![open_reply] + inits + settings + seq![board] =~= seq![open_reply] + (inits.subrange(0, n) + tail));
    lemma_feed_cons(s.open(), open_reply, inits.subrange(0, n) + tail);
    let s1 = s.open().0.logged(LogEntry::DeviceOpened);
    assert(s.open().0.resume(open_reply) == s1.init_from(0));
    lemma_inits_succeed(s1, 0, inits, tail);
    let s2 = SessionModel { log: s1.log + init_entries(s1.channels.subrange(0, n)), ..s1 };
    let p = s2.init_from(n);
    match s.adapter {
        Adapter::ControlCan { .. } => {
            assert(tail =~= seq![board] + Seq::<Reply>::empty());
            lemma_feed_cons(p, board, Seq::empty());
        },
        Adapter::Pcan { .. } => {
            assert(tail =~= seq![settings[0]] + (seq![settings[1]] + (seq![settings[2]] + (seq![board] + Seq::<Reply>::empty()))));
            lemma_feed_cons(p, settings[0], seq![settings[1]] + (seq![settings[2]] + (seq![board] + Seq::<Reply>::empty())));
            let filtered = p.0.resume(settings[0]);
            lemma_feed_cons(filtered, settings[1], seq![settings[2]] + (seq![board] + Seq::<Reply>::empty()));
            let talking = filtered.0.resume(settings[1]);
            lemma_feed_cons(talking, settings[2], seq![board] + Seq::<Reply>::empty());
            let configured = talking.0.resume(settings[2]);
            lemma_feed_cons(configured, board, Seq::empty());
        },
    }
}

/// When the device opens, the channels before index `k` initialise and
/// channel `k` fails, `open` issues exactly one device close and then fails
/// with an error that names channel `k` and the driver's code; the session
/// ends closed and not initialised.
pub proof fn lemma_open_rolls_back(
    s: SessionModel,
    open_reply: Reply,
    k: int,
    inits: Seq<Reply>,
    failed: Reply,
    close_reply: Reply,
)
    requires
        s.wf(),
        s.state == SessionState::Closed,
        s.step == Step::Idle,
        s.adapter.opened(open_reply),
        0 <= k < s.channels.len(),
        inits.len() == k,
        forall|i: int| 0 <= i < k ==> #[trigger] s.adapter.succeeded(inits[i]),
        !s.adapter.succeeded(failed),
    ensures
        feed(s.open(), seq![open_reply] + inits + seq![failed]).1 == Action::Call(s.adapter.close_call()),
        ({
            let (t, a) = feed(s.open(), seq![open_reply] + inits + seq![failed, close_reply]);
            &&& a == Action::Done(
                Err(SessionError::ChannelInit { channel: s.channels[k].channel_id, code: reply_code(failed) }),
            )
            &&& !t.initialized
            &&& t.state == SessionState::Closed
            &&& t.step == Step::Idle
            &&& t.log.last() == LogEntry::DeviceClosed { status: reply_code(close_reply) }
        }),
{
    lemma_open_rolls_back_tail(s, open_reply, k, inits, failed, Seq::empty());
    lemma_open_rolls_back_tail(s, open_reply, k, inits, failed, seq![close_reply]);
    assert(seq![open_reply] + inits + seq![failed] =~= seq![open_reply] + (inits + (seq![failed] + Seq::<Reply>::empty())));
    assert(seq![open_reply] + inits + seq![failed, close_reply] =~= seq![open_reply] + (inits + (seq![failed] + seq![close_reply])));
    let sk = open_prefix(s, k);
    let c = s.channels[k];
    let rolled = sk.at(Step::InitChannel(k as usize)).logged(
        LogEntry::ChannelInitFailed { channel: c.channel_id, code: reply_code(failed) },
    ).at(Step::Rollback(k as usize, reply_code(failed)));
    lemma_feed_cons((rolled, Action::Call(s.adapter.close_call())), close_reply, Seq::empty());
}

/// The session once open has got past the device-open call and the first
/// `k` channels.
spec fn open_prefix(s: SessionModel, k: int) -> SessionModel {
    SessionModel {
        log: s.log.push(LogEntry::DeviceOpened) + init_entries(s.channels.subrange(0, k)),
        ..s.open().0
    }
}

proof fn lemma_open_rolls_back_tail(
    s: SessionModel,
    open_reply: Reply,
    k: int,
    inits: Seq<Reply>,
    failed: Reply,
    tail: Seq<Reply>,
)
    requires
        s.wf(),
        s.state == SessionState::Closed,
        s.step == Step::Idle,
        s.adapter.opened(open_reply),
        0 <= k < s.channels.len(),
        inits.len() == k,
        forall|i: int| 0 <= i < k ==> #[trigger] s.adapter.succeeded(inits[i]),
        !s.adapter.succeeded(failed),
    ensures
        feed(s.open(), seq![open_reply] + (inits + (seq![failed] + tail))) == feed(
            (
                open_prefix(s, k).at(Step::InitChannel(k as usize)).logged(
                    LogEntry::ChannelInitFailed { channel: s.channels[k].channel_id, code: reply_code(failed) },
                ).at(Step::Rollback(k as usize, reply_code(failed))),
                Action::Call(s.adapter.close_call()),
            ),
            tail,
        ),
{
    let rest = inits + (seq![failed] + tail);
    assert(inits.subrange(0, k) =~= inits);
    lemma_feed_cons(s.open(), open_reply, rest);
    let s1 = s.open().0.logged(LogEntry::DeviceOpened);
    assert(s.open().0.resume(open_reply) == s1.init_from(0));
    lemma_inits_prefix(s1, 0, k, inits, seq![failed] + tail);
    let sk = open_prefix(s, k);
    assert(SessionModel { log: s1.log + init_entries(s1.channels.subrange(0, k)), ..s1 } == sk);
    lemma_feed_cons(sk.init_from(k), failed, tail);
    assert(sk.init_from(k).0 == sk.at(Step::InitChannel(k as usize)));
}

/// Like `lemma_inits_succeed`, but stopping at channel `m` with replies to spare.
proof fn lemma_inits_prefix(s: SessionModel, k: int, m: int, inits: Seq<Reply>, tail: Seq<Reply>)
    requires
        s.wf(),
        0 <= k <= m <= s.channels.len(),
        inits.len() == m,
        forall|i: int| k <= i < m ==> #[trigger] s.adapter.succeeded(inits[i]),
    ensures
        feed(s.init_from(k), inits.subrange(k, m) + tail) == feed(
            SessionModel { log: s.log + init_entries(s.channels.subrange(k, m)), ..s }.init_from(m),
            tail,
        ),
    decreases m - k,
{
    if k < m {
        let c = s.channels[k];
        let s1 = s.init_from(k).0;
        assert(inits.subrange(k, m) + tail =~= seq![inits[k]] + (inits.subrange(k + 1, m) + tail));
        lemma_feed_cons(s.init_from(k), inits[k], inits.subrange(k + 1, m) + tail);
        let s2 = s1.logged(LogEntry::ChannelInitialized { channel: c.channel_id, baud: c.baud });
        assert(s.adapter.succeeded(inits[k]));
        assert(s1.resume(inits[k]) == s2.init_from(k + 1));
        lemma_inits_prefix(s2, k + 1, m, inits, tail);
        assert(s2.log + init_entries(s.channels.subrange(k + 1, m)) =~= s.log + init_entries(
            s.channels.subrange(k, m),
        ));
    } else {
        assert(inits.subrange(k, m) + tail =~= tail);
        assert(s.log + init_entries(s.channels.subrange(k, m)) =~= s.log);
    }
}

/// The replies that a close of `s` waits for: the end of the pollers when
/// it is receiving, then the status of the device close.
pub open spec fn close_replies(s: SessionModel, status: Reply) -> Seq<Reply> {
    if s.state == SessionState::Receiving {
        seq![Reply::Joined, status]
    } else {
        seq![status]
    }
}

/// Closing twice in a row is harmless: both closes end without error, each
/// logs the driver's close status, and nothing else is logged but the end of
/// the pollers that ran. The session ends closed.
pub proof fn lemma_close_twice(s: SessionModel, first: Reply, second: Reply)
    requires
        s.wf(),
        s.step == Step::Idle,
    ensures
        ({
            let (t1, a1) = feed(s.close(), close_replies(s, first));
            let (t2, a2) = feed(t1.close(), seq![second]);
            &&& a1 == Action::Done(Ok(()))
            &&& a2 == Action::Done(Ok(()))
            &&& t2.state == SessionState::Closed
            &&& !t2.initialized
            &&& t2.step == Step::Idle
            &&& t2.pollers.len() == 0
            &&& t2.log == s.log + (if s.state == SessionState::Receiving {
                stopped_entries(s.pollers)
            } else {
                Seq::empty()
            }) + seq![
                LogEntry::DeviceClosed { status: reply_code(first) },
                LogEntry::DeviceClosed { status: reply_code(second) },
            ]
        }),
{
    if s.state == SessionState::Receiving {
        assert(seq![Reply::Joined, first] =~= seq![Reply::Joined] + (seq![first] + Seq::<Reply>::empty()));
        lemma_feed_cons(s.close(), Reply::Joined, seq![first] + Seq::<Reply>::empty());
        lemma_feed_cons(s.close().0.resume(Reply::Joined), first, Seq::empty());
    } else {
        assert(seq![first] =~= seq![first] + Seq::<Reply>::empty());
        lemma_feed_cons(s.close(), first, Seq::empty());
    }
    let t1 = feed(s.close(), close_replies(s, first)).0;
    assert(seq![second] =~= seq![second] + Seq::<Reply>::empty());
    lemma_feed_cons(t1.close(), second, Seq::empty());
    let t2 = feed(t1.close(), seq![second]).0;
    if s.state == SessionState::Receiving {
        assert(t2.log =~= s.log + stopped_entries(s.pollers) + seq![
            LogEntry::DeviceClosed { status: reply_code(first) },
            LogEntry::DeviceClosed { status: reply_code(second) },
        ]);
    } else {
        assert(t2.log =~= s.log + Seq::<LogEntry>::empty() + seq![
            LogEntry::DeviceClosed { status: reply_code(first) },
            LogEntry::DeviceClosed { status: reply_code(second) },
        ]);
    }
}

/// The channels whose start call succeeded, in order (VCI adapters).
pub open spec fn started_ids(a: Adapter, channels: Seq<ChannelSpec>, starts: Seq<Reply>) -> Seq<u32>
    decreases channels.len(),
{
    if channels.len() == 0 || starts.len() == 0 {
        Seq::empty()
    } else {
        let rest = started_ids(a, channels.drop_first(), starts.drop_first());
        if a.succeeded(starts[0]) {
            seq![channels[0].channel_id] + rest
        } else {
            rest
        }
    }
}

/// The log entries of the start calls, in order (VCI adapters).
pub open spec fn start_entries(a: Adapter, channels: Seq<ChannelSpec>, starts: Seq<Reply>) -> Seq<LogEntry>
    decreases channels.len(),
{
    if channels.len() == 0 || starts.len() == 0 {
        Seq::empty()
    } else {
        let rest = start_entries(a, channels.drop_first(), starts.drop_first());
        let c = channels[0].channel_id;
        if a.succeeded(starts[0]) {
            seq![LogEntry::ChannelStarted { channel: c }] + rest
        } else {
            seq![LogEntry::ChannelStartFailed { channel: c, code: reply_code(starts[0]) }] + rest
        }
    }
}

/// The channels that get a poller when `s` starts receiving and the start
/// calls are answered with `starts`.
pub open spec fn polled_channels(s: SessionModel, starts: Seq<Reply>) -> Seq<u32> {
    match s.adapter {
        Adapter::ControlCan { .. } => started_ids(s.adapter, s.channels, starts),
        Adapter::Pcan { .. } => channel_ids(s.channels),
    }
}

proof fn lemma_starts(s: SessionModel, k: int, starts: Seq<Reply>)
    requires
        s.wf(),
        s.adapter is ControlCan,
        0 <= k <= s.channels.len(),
        starts.len() == s.channels.len(),
    ensures
        feed(s.start_from(k), starts.subrange(k, starts.len() as int)) == (
            SessionModel {
                state: SessionState::Receiving,
                step: Step::Idle,
                pollers: s.pollers + started_ids(
                    s.adapter,
                    s.channels.subrange(k, s.channels.len() as int),
                    starts.subrange(k, starts.len() as int),
                ),
                log: s.log + start_entries(
                    s.adapter,
                    s.channels.subrange(k, s.channels.len() as int),
                    starts.subrange(k, starts.len() as int),
                ),
                ..s
            },
            Action::Spawn,
        ),
    decreases s.channels.len() - k,
{
    let n = s.channels.len() as int;
    let cs = s.channels.subrange(k, n);
    let rs = starts.subrange(k, n);
    if k < n {
        let ch = s.channels[k].channel_id;
        assert(rs =~= seq![starts[k]] + starts.subrange(k + 1, n));
        lemma_feed_cons(s.start_from(k), starts[k], starts.subrange(k + 1, n));
        assert(cs.drop_first() =~= s.channels.subrange(k + 1, n));
        assert(rs.drop_first() =~= starts.subrange(k + 1, n));
        let s1 = s.start_from(k).0;
        if s.adapter.succeeded(starts[k]) {
            let s2 = SessionModel {
                pollers: s1.pollers.push(ch),
                ..s1.logged(LogEntry::ChannelStarted { channel: ch })
            };
            assert(s1.resume(starts[k]) == s2.start_from(k + 1));
            lemma_starts(s2, k + 1, starts);
            assert(s2.pollers + started_ids(s.adapter, s.channels.subrange(k + 1, n), starts.subrange(k + 1, n))
                =~= s.pollers + started_ids(s.adapter, cs, rs));
            assert(s2.log + start_entries(s.adapter, s.channels.subrange(k + 1, n), starts.subrange(k + 1, n))
                =~= s.log + start_entries(s.adapter, cs, rs));
        } else {
            let s2 = s1.logged(LogEntry::ChannelStartFailed { channel: ch, code: reply_code(starts[k]) });
            assert(s1.resume(starts[k]) == s2.start_from(k + 1));
            lemma_starts(s2, k + 1, starts);
            assert(s2.log + start_entries(s.adapter, s.channels.subrange(k + 1, n), starts.subrange(k + 1, n))
                =~= s.log + start_entries(s.adapter, cs, rs));
        }
    } else {
        assert(rs =~= Seq::<Reply>::empty());
        assert(s.pollers + started_ids(s.adapter, cs, rs) =~= s.pollers);
        assert(s.log + start_entries(s.adapter, cs, rs) =~= s.log);
    }
}

/// Starting to receive and then stopping at once leaves no poller behind:
/// the stop waits for the pollers, and logs one "stopped receiving" entry
/// for each channel that started, in order; the session is back to
/// `Initialized`.
pub proof fn lemma_start_then_stop(s: SessionModel, starts: Seq<Reply>)
    requires
        s.wf(),
        s.step == Step::Idle,
        s.state == SessionState::Initialized,
        starts.len() == (if s.adapter is ControlCan { s.channels.len() as int } else { 0int }),
    ensures
        ({
            let (t1, a1) = feed(s.start(), starts);
            let (t2, a2) = t1.stop();
            let (t3, a3) = t2.resume(Reply::Joined);
            &&& a1 == Action::Spawn
            &&& t1.state == SessionState::Receiving
            &&& t1.pollers == polled_channels(s, starts)
            &&& a2 == Action::Join
            &&& a3 == Action::Done(Ok(()))
            &&& t3.pollers.len() == 0
            &&& t3.state == SessionState::Initialized
            &&& t3.step == Step::Idle
            &&& t3.log == t1.log + stopped_entries(polled_channels(s, starts))
            &&& forall|i: int| 0 <= i < t1.pollers.len() ==> t3.log.contains(
                LogEntry::StoppedReceiving { channel: #[trigger] t1.pollers[i] },
            )
        }),
{
    let n = s.channels.len() as int;
    match s.adapter {
        Adapter::ControlCan { .. } => {
            let s0 = SessionModel { pollers: Seq::empty(), ..s };
            lemma_starts(s0, 0, starts);
            assert(starts.subrange(0, n) =~= starts);
            assert(s.channels.subrange(0, n) =~= s.channels);
            assert(Seq::<u32>::empty() + started_ids(s.adapter, s.channels, starts) =~= started_ids(
                s.adapter,
                s.channels,
                starts,
            ));
        },
        Adapter::Pcan { .. } => {
            assert(starts =~= Seq::<Reply>::empty());
        },
    }
    let (t1, a1) = feed(s.start(), starts);
    let t3 = t1.stop().0.resume(Reply::Joined).0;
    assert forall|i: int| 0 <= i < t1.pollers.len() implies t3.log.contains(
        LogEntry::StoppedReceiving { channel: #[trigger] t1.pollers[i] },
    ) by {
        assert(t3.log[t1.log.len() + i] == LogEntry::StoppedReceiving { channel: t1.pollers[i] });
    }
}

} // verus!
