//! The protocol driver: frames, transactions and the dispatch policy.

use vstd::prelude::*;
use vstd::string::StringExecFns;
use crate::cmd::CMD;
use crate::cmd::CmdMap;
use crate::decimal::decimal;
use crate::decimal::push_decimal;
use crate::wire::le_bytes;
use crate::wire::le_word;
use crate::wire::word_from_le;
use crate::wire::word_to_le;

verus! {

/// Why a transaction with the peripheral failed.
#[derive(Copy, Clone, Debug, PartialEq, Eq, Structural)]
pub enum FocCtrlError {
    /// The bus refused a write.
    WriteErr,
    /// The bus refused a read.
    ReadErr,
    /// The bus refused a write followed by a read.
    WriteReadErr,
    /// The peripheral answered for another identifier than the one asked.
    WriteReadMatchErr,
}

/// One decoded answer of the peripheral.
///
/// `first`, `second` and `third` hold IEEE-754 binary32 bit patterns.
#[derive(Clone, Debug, PartialEq, Eq)]
pub struct RxData {
    pub motor_id: u8,
    pub cmd_id: u8,
    pub cmd_key: String,
    pub first: u32,
    pub second: u32,
    pub third: u32,
}

/// What an `RxData` holds, as plain values.
pub ghost struct RxFrame {
    pub motor_id: u8,
    pub cmd_id: u8,
    pub cmd_key: Seq<char>,
    pub first: u32,
    pub second: u32,
    pub third: u32,
}

impl View for RxData {
    type V = RxFrame;

    open spec fn view(&self) -> RxFrame {
        RxFrame {
            motor_id: self.motor_id,
            cmd_id: self.cmd_id,
            cmd_key: self.cmd_key@,
            first: self.first,
            second: self.second,
            third: self.third,
        }
    }
}

/// Bytes of an outgoing command: the identifier and one value.
pub const CMD_LEN: usize = 5;

/// Bytes of an answer that carry meaning: the identifier and three fields.
pub const REPLY_LEN: usize = 13;

/// Bytes asked for by a passive read; those past `REPLY_LEN` are padding.
pub const READ_LEN: usize = 20;

/// The wire form of `cmd`: its identifier, then its value's four bytes,
/// least significant first.
pub open spec fn cmd_frame(cmd: CMD) -> Seq<u8> {
    seq![cmd.id] + le_bytes(cmd.val)
}

/// The answer that the first `REPLY_LEN` bytes of `buf` spell, as received
/// from the device at `motor_id`.
pub open spec fn reply_frame(motor_id: u8, buf: Seq<u8>) -> RxFrame
    recommends
        buf.len() >= REPLY_LEN,
{
    RxFrame {
        motor_id,
        cmd_id: buf[0],
        cmd_key: Seq::empty(),
        first: le_word(buf, 1),
        second: le_word(buf, 5),
        third: le_word(buf, 9),
    }
}

/// The answer that stands for "nothing was read": every field zero.
pub open spec fn blank_frame(motor_id: u8) -> RxFrame {
    RxFrame { motor_id, cmd_id: 0, cmd_key: Seq::empty(), first: 0, second: 0, third: 0 }
}

/// Encodes `cmd` for the wire.
pub fn encode_cmd(cmd: CMD) -> (buf: [u8; 5])
    ensures
        buf@ == cmd_frame(cmd),
{
    let val: [u8; 4] = word_to_le(cmd.val);
    let buf: [u8; 5] = [cmd.id, val[0], val[1], val[2], val[3]];
    assert(buf@ =~= cmd_frame(cmd));
    buf
}

/// Decodes the answer at the start of `buf`.
pub fn decode_reply(motor_id: u8, buf: &[u8]) -> (data: RxData)
    requires
        buf@.len() >= REPLY_LEN,
    ensures
        data@ == reply_frame(motor_id, buf@),
{
    RxData {
        motor_id,
        cmd_id: buf[0],
        cmd_key: String::new(),
        first: word_from_le(buf, 1),
        second: word_from_le(buf, 5),
        third: word_from_le(buf, 9),
    }
}

/// The all-zero answer for the device at `motor_id`.
pub fn blank_data(motor_id: u8) -> (data: RxData)
    ensures
        data@ == blank_frame(motor_id),
{
    RxData { motor_id, cmd_id: 0, cmd_key: String::new(), first: 0, second: 0, third: 0 }
}

/// An outcome with its answer, if any, taken as plain values.
pub open spec fn frame_result(r: Result<RxData, FocCtrlError>) -> Result<RxFrame, FocCtrlError> {
    match r {
        Ok(data) => Ok(data@),
        Err(e) => Err(e),
    }
}

/// What a fire-and-forget write comes to: nothing on delivery, `WriteErr`
/// where the bus refused.
pub open spec fn write_outcome(delivered: bool) -> Result<(), FocCtrlError> {
    if delivered {
        Ok(())
    } else {
        Err(FocCtrlError::WriteErr)
    }
}

/// What a passive read comes to: the decoded answer, whatever identifier
/// it bears, or `ReadErr` where the bus refused.
pub open spec fn read_outcome(motor_id: u8, received: bool, buf: Seq<u8>) -> Result<
    RxFrame,
    FocCtrlError,
> {
    if received {
        Ok(reply_frame(motor_id, buf))
    } else {
        Err(FocCtrlError::ReadErr)
    }
}

/// What an exchange for `cmd_id` comes to: `WriteReadErr` where the bus
/// refused, `WriteReadMatchErr` where the answer bears another
/// identifier, and the decoded answer otherwise.
pub open spec fn exchange_outcome(motor_id: u8, cmd_id: u8, completed: bool, buf: Seq<u8>) -> Result<
    RxFrame,
    FocCtrlError,
> {
    if !completed {
        Err(FocCtrlError::WriteReadErr)
    } else if buf[0] != cmd_id {
        Err(FocCtrlError::WriteReadMatchErr)
    } else {
        Ok(reply_frame(motor_id, buf))
    }
}

/// Concludes a write from what the bus reported.
pub fn conclude_write<E>(reply: Result<(), E>) -> (r: Result<(), FocCtrlError>)
    ensures
        r == write_outcome(reply is Ok),
{
    match reply {
        Ok(_) => Ok(()),
        Err(_) => Err(FocCtrlError::WriteErr),
    }
}

/// Concludes a passive read from what the bus reported and left in `buf`.
pub fn conclude_read<E>(motor_id: u8, reply: Result<(), E>, buf: &[u8; 20]) -> (r: Result<
    RxData,
    FocCtrlError,
>)
    ensures
        frame_result(r) == read_outcome(motor_id, reply is Ok, buf@),
{
    match reply {
        Ok(_) => Ok(decode_reply(motor_id, buf.as_slice())),
        Err(_) => Err(FocCtrlError::ReadErr),
    }
}

/// Concludes an exchange for `cmd_id` from what the bus reported and left
/// in `buf`. An answer for another identifier is discarded.
pub fn conclude_exchange<E>(motor_id: u8, cmd_id: u8, reply: Result<(), E>, buf: &[u8; 13]) -> (r:
    Result<RxData, FocCtrlError>)
    ensures
        frame_result(r) == exchange_outcome(motor_id, cmd_id, reply is Ok, buf@),
{
    match reply {
        Ok(_) => {
            if buf[0] != cmd_id {
                Err(FocCtrlError::WriteReadMatchErr)
            } else {
                Ok(decode_reply(motor_id, buf.as_slice()))
            }
        },
        Err(_) => Err(FocCtrlError::WriteReadErr),
    }
}

/// The kind of transaction that an identifier calls for.
#[derive(Copy, Clone, Debug, PartialEq, Eq, Structural)]
pub enum Route {
    /// Actuation and configuration: one write, no answer.
    Write,
    /// Telemetry: one write followed by a read.
    Exchange,
    /// Configuration of the driver itself: the bus is not used.
    Local,
    /// The reserved identifier: nothing is done.
    Idle,
}

/// The band of `cmd_id`: 1 to 99 are written, 100 to 199 exchanged, 200
/// and above stay with the driver, and 0 does nothing.
pub open spec fn route_of(cmd_id: u8) -> Route {
    if 1 <= cmd_id < 100 {
        Route::Write
    } else if 100 <= cmd_id < 200 {
        Route::Exchange
    } else if cmd_id >= 200 {
        Route::Local
    } else {
        Route::Idle
    }
}

/// Picks the kind of transaction for `cmd_id`.
pub fn route(cmd_id: u8) -> (r: Route)
    ensures
        r == route_of(cmd_id),
{
    if cmd_id > 0 && cmd_id < 100 {
        Route::Write
    } else if cmd_id >= 100 && cmd_id < 200 {
        Route::Exchange
    } else if cmd_id >= 200 {
        Route::Local
    } else {
        Route::Idle
    }
}

/// What dispatching `cmd` comes to, given how its one bus transaction, if
/// it has one, went: `done` tells whether the bus completed it and `buf`
/// what an exchange left behind.
pub open spec fn loop_outcome(motor_id: u8, cmd: CMD, done: bool, buf: Seq<u8>) -> Result<
    RxFrame,
    FocCtrlError,
> {
    match route_of(cmd.id) {
        Route::Write => match write_outcome(done) {
            Ok(_) => Ok(blank_frame(motor_id)),
            Err(e) => Err(e),
        },
        Route::Exchange => exchange_outcome(motor_id, cmd.id, done, buf),
        Route::Local => Ok(RxFrame { first: cmd.val, ..blank_frame(motor_id) }),
        Route::Idle => Ok(blank_frame(motor_id)),
    }
}

/// A command's frame is `CMD_LEN` bytes long, opens with the identifier,
/// and its value decodes from the bytes behind it bit for bit.
pub proof fn lemma_cmd_round_trip(cmd: CMD)
    ensures
        cmd_frame(cmd).len() == CMD_LEN,
        cmd_frame(cmd)[0] == cmd.id,
        cmd_frame(cmd).subrange(1, 5) == le_bytes(cmd.val),
        le_word(cmd_frame(cmd), 1) == cmd.val,
{
    assert(cmd_frame(cmd).subrange(1, 5) =~= le_bytes(cmd.val));
}

/// An answer decodes to the identifier and the three fields that it was
/// made of, bit for bit, whatever follows the first `REPLY_LEN` bytes.
pub proof fn lemma_reply_round_trip(
    motor_id: u8,
    cmd_id: u8,
    first: u32,
    second: u32,
    third: u32,
    padding: Seq<u8>,
)
    ensures
        reply_frame(
            motor_id,
            seq![cmd_id] + le_bytes(first) + le_bytes(second) + le_bytes(third) + padding,
        ) == (RxFrame { motor_id, cmd_id, cmd_key: Seq::empty(), first, second, third }),
{
    let buf = seq![cmd_id] + le_bytes(first) + le_bytes(second) + le_bytes(third) + padding;
    assert(buf[0] == cmd_id);
    assert(buf.subrange(1, 5) =~= le_bytes(first));
    assert(buf.subrange(5, 9) =~= le_bytes(second));
    assert(buf.subrange(9, 13) =~= le_bytes(third));
    crate::wire::lemma_word_embedded(buf, 1, first);
    crate::wire::lemma_word_embedded(buf, 5, second);
    crate::wire::lemma_word_embedded(buf, 9, third);
}

/// An exchange succeeds exactly when the bus completed it and the answer
/// bears the identifier asked for; what it then returns is that answer.
pub proof fn lemma_exchange_validates(motor_id: u8, cmd_id: u8, completed: bool, buf: Seq<u8>)
    ensures
        exchange_outcome(motor_id, cmd_id, completed, buf) is Ok <==> completed && buf[0] == cmd_id,
        exchange_outcome(motor_id, cmd_id, completed, buf) is Ok ==> exchange_outcome(
            motor_id,
            cmd_id,
            completed,
            buf,
        ) == Ok::<RxFrame, FocCtrlError>(reply_frame(motor_id, buf)) && reply_frame(
            motor_id,
            buf,
        ).cmd_id == cmd_id,
        completed && buf[0] != cmd_id ==> exchange_outcome(motor_id, cmd_id, completed, buf) == Err::<
            RxFrame,
            FocCtrlError,
        >(FocCtrlError::WriteReadMatchErr),
{
}

/// Dispatch by band: identifiers 1 to 99 come to the blank frame once
/// written, 100 to 199 to what the exchange for that identifier comes to,
/// 200 and above to the blank frame carrying the command's value, and 0
/// to the blank frame; the last two whatever the bus would have done.
pub proof fn lemma_dispatch_bands(motor_id: u8, cmd: CMD, done: bool, buf: Seq<u8>)
    ensures
        1 <= cmd.id < 100 ==> loop_outcome(motor_id, cmd, done, buf) == if done {
            Ok::<RxFrame, FocCtrlError>(blank_frame(motor_id))
        } else {
            Err::<RxFrame, FocCtrlError>(FocCtrlError::WriteErr)
        },
        100 <= cmd.id < 200 ==> loop_outcome(motor_id, cmd, done, buf) == exchange_outcome(
            motor_id,
            cmd.id,
            done,
            buf,
        ),
        cmd.id >= 200 ==> loop_outcome(motor_id, cmd, done, buf) == Ok::<RxFrame, FocCtrlError>(
            RxFrame { first: cmd.val, ..blank_frame(motor_id) },
        ),
        cmd.id == 0 ==> loop_outcome(motor_id, cmd, done, buf) == Ok::<RxFrame, FocCtrlError>(
            blank_frame(motor_id),
        ),
{
}

/// A failure of the bus ends the transaction with the error of its kind,
/// whatever the buffer holds.
pub proof fn lemma_bus_failure(motor_id: u8, cmd_id: u8, buf: Seq<u8>)
    ensures
        write_outcome(false) == Err::<(), FocCtrlError>(FocCtrlError::WriteErr),
        read_outcome(motor_id, false, buf) == Err::<RxFrame, FocCtrlError>(FocCtrlError::ReadErr),
        exchange_outcome(motor_id, cmd_id, false, buf) == Err::<RxFrame, FocCtrlError>(
            FocCtrlError::WriteReadErr,
        ),
{
}

/// The two-wire bus that reaches the peripheral: blocking transactions
/// addressed by one byte.
///
/// The driver assumes nothing of an implementation: each method may
/// succeed or fail as it pleases and leave anything in `buffer`.
pub trait BusTransport {
    /// What the bus reports when a transaction fails.
    type Error;

    /// Sends `bytes` to the device at `address`.
    fn write(&mut self, address: u8, bytes: &[u8]) -> Result<(), Self::Error>;

    /// Fills `buffer` from the device at `address`.
    fn read(&mut self, address: u8, buffer: &mut [u8]) -> Result<(), Self::Error>;

    /// Sends `bytes` to the device at `address`, then fills `buffer` from
    /// it, as one transaction.
    fn write_read(&mut self, address: u8, bytes: &[u8], buffer: &mut [u8]) -> Result<
        (),
        Self::Error,
    >;
}

/// The transactions that a driver offers.
pub trait FocCtrlInterface {
    /// Sends `cmd` and reads nothing back.
    fn send_cmd(&mut self, cmd: CMD) -> Result<(), FocCtrlError>;

    /// Reads whatever the peripheral last reported.
    fn read_data(&mut self) -> Result<RxData, FocCtrlError>;

    /// Asks for `cmd_id` and reads the answer.
    fn exchange(&mut self, cmd_id: u8) -> Result<RxData, FocCtrlError>;

    /// Asks for the `stream_q` telemetry.
    fn read_q(&mut self) -> Result<RxData, FocCtrlError>;

    /// Asks for the `stream_current` telemetry.
    fn read_current(&mut self) -> Result<RxData, FocCtrlError>;

    /// Asks for the `stream_states` telemetry.
    fn read_states(&mut self) -> Result<RxData, FocCtrlError>;

    /// Asks for the `stream_time` telemetry.
    fn read_time(&mut self) -> Result<RxData, FocCtrlError>;
}

/// What the driver asked of the bus in one transaction.
pub ghost enum BusRequest {
    /// Send `bytes` to `address`.
    Write { address: u8, bytes: Seq<u8> },
    /// Fill a buffer of `len` bytes from `address`.
    Read { address: u8, len: nat },
    /// Send `bytes` to `address`, then fill a buffer of `len` bytes from it.
    WriteRead { address: u8, bytes: Seq<u8>, len: nat },
}

/// One transaction on the bus: what was asked, whether the bus completed
/// it, and what the receive buffer held afterwards (nothing for a write).
pub ghost struct BusCall {
    pub request: BusRequest,
    pub done: bool,
    pub buffer: Seq<u8>,
}

/// Whether `after` is `before` and one more transaction.
pub open spec fn one_more(before: Seq<BusCall>, after: Seq<BusCall>) -> bool {
    after.len() == before.len() + 1 && after == before.push(after.last())
}

/// The transaction that dispatching `cmd` to the device at `address`
/// makes, if it makes one.
pub open spec fn loop_request(address: u8, cmd: CMD) -> Option<BusRequest> {
    match route_of(cmd.id) {
        Route::Write => Some(BusRequest::Write { address, bytes: cmd_frame(cmd) }),
        Route::Exchange => Some(
            BusRequest::WriteRead { address, bytes: seq![cmd.id], len: REPLY_LEN as nat },
        ),
        Route::Local => None,
        Route::Idle => None,
    }
}

/// What dispatch asks of the bus, by band: identifiers 1 to 99 one write
/// of the command's frame, 100 to 199 the one exchange that asks for the
/// identifier, and every other identifier nothing at all.
pub proof fn lemma_dispatch_requests(address: u8, cmd: CMD)
    ensures
        1 <= cmd.id < 100 ==> loop_request(address, cmd) == Some(
            BusRequest::Write { address, bytes: cmd_frame(cmd) },
        ),
        100 <= cmd.id < 200 ==> loop_request(address, cmd) == Some(
            BusRequest::WriteRead { address, bytes: seq![cmd.id], len: REPLY_LEN as nat },
        ),
        cmd.id >= 200 || cmd.id == 0 ==> loop_request(address, cmd) is None,
{
}

/// The driver of one peripheral: its bus, its address and the registry.
///
/// `trace` lists the transactions that the driver has made on the bus,
/// oldest first.
pub struct FocCtrl<I2C> {
    pub i2c: I2C,
    pub addr: u8,
    pub cmd_map: CmdMap,
    pub trace: Ghost<Seq<BusCall>>,
}

impl<I2C: BusTransport> FocCtrl<I2C> {
    /// A driver for the device at `addr` on `i2c`, with the fixed registry
    /// and no transaction made yet.
    pub fn new(i2c: I2C, addr: u8) -> (ctrl: Self)
        ensures
            ctrl.i2c == i2c,
            ctrl.addr == addr,
            ctrl.cmd_map@ == crate::cmd::command_table(),
            ctrl.cmd_map.wf(),
            ctrl.trace@ == Seq::<BusCall>::empty(),
    {
        Self { i2c, addr, cmd_map: CmdMap::new(), trace: Ghost(Seq::empty()) }
    }

    /// Whether `after` is `self` but for what the bus did and the trace.
    pub open spec fn same_device(&self, after: &Self) -> bool {
        after.addr == self.addr && after.cmd_map == self.cmd_map
    }

    /// Whether `after` is `self` after exactly the transaction `request`.
    pub open spec fn made(&self, after: &Self, request: BusRequest) -> bool {
        &&& self.same_device(after)
        &&& one_more(self.trace@, after.trace@)
        &&& after.trace@.last().request == request
    }

    fn bus_write(&mut self, bytes: &[u8]) -> (reply: Result<(), I2C::Error>)
        ensures
            old(self).made(
                final(self),
                BusRequest::Write { address: old(self).addr, bytes: bytes@ },
            ),
            final(self).trace@.last().done == (reply is Ok),
    {
        let reply = self.i2c.write(self.addr, bytes);
        proof {
            let call = BusCall {
                request: BusRequest::Write { address: self.addr, bytes: bytes@ },
                done: reply is Ok,
                buffer: Seq::empty(),
            };
            self.trace = Ghost(self.trace@.push(call));
        }
        reply
    }

    fn bus_read(&mut self, buffer: &mut [u8; 20]) -> (reply: Result<(), I2C::Error>)
        ensures
            old(self).made(
                final(self),
                BusRequest::Read { address: old(self).addr, len: READ_LEN as nat },
            ),
            final(self).trace@.last().done == (reply is Ok),
            final(self).trace@.last().buffer == final(buffer)@,
    {
        let reply = self.i2c.read(self.addr, buffer);
        proof {
            let call = BusCall {
                request: BusRequest::Read { address: self.addr, len: READ_LEN as nat },
                done: reply is Ok,
                buffer: buffer@,
            };
            self.trace = Ghost(self.trace@.push(call));
        }
        reply
    }

    fn bus_write_read(&mut self, bytes: &[u8], buffer: &mut [u8; 13]) -> (reply: Result<
        (),
        I2C::Error,
    >)
        ensures
            old(self).made(
                final(self),
                BusRequest::WriteRead {
                    address: old(self).addr,
                    bytes: bytes@,
                    len: REPLY_LEN as nat,
                },
            ),
            final(self).trace@.last().done == (reply is Ok),
            final(self).trace@.last().buffer == final(buffer)@,
    {
        let reply = self.i2c.write_read(self.addr, bytes, buffer);
        proof {
            let call = BusCall {
                request: BusRequest::WriteRead {
                    address: self.addr,
                    bytes: bytes@,
                    len: REPLY_LEN as nat,
                },
                done: reply is Ok,
                buffer: buffer@,
            };
            self.trace = Ghost(self.trace@.push(call));
        }
        reply
    }

    /// Dispatches `cmd` by the band of its identifier. Identifiers 1 to 99
    /// make one write of the command's frame and answer with the blank
    /// frame; 100 to 199 make one exchange and answer with what it comes
    /// to. The others leave the bus alone: 200 and above answer with the
    /// blank frame carrying `cmd.val`, and 0 with the blank frame.
    pub fn loop_cmd(&mut self, cmd: CMD) -> (r: Result<RxData, FocCtrlError>)
        ensures
            old(self).same_device(final(self)),
            match loop_request(old(self).addr, cmd) {
                Some(request) => {
                    &&& old(self).made(final(self), request)
                    &&& frame_result(r) == loop_outcome(
                        old(self).addr,
                        cmd,
                        final(self).trace@.last().done,
                        final(self).trace@.last().buffer,
                    )
                },
                None => {
                    &&& final(self).i2c == old(self).i2c
                    &&& final(self).trace@ == old(self).trace@
                    &&& frame_result(r) == loop_outcome(old(self).addr, cmd, true, Seq::empty())
                },
            },
    {
        match route(cmd.id) {
            Route::Write => {
                match self.send_cmd(cmd) {
                    Ok(_) => Ok(blank_data(self.addr)),
                    Err(e) => Err(e),
                }
            },
            Route::Exchange => self.exchange(cmd.id),
            Route::Local => {
                let mut data: RxData = blank_data(self.addr);
                data.first = cmd.val;
                Ok(data)
            },
            Route::Idle => Ok(blank_data(self.addr)),
        }
    }
}

impl<I2C: BusTransport> FocCtrlInterface for FocCtrl<I2C> {
    /// Makes one write of the frame of `cmd`; fails with `WriteErr` where
    /// the bus refuses it.
    fn send_cmd(&mut self, cmd: CMD) -> (r: Result<(), FocCtrlError>)
        ensures
            old(self).made(
                final(self),
                BusRequest::Write { address: old(self).addr, bytes: cmd_frame(cmd) },
            ),
            r == write_outcome(final(self).trace@.last().done),
    {
        let buf: [u8; 5] = encode_cmd(cmd);
        let reply = self.bus_write(&buf);
        conclude_write(reply)
    }

    /// Makes one read of `READ_LEN` bytes and decodes what came; fails
    /// with `ReadErr` where the bus refuses it.
    fn read_data(&mut self) -> (r: Result<RxData, FocCtrlError>)
        ensures
            old(self).made(
                final(self),
                BusRequest::Read { address: old(self).addr, len: READ_LEN as nat },
            ),
            final(self).trace@.last().buffer.len() == READ_LEN,
            frame_result(r) == read_outcome(
                old(self).addr,
                final(self).trace@.last().done,
                final(self).trace@.last().buffer,
            ),
    {
        let mut buf: [u8; 20] = [0u8; 20];
        let reply = self.bus_read(&mut buf);
        conclude_read(self.addr, reply, &buf)
    }

    /// Makes one write of `cmd_id` followed by a read of `REPLY_LEN`
    /// bytes; fails with `WriteReadErr` where the bus refuses it and with
    /// `WriteReadMatchErr` where the answer is for another identifier.
    fn exchange(&mut self, cmd_id: u8) -> (r: Result<RxData, FocCtrlError>)
        ensures
            old(self).made(
                final(self),
                BusRequest::WriteRead {
                    address: old(self).addr,
                    bytes: seq![cmd_id],
                    len: REPLY_LEN as nat,
                },
            ),
            final(self).trace@.last().buffer.len() == REPLY_LEN,
            frame_result(r) == exchange_outcome(
                old(self).addr,
                cmd_id,
                final(self).trace@.last().done,
                final(self).trace@.last().buffer,
            ),
    {
        let mut buf: [u8; 13] = [0u8; 13];
        let request: [u8; 1] = [cmd_id];
        assert(request@ =~= seq![cmd_id]);
        let reply = self.bus_write_read(&request, &mut buf);
        conclude_exchange(self.addr, cmd_id, reply, &buf)
    }

    /// The exchange for the identifier that the registry gives `stream_q`.
    fn read_q(&mut self) -> (r: Result<RxData, FocCtrlError>)
        ensures
            old(self).made(
                final(self),
                BusRequest::WriteRead {
                    address: old(self).addr,
                    bytes: seq![old(self).cmd_map.spec_key2id("stream_q"@)],
                    len: REPLY_LEN as nat,
                },
            ),
            frame_result(r) == exchange_outcome(
                old(self).addr,
                old(self).cmd_map.spec_key2id("stream_q"@),
                final(self).trace@.last().done,
                final(self).trace@.last().buffer,
            ),
    {
        let cmd_id: u8 = self.cmd_map.key2id("stream_q");
        self.exchange(cmd_id)
    }

    /// The exchange for the identifier that the registry gives
    /// `stream_current`.
    fn read_current(&mut self) -> (r: Result<RxData, FocCtrlError>)
        ensures
            old(self).made(
                final(self),
                BusRequest::WriteRead {
                    address: old(self).addr,
                    bytes: seq![old(self).cmd_map.spec_key2id("stream_current"@)],
                    len: REPLY_LEN as nat,
                },
            ),
            frame_result(r) == exchange_outcome(
                old(self).addr,
                old(self).cmd_map.spec_key2id("stream_current"@),
                final(self).trace@.last().done,
                final(self).trace@.last().buffer,
            ),
    {
        let cmd_id: u8 = self.cmd_map.key2id("stream_current");
        self.exchange(cmd_id)
    }

    /// The exchange for the identifier that the registry gives
    /// `stream_states`.
    fn read_states(&mut self) -> (r: Result<RxData, FocCtrlError>)
        ensures
            old(self).made(
                final(self),
                BusRequest::WriteRead {
                    address: old(self).addr,
                    bytes: seq![old(self).cmd_map.spec_key2id("stream_states"@)],
                    len: REPLY_LEN as nat,
                },
            ),
            frame_result(r) == exchange_outcome(
                old(self).addr,
                old(self).cmd_map.spec_key2id("stream_states"@),
                final(self).trace@.last().done,
                final(self).trace@.last().buffer,
            ),
    {
        let cmd_id: u8 = self.cmd_map.key2id("stream_states");
        self.exchange(cmd_id)
    }

    /// The exchange for the identifier that the registry gives
    /// `stream_time`.
    fn read_time(&mut self) -> (r: Result<RxData, FocCtrlError>)
        ensures
            old(self).made(
                final(self),
                BusRequest::WriteRead {
                    address: old(self).addr,
                    bytes: seq![old(self).cmd_map.spec_key2id("stream_time"@)],
                    len: REPLY_LEN as nat,
                },
            ),
            frame_result(r) == exchange_outcome(
                old(self).addr,
                old(self).cmd_map.spec_key2id("stream_time"@),
                final(self).trace@.last().done,
                final(self).trace@.last().buffer,
            ),
    {
        let cmd_id: u8 = self.cmd_map.key2id("stream_time");
        self.exchange(cmd_id)
    }
}

/// The decoded state of one motor, each field an IEEE-754 binary32 bit
/// pattern but for the device's address.
#[derive(Copy, Clone, Debug, PartialEq, Eq, Structural)]
pub struct MotorStates {
    pub motor_id: u8,
    pub ts: u32,
    pub uq: u32,
    pub id: u32,
    pub iq: u32,
    pub velocity: u32,
    pub position: u32,
    pub torque: u32,
    pub iu: u32,
    pub iv: u32,
    pub iw: u32,
    pub debug: u32,
}

/// `n` followed by `unit`, and nothing where `n` is zero.
pub open spec fn unit_text(n: nat, unit: char) -> Seq<char> {
    if n > 0 {
        decimal(n).push(unit)
    } else {
        Seq::empty()
    }
}

/// A duration in days, hours, minutes and seconds, such as `1d2h3m4s`:
/// the units that come to zero are left out, but for the seconds.
pub open spec fn seconds_text(seconds: nat) -> Seq<char> {
    unit_text(seconds / 86400, 'd') + unit_text(seconds % 86400 / 3600, 'h') + unit_text(
        seconds % 3600 / 60,
        'm',
    ) + decimal(seconds % 60).push('s')
}

fn push_unit(text: &mut String, n: u64, unit: &str)
    requires
        unit@.len() == 1,
    ensures
        final(text)@ == old(text)@ + unit_text(n as nat, unit@[0]),
{
    if n > 0 {
        push_decimal(text, n);
        text.append(unit);
        assert(unit@ =~= seq![unit@[0]]);
        assert(text@ =~= old(text)@ + decimal(n as nat).push(unit@[0]));
    } else {
        assert(text@ =~= old(text)@ + Seq::<char>::empty());
    }
}

/// Writes a duration of `seconds` in days, hours, minutes and seconds.
pub fn format_seconds(seconds: u64) -> (text: String)
    ensures
        text@ == seconds_text(seconds as nat),
{
    proof {
        reveal_strlit("d");
        reveal_strlit("h");
        reveal_strlit("m");
        reveal_strlit("s");
    }
    let mut timer_string: String = String::new();

    let days: u64 = seconds / 86400;
    push_unit(&mut timer_string, days, "d");
    let hours: u64 = (seconds - days * 86400) / 3600;
    assert(hours == seconds % 86400 / 3600);
    push_unit(&mut timer_string, hours, "h");
    let minutes: u64 = (seconds - days * 86400 - hours * 3600) / 60;
    assert(minutes == seconds % 3600 / 60);
    push_unit(&mut timer_string, minutes, "m");
    let rest: u64 = seconds - days * 86400 - hours * 3600 - minutes * 60;
    assert(rest == seconds % 60);

    let ghost units = timer_string@;
    push_decimal(&mut timer_string, rest);
    timer_string.append("s");
    assert(timer_string@ =~= units + decimal(rest as nat).push('s'));
    assert(units =~= unit_text(days as nat, 'd') + unit_text(hours as nat, 'h') + unit_text(
        minutes as nat,
        'm',
    ));

    timer_string
}

} // verus!
