//! What a session has done, as its contracts speak of it.
//!
//! A session keeps a record of every transaction it has put on the bus, with
//! its outcome, and of every reset of its cached configuration. The record
//! exists for the proofs alone: the contracts of the session's operations say
//! what each of them adds to it, and the session's invariant ties the cached
//! gain and integration time to what the record says was last written.

use crate::encoding::{
    lemma_als_contr_fields, lemma_als_meas_rate_fields, spec_als_contr, spec_als_meas_rate,
    spec_gain_of_control, spec_int_time_of_meas_rate,
};
use crate::register::Register;
use crate::types::{AlsGain, AlsIntTime, AlsMeasRate};
use crate::Error;
use vstd::prelude::*;

verus! {

/// One step in the life of a session.
pub ghost enum Event {
    /// `bytes` were sent to the device at `address`; `done` tells whether the
    /// bus reported success.
    Write { address: u8, bytes: Seq<u8>, done: bool },
    /// `bytes` were sent to the device at `address` and an answer was asked
    /// for; `data` is the answer, or `None` where the bus reported an error.
    WriteRead { address: u8, bytes: Seq<u8>, data: Option<Seq<u8>> },
    /// The cached configuration went back to the power-up defaults, with no
    /// traffic on the bus.
    Resync,
}

/// The write of one register: its address, then its new content.
pub open spec fn register_write(address: u8, register: u8, value: u8, done: bool) -> Event {
    Event::Write { address, bytes: seq![register, value], done }
}

/// The read of one register: its address goes out, one byte comes back.
/// `value` is that byte, or `None` where the bus reported an error.
pub open spec fn register_read(address: u8, register: u8, value: Option<u8>) -> Event {
    Event::WriteRead {
        address,
        bytes: seq![register],
        data: match value {
            Some(v) => Some(seq![v]),
            None => None,
        },
    }
}

/// The byte that a read handed to its caller, where it handed one out.
pub open spec fn byte_of<E>(r: Result<u8, Error<E>>) -> Option<u8> {
    match r {
        Ok(value) => Some(value),
        Err(_) => None,
    }
}

/// The four ALS data registers in the order in which they are read: channel
/// 1 before channel 0, low byte before high byte.
pub open spec fn als_data_registers() -> Seq<u8> {
    seq![
        Register::ALS_DATA_CH1_0,
        Register::ALS_DATA_CH1_1,
        Register::ALS_DATA_CH0_0,
        Register::ALS_DATA_CH0_1,
    ]
}

/// The byte that a read of one register gave, where it gave one.
pub open spec fn value_read(event: Event) -> Option<u8> {
    match event {
        Event::WriteRead { data: Some(d), .. } => if d.len() == 1 {
            Some(d[0])
        } else {
            None
        },
        _ => None,
    }
}

/// Whether `event` is a transaction with another device than the one at
/// `address`.
pub open spec fn strays_from(event: Event, address: u8) -> bool {
    match event {
        Event::Write { address: to, .. } => to != address,
        Event::WriteRead { address: to, .. } => to != address,
        Event::Resync => false,
    }
}

/// Whether every transaction in `history` went to the device at `address`.
pub open spec fn all_addressed_to(history: Seq<Event>, address: u8) -> bool {
    forall|i: int| 0 <= i < history.len() ==> !strays_from(#[trigger] history[i], address)
}

/// The gain that the sensor was last told, given that it was `gain` before
/// `event`: a write to the ALS control register that went through sets it, a
/// reset of the cache takes it back to the default, nothing else touches it.
pub open spec fn gain_after(gain: AlsGain, event: Event) -> AlsGain {
    match event {
        Event::Resync => AlsGain::Gain1x,
        Event::Write { bytes, done, .. } => if done && bytes.len() == 2 && bytes[0]
            == Register::ALS_CONTR {
            match spec_gain_of_control(bytes[1]) {
                Some(written) => written,
                None => gain,
            }
        } else {
            gain
        },
        Event::WriteRead { .. } => gain,
    }
}

/// The integration time that the sensor was last told, given that it was
/// `int_time` before `event`.
pub open spec fn int_time_after(int_time: AlsIntTime, event: Event) -> AlsIntTime {
    match event {
        Event::Resync => AlsIntTime::_100ms,
        Event::Write { bytes, done, .. } => if done && bytes.len() == 2 && bytes[0]
            == Register::ALS_MEAS_RATE {
            spec_int_time_of_meas_rate(bytes[1])
        } else {
            int_time
        },
        Event::WriteRead { .. } => int_time,
    }
}

/// The gain that a history leaves the sensor with, starting from the
/// power-up default.
pub open spec fn gain_written(history: Seq<Event>) -> AlsGain
    decreases history.len(),
{
    if history.len() == 0 {
        AlsGain::Gain1x
    } else {
        gain_after(gain_written(history.drop_last()), history.last())
    }
}

/// The integration time that a history leaves the sensor with, starting from
/// the power-up default.
pub open spec fn int_time_written(history: Seq<Event>) -> AlsIntTime
    decreases history.len(),
{
    if history.len() == 0 {
        AlsIntTime::_100ms
    } else {
        int_time_after(int_time_written(history.drop_last()), history.last())
    }
}

/// One more event moves the written configuration by one step.
pub proof fn lemma_written_push(history: Seq<Event>, event: Event)
    ensures
        gain_written(history.push(event)) == gain_after(gain_written(history), event),
        int_time_written(history.push(event)) == int_time_after(
            int_time_written(history),
            event,
        ),
{
    assert(history.push(event).drop_last() =~= history);
    assert(history.push(event).last() == event);
}

/// `after` is `before` followed by the writes of two registers, the second
/// only where the first went through. `ok` tells whether both did.
pub open spec fn wrote_pair(
    before: Seq<Event>,
    after: Seq<Event>,
    address: u8,
    first: (u8, u8),
    second: (u8, u8),
    ok: bool,
) -> bool {
    if ok {
        after == before.push(register_write(address, first.0, first.1, true)).push(
            register_write(address, second.0, second.1, true),
        )
    } else {
        ||| after == before.push(register_write(address, first.0, first.1, false))
        ||| after == before.push(register_write(address, first.0, first.1, true)).push(
            register_write(address, second.0, second.1, false),
        )
    }
}

/// `after` is `before` followed by reads of `registers` in their order, as
/// far as they got: every read but the last went through, and the reads stop
/// short of the last register only on a read that failed.
pub open spec fn read_registers(
    before: Seq<Event>,
    after: Seq<Event>,
    address: u8,
    registers: Seq<u8>,
) -> bool {
    &&& before.is_prefix_of(after)
    &&& before.len() < after.len() <= before.len() + registers.len()
    &&& forall|i: int|
        before.len() <= i < after.len() ==> #[trigger] after[i] == register_read(
            address,
            registers[i - before.len()],
            value_read(after[i]),
        )
    &&& forall|i: int|
        before.len() <= i < after.len() - 1 ==> value_read(#[trigger] after[i]) is Some
    &&& after.len() < before.len() + registers.len() ==> value_read(after.last()) is None
}

/// Whether the reads that `after` holds beyond `before` got through all
/// `count` registers: they are `count` in number and the last went through.
pub open spec fn read_all(before: Seq<Event>, after: Seq<Event>, count: nat) -> bool {
    &&& after.len() == before.len() + count
    &&& value_read(after.last()) is Some
}

/// The byte that the read at place `i` beyond `before` gave.
pub open spec fn byte_read(before: Seq<Event>, after: Seq<Event>, i: int) -> u8 {
    match value_read(after[before.len() + i]) {
        Some(v) => v,
        None => 0,
    }
}

/// Reads leave the written configuration alone, as do writes that fail and
/// writes to any register but the two that hold gain and integration time.
pub proof fn lemma_written_untouched(history: Seq<Event>, event: Event)
    requires
        event matches Event::Write { bytes, done, .. } ==> !done || bytes.len() != 2 || (bytes[0]
            != Register::ALS_CONTR && bytes[0] != Register::ALS_MEAS_RATE),
        !(event is Resync),
    ensures
        gain_written(history.push(event)) == gain_written(history),
        int_time_written(history.push(event)) == int_time_written(history),
{
    lemma_written_push(history, event);
}

/// A write of the ALS control register sets the written gain where it goes
/// through and leaves it where it fails; the integration time stays either
/// way.
pub proof fn lemma_written_by_als_contr(
    history: Seq<Event>,
    address: u8,
    gain: AlsGain,
    sw_reset: bool,
    als_active: bool,
    done: bool,
)
    ensures
        gain_written(
            history.push(
                register_write(
                    address,
                    Register::ALS_CONTR,
                    spec_als_contr(gain, sw_reset, als_active),
                    done,
                ),
            ),
        ) == if done {
            gain
        } else {
            gain_written(history)
        },
        int_time_written(
            history.push(
                register_write(
                    address,
                    Register::ALS_CONTR,
                    spec_als_contr(gain, sw_reset, als_active),
                    done,
                ),
            ),
        ) == int_time_written(history),
{
    lemma_als_contr_fields(gain, sw_reset, als_active);
    lemma_written_push(
        history,
        register_write(
            address,
            Register::ALS_CONTR,
            spec_als_contr(gain, sw_reset, als_active),
            done,
        ),
    );
}

/// A write of the ALS measurement rate register sets the written integration
/// time where it goes through and leaves it where it fails; the gain stays
/// either way.
pub proof fn lemma_written_by_als_meas_rate(
    history: Seq<Event>,
    address: u8,
    als_int: AlsIntTime,
    als_meas_rate: AlsMeasRate,
    done: bool,
)
    ensures
        int_time_written(
            history.push(
                register_write(
                    address,
                    Register::ALS_MEAS_RATE,
                    spec_als_meas_rate(als_int, als_meas_rate),
                    done,
                ),
            ),
        ) == if done {
            als_int
        } else {
            int_time_written(history)
        },
        gain_written(
            history.push(
                register_write(
                    address,
                    Register::ALS_MEAS_RATE,
                    spec_als_meas_rate(als_int, als_meas_rate),
                    done,
                ),
            ),
        ) == gain_written(history),
{
    lemma_als_meas_rate_fields(als_int, als_meas_rate);
    lemma_written_push(
        history,
        register_write(
            address,
            Register::ALS_MEAS_RATE,
            spec_als_meas_rate(als_int, als_meas_rate),
            done,
        ),
    );
}

/// A reset of the cache takes the written configuration back to the power-up
/// defaults, whatever went before.
pub proof fn lemma_written_after_resync(history: Seq<Event>)
    ensures
        gain_written(history.push(Event::Resync)) == AlsGain::Gain1x,
        int_time_written(history.push(Event::Resync)) == AlsIntTime::_100ms,
        gain_written(Seq::<Event>::empty()) == AlsGain::Gain1x,
        int_time_written(Seq::<Event>::empty()) == AlsIntTime::_100ms,
{
    lemma_written_push(history, Event::Resync);
}

} // verus!
