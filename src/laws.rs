use vstd::prelude::*;
use crate::driver::{
    initial, next, outcome, read_script, run, script, Event, Job, Reading, Request, Session, Step,
    Tc72Error,
};
use crate::registers::{spec_quarter_degrees, spec_read_frame, spec_write_frame, Frame, Registers};

verus! {

/// A raw reading with bit 9 clear stands for `raw` quarter degrees.
pub proof fn law_nonnegative_reading(raw: u16)
    requires
        raw < 512,
    ensures
        spec_quarter_degrees(raw) as int == raw as int,
{
}

/// A raw reading with bit 9 set stands for `raw - 1024` quarter degrees.
pub proof fn law_negative_reading(raw: u16)
    requires
        512 <= raw < 1024,
    ensures
        spec_quarter_degrees(raw) as int == raw as int - 1024,
{
}

/// Reading a register sends its address shifted left by one, then a
/// placeholder, and the value read is the second byte received.
pub proof fn law_register_read<S, P>(s: Session, buf: [u8; 2])
    requires
        s.wf(),
        s.ready,
        s.job is Idle,
    ensures
        spec_read_frame(Registers::ManufacturerId) == (Frame { address: 0x06, data: 0 }),
        spec_read_frame(Registers::Msb) == (Frame { address: 0x04, data: 0 }),
        spec_read_frame(Registers::Lsb) == (Frame { address: 0x02, data: 0 }),
        spec_read_frame(Registers::Control) == (Frame { address: 0x00, data: 0 }),
        script(Job::ReadId) == read_script(Registers::ManufacturerId),
        run(s.begin(Job::ReadId), seq![Event::<S, P>::Done, Event::Received(buf), Event::Done])
            == (s.idle(), seq![
            Step::<S, P>::Next(Request::Transfer(spec_read_frame(Registers::ManufacturerId))),
            Step::Next(Request::Deselect),
            Step::Finished(Ok(Reading::Id(buf@[1]))),
        ]),
{
    reveal_with_fuel(run, 4);
    let events = seq![Event::<S, P>::Done, Event::Received(buf), Event::Done];
    let s0 = s.begin(Job::ReadId);
    let (s1, a) = next(s0, events[0]);
    let (s2, b) = next(s1, events[1]);
    let (s3, c) = next(s2, events[2]);
    assert(s2.got =~= seq![buf@[1]]);
    assert(s3 == s.idle());
    assert(events.drop_first().drop_first().drop_first() =~= seq![]);
    assert(events.drop_first().drop_first() =~= seq![Event::<S, P>::Done]);
    assert(events.drop_first() =~= seq![Event::Received(buf), Event::Done]);
    assert(run(s.begin(Job::ReadId), events).1 =~= seq![a, b, c]);
}

/// Writing a register sends its shifted address with bit 3 set, then the
/// value.
pub proof fn law_register_write(reg: Registers, value: u8)
    ensures
        spec_write_frame(reg, value).address as int == reg.spec_address() * 2 + 8,
        spec_write_frame(reg, value).data == value,
        spec_write_frame(Registers::Control, value).address == 0x08,
        spec_write_frame(Registers::Lsb, value).address == 0x0a,
        spec_write_frame(Registers::Msb, value).address == 0x0c,
        spec_write_frame(Registers::ManufacturerId, value).address == 0x0e,
{
}

/// When the identity register does not hold the expected byte, a new driver
/// ends its check with a manufacturer error after one register read and
/// nothing else, and stays unusable.
pub proof fn law_identity_mismatch<S, P>(buf: [u8; 2])
    requires
        buf@[1] != 0x54,
    ensures
        script(Job::Identify) == read_script(Registers::ManufacturerId),
        initial().pending() == Request::Select,
        run(initial(), seq![Event::<S, P>::Done, Event::Received(buf), Event::Done]) == (
        Session { job: Job::Idle, pos: 0, got: seq![], ready: false },
        seq![
            Step::<S, P>::Next(Request::Transfer(spec_read_frame(Registers::ManufacturerId))),
            Step::Next(Request::Deselect),
            Step::Finished(Err(Tc72Error::ManufacturerWrong)),
        ]),
{
    reveal_with_fuel(run, 4);
    let events = seq![Event::<S, P>::Done, Event::Received(buf), Event::Done];
    let (s1, a) = next(initial(), events[0]);
    let (s2, b) = next(s1, events[1]);
    let (s3, c) = next(s2, events[2]);
    assert(s2.got =~= seq![buf@[1]]);
    assert(events.drop_first().drop_first().drop_first() =~= seq![]);
    assert(events.drop_first().drop_first() =~= seq![Event::<S, P>::Done]);
    assert(events.drop_first() =~= seq![Event::Received(buf), Event::Done]);
    assert(run(initial(), events).1 =~= seq![a, b, c]);
}

/// When the identity register holds the expected byte, a new driver ends its
/// check with `Ok` and is then ready to start any operation.
pub proof fn law_identity_match<S, P>(buf: [u8; 2], job: Job)
    requires
        buf@[1] == 0x54,
        !(job is Idle),
    ensures
        ({
            let (s, steps) = run(
                initial(),
                seq![Event::<S, P>::Done, Event::Received(buf), Event::Done],
            );
            &&& s == (Session { job: Job::Idle, pos: 0, got: seq![], ready: true })
            &&& steps == seq![
                Step::<S, P>::Next(Request::Transfer(spec_read_frame(Registers::ManufacturerId))),
                Step::Next(Request::Deselect),
                Step::Finished(Ok(Reading::Id(0x54))),
            ]
            &&& s.begin(job).wf()
            &&& s.begin(job).pending() == Request::Select
        }),
{
    reveal_with_fuel(run, 4);
    let events = seq![Event::<S, P>::Done, Event::Received(buf), Event::Done];
    let (s1, a) = next(initial(), events[0]);
    let (s2, b) = next(s1, events[1]);
    let (s3, c) = next(s2, events[2]);
    assert(s2.got =~= seq![buf@[1]]);
    assert(events.drop_first().drop_first().drop_first() =~= seq![]);
    assert(events.drop_first().drop_first() =~= seq![Event::<S, P>::Done]);
    assert(events.drop_first() =~= seq![Event::Received(buf), Event::Done]);
    assert(run(initial(), events).1 =~= seq![a, b, c]);
}

/// A bus or chip-select failure ends the operation at once with that error,
/// and no further request follows.
pub proof fn law_failure_surfaces<S, P>(s: Session, bus_error: S, pin_error: P)
    requires
        s.wf(),
        !(s.job is Idle),
    ensures
        next(s, Event::<S, P>::SpiFailed(bus_error)) == (s.idle(), Step::<S, P>::Finished(
            Err(Tc72Error::Spi(bus_error)),
        )),
        next(s, Event::<S, P>::PinFailed(pin_error)) == (s.idle(), Step::<S, P>::Finished(
            Err(Tc72Error::Cs(pin_error)),
        )),
        s.idle().job is Idle,
{
}

/// A one-shot conversion writes the control byte with only the one-shot flag,
/// waits 150 ms, then reads Msb and Lsb, and its result is that of a
/// temperature read.
pub proof fn law_one_shot_order<S, P>(got: Seq<u8>)
    ensures
        script(Job::OneShot) == seq![
            Request::Select,
            Request::Write(Frame { address: 0x08, data: 0x10 }),
            Request::Deselect,
            Request::DelayMs(150),
            Request::Select,
            Request::Transfer(Frame { address: 0x04, data: 0 }),
            Request::Deselect,
            Request::Select,
            Request::Transfer(Frame { address: 0x02, data: 0 }),
            Request::Deselect,
        ],
        outcome::<S, P>(Job::OneShot, got) == outcome::<S, P>(Job::Temp, got),
{
    assert(script(Job::OneShot) =~= seq![
        Request::Select,
        Request::Write(Frame { address: 0x08, data: 0x10 }),
        Request::Deselect,
        Request::DelayMs(150),
        Request::Select,
        Request::Transfer(Frame { address: 0x04, data: 0 }),
        Request::Deselect,
        Request::Select,
        Request::Transfer(Frame { address: 0x02, data: 0 }),
        Request::Deselect,
    ]);
}

} // verus!
