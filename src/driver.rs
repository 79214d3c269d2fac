use vstd::prelude::*;
use crate::registers::{
    control_byte, quarter_degrees, raw_from_bytes, read_frame, spec_control_byte,
    spec_quarter_degrees, spec_raw, spec_read_frame, spec_write_frame, write_frame, Frame,
    Registers, EXPECTED_ID,
};

verus! {

/// What went wrong during an operation.
#[derive(Clone, Copy, Debug, PartialEq, Eq)]
pub enum Tc72Error<SpiError, PinError> {
    /// The bus transfer failed.
    Spi(SpiError),
    /// Driving the chip-select line failed.
    Cs(PinError),
    /// The identity register did not hold the expected byte.
    ManufacturerWrong,
}

/// One thing the driver asks its caller to do on the bus.
#[derive(Clone, Copy, Debug, PartialEq, Eq, Structural)]
pub enum Request {
    /// Drive chip-select high, opening a transaction.
    Select,
    /// Exchange the frame's two bytes full-duplex and report what came back.
    Transfer(Frame),
    /// Send the frame's two bytes.
    Write(Frame),
    /// Drive chip-select low, closing the transaction.
    Deselect,
    /// Block for the given number of milliseconds.
    DelayMs(u8),
}

/// What the caller reports after carrying out a request.
#[derive(Clone, Copy, Debug, PartialEq, Eq)]
pub enum Event<SpiError, PinError> {
    /// A select, deselect, write or delay completed.
    Done,
    /// A transfer completed with these two bytes received.
    Received([u8; 2]),
    /// The bus reported this error.
    SpiFailed(SpiError),
    /// The chip-select line reported this error.
    PinFailed(PinError),
}

/// The value an operation produces.
#[derive(Clone, Copy, Debug, PartialEq, Eq, Structural)]
pub enum Reading {
    /// The manufacturer identity byte.
    Id(u8),
    /// A register write completed.
    Written,
    /// The 10-bit raw temperature.
    Raw(u16),
    /// The temperature in quarter degrees Celsius.
    Quarters(i16),
}

/// The driver's answer to an event.
#[derive(Debug, PartialEq, Eq)]
pub enum Step<SpiError, PinError> {
    /// The operation goes on with this request.
    Next(Request),
    /// The operation is over.
    Finished(Result<Reading, Tc72Error<SpiError, PinError>>),
}

/// The operation in progress.
#[derive(Clone, Copy, Debug, PartialEq, Eq, Structural)]
pub enum Job {
    /// No operation in progress.
    Idle,
    /// The identity check that a new driver performs.
    Identify,
    /// A read of the manufacturer identity register.
    ReadId,
    /// A write of this byte to the control register.
    Control(u8),
    /// A read of the raw temperature.
    TempRaw,
    /// A read of the temperature in quarter degrees.
    Temp,
    /// A one-shot conversion followed by a temperature read.
    OneShot,
}

/// Milliseconds the sensor needs for a one-shot conversion.
pub const ONE_SHOT_DELAY_MS: u8 = 150;

/// The requests of one register read.
pub open spec fn read_script(reg: Registers) -> Seq<Request> {
    seq![Request::Select, Request::Transfer(spec_read_frame(reg)), Request::Deselect]
}

/// The requests of one register write.
pub open spec fn write_script(reg: Registers, value: u8) -> Seq<Request> {
    seq![Request::Select, Request::Write(spec_write_frame(reg, value)), Request::Deselect]
}

/// The requests that an operation issues, in order, when nothing fails.
pub open spec fn script(job: Job) -> Seq<Request> {
    match job {
        Job::Idle => seq![],
        Job::Identify => read_script(Registers::ManufacturerId),
        Job::ReadId => read_script(Registers::ManufacturerId),
        Job::Control(v) => write_script(Registers::Control, v),
        Job::TempRaw => read_script(Registers::Msb) + read_script(Registers::Lsb),
        Job::Temp => read_script(Registers::Msb) + read_script(Registers::Lsb),
        Job::OneShot => write_script(Registers::Control, spec_control_byte(false, true)) + seq![
            Request::DelayMs(ONE_SHOT_DELAY_MS),
        ] + read_script(Registers::Msb) + read_script(Registers::Lsb),
    }
}

/// How many of the first `n` requests of `s` are transfers.
pub open spec fn transfers_in(s: Seq<Request>, n: nat) -> nat
    decreases n,
{
    if n == 0 {
        0
    } else {
        transfers_in(s, (n - 1) as nat) + if s[n - 1] is Transfer {
            1nat
        } else {
            0nat
        }
    }
}

/// The result of an operation, from the second byte of each transfer.
pub open spec fn outcome<S, P>(job: Job, got: Seq<u8>) -> Result<Reading, Tc72Error<S, P>> {
    match job {
        Job::Identify => if got[0] == EXPECTED_ID {
            Ok(Reading::Id(got[0]))
        } else {
            Err(Tc72Error::ManufacturerWrong)
        },
        Job::ReadId => Ok(Reading::Id(got[0])),
        Job::TempRaw => Ok(Reading::Raw(spec_raw(got[0], got[1]))),
        Job::Temp => Ok(Reading::Quarters(spec_quarter_degrees(spec_raw(got[0], got[1])))),
        Job::OneShot => Ok(Reading::Quarters(spec_quarter_degrees(spec_raw(got[0], got[1])))),
        _ => Ok(Reading::Written),
    }
}

/// Whether `e` is a possible report on `req`.
pub open spec fn fits<S, P>(req: Request, e: Event<S, P>) -> bool {
    match req {
        Request::Select => e is Done || e is PinFailed,
        Request::Deselect => e is Done || e is PinFailed,
        Request::Transfer(_) => e is Received || e is SpiFailed,
        Request::Write(_) => e is Done || e is SpiFailed,
        Request::DelayMs(_) => e is Done,
    }
}

/// The abstract state of a driver.
pub struct Session {
    pub job: Job,
    /// Index in the operation's script of the request being carried out.
    pub pos: nat,
    /// Second bytes of the transfers of this operation so far.
    pub got: Seq<u8>,
    /// Whether the identity check has passed.
    pub ready: bool,
}

impl Session {
    pub open spec fn wf(self) -> bool {
        &&& (self.job is Idle ==> self.pos == 0 && self.got.len() == 0)
        &&& (!(self.job is Idle) ==> self.pos < script(self.job).len() && self.got.len()
            == transfers_in(script(self.job), self.pos))
    }

    /// The request being carried out.
    pub open spec fn pending(self) -> Request {
        script(self.job)[self.pos as int]
    }

    /// The same readiness, with no operation in progress.
    pub open spec fn idle(self) -> Session {
        Session { job: Job::Idle, pos: 0, got: seq![], ready: self.ready }
    }

    /// The state once `job` has been started.
    pub open spec fn begin(self, job: Job) -> Session {
        Session { job, pos: 0, got: seq![], ready: self.ready }
    }
}

/// The state of a driver that has just been created.
pub open spec fn initial() -> Session {
    Session { job: Job::Identify, pos: 0, got: seq![], ready: false }
}

/// The driver's answer to `e` in state `s`, and its next state.
pub open spec fn next<S, P>(s: Session, e: Event<S, P>) -> (Session, Step<S, P>) {
    match e {
        Event::SpiFailed(x) => (s.idle(), Step::Finished(Err(Tc72Error::Spi(x)))),
        Event::PinFailed(x) => (s.idle(), Step::Finished(Err(Tc72Error::Cs(x)))),
        _ => {
            let got = match e {
                Event::Received(buf) => s.got.push(buf@[1]),
                _ => s.got,
            };
            if s.pos + 1 < script(s.job).len() {
                (
                    Session { job: s.job, pos: s.pos + 1, got, ready: s.ready },
                    Step::Next(script(s.job)[s.pos + 1int]),
                )
            } else {
                let res = outcome::<S, P>(s.job, got);
                (
                    Session {
                        job: Job::Idle,
                        pos: 0,
                        got: seq![],
                        ready: s.ready || (s.job is Identify && res is Ok),
                    },
                    Step::Finished(res),
                )
            }
        },
    }
}

/// The driver's answers to a run of events, and the state after them.
pub open spec fn run<S, P>(s: Session, events: Seq<Event<S, P>>) -> (Session, Seq<Step<S, P>>)
    decreases events.len(),
{
    if events.len() == 0 {
        (s, seq![])
    } else {
        let (s1, first) = next(s, events[0]);
        let (s2, rest) = run(s1, events.drop_first());
        (s2, seq![first] + rest)
    }
}

/// The sensor driver, as a protocol engine.
///
/// A new driver first checks the manufacturer identity; only once that has
/// passed can the other operations be started. Each operation is started by a
/// method that returns its first request; [`Tc72::step`] then takes the report
/// on each request and answers with the next one or with the result.
pub struct Tc72 {
    job: Job,
    script: Vec<Request>,
    pos: usize,
    got: Vec<u8>,
    ready: bool,
}

impl View for Tc72 {
    type V = Session;

    closed spec fn view(&self) -> Session {
        Session { job: self.job, pos: self.pos as nat, got: self.got@, ready: self.ready }
    }
}

/// Appends the requests of a read of `reg`.
fn push_read(v: &mut Vec<Request>, reg: Registers)
    ensures
        final(v)@ == old(v)@ + read_script(reg),
{
    v.push(Request::Select);
    v.push(Request::Transfer(read_frame(reg)));
    v.push(Request::Deselect);
    assert(final(v)@ =~= old(v)@ + read_script(reg));
}

/// Appends the requests of a write of `value` to `reg`.
fn push_write(v: &mut Vec<Request>, reg: Registers, value: u8)
    ensures
        final(v)@ == old(v)@ + write_script(reg, value),
{
    v.push(Request::Select);
    v.push(Request::Write(write_frame(reg, value)));
    v.push(Request::Deselect);
    assert(final(v)@ =~= old(v)@ + write_script(reg, value));
}

/// The requests of `job`.
fn script_of(job: Job) -> (r: Vec<Request>)
    ensures
        r@ == script(job),
{
    let mut v: Vec<Request> = Vec::new();
    assert(v@ =~= seq![]);
    match job {
        Job::Idle => {},
        Job::Identify => push_read(&mut v, Registers::ManufacturerId),
        Job::ReadId => push_read(&mut v, Registers::ManufacturerId),
        Job::Control(value) => push_write(&mut v, Registers::Control, value),
        Job::TempRaw => {
            push_read(&mut v, Registers::Msb);
            push_read(&mut v, Registers::Lsb);
        },
        Job::Temp => {
            push_read(&mut v, Registers::Msb);
            push_read(&mut v, Registers::Lsb);
        },
        Job::OneShot => {
            push_write(&mut v, Registers::Control, control_byte(false, true));
            v.push(Request::DelayMs(ONE_SHOT_DELAY_MS));
            push_read(&mut v, Registers::Msb);
            push_read(&mut v, Registers::Lsb);
        },
    }
    assert(v@ =~= script(job));
    v
}

/// How many transfers each operation makes.
proof fn lemma_transfer_count(job: Job)
    ensures
        transfers_in(script(job), script(job).len()) == match job {
            Job::Idle => 0nat,
            Job::Control(_) => 0nat,
            Job::Identify => 1nat,
            Job::ReadId => 1nat,
            _ => 2nat,
        },
{
    reveal_with_fuel(transfers_in, 11);
}

impl Tc72 {
    /// The invariant: the stored script is that of the job in progress.
    pub closed spec fn wf(&self) -> bool {
        &&& self@.wf()
        &&& self.script@ == script(self.job)
    }

    /// A new driver, about to check the manufacturer identity.
    ///
    /// Its first request is [`Tc72::pending`]; an operation can be started
    /// only once [`Tc72::step`] has finished the check with `Ok`.
    pub fn new() -> (r: Tc72)
        ensures
            r.wf(),
            r@ == initial(),
    {
        let r = Tc72 {
            job: Job::Identify,
            script: script_of(Job::Identify),
            pos: 0,
            got: Vec::new(),
            ready: false,
        };
        assert(r.got@ =~= seq![]);
        r
    }

    /// Whether the identity check has passed.
    pub fn is_ready(&self) -> (r: bool)
        ensures
            r == self@.ready,
    {
        self.ready
    }

    /// Whether no operation is in progress.
    pub fn is_idle(&self) -> (r: bool)
        ensures
            r == self@.job is Idle,
    {
        match self.job {
            Job::Idle => true,
            _ => false,
        }
    }

    /// The request being carried out, if an operation is in progress.
    pub fn pending(&self) -> (r: Option<Request>)
        requires
            self.wf(),
        ensures
            self@.job is Idle ==> r is None,
            !(self@.job is Idle) ==> r == Some(self@.pending()),
    {
        match self.job {
            Job::Idle => None,
            _ => Some(self.script[self.pos]),
        }
    }

    fn begin(&mut self, job: Job) -> (r: Request)
        requires
            old(self).wf(),
            old(self)@.job is Idle,
            !(job is Idle),
        ensures
            final(self).wf(),
            final(self)@ == old(self)@.begin(job),
            r == script(job)[0],
    {
        self.job = job;
        self.script = script_of(job);
        self.pos = 0;
        self.got = Vec::new();
        assert(self.got@ =~= seq![]);
        assert(script(job).len() > 0);
        self.script[0]
    }

    /// Starts a read of the manufacturer identity register.
    pub fn manufacturer_id(&mut self) -> (r: Request)
        requires
            old(self).wf(),
            old(self)@.ready,
            old(self)@.job is Idle,
        ensures
            final(self).wf(),
            final(self)@ == old(self)@.begin(Job::ReadId),
            r == script(Job::ReadId)[0],
    {
        self.begin(Job::ReadId)
    }

    /// Starts a write of the control register with the two mode flags.
    pub fn control(&mut self, shutdown: bool, one_shot: bool) -> (r: Request)
        requires
            old(self).wf(),
            old(self)@.ready,
            old(self)@.job is Idle,
        ensures
            final(self).wf(),
            final(self)@ == old(self)@.begin(Job::Control(spec_control_byte(shutdown, one_shot))),
            r == Request::Select,
    {
        let value = control_byte(shutdown, one_shot);
        self.begin(Job::Control(value))
    }

    /// Starts a read of the raw temperature: Msb, then Lsb.
    pub fn temp_raw(&mut self) -> (r: Request)
        requires
            old(self).wf(),
            old(self)@.ready,
            old(self)@.job is Idle,
        ensures
            final(self).wf(),
            final(self)@ == old(self)@.begin(Job::TempRaw),
            r == Request::Select,
    {
        self.begin(Job::TempRaw)
    }

    /// Starts a read of the temperature in quarter degrees.
    pub fn temp(&mut self) -> (r: Request)
        requires
            old(self).wf(),
            old(self)@.ready,
            old(self)@.job is Idle,
        ensures
            final(self).wf(),
            final(self)@ == old(self)@.begin(Job::Temp),
            r == Request::Select,
    {
        self.begin(Job::Temp)
    }

    /// Starts a one-shot conversion: a control write, a wait, then a
    /// temperature read.
    pub fn one_shot_with_150ms_delay(&mut self) -> (r: Request)
        requires
            old(self).wf(),
            old(self)@.ready,
            old(self)@.job is Idle,
        ensures
            final(self).wf(),
            final(self)@ == old(self)@.begin(Job::OneShot),
            r == Request::Select,
    {
        self.begin(Job::OneShot)
    }

    /// Whether `e` is a possible report on the pending request.
    pub fn accepts<S, P>(&self, e: &Event<S, P>) -> (r: bool)
        requires
            self.wf(),
        ensures
            r == (!(self@.job is Idle) && fits(self@.pending(), *e)),
    {
        match self.job {
            Job::Idle => false,
            _ => {
                let req = self.script[self.pos];
                match req {
                    Request::Select => matches!(e, Event::Done) || matches!(e, Event::PinFailed(_)),
                    Request::Deselect => matches!(e, Event::Done) || matches!(e, Event::PinFailed(_)),
                    Request::Transfer(_) => matches!(e, Event::Received(_)) || matches!(e, Event::SpiFailed(_)),
                    Request::Write(_) => matches!(e, Event::Done) || matches!(e, Event::SpiFailed(_)),
                    Request::DelayMs(_) => matches!(e, Event::Done),
                }
            },
        }
    }

    fn finish<S, P>(&mut self) -> (r: Result<Reading, Tc72Error<S, P>>)
        requires
            !(old(self)@.job is Idle),
            old(self).script@ == script(old(self).job),
            old(self)@.got.len() == transfers_in(script(old(self)@.job), script(old(self)@.job).len()),
        ensures
            final(self).wf(),
            final(self)@ == (Session {
                job: Job::Idle,
                pos: 0,
                got: seq![],
                ready: old(self)@.ready || (old(self)@.job is Identify && r is Ok),
            }),
            r == outcome::<S, P>(old(self)@.job, old(self)@.got),
    {
        proof {
            lemma_transfer_count(self.job);
        }
        let res: Result<Reading, Tc72Error<S, P>> = match self.job {
            Job::Identify => {
                let id = self.got[0];
                if id == EXPECTED_ID {
                    Ok(Reading::Id(id))
                } else {
                    Err(Tc72Error::ManufacturerWrong)
                }
            },
            Job::ReadId => Ok(Reading::Id(self.got[0])),
            Job::TempRaw => Ok(Reading::Raw(raw_from_bytes(self.got[0], self.got[1]))),
            Job::Temp => Ok(Reading::Quarters(quarter_degrees(raw_from_bytes(self.got[0], self.got[1])))),
            Job::OneShot => Ok(Reading::Quarters(quarter_degrees(raw_from_bytes(self.got[0], self.got[1])))),
            _ => Ok(Reading::Written),
        };
        if let Job::Identify = self.job {
            if res.is_ok() {
                self.ready = true;
            }
        }
        self.job = Job::Idle;
        self.script = Vec::new();
        self.pos = 0;
        self.got = Vec::new();
        assert(self.got@ =~= seq![]);
        assert(self.script@ =~= script(Job::Idle));
        res
    }

    fn stop(&mut self)
        requires
            old(self).wf(),
        ensures
            final(self).wf(),
            final(self)@ == old(self)@.idle(),
    {
        self.job = Job::Idle;
        self.script = Vec::new();
        self.pos = 0;
        self.got = Vec::new();
        assert(self.got@ =~= seq![]);
        assert(self.script@ =~= script(Job::Idle));
    }

    /// Takes the report on the pending request and answers with the next
    /// request or with the operation's result.
    ///
    /// A failure ends the operation at once, carrying the reported error; a
    /// transfer contributes its second received byte to the result.
    pub fn step<S, P>(&mut self, e: Event<S, P>) -> (r: Step<S, P>)
        requires
            old(self).wf(),
            !(old(self)@.job is Idle),
            fits(old(self)@.pending(), e),
        ensures
            final(self).wf(),
            (final(self)@, r) == next(old(self)@, e),
    {
        match e {
            Event::SpiFailed(x) => {
                self.stop();
                Step::Finished(Err(Tc72Error::Spi(x)))
            },
            Event::PinFailed(x) => {
                self.stop();
                Step::Finished(Err(Tc72Error::Cs(x)))
            },
            Event::Received(buf) => {
                self.got.push(buf[1]);
                self.advance()
            },
            Event::Done => self.advance(),
        }
    }

    fn advance<S, P>(&mut self) -> (r: Step<S, P>)
        requires
            !(old(self)@.job is Idle),
            old(self).script@ == script(old(self).job),
            old(self).pos < old(self).script@.len(),
            old(self)@.got.len() == transfers_in(script(old(self)@.job), old(self)@.pos + 1),
        ensures
            final(self).wf(),
            (old(self)@.pos + 1 < script(old(self)@.job).len()) ==> {
                &&& final(self)@ == (Session { pos: old(self)@.pos + 1, ..old(self)@ })
                &&& r == Step::<S, P>::Next(script(old(self)@.job)[old(self)@.pos + 1int])
            },
            (old(self)@.pos + 1 >= script(old(self)@.job).len()) ==> {
                let res = outcome::<S, P>(old(self)@.job, old(self)@.got);
                &&& final(self)@ == (Session {
                    job: Job::Idle,
                    pos: 0,
                    got: seq![],
                    ready: old(self)@.ready || (old(self)@.job is Identify && res is Ok),
                })
                &&& r == Step::<S, P>::Finished(res)
            },
    {
        if self.pos + 1 < self.script.len() {
            self.pos = self.pos + 1;
            Step::Next(self.script[self.pos])
        } else {
            Step::Finished(self.finish())
        }
    }
}

} // verus!
