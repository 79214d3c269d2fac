use tc72::{Event, Frame, Reading, Request, Step, Tc72, Tc72Error};

type Ev = Event<u8, char>;
type St = Step<u8, char>;

fn identified() -> Tc72 {
    let mut tc = Tc72::new();
    assert!(tc.step(Ev::Done) == St::Next(Request::Transfer(Frame { address: 0x06, data: 0 })));
    assert!(tc.step(Ev::Received([0xff, 0x54])) == St::Next(Request::Deselect));
    assert!(tc.step(Ev::Done) == St::Finished(Ok(Reading::Id(0x54))));
    tc
}

#[test]
fn new_driver_checks_identity_first() {
    let tc = Tc72::new();
    assert!(!tc.is_ready());
    assert!(!tc.is_idle());
    assert_eq!(tc.pending(), Some(Request::Select));
}

#[test]
fn identity_match_makes_driver_ready() {
    let tc = identified();
    assert!(tc.is_ready());
    assert!(tc.is_idle());
    assert_eq!(tc.pending(), None);
}

#[test]
fn identity_mismatch_is_reported() {
    for id in [0x00u8, 0x53, 0x55, 0xff] {
        let mut tc = Tc72::new();
        assert!(tc.step(Ev::Done) == St::Next(Request::Transfer(Frame { address: 0x06, data: 0 })));
        assert!(tc.step(Ev::Received([0x54, id])) == St::Next(Request::Deselect));
        assert!(tc.step(Ev::Done) == St::Finished(Err(Tc72Error::ManufacturerWrong)));
        assert!(!tc.is_ready());
        assert!(tc.is_idle());
    }
}

#[test]
fn manufacturer_id_returns_second_byte() {
    let mut tc = identified();
    assert_eq!(tc.manufacturer_id(), Request::Select);
    assert!(tc.step(Ev::Done) == St::Next(Request::Transfer(Frame { address: 0x06, data: 0 })));
    assert!(tc.step(Ev::Received([0x00, 0x54])) == St::Next(Request::Deselect));
    assert!(tc.step(Ev::Done) == St::Finished(Ok(Reading::Id(0x54))));
}

#[test]
fn control_writes_packed_byte() {
    let mut tc = identified();
    assert_eq!(tc.control(true, true), Request::Select);
    assert!(tc.step(Ev::Done) == St::Next(Request::Write(Frame { address: 0x08, data: 0x11 })));
    assert!(tc.step(Ev::Done) == St::Next(Request::Deselect));
    assert!(tc.step(Ev::Done) == St::Finished(Ok(Reading::Written)));
}

#[test]
fn temp_raw_reads_msb_then_lsb() {
    let mut tc = identified();
    assert_eq!(tc.temp_raw(), Request::Select);
    assert!(tc.step(Ev::Done) == St::Next(Request::Transfer(Frame { address: 0x04, data: 0 })));
    assert!(tc.step(Ev::Received([0, 0x64])) == St::Next(Request::Deselect));
    assert!(tc.step(Ev::Done) == St::Next(Request::Select));
    assert!(tc.step(Ev::Done) == St::Next(Request::Transfer(Frame { address: 0x02, data: 0 })));
    assert!(tc.step(Ev::Received([0, 0xc0])) == St::Next(Request::Deselect));
    assert!(tc.step(Ev::Done) == St::Finished(Ok(Reading::Raw(0x193))));
}

#[test]
fn temp_gives_negative_quarter_degrees() {
    let mut tc = identified();
    assert_eq!(tc.temp(), Request::Select);
    tc.step(Ev::Done);
    tc.step(Ev::Received([0, 0xff]));
    tc.step(Ev::Done);
    tc.step(Ev::Done);
    tc.step(Ev::Received([0, 0xc0]));
    assert!(tc.step(Ev::Done) == St::Finished(Ok(Reading::Quarters(-1))));
}

#[test]
fn one_shot_request_order() {
    let mut tc = identified();
    let mut seen = vec![tc.one_shot_with_150ms_delay()];
    let mut result = None;
    while result.is_none() {
        let ev = match tc.pending() {
            Some(Request::Transfer(f)) if f.address == 0x04 => Ev::Received([0, 0x80]),
            Some(Request::Transfer(_)) => Ev::Received([0, 0x00]),
            _ => Ev::Done,
        };
        assert!(tc.accepts(&ev));
        match tc.step(ev) {
            Step::Next(r) => seen.push(r),
            Step::Finished(res) => result = Some(res),
        }
    }
    assert_eq!(
        seen,
        vec![
            Request::Select,
            Request::Write(Frame { address: 0x08, data: 0x10 }),
            Request::Deselect,
            Request::DelayMs(150),
            Request::Select,
            Request::Transfer(Frame { address: 0x04, data: 0 }),
            Request::Deselect,
            Request::Select,
            Request::Transfer(Frame { address: 0x02, data: 0 }),
            Request::Deselect,
        ]
    );
    assert!(result == Some(Ok(Reading::Quarters(-512))));
}

#[test]
fn bus_failure_ends_operation() {
    let mut tc = identified();
    tc.temp_raw();
    tc.step(Ev::Done);
    assert!(tc.step(Ev::SpiFailed(7)) == St::Finished(Err(Tc72Error::Spi(7))));
    assert!(tc.is_idle());
    assert!(tc.is_ready());
}

#[test]
fn pin_failure_ends_operation() {
    let mut tc = identified();
    tc.control(false, false);
    assert!(tc.step(Ev::PinFailed('x')) == St::Finished(Err(Tc72Error::Cs('x'))));
    assert!(tc.is_idle());
    let mut fresh = Tc72::new();
    assert!(fresh.step(Ev::PinFailed('y')) == St::Finished(Err(Tc72Error::Cs('y'))));
    assert!(!fresh.is_ready());
}

#[test]
fn accepts_only_fitting_reports() {
    let mut tc = identified();
    assert!(!tc.accepts(&Ev::Done));
    tc.manufacturer_id();
    assert!(tc.accepts(&Ev::Done));
    assert!(tc.accepts(&Ev::PinFailed('a')));
    assert!(!tc.accepts(&Ev::Received([0, 0])));
    assert!(!tc.accepts(&Ev::SpiFailed(1)));
    tc.step(Ev::Done);
    assert!(tc.accepts(&Ev::Received([0, 0])));
    assert!(tc.accepts(&Ev::SpiFailed(1)));
    assert!(!tc.accepts(&Ev::Done));
}
