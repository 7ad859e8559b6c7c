use vstd::prelude::*;

use crate::protocol::{code_of, status_code, Action, Next, Outcome, SetupError};
use crate::resource::{
    keep_held, lemma_released_step, lemma_set_of_push, lemma_unwind_empties, released, set_of,
    unwind_list, Resource,
};

verus! {

/// Number of bus lines in a pin set.
pub const PIN_COUNT: u8 = 6;

/// Host flags: 1-bit, 4-bit and 8-bit bus widths and DDR mode.
pub const HOST_FLAGS: u32 = 23;

/// The host controller slot the card sits in.
pub const HOST_SLOT: i32 = 1;

/// Highest bus clock, in kHz.
pub const MAX_FREQ_KHZ: i32 = 20000;

/// I/O voltage of the slot, in millivolts.
pub const IO_VOLTAGE_MV: u32 = 3300;

/// Data bus width used on the slot.
pub const BUS_WIDTH: u8 = 4;

/// Marks a line that is not wired (card detect, write protect, data 4 to 7).
pub const NO_LINE: i32 = -1;

/// The six physical lines of a 4-bit SD bus, by line number.
#[derive(PartialEq, Eq, Structural, Clone, Copy, Debug)]
pub struct SdPins {
    pub cmd: i32,
    pub clk: i32,
    pub d0: i32,
    pub d1: i32,
    pub d2: i32,
    pub d3: i32,
}

/// Operating parameters of the host controller for a card session.
#[derive(PartialEq, Eq, Structural, Clone, Copy, Debug)]
pub struct HostConfig {
    pub flags: u32,
    pub slot: i32,
    pub max_freq_khz: i32,
    pub io_voltage_mv: u32,
    pub command_timeout_ms: i32,
    pub input_delay_phase: u32,
}

/// Slot configuration handed to the host controller: which line carries which signal.
#[derive(PartialEq, Eq, Structural, Clone, Copy, Debug)]
pub struct SlotConfig {
    pub gpio_cd: i32,
    pub gpio_wp: i32,
    pub width: u8,
    pub flags: u32,
    pub clk: i32,
    pub cmd: i32,
    pub d0: i32,
    pub d1: i32,
    pub d2: i32,
    pub d3: i32,
    pub d4: i32,
    pub d5: i32,
    pub d6: i32,
    pub d7: i32,
}

/// Geometry that a probed card reports.
#[derive(PartialEq, Eq, Structural, Clone, Copy, Debug)]
pub struct CardInfo {
    /// Capacity in sectors.
    pub capacity: i32,
    /// Sector size in bytes.
    pub sector_size: i32,
    /// Largest read block in bytes.
    pub read_block_len: i32,
}

/// The fixed host configuration of every session.
pub open spec fn spec_host_config() -> HostConfig {
    HostConfig {
        flags: HOST_FLAGS,
        slot: HOST_SLOT,
        max_freq_khz: MAX_FREQ_KHZ,
        io_voltage_mv: IO_VOLTAGE_MV,
        command_timeout_ms: 0,
        input_delay_phase: 0,
    }
}

/// The slot configuration for a pin set: a 4-bit bus on its six lines, nothing else wired.
pub open spec fn spec_slot_config(p: SdPins) -> SlotConfig {
    SlotConfig {
        gpio_cd: NO_LINE,
        gpio_wp: NO_LINE,
        width: BUS_WIDTH,
        flags: 0,
        clk: p.clk,
        cmd: p.cmd,
        d0: p.d0,
        d1: p.d1,
        d2: p.d2,
        d3: p.d3,
        d4: NO_LINE,
        d5: NO_LINE,
        d6: NO_LINE,
        d7: NO_LINE,
    }
}

/// Builds the host configuration of a session.
pub fn host_config() -> (r: HostConfig)
    ensures
        r == spec_host_config(),
{
    HostConfig {
        flags: HOST_FLAGS,
        slot: HOST_SLOT,
        max_freq_khz: MAX_FREQ_KHZ,
        io_voltage_mv: IO_VOLTAGE_MV,
        command_timeout_ms: 0,
        input_delay_phase: 0,
    }
}

/// Builds the slot configuration for a pin set.
pub fn slot_config(p: &SdPins) -> (r: SlotConfig)
    ensures
        r == spec_slot_config(*p),
{
    SlotConfig {
        gpio_cd: NO_LINE,
        gpio_wp: NO_LINE,
        width: BUS_WIDTH,
        flags: 0,
        clk: p.clk,
        cmd: p.cmd,
        d0: p.d0,
        d1: p.d1,
        d2: p.d2,
        d3: p.d3,
        d4: NO_LINE,
        d5: NO_LINE,
        d6: NO_LINE,
        d7: NO_LINE,
    }
}

/// Steps of the card session: claiming the six lines (steps 0 to 5), host
/// bring-up (6), slot configuration (7), descriptor allocation (8) and probe (9).
pub const CARD_STEPS: usize = 10;

/// The action of card-session step `k`.
pub open spec fn card_action(k: int) -> Action {
    if k < 6 {
        Action::ClaimPin(k as u8)
    } else if k == 6 {
        Action::HostInit
    } else if k == 7 {
        Action::InitSlot
    } else if k == 8 {
        Action::AllocCard
    } else {
        Action::ProbeCard
    }
}

/// What the card session holds once its first `k` steps have succeeded.
pub open spec fn card_held_before(k: int) -> Set<Resource> {
    Set::new(
        |r: Resource|
            match r {
                Resource::Pin(i) => (i as int) < k && i < PIN_COUNT,
                Resource::Host => k > 6,
                Resource::CardRecord => k > 8,
                _ => false,
            },
    )
}

/// The order in which a card session gives back what it holds: the host
/// controller, then the descriptor, then the lines from the last claimed to the first.
pub open spec fn card_release_order() -> Seq<Resource> {
    seq![
        Resource::Host,
        Resource::CardRecord,
        Resource::Pin(5),
        Resource::Pin(4),
        Resource::Pin(3),
        Resource::Pin(2),
        Resource::Pin(1),
        Resource::Pin(0),
    ]
}

/// Whether outcome `o` is success for card-session step `k`.
pub open spec fn card_succeeds(k: int, o: Outcome) -> bool {
    if k == 9 {
        o is Card
    } else {
        o == Outcome::Status(0)
    }
}

/// The error reported when card-session step `k` fails with outcome `o`.
pub open spec fn card_error(k: int, o: Outcome) -> SetupError {
    if k < 6 {
        SetupError::PinClaim { pin: k as u8, code: code_of(o) }
    } else if k == 6 {
        SetupError::HostInit(code_of(o))
    } else if k == 7 {
        SetupError::InitSlot(code_of(o))
    } else if k == 8 {
        SetupError::OutOfMemory
    } else {
        SetupError::CardInit(code_of(o))
    }
}

/// The abstract state of a card-session setup.
pub struct CardSetupModel {
    pub pins: SdPins,
    /// Index of the next step; `CARD_STEPS` once all succeeded.
    pub step: nat,
    /// The error, once a step failed (that step is `step`).
    pub failure: Option<SetupError>,
    /// The releases owed after the failure, in order.
    pub unwind: Seq<Resource>,
    /// How many of those have been performed.
    pub undone: nat,
    /// The probed geometry, once the probe succeeded.
    pub info: CardInfo,
}

/// Consistency of a card-session setup state.
pub open spec fn card_model_ok(m: CardSetupModel) -> bool {
    &&& m.step <= CARD_STEPS
    &&& match m.failure {
        None => m.unwind.len() == 0 && m.undone == 0,
        Some(_) => {
            &&& m.step < CARD_STEPS
            &&& m.unwind == keep_held(card_release_order(), card_held_before(m.step as int))
            &&& m.undone <= m.unwind.len()
        },
    }
}

/// What a card-session setup in state `m` holds.
pub open spec fn card_holding(m: CardSetupModel) -> Set<Resource> {
    match m.failure {
        None => card_held_before(m.step as int),
        Some(_) => released(card_held_before(m.step as int), m.unwind.subrange(0, m.undone as int)),
    }
}

/// What a card-session setup in state `m` asks for.
pub open spec fn card_next(m: CardSetupModel) -> Next {
    match m.failure {
        None => if m.step < CARD_STEPS {
            Next::Perform(card_action(m.step as int))
        } else {
            Next::Ready
        },
        Some(e) => if m.undone < m.unwind.len() {
            Next::Perform(Action::Release(m.unwind[m.undone as int]))
        } else {
            Next::Failed(e)
        },
    }
}

/// The state after outcome `o` of what state `m` asked for.
pub open spec fn card_after(m: CardSetupModel, o: Outcome) -> CardSetupModel {
    match m.failure {
        None => if m.step >= CARD_STEPS {
            m
        } else if card_succeeds(m.step as int, o) {
            CardSetupModel {
                step: m.step + 1,
                info: if m.step == 9 { o->Card_0 } else { m.info },
                ..m
            }
        } else {
            CardSetupModel {
                failure: Some(card_error(m.step as int, o)),
                unwind: keep_held(card_release_order(), card_held_before(m.step as int)),
                undone: 0,
                ..m
            }
        },
        Some(_) => if m.undone < m.unwind.len() {
            CardSetupModel { undone: m.undone + 1, ..m }
        } else {
            m
        },
    }
}

/// Everything a card session can hold is named in its release order.
pub proof fn lemma_card_release_covers(k: int)
    ensures
        card_held_before(k).subset_of(set_of(card_release_order())),
{
    let order = card_release_order();
    assert forall|r: Resource| card_held_before(k).contains(r) implies set_of(order).contains(r) by {
        match r {
            Resource::Pin(i) => {
                assert(order[7 - i as int] == r);
            },
            Resource::Host => {
                assert(order[0] == r);
            },
            Resource::CardRecord => {
                assert(order[1] == r);
            },
            _ => {},
        }
    }
}

/// Whatever step of the card session fails, unwinding gives back everything
/// that the steps before it acquired: no line stays claimed, the host
/// controller is not left initialized and no descriptor stays allocated.
pub proof fn lemma_card_failure_leaks_nothing(k: int)
    requires
        0 <= k < CARD_STEPS,
    ensures
        released(
            card_held_before(k),
            keep_held(card_release_order(), card_held_before(k)),
        ) == Set::<Resource>::empty(),
{
    lemma_card_release_covers(k);
    lemma_unwind_empties(card_release_order(), card_held_before(k));
}

/// Lines `n - 1` down to 0, as pin resources.
pub open spec fn pins_down(n: int) -> Seq<Resource> {
    Seq::new(n as nat, |i: int| Resource::Pin((n - 1 - i) as u8))
}

/// The releases owed when card-session step `k` fails, written out: the host
/// controller once it is up, the descriptor once allocated, then every line
/// claimed so far, last claimed first.
pub proof fn lemma_card_unwind_plan(k: int)
    requires
        0 <= k < CARD_STEPS,
    ensures
        keep_held(card_release_order(), card_held_before(k)) == (if k > 8 {
            seq![Resource::Host, Resource::CardRecord] + pins_down(6)
        } else if k > 6 {
            seq![Resource::Host] + pins_down(6)
        } else {
            pins_down(k)
        }),
{
    let o = card_release_order();
    let h = card_held_before(k);
    assert(o.subrange(0, 8).drop_last() =~= o.subrange(0, 7));
    assert(o.subrange(0, 7).drop_last() =~= o.subrange(0, 6));
    assert(o.subrange(0, 6).drop_last() =~= o.subrange(0, 5));
    assert(o.subrange(0, 5).drop_last() =~= o.subrange(0, 4));
    assert(o.subrange(0, 4).drop_last() =~= o.subrange(0, 3));
    assert(o.subrange(0, 3).drop_last() =~= o.subrange(0, 2));
    assert(o.subrange(0, 2).drop_last() =~= o.subrange(0, 1));
    assert(o.subrange(0, 1).drop_last() =~= o.subrange(0, 0));
    assert(o.subrange(0, 8) =~= o);
    let k0 = keep_held(o.subrange(0, 0), h);
    let k1 = keep_held(o.subrange(0, 1), h);
    let k2 = keep_held(o.subrange(0, 2), h);
    let k3 = keep_held(o.subrange(0, 3), h);
    let k4 = keep_held(o.subrange(0, 4), h);
    let k5 = keep_held(o.subrange(0, 5), h);
    let k6 = keep_held(o.subrange(0, 6), h);
    let k7 = keep_held(o.subrange(0, 7), h);
    let k8 = keep_held(o.subrange(0, 8), h);
    assert(k0 == Seq::<Resource>::empty());
    assert(k1 == if k > 6 { k0.push(Resource::Host) } else { k0 });
    assert(k2 == if k > 8 { k1.push(Resource::CardRecord) } else { k1 });
    assert(k3 == if k > 5 { k2.push(Resource::Pin(5)) } else { k2 });
    assert(k4 == if k > 4 { k3.push(Resource::Pin(4)) } else { k3 });
    assert(k5 == if k > 3 { k4.push(Resource::Pin(3)) } else { k4 });
    assert(k6 == if k > 2 { k5.push(Resource::Pin(2)) } else { k5 });
    assert(k7 == if k > 1 { k6.push(Resource::Pin(1)) } else { k6 });
    assert(k8 == if k > 0 { k7.push(Resource::Pin(0)) } else { k7 });
    if k > 8 {
        assert(k8 =~= seq![Resource::Host, Resource::CardRecord] + pins_down(6));
    } else if k > 6 {
        assert(k8 =~= seq![Resource::Host] + pins_down(6));
    } else {
        assert(k8 =~= pins_down(k));
    }
}

/// Builds the release order of a card session.
pub fn card_release_list() -> (r: Vec<Resource>)
    ensures
        r@ == card_release_order(),
{
    let mut r: Vec<Resource> = Vec::new();
    r.push(Resource::Host);
    r.push(Resource::CardRecord);
    let mut i: u8 = PIN_COUNT;
    while i > 0
        invariant
            i <= PIN_COUNT,
            r@.len() == 2 + (PIN_COUNT - i),
            r@[0] == Resource::Host,
            r@[1] == Resource::CardRecord,
            forall|j: int| 2 <= j < r@.len() ==> r@[j] == Resource::Pin((7 - j) as u8),
        decreases i,
    {
        i = i - 1;
        r.push(Resource::Pin(i));
    }
    assert(r@ =~= card_release_order());
    r
}

/// Setup of a card session: claims the lines, brings up the host controller,
/// configures the slot, allocates and probes the card descriptor, and on any
/// failure gives back what it acquired.
pub struct CardSetup {
    pins: SdPins,
    step: usize,
    held: Vec<Resource>,
    unwind: Vec<Resource>,
    undone: usize,
    failure: Option<SetupError>,
    info: CardInfo,
}

impl View for CardSetup {
    type V = CardSetupModel;

    closed spec fn view(&self) -> CardSetupModel {
        CardSetupModel {
            pins: self.pins,
            step: self.step as nat,
            failure: self.failure,
            unwind: self.unwind@,
            undone: self.undone as nat,
            info: self.info,
        }
    }
}

impl CardSetup {
    /// The setup is consistent.
    pub closed spec fn wf(&self) -> bool {
        &&& card_model_ok(self@)
        &&& self.failure is None ==> set_of(self.held@) == card_held_before(self.step as int)
    }

    /// Starts a setup on a pin set, with nothing acquired.
    pub fn new(pins: SdPins) -> (r: CardSetup)
        ensures
            r.wf(),
            r@.pins == pins,
            r@.step == 0,
            r@.failure is None,
            card_holding(r@) == Set::<Resource>::empty(),
    {
        let r = CardSetup {
            pins,
            step: 0,
            held: Vec::new(),
            unwind: Vec::new(),
            undone: 0,
            failure: None,
            info: CardInfo { capacity: 0, sector_size: 0, read_block_len: 0 },
        };
        assert(set_of(r.held@) =~= card_held_before(0));
        assert(card_holding(r@) =~= Set::<Resource>::empty());
        r
    }

    /// The slot configuration that `InitSlot` is to apply.
    pub fn slot_config(&self) -> (r: SlotConfig)
        ensures
            r == spec_slot_config(self@.pins),
    {
        slot_config(&self.pins)
    }

    /// What to do next. A setup that reports failure holds nothing.
    pub fn next(&self) -> (r: Next)
        requires
            self.wf(),
        ensures
            r == card_next(self@),
            r is Failed ==> card_holding(self@) == Set::<Resource>::empty(),
            r is Ready ==> card_holding(self@) == card_held_before(CARD_STEPS as int),
    {
        match self.failure {
            None => {
                if self.step < CARD_STEPS {
                    Next::Perform(card_action_at(self.step))
                } else {
                    Next::Ready
                }
            },
            Some(e) => {
                if self.undone < self.unwind.len() {
                    Next::Perform(Action::Release(self.unwind[self.undone]))
                } else {
                    proof {
                        assert(self.unwind@.subrange(0, self.undone as int) =~= self.unwind@);
                        lemma_card_failure_leaks_nothing(self.step as int);
                    }
                    Next::Failed(e)
                }
            },
        }
    }

    /// Takes the outcome of the action that `next` asked for.
    pub fn report(&mut self, o: Outcome)
        requires
            old(self).wf(),
        ensures
            final(self).wf(),
            final(self)@ == card_after(old(self)@, o),
    {
        match self.failure {
            None => {
                if self.step >= CARD_STEPS {
                    return ;
                }
                let step = self.step;
                let ok = match o {
                    Outcome::Card(_) => step == 9,
                    Outcome::Status(c) => step != 9 && c == 0,
                    _ => false,
                };
                if ok {
                    proof {
                        lemma_set_of_push(self.held@, Resource::Host);
                        lemma_set_of_push(self.held@, Resource::CardRecord);
                        lemma_set_of_push(self.held@, Resource::Pin(step as u8));
                    }
                    if step < 6 {
                        self.held.push(Resource::Pin(step as u8));
                    } else if step == 6 {
                        self.held.push(Resource::Host);
                    } else if step == 8 {
                        self.held.push(Resource::CardRecord);
                    }
                    if let Outcome::Card(info) = o {
                        self.info = info;
                    }
                    self.step = step + 1;
                    assert(set_of(self.held@) =~= card_held_before(self.step as int));
                } else {
                    let order = card_release_list();
                    self.unwind = unwind_list(&order, &self.held);
                    self.undone = 0;
                    self.failure = Some(card_error_at(step, &o));
                }
            },
            Some(_) => {
                if self.undone < self.unwind.len() {
                    proof {
                        lemma_released_step(
                            card_held_before(self.step as int),
                            self.unwind@,
                            self.undone as int,
                        );
                    }
                    self.undone = self.undone + 1;
                }
            },
        }
    }

    /// Ends the setup: the session, or the error that ended it.
    pub fn finish(self) -> (r: Result<SdmmcCard, SetupError>)
        requires
            self.wf(),
            card_next(self@) is Ready || card_next(self@) is Failed,
        ensures
            card_next(self@) is Ready ==> r == Ok::<SdmmcCard, SetupError>(
                SdmmcCard { pins: self@.pins, host: spec_host_config(), info: self@.info },
            ),
            card_next(self@) is Failed ==> r == Err::<SdmmcCard, SetupError>(
                self@.failure.unwrap(),
            ),
    {
        match self.failure {
            None => Ok(SdmmcCard { pins: self.pins, host: host_config(), info: self.info }),
            Some(e) => Err(e),
        }
    }
}

/// Computes [`card_action`].
fn card_action_at(k: usize) -> (r: Action)
    requires
        k < CARD_STEPS,
    ensures
        r == card_action(k as int),
{
    if k < 6 {
        Action::ClaimPin(k as u8)
    } else if k == 6 {
        Action::HostInit
    } else if k == 7 {
        Action::InitSlot
    } else if k == 8 {
        Action::AllocCard
    } else {
        Action::ProbeCard
    }
}

/// Computes [`card_error`].
fn card_error_at(k: usize, o: &Outcome) -> (r: SetupError)
    requires
        k < CARD_STEPS,
    ensures
        r == card_error(k as int, *o),
{
    let code = status_code(o);
    if k < 6 {
        SetupError::PinClaim { pin: k as u8, code }
    } else if k == 6 {
        SetupError::HostInit(code)
    } else if k == 7 {
        SetupError::InitSlot(code)
    } else if k == 8 {
        SetupError::OutOfMemory
    } else {
        SetupError::CardInit(code)
    }
}

/// A live card session: claimed lines, an initialized host controller and a
/// probed card descriptor, given back together by [`SdmmcCard::release_plan`].
/// A session is moved, never copied, so that it is given back exactly once.
#[derive(PartialEq, Eq, Structural, Debug)]
pub struct SdmmcCard {
    pub pins: SdPins,
    pub host: HostConfig,
    pub info: CardInfo,
}

/// Capacity of a card in bytes: sectors times sector size.
pub open spec fn card_size(c: CardInfo) -> int {
    c.capacity as int * c.sector_size as int
}

impl SdmmcCard {
    /// Capacity of the card in bytes, computed without overflow.
    pub fn size(&self) -> (r: i64)
        ensures
            r as int == card_size(self.info),
    {
        let capacity: i64 = self.info.capacity as i64;
        let sector_size: i64 = self.info.sector_size as i64;
        assert(-0x4000_0000_0000_0000 <= capacity * sector_size <= 0x4000_0000_0000_0000)
            by (nonlinear_arith)
            requires
                -0x8000_0000 <= capacity <= 0x7fff_ffff,
                -0x8000_0000 <= sector_size <= 0x7fff_ffff,
        ;
        capacity * sector_size
    }

    /// Largest read block of the card, in bytes.
    pub fn read_block_len(&self) -> (r: i32)
        ensures
            r == self.info.read_block_len,
    {
        self.info.read_block_len
    }

    /// The releases that end the session, in order.
    pub fn release_plan(&self) -> (r: Vec<Resource>)
        ensures
            r@ == card_release_order(),
    {
        card_release_list()
    }
}

} // verus!
