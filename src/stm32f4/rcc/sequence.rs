//! The clock reconfiguration algorithm.
//!
//! Reconfiguring the clock tree alternates register accesses with waits for
//! the hardware to report a state.  The algorithm is a step machine: each
//! `advance` takes what the previous read returned and says what to do next,
//! and whoever owns the hardware (or a model of it) performs that action.
//!
//! The steps are, in order: turn the HSI oscillator on and wait until it is
//! ready; select it as system clock and wait until the switch shows; turn the
//! PLL off and wait until it stops; write the bus prescalers and then the
//! Flash wait states, before any frequency rises; turn the HSE oscillator on
//! and wait until it is ready; write the whole PLL configuration in one word;
//! turn the PLL on and wait until it locks; select it as system clock and wait
//! until the switch shows.  Each register change is a read followed by a
//! write of the same word with the fields changed.
//!
//! A wait that exceeds the poll limit ends the algorithm with
//! `HardwareTimeout`, leaving the hardware as it stands.  Without a limit a
//! wait polls for as long as it takes.
use vstd::prelude::*;

verus! {

use crate::bits::{bit, field, replaced, IntoBits};
use crate::stm32f4::flash::{Acr, Flash};
use super::{ClockConfig, Rcc, Registers};
use super::raw::{prescaled, Cfgr, ClockSwitch, Cr, PllSource, Pllcfgr};

/// A register that the reconfiguration reads or writes.
#[derive(Clone, Copy, Debug, PartialEq, Eq, Structural)]
pub enum ClockRegister {
    /// The RCC clock control register.
    Cr,
    /// The RCC clock configuration register.
    Cfgr,
    /// The RCC PLL configuration register.
    Pllcfgr,
    /// The Flash access control register.
    FlashAcr,
}

/// What the reconfiguration asks of the hardware next.
#[derive(Clone, Copy, Debug, PartialEq, Eq, Structural)]
pub enum ClockAction {
    /// Read the register, and hand the word read to the next `advance`.
    Read(ClockRegister),
    /// Write the word to the register.
    Write(ClockRegister, u32),
    /// The system clock runs from the PLL, as configured.
    Done,
    /// A readiness flag did not show within the poll limit.
    HardwareTimeout,
}

/// Where the reconfiguration stands: what its last action was for.
#[derive(Clone, Copy, Debug, PartialEq, Eq, Structural)]
pub enum ClockStage {
    Start,
    HsiOnRead,
    HsiOnWritten,
    HsiReadyPoll,
    HsiSelectRead,
    HsiSelectWritten,
    HsiSelectedPoll,
    PllOffRead,
    PllOffWritten,
    PllStoppedPoll,
    DividersRead,
    DividersWritten,
    LatencyRead,
    LatencyWritten,
    HseOnRead,
    HseOnWritten,
    HseReadyPoll,
    PllConfigRead,
    PllConfigWritten,
    PllOnRead,
    PllOnWritten,
    PllReadyPoll,
    PllSelectRead,
    PllSelectWritten,
    PllSelectedPoll,
    Finished,
    TimedOut,
}

impl ClockStage {
    /// The position of the stage in the algorithm.
    pub open spec fn rank(self) -> nat {
        match self {
            ClockStage::Start => 0,
            ClockStage::HsiOnRead => 1,
            ClockStage::HsiOnWritten => 2,
            ClockStage::HsiReadyPoll => 3,
            ClockStage::HsiSelectRead => 4,
            ClockStage::HsiSelectWritten => 5,
            ClockStage::HsiSelectedPoll => 6,
            ClockStage::PllOffRead => 7,
            ClockStage::PllOffWritten => 8,
            ClockStage::PllStoppedPoll => 9,
            ClockStage::DividersRead => 10,
            ClockStage::DividersWritten => 11,
            ClockStage::LatencyRead => 12,
            ClockStage::LatencyWritten => 13,
            ClockStage::HseOnRead => 14,
            ClockStage::HseOnWritten => 15,
            ClockStage::HseReadyPoll => 16,
            ClockStage::PllConfigRead => 17,
            ClockStage::PllConfigWritten => 18,
            ClockStage::PllOnRead => 19,
            ClockStage::PllOnWritten => 20,
            ClockStage::PllReadyPoll => 21,
            ClockStage::PllSelectRead => 22,
            ClockStage::PllSelectWritten => 23,
            ClockStage::PllSelectedPoll => 24,
            ClockStage::Finished => 25,
            ClockStage::TimedOut => 26,
        }
    }
}

/// The clock configuration register `v` with the bus prescalers of `cfg`.
pub open spec fn bus_dividers(v: u32, cfg: ClockConfig) -> u32 {
    prescaled(
        prescaled(prescaled(v, 7, 6, 4, cfg.ahb_divisor), 12, 11, 10, cfg.apb1_divisor),
        15,
        14,
        13,
        cfg.apb2_divisor,
    )
}

/// The PLL configuration register `v` with the divisors and multiplier of
/// `cfg`, and the HSE as PLL input.
pub open spec fn pll_settings(v: u32, cfg: ClockConfig) -> u32 {
    replaced(
        replaced(
            replaced(
                replaced(replaced(v, 5, 0, cfg.crystal_divisor), 14, 6, cfg.vco_multiplier),
                17,
                16,
                cfg.general_divisor.bits_of(),
            ),
            27,
            24,
            cfg.pll48_divisor,
        ),
        22,
        22,
        1,
    )
}

/// The state of a clock reconfiguration.
#[derive(Clone, Copy, Debug, PartialEq, Eq, Structural)]
pub struct ClockSequencer {
    /// The configuration being applied.
    pub cfg: ClockConfig,
    /// What the last action was for.
    pub stage: ClockStage,
    /// How many times the current wait has polled again.
    pub polls: u32,
    /// How many times a wait may poll again before it gives up; `None` waits
    /// for as long as it takes.
    pub poll_limit: Option<u32>,
}

impl ClockSequencer {
    /// The sequencer moved on to `stage`, with a fresh poll count.
    pub open spec fn to(self, stage: ClockStage) -> ClockSequencer {
        ClockSequencer { stage, polls: 0, ..self }
    }

    /// A wait whose flag has not shown yet: read `reg` again, or give up once
    /// the poll limit is reached.
    pub open spec fn poll(self, reg: ClockRegister) -> (ClockSequencer, ClockAction) {
        match self.poll_limit {
            None => (self, ClockAction::Read(reg)),
            Some(limit) => if self.polls < limit {
                (ClockSequencer { polls: (self.polls + 1) as u32, ..self }, ClockAction::Read(reg))
            } else {
                (self.to(ClockStage::TimedOut), ClockAction::HardwareTimeout)
            },
        }
    }

    /// The next state and action, given the word `v` that the last read
    /// returned (ignored where the last action was no read).
    pub open spec fn next(self, v: u32) -> (ClockSequencer, ClockAction) {
        let cfg = self.cfg;
        match self.stage {
            ClockStage::Start => (
                self.to(ClockStage::HsiOnRead),
                ClockAction::Read(ClockRegister::Cr),
            ),
            ClockStage::HsiOnRead => (
                self.to(ClockStage::HsiOnWritten),
                ClockAction::Write(ClockRegister::Cr, replaced(v, 0, 0, 1)),
            ),
            ClockStage::HsiOnWritten => (
                self.to(ClockStage::HsiReadyPoll),
                ClockAction::Read(ClockRegister::Cr),
            ),
            ClockStage::HsiReadyPoll => if bit(v, 1) {
                (self.to(ClockStage::HsiSelectRead), ClockAction::Read(ClockRegister::Cfgr))
            } else {
                self.poll(ClockRegister::Cr)
            },
            ClockStage::HsiSelectRead => (
                self.to(ClockStage::HsiSelectWritten),
                ClockAction::Write(ClockRegister::Cfgr, replaced(v, 1, 0, ClockSwitch::Hsi.bits_of())),
            ),
            ClockStage::HsiSelectWritten => (
                self.to(ClockStage::HsiSelectedPoll),
                ClockAction::Read(ClockRegister::Cfgr),
            ),
            ClockStage::HsiSelectedPoll => if field(v, 3, 2) == ClockSwitch::Hsi.bits_of() {
                (self.to(ClockStage::PllOffRead), ClockAction::Read(ClockRegister::Cr))
            } else {
                self.poll(ClockRegister::Cfgr)
            },
            ClockStage::PllOffRead => (
                self.to(ClockStage::PllOffWritten),
                ClockAction::Write(ClockRegister::Cr, replaced(v, 24, 24, 0)),
            ),
            ClockStage::PllOffWritten => (
                self.to(ClockStage::PllStoppedPoll),
                ClockAction::Read(ClockRegister::Cr),
            ),
            ClockStage::PllStoppedPoll => if !bit(v, 25) {
                (self.to(ClockStage::DividersRead), ClockAction::Read(ClockRegister::Cfgr))
            } else {
                self.poll(ClockRegister::Cr)
            },
            ClockStage::DividersRead => (
                self.to(ClockStage::DividersWritten),
                ClockAction::Write(ClockRegister::Cfgr, bus_dividers(v, cfg)),
            ),
            ClockStage::DividersWritten => (
                self.to(ClockStage::LatencyRead),
                ClockAction::Read(ClockRegister::FlashAcr),
            ),
            ClockStage::LatencyRead => (
                self.to(ClockStage::LatencyWritten),
                ClockAction::Write(ClockRegister::FlashAcr, replaced(v, 2, 0, cfg.flash_latency)),
            ),
            ClockStage::LatencyWritten => (
                self.to(ClockStage::HseOnRead),
                ClockAction::Read(ClockRegister::Cr),
            ),
            ClockStage::HseOnRead => (
                self.to(ClockStage::HseOnWritten),
                ClockAction::Write(ClockRegister::Cr, replaced(v, 16, 16, 1)),
            ),
            ClockStage::HseOnWritten => (
                self.to(ClockStage::HseReadyPoll),
                ClockAction::Read(ClockRegister::Cr),
            ),
            ClockStage::HseReadyPoll => if bit(v, 17) {
                (self.to(ClockStage::PllConfigRead), ClockAction::Read(ClockRegister::Pllcfgr))
            } else {
                self.poll(ClockRegister::Cr)
            },
            ClockStage::PllConfigRead => (
                self.to(ClockStage::PllConfigWritten),
                ClockAction::Write(ClockRegister::Pllcfgr, pll_settings(v, cfg)),
            ),
            ClockStage::PllConfigWritten => (
                self.to(ClockStage::PllOnRead),
                ClockAction::Read(ClockRegister::Cr),
            ),
            ClockStage::PllOnRead => (
                self.to(ClockStage::PllOnWritten),
                ClockAction::Write(ClockRegister::Cr, replaced(v, 24, 24, 1)),
            ),
            ClockStage::PllOnWritten => (
                self.to(ClockStage::PllReadyPoll),
                ClockAction::Read(ClockRegister::Cr),
            ),
            ClockStage::PllReadyPoll => if bit(v, 25) {
                (self.to(ClockStage::PllSelectRead), ClockAction::Read(ClockRegister::Cfgr))
            } else {
                self.poll(ClockRegister::Cr)
            },
            ClockStage::PllSelectRead => (
                self.to(ClockStage::PllSelectWritten),
                ClockAction::Write(ClockRegister::Cfgr, replaced(v, 1, 0, ClockSwitch::Pll.bits_of())),
            ),
            ClockStage::PllSelectWritten => (
                self.to(ClockStage::PllSelectedPoll),
                ClockAction::Read(ClockRegister::Cfgr),
            ),
            ClockStage::PllSelectedPoll => if field(v, 3, 2) == ClockSwitch::Pll.bits_of() {
                (self.to(ClockStage::Finished), ClockAction::Done)
            } else {
                self.poll(ClockRegister::Cfgr)
            },
            ClockStage::Finished => (self, ClockAction::Done),
            ClockStage::TimedOut => (self, ClockAction::HardwareTimeout),
        }
    }

    /// A reconfiguration to `cfg` that has not started yet.
    pub fn new(cfg: ClockConfig, poll_limit: Option<u32>) -> (r: Self)
        ensures
            r == (ClockSequencer { cfg, stage: ClockStage::Start, polls: 0, poll_limit }),
    {
        ClockSequencer { cfg, stage: ClockStage::Start, polls: 0, poll_limit }
    }

    fn go(&mut self, stage: ClockStage, action: ClockAction) -> (r: ClockAction)
        ensures
            *final(self) == old(self).to(stage),
            r == action,
    {
        self.stage = stage;
        self.polls = 0;
        action
    }

    fn wait(&mut self, reg: ClockRegister) -> (r: ClockAction)
        ensures
            (*final(self), r) == old(self).poll(reg),
    {
        match self.poll_limit {
            None => ClockAction::Read(reg),
            Some(limit) => if self.polls < limit {
                self.polls = self.polls + 1;
                ClockAction::Read(reg)
            } else {
                self.go(ClockStage::TimedOut, ClockAction::HardwareTimeout)
            },
        }
    }

    /// Takes the word `v` that the last read returned (any word where the last
    /// action was no read) and returns the next action.
    pub fn advance(&mut self, v: u32) -> (r: ClockAction)
        ensures
            (*final(self), r) == old(self).next(v),
    {
        let cfg = self.cfg;
        match self.stage {
            ClockStage::Start => self.go(
                ClockStage::HsiOnRead,
                ClockAction::Read(ClockRegister::Cr),
            ),
            ClockStage::HsiOnRead => self.go(
                ClockStage::HsiOnWritten,
                ClockAction::Write(ClockRegister::Cr, Cr(v).with_hsion(true).0),
            ),
            ClockStage::HsiOnWritten => self.go(
                ClockStage::HsiReadyPoll,
                ClockAction::Read(ClockRegister::Cr),
            ),
            ClockStage::HsiReadyPoll => if Cr(v).get_hsirdy() {
                self.go(ClockStage::HsiSelectRead, ClockAction::Read(ClockRegister::Cfgr))
            } else {
                self.wait(ClockRegister::Cr)
            },
            ClockStage::HsiSelectRead => self.go(
                ClockStage::HsiSelectWritten,
                ClockAction::Write(ClockRegister::Cfgr, Cfgr(v).with_sw(ClockSwitch::Hsi).0),
            ),
            ClockStage::HsiSelectWritten => self.go(
                ClockStage::HsiSelectedPoll,
                ClockAction::Read(ClockRegister::Cfgr),
            ),
            ClockStage::HsiSelectedPoll => if matches!(Cfgr(v).get_sws(), Ok(ClockSwitch::Hsi)) {
                self.go(ClockStage::PllOffRead, ClockAction::Read(ClockRegister::Cr))
            } else {
                self.wait(ClockRegister::Cfgr)
            },
            ClockStage::PllOffRead => self.go(
                ClockStage::PllOffWritten,
                ClockAction::Write(ClockRegister::Cr, Cr(v).with_pllon(false).0),
            ),
            ClockStage::PllOffWritten => self.go(
                ClockStage::PllStoppedPoll,
                ClockAction::Read(ClockRegister::Cr),
            ),
            ClockStage::PllStoppedPoll => if !Cr(v).get_pllrdy() {
                self.go(ClockStage::DividersRead, ClockAction::Read(ClockRegister::Cfgr))
            } else {
                self.wait(ClockRegister::Cr)
            },
            ClockStage::DividersRead => {
                let w = Cfgr(v).with_hpre(cfg.ahb_divisor).with_ppre1(cfg.apb1_divisor).with_ppre2(
                    cfg.apb2_divisor,
                );
                self.go(ClockStage::DividersWritten, ClockAction::Write(ClockRegister::Cfgr, w.0))
            },
            ClockStage::DividersWritten => self.go(
                ClockStage::LatencyRead,
                ClockAction::Read(ClockRegister::FlashAcr),
            ),
            ClockStage::LatencyRead => self.go(
                ClockStage::LatencyWritten,
                ClockAction::Write(ClockRegister::FlashAcr, Acr(v).with_latency(cfg.flash_latency).0),
            ),
            ClockStage::LatencyWritten => self.go(
                ClockStage::HseOnRead,
                ClockAction::Read(ClockRegister::Cr),
            ),
            ClockStage::HseOnRead => self.go(
                ClockStage::HseOnWritten,
                ClockAction::Write(ClockRegister::Cr, Cr(v).with_hseon(true).0),
            ),
            ClockStage::HseOnWritten => self.go(
                ClockStage::HseReadyPoll,
                ClockAction::Read(ClockRegister::Cr),
            ),
            ClockStage::HseReadyPoll => if Cr(v).get_hserdy() {
                self.go(ClockStage::PllConfigRead, ClockAction::Read(ClockRegister::Pllcfgr))
            } else {
                self.wait(ClockRegister::Cr)
            },
            ClockStage::PllConfigRead => {
                let w = Pllcfgr(v).with_pllm(cfg.crystal_divisor).with_plln(
                    cfg.vco_multiplier,
                ).with_pllp(cfg.general_divisor).with_pllq(cfg.pll48_divisor).with_pllsrc(
                    PllSource::Hse,
                );
                self.go(ClockStage::PllConfigWritten, ClockAction::Write(ClockRegister::Pllcfgr, w.0))
            },
            ClockStage::PllConfigWritten => self.go(
                ClockStage::PllOnRead,
                ClockAction::Read(ClockRegister::Cr),
            ),
            ClockStage::PllOnRead => self.go(
                ClockStage::PllOnWritten,
                ClockAction::Write(ClockRegister::Cr, Cr(v).with_pllon(true).0),
            ),
            ClockStage::PllOnWritten => self.go(
                ClockStage::PllReadyPoll,
                ClockAction::Read(ClockRegister::Cr),
            ),
            ClockStage::PllReadyPoll => if Cr(v).get_pllrdy() {
                self.go(ClockStage::PllSelectRead, ClockAction::Read(ClockRegister::Cfgr))
            } else {
                self.wait(ClockRegister::Cr)
            },
            ClockStage::PllSelectRead => self.go(
                ClockStage::PllSelectWritten,
                ClockAction::Write(ClockRegister::Cfgr, Cfgr(v).with_sw(ClockSwitch::Pll).0),
            ),
            ClockStage::PllSelectWritten => self.go(
                ClockStage::PllSelectedPoll,
                ClockAction::Read(ClockRegister::Cfgr),
            ),
            ClockStage::PllSelectedPoll => if matches!(Cfgr(v).get_sws(), Ok(ClockSwitch::Pll)) {
                self.go(ClockStage::Finished, ClockAction::Done)
            } else {
                self.wait(ClockRegister::Cfgr)
            },
            ClockStage::Finished => ClockAction::Done,
            ClockStage::TimedOut => ClockAction::HardwareTimeout,
        }
    }
}

/// The stages entered and the actions issued when a sequencer in state `seq`
/// is advanced with the words `observed`, one after another.
pub open spec fn trace(seq: ClockSequencer, observed: Seq<u32>) -> Seq<(ClockStage, ClockAction)>
    decreases observed.len(),
{
    if observed.len() == 0 {
        Seq::empty()
    } else {
        let (next, action) = seq.next(observed[0]);
        seq![(next.stage, action)] + trace(next, observed.subrange(1, observed.len() as int))
    }
}

/// The configuration never changes, and the stages never go back.
proof fn lemma_trace_monotone(seq: ClockSequencer, observed: Seq<u32>)
    ensures
        forall|i: int|
            0 <= i < observed.len() ==> seq.stage.rank() <= (#[trigger] trace(seq, observed)[i]).0.rank(),
        forall|i: int, j: int|
            0 <= i <= j < observed.len() ==> (#[trigger] trace(seq, observed)[i]).0.rank() <= (
            #[trigger] trace(seq, observed)[j]).0.rank(),
        trace(seq, observed).len() == observed.len(),
    decreases observed.len(),
{
    if observed.len() > 0 {
        let (next, action) = seq.next(observed[0]);
        let rest = observed.subrange(1, observed.len() as int);
        lemma_trace_monotone(next, rest);
        let t = trace(seq, observed);
        assert(t == seq![(next.stage, action)] + trace(next, rest));
        assert forall|i: int| 0 <= i < observed.len() implies seq.stage.rank() <= (
        #[trigger] t[i]).0.rank() by {
            if i > 0 {
                assert(t[i] == trace(next, rest)[i - 1]);
            }
        }
        assert forall|i: int, j: int|
            0 <= i <= j < observed.len() implies (#[trigger] t[i]).0.rank() <= (
            #[trigger] t[j]).0.rank() by {
            if i > 0 {
                assert(t[i] == trace(next, rest)[i - 1]);
            }
            if j > 0 {
                assert(t[j] == trace(next, rest)[j - 1]);
            }
        }
    }
}

/// The write that a stage's action carries, given the word read before it.
proof fn lemma_trace_step(seq: ClockSequencer, observed: Seq<u32>, i: int)
    requires
        0 <= i < observed.len(),
    ensures
        ({
            let t = trace(seq, observed);
            let cfg = seq.cfg;
            &&& t[i].0 == ClockStage::DividersWritten ==> t[i].1 == ClockAction::Write(
                ClockRegister::Cfgr,
                bus_dividers(observed[i], cfg),
            )
            &&& t[i].0 == ClockStage::LatencyWritten ==> t[i].1 == ClockAction::Write(
                ClockRegister::FlashAcr,
                replaced(observed[i], 2, 0, cfg.flash_latency),
            )
            &&& t[i].0 == ClockStage::PllOnWritten ==> t[i].1 == ClockAction::Write(
                ClockRegister::Cr,
                replaced(observed[i], 24, 24, 1),
            )
            &&& t[i].0 == ClockStage::PllSelectWritten ==> t[i].1 == ClockAction::Write(
                ClockRegister::Cfgr,
                replaced(observed[i], 1, 0, ClockSwitch::Pll.bits_of()),
            )
        }),
    decreases observed.len(),
{
    let (next, action) = seq.next(observed[0]);
    let rest = observed.subrange(1, observed.len() as int);
    let t = trace(seq, observed);
    assert(t == seq![(next.stage, action)] + trace(next, rest));
    if i > 0 {
        lemma_trace_monotone(next, rest);
        lemma_trace_step(next, rest, i - 1);
        assert(t[i] == trace(next, rest)[i - 1]);
        assert(observed[i] == rest[i - 1]);
    }
}

/// How consecutive stages of a trace are linked around the switch to the
/// PLL: the stage before (or the starting stage, for the first step) is the
/// only one that leads there.
proof fn lemma_trace_link(seq: ClockSequencer, observed: Seq<u32>, k: int)
    requires
        0 <= k < observed.len(),
    ensures
        ({
            let t = trace(seq, observed);
            let before = if k == 0 {
                seq.stage
            } else {
                t[k - 1].0
            };
            &&& t[k].0 == ClockStage::PllSelectWritten ==> before == ClockStage::PllSelectRead
            &&& t[k].0 == ClockStage::PllSelectRead ==> before == ClockStage::PllReadyPoll && bit(
                observed[k],
                25,
            ) && t[k].1 == ClockAction::Read(ClockRegister::Cfgr)
            &&& t[k].0 == ClockStage::PllReadyPoll ==> t[k].1 == ClockAction::Read(
                ClockRegister::Cr,
            )
        }),
    decreases observed.len(),
{
    let (next, action) = seq.next(observed[0]);
    let rest = observed.subrange(1, observed.len() as int);
    let t = trace(seq, observed);
    assert(t == seq![(next.stage, action)] + trace(next, rest));
    lemma_trace_monotone(next, rest);
    if k > 0 {
        lemma_trace_link(next, rest, k - 1);
        assert(t[k] == trace(next, rest)[k - 1]);
        assert(observed[k] == rest[k - 1]);
        if k > 1 {
            assert(t[k - 1] == trace(next, rest)[k - 2]);
        }
    }
}

/// However the hardware answers, a reconfiguration to any configuration
/// writes the bus prescalers and the Flash wait states strictly before it
/// turns the PLL on, and turns the PLL on strictly before it selects the PLL
/// as system clock.  The write that selects the PLL comes right after a read
/// of the clock configuration register, which itself comes right after a read
/// of the clock control register showing the PLL locked (PLLRDY set).  Each of these writes carries what the configuration
/// asks for, over the word read just before it.
pub proof fn lemma_configuration_order(cfg: ClockConfig, poll_limit: Option<u32>, observed: Seq<u32>)
    ensures
        ({
            let t = trace(
                ClockSequencer { cfg, stage: ClockStage::Start, polls: 0, poll_limit },
                observed,
            );
            &&& t.len() == observed.len()
            &&& forall|i: int, j: int|
                0 <= i < t.len() && 0 <= j < t.len() && (#[trigger] t[i]).0
                    == ClockStage::PllOnWritten && ((#[trigger] t[j]).0
                    == ClockStage::DividersWritten || t[j].0 == ClockStage::LatencyWritten)
                    ==> j < i
            &&& forall|i: int, j: int|
                0 <= i < t.len() && 0 <= j < t.len() && (#[trigger] t[i]).0
                    == ClockStage::PllSelectWritten && (#[trigger] t[j]).0
                    == ClockStage::PllOnWritten ==> j < i
            &&& forall|i: int|
                0 <= i < t.len() && (#[trigger] t[i]).0 == ClockStage::PllSelectWritten ==> {
                    &&& 2 <= i
                    &&& t[i - 1] == (
                        ClockStage::PllSelectRead,
                        ClockAction::Read(ClockRegister::Cfgr),
                    )
                    &&& t[i - 2] == (ClockStage::PllReadyPoll, ClockAction::Read(ClockRegister::Cr))
                    &&& bit(observed[i - 1], 25)
                }
            &&& forall|i: int|
                0 <= i < t.len() ==> {
                    &&& (#[trigger] t[i]).0 == ClockStage::DividersWritten ==> t[i].1
                        == ClockAction::Write(ClockRegister::Cfgr, bus_dividers(observed[i], cfg))
                    &&& t[i].0 == ClockStage::LatencyWritten ==> t[i].1 == ClockAction::Write(
                        ClockRegister::FlashAcr,
                        replaced(observed[i], 2, 0, cfg.flash_latency),
                    )
                    &&& t[i].0 == ClockStage::PllOnWritten ==> t[i].1 == ClockAction::Write(
                        ClockRegister::Cr,
                        replaced(observed[i], 24, 24, 1),
                    )
                    &&& t[i].0 == ClockStage::PllSelectWritten ==> t[i].1 == ClockAction::Write(
                        ClockRegister::Cfgr,
                        replaced(observed[i], 1, 0, ClockSwitch::Pll.bits_of()),
                    )
                }
        }),
{
    let seq = ClockSequencer { cfg, stage: ClockStage::Start, polls: 0, poll_limit };
    let t = trace(seq, observed);
    lemma_trace_monotone(seq, observed);
    assert forall|i: int| 0 <= i < t.len() implies {
        &&& (#[trigger] t[i]).0 == ClockStage::DividersWritten ==> t[i].1 == ClockAction::Write(
            ClockRegister::Cfgr,
            bus_dividers(observed[i], cfg),
        )
        &&& t[i].0 == ClockStage::LatencyWritten ==> t[i].1 == ClockAction::Write(
            ClockRegister::FlashAcr,
            replaced(observed[i], 2, 0, cfg.flash_latency),
        )
        &&& t[i].0 == ClockStage::PllOnWritten ==> t[i].1 == ClockAction::Write(
            ClockRegister::Cr,
            replaced(observed[i], 24, 24, 1),
        )
        &&& t[i].0 == ClockStage::PllSelectWritten ==> t[i].1 == ClockAction::Write(
            ClockRegister::Cfgr,
            replaced(observed[i], 1, 0, ClockSwitch::Pll.bits_of()),
        )
    } by {
        lemma_trace_step(seq, observed, i);
    }
    assert forall|i: int|
        0 <= i < t.len() && (#[trigger] t[i]).0 == ClockStage::PllSelectWritten implies {
        &&& 2 <= i
        &&& t[i - 1] == (ClockStage::PllSelectRead, ClockAction::Read(ClockRegister::Cfgr))
        &&& t[i - 2] == (ClockStage::PllReadyPoll, ClockAction::Read(ClockRegister::Cr))
        &&& bit(observed[i - 1], 25)
    } by {
        lemma_trace_link(seq, observed, i);
        assert(i >= 1);
        lemma_trace_link(seq, observed, i - 1);
        assert(i >= 2);
        lemma_trace_link(seq, observed, i - 2);
    }
    assert forall|i: int, j: int|
        0 <= i < t.len() && 0 <= j < t.len() && (#[trigger] t[i]).0 == ClockStage::PllOnWritten
            && ((#[trigger] t[j]).0 == ClockStage::DividersWritten || t[j].0
            == ClockStage::LatencyWritten) implies j < i by {
        if i <= j {
            assert(t[i].0.rank() <= t[j].0.rank());
        }
    }
    assert forall|i: int, j: int|
        0 <= i < t.len() && 0 <= j < t.len() && (#[trigger] t[i]).0 == ClockStage::PllSelectWritten
            && (#[trigger] t[j]).0 == ClockStage::PllOnWritten implies j < i by {
        if i <= j {
            assert(t[i].0.rank() <= t[j].0.rank());
        }
    }
}

impl Rcc {
    /// Starts a reconfiguration of the RCC to `cfg`; see the module's
    /// description for the steps.  Each wait gives up after `poll_limit`
    /// further polls, or never where there is no limit.
    ///
    /// Note that this also reconfigures the number of Flash wait states.
    pub fn configure_clocks(cfg: &ClockConfig, poll_limit: Option<u32>) -> (r: ClockSequencer)
        ensures
            r == (ClockSequencer { cfg: *cfg, stage: ClockStage::Start, polls: 0, poll_limit }),
    {
        ClockSequencer::new(*cfg, poll_limit)
    }

    /// Performs `action` on these registers and on `flash`: a read returns
    /// the register's word and changes nothing; a write stores the word and
    /// returns 0; any other action changes nothing and returns 0.
    pub fn perform(&mut self, flash: &mut Flash, action: ClockAction) -> (r: u32)
        ensures
            match action {
                ClockAction::Read(reg) => {
                    &&& r == match reg {
                        ClockRegister::Cr => old(self).reg.cr.value(),
                        ClockRegister::Cfgr => old(self).reg.cfgr.value(),
                        ClockRegister::Pllcfgr => old(self).reg.pllcfgr.value(),
                        ClockRegister::FlashAcr => old(flash).acr.value(),
                    }
                    &&& *final(self) == *old(self)
                    &&& *final(flash) == *old(flash)
                },
                ClockAction::Write(reg, w) => {
                    &&& r == 0
                    &&& match reg {
                        ClockRegister::Cr => final(self).reg.cr.value() == w && final(self).reg
                            == (Registers { cr: final(self).reg.cr, ..old(self).reg })
                            && *final(flash) == *old(flash),
                        ClockRegister::Cfgr => final(self).reg.cfgr.value() == w && final(self).reg
                            == (Registers { cfgr: final(self).reg.cfgr, ..old(self).reg })
                            && *final(flash) == *old(flash),
                        ClockRegister::Pllcfgr => final(self).reg.pllcfgr.value() == w
                            && final(self).reg == (Registers {
                            pllcfgr: final(self).reg.pllcfgr,
                            ..old(self).reg
                        }) && *final(flash) == *old(flash),
                        ClockRegister::FlashAcr => final(flash).acr.value() == w && *final(self)
                            == *old(self),
                    }
                },
                _ => r == 0 && *final(self) == *old(self) && *final(flash) == *old(flash),
            },
    {
        match action {
            ClockAction::Read(reg) => match reg {
                ClockRegister::Cr => self.read_cr().0,
                ClockRegister::Cfgr => self.read_cfgr().0,
                ClockRegister::Pllcfgr => self.read_pllcfgr().0,
                ClockRegister::FlashAcr => flash.read_acr().0,
            },
            ClockAction::Write(reg, w) => {
                match reg {
                    ClockRegister::Cr => self.write_cr(Cr(w)),
                    ClockRegister::Cfgr => self.write_cfgr(Cfgr(w)),
                    ClockRegister::Pllcfgr => self.write_pllcfgr(Pllcfgr(w)),
                    ClockRegister::FlashAcr => flash.write_acr(Acr(w)),
                }
                0
            },
            _ => 0,
        }
    }
}

} // verus!
