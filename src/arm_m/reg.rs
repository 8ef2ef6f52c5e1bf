//! Registers of memory-mapped peripherals.
//!
//! A register is modelled by the word it holds and by the processor's
//! exclusive monitor for it: `load_exclusive` takes a reservation, and
//! `store_exclusive` succeeds only while the reservation is intact.  Any store
//! to the register in between (an interrupt handler's, say) drops it.  The
//! atomic read-modify-write operations retry until their exclusive store
//! succeeds, so they never lose a concurrent update.
use vstd::prelude::*;

verus! {

/// A register whose contents can be represented as `T`.
pub struct Reg<T> {
    value: T,
    reserved: bool,
}

impl<T: Copy> Reg<T> {
    /// The contents of the register.
    pub closed spec fn value(self) -> T {
        self.value
    }

    /// Whether a reservation taken by `load_exclusive` is still intact.
    pub closed spec fn reserved(self) -> bool {
        self.reserved
    }

    /// A register holding `value`, with no reservation on it.
    pub fn new(value: T) -> (r: Self)
        ensures
            r.value() == value,
            !r.reserved(),
    {
        Reg { value, reserved: false }
    }

    /// Reads the contents of the register.
    pub fn get(&self) -> (r: T)
        ensures
            r == self.value(),
    {
        self.value
    }

    /// Replaces the contents of the register.  A store drops any reservation.
    pub fn set(&mut self, value: T)
        ensures
            final(self).value() == value,
            !final(self).reserved(),
    {
        self.value = value;
        self.reserved = false;
    }

    /// Replaces the contents of the register with `f` applied to them.
    pub fn update<F: FnOnce(T) -> T>(&mut self, f: F)
        requires
            f.requires((old(self).value(),)),
        ensures
            f.ensures((old(self).value(),), final(self).value()),
            !final(self).reserved(),
    {
        let v = f(self.get());
        self.set(v)
    }

    /// Reads the register and takes a reservation on it (`LDREX`).
    pub fn load_exclusive(&mut self) -> (r: T)
        ensures
            r == old(self).value(),
            final(self).value() == old(self).value(),
            final(self).reserved(),
    {
        self.reserved = true;
        self.value
    }

    /// Stores `value` if the reservation is intact, and says whether it was
    /// (`STREX`).  The reservation is gone afterwards either way.
    pub fn store_exclusive(&mut self, value: T) -> (r: bool)
        ensures
            r == old(self).reserved(),
            final(self).value() == if r {
                value
            } else {
                old(self).value()
            },
            !final(self).reserved(),
    {
        let ok = self.reserved;
        if ok {
            self.value = value;
        }
        self.reserved = false;
        ok
    }
}

/// Additional features of a register holding a word that the processor can
/// update with an exclusive load/store pair.
pub trait AtomicReg {
    /// The word the register holds.
    spec fn word(&self) -> u32;

    /// Clears any bits in the register that are also set in `clear`.
    ///
    /// The update retries until its exclusive store succeeds, so it is atomic
    /// with respect to interrupts.
    fn atomic_nand(&mut self, clear: u32)
        ensures
            final(self).word() == old(self).word() & !clear,
    ;

    /// Sets any bits in the register that are also set in `set`.
    ///
    /// The update retries until its exclusive store succeeds, so it is atomic
    /// with respect to interrupts.
    fn atomic_or(&mut self, set: u32)
        ensures
            final(self).word() == old(self).word() | set,
    ;

    /// Clears any bits in the register that are also set in `clear`, and sets
    /// any bits set in `set`, in that order.
    ///
    /// The update retries until its exclusive store succeeds, so it is atomic
    /// with respect to interrupts.
    fn atomic_nand_and_or(&mut self, clear: u32, set: u32)
        ensures
            final(self).word() == (old(self).word() & !clear) | set,
    ;
}

/// The exclusive read-modify-write that sets `set`'s bits in a register,
/// taken one instruction at a time so that an interrupt may run between two
/// of them.
pub struct ExclusiveOr {
    /// The bits to set.
    pub set: u32,
    /// What the pending load-exclusive read, if one is pending.
    pub loaded: Option<u32>,
    /// Whether the store has succeeded.
    pub done: bool,
}

/// Whether `reg` and the sequence `op` agree: while the reservation that
/// `op`'s load took is intact, the register still holds what was loaded.
pub open spec fn in_step(op: ExclusiveOr, reg: Reg<u32>) -> bool {
    op.loaded is Some && reg.reserved() ==> reg.value() == op.loaded->Some_0
}

/// Whether every bit of `bits` is set in `v`.
pub open spec fn has_bits(v: u32, bits: u32) -> bool {
    v & bits == bits
}

/// Whether every bit set in `before` is still set in `after`.
pub open spec fn keeps_bits(before: u32, after: u32) -> bool {
    before & !after == 0
}

proof fn lemma_or_bits(v: u32, a: u32, b: u32)
    by (bit_vector)
    ensures
        has_bits(v | a, a),
        keeps_bits(v, v | a),
        has_bits(v, b) ==> has_bits(v | a, b),
        keeps_bits(v, v),
{
}

proof fn lemma_keeps_bits_trans(a: u32, b: u32, c: u32, x: u32)
    by (bit_vector)
    requires
        keeps_bits(a, b),
        keeps_bits(b, c),
    ensures
        keeps_bits(a, c),
        has_bits(b, x) ==> has_bits(c, x),
{
}

impl Reg<u32> {
    /// The register after an interrupt handler has set `bits` in it with an
    /// atomic OR of its own, which ends with a store and so drops any
    /// reservation.
    pub closed spec fn interrupted_or(self, bits: u32) -> Self {
        Reg { value: self.value | bits, reserved: false }
    }
}

impl ExclusiveOr {
    /// The sequence and the register after the sequence's next instruction.
    pub closed spec fn next(self, reg: Reg<u32>) -> (ExclusiveOr, Reg<u32>) {
        match self.loaded {
            None => (
                ExclusiveOr { loaded: Some(reg.value), ..self },
                Reg { value: reg.value, reserved: true },
            ),
            Some(v) => if reg.reserved {
                (
                    ExclusiveOr { loaded: None, done: true, ..self },
                    Reg { value: v | self.set, reserved: false },
                )
            } else {
                (ExclusiveOr { loaded: None, ..self }, Reg { value: reg.value, reserved: false })
            },
        }
    }

    /// A sequence that has not started yet.
    pub fn new(set: u32) -> (r: Self)
        ensures
            r == (ExclusiveOr { set, loaded: None, done: false }),
    {
        ExclusiveOr { set, loaded: None, done: false }
    }

    /// Runs the next instruction of the sequence on `reg`: the load-exclusive,
    /// or, after it, the store-exclusive of the loaded word with `set`'s bits.
    /// A failed store restarts the sequence from the load.
    pub fn step(&mut self, reg: &mut Reg<u32>)
        requires
            !old(self).done,
            in_step(*old(self), *old(reg)),
        ensures
            in_step(*final(self), *final(reg)),
            final(self).set == old(self).set,
            final(self).done ==> final(reg).value() == old(reg).value() | old(self).set,
            !final(self).done ==> final(reg).value() == old(reg).value(),
            old(self).loaded is None ==> !final(self).done && final(self).loaded is Some
                && final(reg).reserved(),
            old(self).loaded is Some ==> final(self).loaded is None,
            (*final(self), *final(reg)) == old(self).next(*old(reg)),
            old(self).loaded is Some && old(reg).reserved() ==> final(self).done,
    {
        match self.loaded {
            None => {
                let v = reg.load_exclusive();
                self.loaded = Some(v);
            },
            Some(v) => {
                let ok = reg.store_exclusive(v | self.set);
                self.loaded = None;
                self.done = ok;
            },
        }
    }
}

/// What may happen to a register while a foreground exclusive OR is in
/// progress: the foreground's next instruction, or an interrupt handler that
/// sets bits with an atomic OR of its own.
pub enum OrEvent {
    Foreground,
    Interrupt(u32),
}

/// The sequence and the register after `events`, in order.  A finished
/// sequence ignores further turns of the foreground.
pub open spec fn run_or(op: ExclusiveOr, reg: Reg<u32>, events: Seq<OrEvent>) -> (
    ExclusiveOr,
    Reg<u32>,
)
    decreases events.len(),
{
    if events.len() == 0 {
        (op, reg)
    } else {
        let (op1, reg1) = match events[0] {
            OrEvent::Foreground => if op.done {
                (op, reg)
            } else {
                op.next(reg)
            },
            OrEvent::Interrupt(bits) => (op, reg.interrupted_or(bits)),
        };
        run_or(op1, reg1, events.subrange(1, events.len() as int))
    }
}

/// An exclusive OR loses no update, however interrupts interleave with it.
/// Whatever interrupt handlers set bits in the same register while the
/// foreground sequence runs, afterwards the register still holds every bit it
/// held before and every bit an interrupt set, and, once the foreground's
/// store has succeeded, the foreground's bits too.
pub proof fn lemma_exclusive_or_loses_no_update(
    op: ExclusiveOr,
    reg: Reg<u32>,
    events: Seq<OrEvent>,
)
    requires
        in_step(op, reg),
    ensures
        ({
            let (op2, reg2) = run_or(op, reg, events);
            &&& in_step(op2, reg2)
            &&& op2.set == op.set
            &&& keeps_bits(reg.value(), reg2.value())
            &&& forall|i: int|
                0 <= i < events.len() && (#[trigger] events[i]) is Interrupt ==> has_bits(
                    reg2.value(),
                    events[i]->Interrupt_0,
                )
            &&& op2.done && !op.done ==> has_bits(reg2.value(), op.set)
        }),
    decreases events.len(),
{
    if events.len() == 0 {
        lemma_or_bits(reg.value(), 0, 0);
    } else {
        let rest = events.subrange(1, events.len() as int);
        let (op1, reg1) = match events[0] {
            OrEvent::Foreground => if op.done {
                (op, reg)
            } else {
                op.next(reg)
            },
            OrEvent::Interrupt(bits) => (op, reg.interrupted_or(bits)),
        };
        let first_bits = match events[0] {
            OrEvent::Foreground => 0u32,
            OrEvent::Interrupt(bits) => bits,
        };
        match events[0] {
            OrEvent::Foreground => {
                match op.loaded {
                    Some(v) => lemma_or_bits(reg.value(), op.set, op.set),
                    None => lemma_or_bits(reg.value(), 0, 0),
                }
            },
            OrEvent::Interrupt(bits) => lemma_or_bits(reg.value(), bits, bits),
        }
        assert(keeps_bits(reg.value(), reg1.value()));
        lemma_exclusive_or_loses_no_update(op1, reg1, rest);
        let (op2, reg2) = run_or(op1, reg1, rest);
        assert(run_or(op, reg, events) == (op2, reg2));
        lemma_keeps_bits_trans(reg.value(), reg1.value(), reg2.value(), op.set);
        lemma_keeps_bits_trans(reg.value(), reg1.value(), reg2.value(), first_bits);
        assert forall|i: int|
            0 <= i < events.len() && (#[trigger] events[i]) is Interrupt implies has_bits(
                reg2.value(),
                events[i]->Interrupt_0,
            ) by {
            if i > 0 {
                assert(events[i] == rest[i - 1]);
            }
        }
    }
}

impl AtomicReg for Reg<u32> {
    open spec fn word(&self) -> u32 {
        self.value()
    }

    fn atomic_nand(&mut self, clear: u32) {
        let mut done = false;
        while !done
            invariant
                !done ==> self.value() == old(self).value(),
                done ==> self.value() == old(self).value() & !clear,
            decreases if done { 0int } else { 1int },
        {
            let v = self.load_exclusive();
            done = self.store_exclusive(v & !clear);
        }
    }

    fn atomic_or(&mut self, set: u32) {
        let mut op = ExclusiveOr::new(set);
        while !op.done
            invariant
                op.set == set,
                in_step(op, *self),
                op.loaded is Some ==> self.reserved(),
                !op.done ==> self.value() == old(self).value(),
                op.done ==> self.value() == old(self).value() | set,
            decreases (if op.done { 0int } else { 1int }), (if op.loaded is None { 1int } else { 0int }),
        {
            op.step(self);
        }
    }

    fn atomic_nand_and_or(&mut self, clear: u32, set: u32) {
        let mut done = false;
        while !done
            invariant
                !done ==> self.value() == old(self).value(),
                done ==> self.value() == (old(self).value() & !clear) | set,
            decreases if done { 0int } else { 1int },
        {
            let v = self.load_exclusive();
            done = self.store_exclusive((v & !clear) | set);
        }
    }
}

} // verus!
