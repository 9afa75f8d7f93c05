use vstd::prelude::*;

verus! {

/// The five interrupt sources.
#[derive(Copy, Clone, Debug, PartialEq, Eq, Structural)]
pub enum Interrupt {
    VBlank,
    STAT,
    Timer,
    Serial,
    Joypad,
}

/// Dispatch rank of an interrupt: VBlank highest, Joypad lowest.
pub open spec fn priority(irq: Interrupt) -> usize {
    match irq {
        Interrupt::VBlank => 4,
        Interrupt::STAT => 3,
        Interrupt::Timer => 2,
        Interrupt::Serial => 1,
        Interrupt::Joypad => 0,
    }
}

/// The bit of the request and enable bytes that belongs to an interrupt.
pub open spec fn interrupt_bit(irq: Interrupt) -> u8 {
    match irq {
        Interrupt::VBlank => 1,
        Interrupt::STAT => 2,
        Interrupt::Timer => 4,
        Interrupt::Serial => 8,
        Interrupt::Joypad => 16,
    }
}

/// The address that dispatching an interrupt jumps to.
pub open spec fn vector(irq: Interrupt) -> u16 {
    match irq {
        Interrupt::VBlank => 0x40,
        Interrupt::STAT => 0x48,
        Interrupt::Timer => 0x50,
        Interrupt::Serial => 0x58,
        Interrupt::Joypad => 0x60,
    }
}

/// Whether `irq` has the highest priority among the interrupts of `s`.
pub open spec fn is_highest(s: Seq<Interrupt>, irq: Interrupt) -> bool {
    forall|j: int| 0 <= j < s.len() ==> priority(#[trigger] s[j]) <= priority(irq)
}

/// The queue of pending interrupts, which hands out the one of highest priority first.
pub struct BinaryHeap {
    pub nodes: Vec<Interrupt>,
}

impl BinaryHeap {
    pub open spec fn view(&self) -> Seq<Interrupt> {
        self.nodes@
    }

    pub fn new() -> (r: Self)
        ensures
            r@.len() == 0,
    {
        BinaryHeap { nodes: Vec::new() }
    }

    /// Index of the parent of node `n` in an array-laid-out tree.
    pub fn parent_index(n: usize) -> (r: usize)
        requires
            n >= 1,
        ensures
            r == (n - 1) / 2,
    {
        (n - 1) / 2
    }

    /// Index of the left child of node `n` in an array-laid-out tree rooted at index 0.
    pub fn left_child(n: usize) -> (r: usize)
        requires
            n * 2 + 1 <= usize::MAX,
        ensures
            r == n * 2 + 1,
            r > n,
            (r - 1) / 2 == n,
    {
        n * 2 + 1
    }

    /// Index of the right child of node `n`: the slot after the left child.
    pub fn right_child(n: usize) -> (r: usize)
        requires
            n * 2 + 2 <= usize::MAX,
        ensures
            r == n * 2 + 2,
            r > n,
            (r - 1) / 2 == n,
    {
        n * 2 + 2
    }

    pub fn is_empty(&self) -> (r: bool)
        ensures
            r == (self@.len() == 0),
    {
        self.nodes.len() == 0
    }

    pub fn get_interrupt_priority(irq: Interrupt) -> (r: usize)
        ensures
            r == priority(irq),
    {
        match irq {
            Interrupt::VBlank => 4,
            Interrupt::STAT => 3,
            Interrupt::Timer => 2,
            Interrupt::Serial => 1,
            Interrupt::Joypad => 0,
        }
    }

    /// Whether `irq` is queued.
    pub fn contains(&self, irq: Interrupt) -> (r: bool)
        ensures
            r == self@.contains(irq),
    {
        let mut i: usize = 0;
        while i < self.nodes.len()
            invariant
                i <= self@.len(),
                forall|j: int| 0 <= j < i ==> self@[j] != irq,
            decreases self@.len() - i,
        {
            if self.nodes[i] == irq {
                assert(self@[i as int] == irq);
                return true;
            }
            i = i + 1;
        }
        false
    }

    pub fn push(&mut self, irq: Interrupt)
        ensures
            final(self)@ == old(self)@.push(irq),
    {
        self.nodes.push(irq);
    }

    /// Takes out an interrupt of highest priority.
    pub fn pop(&mut self) -> (r: Option<Interrupt>)
        ensures
            old(self)@.len() == 0 ==> r.is_none() && final(self)@ == old(self)@,
            old(self)@.len() > 0 ==> r.is_some() && is_highest(old(self)@, r.unwrap()) && exists|i: int|
                0 <= i < old(self)@.len() && old(self)@[i] == r.unwrap() && final(self)@ == old(
                    self,
                )@.remove(i),
    {
        if self.nodes.len() == 0 {
            return None;
        }
        let mut best: usize = 0;
        let mut i: usize = 1;
        while i < self.nodes.len()
            invariant
                self.nodes@ == old(self).nodes@,
                0 < i <= self.nodes@.len(),
                best < i,
                forall|j: int| 0 <= j < i ==> priority(#[trigger] self.nodes@[j]) <= priority(
                    self.nodes@[best as int],
                ),
            decreases self.nodes@.len() - i,
        {
            if Self::get_interrupt_priority(self.nodes[i]) > Self::get_interrupt_priority(self.nodes[best]) {
                best = i;
            }
            i = i + 1;
        }
        let r = self.nodes.remove(best);
        Some(r)
    }
}

} // verus!
