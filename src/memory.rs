use vstd::prelude::*;

verus! {

/// Number of addressable words.
pub const MEMORY_WORDS: usize = 0x10000;

/// Address of the keyboard status register.
pub const KB_STATUS: u16 = 0xfe00;

/// Address of the keyboard data register.
pub const KB_DATA: u16 = 0xfe02;

/// Value of the keyboard status register when a character is ready.
pub const KB_READY: u16 = 0x8000;

/// The address `x` taken modulo the size of the address space.
pub open spec fn wrap(x: int) -> u16 {
    (x % 0x10000) as u16
}

/// Memory after a read of `address`: a read of the keyboard status register
/// marks a character as ready and places `key` in the data register; a read
/// of any other address clears the status register.
pub open spec fn polled(mem: Seq<u16>, address: u16, key: u16) -> Seq<u16> {
    if address == KB_STATUS {
        mem.update(KB_STATUS as int, KB_READY).update(KB_DATA as int, key)
    } else {
        mem.update(KB_STATUS as int, 0)
    }
}

/// Memory after writing `block` word by word from `base` on, the address
/// wrapping past the top of the address space.
pub open spec fn copied(mem: Seq<u16>, base: u16, block: Seq<u16>) -> Seq<u16>
    decreases block.len(),
{
    if block.len() == 0 {
        mem
    } else {
        let last = block.len() - 1;
        copied(mem, base, block.take(last)).update(wrap(base + last) as int, block[last])
    }
}

/// A block that fits in memory lands word by word from `base` on, and
/// every address it does not reach keeps its word.
pub proof fn lemma_copied_words(mem: Seq<u16>, base: u16, block: Seq<u16>)
    requires
        mem.len() == MEMORY_WORDS,
        block.len() <= MEMORY_WORDS,
    ensures
        copied(mem, base, block).len() == MEMORY_WORDS,
        forall|i: int| 0 <= i < block.len() ==> #[trigger] copied(mem, base, block)[wrap(base + i) as int] == block[i],
        forall|a: int|
            0 <= a < MEMORY_WORDS && (forall|i: int| 0 <= i < block.len() ==> #[trigger] wrap(base + i) != a)
                ==> #[trigger] copied(mem, base, block)[a] == mem[a],
    decreases block.len(),
{
    if block.len() > 0 {
        let last = block.len() - 1;
        let front = block.take(last);
        lemma_copied_words(mem, base, front);
        assert forall|i: int| 0 <= i < block.len() implies #[trigger] copied(mem, base, block)[wrap(base + i) as int] == block[i] by {
            if i < last {
                assert(wrap(base + i) != wrap(base + last));
                assert(front[i] == block[i]);
            }
        }
        assert forall|a: int|
            0 <= a < MEMORY_WORDS && (forall|i: int| 0 <= i < block.len() ==> #[trigger] wrap(base + i) != a)
                implies #[trigger] copied(mem, base, block)[a] == mem[a] by {
            assert(wrap(base + last) != a);
            assert forall|i: int| 0 <= i < front.len() implies #[trigger] wrap(base + i) != a by {
                assert(wrap(base + i) != a);
            }
        }
    }
}

/// A flat memory of 65536 words, index = address.
pub struct Memory {
    cells: [u16; 0x10000],
}

impl View for Memory {
    type V = Seq<u16>;

    closed spec fn view(&self) -> Seq<u16> {
        self.cells@
    }
}

impl Memory {
    /// The memory holds one word per address.
    pub proof fn lemma_size(self)
        ensures
            self@.len() == MEMORY_WORDS,
    {
    }

    /// Memory with every word zero.
    pub fn new() -> (m: Memory)
        ensures
            m@ == Seq::new(MEMORY_WORDS as nat, |_a: int| 0u16),
    {
        let m = Memory { cells: [0u16; 0x10000] };
        assert(m@ =~= Seq::new(MEMORY_WORDS as nat, |_a: int| 0u16));
        m
    }

    /// Reads the word at `address`, after the keyboard poll that every read
    /// performs (see `polled`). `key` is the character the keyboard delivers
    /// when `address` is the status register; it is unused otherwise.
    pub fn load(&mut self, address: u16, key: u16) -> (v: u16)
        ensures
            final(self)@ == polled(old(self)@, address, key),
            v == final(self)@[address as int],
            address != KB_STATUS ==> final(self)@[KB_STATUS as int] == 0,
    {
        if address == KB_STATUS {
            self.cells[KB_STATUS as usize] = KB_READY;
            self.cells[KB_DATA as usize] = key;
        } else {
            self.cells[KB_STATUS as usize] = 0;
        }
        self.cells[address as usize]
    }

    /// The word at `address`, without touching the keyboard registers.
    pub fn peek(&self, address: u16) -> (v: u16)
        ensures
            v == self@[address as int],
    {
        self.cells[address as usize]
    }

    /// Writes `value` at `address`.
    pub fn store(&mut self, address: u16, value: u16)
        ensures
            final(self)@ == old(self)@.update(address as int, value),
    {
        self.cells[address as usize] = value;
    }

    /// Writes `block` from `base` on, one word per address, wrapping past
    /// the top of the address space.
    pub fn copy(&mut self, base: u16, block: &[u16])
        ensures
            final(self)@ == copied(old(self)@, base, block@),
            block@.len() <= MEMORY_WORDS ==> forall|i: int|
                0 <= i < block@.len() ==> #[trigger] final(self)@[wrap(base + i) as int] == block@[i],
    {
        let mut offset: usize = 0;
        let mut address: u16 = base;
        while offset < block.len()
            invariant
                0 <= offset <= block@.len(),
                address == wrap(base + offset),
                self@ == copied(old(self)@, base, block@.take(offset as int)),
            decreases block@.len() - offset,
        {
            assert(block@.take(offset + 1).take(offset as int) =~= block@.take(offset as int));
            self.store(address, block[offset]);
            offset = offset + 1;
            address = address.wrapping_add(1);
        }
        assert(block@.take(offset as int) =~= block@);
        proof {
            if block@.len() <= MEMORY_WORDS {
                lemma_copied_words(old(self)@, base, block@);
            }
        }
    }
}

} // verus!
