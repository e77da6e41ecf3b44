use vstd::prelude::*;

verus! {

/// Alignment, in bytes, that the stack must have when a function is entered.
pub const STACK_ALIGN: u64 = 16;

/// Distance, in bytes, below the aligned top at which the entry address is written.
pub const ENTRY_OFFSET: u64 = 16;

/// Size of one machine word.
pub const WORD_SIZE: u64 = 8;

/// Smallest stack size this library supports: up to 15 bytes lost to alignment,
/// the entry slot `ENTRY_OFFSET` bytes below the aligned top, rounded up to whole
/// alignment units, and one unit of spare room below the slot.
pub const MIN_STACK_SIZE: u64 = 48;

/// `a` rounded down to a multiple of the stack alignment.
pub open spec fn align_down(a: int) -> int {
    a - a % (STACK_ALIGN as int)
}

/// Masks an address down to the stack alignment.
pub fn align_address(addr: u64) -> (r: u64)
    ensures
        r as int == align_down(addr as int),
        r % STACK_ALIGN == 0,
        r <= addr,
        addr - r < STACK_ALIGN,
{
    let r = addr & !15u64;
    assert(r == addr - addr % 16 && r % 16 == 0) by (bit_vector)
        requires r == addr & !15u64;
    r
}

/// The highest address of a region of `size` bytes at `base`, masked down to the
/// stack alignment.
pub fn top_aligned(base: u64, size: u64) -> (r: u64)
    requires
        base + size <= u64::MAX,
    ensures
        r as int == align_down(base + size),
        r % STACK_ALIGN == 0,
        base + size - STACK_ALIGN < r <= base + size,
{
    align_address(base + size)
}


/// Byte `k` (0 for the least significant) of a machine word.
pub open spec fn word_byte(w: u64, k: int) -> u8 {
    ((w >> ((8 * k) as u64)) & 0xff) as u8
}

/// The eight bytes of a machine word in memory order (least significant first).
pub open spec fn word_bytes(w: u64) -> Seq<u8> {
    Seq::new(8, |k: int| word_byte(w, k))
}

/// The machine word held by the eight bytes of `s` that start at index `i`.
pub open spec fn word_at(s: Seq<u8>, i: int) -> u64 {
    (s[i] as u64) | ((s[i + 1] as u64) << 8u64) | ((s[i + 2] as u64) << 16u64) | ((s[i + 3] as u64)
        << 24u64) | ((s[i + 4] as u64) << 32u64) | ((s[i + 5] as u64) << 40u64) | ((s[i + 6] as u64)
        << 48u64) | ((s[i + 7] as u64) << 56u64)
}

/// Reading back the bytes of a word gives the word.
pub proof fn lemma_word_round_trip(s: Seq<u8>, i: int, w: u64)
    requires
        0 <= i,
        i + 8 <= s.len(),
        forall|k: int| 0 <= k < 8 ==> s[i + k] == word_byte(w, k),
    ensures
        word_at(s, i) == w,
{
    let b0 = s[i];
    let b1 = s[i + 1];
    let b2 = s[i + 2];
    let b3 = s[i + 3];
    let b4 = s[i + 4];
    let b5 = s[i + 5];
    let b6 = s[i + 6];
    let b7 = s[i + 7];
    assert(s[i + 0] == word_byte(w, 0));
    assert(s[i + 1] == word_byte(w, 1));
    assert(s[i + 2] == word_byte(w, 2));
    assert(s[i + 3] == word_byte(w, 3));
    assert(s[i + 4] == word_byte(w, 4));
    assert(s[i + 5] == word_byte(w, 5));
    assert(s[i + 6] == word_byte(w, 6));
    assert(s[i + 7] == word_byte(w, 7));
    assert((b0 as u64) | ((b1 as u64) << 8u64) | ((b2 as u64) << 16u64) | ((b3 as u64) << 24u64) | (
    (b4 as u64) << 32u64) | ((b5 as u64) << 40u64) | ((b6 as u64) << 48u64) | ((b7 as u64)
        << 56u64) == w) by (bit_vector)
        requires
            b0 == ((w >> 0u64) & 0xff) as u8,
            b1 == ((w >> 8u64) & 0xff) as u8,
            b2 == ((w >> 16u64) & 0xff) as u8,
            b3 == ((w >> 24u64) & 0xff) as u8,
            b4 == ((w >> 32u64) & 0xff) as u8,
            b5 == ((w >> 40u64) & 0xff) as u8,
            b6 == ((w >> 48u64) & 0xff) as u8,
            b7 == ((w >> 56u64) & 0xff) as u8,
    ;
}


/// Address of the entry slot of a region of `size` bytes at `base`.
pub open spec fn entry_slot(base: int, size: int) -> int {
    align_down(base + size) - ENTRY_OFFSET as int
}

/// Where the entry slot of a region of at least the minimum size lies.
pub proof fn lemma_entry_slot_in_region(base: int, size: int)
    requires
        0 <= base,
        size >= MIN_STACK_SIZE,
    ensures
        base <= entry_slot(base, size),
        entry_slot(base, size) + WORD_SIZE <= base + size,
        entry_slot(base, size) % (STACK_ALIGN as int) == 0,
{
}

/// Why small regions are not supported: below 31 bytes there is always a start
/// address for which the entry slot would begin below the region.
pub proof fn lemma_small_region_may_miss_slot(size: int)
    requires
        0 <= size < 31,
    ensures
        exists|base: int| 0 <= base && #[trigger] entry_slot(base, size) < base,
{
    let base = 15 - size % 16 + 16;
    assert((base + size) % 16 == 15);
    assert(entry_slot(base, size) == base + size - 31);
}

/// The stack of a new execution context: a buffer of fixed size, never resized,
/// so that an address inside it stays valid once it has been handed out.
pub struct StackRegion {
    bytes: Vec<u8>,
}

impl View for StackRegion {
    type V = Seq<u8>;

    closed spec fn view(&self) -> Seq<u8> {
        self.bytes@
    }
}

impl StackRegion {
    /// Reserves a zero-filled region of `size` bytes. A size below
    /// `MIN_STACK_SIZE` is not supported: the entry slot may not fit in it.
    pub fn allocate(size: usize) -> (r: StackRegion)
        requires
            size >= MIN_STACK_SIZE,
        ensures
            r@.len() == size,
            forall|i: int| 0 <= i < size ==> r@[i] == 0u8,
    {
        let mut bytes: Vec<u8> = Vec::new();
        let mut n: usize = 0;
        while n < size
            invariant
                n <= size,
                bytes@.len() == n,
                forall|i: int| 0 <= i < n ==> bytes@[i] == 0u8,
            decreases size - n,
        {
            bytes.push(0u8);
            n = n + 1;
        }
        StackRegion { bytes }
    }

    /// Number of bytes in the region.
    pub fn len(&self) -> (r: usize)
        ensures
            r == self@.len(),
    {
        self.bytes.len()
    }

    /// The region's bytes.
    pub fn as_slice(&self) -> (r: &[u8])
        ensures
            r@ == self@,
    {
        self.bytes.as_slice()
    }

    /// The byte at `index`.
    pub fn byte(&self, index: usize) -> (r: u8)
        requires
            index < self@.len(),
        ensures
            r == self@[index as int],
    {
        self.bytes[index]
    }

    /// The machine word stored at `index`.
    pub fn word(&self, index: usize) -> (r: u64)
        requires
            index + WORD_SIZE <= self@.len(),
        ensures
            r == word_at(self@, index as int),
    {
        let b = &self.bytes;
        let _n = b.len();
        (b[index] as u64) | ((b[index + 1] as u64) << 8u64) | ((b[index + 2] as u64) << 16u64) | ((
        b[index + 3] as u64) << 24u64) | ((b[index + 4] as u64) << 32u64) | ((b[index + 5] as u64)
            << 40u64) | ((b[index + 6] as u64) << 48u64) | ((b[index + 7] as u64) << 56u64)
    }

    /// Writes the eight bytes of `w` at `index`, leaving every other byte as it was.
    pub fn write_word(&mut self, index: usize, w: u64)
        requires
            index + WORD_SIZE <= old(self)@.len(),
        ensures
            final(self)@.len() == old(self)@.len(),
            forall|j: int|
                0 <= j < old(self)@.len() && !(index <= j < index + WORD_SIZE) ==> final(self)@[j]
                    == old(self)@[j],
            forall|k: int| 0 <= k < WORD_SIZE ==> final(self)@[index + k] == word_byte(w, k),
            word_at(final(self)@, index as int) == w,
    {
        let _n = self.bytes.len();
        let mut k: usize = 0;
        while k < 8
            invariant
                k <= 8,
                index + WORD_SIZE <= old(self)@.len(),
                old(self)@.len() == _n,
                self@.len() == old(self)@.len(),
                forall|j: int|
                    0 <= j < old(self)@.len() && !(index <= j < index + k) ==> self@[j] == old(
                        self,
                    )@[j],
                forall|m: int| 0 <= m < k ==> self@[index + m] == word_byte(w, m),
            decreases 8 - k,
        {
            let byte = (#[verifier::truncate] (((w >> (8 * k as u64)) & 0xff) as u8));
            self.bytes.set(index + k, byte);
            k = k + 1;
        }
        proof {
            lemma_word_round_trip(self@, index as int, w);
        }
    }

    /// Lays out the region, assumed to start at address `base`, for its first
    /// entry: writes `entry` as one word at the entry slot, `ENTRY_OFFSET` bytes
    /// below the aligned top, and returns the slot's address, which is the stack
    /// pointer to start from.
    pub fn write_entry(&mut self, base: u64, entry: u64) -> (sp: u64)
        requires
            old(self)@.len() >= MIN_STACK_SIZE,
            base + old(self)@.len() <= u64::MAX,
        ensures
            sp as int == entry_slot(base as int, old(self)@.len() as int),
            base <= sp,
            sp + WORD_SIZE <= base + old(self)@.len(),
            sp % STACK_ALIGN == 0,
            final(self)@.len() == old(self)@.len(),
            word_at(final(self)@, sp - base) == entry,
            forall|j: int|
                0 <= j < old(self)@.len() && !(sp - base <= j < sp - base + WORD_SIZE)
                    ==> final(self)@[j] == old(self)@[j],
    {
        let size = self.bytes.len();
        proof {
            lemma_entry_slot_in_region(base as int, size as int);
        }
        let top = top_aligned(base, size as u64);
        let sp = top - ENTRY_OFFSET;
        self.write_word((sp - base) as usize, entry);
        sp
    }
}

} // verus!
