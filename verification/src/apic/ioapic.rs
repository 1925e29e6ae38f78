//! The external routing controller: which device line raises which vector on
//! which core.
//!
//! A routing chip is programmed through two registers: a selector, and a
//! window onto the register selected. Each [`IoRegisterWrite`] stands for
//! such a pair of stores.

use crate::apic::lapic::LApic;
use vstd::prelude::*;

verus! {

/// How a routed interrupt is delivered.
#[derive(Debug, Clone, Copy, PartialEq, Eq, Structural)]
pub enum IrqMode {
    Fixed,
    LowestPriority,
    SystemManagement,
    NonMaskable,
    Init,
    External,
}

/// The configuration of one external line.
#[derive(Debug, Clone, Copy, PartialEq, Eq, Structural)]
pub struct RoutingEntry {
    pub mode: IrqMode,
    /// Vector the line raises.
    pub vector: u8,
    /// Identifier of the local controller that receives it.
    pub dest: u8,
    /// A masked line raises nothing.
    pub masked: bool,
}

/// Store `value` in the register `selector` names.
#[derive(Debug, Clone, Copy, PartialEq, Eq, Structural)]
pub struct IoRegisterWrite {
    pub selector: u32,
    pub value: u32,
}

/// The writes that configure one routing chip, and where its registers are.
#[derive(Debug)]
pub struct ChipProgram {
    pub base: u64,
    pub writes: Vec<IoRegisterWrite>,
}

/// Selector of the first routing table register.
pub const TABLE_BASE: u32 = 0x10;

/// Mask bit in the low word of an entry.
pub const MASKED: u32 = 0x1_0000;

/// The line the keyboard is wired to.
pub const KEYBOARD_LINE: u8 = 1;

/// Vector the keyboard line raises.
pub const KEYBOARD_VECTOR: u8 = 33;

impl IrqMode {
    /// The three-bit delivery mode field.
    pub open spec fn code(self) -> u32 {
        match self {
            IrqMode::Fixed => 0,
            IrqMode::LowestPriority => 1,
            IrqMode::SystemManagement => 2,
            IrqMode::NonMaskable => 4,
            IrqMode::Init => 5,
            IrqMode::External => 7,
        }
    }

    /// The mode a delivery mode field stands for; two of the eight codes are
    /// reserved.
    pub open spec fn of_code(code: u32) -> Option<IrqMode> {
        if code == 0 {
            Some(IrqMode::Fixed)
        } else if code == 1 {
            Some(IrqMode::LowestPriority)
        } else if code == 2 {
            Some(IrqMode::SystemManagement)
        } else if code == 4 {
            Some(IrqMode::NonMaskable)
        } else if code == 5 {
            Some(IrqMode::Init)
        } else if code == 7 {
            Some(IrqMode::External)
        } else {
            None
        }
    }

    pub fn as_u32(self) -> (code: u32)
        ensures
            code == self.code(),
            code <= 7,
            Self::of_code(code) == Some(self),
    {
        match self {
            IrqMode::Fixed => 0,
            IrqMode::LowestPriority => 1,
            IrqMode::SystemManagement => 2,
            IrqMode::NonMaskable => 4,
            IrqMode::Init => 5,
            IrqMode::External => 7,
        }
    }

    pub fn from_u32(code: u32) -> (mode: Option<IrqMode>)
        ensures
            mode == Self::of_code(code),
    {
        if code == 0 {
            Some(IrqMode::Fixed)
        } else if code == 1 {
            Some(IrqMode::LowestPriority)
        } else if code == 2 {
            Some(IrqMode::SystemManagement)
        } else if code == 4 {
            Some(IrqMode::NonMaskable)
        } else if code == 5 {
            Some(IrqMode::Init)
        } else if code == 7 {
            Some(IrqMode::External)
        } else {
            None
        }
    }
}

/// Low word of an entry: vector in bits 0 to 7, delivery mode in bits 8 to
/// 10, mask in bit 16.
pub open spec fn low_word(vector: u8, code: u32, masked: bool) -> u32 {
    (vector as u32) | (code << 8) | (if masked {
        MASKED
    } else {
        0u32
    })
}

/// High word of an entry: destination in bits 24 to 31.
pub open spec fn high_word(dest: u8) -> u32 {
    (dest as u32) << 24
}

/// Selector of the low word of `line`'s entry.
pub open spec fn low_selector(line: u8) -> u32 {
    (TABLE_BASE + 2 * line) as u32
}

/// Selector of the high word of `line`'s entry.
pub open spec fn high_selector(line: u8) -> u32 {
    (TABLE_BASE + 2 * line + 1) as u32
}

/// The entry two register words stand for, if their delivery mode field is
/// not reserved.
pub open spec fn entry_of(low: u32, high: u32) -> Option<RoutingEntry> {
    match IrqMode::of_code((low >> 8) & 7) {
        Some(mode) => Some(
            RoutingEntry {
                mode,
                vector: (low & 0xff) as u8,
                dest: (high >> 24) as u8,
                masked: low & MASKED != 0,
            },
        ),
        None => None,
    }
}

impl RoutingEntry {
    pub open spec fn low(self) -> u32 {
        low_word(self.vector, self.mode.code(), self.masked)
    }

    pub open spec fn high(self) -> u32 {
        high_word(self.dest)
    }

    /// The two register words of this entry, low word first.
    pub fn into_raw(self) -> (words: (u32, u32))
        ensures
            words == (self.low(), self.high()),
            entry_of(words.0, words.1) == Some(self),
    {
        let code: u32 = self.mode.as_u32();
        let mask: u32 = if self.masked {
            MASKED
        } else {
            0
        };
        let low: u32 = (self.vector as u32) | (code << 8) | mask;
        let high: u32 = (self.dest as u32) << 24;
        proof {
            lemma_words_decode(self.vector, code, self.masked, self.dest);
        }
        (low, high)
    }

    /// Reads an entry back from its two register words.
    pub fn from_raw(low: u32, high: u32) -> (entry: Option<RoutingEntry>)
        ensures
            entry == entry_of(low, high),
    {
        assert(low & 0xff <= 0xff) by (bit_vector);
        assert(high >> 24 <= 0xff) by (bit_vector);
        match IrqMode::from_u32((low >> 8) & 7) {
            Some(mode) => Some(
                RoutingEntry {
                    mode,
                    vector: (low & 0xff) as u8,
                    dest: (high >> 24) as u8,
                    masked: low & MASKED != 0,
                },
            ),
            None => None,
        }
    }
}

/// Every field can be read back from the words it was packed into.
pub proof fn lemma_words_decode(vector: u8, code: u32, masked: bool, dest: u8)
    requires
        code <= 7,
    ensures
        (low_word(vector, code, masked) >> 8) & 7 == code,
        (low_word(vector, code, masked) & 0xff) as u8 == vector,
        (low_word(vector, code, masked) & MASKED != 0) == masked,
        (high_word(dest) >> 24) as u8 == dest,
{
    let v: u32 = vector as u32;
    let d: u32 = dest as u32;
    let k: u32 = if masked {
        MASKED
    } else {
        0u32
    };
    assert(((v | (code << 8) | k) >> 8) & 7 == code) by (bit_vector)
        requires
            v <= 0xff,
            code <= 7,
            k == 0x1_0000u32 || k == 0,
    ;
    assert((v | (code << 8) | k) & 0xff == v) by (bit_vector)
        requires
            v <= 0xff,
            code <= 7,
            k == 0x1_0000u32 || k == 0,
    ;
    assert(((v | (code << 8) | k) & 0x1_0000u32 != 0) == (k != 0)) by (bit_vector)
        requires
            v <= 0xff,
            code <= 7,
            k == 0x1_0000u32 || k == 0,
    ;
    assert((d << 24) >> 24 == d) by (bit_vector)
        requires
            d <= 0xff,
    ;
}

/// Unmasking an entry clears the mask bit of its low word and nothing else.
pub proof fn lemma_unmask_clears_one_bit(entry: RoutingEntry)
    ensures
        (RoutingEntry { masked: false, ..entry }).low() == entry.low() & !MASKED,
        (RoutingEntry { masked: false, ..entry }).high() == entry.high(),
{
    let v: u32 = entry.vector as u32;
    let code: u32 = entry.mode.code();
    let k: u32 = if entry.masked {
        MASKED
    } else {
        0u32
    };
    assert((v | (code << 8) | 0u32) == (v | (code << 8) | k) & !0x1_0000u32) by (bit_vector)
        requires
            v <= 0xff,
            code <= 7,
            k == 0x1_0000u32 || k == 0,
    ;
}

/// The entry that routes the keyboard line to the controller `dest`.
pub open spec fn keyboard_entry(dest: u8, masked: bool) -> RoutingEntry {
    RoutingEntry { mode: IrqMode::Fixed, vector: KEYBOARD_VECTOR, dest, masked }
}

/// The writes that route `line` as `entry` says: the entry goes in masked,
/// low word then high word, and only then is the line unmasked.
pub open spec fn route_sequence(line: u8, entry: RoutingEntry) -> Seq<IoRegisterWrite> {
    seq![
        IoRegisterWrite {
            selector: low_selector(line),
            value: (RoutingEntry { masked: true, ..entry }).low(),
        },
        IoRegisterWrite { selector: high_selector(line), value: entry.high() },
        IoRegisterWrite {
            selector: low_selector(line),
            value: (RoutingEntry { masked: false, ..entry }).low(),
        },
    ]
}

/// Builds the writes that route one line and unmask it.
pub fn route(line: u8, entry: RoutingEntry) -> (writes: Vec<IoRegisterWrite>)
    ensures
        writes@ == route_sequence(line, entry),
{
    let low: u32 = TABLE_BASE + 2 * (line as u32);
    let high: u32 = low + 1;
    let closed = RoutingEntry { masked: true, ..entry };
    let open = RoutingEntry { masked: false, ..entry };
    let mut writes: Vec<IoRegisterWrite> = Vec::new();
    writes.push(IoRegisterWrite { selector: low, value: closed.into_raw().0 });
    writes.push(IoRegisterWrite { selector: high, value: entry.into_raw().1 });
    writes.push(IoRegisterWrite { selector: low, value: open.into_raw().0 });
    assert(writes@ =~= route_sequence(line, entry));
    writes
}

/// Routes the keyboard line of every routing chip to the local controller.
///
/// `views` holds the address of each chip's registers. The local controller
/// must be ready: its identifier is the destination of every entry.
pub fn init(views: &Vec<u64>, lapic: &LApic) -> (programs: Vec<ChipProgram>)
    requires
        lapic.ready(),
    ensures
        programs@.len() == views@.len(),
        forall|i: int|
            0 <= i < views@.len() ==> (#[trigger] programs@[i]).base == views@[i]
                && programs@[i].writes@ == route_sequence(
                KEYBOARD_LINE,
                keyboard_entry(lapic.destination(), false),
            ),
{
    let dest: u8 = lapic.id() as u8;
    let entry = RoutingEntry { mode: IrqMode::Fixed, vector: KEYBOARD_VECTOR, dest, masked: false };
    let mut programs: Vec<ChipProgram> = Vec::new();
    let mut i: usize = 0;
    while i < views.len()
        invariant
            0 <= i <= views@.len(),
            programs@.len() == i,
            entry == keyboard_entry(lapic.destination(), false),
            forall|j: int|
                0 <= j < i ==> (#[trigger] programs@[j]).base == views@[j]
                    && programs@[j].writes@ == route_sequence(KEYBOARD_LINE, entry),
        decreases views@.len() - i,
    {
        let writes = route(KEYBOARD_LINE, entry);
        programs.push(ChipProgram { base: views[i], writes });
        i = i + 1;
    }
    programs
}

} // verus!
