//! The tagged-word representation of Scheme values.
//!
//! A `Value` is a single 64-bit machine word.  Its low three bits are a
//! *tag* that selects one of eight kinds; the remaining bits hold either
//! an immediate integer payload (for fixnums) or an aligned reference to
//! a heap object (an index into the heap's object arena, shifted left by
//! three).  The tag bits are free precisely because heap objects sit at
//! word-aligned positions, so the low three bits of an aligned reference
//! are always zero.

use vstd::prelude::*;

verus! {

/// The tag of fixnums.
pub const NUM_TAG: u64 = 0b000;

/// The tag of natively implemented functions.
pub const RUST_FUNC_TAG: u64 = 0b001;

/// The tag of Scheme-implemented functions.
pub const FUNCTION_TAG: u64 = 0b010;

/// The tag of Scheme vectors, records, and closures.
pub const VECTOR_TAG: u64 = 0b011;

/// The second fixnum tag.  The documented tag table serves two purposes
/// with this pattern: it is one of the two fixnum tags (the pattern is
/// what a fixnum payload with an odd low bit produces), and it is also
/// reserved for the non-fixnum immediates such as the empty list,
/// end-of-file object, the undefined value, and characters.
pub const NUM_TAG_2: u64 = 0b100;

/// The tag of native data stored on the Scheme heap; bytecode objects
/// carry this tag.
pub const RUST_DATA_TAG: u64 = 0b101;

/// The tag of symbols.
pub const SYMBOL_TAG: u64 = 0b110;

/// The tag of pairs.
pub const PAIR_TAG: u64 = 0b111;

/// The size in bytes of a machine word.
pub const SIZEOF_PTR: u64 = 8;

/// The amount of memory occupied by a pair, in words: a header word and
/// the two value slots.
pub const SIZEOF_PAIR: u64 = 3;

/// Bitmask that covers the tag bits of an object header: the three most
/// significant bits of the word.
pub const HEADER_TAG: u64 = 0xE000_0000_0000_0000;

/// The header of a pair: the header tag bits together with the pair's
/// size in words.
pub const PAIR_HEADER: u64 = 0xE000_0000_0000_0003;

/// The header sub-kind of a plain vector (the three most significant
/// bits of a vector-family header), chosen as zero to simplify bounds
/// checks.
pub const VECTOR_HEADER: u64 = 0;

/// The smallest integer a fixnum can carry: -(2^61).
pub const FIXNUM_MIN: i64 = -0x2000_0000_0000_0000;

/// The largest integer a fixnum can carry: 2^61 - 1.
pub const FIXNUM_MAX: i64 = 0x1FFF_FFFF_FFFF_FFFF;

/// The symbolic kinds a value's tag can select, in tag order.
#[derive(PartialEq, Eq, Structural, Debug, Copy, Clone)]
pub enum Tags {
    Num,
    RustFunc,
    Function,
    Vector,
    Num2,
    RustData,
    Symbol,
    Pair,
}

/// The errors a value-level accessor can report.  Each is an explicit
/// result value, never an implicit control-flow signal, and each is
/// recoverable by the caller.
#[derive(PartialEq, Eq, Structural, Debug, Copy, Clone)]
pub enum SchemeError {
    /// An accessor was invoked on an incompatible kind of value.
    WrongType,
    /// A vector-family index was not below the object's recorded length.
    IndexOutOfRange,
    /// A fixnum decode was attempted on a non-fixnum value.
    NotANumber,
}

/// A decoded classification of a value: the arena index of the heap
/// object for pair and vector-family references, or the integer payload
/// for fixnums.
#[derive(PartialEq, Eq, Structural, Debug, Copy, Clone)]
pub enum Kind {
    Pair(u64),
    Vector(u64),
    Fixnum(i64),
}

/// One fixed-width instruction as it sits in a bytecode object's code
/// region: an opcode byte and the three operand bytes.
#[derive(PartialEq, Eq, Structural, Debug, Copy, Clone)]
pub struct Instruction {
    pub opcode: u8,
    pub src: u8,
    pub src2: u8,
    pub dst: u8,
}

/// An interpreted-function object: a header, a reference to a bytecode
/// object, and a reference to its vector of constants.  No operation of
/// this core constructs one; the layout is declared for the evaluator's
/// benefit.
#[derive(Debug, Copy, Clone)]
pub struct Function {
    pub header: u64,
    pub bytecode: Value,
    pub constants: Value,
}

/// Arbitrary-precision integers.  The numeric tower sits outside this
/// core; the type marks its place.
#[derive(Debug, Copy, Clone)]
pub struct Bignum;

/// Reserved: hash tables held as native data on the Scheme heap.
#[derive(Debug, Copy, Clone)]
pub struct HashTable;

/// Reserved: input/output ports held as native data on the Scheme heap.
#[derive(Debug, Copy, Clone)]
pub struct IOPort;

/// Reserved: opaque native values stored on the Scheme heap.
#[derive(Debug, Copy, Clone)]
pub struct RustData;

/// A Scheme value: one tagged machine word.
///
/// Values that reference heap objects are only meaningful together with
/// the heap that owns those objects; the tag bits of such a value must
/// match the kind of object its pointer bits address.
#[derive(PartialEq, Eq, Structural, Debug, Copy, Clone)]
pub struct Value {
    pub contents: u64,
}

/// The word a fixnum carrying the integer `n` is encoded as: the
/// payload, in two's complement over 62 bits, shifted left by two.
pub open spec fn fixnum_word(n: int) -> u64 {
    if n >= 0 {
        (4 * n) as u64
    } else {
        (4 * (n + 0x4000_0000_0000_0000)) as u64
    }
}

impl Value {
    /// The tag pattern of this value: the low three bits of the word.
    pub open spec fn spec_raw_tag(&self) -> u64 {
        self.contents % 8
    }

    /// The symbolic kind this value's tag pattern selects.
    pub open spec fn spec_tag(&self) -> Tags {
        if self.spec_raw_tag() == 0 {
            Tags::Num
        } else if self.spec_raw_tag() == 1 {
            Tags::RustFunc
        } else if self.spec_raw_tag() == 2 {
            Tags::Function
        } else if self.spec_raw_tag() == 3 {
            Tags::Vector
        } else if self.spec_raw_tag() == 4 {
            Tags::Num2
        } else if self.spec_raw_tag() == 5 {
            Tags::RustData
        } else if self.spec_raw_tag() == 6 {
            Tags::Symbol
        } else {
            Tags::Pair
        }
    }

    /// Whether this value is a fixnum: both fixnum tag patterns, `0b000`
    /// and `0b100`, have the low two bits clear.
    pub open spec fn spec_is_fixnum(&self) -> bool {
        self.contents % 4 == 0
    }

    /// The integer a fixnum value carries: the word shifted right by
    /// two, read as a 62-bit two's-complement number.
    pub open spec fn spec_fixnum(&self) -> int {
        let payload = self.contents as int / 4;
        if payload >= 0x2000_0000_0000_0000 {
            payload - 0x4000_0000_0000_0000
        } else {
            payload
        }
    }

    /// The arena index a heap-referencing value addresses: the word with
    /// the three tag bits stripped, divided by the word size.
    pub open spec fn spec_ptr(&self) -> int {
        self.contents as int / 8
    }

    /// Wraps a raw word as a value.
    pub fn new(contents: u64) -> (v: Value)
        ensures
            v.contents == contents,
    {
        Value { contents }
    }

    /// The raw word of this value.
    pub fn get(&self) -> (w: u64)
        ensures
            w == self.contents,
    {
        self.contents
    }

    /// Overwrites this value with another.
    pub fn set(&mut self, other: Value)
        ensures
            *final(self) == other,
    {
        *self = other;
    }

    /// Encodes an integer as a fixnum value.
    pub fn fixnum(n: i64) -> (v: Value)
        requires
            FIXNUM_MIN <= n <= FIXNUM_MAX,
        ensures
            v.contents == fixnum_word(n as int),
            v.spec_is_fixnum(),
            v.spec_fixnum() == n,
    {
        if n >= 0 {
            Value { contents: (n as u64) * 4 }
        } else {
            let shifted: i64 = n + 0x4000_0000_0000_0000;
            Value { contents: (shifted as u64) * 4 }
        }
    }

    /// The tag pattern: the bottom three bits of the word.  Total.
    pub fn raw_tag(&self) -> (t: u64)
        ensures
            t == self.spec_raw_tag(),
            t < 8,
    {
        proof {
            let w: u64 = self.contents;
            assert(w & 7 == w % 8) by (bit_vector);
        }
        self.contents & 7
    }

    /// Maps the tag pattern to its symbolic kind.  Exhaustive: all eight
    /// patterns are assigned, so there is no error path.
    pub fn tag(&self) -> (t: Tags)
        ensures
            t == self.spec_tag(),
    {
        let r: u64 = self.raw_tag();
        if r == 0 {
            Tags::Num
        } else if r == 1 {
            Tags::RustFunc
        } else if r == 2 {
            Tags::Function
        } else if r == 3 {
            Tags::Vector
        } else if r == 4 {
            Tags::Num2
        } else if r == 5 {
            Tags::RustData
        } else if r == 6 {
            Tags::Symbol
        } else {
            Tags::Pair
        }
    }

    /// Whether the collector may skip tracing this value: true except
    /// for the pair and vector-family kinds, the only kinds that can
    /// contain further value references.
    pub fn leafp(&self) -> (r: bool)
        ensures
            r == (self.spec_tag() != Tags::Vector && self.spec_tag() != Tags::Pair),
    {
        let t: u64 = self.raw_tag();
        proof {
            assert((t & 3 == 3) == (t == 3 || t == 7)) by (bit_vector)
                requires
                    t < 8,
            ;
        }
        t & 0b11 != 0b11
    }

    /// Whether this value is a fixnum; both fixnum tag patterns satisfy
    /// this, matching the documented two-fixnum-tag scheme.
    pub fn fixnump(&self) -> (r: bool)
        ensures
            r == self.spec_is_fixnum(),
            r == (self.spec_tag() == Tags::Num || self.spec_tag() == Tags::Num2),
    {
        let t: u64 = self.raw_tag();
        proof {
            let w: u64 = self.contents;
            assert((w & 7) & 3 == w % 4 && w & 7 == w % 8) by (bit_vector);
        }
        t & 0b11 == 0
    }

    /// A single-comparison fast-path guard before arithmetic dispatch:
    /// true exactly when both values are fixnums.
    pub fn both_fixnums(&self, other: &Value) -> (r: bool)
        ensures
            r == (self.spec_is_fixnum() && other.spec_is_fixnum()),
    {
        proof {
            let a: u64 = self.contents;
            let b: u64 = other.contents;
            assert(((a | b) & 3 == 0) == (a % 4 == 0 && b % 4 == 0)) by (bit_vector);
        }
        (self.contents | other.contents) & 0b11 == 0
    }

    /// Whether a datum of this kind evaluates to itself without further
    /// reduction: true for every kind below symbol in tag order, false
    /// for symbols and pairs.
    pub fn self_evaluating(&self) -> (r: bool)
        ensures
            r == (self.spec_tag() != Tags::Symbol && self.spec_tag() != Tags::Pair),
    {
        self.raw_tag() < 6
    }

    /// Whether this value is a pair.
    pub fn pairp(&self) -> (r: bool)
        ensures
            r == (self.spec_tag() == Tags::Pair),
    {
        self.tag() == Tags::Pair
    }

    /// Decodes the integer payload of a fixnum value; any non-fixnum
    /// kind is rejected with `NotANumber`.
    pub fn as_fixnum(&self) -> (r: Result<i64, SchemeError>)
        ensures
            self.spec_is_fixnum() ==> (r matches Ok(n) && n == self.spec_fixnum()),
            !self.spec_is_fixnum() ==> r == Err::<i64, SchemeError>(SchemeError::NotANumber),
    {
        if self.fixnump() {
            let payload: u64 = self.contents / 4;
            if payload < 0x2000_0000_0000_0000 {
                Ok(payload as i64)
            } else {
                let magnitude: u64 = 0x4000_0000_0000_0000 - payload;
                Ok(-(magnitude as i64))
            }
        } else {
            Err(SchemeError::NotANumber)
        }
    }

    /// Classifies this value for dispatch: the arena index it addresses
    /// for pair and vector-family kinds, or the decoded integer for
    /// fixnums.  The remaining kinds have no decoded form in this core.
    pub fn kind(&self) -> (k: Kind)
        requires
            self.spec_tag() == Tags::Pair || self.spec_tag() == Tags::Vector
                || self.spec_is_fixnum(),
        ensures
            self.spec_tag() == Tags::Pair ==> (k matches Kind::Pair(p) && p == self.spec_ptr()),
            self.spec_tag() == Tags::Vector ==> (k matches Kind::Vector(p) && p
                == self.spec_ptr()),
            self.spec_is_fixnum() ==> (k matches Kind::Fixnum(n) && n == self.spec_fixnum()),
    {
        let t: u64 = self.raw_tag();
        if t == PAIR_TAG {
            Kind::Pair(self.contents / 8)
        } else if t == VECTOR_TAG {
            Kind::Vector(self.contents / 8)
        } else {
            match self.as_fixnum() {
                Ok(n) => Kind::Fixnum(n),
                Err(_) => unreached(),
            }
        }
    }
}

/// Tag round trip: a word carrying any of the eight tag patterns reads
/// back as exactly that pattern's symbolic kind.
pub proof fn lemma_tag_round_trip(w: u64)
    ensures
        w % 8 == 0 ==> (Value { contents: w }).spec_tag() == Tags::Num,
        w % 8 == 1 ==> (Value { contents: w }).spec_tag() == Tags::RustFunc,
        w % 8 == 2 ==> (Value { contents: w }).spec_tag() == Tags::Function,
        w % 8 == 3 ==> (Value { contents: w }).spec_tag() == Tags::Vector,
        w % 8 == 4 ==> (Value { contents: w }).spec_tag() == Tags::Num2,
        w % 8 == 5 ==> (Value { contents: w }).spec_tag() == Tags::RustData,
        w % 8 == 6 ==> (Value { contents: w }).spec_tag() == Tags::Symbol,
        w % 8 == 7 ==> (Value { contents: w }).spec_tag() == Tags::Pair,
{
}

/// Fixnum round trip: encoding any integer in the 62-bit payload range
/// and decoding it recovers exactly that integer, and the encoded word
/// is a fixnum.
pub proof fn lemma_fixnum_round_trip(n: int)
    requires
        FIXNUM_MIN <= n <= FIXNUM_MAX,
    ensures
        (Value { contents: fixnum_word(n) }).spec_is_fixnum(),
        (Value { contents: fixnum_word(n) }).spec_fixnum() == n,
{
}

/// Fixnum encoding is onto: every fixnum word decodes to an integer in
/// the payload range, and re-encoding that integer gives back the same
/// word.  Together with the round trip this makes the encoding a
/// bijection between the payload range and the fixnum words.
pub proof fn lemma_fixnum_decode_encode(v: Value)
    requires
        v.spec_is_fixnum(),
    ensures
        FIXNUM_MIN <= v.spec_fixnum() <= FIXNUM_MAX,
        fixnum_word(v.spec_fixnum()) == v.contents,
{
}

} // verus!
