//! The eleven primitive 16-bit transforms that an algorithm record is built from.
//!
//! Every transform maps a 16-bit accumulator to a 16-bit accumulator; sums and
//! differences wrap modulo 65536. Two operand bytes, `hh` and `ll`, accompany
//! each opcode. Some transforms read them as the word `hh:ll`, others as the
//! word `ll:hh`; the difference is part of the definition of each opcode.

use vstd::prelude::*;

verus! {

pub const OP_BYTE_SWAP: u8 = 0x05;
pub const OP_ADD_HL: u8 = 0x14;
pub const OP_COMPLEMENT: u8 = 0x2a;
pub const OP_AND_LH: u8 = 0x37;
pub const OP_ROL: u8 = 0x4c;
pub const OP_OR_HL: u8 = 0x52;
pub const OP_ROR: u8 = 0x6b;
pub const OP_ADD_LH: u8 = 0x75;
pub const OP_SWAP_ADD: u8 = 0x7e;
pub const OP_SUB_HL: u8 = 0x98;
pub const OP_SUB_LH: u8 = 0xf8;

/// The 16-bit word whose high byte is `hi` and whose low byte is `lo`.
pub open spec fn word(hi: u8, lo: u8) -> u16 {
    (hi as int * 256 + lo as int) as u16
}

/// `v` reduced modulo 65536.
pub open spec fn low16(v: int) -> u16 {
    (v % 65536) as u16
}

/// The accumulator with its two bytes exchanged.
pub open spec fn byte_swap(v: u16) -> u16 {
    word((v % 256) as u8, (v / 256) as u8)
}

/// `v + k` modulo 65536.
pub open spec fn add_word(v: u16, k: u16) -> u16 {
    low16(v + k)
}

/// `v - k` modulo 65536.
pub open spec fn sub_word(v: u16, k: u16) -> u16 {
    low16(v - k)
}

/// The bitwise complement of `v`, plus one (modulo 65536) when `hh < ll`.
pub open spec fn complement(v: u16, hh: u8, ll: u8) -> u16 {
    if hh < ll {
        low16(65536 - v)
    } else {
        (65535 - v) as u16
    }
}

/// `v` rotated left by `n` bits within 16 bits, for `n` below 16.
pub open spec fn rotate_left(v: u16, n: u16) -> u16 {
    (v << n) | (v >> ((16 - n) as u16))
}

/// `v` rotated right by `n` bits within 16 bits, for `n` below 16.
pub open spec fn rotate_right(v: u16, n: u16) -> u16 {
    (v >> n) | (v << ((16 - n) as u16))
}

/// The byte-swapped accumulator plus `hh:ll` when `hh >= ll`, plus `ll:hh` otherwise.
pub open spec fn swap_add(v: u16, hh: u8, ll: u8) -> u16 {
    if hh >= ll {
        add_word(byte_swap(v), word(hh, ll))
    } else {
        add_word(byte_swap(v), word(ll, hh))
    }
}

/// Builds the 16-bit word whose high byte is `hi` and whose low byte is `lo`.
pub fn make_word(hi: u8, lo: u8) -> (r: u16)
    ensures
        r == word(hi, lo),
{
    (hi as u16) * 256 + (lo as u16)
}

/// Truncates a 32-bit intermediate to the 16-bit accumulator.
pub fn w(val: u32) -> (r: u16)
    ensures
        r == low16(val as int),
{
    assert((val & 0xFFFF) == val % 65536) by (bit_vector);
    (val & 0xFFFF) as u16
}

/// ByteSwap: exchanges the high and the low byte.
pub fn op_05(val: u16) -> (r: u16)
    ensures
        r == byte_swap(val),
{
    make_word((val % 256) as u8, (val / 256) as u8)
}

/// AddHL: adds the word `hh:ll`.
pub fn op_14(val: u16, hh: u8, ll: u8) -> (r: u16)
    ensures
        r == add_word(val, word(hh, ll)),
{
    w(val as u32 + make_word(hh, ll) as u32)
}

/// Complement: inverts every bit, then adds one when `hh < ll`.
pub fn op_2a(val: u16, hh: u8, ll: u8) -> (r: u16)
    ensures
        r == complement(val, hh, ll),
{
    let inverted: u16 = 0xFFFF - val;
    if hh < ll {
        w(inverted as u32 + 1)
    } else {
        inverted
    }
}

/// AndLH: masks with the word `ll:hh`.
pub fn op_37(val: u16, hh: u8, ll: u8) -> (r: u16)
    ensures
        r == val & word(ll, hh),
{
    val & make_word(ll, hh)
}

/// RotateLeft: rotates left by the low four bits of `hh`.
pub fn op_4c(val: u16, hh: u8, _ll: u8) -> (r: u16)
    ensures
        r == rotate_left(val, (hh % 16) as u16),
{
    let shift: u16 = (hh % 16) as u16;
    if shift == 0 {
        assert(val == (val << 0u16) | (val >> 16u16)) by (bit_vector);
        return val;
    }
    (val << shift) | (val >> (16 - shift))
}

/// OrHL: sets the bits of the word `ll:hh`.
pub fn op_52(val: u16, hh: u8, ll: u8) -> (r: u16)
    ensures
        r == val | word(ll, hh),
{
    val | make_word(ll, hh)
}

/// RotateRight: rotates right by the low four bits of `ll`.
pub fn op_6b(val: u16, _hh: u8, ll: u8) -> (r: u16)
    ensures
        r == rotate_right(val, (ll % 16) as u16),
{
    let shift: u16 = (ll % 16) as u16;
    if shift == 0 {
        assert(val == (val >> 0u16) | (val << 16u16)) by (bit_vector);
        return val;
    }
    (val >> shift) | (val << (16 - shift))
}

/// AddLH: adds the word `ll:hh`.
pub fn op_75(val: u16, hh: u8, ll: u8) -> (r: u16)
    ensures
        r == add_word(val, word(ll, hh)),
{
    w(val as u32 + make_word(ll, hh) as u32)
}

/// SwapAdd: exchanges the bytes, then adds `hh:ll` when `hh >= ll` and `ll:hh` otherwise.
pub fn op_7e(val: u16, hh: u8, ll: u8) -> (r: u16)
    ensures
        r == swap_add(val, hh, ll),
{
    if hh >= ll {
        op_14(op_05(val), hh, ll)
    } else {
        op_75(op_05(val), hh, ll)
    }
}

/// SubHL: subtracts the word `hh:ll`.
pub fn op_98(val: u16, hh: u8, ll: u8) -> (r: u16)
    ensures
        r == sub_word(val, word(hh, ll)),
{
    val.wrapping_sub(make_word(hh, ll))
}

/// SubLH: subtracts the word `ll:hh`.
pub fn op_f8(val: u16, hh: u8, ll: u8) -> (r: u16)
    ensures
        r == sub_word(val, word(ll, hh)),
{
    val.wrapping_sub(make_word(ll, hh))
}

/// One of the eleven defined operations.
#[derive(Debug, Clone, Copy, PartialEq, Eq, Structural)]
pub enum Opcode {
    ByteSwap,
    AddHL,
    Complement,
    AndLH,
    RotateLeft,
    OrHL,
    RotateRight,
    AddLH,
    SwapAdd,
    SubHL,
    SubLH,
}

impl Opcode {
    /// The byte that encodes this operation in a table.
    pub open spec fn spec_code(self) -> u8 {
        match self {
            Opcode::ByteSwap => OP_BYTE_SWAP,
            Opcode::AddHL => OP_ADD_HL,
            Opcode::Complement => OP_COMPLEMENT,
            Opcode::AndLH => OP_AND_LH,
            Opcode::RotateLeft => OP_ROL,
            Opcode::OrHL => OP_OR_HL,
            Opcode::RotateRight => OP_ROR,
            Opcode::AddLH => OP_ADD_LH,
            Opcode::SwapAdd => OP_SWAP_ADD,
            Opcode::SubHL => OP_SUB_HL,
            Opcode::SubLH => OP_SUB_LH,
        }
    }

    /// The operation that `byte` encodes, if it encodes one.
    pub open spec fn spec_from_byte(byte: u8) -> Option<Opcode> {
        if byte == OP_BYTE_SWAP {
            Some(Opcode::ByteSwap)
        } else if byte == OP_ADD_HL {
            Some(Opcode::AddHL)
        } else if byte == OP_COMPLEMENT {
            Some(Opcode::Complement)
        } else if byte == OP_AND_LH {
            Some(Opcode::AndLH)
        } else if byte == OP_ROL {
            Some(Opcode::RotateLeft)
        } else if byte == OP_OR_HL {
            Some(Opcode::OrHL)
        } else if byte == OP_ROR {
            Some(Opcode::RotateRight)
        } else if byte == OP_ADD_LH {
            Some(Opcode::AddLH)
        } else if byte == OP_SWAP_ADD {
            Some(Opcode::SwapAdd)
        } else if byte == OP_SUB_HL {
            Some(Opcode::SubHL)
        } else if byte == OP_SUB_LH {
            Some(Opcode::SubLH)
        } else {
            None
        }
    }

    /// Returns the byte that encodes this operation in a table.
    #[verifier::when_used_as_spec(spec_code)]
    pub fn code(self) -> (r: u8)
        ensures
            r == self.spec_code(),
    {
        match self {
            Opcode::ByteSwap => OP_BYTE_SWAP,
            Opcode::AddHL => OP_ADD_HL,
            Opcode::Complement => OP_COMPLEMENT,
            Opcode::AndLH => OP_AND_LH,
            Opcode::RotateLeft => OP_ROL,
            Opcode::OrHL => OP_OR_HL,
            Opcode::RotateRight => OP_ROR,
            Opcode::AddLH => OP_ADD_LH,
            Opcode::SwapAdd => OP_SWAP_ADD,
            Opcode::SubHL => OP_SUB_HL,
            Opcode::SubLH => OP_SUB_LH,
        }
    }

    /// Decodes an opcode byte: `Some` for each of the eleven defined codes, `None` for
    /// every other byte.
    pub fn from_byte(byte: u8) -> (r: Option<Opcode>)
        ensures
            r == Opcode::spec_from_byte(byte),
    {
        match byte {
            OP_BYTE_SWAP => Some(Opcode::ByteSwap),
            OP_ADD_HL => Some(Opcode::AddHL),
            OP_COMPLEMENT => Some(Opcode::Complement),
            OP_AND_LH => Some(Opcode::AndLH),
            OP_ROL => Some(Opcode::RotateLeft),
            OP_OR_HL => Some(Opcode::OrHL),
            OP_ROR => Some(Opcode::RotateRight),
            OP_ADD_LH => Some(Opcode::AddLH),
            OP_SWAP_ADD => Some(Opcode::SwapAdd),
            OP_SUB_HL => Some(Opcode::SubHL),
            OP_SUB_LH => Some(Opcode::SubLH),
            _ => None,
        }
    }
}

/// The accumulator after `op` has been applied to `v` with the operand bytes `hh`
/// and `ll`.
pub open spec fn transform(op: Opcode, v: u16, hh: u8, ll: u8) -> u16 {
    match op {
        Opcode::ByteSwap => byte_swap(v),
        Opcode::AddHL => add_word(v, word(hh, ll)),
        Opcode::Complement => complement(v, hh, ll),
        Opcode::AndLH => v & word(ll, hh),
        Opcode::RotateLeft => rotate_left(v, (hh % 16) as u16),
        Opcode::OrHL => v | word(ll, hh),
        Opcode::RotateRight => rotate_right(v, (ll % 16) as u16),
        Opcode::AddLH => add_word(v, word(ll, hh)),
        Opcode::SwapAdd => swap_add(v, hh, ll),
        Opcode::SubHL => sub_word(v, word(hh, ll)),
        Opcode::SubLH => sub_word(v, word(ll, hh)),
    }
}

/// Applies one operation to the accumulator.
pub fn apply(op: Opcode, accumulator: u16, hh: u8, ll: u8) -> (r: u16)
    ensures
        r == transform(op, accumulator, hh, ll),
{
    match op {
        Opcode::ByteSwap => op_05(accumulator),
        Opcode::AddHL => op_14(accumulator, hh, ll),
        Opcode::Complement => op_2a(accumulator, hh, ll),
        Opcode::AndLH => op_37(accumulator, hh, ll),
        Opcode::RotateLeft => op_4c(accumulator, hh, ll),
        Opcode::OrHL => op_52(accumulator, hh, ll),
        Opcode::RotateRight => op_6b(accumulator, hh, ll),
        Opcode::AddLH => op_75(accumulator, hh, ll),
        Opcode::SwapAdd => op_7e(accumulator, hh, ll),
        Opcode::SubHL => op_98(accumulator, hh, ll),
        Opcode::SubLH => op_f8(accumulator, hh, ll),
    }
}

/// Decoding the byte of an operation gives that operation back, and a byte decodes
/// to an operation only if it is that operation's code.
pub proof fn lemma_code_round_trip(op: Opcode, byte: u8)
    ensures
        Opcode::spec_from_byte(op.spec_code()) == Some(op),
        Opcode::spec_from_byte(byte) == Some(op) ==> op.spec_code() == byte,
        Opcode::spec_from_byte(0) is None,
{
}

/// ByteSwap undoes itself, whatever operand bytes accompany the two applications.
pub proof fn lemma_byte_swap_twice(v: u16, h1: u8, l1: u8, h2: u8, l2: u8)
    ensures
        byte_swap(byte_swap(v)) == v,
        transform(Opcode::ByteSwap, transform(Opcode::ByteSwap, v, h1, l1), h2, l2) == v,
{
}

/// Rotating by zero bits changes nothing, in either direction.
pub proof fn lemma_rotate_zero(v: u16)
    ensures
        rotate_left(v, 0) == v,
        rotate_right(v, 0) == v,
{
    assert(((v << 0u16) | (v >> 16u16)) == v) by (bit_vector);
    assert(((v >> 0u16) | (v << 16u16)) == v) by (bit_vector);
}

/// Rotating by eight bits, in either direction, exchanges the two bytes.
pub proof fn lemma_rotate_eight_swaps(v: u16)
    ensures
        rotate_left(v, 8) == byte_swap(v),
        rotate_right(v, 8) == byte_swap(v),
{
    assert(((v << 8u16) | (v >> 8u16)) == (v % 256) * 256 + v / 256) by (bit_vector);
    assert(((v >> 8u16) | (v << 8u16)) == (v % 256) * 256 + v / 256) by (bit_vector);
}

/// Rotating left by `n` bits and then right by `n` bits restores the value, and
/// so does the opposite order, for every `n` from 0 to 15.
pub proof fn lemma_rotate_round_trip(v: u16, n: u16)
    requires
        n <= 15,
    ensures
        rotate_right(rotate_left(v, n), n) == v,
        rotate_left(rotate_right(v, n), n) == v,
{
    assert(rotate_right(rotate_left(v, n), n) == v) by (bit_vector)
        requires
            n <= 15,
    ;
    assert(rotate_left(rotate_right(v, n), n) == v) by (bit_vector)
        requires
            n <= 15,
    ;
}

/// RotateLeft followed by RotateRight with the same shift count restores the
/// accumulator. RotateLeft takes its count from `hh`, RotateRight from `ll`; the
/// other operand byte of each is ignored.
pub proof fn lemma_rotate_left_then_right(v: u16, n: u8, l1: u8, h2: u8)
    requires
        n <= 15,
    ensures
        transform(Opcode::RotateRight, transform(Opcode::RotateLeft, v, n, l1), h2, n) == v,
        n == 0 ==> transform(Opcode::RotateLeft, v, n, l1) == v,
        n == 0 ==> transform(Opcode::RotateRight, v, h2, n) == v,
{
    lemma_rotate_round_trip(v, n as u16);
    lemma_rotate_zero(v);
}

/// Adding a word and then subtracting the same word restores the accumulator.
pub proof fn lemma_add_then_sub(v: u16, k: u16)
    ensures
        sub_word(add_word(v, k), k) == v,
        add_word(sub_word(v, k), k) == v,
{
}

/// AddHL followed by SubHL with the same operand bytes restores the accumulator,
/// and so does AddLH followed by SubLH.
pub proof fn lemma_add_sub_round_trip(v: u16, hh: u8, ll: u8)
    ensures
        transform(Opcode::SubHL, transform(Opcode::AddHL, v, hh, ll), hh, ll) == v,
        transform(Opcode::SubLH, transform(Opcode::AddLH, v, hh, ll), hh, ll) == v,
{
    lemma_add_then_sub(v, word(hh, ll));
    lemma_add_then_sub(v, word(ll, hh));
}

/// Without the increment, that is with `hh >= ll` in both applications,
/// Complement undoes itself.
pub proof fn lemma_complement_twice(v: u16, h1: u8, l1: u8, h2: u8, l2: u8)
    requires
        h1 >= l1,
        h2 >= l2,
    ensures
        transform(Opcode::Complement, transform(Opcode::Complement, v, h1, l1), h2, l2) == v,
{
}

/// Without the increment Complement is the bitwise NOT; with it, the negation
/// modulo 65536.
pub proof fn lemma_complement_bits(v: u16, hh: u8, ll: u8)
    ensures
        hh >= ll ==> complement(v, hh, ll) == !v,
        hh < ll ==> complement(v, hh, ll) == low16(-(v as int)),
{
    assert(!v == 65535 - v) by (bit_vector);
}

} // verus!
