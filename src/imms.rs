//! The immediate fields of LoongArch64 instruction words.
//!
//! A name reads as: `S` signed or `U` unsigned, then one letter and a bit
//! count for each group of bits, the letter giving the word bit where the
//! group starts (`d` 0, `j` 5, `k` 10, `a` 15). `ImmSd5k16` is a signed
//! value whose high 5 bits stand at word bit 0 and whose low 16 bits stand
//! at word bit 10.

use crate::field::{
    decode_signed, encode_signed, encode_unsigned, fits_signed, fits_unsigned,
    lemma_pattern_of_value, lemma_signed_round_trip, place, place_split_k16, shifted,
    sign_extend, signed_error, split_k16, unsigned_error, wrap, OutOfRange,
};
use crate::text::{decimal, signed_decimal, signed_text, unsigned_text};
use vstd::arithmetic::power2::lemma2_to64;
use vstd::prelude::*;

verus! {

/// A signed 21-bit offset: its low 16 bits at word bit 10, its high 5 bits at word bit 0.
#[derive(Clone, Copy, Debug)]
pub struct ImmSd5k16 {
    bits: u32,
}

impl ImmSd5k16 {
    /// The field's 21-bit two's-complement pattern.
    pub closed spec fn storage(self) -> int {
        self.bits as int
    }

    #[verifier::type_invariant]
    spec fn fits(self) -> bool {
        self.bits < 0x200000
    }

    /// The logical value the field holds.
    pub open spec fn value(self) -> int {
        sign_extend(self.storage(), 21)
    }

    /// The field for `v`, or `OutOfRange` where `v` lies outside
    /// `[-2^20, 2^20)`.
    pub fn new(v: i64) -> (r: Result<Self, OutOfRange>)
        ensures
            r is Ok <==> fits_signed(v as int, 21),
            r matches Ok(f) ==> f.storage() == wrap(v as int, 21) && f.value() == v,
            r matches Err(e) ==> e == signed_error(v, 21),
    {
        proof {
            lemma2_to64();
        }
        match encode_signed(v, 21) {
            Ok(s) => {
                proof {
                    lemma_signed_round_trip(v as int, 21);
                }
                Ok(ImmSd5k16 { bits: s })
            },
            Err(e) => Err(e),
        }
    }

    /// The field's bits as they stand in an instruction word: low 16 bits at word bit 10, the high bits at word bit 0.
    pub fn to_inst_layout(&self) -> (r: u32)
        ensures
            r == split_k16(self.storage()),
            r == split_k16(wrap(self.value(), 21)),
    {
        proof {
            use_type_invariant(self);
            lemma2_to64();
            lemma_pattern_of_value(self.storage(), 21);
        }
        place_split_k16(self.bits)
    }

    /// The logical value, sign-extended from 21 bits.
    pub fn as_i32(&self) -> (r: i32)
        ensures
            r == self.value(),
    {
        proof {
            use_type_invariant(self);
            lemma2_to64();
        }
        decode_signed(self.bits as u32, 21)
    }

    /// The value with its sign and decimal magnitude, as in `+5` or `-2048`.
    pub fn to_string(&self) -> (r: String)
        ensures
            r@ == signed_decimal(self.value()),
    {
        signed_text(self.as_i32())
    }
}

/// A signed 26-bit offset: its low 16 bits at word bit 10, its high 10 bits at word bit 0.
#[derive(Clone, Copy, Debug)]
pub struct ImmSd10k16 {
    bits: u32,
}

impl ImmSd10k16 {
    /// The field's 26-bit two's-complement pattern.
    pub closed spec fn storage(self) -> int {
        self.bits as int
    }

    #[verifier::type_invariant]
    spec fn fits(self) -> bool {
        self.bits < 0x4000000
    }

    /// The logical value the field holds.
    pub open spec fn value(self) -> int {
        sign_extend(self.storage(), 26)
    }

    /// The field for `v`, or `OutOfRange` where `v` lies outside
    /// `[-2^25, 2^25)`.
    pub fn new(v: i64) -> (r: Result<Self, OutOfRange>)
        ensures
            r is Ok <==> fits_signed(v as int, 26),
            r matches Ok(f) ==> f.storage() == wrap(v as int, 26) && f.value() == v,
            r matches Err(e) ==> e == signed_error(v, 26),
    {
        proof {
            lemma2_to64();
        }
        match encode_signed(v, 26) {
            Ok(s) => {
                proof {
                    lemma_signed_round_trip(v as int, 26);
                }
                Ok(ImmSd10k16 { bits: s })
            },
            Err(e) => Err(e),
        }
    }

    /// The field's bits as they stand in an instruction word: low 16 bits at word bit 10, the high bits at word bit 0.
    pub fn to_inst_layout(&self) -> (r: u32)
        ensures
            r == split_k16(self.storage()),
            r == split_k16(wrap(self.value(), 26)),
    {
        proof {
            use_type_invariant(self);
            lemma2_to64();
            lemma_pattern_of_value(self.storage(), 26);
        }
        place_split_k16(self.bits)
    }

    /// The logical value, sign-extended from 26 bits.
    pub fn as_i32(&self) -> (r: i32)
        ensures
            r == self.value(),
    {
        proof {
            use_type_invariant(self);
            lemma2_to64();
        }
        decode_signed(self.bits as u32, 26)
    }

    /// The value with its sign and decimal magnitude, as in `+5` or `-2048`.
    pub fn to_string(&self) -> (r: String)
        ensures
            r@ == signed_decimal(self.value()),
    {
        signed_text(self.as_i32())
    }
}

/// An unsigned 2-bit immediate at word bit 15.
#[derive(Clone, Copy, Debug)]
pub struct ImmUa2 {
    bits: u8,
}

impl ImmUa2 {
    /// The field's 2-bit pattern.
    pub closed spec fn storage(self) -> int {
        self.bits as int
    }

    #[verifier::type_invariant]
    spec fn fits(self) -> bool {
        self.bits < 0x4
    }

    /// The logical value the field holds.
    pub open spec fn value(self) -> int {
        self.storage()
    }

    /// The field for `v`, or `OutOfRange` where `v` lies outside `[0, 4)`.
    pub fn new(v: i64) -> (r: Result<Self, OutOfRange>)
        ensures
            r is Ok <==> fits_unsigned(v as int, 2),
            r matches Ok(f) ==> f.storage() == v && f.value() == v,
            r matches Err(e) ==> e == unsigned_error(v, 2),
    {
        proof {
            lemma2_to64();
        }
        match encode_unsigned(v, 2) {
            Ok(s) => Ok(ImmUa2 { bits: s as u8 }),
            Err(e) => Err(e),
        }
    }

    /// The field's bits as they stand in an instruction word: the value at
    /// word bit 15.
    pub fn to_inst_layout(&self) -> (r: u32)
        ensures
            r == shifted(self.storage(), 15),
            r == shifted(self.value(), 15),
    {
        proof {
            use_type_invariant(self);
            lemma2_to64();
        }
        place(self.bits as u32, 2, 15)
    }

    /// The logical value.
    pub fn as_u32(&self) -> (r: u32)
        ensures
            r == self.value(),
    {
        self.bits as u32
    }

    /// The value in decimal.
    pub fn to_string(&self) -> (r: String)
        ensures
            r@ == decimal(self.value() as nat),
    {
        unsigned_text(self.bits as u32)
    }
}

/// An unsigned 3-bit immediate at word bit 15.
#[derive(Clone, Copy, Debug)]
pub struct ImmUa3 {
    bits: u8,
}

impl ImmUa3 {
    /// The field's 3-bit pattern.
    pub closed spec fn storage(self) -> int {
        self.bits as int
    }

    #[verifier::type_invariant]
    spec fn fits(self) -> bool {
        self.bits < 0x8
    }

    /// The logical value the field holds.
    pub open spec fn value(self) -> int {
        self.storage()
    }

    /// The field for `v`, or `OutOfRange` where `v` lies outside `[0, 8)`.
    pub fn new(v: i64) -> (r: Result<Self, OutOfRange>)
        ensures
            r is Ok <==> fits_unsigned(v as int, 3),
            r matches Ok(f) ==> f.storage() == v && f.value() == v,
            r matches Err(e) ==> e == unsigned_error(v, 3),
    {
        proof {
            lemma2_to64();
        }
        match encode_unsigned(v, 3) {
            Ok(s) => Ok(ImmUa3 { bits: s as u8 }),
            Err(e) => Err(e),
        }
    }

    /// The field's bits as they stand in an instruction word: the value at
    /// word bit 15.
    pub fn to_inst_layout(&self) -> (r: u32)
        ensures
            r == shifted(self.storage(), 15),
            r == shifted(self.value(), 15),
    {
        proof {
            use_type_invariant(self);
            lemma2_to64();
        }
        place(self.bits as u32, 3, 15)
    }

    /// The logical value.
    pub fn as_u32(&self) -> (r: u32)
        ensures
            r == self.value(),
    {
        self.bits as u32
    }

    /// The value in decimal.
    pub fn to_string(&self) -> (r: String)
        ensures
            r@ == decimal(self.value() as nat),
    {
        unsigned_text(self.bits as u32)
    }
}

/// A signed 12-bit immediate at word bit 10.
#[derive(Clone, Copy, Debug)]
pub struct ImmSk12 {
    bits: u16,
}

impl ImmSk12 {
    /// The field's 12-bit two's-complement pattern.
    pub closed spec fn storage(self) -> int {
        self.bits as int
    }

    #[verifier::type_invariant]
    spec fn fits(self) -> bool {
        self.bits < 0x1000
    }

    /// The logical value the field holds.
    pub open spec fn value(self) -> int {
        sign_extend(self.storage(), 12)
    }

    /// The field for `v`, or `OutOfRange` where `v` lies outside
    /// `[-2^11, 2^11)`.
    pub fn new(v: i64) -> (r: Result<Self, OutOfRange>)
        ensures
            r is Ok <==> fits_signed(v as int, 12),
            r matches Ok(f) ==> f.storage() == wrap(v as int, 12) && f.value() == v,
            r matches Err(e) ==> e == signed_error(v, 12),
    {
        proof {
            lemma2_to64();
        }
        match encode_signed(v, 12) {
            Ok(s) => {
                proof {
                    lemma_signed_round_trip(v as int, 12);
                }
                Ok(ImmSk12 { bits: s as u16 })
            },
            Err(e) => Err(e),
        }
    }

    /// The field's bits as they stand in an instruction word: the pattern at word bit 10.
    pub fn to_inst_layout(&self) -> (r: u32)
        ensures
            r == shifted(self.storage(), 10),
            r == shifted(wrap(self.value(), 12), 10),
    {
        proof {
            use_type_invariant(self);
            lemma2_to64();
            lemma_pattern_of_value(self.storage(), 12);
        }
        place(self.bits as u32, 12, 10)
    }

    /// The logical value, sign-extended from 12 bits.
    pub fn as_i32(&self) -> (r: i32)
        ensures
            r == self.value(),
    {
        proof {
            use_type_invariant(self);
            lemma2_to64();
        }
        decode_signed(self.bits as u32, 12)
    }

    /// The value with its sign and decimal magnitude, as in `+5` or `-2048`.
    pub fn to_string(&self) -> (r: String)
        ensures
            r@ == signed_decimal(self.value()),
    {
        signed_text(self.as_i32())
    }
}

/// A signed 14-bit immediate at word bit 10.
#[derive(Clone, Copy, Debug)]
pub struct ImmSk14 {
    bits: u16,
}

impl ImmSk14 {
    /// The field's 14-bit two's-complement pattern.
    pub closed spec fn storage(self) -> int {
        self.bits as int
    }

    #[verifier::type_invariant]
    spec fn fits(self) -> bool {
        self.bits < 0x4000
    }

    /// The logical value the field holds.
    pub open spec fn value(self) -> int {
        sign_extend(self.storage(), 14)
    }

    /// The field for `v`, or `OutOfRange` where `v` lies outside
    /// `[-2^13, 2^13)`.
    pub fn new(v: i64) -> (r: Result<Self, OutOfRange>)
        ensures
            r is Ok <==> fits_signed(v as int, 14),
            r matches Ok(f) ==> f.storage() == wrap(v as int, 14) && f.value() == v,
            r matches Err(e) ==> e == signed_error(v, 14),
    {
        proof {
            lemma2_to64();
        }
        match encode_signed(v, 14) {
            Ok(s) => {
                proof {
                    lemma_signed_round_trip(v as int, 14);
                }
                Ok(ImmSk14 { bits: s as u16 })
            },
            Err(e) => Err(e),
        }
    }

    /// The field's bits as they stand in an instruction word: the pattern at word bit 10.
    pub fn to_inst_layout(&self) -> (r: u32)
        ensures
            r == shifted(self.storage(), 10),
            r == shifted(wrap(self.value(), 14), 10),
    {
        proof {
            use_type_invariant(self);
            lemma2_to64();
            lemma_pattern_of_value(self.storage(), 14);
        }
        place(self.bits as u32, 14, 10)
    }

    /// The logical value, sign-extended from 14 bits.
    pub fn as_i32(&self) -> (r: i32)
        ensures
            r == self.value(),
    {
        proof {
            use_type_invariant(self);
            lemma2_to64();
        }
        decode_signed(self.bits as u32, 14)
    }

    /// The value with its sign and decimal magnitude, as in `+5` or `-2048`.
    pub fn to_string(&self) -> (r: String)
        ensures
            r@ == signed_decimal(self.value()),
    {
        signed_text(self.as_i32())
    }
}

/// A signed 16-bit immediate at word bit 10.
#[derive(Clone, Copy, Debug)]
pub struct ImmSk16 {
    bits: u16,
}

impl ImmSk16 {
    /// The field's 16-bit two's-complement pattern.
    pub closed spec fn storage(self) -> int {
        self.bits as int
    }

    #[verifier::type_invariant]
    spec fn fits(self) -> bool {
        self.bits < 0x10000
    }

    /// The logical value the field holds.
    pub open spec fn value(self) -> int {
        sign_extend(self.storage(), 16)
    }

    /// The field for `v`, or `OutOfRange` where `v` lies outside
    /// `[-2^15, 2^15)`.
    pub fn new(v: i64) -> (r: Result<Self, OutOfRange>)
        ensures
            r is Ok <==> fits_signed(v as int, 16),
            r matches Ok(f) ==> f.storage() == wrap(v as int, 16) && f.value() == v,
            r matches Err(e) ==> e == signed_error(v, 16),
    {
        proof {
            lemma2_to64();
        }
        match encode_signed(v, 16) {
            Ok(s) => {
                proof {
                    lemma_signed_round_trip(v as int, 16);
                }
                Ok(ImmSk16 { bits: s as u16 })
            },
            Err(e) => Err(e),
        }
    }

    /// The field's bits as they stand in an instruction word: the pattern at word bit 10.
    pub fn to_inst_layout(&self) -> (r: u32)
        ensures
            r == shifted(self.storage(), 10),
            r == shifted(wrap(self.value(), 16), 10),
    {
        proof {
            use_type_invariant(self);
            lemma2_to64();
            lemma_pattern_of_value(self.storage(), 16);
        }
        place(self.bits as u32, 16, 10)
    }

    /// The logical value, sign-extended from 16 bits.
    pub fn as_i32(&self) -> (r: i32)
        ensures
            r == self.value(),
    {
        proof {
            use_type_invariant(self);
            lemma2_to64();
        }
        decode_signed(self.bits as u32, 16)
    }

    /// The value with its sign and decimal magnitude, as in `+5` or `-2048`.
    pub fn to_string(&self) -> (r: String)
        ensures
            r@ == signed_decimal(self.value()),
    {
        signed_text(self.as_i32())
    }
}

/// An unsigned 5-bit immediate at word bit 10.
#[derive(Clone, Copy, Debug)]
pub struct ImmUk5 {
    bits: u32,
}

impl ImmUk5 {
    /// The field's 5-bit pattern.
    pub closed spec fn storage(self) -> int {
        self.bits as int
    }

    #[verifier::type_invariant]
    spec fn fits(self) -> bool {
        self.bits < 0x20
    }

    /// The logical value the field holds.
    pub open spec fn value(self) -> int {
        self.storage()
    }

    /// The field for `v`, or `OutOfRange` where `v` lies outside `[0, 32)`.
    pub fn new(v: i64) -> (r: Result<Self, OutOfRange>)
        ensures
            r is Ok <==> fits_unsigned(v as int, 5),
            r matches Ok(f) ==> f.storage() == v && f.value() == v,
            r matches Err(e) ==> e == unsigned_error(v, 5),
    {
        proof {
            lemma2_to64();
        }
        match encode_unsigned(v, 5) {
            Ok(s) => Ok(ImmUk5 { bits: s }),
            Err(e) => Err(e),
        }
    }

    /// The field's bits as they stand in an instruction word: the value at
    /// word bit 10.
    pub fn to_inst_layout(&self) -> (r: u32)
        ensures
            r == shifted(self.storage(), 10),
            r == shifted(self.value(), 10),
    {
        proof {
            use_type_invariant(self);
            lemma2_to64();
        }
        place(self.bits, 5, 10)
    }

    /// The logical value.
    pub fn as_u32(&self) -> (r: u32)
        ensures
            r == self.value(),
    {
        self.bits
    }

    /// The value in decimal.
    pub fn to_string(&self) -> (r: String)
        ensures
            r@ == decimal(self.value() as nat),
    {
        unsigned_text(self.bits)
    }
}

/// An unsigned 6-bit immediate at word bit 10.
#[derive(Clone, Copy, Debug)]
pub struct ImmUk6 {
    bits: u32,
}

impl ImmUk6 {
    /// The field's 6-bit pattern.
    pub closed spec fn storage(self) -> int {
        self.bits as int
    }

    #[verifier::type_invariant]
    spec fn fits(self) -> bool {
        self.bits < 0x40
    }

    /// The logical value the field holds.
    pub open spec fn value(self) -> int {
        self.storage()
    }

    /// The field for `v`, or `OutOfRange` where `v` lies outside `[0, 64)`.
    pub fn new(v: i64) -> (r: Result<Self, OutOfRange>)
        ensures
            r is Ok <==> fits_unsigned(v as int, 6),
            r matches Ok(f) ==> f.storage() == v && f.value() == v,
            r matches Err(e) ==> e == unsigned_error(v, 6),
    {
        proof {
            lemma2_to64();
        }
        match encode_unsigned(v, 6) {
            Ok(s) => Ok(ImmUk6 { bits: s }),
            Err(e) => Err(e),
        }
    }

    /// The field's bits as they stand in an instruction word: the value at
    /// word bit 10.
    pub fn to_inst_layout(&self) -> (r: u32)
        ensures
            r == shifted(self.storage(), 10),
            r == shifted(self.value(), 10),
    {
        proof {
            use_type_invariant(self);
            lemma2_to64();
        }
        place(self.bits, 6, 10)
    }

    /// The logical value.
    pub fn as_u32(&self) -> (r: u32)
        ensures
            r == self.value(),
    {
        self.bits
    }

    /// The value in decimal.
    pub fn to_string(&self) -> (r: String)
        ensures
            r@ == decimal(self.value() as nat),
    {
        unsigned_text(self.bits)
    }
}

/// An unsigned 8-bit immediate at word bit 10.
#[derive(Clone, Copy, Debug)]
pub struct ImmUk8 {
    bits: u32,
}

impl ImmUk8 {
    /// The field's 8-bit pattern.
    pub closed spec fn storage(self) -> int {
        self.bits as int
    }

    #[verifier::type_invariant]
    spec fn fits(self) -> bool {
        self.bits < 0x100
    }

    /// The logical value the field holds.
    pub open spec fn value(self) -> int {
        self.storage()
    }

    /// The field for `v`, or `OutOfRange` where `v` lies outside `[0, 256)`.
    pub fn new(v: i64) -> (r: Result<Self, OutOfRange>)
        ensures
            r is Ok <==> fits_unsigned(v as int, 8),
            r matches Ok(f) ==> f.storage() == v && f.value() == v,
            r matches Err(e) ==> e == unsigned_error(v, 8),
    {
        proof {
            lemma2_to64();
        }
        match encode_unsigned(v, 8) {
            Ok(s) => Ok(ImmUk8 { bits: s }),
            Err(e) => Err(e),
        }
    }

    /// The field's bits as they stand in an instruction word: the value at
    /// word bit 10.
    pub fn to_inst_layout(&self) -> (r: u32)
        ensures
            r == shifted(self.storage(), 10),
            r == shifted(self.value(), 10),
    {
        proof {
            use_type_invariant(self);
            lemma2_to64();
        }
        place(self.bits, 8, 10)
    }

    /// The logical value.
    pub fn as_u32(&self) -> (r: u32)
        ensures
            r == self.value(),
    {
        self.bits
    }

    /// The value in decimal.
    pub fn to_string(&self) -> (r: String)
        ensures
            r@ == decimal(self.value() as nat),
    {
        unsigned_text(self.bits)
    }
}

/// An unsigned 12-bit immediate at word bit 10.
#[derive(Clone, Copy, Debug)]
pub struct ImmUk12 {
    bits: u32,
}

impl ImmUk12 {
    /// The field's 12-bit pattern.
    pub closed spec fn storage(self) -> int {
        self.bits as int
    }

    #[verifier::type_invariant]
    spec fn fits(self) -> bool {
        self.bits < 0x1000
    }

    /// The logical value the field holds.
    pub open spec fn value(self) -> int {
        self.storage()
    }

    /// The field for `v`, or `OutOfRange` where `v` lies outside `[0, 4096)`.
    pub fn new(v: i64) -> (r: Result<Self, OutOfRange>)
        ensures
            r is Ok <==> fits_unsigned(v as int, 12),
            r matches Ok(f) ==> f.storage() == v && f.value() == v,
            r matches Err(e) ==> e == unsigned_error(v, 12),
    {
        proof {
            lemma2_to64();
        }
        match encode_unsigned(v, 12) {
            Ok(s) => Ok(ImmUk12 { bits: s }),
            Err(e) => Err(e),
        }
    }

    /// The field's bits as they stand in an instruction word: the value at
    /// word bit 10.
    pub fn to_inst_layout(&self) -> (r: u32)
        ensures
            r == shifted(self.storage(), 10),
            r == shifted(self.value(), 10),
    {
        proof {
            use_type_invariant(self);
            lemma2_to64();
        }
        place(self.bits, 12, 10)
    }

    /// The logical value.
    pub fn as_u32(&self) -> (r: u32)
        ensures
            r == self.value(),
    {
        self.bits
    }

    /// The value in decimal.
    pub fn to_string(&self) -> (r: String)
        ensures
            r@ == decimal(self.value() as nat),
    {
        unsigned_text(self.bits)
    }
}

/// An unsigned 14-bit immediate at word bit 10.
#[derive(Clone, Copy, Debug)]
pub struct ImmUk14 {
    bits: u32,
}

impl ImmUk14 {
    /// The field's 14-bit pattern.
    pub closed spec fn storage(self) -> int {
        self.bits as int
    }

    #[verifier::type_invariant]
    spec fn fits(self) -> bool {
        self.bits < 0x4000
    }

    /// The logical value the field holds.
    pub open spec fn value(self) -> int {
        self.storage()
    }

    /// The field for `v`, or `OutOfRange` where `v` lies outside `[0, 16384)`.
    pub fn new(v: i64) -> (r: Result<Self, OutOfRange>)
        ensures
            r is Ok <==> fits_unsigned(v as int, 14),
            r matches Ok(f) ==> f.storage() == v && f.value() == v,
            r matches Err(e) ==> e == unsigned_error(v, 14),
    {
        proof {
            lemma2_to64();
        }
        match encode_unsigned(v, 14) {
            Ok(s) => Ok(ImmUk14 { bits: s }),
            Err(e) => Err(e),
        }
    }

    /// The field's bits as they stand in an instruction word: the value at
    /// word bit 10.
    pub fn to_inst_layout(&self) -> (r: u32)
        ensures
            r == shifted(self.storage(), 10),
            r == shifted(self.value(), 10),
    {
        proof {
            use_type_invariant(self);
            lemma2_to64();
        }
        place(self.bits, 14, 10)
    }

    /// The logical value.
    pub fn as_u32(&self) -> (r: u32)
        ensures
            r == self.value(),
    {
        self.bits
    }

    /// The value in decimal.
    pub fn to_string(&self) -> (r: String)
        ensures
            r@ == decimal(self.value() as nat),
    {
        unsigned_text(self.bits)
    }
}

/// An unsigned 5-bit immediate at word bit 5.
#[derive(Clone, Copy, Debug)]
pub struct ImmUj5 {
    bits: u8,
}

impl ImmUj5 {
    /// The field's 5-bit pattern.
    pub closed spec fn storage(self) -> int {
        self.bits as int
    }

    #[verifier::type_invariant]
    spec fn fits(self) -> bool {
        self.bits < 0x20
    }

    /// The logical value the field holds.
    pub open spec fn value(self) -> int {
        self.storage()
    }

    /// The field for `v`, or `OutOfRange` where `v` lies outside `[0, 32)`.
    pub fn new(v: i64) -> (r: Result<Self, OutOfRange>)
        ensures
            r is Ok <==> fits_unsigned(v as int, 5),
            r matches Ok(f) ==> f.storage() == v && f.value() == v,
            r matches Err(e) ==> e == unsigned_error(v, 5),
    {
        proof {
            lemma2_to64();
        }
        match encode_unsigned(v, 5) {
            Ok(s) => Ok(ImmUj5 { bits: s as u8 }),
            Err(e) => Err(e),
        }
    }

    /// The field's bits as they stand in an instruction word: the value at
    /// word bit 5.
    pub fn to_inst_layout(&self) -> (r: u32)
        ensures
            r == shifted(self.storage(), 5),
            r == shifted(self.value(), 5),
    {
        proof {
            use_type_invariant(self);
            lemma2_to64();
        }
        place(self.bits as u32, 5, 5)
    }

    /// The logical value.
    pub fn as_u32(&self) -> (r: u32)
        ensures
            r == self.value(),
    {
        self.bits as u32
    }

    /// The value in decimal.
    pub fn to_string(&self) -> (r: String)
        ensures
            r@ == decimal(self.value() as nat),
    {
        unsigned_text(self.bits as u32)
    }
}

/// An unsigned 5-bit immediate at word bit 0.
#[derive(Clone, Copy, Debug)]
pub struct ImmUd5 {
    bits: u8,
}

impl ImmUd5 {
    /// The field's 5-bit pattern.
    pub closed spec fn storage(self) -> int {
        self.bits as int
    }

    #[verifier::type_invariant]
    spec fn fits(self) -> bool {
        self.bits < 0x20
    }

    /// The logical value the field holds.
    pub open spec fn value(self) -> int {
        self.storage()
    }

    /// The field for `v`, or `OutOfRange` where `v` lies outside `[0, 32)`.
    pub fn new(v: i64) -> (r: Result<Self, OutOfRange>)
        ensures
            r is Ok <==> fits_unsigned(v as int, 5),
            r matches Ok(f) ==> f.storage() == v && f.value() == v,
            r matches Err(e) ==> e == unsigned_error(v, 5),
    {
        proof {
            lemma2_to64();
        }
        match encode_unsigned(v, 5) {
            Ok(s) => Ok(ImmUd5 { bits: s as u8 }),
            Err(e) => Err(e),
        }
    }

    /// The field's bits as they stand in an instruction word: the value at
    /// word bit 0.
    pub fn to_inst_layout(&self) -> (r: u32)
        ensures
            r == shifted(self.storage(), 0),
            r == shifted(self.value(), 0),
    {
        proof {
            use_type_invariant(self);
            lemma2_to64();
        }
        place(self.bits as u32, 5, 0)
    }

    /// The logical value.
    pub fn as_u32(&self) -> (r: u32)
        ensures
            r == self.value(),
    {
        self.bits as u32
    }

    /// The value in decimal.
    pub fn to_string(&self) -> (r: String)
        ensures
            r@ == decimal(self.value() as nat),
    {
        unsigned_text(self.bits as u32)
    }
}

/// An unsigned 15-bit immediate at word bit 0.
#[derive(Clone, Copy, Debug)]
pub struct ImmUd15 {
    bits: u16,
}

impl ImmUd15 {
    /// The field's 15-bit pattern.
    pub closed spec fn storage(self) -> int {
        self.bits as int
    }

    #[verifier::type_invariant]
    spec fn fits(self) -> bool {
        self.bits < 0x8000
    }

    /// The logical value the field holds.
    pub open spec fn value(self) -> int {
        self.storage()
    }

    /// The field for `v`, or `OutOfRange` where `v` lies outside `[0, 32768)`.
    pub fn new(v: i64) -> (r: Result<Self, OutOfRange>)
        ensures
            r is Ok <==> fits_unsigned(v as int, 15),
            r matches Ok(f) ==> f.storage() == v && f.value() == v,
            r matches Err(e) ==> e == unsigned_error(v, 15),
    {
        proof {
            lemma2_to64();
        }
        match encode_unsigned(v, 15) {
            Ok(s) => Ok(ImmUd15 { bits: s as u16 }),
            Err(e) => Err(e),
        }
    }

    /// The field's bits as they stand in an instruction word: the value at
    /// word bit 0.
    pub fn to_inst_layout(&self) -> (r: u32)
        ensures
            r == shifted(self.storage(), 0),
            r == shifted(self.value(), 0),
    {
        proof {
            use_type_invariant(self);
            lemma2_to64();
        }
        place(self.bits as u32, 15, 0)
    }

    /// The logical value.
    pub fn as_u32(&self) -> (r: u32)
        ensures
            r == self.value(),
    {
        self.bits as u32
    }

    /// The value in decimal.
    pub fn to_string(&self) -> (r: String)
        ensures
            r@ == decimal(self.value() as nat),
    {
        unsigned_text(self.bits as u32)
    }
}

/// A signed 20-bit immediate at word bit 5.
#[derive(Clone, Copy, Debug)]
pub struct ImmSj20 {
    bits: u32,
}

impl ImmSj20 {
    /// The field's 20-bit two's-complement pattern.
    pub closed spec fn storage(self) -> int {
        self.bits as int
    }

    #[verifier::type_invariant]
    spec fn fits(self) -> bool {
        self.bits < 0x100000
    }

    /// The logical value the field holds.
    pub open spec fn value(self) -> int {
        sign_extend(self.storage(), 20)
    }

    /// The field for `v`, or `OutOfRange` where `v` lies outside
    /// `[-2^19, 2^19)`.
    pub fn new(v: i64) -> (r: Result<Self, OutOfRange>)
        ensures
            r is Ok <==> fits_signed(v as int, 20),
            r matches Ok(f) ==> f.storage() == wrap(v as int, 20) && f.value() == v,
            r matches Err(e) ==> e == signed_error(v, 20),
    {
        proof {
            lemma2_to64();
        }
        match encode_signed(v, 20) {
            Ok(s) => {
                proof {
                    lemma_signed_round_trip(v as int, 20);
                }
                Ok(ImmSj20 { bits: s })
            },
            Err(e) => Err(e),
        }
    }

    /// The field's bits as they stand in an instruction word: the pattern at word bit 5.
    pub fn to_inst_layout(&self) -> (r: u32)
        ensures
            r == shifted(self.storage(), 5),
            r == shifted(wrap(self.value(), 20), 5),
    {
        proof {
            use_type_invariant(self);
            lemma2_to64();
            lemma_pattern_of_value(self.storage(), 20);
        }
        place(self.bits as u32, 20, 5)
    }

    /// The logical value, sign-extended from 20 bits.
    pub fn as_i32(&self) -> (r: i32)
        ensures
            r == self.value(),
    {
        proof {
            use_type_invariant(self);
            lemma2_to64();
        }
        decode_signed(self.bits as u32, 20)
    }

    /// The value with its sign and decimal magnitude, as in `+5` or `-2048`.
    pub fn to_string(&self) -> (r: String)
        ensures
            r@ == signed_decimal(self.value()),
    {
        signed_text(self.as_i32())
    }
}

} // verus!
