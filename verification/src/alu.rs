//! The arithmetic/logic unit: two accumulators per mode, a split result and
//! a compare flag.
//!
//! Single-precision values are held as their bit patterns. Sums, products and
//! quotients of such values are computed by the caller and handed in; ordering
//! them and converting them to and from integers is done here, on the
//! patterns.
use crate::bits::{
    bits_to_i32, high_word, i32_to_bits, i64_to_bits, low_word, signed_of, split_words,
    unsigned_of, unsigned_of_wide,
};
use crate::convert::{float_of_int, float_to_int, int_of_float, int_to_float};
use vstd::prelude::*;

verus! {

/// How the unit reads a pushed cell.
#[derive(Clone, Copy, Debug, PartialEq, Eq, Structural)]
pub enum AluMode {
    Int,
    Float,
}

/// The relation that a compare evaluates, older operand on the left.
#[derive(Clone, Copy, Debug, PartialEq, Eq, Structural)]
pub enum AluCompareMode {
    GreaterThan,
    GreaterThanOrEqual,
    Equal,
    NotEqual,
    LesserThan,
    LesserThanOrEqual,
}

/// Why an integer division has no result.
#[derive(Clone, Copy, Debug, PartialEq, Eq, Structural)]
pub enum ArithmeticFault {
    DivideByZero,
    IntegerOverflow,
}

/// The state of the unit.
#[derive(Clone, Copy, Debug, PartialEq, Eq, Structural)]
pub struct Alu {
    /// Most recently pushed integer.
    pub value_a_int: i32,
    /// Integer pushed before that.
    pub value_b_int: i32,
    /// Bit pattern of the most recently pushed single-precision value.
    pub value_a_float: u32,
    /// Bit pattern of the single-precision value pushed before that.
    pub value_b_float: u32,
    /// Whether the last compare held.
    pub compare_result: bool,
    /// The relation that the last compare evaluated.
    pub compare_mode: AluCompareMode,
    /// High word of the last result.
    pub hi: u32,
    /// Low word of the last result.
    pub lo: u32,
    /// How pushed cells are read.
    pub mode: AluMode,
}

/// The distance of `x` from zero.
pub open spec fn magnitude(x: int) -> int {
    if x < 0 {
        -x
    } else {
        x
    }
}

/// The quotient of `a` by `b`, rounded toward zero.
pub open spec fn truncated_quotient(a: int, b: int) -> int {
    if (a < 0) == (b < 0) {
        magnitude(a) / magnitude(b)
    } else {
        -(magnitude(a) / magnitude(b))
    }
}

/// The remainder that goes with `truncated_quotient`: it has the sign of `a`.
pub open spec fn truncated_remainder(a: int, b: int) -> int {
    if a < 0 {
        -(magnitude(a) % magnitude(b))
    } else {
        magnitude(a) % magnitude(b)
    }
}

/// The sum of two signed words, wrapped to 32 bits, as a bit pattern.
pub open spec fn wrapped_sum(a: i32, b: i32) -> u32 {
    ((unsigned_of(a) + unsigned_of(b)) % 0x1_0000_0000) as u32
}

/// The exact product of two signed words as a 64-bit pattern.
pub open spec fn wide_product(a: i32, b: i32) -> u64 {
    unsigned_of_wide((a * b) as i64)
}

/// A single-precision pattern without its sign bit.
pub open spec fn float_magnitude(x: u32) -> int {
    if x >= 0x8000_0000 {
        x - 0x8000_0000
    } else {
        x as int
    }
}

/// The pattern stands for no number.
pub open spec fn float_is_nan(x: u32) -> bool {
    float_magnitude(x) > 0x7f80_0000
}

/// An integer that orders the numbers among single-precision patterns as
/// their values are ordered; both zeros get the same rank.
pub open spec fn float_rank(x: u32) -> int {
    if x >= 0x8000_0000 {
        -float_magnitude(x)
    } else {
        float_magnitude(x)
    }
}

/// Whether `b REL a` holds of two integers.
pub open spec fn relation_holds(mode: AluCompareMode, b: int, a: int) -> bool {
    match mode {
        AluCompareMode::Equal => b == a,
        AluCompareMode::NotEqual => b != a,
        AluCompareMode::GreaterThan => b > a,
        AluCompareMode::GreaterThanOrEqual => b >= a,
        AluCompareMode::LesserThan => b < a,
        AluCompareMode::LesserThanOrEqual => b <= a,
    }
}

/// Whether `b REL a` holds of two single-precision patterns: where either
/// stands for no number, only `NotEqual` holds.
pub open spec fn float_relation_holds(mode: AluCompareMode, b: u32, a: u32) -> bool {
    if float_is_nan(a) || float_is_nan(b) {
        mode == AluCompareMode::NotEqual
    } else {
        relation_holds(mode, float_rank(b), float_rank(a))
    }
}

/// The relation that an operand of a compare instruction selects.
pub open spec fn compare_mode_of(value: u32) -> Option<AluCompareMode> {
    if value == 0 {
        Some(AluCompareMode::Equal)
    } else if value == 1 {
        Some(AluCompareMode::NotEqual)
    } else if value == 2 {
        Some(AluCompareMode::GreaterThan)
    } else if value == 3 {
        Some(AluCompareMode::GreaterThanOrEqual)
    } else if value == 4 {
        Some(AluCompareMode::LesserThan)
    } else if value == 5 {
        Some(AluCompareMode::LesserThanOrEqual)
    } else {
        None
    }
}

/// Decodes the operand of a compare instruction.
pub fn decode_compare_mode(value: u32) -> (r: Option<AluCompareMode>)
    ensures
        r == compare_mode_of(value),
{
    match value {
        0 => Some(AluCompareMode::Equal),
        1 => Some(AluCompareMode::NotEqual),
        2 => Some(AluCompareMode::GreaterThan),
        3 => Some(AluCompareMode::GreaterThanOrEqual),
        4 => Some(AluCompareMode::LesserThan),
        5 => Some(AluCompareMode::LesserThanOrEqual),
        _ => None,
    }
}

/// Evaluates `b REL a` on two signed words.
pub fn compare_ints(mode: AluCompareMode, b: i32, a: i32) -> (r: bool)
    ensures
        r == relation_holds(mode, b as int, a as int),
{
    match mode {
        AluCompareMode::Equal => b == a,
        AluCompareMode::GreaterThan => b > a,
        AluCompareMode::LesserThan => b < a,
        AluCompareMode::NotEqual => b != a,
        AluCompareMode::GreaterThanOrEqual => b >= a,
        AluCompareMode::LesserThanOrEqual => b <= a,
    }
}

/// The rank of a single-precision pattern, or `None` where it stands for no
/// number.
pub fn rank_float(x: u32) -> (r: Option<i32>)
    ensures
        r is None <==> float_is_nan(x),
        r is Some ==> r->Some_0 == float_rank(x),
{
    if x >= 0x8000_0000 {
        let m: u32 = x - 0x8000_0000;
        if m > 0x7f80_0000 {
            None
        } else {
            Some(0 - (m as i32))
        }
    } else if x > 0x7f80_0000 {
        None
    } else {
        Some(x as i32)
    }
}

/// Evaluates `b REL a` on two single-precision patterns.
pub fn compare_floats(mode: AluCompareMode, b: u32, a: u32) -> (r: bool)
    ensures
        r == float_relation_holds(mode, b, a),
{
    match (rank_float(b), rank_float(a)) {
        (Some(rb), Some(ra)) => compare_ints(mode, rb, ra),
        _ => match mode {
            AluCompareMode::NotEqual => true,
            _ => false,
        },
    }
}

impl Alu {
    /// The unit after a push of `value`: the cell is read in the current
    /// mode and becomes the recent operand; the recent one becomes the older.
    pub open spec fn pushed(self, value: u32) -> Alu {
        match self.mode {
            AluMode::Int => Alu {
                value_b_int: self.value_a_int,
                value_a_int: signed_of(value),
                ..self
            },
            AluMode::Float => Alu {
                value_b_float: self.value_a_float,
                value_a_float: value,
                ..self
            },
        }
    }

    /// The unit with `hi` and `lo` replaced.
    pub open spec fn with_result(self, hi: u32, lo: u32) -> Alu {
        Alu { hi, lo, ..self }
    }

    /// The unit after an add; `float_sum` is the pattern of the sum of the
    /// two single-precision operands.
    pub open spec fn added(self, float_sum: u32) -> Alu {
        match self.mode {
            AluMode::Int => self.with_result(wrapped_sum(self.value_a_int, self.value_b_int), 0),
            AluMode::Float => self.with_result(float_sum, 0),
        }
    }

    /// The unit after a multiply; `float_product` is the double-precision
    /// pattern of the product of the two single-precision operands.
    pub open spec fn multiplied(self, float_product: u64) -> Alu {
        match self.mode {
            AluMode::Int => {
                let bits = wide_product(self.value_a_int, self.value_b_int);
                self.with_result(high_word(bits), low_word(bits))
            },
            AluMode::Float => self.with_result(high_word(float_product), low_word(float_product)),
        }
    }

    /// Why a divide cannot be done, if it cannot: only in integer mode, on a
    /// zero divisor or on the one quotient that does not fit.
    pub open spec fn divide_fault(self) -> Option<ArithmeticFault> {
        if self.mode == AluMode::Int && self.value_b_int == 0 {
            Some(ArithmeticFault::DivideByZero)
        } else if self.mode == AluMode::Int && self.value_a_int == i32::MIN && self.value_b_int
            == -1 {
            Some(ArithmeticFault::IntegerOverflow)
        } else {
            None
        }
    }

    /// The unit after a divide of the recent operand by the older one;
    /// `float_quotient` is the pattern of the single-precision quotient.
    pub open spec fn divided(self, float_quotient: u32) -> Alu {
        match self.mode {
            AluMode::Int => self.with_result(
                unsigned_of(
                    truncated_remainder(self.value_a_int as int, self.value_b_int as int) as i32,
                ),
                unsigned_of(
                    truncated_quotient(self.value_a_int as int, self.value_b_int as int) as i32,
                ),
            ),
            AluMode::Float => self.with_result(0, float_quotient),
        }
    }

    /// The unit after its compare mode was evaluated on the integers.
    pub open spec fn compared_ints(self) -> Alu {
        Alu {
            compare_result: relation_holds(
                self.compare_mode,
                self.value_b_int as int,
                self.value_a_int as int,
            ),
            ..self
        }
    }

    /// The unit after its compare mode was evaluated on the single-precision
    /// pair.
    pub open spec fn compared_floats(self) -> Alu {
        Alu {
            compare_result: float_relation_holds(
                self.compare_mode,
                self.value_b_float,
                self.value_a_float,
            ),
            ..self
        }
    }

    /// The unit after a compare in the current mode.
    pub open spec fn compared(self) -> Alu {
        match self.mode {
            AluMode::Int => self.compared_ints(),
            AluMode::Float => self.compared_floats(),
        }
    }

    /// The unit in integer mode, its integers filled from the bit patterns of
    /// the single-precision pair.
    pub open spec fn int_from_bits(self) -> Alu {
        Alu {
            mode: AluMode::Int,
            value_a_int: signed_of(self.value_a_float),
            value_b_int: signed_of(self.value_b_float),
            ..self
        }
    }

    /// The unit in float mode, its single-precision pair filled from the bit
    /// patterns of the integers.
    pub open spec fn float_from_bits(self) -> Alu {
        Alu {
            mode: AluMode::Float,
            value_a_float: unsigned_of(self.value_a_int),
            value_b_float: unsigned_of(self.value_b_int),
            ..self
        }
    }

    /// The unit in integer mode, its integers filled with the values of the
    /// single-precision pair.
    pub open spec fn int_from_values(self) -> Alu {
        Alu {
            mode: AluMode::Int,
            value_a_int: int_of_float(self.value_a_float),
            value_b_int: int_of_float(self.value_b_float),
            ..self
        }
    }

    /// The unit in float mode, its single-precision pair filled with the
    /// values of the integers.
    pub open spec fn float_from_values(self) -> Alu {
        Alu {
            mode: AluMode::Float,
            value_a_float: float_of_int(self.value_a_int),
            value_b_float: float_of_int(self.value_b_int),
            ..self
        }
    }

    /// The unit after a switch to `mode`: the pair of that mode is filled
    /// from the other pair, by bit pattern or by value.
    pub open spec fn switched(self, mode: AluMode, reinterpret_bits: bool) -> Alu {
        match mode {
            AluMode::Int => if reinterpret_bits {
                self.int_from_bits()
            } else {
                self.int_from_values()
            },
            AluMode::Float => if reinterpret_bits {
                self.float_from_bits()
            } else {
                self.float_from_values()
            },
        }
    }

    /// A unit in integer mode with every register zero.
    pub fn new() -> (r: Alu)
        ensures
            r == (Alu {
                value_a_int: 0,
                value_b_int: 0,
                value_a_float: 0,
                value_b_float: 0,
                compare_result: false,
                compare_mode: AluCompareMode::Equal,
                hi: 0,
                lo: 0,
                mode: AluMode::Int,
            }),
    {
        Alu {
            value_a_int: 0,
            value_b_int: 0,
            value_a_float: 0,
            value_b_float: 0,
            compare_result: false,
            compare_mode: AluCompareMode::Equal,
            hi: 0,
            lo: 0,
            mode: AluMode::Int,
        }
    }

    /// Switches to `mode`, filling the pair of that mode from the other pair:
    /// with the same bits where `reinterpret_bits` holds, else with the same
    /// values as far as the mode can hold them.
    pub fn set_mode(&mut self, mode: AluMode, reinterpret_bits: bool)
        ensures
            *final(self) == old(self).switched(mode, reinterpret_bits),
    {
        match mode {
            AluMode::Int => if reinterpret_bits {
                self.mode_int_save_bits()
            } else {
                self.mode_int_save_value()
            },
            AluMode::Float => if reinterpret_bits {
                self.mode_float_save_bits()
            } else {
                self.mode_float_save_value()
            },
        }
    }

    /// Switches to integer mode; the integers become the values of the
    /// single-precision pair, cut off toward zero.
    pub fn mode_int_save_value(&mut self)
        ensures
            *final(self) == old(self).int_from_values(),
    {
        self.mode = AluMode::Int;
        self.value_a_int = float_to_int(self.value_a_float);
        self.value_b_int = float_to_int(self.value_b_float);
    }

    /// Switches to float mode; the single-precision pair becomes the values
    /// of the integers, rounded to the nearest.
    pub fn mode_float_save_value(&mut self)
        ensures
            *final(self) == old(self).float_from_values(),
    {
        self.mode = AluMode::Float;
        self.value_a_float = int_to_float(self.value_a_int);
        self.value_b_float = int_to_float(self.value_b_int);
    }

    /// Switches to integer mode, keeping the bits of the operands.
    pub fn mode_int_save_bits(&mut self)
        ensures
            *final(self) == old(self).int_from_bits(),
    {
        self.mode = AluMode::Int;
        self.value_a_int = bits_to_i32(self.value_a_float);
        self.value_b_int = bits_to_i32(self.value_b_float);
    }

    /// Switches to float mode, keeping the bits of the operands.
    pub fn mode_float_save_bits(&mut self)
        ensures
            *final(self) == old(self).float_from_bits(),
    {
        self.mode = AluMode::Float;
        self.value_a_float = i32_to_bits(self.value_a_int);
        self.value_b_float = i32_to_bits(self.value_b_int);
    }

    /// Pushes a cell, read in the current mode.
    pub fn push_value(&mut self, value: u32)
        ensures
            *final(self) == old(self).pushed(value),
    {
        match self.mode {
            AluMode::Int => self.push_int(bits_to_i32(value)),
            AluMode::Float => self.push_float(value),
        }
    }

    /// Adds the operands in the current mode.
    pub fn add(&mut self, float_sum: u32)
        ensures
            *final(self) == old(self).added(float_sum),
    {
        match self.mode {
            AluMode::Int => self.add_int(),
            AluMode::Float => self.add_float(float_sum),
        }
    }

    /// Multiplies the operands in the current mode.
    pub fn multiply(&mut self, float_product: u64)
        ensures
            *final(self) == old(self).multiplied(float_product),
    {
        match self.mode {
            AluMode::Int => self.multiply_int(),
            AluMode::Float => self.multiply_float(float_product),
        }
    }

    /// Divides the recent operand by the older one in the current mode, or
    /// fails and changes nothing.
    pub fn divide(&mut self, float_quotient: u32) -> (r: Result<(), ArithmeticFault>)
        ensures
            match old(self).divide_fault() {
                Some(fault) => r == Err::<(), ArithmeticFault>(fault) && *final(self) == *old(self),
                None => r is Ok && *final(self) == old(self).divided(float_quotient),
            },
    {
        match self.mode {
            AluMode::Int => self.divide_int(),
            AluMode::Float => {
                self.divide_float(float_quotient);
                Ok(())
            },
        }
    }

    /// Evaluates the compare mode on the operands of the current mode.
    pub fn cmp(&mut self)
        ensures
            *final(self) == old(self).compared(),
    {
        match self.mode {
            AluMode::Int => self.cmp_int(),
            AluMode::Float => self.cmp_float(),
        }
    }

    /// Replaces the recent integer by the bitwise or of both.
    pub fn bitwise_or(&mut self)
        ensures
            *final(self) == (Alu {
                value_a_int: old(self).value_a_int | old(self).value_b_int,
                ..*old(self)
            }),
    {
        self.value_a_int = self.value_a_int | self.value_b_int;
    }

    /// Replaces the recent integer by the bitwise and of both.
    pub fn bitwise_and(&mut self)
        ensures
            *final(self) == (Alu {
                value_a_int: old(self).value_a_int & old(self).value_b_int,
                ..*old(self)
            }),
    {
        self.value_a_int = self.value_a_int & self.value_b_int;
    }

    /// Shifts the recent integer left by the low five bits of the older one.
    pub fn shift_left(&mut self)
        ensures
            *final(self) == (Alu {
                value_a_int: old(self).value_a_int << (old(self).value_b_int & 31),
                ..*old(self)
            }),
    {
        let b: i32 = self.value_b_int;
        let count: i32 = b & 31;
        assert(0 <= count < 32) by (bit_vector)
            requires
                count == b & 31,
        ;
        self.value_a_int = self.value_a_int << count;
    }

    /// Shifts the recent integer right, keeping its sign, by the low five bits
    /// of the older one.
    pub fn shift_right(&mut self)
        ensures
            *final(self) == (Alu {
                value_a_int: old(self).value_a_int >> (old(self).value_b_int & 31),
                ..*old(self)
            }),
    {
        let b: i32 = self.value_b_int;
        let count: i32 = b & 31;
        assert(0 <= count < 32) by (bit_vector)
            requires
                count == b & 31,
        ;
        self.value_a_int = self.value_a_int >> count;
    }

    /// Pushes an integer.
    pub fn push_int(&mut self, value: i32)
        ensures
            *final(self) == (Alu {
                value_b_int: old(self).value_a_int,
                value_a_int: value,
                ..*old(self)
            }),
    {
        self.value_b_int = self.value_a_int;
        self.value_a_int = value;
    }

    /// Pushes the pattern of a single-precision value.
    pub fn push_float(&mut self, value: u32)
        ensures
            *final(self) == (Alu {
                value_b_float: old(self).value_a_float,
                value_a_float: value,
                ..*old(self)
            }),
    {
        self.value_b_float = self.value_a_float;
        self.value_a_float = value;
    }

    /// Integer add: the wrapped sum goes to `hi`, zero to `lo`.
    pub fn add_int(&mut self)
        ensures
            *final(self) == old(self).with_result(
                wrapped_sum(old(self).value_a_int, old(self).value_b_int),
                0,
            ),
    {
        let a: u32 = i32_to_bits(self.value_a_int);
        let b: u32 = i32_to_bits(self.value_b_int);
        self.hi = a.wrapping_add(b);
        self.lo = 0;
    }

    /// Float add: the given sum goes to `hi`, zero to `lo`.
    pub fn add_float(&mut self, sum: u32)
        ensures
            *final(self) == old(self).with_result(sum, 0),
    {
        self.hi = sum;
        self.lo = 0;
    }

    /// Integer multiply: the 64-bit product is split over `hi` and `lo`.
    pub fn multiply_int(&mut self)
        ensures
            *final(self) == old(self).with_result(
                high_word(wide_product(old(self).value_a_int, old(self).value_b_int)),
                low_word(wide_product(old(self).value_a_int, old(self).value_b_int)),
            ),
    {
        let a: i64 = self.value_a_int as i64;
        let b: i64 = self.value_b_int as i64;
        assert(-0x8000_0000 * 0x8000_0000 <= a * b <= 0x8000_0000 * 0x8000_0000)
            by (nonlinear_arith)
            requires
                -0x8000_0000 <= a < 0x8000_0000,
                -0x8000_0000 <= b < 0x8000_0000,
        ;
        let bits: u64 = i64_to_bits(a * b);
        let (hi, lo) = split_words(bits);
        self.hi = hi;
        self.lo = lo;
    }

    /// Float multiply: the given double-precision pattern is split over `hi`
    /// and `lo`.
    pub fn multiply_float(&mut self, product: u64)
        ensures
            *final(self) == old(self).with_result(high_word(product), low_word(product)),
    {
        let (hi, lo) = split_words(product);
        self.hi = hi;
        self.lo = lo;
    }

    /// Integer divide: the remainder goes to `hi`, the quotient to `lo`; on a
    /// zero divisor or a quotient that does not fit, nothing changes.
    pub fn divide_int(&mut self) -> (r: Result<(), ArithmeticFault>)
        ensures
            old(self).value_b_int == 0 ==> r == Err::<(), ArithmeticFault>(
                ArithmeticFault::DivideByZero,
            ) && *final(self) == *old(self),
            old(self).value_a_int == i32::MIN && old(self).value_b_int == -1 ==> r == Err::<
                (),
                ArithmeticFault,
            >(ArithmeticFault::IntegerOverflow) && *final(self) == *old(self),
            old(self).value_b_int != 0 && !(old(self).value_a_int == i32::MIN && old(
                self,
            ).value_b_int == -1) ==> r is Ok && *final(self) == old(self).with_result(
                unsigned_of(
                    truncated_remainder(
                        old(self).value_a_int as int,
                        old(self).value_b_int as int,
                    ) as i32,
                ),
                unsigned_of(
                    truncated_quotient(
                        old(self).value_a_int as int,
                        old(self).value_b_int as int,
                    ) as i32,
                ),
            ),
    {
        let a: i64 = self.value_a_int as i64;
        let b: i64 = self.value_b_int as i64;
        if b == 0 {
            return Err(ArithmeticFault::DivideByZero);
        }
        if a == -0x8000_0000 && b == -1 {
            return Err(ArithmeticFault::IntegerOverflow);
        }
        let ma: i64 = if a < 0 { 0 - a } else { a };
        let mb: i64 = if b < 0 { 0 - b } else { b };
        let mq: i64 = ma / mb;
        let mr: i64 = ma % mb;
        assert(0 <= mq <= ma && 0 <= mr < mb) by (nonlinear_arith)
            requires
                0 <= ma,
                0 < mb,
                mq == ma / mb,
                mr == ma % mb,
        ;
        let q: i64 = if (a < 0) == (b < 0) { mq } else { 0 - mq };
        let r: i64 = if a < 0 { 0 - mr } else { mr };
        assert(q == truncated_quotient(a as int, b as int));
        assert(r == truncated_remainder(a as int, b as int));
        self.lo = i32_to_bits(q as i32);
        self.hi = i32_to_bits(r as i32);
        Ok(())
    }

    /// Float divide: zero goes to `hi`, the given quotient to `lo`.
    pub fn divide_float(&mut self, quotient: u32)
        ensures
            *final(self) == old(self).with_result(0, quotient),
    {
        self.lo = quotient;
        self.hi = 0;
    }

    /// Evaluates the compare mode on the integers.
    pub fn cmp_int(&mut self)
        ensures
            *final(self) == old(self).compared_ints(),
    {
        self.compare_result = compare_ints(self.compare_mode, self.value_b_int, self.value_a_int);
    }

    /// Evaluates the compare mode on the single-precision pair.
    pub fn cmp_float(&mut self)
        ensures
            *final(self) == old(self).compared_floats(),
    {
        self.compare_result = compare_floats(
            self.compare_mode,
            self.value_b_float,
            self.value_a_float,
        );
    }
}

/// Switching to float mode and back by bit patterns restores the integers;
/// switching to integer mode and back restores the single-precision pair.
pub proof fn lemma_mode_switch_roundtrip(alu: Alu)
    ensures
        alu.float_from_bits().int_from_bits().value_a_int == alu.value_a_int,
        alu.float_from_bits().int_from_bits().value_b_int == alu.value_b_int,
        alu.int_from_bits().float_from_bits().value_a_float == alu.value_a_float,
        alu.int_from_bits().float_from_bits().value_b_float == alu.value_b_float,
        alu.mode == AluMode::Int ==> alu.float_from_bits().int_from_bits() == (Alu {
            value_a_float: unsigned_of(alu.value_a_int),
            value_b_float: unsigned_of(alu.value_b_int),
            ..alu
        }),
        alu.mode == AluMode::Float ==> alu.int_from_bits().float_from_bits() == (Alu {
            value_a_int: signed_of(alu.value_a_float),
            value_b_int: signed_of(alu.value_b_float),
            ..alu
        }),
{
}

} // verus!
