//! The flags of an addition, stated by the rules of two's-complement
//! arithmetic.

use crate::bits::{signed, wrap8};
use crate::cpu::flags::CPUFlags;
use crate::cpu::model::{carry_out, signed_overflow, CpuState};
use crate::bits::lemma_with_bits;
use vstd::prelude::*;

verus! {

/// An addition overflows as a signed one exactly where both operands have
/// one sign and the byte that is kept has the other.
pub proof fn lemma_signed_overflow(a: u8, m: u8, carry: int)
    requires
        carry == 0 || carry == 1,
    ensures
        signed_overflow(a, m, carry) == ((a >= 128) == (m >= 128) && (wrap8(a + m + carry) >= 128)
            != (a >= 128)),
{
}

/// The flags of ADC follow the rules of two's-complement arithmetic.
///
/// For every accumulator, operand and carry, the addition leaves the low
/// eight bits of the sum in the accumulator. It sets the carry exactly where
/// the sum of the three, as unsigned numbers, is above 255, and the overflow
/// flag exactly where the sum of the three, accumulator and operand as
/// signed numbers, is below -128 or above 127.
pub proof fn law_adc_flags(s: CpuState, m: u8)
    ensures
        s.add_to_a(m).register_a == (s.register_a + m + s.status.carry()) % 256,
        s.add_to_a(m).status.has(CPUFlags::CARRY) <==> s.register_a + m + s.status.carry() > 255,
        s.add_to_a(m).status.has(CPUFlags::OVERFLOW) <==> {
            let sum = signed(s.register_a) + signed(m) + s.status.carry();
            sum < -128 || sum > 127
        },
{
    let c = s.status.carry();
    let s1 = s.status.with(CPUFlags::CARRY, carry_out(s.register_a, m, c));
    let s2 = s1.with(CPUFlags::OVERFLOW, signed_overflow(s.register_a, m, c));
    let r = wrap8(s.register_a + m + c);
    let s3 = s2.with(CPUFlags::ZERO, r == 0);
    let s4 = s3.with(CPUFlags::NEGATIVE, r >= 128);
    assert(s.add_to_a(m).status == s4);
    lemma_with_bits(s.status.bits, CPUFlags::CARRY, CPUFlags::OVERFLOW);
    lemma_with_bits(s1.bits, CPUFlags::OVERFLOW, CPUFlags::CARRY);
    lemma_with_bits(s2.bits, CPUFlags::ZERO, CPUFlags::CARRY);
    lemma_with_bits(s2.bits, CPUFlags::ZERO, CPUFlags::OVERFLOW);
    lemma_with_bits(s3.bits, CPUFlags::NEGATIVE, CPUFlags::CARRY);
    lemma_with_bits(s3.bits, CPUFlags::NEGATIVE, CPUFlags::OVERFLOW);
}

} // verus!
