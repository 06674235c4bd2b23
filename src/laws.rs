//! Properties that relate the library's functions to each other, proved over
//! the spec functions that their contracts use.
use crate::bus::Bus;
use crate::cpu::{
    adc_carry, adc_overflow, adc_result, add8, pop_one, push_one, rol_value, ror_value, word, Cpu,
};
use crate::cpu_flags::{has_flag, lemma_with_flag, with_zero_negative, NEGATIVE, ZERO};
use vstd::prelude::*;

verus! {

/// Whether a byte is negative as a two's complement number.
pub open spec fn sign(x: u8) -> bool {
    x >= 0x80
}

/// ADC adds modulo 256; Carry tells whether the true sum exceeds 255, and
/// Overflow whether both operands have one sign and the result the other.
pub proof fn adc_law(a: u8, m: u8, c: bool)
    ensures
        ({
            let r = adc_result(a, m, c);
            let s = a as int + m as int + if c { 1int } else { 0int };
            &&& r as int == s % 256
            &&& adc_carry(a, m, c) == (s > 255)
            &&& adc_overflow(a, m, r) == (sign(a) == sign(m) && sign(a) != sign(r))
        }),
{
    let r = adc_result(a, m, c);
    assert(((a ^ r) & (m ^ r) & 0x80 != 0) == ((a >= 0x80) == (m >= 0x80) && (a >= 0x80) != (r >= 0x80)))
        by (bit_vector);
}

/// ROL undoes ROR: rotating right and then left through the carry gives
/// back the value and the carry.
pub proof fn rotate_round_trip(v: u8, c: bool)
    ensures
        ({
            let (w, c1) = ror_value(v, c);
            rol_value(w, c1) == (v, c)
        }),
{
    let (w, c1) = ror_value(v, c);
    if c {
        assert(w == (v >> 1u8) | 0x80u8);
        assert(((v >> 1u8) | 0x80u8) & 0x80 != 0) by (bit_vector);
    } else {
        assert(w == (v >> 1u8) | 0u8);
        assert(((v >> 1u8) | 0u8) & 0x80 == 0) by (bit_vector);
    }
    if c1 {
        assert(v & 0x01 != 0);
        assert(v & 0x01 != 0 ==> (((v >> 1u8) | 0x80u8) << 1u8) | 0x01u8 == v) by (bit_vector);
        assert(v & 0x01 != 0 ==> (((v >> 1u8) | 0u8) << 1u8) | 0x01u8 == v) by (bit_vector);
    } else {
        assert(v & 0x01 == 0);
        assert(v & 0x01 == 0 ==> (((v >> 1u8) | 0x80u8) << 1u8) | 0u8 == v) by (bit_vector);
        assert(v & 0x01 == 0 ==> (((v >> 1u8) | 0u8) << 1u8) | 0u8 == v) by (bit_vector);
    }
}

/// CPU RAM is mirrored: the 2 KiB at 0x0000 read the same at 0x0800, 0x1000
/// and 0x1800, whatever was written before.
pub proof fn ram_mirroring(bus: Bus, a: u16)
    requires
        bus.wf(),
        a < 0x0800,
    ensures
        bus.read_spec(a) == bus.read_spec((a + 0x0800) as u16),
        bus.read_spec(a) == bus.read_spec((a + 0x1000) as u16),
        bus.read_spec(a) == bus.read_spec((a + 0x1800) as u16),
{
}

/// JMP (indirect) does not carry into the next page: through a pointer whose
/// low byte is 0xFF, the high byte of the target comes from the start of the
/// pointer's own page (for 0x02FF: from 0x0200, not 0x0300).
pub proof fn indirect_jump_page_wrap(cpu: Cpu, o: u16)
    requires
        cpu.read16(o) % 0x100 == 0xFF,
    ensures
        cpu.indirect_target(o) == word(
            cpu.read(cpu.read16(o)),
            cpu.read((cpu.read16(o) - 0xFF) as u16),
        ),
{
}

/// Every instruction that produces a result leaves Zero set exactly when the
/// result is 0 and Negative equal to its bit 7.
pub proof fn zero_negative_law(status: u8, value: u8)
    ensures
        has_flag(with_zero_negative(status, value), ZERO) == (value == 0),
        has_flag(with_zero_negative(status, value), NEGATIVE) == (value & 0x80 != 0),
{
    let s1 = crate::cpu_flags::with_flag(status, ZERO, value == 0);
    lemma_with_flag(status, ZERO, NEGATIVE, value == 0);
    lemma_with_flag(s1, NEGATIVE, ZERO, value >= 0x80);
    assert((value >= 0x80) == (value & 0x80 != 0)) by (bit_vector);
}

/// Stack pointer and CPU RAM after pushing `bytes`, first byte first.
pub open spec fn push_bytes(sp: u8, ram: Seq<u8>, bytes: Seq<u8>) -> (u8, Seq<u8>)
    decreases bytes.len(),
{
    if bytes.len() == 0 {
        (sp, ram)
    } else {
        let (sp1, ram1) = push_bytes(sp, ram, bytes.drop_last());
        push_one(sp1, ram1, bytes.last())
    }
}

/// Stack pointer after `n` pulls, and the bytes pulled in order.
pub open spec fn pop_bytes(sp: u8, ram: Seq<u8>, n: nat) -> (u8, Seq<u8>)
    decreases n,
{
    if n == 0 {
        (sp, Seq::empty())
    } else {
        let (sp1, out) = pop_bytes(sp, ram, (n - 1) as nat);
        let (sp2, b) = pop_one(sp1, ram);
        (sp2, out.push(b))
    }
}

proof fn lemma_push_bytes(sp: u8, ram: Seq<u8>, bytes: Seq<u8>)
    requires
        ram.len() == 2048,
        bytes.len() <= 256,
    ensures
        ({
            let (sp2, ram2) = push_bytes(sp, ram, bytes);
            &&& ram2.len() == 2048
            &&& sp2 == add8(sp, -bytes.len())
            &&& forall|i: int| 0 <= i < bytes.len() ==> #[trigger] bytes[i] == ram2[0x100 + add8(sp, -i)]
        }),
    decreases bytes.len(),
{
    if bytes.len() > 0 {
        let k = bytes.len() as int;
        let prefix = bytes.drop_last();
        lemma_push_bytes(sp, ram, prefix);
        let (sp1, ram1) = push_bytes(sp, ram, prefix);
        let (sp2, ram2) = push_bytes(sp, ram, bytes);
        assert(sp1 == add8(sp, -(k - 1)));
        assert(ram2 == ram1.update(0x100 + sp1 as int, bytes.last()));
        assert forall|i: int| 0 <= i < k implies #[trigger] bytes[i] == ram2[0x100 + add8(sp, -i)] by {
            if i < k - 1 {
                assert(prefix[i] == bytes[i]);
                assert(add8(sp, -i) != add8(sp, -(k - 1)));
            }
        }
    }
}

proof fn lemma_pop_bytes(sp: u8, ram: Seq<u8>, n: nat)
    requires
        ram.len() == 2048,
    ensures
        ({
            let (sp3, out) = pop_bytes(sp, ram, n);
            &&& sp3 == add8(sp, n as int)
            &&& out.len() == n
            &&& forall|t: int| 0 <= t < n ==> #[trigger] out[t] == ram[0x100 + add8(sp, t + 1)]
        }),
    decreases n,
{
    if n > 0 {
        lemma_pop_bytes(sp, ram, (n - 1) as nat);
        let (sp1, out1) = pop_bytes(sp, ram, (n - 1) as nat);
        assert(add8(sp1, 1) == add8(sp, n as int));
    }
}

/// The stack pointer wraps within page 1: pushing 256 bytes and pulling 256
/// gives back the stack pointer it started from and the bytes in reverse
/// order.
pub proof fn stack_wrap_round_trip(sp: u8, ram: Seq<u8>, bytes: Seq<u8>)
    requires
        ram.len() == 2048,
        bytes.len() == 256,
    ensures
        ({
            let (sp2, ram2) = push_bytes(sp, ram, bytes);
            let (sp3, out) = pop_bytes(sp2, ram2, 256);
            &&& sp3 == sp
            &&& out == bytes.reverse()
        }),
{
    lemma_push_bytes(sp, ram, bytes);
    let (sp2, ram2) = push_bytes(sp, ram, bytes);
    lemma_pop_bytes(sp2, ram2, 256);
    let (sp3, out) = pop_bytes(sp2, ram2, 256);
    assert(sp2 == sp);
    assert forall|t: int| 0 <= t < 256 implies #[trigger] out[t] == bytes.reverse()[t] by {
        assert(add8(sp2, t + 1) == add8(sp, -(255 - t)));
        assert(bytes[255 - t] == ram2[0x100 + add8(sp, -(255 - t))]);
    }
    assert(out =~= bytes.reverse());
}

proof fn lemma_pushes_reach(states: Seq<Cpu>, bytes: Seq<u8>, i: int)
    requires
        states.len() == 513,
        bytes.len() == 256,
        0 <= i <= 256,
        forall|k: int|
            0 <= k < 256 ==> (states[k + 1].stack_pointer, states[k + 1].bus.cpu_ram@) == push_one(
                states[k].stack_pointer,
                states[k].bus.cpu_ram@,
                #[trigger] bytes[k],
            ),
    ensures
        (states[i].stack_pointer, states[i].bus.cpu_ram@)
            == push_bytes(states[0].stack_pointer, states[0].bus.cpu_ram@, bytes.take(i)),
    decreases i,
{
    if i > 0 {
        lemma_pushes_reach(states, bytes, i - 1);
        assert(bytes.take(i).drop_last() =~= bytes.take(i - 1));
        assert(bytes.take(i).last() == bytes[i - 1]);
    }
}

proof fn lemma_pulls_reach(states: Seq<Cpu>, pulled: Seq<u8>, j: int)
    requires
        states.len() == 513,
        pulled.len() == 256,
        0 <= j <= 256,
        forall|k: int|
            0 <= k < 256 ==> {
                &&& (states[257 + k].stack_pointer, #[trigger] pulled[k]) == pop_one(
                    states[256 + k].stack_pointer,
                    states[256 + k].bus.cpu_ram@,
                )
                &&& states[257 + k].bus.cpu_ram@ == states[256 + k].bus.cpu_ram@
            },
    ensures
        states[256 + j].bus.cpu_ram@ == states[256].bus.cpu_ram@,
        pop_bytes(states[256].stack_pointer, states[256].bus.cpu_ram@, j as nat)
            == (states[256 + j].stack_pointer, pulled.take(j)),
    decreases j,
{
    if j > 0 {
        lemma_pulls_reach(states, pulled, j - 1);
        assert(pulled.take(j - 1).push(pulled[j - 1]) =~= pulled.take(j));
    }
}

/// The stack round trip over processor states: where each of the first 256
/// changes of state is a push (as `stack_push` states it) of the matching
/// byte, and each of the next 256 a pull (as `stack_pop` states it), the
/// stack pointer ends where it began and the pulls give the bytes in
/// reverse order.
pub proof fn stack_wrap_states(states: Seq<Cpu>, bytes: Seq<u8>, pulled: Seq<u8>)
    requires
        states.len() == 513,
        bytes.len() == 256,
        pulled.len() == 256,
        states[0].bus.cpu_ram@.len() == 2048,
        forall|k: int|
            0 <= k < 256 ==> (states[k + 1].stack_pointer, states[k + 1].bus.cpu_ram@) == push_one(
                states[k].stack_pointer,
                states[k].bus.cpu_ram@,
                #[trigger] bytes[k],
            ),
        forall|k: int|
            0 <= k < 256 ==> {
                &&& (states[257 + k].stack_pointer, #[trigger] pulled[k]) == pop_one(
                    states[256 + k].stack_pointer,
                    states[256 + k].bus.cpu_ram@,
                )
                &&& states[257 + k].bus.cpu_ram@ == states[256 + k].bus.cpu_ram@
            },
    ensures
        states[512].stack_pointer == states[0].stack_pointer,
        forall|k: int| 0 <= k < 256 ==> #[trigger] pulled[k] == bytes[255 - k],
{
    lemma_pushes_reach(states, bytes, 256);
    assert(bytes.take(256) =~= bytes);
    lemma_pulls_reach(states, pulled, 256);
    assert(pulled.take(256) =~= pulled);
    stack_wrap_round_trip(states[0].stack_pointer, states[0].bus.cpu_ram@, bytes);
    assert forall|k: int| 0 <= k < 256 implies #[trigger] pulled[k] == bytes[255 - k] by {
        assert(bytes.reverse()[k] == bytes[255 - k]);
    }
}

} // verus!
