use vstd::prelude::*;
use crate::device::{spec_read_cr2, spec_register_write, spec_write_cr2_spi_plan};
use crate::plan::Op;
use crate::transfer::{spec_legacy_addressed, Transfer, Width};

verus! {

/// Whether `t` writes configuration register 2: in SPI encoding (one wire,
/// opcode 0x72) or in Octal-DTR encoding (eight wires, opcode 0x728D).
pub open spec fn writes_cr2(t: Transfer) -> bool {
    ||| t.iwidth == Width::Single && t.instruction == Some(0x72u32)
    ||| t.iwidth == Width::Octal && t.instruction == Some(0x728Du32)
}

/// Whether `t` reads configuration register 2, in either encoding.
pub open spec fn reads_cr2(t: Transfer) -> bool {
    ||| t.iwidth == Width::Single && t.instruction == Some(0x71u32)
    ||| t.iwidth == Width::Octal && t.instruction == Some(0x718Eu32)
}

/// Effect of one bus operation on the chip's configuration register 2
/// space: a register write stores its first data byte at its address (the
/// padding byte of a double-rate write is not stored); all else leaves it.
pub open spec fn cr2_effect(regs: Map<u32, u8>, op: Op) -> Map<u32, u8> {
    match op {
        Op::Write(t, d) => if writes_cr2(t) && d.len() > 0 && t.address is Some {
            regs.insert(t.address->Some_0, d[0])
        } else {
            regs
        },
        _ => regs,
    }
}

/// Configuration register 2 space after a plan runs.
pub open spec fn cr2_apply(regs: Map<u32, u8>, plan: Seq<Op>) -> Map<u32, u8>
    decreases plan.len(),
{
    if plan.len() == 0 {
        regs
    } else {
        cr2_apply(cr2_effect(regs, plan[0]), plan.drop_first())
    }
}

/// The first byte the chip sends back for a register read `op`: the
/// register at the read's address.
pub open spec fn cr2_first_reply(regs: Map<u32, u8>, op: Op) -> Option<u8> {
    match op {
        Op::Read(t, n) => if reads_cr2(t) && n > 0 && t.address is Some && regs.contains_key(
            t.address->Some_0,
        ) {
            Some(regs[t.address->Some_0])
        } else {
            None
        },
        _ => None,
    }
}

/// Writing configuration register 2 at `address` and then reading it back,
/// in the same mode, returns the value written: in Octal-DTR mode, where
/// both transfers are padded to two bytes, and in SPI mode.
pub proof fn lemma_cr2_round_trip(regs: Map<u32, u8>, address: u32, value: u8)
    ensures
        cr2_first_reply(
            cr2_apply(regs, spec_register_write(0x728D, address, value, 0)),
            Op::Read(spec_read_cr2(address), 2),
        ) == Some(value),
        cr2_first_reply(
            cr2_apply(regs, spec_write_cr2_spi_plan(address, value)),
            Op::Read(spec_legacy_addressed(0x71, address), 1),
        ) == Some(value),
{
    let w = spec_register_write(0x728D, address, value, 0);
    let r1 = cr2_effect(regs, w[0]);
    let r2 = cr2_effect(r1, w[1]);
    assert(w.drop_first().drop_first().drop_first() =~= Seq::<Op>::empty());
    assert(cr2_apply(r2, w.drop_first().drop_first()) == cr2_apply(
        cr2_effect(r2, w[2]),
        w.drop_first().drop_first().drop_first(),
    ));
    assert(cr2_apply(regs, w) == r2.insert(address, value)) by {
        assert(r1 == regs);
        assert(r2 == regs.insert(address, value));
        assert(cr2_apply(r1, w.drop_first()) == cr2_apply(r2, w.drop_first().drop_first()));
    }

    let s = spec_write_cr2_spi_plan(address, value);
    let s1 = cr2_effect(regs, s[0]);
    assert(s.drop_first().drop_first() =~= Seq::<Op>::empty());
    assert(cr2_apply(s1, s.drop_first()) == cr2_apply(
        cr2_effect(s1, s[1]),
        s.drop_first().drop_first(),
    ));
    assert(cr2_apply(regs, s) == s1);
    assert(s1 == regs.insert(address, value));
}

} // verus!
