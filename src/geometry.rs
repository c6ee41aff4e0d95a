use vstd::prelude::*;

verus! {

/// Program page buffer: one program operation stays within one page.
pub const MEMORY_PAGE_SIZE: usize = 256;

/// Smallest erase unit.
pub const MEMORY_SECTOR_SIZE: usize = 4 * 1024;

/// Large erase unit.
pub const MEMORY_BLOCK_SIZE: usize = 64 * 1024;

/// Capacity of the chip: 256 megabits.
pub const MEMORY_FLASH_SIZE: usize = 32 * 1024 * 1024;

/// Bytes from `addr` up to the end of its page, capped at `left`.
pub open spec fn spec_chunk_len(addr: nat, left: nat) -> nat {
    let room = (256 - addr % 256) as nat;
    if room < left {
        room
    } else {
        left
    }
}

/// The page-bounded pieces, as (address, length) pairs, into which a program
/// of `n` bytes starting at `addr` is cut.
pub open spec fn spec_page_chunks(addr: nat, n: nat) -> Seq<(nat, nat)>
    decreases n,
{
    if n == 0 {
        seq![]
    } else {
        let c = spec_chunk_len(addr, n);
        seq![(addr, c)] + spec_page_chunks(addr + c, (n - c) as nat)
    }
}

/// Sum of the lengths of a sequence of (address, length) pieces.
pub open spec fn chunk_total(s: Seq<(nat, nat)>) -> nat
    decreases s.len(),
{
    if s.len() == 0 {
        0
    } else {
        s[0].1 + chunk_total(s.drop_first())
    }
}

/// The (address, length) pieces held in a vector, as naturals.
pub open spec fn chunks_view(v: Seq<(u32, usize)>) -> Seq<(nat, nat)> {
    v.map_values(|c: (u32, usize)| (c.0 as nat, c.1 as nat))
}

/// Length of the next program piece: up to the page end, at most `left`.
pub fn chunk_len(addr: u32, left: usize) -> (n: usize)
    ensures
        n == spec_chunk_len(addr as nat, left as nat),
{
    let room: usize = MEMORY_PAGE_SIZE - (addr % 256) as usize;
    if room < left {
        room
    } else {
        left
    }
}

/// Splitting a program of `n` bytes at `addr` into page pieces gives pieces
/// of 1 to 256 bytes, none crossing a multiple of 256, whose lengths add up
/// to `n`, the first at `addr` and each starting where the one before ends.
pub proof fn lemma_page_split(addr: nat, n: nat)
    ensures
        forall|i: int|
            0 <= i < spec_page_chunks(addr, n).len() ==> 0 < #[trigger] spec_page_chunks(
                addr,
                n,
            )[i].1 <= 256,
        forall|i: int|
            0 <= i < spec_page_chunks(addr, n).len() ==> (#[trigger] spec_page_chunks(addr, n)[i]).0
                / 256 == ((spec_page_chunks(addr, n)[i].0 + spec_page_chunks(addr, n)[i].1 - 1)
                as nat) / 256,
        chunk_total(spec_page_chunks(addr, n)) == n,
        n > 0 ==> spec_page_chunks(addr, n)[0].0 == addr,
        forall|i: int|
            0 <= i < spec_page_chunks(addr, n).len() - 1 ==> (#[trigger] spec_page_chunks(
                addr,
                n,
            )[i + 1]).0 == spec_page_chunks(addr, n)[i].0 + spec_page_chunks(addr, n)[i].1,
    decreases n,
{
    if n > 0 {
        let c = spec_chunk_len(addr, n);
        let rest = spec_page_chunks(addr + c, (n - c) as nat);
        let s = spec_page_chunks(addr, n);
        lemma_page_split(addr + c, (n - c) as nat);
        assert(s =~= seq![(addr, c)] + rest);
        assert(s.drop_first() =~= rest);
        assert(addr % 256 + c <= 256 && c >= 1);
        assert(addr / 256 == ((addr + c - 1) as nat) / 256) by (nonlinear_arith)
            requires
                addr % 256 + c <= 256,
                c >= 1,
        ;
        assert forall|i: int| 0 <= i < s.len() - 1 implies (#[trigger] s[i + 1]).0 == s[i].0
            + s[i].1 by {
            if i > 0 {
                assert(s[i] == rest[i - 1]);
                assert(s[i + 1] == rest[i]);
            } else if rest.len() > 0 {
                assert(s[1] == rest[0]);
            }
        }
        assert forall|i: int| 0 <= i < s.len() implies 0 < (#[trigger] s[i]).1 <= 256 by {
            if i > 0 {
                assert(s[i] == rest[i - 1]);
            }
        }
        assert forall|i: int| 0 <= i < s.len() implies (#[trigger] s[i]).0 / 256 == ((s[i].0
            + s[i].1 - 1) as nat) / 256 by {
            if i > 0 {
                assert(s[i] == rest[i - 1]);
            }
        }
    }
}

/// The page-bounded pieces of a program of `len` bytes at `addr`, in
/// increasing address order.
pub fn page_chunks(addr: u32, len: usize) -> (r: Vec<(u32, usize)>)
    requires
        addr as nat + len as nat <= 0x1_0000_0000,
    ensures
        chunks_view(r@) == spec_page_chunks(addr as nat, len as nat),
{
    let mut r: Vec<(u32, usize)> = Vec::new();
    let mut place: u32 = addr;
    let mut left: usize = len;
    while left > 0
        invariant
            left > 0 ==> place as nat + left as nat == addr as nat + len as nat,
            addr as nat + len as nat <= 0x1_0000_0000,
            chunks_view(r@) + spec_page_chunks(place as nat, left as nat) == spec_page_chunks(
                addr as nat,
                len as nat,
            ),
        decreases left,
    {
        let n = chunk_len(place, left);
        assert(n >= 1);
        proof {
            let s = spec_page_chunks(place as nat, left as nat);
            assert(s =~= seq![(place as nat, n as nat)] + spec_page_chunks(
                (place + n) as nat,
                (left - n) as nat,
            ));
        }
        let ghost before = r@;
        r.push((place, n));
        assert(chunks_view(r@) =~= chunks_view(before).push((place as nat, n as nat)));
        assert(chunks_view(r@) + spec_page_chunks((place + n) as nat, (left - n) as nat)
            =~= chunks_view(before) + spec_page_chunks(place as nat, left as nat));
        left = left - n;
        if left > 0 {
            place = place + n as u32;
        }
    }
    assert(spec_page_chunks(place as nat, 0) =~= seq![]);
    assert(chunks_view(r@) =~= chunks_view(r@) + seq![]);
    r
}

} // verus!
