//! Typed record arrays and the reference-pointer table.
use vstd::prelude::*;
use crate::cursor::{u32_of, in_bounds, read_u32};
use crate::error::EdbError;
use crate::header::{ArrayPointer, Header};

verus! {

/// Bytes per reference-pointer record: one absolute address.
pub const REFPOINTER_SIZE: usize = 4;

/// Whether `p.count` records of `size` bytes at `p.address` end inside `n` bytes.
pub open spec fn array_fits(n: int, p: ArrayPointer, size: int) -> bool {
    p.address as int + p.count as int * size <= n
}

/// Offset of record `i` of the array.
pub open spec fn record_offset(p: ArrayPointer, size: int, i: int) -> int {
    p.address as int + i * size
}

/// Checks that the whole array lies in a buffer of `file_len` bytes and returns
/// the offset of each record, in order. No record reaches past
/// `p.address + p.count * record_size`; when that end passes `file_len` the
/// result is `InvalidReference` and no offset is handed out.
pub fn read_array(file_len: usize, p: ArrayPointer, record_size: usize) -> (r: Result<Vec<usize>, EdbError>)
    requires
        record_size > 0,
    ensures
        r is Err <==> !array_fits(file_len as int, p, record_size as int),
        r is Err ==> r == Err::<Vec<usize>, EdbError>(EdbError::InvalidReference),
        r matches Ok(v) ==> {
            &&& v@.len() == p.count
            &&& forall|i: int| 0 <= i < v@.len() ==> #[trigger] v@[i] == record_offset(p, record_size as int, i)
            &&& forall|i: int| 0 <= i < v@.len() ==>
                p.address <= #[trigger] v@[i] && v@[i] + record_size
                    <= p.address as int + p.count as int * record_size
        },
{
    let addr = p.address as usize;
    if addr > file_len {
        return Err(EdbError::InvalidReference);
    }
    let room = file_len - addr;
    if p.count as usize > room / record_size {
        proof {
            assert((room as int / record_size as int) * record_size + room as int % record_size as int == room as int) by (nonlinear_arith)
                requires record_size > 0;
            assert(p.count as int * record_size >= (room as int / record_size as int + 1) * record_size) by (nonlinear_arith)
                requires p.count as int >= room as int / record_size as int + 1, record_size > 0;
            assert((room as int % record_size as int) < record_size);
            assert((room as int / record_size as int + 1) * record_size
                == (room as int / record_size as int) * record_size + record_size) by (nonlinear_arith);
        }
        return Err(EdbError::InvalidReference);
    }
    proof {
        assert(p.count as int * record_size <= (room as int / record_size as int) * record_size) by (nonlinear_arith)
            requires p.count as int <= room as int / record_size as int, record_size > 0;
        assert((room as int / record_size as int) * record_size <= room) by (nonlinear_arith)
            requires record_size > 0, room >= 0;
    }
    let mut v: Vec<usize> = Vec::new();
    let mut i: u32 = 0;
    let mut at: usize = addr;
    while i < p.count
        invariant
            record_size > 0,
            addr == p.address,
            addr as int + p.count as int * record_size <= file_len,
            i <= p.count,
            at == record_offset(p, record_size as int, i as int),
            v@.len() == i,
            forall|j: int| 0 <= j < i ==> #[trigger] v@[j] == record_offset(p, record_size as int, j),
        decreases p.count - i,
    {
        proof {
            assert(i as int * record_size + record_size <= p.count as int * record_size) by (nonlinear_arith)
                requires i < p.count, record_size > 0;
        }
        v.push(at);
        proof {
            assert((i as int + 1) * record_size == i as int * record_size + record_size) by (nonlinear_arith);
        }
        at = at + record_size;
        i = i + 1;
    }
    proof {
        assert forall|j: int| 0 <= j < v@.len() implies
            p.address <= #[trigger] v@[j] && v@[j] + record_size
                <= p.address as int + p.count as int * record_size by {
            assert(0 <= j * record_size && j * record_size + record_size <= p.count as int * record_size) by (nonlinear_arith)
                requires 0 <= j < p.count, record_size > 0;
        }
    }
    Ok(v)
}

/// Address stored in reference slot `index`, or why there is none: the index lies
/// past the table, the table past the buffer, or the address past the buffer.
pub open spec fn resolve_spec(b: Seq<u8>, h: Header, index: int) -> Result<u32, EdbError> {
    let at = h.refpointer_list.address as int + index * REFPOINTER_SIZE as int;
    if index < 0 || index >= h.refpointer_list.count || !in_bounds(b.len() as int, at, 4) {
        Err(EdbError::InvalidReference)
    } else if u32_of(b, at, h.endian) >= b.len() {
        Err(EdbError::InvalidReference)
    } else {
        Ok(u32_of(b, at, h.endian))
    }
}

/// Turns an index into the reference-pointer table into an absolute offset.
pub fn resolve(b: &[u8], h: &Header, index: u32) -> (r: Result<u32, EdbError>)
    ensures
        r == resolve_spec(b@, *h, index as int),
{
    if index >= h.refpointer_list.count {
        return Err(EdbError::InvalidReference);
    }
    let base = h.refpointer_list.address as usize;
    if base > b.len() || (b.len() - base) / REFPOINTER_SIZE <= index as usize {
        proof {
            if base <= b.len() {
                let room = b.len() - base;
                assert(room < (index as int + 1) * 4) by (nonlinear_arith)
                    requires room / 4 <= index as int, room >= 0;
            }
        }
        return Err(EdbError::InvalidReference);
    }
    proof {
        let room = b.len() - base;
        assert((index as int + 1) * 4 <= room) by (nonlinear_arith)
            requires room / 4 > index as int, room >= 0;
    }
    let at = base + index as usize * REFPOINTER_SIZE;
    let addr = read_u32(b, at, h.endian).unwrap();
    if addr as usize >= b.len() {
        return Err(EdbError::InvalidReference);
    }
    Ok(addr)
}

/// Every index below the table's count resolves to an offset inside the buffer, or
/// the table itself lies outside it; every other index fails with `InvalidReference`.
pub proof fn lemma_resolve_bounds(b: Seq<u8>, h: Header, index: int)
    ensures
        resolve_spec(b, h, index) matches Ok(a) ==> 0 <= index < h.refpointer_list.count && a < b.len(),
        !(0 <= index < h.refpointer_list.count) ==> resolve_spec(b, h, index) == Err::<u32, EdbError>(EdbError::InvalidReference),
        resolve_spec(b, h, index) is Err ==> resolve_spec(b, h, index) == Err::<u32, EdbError>(EdbError::InvalidReference),
{
}

} // verus!
