//! The bone-name table: zero-terminated names at listed offsets, placed into
//! their final slots by a parallel permutation array.
use vstd::prelude::*;
use crate::bytes::{u32_le, text_at, read_u32_le, read_string_to_null};

verus! {

/// Why a bone-name table could not be read.
#[derive(Debug, Clone, Copy, PartialEq, Eq, Structural)]
pub enum NameTableError {
    /// A header field or a table runs past the end of the blob.
    Truncated,
    /// A name has no terminator, or is not UTF-8.
    BadText,
    /// A slot number is not below the name count.
    SlotOutOfRange,
    /// Two names claim the same slot: the slots are not a permutation.
    DuplicateSlot,
}

/// The characters of each string.
pub open spec fn texts(v: Seq<String>) -> Seq<Seq<char>> {
    v.map_values(|x: String| x@)
}

/// Number of names.
pub open spec fn name_count(s: Seq<u8>) -> int {
    u32_le(s, 0x10)
}

/// Where the slot array starts.
pub open spec fn slot_ptr(s: Seq<u8>) -> int {
    u32_le(s, 0x18)
}

/// Where name `i` starts.
pub open spec fn name_start(s: Seq<u8>, i: int) -> int {
    u32_le(s, 0x20 + 4 * i)
}

/// The slot that name `i` goes to.
pub open spec fn name_slot(s: Seq<u8>, i: int) -> int {
    u32_le(s, slot_ptr(s) + 4 * i)
}

/// Name `i` of the table.
pub open spec fn name_text(s: Seq<u8>, i: int) -> Seq<char> {
    text_at(s, name_start(s, i)).unwrap().0
}

/// What slot `j` holds once the first `k` names are placed: the last of them
/// aimed at `j`, or the empty name where none is.
pub open spec fn slot_after(s: Seq<u8>, k: nat, j: int) -> Seq<char>
    decreases k,
{
    if k == 0 {
        Seq::empty()
    } else if name_slot(s, k - 1) == j {
        name_text(s, k - 1)
    } else {
        slot_after(s, (k - 1) as nat, j)
    }
}

/// The names of a table blob, in slot order, or the first defect met. The
/// slots must be a permutation of `0..count`, so each slot receives exactly
/// one name.
pub open spec fn bone_names(s: Seq<u8>) -> Result<Seq<Seq<char>>, NameTableError> {
    let n = name_count(s);
    if s.len() < 0x1C {
        Err(NameTableError::Truncated)
    } else if n > 0 && 0x20 + 4 * n > s.len() {
        Err(NameTableError::Truncated)
    } else if exists|i: int| 0 <= i < n && text_at(s, name_start(s, i)) is None {
        Err(NameTableError::BadText)
    } else if n > 0 && slot_ptr(s) + 4 * n > s.len() {
        Err(NameTableError::Truncated)
    } else if exists|i: int| 0 <= i < n && name_slot(s, i) >= n {
        Err(NameTableError::SlotOutOfRange)
    } else if exists|i: int, k: int| 0 <= i < k < n && name_slot(s, i) == name_slot(s, k) {
        Err(NameTableError::DuplicateSlot)
    } else {
        Ok(Seq::new(n as nat, |j: int| slot_after(s, n as nat, j)))
    }
}

/// Reads `n` little-endian words starting at `start`.
fn read_words(s: &[u8], start: usize, n: u32) -> (r: Option<Vec<u32>>)
    ensures
        r is Some <==> (n == 0 || start + 4 * n <= s@.len()),
        r is Some ==> r.unwrap()@.len() == n && forall|i: int|
            0 <= i < n ==> r.unwrap()@[i] == u32_le(s@, start + 4 * i),
{
    let mut pos = start;
    let mut v: Vec<u32> = Vec::new();
    let mut i: u32 = 0;
    while i < n
        invariant
            i <= n,
            pos == start + 4 * i,
            i > 0 ==> start + 4 * i <= s@.len(),
            v@.len() == i,
            forall|k: int| 0 <= k < i ==> v@[k] == u32_le(s@, start + 4 * k),
        decreases n - i,
    {
        match read_u32_le(s, &mut pos) {
            Some(w) => v.push(w),
            None => return None,
        }
        i = i + 1;
    }
    Some(v)
}

/// Reads a bone-name table blob: `count` names, placed by their slot numbers.
pub fn parse_b2it(data: &Vec<u8>) -> (r: Result<Vec<String>, NameTableError>)
    ensures
        match bone_names(data@) {
            Ok(names) => r is Ok && texts(r.unwrap()@) == names,
            Err(e) => r == Err::<Vec<String>, NameTableError>(e),
        },
{
    let s = data.as_slice();
    let mut p: usize = 0x10;
    let count = match read_u32_le(s, &mut p) {
        Some(c) => c,
        None => return Err(NameTableError::Truncated),
    };
    p = 0x18;
    let offset = match read_u32_le(s, &mut p) {
        Some(c) => c,
        None => return Err(NameTableError::Truncated),
    };
    let str_starts = match read_words(s, 0x20, count) {
        Some(v) => v,
        None => return Err(NameTableError::Truncated),
    };
    let mut names: Vec<String> = Vec::new();
    let mut i: usize = 0;
    while i < count as usize
        invariant
            count == name_count(data@),
            s@ == data@,
            str_starts@.len() == count,
            forall|k: int| 0 <= k < count ==> str_starts@[k] == name_start(data@, k),
            i <= count,
            names@.len() == i,
            data@.len() >= 0x1C,
            count == 0 || 0x20 + 4 * count <= data@.len(),
            forall|k: int| 0 <= k < i ==> #[trigger] text_at(data@, name_start(data@, k)) is Some,
            forall|k: int| 0 <= k < i ==> #[trigger] names@[k]@ == name_text(data@, k),
        decreases count - i,
    {
        let mut q = str_starts[i] as usize;
        match read_string_to_null(s, &mut q) {
            Some(t) => names.push(t),
            None => {
                assert(text_at(data@, name_start(data@, i as int)) is None);
                return Err(NameTableError::BadText);
            },
        }
        assert(names@[i as int]@ == name_text(data@, i as int));
        i = i + 1;
    }
    let slots = match read_words(s, offset as usize, count) {
        Some(v) => v,
        None => return Err(NameTableError::Truncated),
    };
    let mut out: Vec<String> = Vec::new();
    let mut j: usize = 0;
    while j < count as usize
        invariant
            j <= count,
            out@.len() == j,
            forall|k: int| 0 <= k < j ==> #[trigger] out@[k]@ == Seq::<char>::empty(),
        decreases count - j,
    {
        out.push(String::new());
        j = j + 1;
    }
    let mut i: usize = 0;
    while i < count as usize
        invariant
            count == name_count(data@),
            slots@.len() == count,
            forall|k: int| 0 <= k < count ==> slots@[k] == name_slot(data@, k),
            i <= count,
            offset == slot_ptr(data@),
            data@.len() >= 0x1C,
            count == 0 || 0x20 + 4 * count <= data@.len(),
            count == 0 || offset + 4 * count <= data@.len(),
            forall|k: int| 0 <= k < count ==> #[trigger] text_at(data@, name_start(data@, k)) is Some,
            forall|k: int| 0 <= k < i ==> #[trigger] name_slot(data@, k) < count,
        decreases count - i,
    {
        if slots[i] >= count {
            assert(name_slot(data@, i as int) >= count);
            return Err(NameTableError::SlotOutOfRange);
        }
        i = i + 1;
    }
    let mut taken: Vec<bool> = Vec::new();
    let mut j: usize = 0;
    while j < count as usize
        invariant
            j <= count,
            taken@.len() == j,
            forall|x: int| 0 <= x < j ==> !taken@[x],
        decreases count - j,
    {
        taken.push(false);
        j = j + 1;
    }
    let mut i: usize = 0;
    while i < count as usize
        invariant
            count == name_count(data@),
            offset == slot_ptr(data@),
            names@.len() == count,
            forall|k: int| 0 <= k < count ==> #[trigger] names@[k]@ == name_text(data@, k),
            slots@.len() == count,
            forall|k: int| 0 <= k < count ==> slots@[k] == name_slot(data@, k),
            i <= count,
            out@.len() == count,
            taken@.len() == count,
            data@.len() >= 0x1C,
            count == 0 || 0x20 + 4 * count <= data@.len(),
            count == 0 || offset + 4 * count <= data@.len(),
            forall|k: int| 0 <= k < count ==> #[trigger] text_at(data@, name_start(data@, k)) is Some,
            forall|k: int| 0 <= k < count ==> #[trigger] name_slot(data@, k) < count,
            forall|x: int|
                0 <= x < count ==> (#[trigger] taken@[x] <==> exists|k: int|
                    0 <= k < i && name_slot(data@, k) == x),
            forall|a: int, b: int|
                0 <= a < b < i ==> name_slot(data@, a) != name_slot(data@, b),
            forall|jj: int|
                0 <= jj < count ==> #[trigger] out@[jj]@ == slot_after(data@, i as nat, jj),
        decreases count - i,
    {
        let slot = slots[i] as usize;
        if taken[slot] {
            assert(taken@[slot as int]);
            let ghost k = choose|k: int| 0 <= k < i && name_slot(data@, k) == slot as int;
            assert(0 <= k < i as int && name_slot(data@, k) == name_slot(data@, i as int));
            return Err(NameTableError::DuplicateSlot);
        }
        taken.set(slot, true);
        out.set(slot, names[i].clone());
        proof {
            assert forall|x: int| 0 <= x < count implies (#[trigger] taken@[x] <==> exists|k: int|
                0 <= k < i + 1 && name_slot(data@, k) == x) by {
                if x == slot as int {
                    assert(name_slot(data@, i as int) == x);
                } else if exists|k: int| 0 <= k < i + 1 && name_slot(data@, k) == x {
                    let k = choose|k: int| 0 <= k < i + 1 && name_slot(data@, k) == x;
                    assert(k < i);
                }
            }
            assert forall|a: int, b: int| 0 <= a < b < i + 1 implies name_slot(data@, a) != name_slot(
                data@,
                b,
            ) by {
                if b == i {
                    if name_slot(data@, a) == name_slot(data@, b) {
                        assert(taken@[slot as int]);
                    }
                }
            }
        }
        i = i + 1;
    }
    proof {
        let spec_names = Seq::new(count as nat, |j: int| slot_after(data@, count as nat, j));
        assert(texts(out@) =~= spec_names);
    }
    Ok(out)
}

} // verus!
