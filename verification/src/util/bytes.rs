//! Lists and arrays of 32 bytes.
use vstd::prelude::*;

verus! {

/// The bytes of a list as an array of 32, where the list has that length.
pub fn to_array32(bytes: &Vec<u8>) -> (array: Option<[u8; 32]>)
    ensures
        array is Some <==> bytes.len() == 32,
        array is Some ==> array->0@ == bytes@,
{
    if bytes.len() != 32 {
        return None;
    }
    let mut array = [0u8; 32];
    let mut i: usize = 0;
    while i < 32
        invariant
            i <= 32,
            bytes.len() == 32,
            forall|j: int| 0 <= j < i ==> array@[j] == bytes@[j],
        decreases 32 - i,
    {
        array[i] = bytes[i];
        i += 1;
    }
    assert(array@ =~= bytes@);
    Some(array)
}

/// The bytes of an array of 32 as a list.
pub fn to_list32(array: &[u8; 32]) -> (bytes: Vec<u8>)
    ensures
        bytes@ == array@,
{
    let mut bytes: Vec<u8> = Vec::new();
    let mut i: usize = 0;
    while i < 32
        invariant
            i <= 32,
            bytes.len() == i,
            forall|j: int| 0 <= j < i ==> bytes@[j] == array@[j],
        decreases 32 - i,
    {
        bytes.push(array[i]);
        i += 1;
    }
    assert(bytes@ =~= array@);
    bytes
}

} // verus!
