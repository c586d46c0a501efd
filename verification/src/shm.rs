//! Names of the POSIX shared-memory objects that hold images.
use crate::encoding::push_bytes;
use vstd::prelude::*;
use vstd::string::StringSliceAdditionalSpecFns;

verus! {

/// The suffix of an image's shared-memory object name: `.im.shm`.
pub open spec fn shm_suffix() -> Seq<u8> {
    seq![46u8, 105u8, 109u8, 46u8, 115u8, 104u8, 109u8]
}

/// The NUL-terminated name of the shared-memory object of the image called
/// `name`: `/{name}.im.shm`, or `None` when `name` holds a NUL byte.
pub fn shm_object_name(name: &str) -> (r: Option<Vec<u8>>)
    ensures
        match r {
            Some(v) => {
                &&& forall|i: int| 0 <= i < name.spec_bytes().len() ==> name.spec_bytes()[i] != 0
                &&& v@ == seq![47u8] + name.spec_bytes() + shm_suffix() + seq![0u8]
            },
            None => exists|i: int| 0 <= i < name.spec_bytes().len() && name.spec_bytes()[i] == 0,
        },
{
    let bytes = name.as_bytes();
    let mut i: usize = 0;
    while i < bytes.len()
        invariant
            i <= bytes@.len(),
            bytes@ == name.spec_bytes(),
            forall|j: int| 0 <= j < i ==> bytes@[j] != 0,
        decreases bytes@.len() - i,
    {
        if bytes[i] == 0 {
            return None;
        }
        i = i + 1;
    }
    let mut v: Vec<u8> = Vec::new();
    v.push(47u8);
    push_bytes(&mut v, bytes);
    v.push(46u8);
    v.push(105u8);
    v.push(109u8);
    v.push(46u8);
    v.push(115u8);
    v.push(104u8);
    v.push(109u8);
    v.push(0u8);
    assert(v@ =~= seq![47u8] + name.spec_bytes() + shm_suffix() + seq![0u8]);
    Some(v)
}

} // verus!
