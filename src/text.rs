//! Fixed-width text fields and artifact paths.

use vstd::prelude::*;
use vstd::string::{StringExecFns, StringSliceAdditionalSpecFns};
use crate::error::AmmError;

verus! {

/// The UTF-8 bytes of `s`, padded with zeros to `length`; fails when `s` is
/// longer than `length` bytes.
pub fn convert_string_to_bytes_array(s: &str, length: usize) -> (r: Result<Vec<u8>, AmmError>)
    ensures
        r is Err <==> s.spec_bytes().len() > length,
        r matches Err(e) ==> e == AmmError::TextTooLong,
        r matches Ok(v) ==> v@ == s.spec_bytes() + Seq::new(
            (length - s.spec_bytes().len()) as nat,
            |i: int| 0u8,
        ),
{
    let bytes = s.as_bytes();
    if bytes.len() > length {
        return Err(AmmError::TextTooLong);
    }
    let mut out: Vec<u8> = Vec::new();
    let mut i: usize = 0;
    while i < length
        invariant
            bytes@ == s.spec_bytes(),
            bytes@.len() <= length,
            i <= length,
            out@.len() == i,
            forall|k: int| 0 <= k < i ==> out@[k] == if k < bytes@.len() { bytes@[k] } else { 0u8 },
        decreases length - i,
    {
        if i < bytes.len() {
            out.push(bytes[i]);
        } else {
            out.push(0u8);
        }
        i = i + 1;
    }
    assert(out@ =~= s.spec_bytes() + Seq::new((length - s.spec_bytes().len()) as nat, |i: int| 0u8));
    Ok(out)
}

/// Path of the circuit artifact `filename` inside the directory `circuits_dir`.
pub fn find_circuit_path(circuits_dir: &str, filename: &str) -> (r: String)
    ensures
        r@ == circuits_dir@ + "/"@ + filename@,
{
    let mut path = String::from_str(circuits_dir);
    path.append("/");
    path.append(filename);
    path
}

} // verus!
