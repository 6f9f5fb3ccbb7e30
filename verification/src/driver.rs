use vstd::prelude::*;

use crate::backend::{digest, sha256, Backend, HashError, DIGEST_LEN};

verus! {

/// The smaller benchmark input size: 64 bytes.
pub const SMALL_LEN: usize = 64;

/// The larger benchmark input size: 10 MiB.
pub const LARGE_LEN: usize = 10 * 1024 * 1024;

/// The constant byte that every input buffer is filled with.
pub const FILL_BYTE: u8 = 1;

/// The sequence of `len` copies of `value`: the model of an input buffer.
pub open spec fn filled(len: nat, value: u8) -> Seq<u8> {
    Seq::new(len, |i: int| value)
}

/// Builds an input buffer of `len` bytes, each equal to `value`. The buffer
/// is created once per benchmark case and never mutated afterwards.
pub fn fill_buffer(len: usize, value: u8) -> (r: Vec<u8>)
    ensures
        r@ == filled(len as nat, value),
        r@.len() == len,
{
    let mut buf: Vec<u8> = Vec::new();
    let mut i: usize = 0;
    while i < len
        invariant
            i <= len,
            buf@.len() == i,
            forall|j: int| 0 <= j < i ==> buf@[j] == value,
        decreases len - i,
    {
        buf.push(value);
        i = i + 1;
    }
    proof {
        assert(buf@ =~= filled(len as nat, value));
    }
    buf
}

/// One benchmark case: a backend and an input size.
#[derive(Clone, Copy, PartialEq, Eq, Structural, Debug)]
pub struct BenchCase {
    pub backend: Backend,
    pub len: usize,
}

/// The full benchmark matrix: every backend at every input size, the smaller
/// size first, each group in a fixed backend order. The cases drive one
/// generic timing loop instead of hand-written per-case code.
pub fn case_table() -> (r: Vec<BenchCase>)
    ensures
        r@.len() == 6,
        r@[0] == (BenchCase { backend: Backend::Openssl, len: SMALL_LEN }),
        r@[1] == (BenchCase { backend: Backend::PyBuiltin, len: SMALL_LEN }),
        r@[2] == (BenchCase { backend: Backend::PyOpenssl, len: SMALL_LEN }),
        r@[3] == (BenchCase { backend: Backend::Openssl, len: LARGE_LEN }),
        r@[4] == (BenchCase { backend: Backend::PyBuiltin, len: LARGE_LEN }),
        r@[5] == (BenchCase { backend: Backend::PyOpenssl, len: LARGE_LEN }),
{
    let mut t: Vec<BenchCase> = Vec::new();
    t.push(BenchCase { backend: Backend::Openssl, len: SMALL_LEN });
    t.push(BenchCase { backend: Backend::PyBuiltin, len: SMALL_LEN });
    t.push(BenchCase { backend: Backend::PyOpenssl, len: SMALL_LEN });
    t.push(BenchCase { backend: Backend::Openssl, len: LARGE_LEN });
    t.push(BenchCase { backend: Backend::PyBuiltin, len: LARGE_LEN });
    t.push(BenchCase { backend: Backend::PyOpenssl, len: LARGE_LEN });
    t
}

/// Runs the body of one benchmark case: builds the case's constant input
/// buffer once, invokes the backend `iterations` times on that same buffer,
/// and returns the digest of the last invocation. The first failure ends the
/// case at once, as a clean measurement demands; on success every invocation
/// returned this same 32-byte SHA-256 digest of the buffer.
pub fn run_case(case: BenchCase, iterations: usize) -> (r: Result<Vec<u8>, HashError>)
    requires
        1 <= iterations,
    ensures
        (r matches Ok(d) ==> d@ == sha256(filled(case.len as nat, FILL_BYTE)) && d@.len()
            == DIGEST_LEN),
{
    let data = fill_buffer(case.len, FILL_BYTE);
    let mut result: Vec<u8> = match digest(case.backend, data.as_slice()) {
        Ok(d) => d,
        Err(e) => {
            return Err(e);
        },
    };
    let mut i: usize = 1;
    while i < iterations
        invariant
            data@ == filled(case.len as nat, FILL_BYTE),
            result@ == sha256(data@),
            result@.len() == DIGEST_LEN,
        decreases iterations - i,
    {
        result = match digest(case.backend, data.as_slice()) {
            Ok(d) => d,
            Err(e) => {
                return Err(e);
            },
        };
        i = i + 1;
    }
    Ok(result)
}

} // verus!
