use cpython::ObjectProtocol;
use vstd::prelude::*;

verus! {

/// The SHA-256 function on byte sequences, named but not written out.
/// Every backend below delegates to an external library that documents its
/// routine as SHA-256, so each wrapper's contract equates its result with
/// this one function of the input bytes.
pub uninterp spec fn sha256(data: Seq<u8>) -> Seq<u8>;

/// Length in bytes of every SHA-256 digest.
pub const DIGEST_LEN: usize = 32;

/// The interchangeable SHA-256 providers that the driver compares.
#[derive(Clone, Copy, PartialEq, Eq, Structural, Debug)]
pub enum Backend {
    /// The system cryptographic library's digest routine.
    Openssl,
    /// The embedded interpreter's built-in hash module.
    PyBuiltin,
    /// The embedded interpreter's binding to the system library.
    PyOpenssl,
}

/// Why a digest call failed. No failure is retried: a clean measurement
/// demands that any anomaly end the run.
#[derive(Clone, Copy, PartialEq, Eq, Structural, Debug)]
pub enum HashError {
    /// The system cryptographic library reported a failure.
    Library,
    /// The interpreter bridge failed: module import, attribute lookup or call.
    Bridge,
}

#[verifier::external_type_specification]
#[verifier::external_body]
pub struct ExErrorStack(openssl::error::ErrorStack);

#[verifier::external_type_specification]
#[verifier::external_body]
pub struct ExPyErr(cpython::PyErr);

/// Relies on openssl::hash::hash, selected by openssl::hash::MessageDigest::sha256():
/// on success it returns the SHA-256 digest of the input, 32 bytes, a function
/// of the input bytes alone; on failure an error stack from the library.
#[verifier::external_body]
fn openssl_sha256(data: &[u8]) -> (r: Result<Vec<u8>, openssl::error::ErrorStack>)
    ensures
        (r matches Ok(d) ==> d@ == sha256(data@) && d@.len() == DIGEST_LEN),
{
    match openssl::hash::hash(openssl::hash::MessageDigest::sha256(), data) {
        Ok(d) => Ok(d.to_vec()),
        Err(e) => Err(e),
    }
}

/// Relies on the interpreter bridge to the built-in hash module: cpython's
/// Python::acquire_gil, Python::import of "_sha256", PyModule::get of "sha256",
/// ObjectProtocol::call and call_method, and PyBytes::data. CPython documents
/// _sha256.sha256(data).digest() as the SHA-256 digest of the bytes: 32 bytes,
/// a function of the input bytes alone. Any bridge failure comes back as the
/// interpreter's error value.
#[verifier::external_body]
fn py_builtin_sha256(data: &[u8]) -> (r: Result<Vec<u8>, cpython::PyErr>)
    ensures
        (r matches Ok(d) ==> d@ == sha256(data@) && d@.len() == DIGEST_LEN),
{
    let gil = cpython::Python::acquire_gil();
    let py = gil.python();
    let ctor = py.import("_sha256")?.get(py, "sha256")?;
    let arg = cpython::PyBytes::new(py, data);
    let obj = ctor.call(py, (arg,), None)?;
    let out = obj.call_method(py, "digest", cpython::NoArgs, None)?;
    let bytes: cpython::PyBytes = out.extract(py)?;
    Ok(bytes.data(py).to_vec())
}

/// Relies on the interpreter bridge to the system-library hash binding:
/// the same cpython call chain as the built-in backend, importing "_hashlib"
/// and resolving "openssl_sha256". CPython documents
/// _hashlib.openssl_sha256(data).digest() as the SHA-256 digest of the bytes:
/// 32 bytes, a function of the input bytes alone.
#[verifier::external_body]
fn py_openssl_sha256(data: &[u8]) -> (r: Result<Vec<u8>, cpython::PyErr>)
    ensures
        (r matches Ok(d) ==> d@ == sha256(data@) && d@.len() == DIGEST_LEN),
{
    let gil = cpython::Python::acquire_gil();
    let py = gil.python();
    let ctor = py.import("_hashlib")?.get(py, "openssl_sha256")?;
    let arg = cpython::PyBytes::new(py, data);
    let obj = ctor.call(py, (arg,), None)?;
    let out = obj.call_method(py, "digest", cpython::NoArgs, None)?;
    let bytes: cpython::PyBytes = out.extract(py)?;
    Ok(bytes.data(py).to_vec())
}

/// Computes the SHA-256 digest of `data` with the given backend.
/// On success the result is the 32-byte SHA-256 digest of the input, the same
/// whichever backend ran; on failure the error names the failing collaborator:
/// `Library` exactly for the system-library backend, `Bridge` exactly for the
/// interpreter-backed ones.
pub fn digest(backend: Backend, data: &[u8]) -> (r: Result<Vec<u8>, HashError>)
    ensures
        (r matches Ok(d) ==> d@ == sha256(data@) && d@.len() == DIGEST_LEN),
        (r matches Err(e) ==> (match backend {
            Backend::Openssl => e == HashError::Library,
            Backend::PyBuiltin => e == HashError::Bridge,
            Backend::PyOpenssl => e == HashError::Bridge,
        })),
{
    match backend {
        Backend::Openssl => match openssl_sha256(data) {
            Ok(d) => Ok(d),
            Err(_) => Err(HashError::Library),
        },
        Backend::PyBuiltin => match py_builtin_sha256(data) {
            Ok(d) => Ok(d),
            Err(_) => Err(HashError::Bridge),
        },
        Backend::PyOpenssl => match py_openssl_sha256(data) {
            Ok(d) => Ok(d),
            Err(_) => Err(HashError::Bridge),
        },
    }
}

/// Cross-backend correctness: two successful digests of one input agree bit
/// for bit, whichever backends produced them, at every input size.
pub proof fn lemma_backends_agree(data: Seq<u8>, d1: Seq<u8>, d2: Seq<u8>)
    requires
        d1 == sha256(data),
        d2 == sha256(data),
    ensures
        d1 == d2,
{
}

/// Idempotence: invoking a backend twice on the same immutable buffer yields
/// the same digest both times; no hidden state changes the result.
pub proof fn lemma_digest_idempotent(data: Seq<u8>, first: Seq<u8>, second: Seq<u8>)
    requires
        first == sha256(data),
        second == sha256(data),
    ensures
        first == second,
{
}

} // verus!
