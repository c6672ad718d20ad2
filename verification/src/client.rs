//! Device Round-Trip Client: opens the exposed device, writes a payload,
//! reads it back in two phases — exactly the first five bytes, then the
//! remainder to completion — and checks byte-for-byte equality with the
//! original payload. Every failure is fatal and escalated unchanged; there
//! is no retry and no partial recovery.

use vstd::prelude::*;

use crate::stream::DeviceStream;

verus! {

/// Why a round-trip attempt failed. Every failure is fatal to the whole
/// attempt: nothing is retried.
#[derive(Clone, Copy, Debug, PartialEq, Eq, Structural)]
pub enum ClientError {
    /// The device could not be opened; nothing was written or read.
    OpenFailed,
    /// Fewer bytes were available than the fixed read-back step demands.
    ReadTooShort,
    /// The bytes read back differ from the payload written.
    Mismatch,
}

/// Compares two byte buffers for byte-for-byte equality.
pub fn bytes_equal(a: &Vec<u8>, b: &Vec<u8>) -> (r: bool)
    ensures
        r <==> a@ == b@,
{
    if a.len() != b.len() {
        return false;
    }
    let n: usize = a.len();
    let mut i: usize = 0;
    while i < n
        invariant
            i <= n,
            n == a@.len(),
            n == b@.len(),
            forall|j: int| 0 <= j < i ==> a@[j] == b@[j],
        decreases n - i,
    {
        if a[i] != b[i] {
            return false;
        }
        i = i + 1;
    }
    proof {
        assert(a@ =~= b@);
    }
    true
}

/// Concatenates two byte buffers into one.
pub fn concat_bytes(a: &Vec<u8>, b: &Vec<u8>) -> (r: Vec<u8>)
    ensures
        r@ == a@ + b@,
{
    let mut r: Vec<u8> = Vec::new();
    let mut i: usize = 0;
    let n: usize = a.len();
    while i < n
        invariant
            i <= n,
            n == a@.len(),
            r@ == a@.take(i as int),
        decreases n - i,
    {
        r.push(a[i]);
        proof {
            assert(r@ =~= a@.take(i + 1));
        }
        i = i + 1;
    }
    let m: usize = b.len();
    let mut j: usize = 0;
    while j < m
        invariant
            j <= m,
            m == b@.len(),
            r@ == a@ + b@.take(j as int),
        decreases m - j,
    {
        r.push(b[j]);
        proof {
            assert(r@ =~= a@ + b@.take(j + 1));
        }
        j = j + 1;
    }
    proof {
        assert(r@ =~= a@ + b@);
    }
    r
}

/// The final equality check of the protocol: given the payload that was
/// written, the fixed-length first read and the read-to-end remainder,
/// concatenates the two reads and succeeds exactly when they reproduce the
/// payload byte for byte.
pub fn check_read_back(payload: &Vec<u8>, first: &Vec<u8>, rest: &Vec<u8>) -> (r: Result<
    Vec<u8>,
    ClientError,
>)
    ensures
        first@ + rest@ == payload@ ==> (r matches Ok(v) && v@ == payload@),
        first@ + rest@ != payload@ ==> r == Err::<Vec<u8>, ClientError>(ClientError::Mismatch),
{
    let combined = concat_bytes(first, rest);
    if bytes_equal(&combined, payload) {
        Ok(combined)
    } else {
        Err(ClientError::Mismatch)
    }
}

/// Runs the write/read protocol against an already opened device handle:
/// write the full payload, read back exactly the first five bytes, read the
/// remainder to completion, and check the concatenation against the
/// payload. On a handle with nothing left pending, a payload of at least
/// five bytes always round-trips to exactly itself, and a shorter payload
/// makes the fixed five-byte read-back step fail rather than silently
/// truncate.
pub fn round_trip(stream: &mut DeviceStream, payload: &Vec<u8>) -> (r: Result<Vec<u8>, ClientError>)
    requires
        old(stream).wf(),
    ensures
        final(stream).wf(),
        old(stream).drained() && payload@.len() >= 5 ==> (r matches Ok(v) && v@ == payload@),
        old(stream).drained() && payload@.len() < 5 ==> r == Err::<Vec<u8>, ClientError>(
            ClientError::ReadTooShort,
        ),
    {
    stream.write_all(payload);
    let first = match stream.read_exact(5) {
        Some(v) => v,
        None => {
            return Err(ClientError::ReadTooShort);
        },
    };
    let rest = stream.read_to_end();
    proof {
        if old(stream).drained() && payload@.len() >= 5 {
            assert(first@ + rest@ =~= payload@);
        }
    }
    check_read_back(payload, &first, &rest)
}

/// The whole client protocol from the open step onward: a handle that could
/// not be opened fails the attempt with the open error — no write and no
/// read is attempted — and an opened handle runs the write/read protocol.
pub fn run_round_trip(opened: Option<DeviceStream>, payload: &Vec<u8>) -> (r: Result<
    Vec<u8>,
    ClientError,
>)
    requires
        opened matches Some(s) ==> s.wf(),
    ensures
        opened is None ==> r == Err::<Vec<u8>, ClientError>(ClientError::OpenFailed),
        (opened matches Some(s) && s.drained() && payload@.len() >= 5) ==> (r matches Ok(v)
            && v@ == payload@),
        (opened matches Some(s) && s.drained() && payload@.len() < 5) ==> r == Err::<
            Vec<u8>,
            ClientError,
        >(ClientError::ReadTooShort),
    {
    match opened {
        None => Err(ClientError::OpenFailed),
        Some(mut stream) => round_trip(&mut stream, payload),
    }
}

} // verus!
