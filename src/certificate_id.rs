use vstd::prelude::*;

use crate::encoding::{be_bytes, be_value, u128_from_be_bytes, u32_be_bytes, u64_be_bytes};
use crate::types::AccountId;

verus! {

/// The 128-bit BLAKE2b digest of `input`.
pub uninterp spec fn blake2x128_of(input: Seq<u8>) -> Seq<u8>;

/// Relies on ink's `Blake2x128` implementation of `CryptoHash::hash`: it
/// writes the 16-byte BLAKE2b digest of `input`, which depends on the input
/// bytes alone.
#[verifier::external_body]
fn blake2x128(input: &Vec<u8>) -> (r: [u8; 16])
    ensures
        r@ == blake2x128_of(input@),
{
    let mut output = [0u8; 16];
    <ink::env::hash::Blake2x128 as ink::env::hash::CryptoHash>::hash(input.as_slice(), &mut output);
    output
}

/// The bytes hashed into a certificate identifier: the course id, the
/// student's identity and the completion time, integers big-endian.
pub open spec fn certificate_input(course_id: u32, student: AccountId, completed_at: u64) -> Seq<u8> {
    be_bytes(course_id as nat, 4) + student.0@ + be_bytes(completed_at as nat, 8)
}

/// The certificate identifier read from a 16-byte digest.
pub open spec fn id_of_digest(digest: Seq<u8>) -> nat {
    be_value(digest)
}

/// The identifier of the certificate issued for `student` completing
/// `course_id` at `completed_at`.
pub open spec fn certificate_id_spec(course_id: u32, student: AccountId, completed_at: u64) -> nat {
    id_of_digest(blake2x128_of(certificate_input(course_id, student, completed_at)))
}

/// Encodes the hash input of a certificate identifier.
pub fn certificate_input_bytes(course_id: u32, student: &AccountId, completed_at: u64) -> (r: Vec<u8>)
    ensures
        r@ == certificate_input(course_id, *student, completed_at),
{
    let mut input = u32_be_bytes(course_id);
    let mut i: usize = 0;
    let ghost start = input@;
    while i < 32
        invariant
            0 <= i <= 32,
            input@ == start + student.0@.take(i as int),
        decreases 32 - i,
    {
        input.push(student.0[i]);
        proof {
            assert(student.0@.take(i as int + 1) =~= student.0@.take(i as int).push(student.0@[i as int]));
        }
        i = i + 1;
    }
    proof {
        assert(student.0@.take(32) =~= student.0@);
    }
    let mut tail = u64_be_bytes(completed_at);
    input.append(&mut tail);
    proof {
        assert(input@ =~= certificate_input(course_id, *student, completed_at));
    }
    input
}

/// The certificate identifier carried by a digest: its sixteen bytes read
/// big-endian.
pub fn certificate_id_from_digest(digest: [u8; 16]) -> (r: u128)
    ensures
        r as nat == id_of_digest(digest@),
{
    u128_from_be_bytes(digest)
}

/// Derives the identifier of the certificate issued for `student` completing
/// `course_id` at `completed_at`: the BLAKE2b-128 digest of the encoded
/// triple, read as a big-endian integer.
pub fn certificate_id(course_id: u32, student: &AccountId, completed_at: u64) -> (r: u128)
    ensures
        r as nat == certificate_id_spec(course_id, *student, completed_at),
{
    let input = certificate_input_bytes(course_id, student, completed_at);
    let digest = blake2x128(&input);
    certificate_id_from_digest(digest)
}

} // verus!
