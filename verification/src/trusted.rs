use vstd::prelude::*;

use crate::error::Error;

verus! {

/// Relies on String::from_utf8: it succeeds exactly on valid UTF-8 and then
/// returns the string whose UTF-8 encoding is the given bytes.
#[verifier::external_body]
pub(crate) fn string_from_utf8(bytes: Vec<u8>) -> (r: Result<String, Error>)
    ensures
        r matches Ok(s) ==> vstd::utf8::encode_utf8(s@) == bytes@,
        vstd::utf8::valid_utf8(bytes@) ==> r is Ok,
        r matches Err(e) ==> e == Error::InvalidMetadata,
{
    match String::from_utf8(bytes) {
        Ok(s) => Ok(s),
        Err(_) => Err(Error::InvalidMetadata),
    }
}

/// Relies on std::time::SystemTime: the milliseconds since the Unix epoch,
/// or an error when the clock reads earlier than the epoch. The value depends
/// on the clock, so nothing is promised beyond its sign.
#[verifier::external_body]
pub(crate) fn now_millis() -> (r: Result<i64, Error>)
    ensures
        r matches Ok(ms) ==> ms >= 0,
        r matches Err(e) ==> e == Error::IOFailure,
{
    let since_epoch = std::time::SystemTime::now()
        .duration_since(std::time::SystemTime::UNIX_EPOCH)
        .map_err(|_| Error::IOFailure)?;
    i64::try_from(since_epoch.as_millis()).map_err(|_| Error::IOFailure)
}

/// The user metadata a row container's header carries: a map from key to
/// value bytes, a function of the container bytes alone.
pub uninterp spec fn user_meta_of(bytes: Seq<u8>) -> Map<Seq<char>, Seq<u8>>;

/// Whether the bytes parse as a row container: the header parse is a
/// function of the container bytes alone.
pub uninterp spec fn avro_container_ok(bytes: Seq<u8>) -> bool;

/// Relies on apache_avro::Reader::new and Reader::user_metadata: parsing the
/// container header is deterministic in the bytes, succeeding exactly on
/// well-formed containers, and yields the user metadata of the file as a
/// map with distinct keys.
#[verifier::external_body]
pub(crate) fn avro_user_metadata(bytes: &[u8]) -> (r: Result<Vec<(String, Vec<u8>)>, Error>)
    ensures
        r is Ok <==> avro_container_ok(bytes@),
        r matches Ok(v) ==> forall|i: int|
            0 <= i < v@.len() ==> user_meta_of(bytes@).contains_pair(
                (#[trigger] v@[i]).0@,
                v@[i].1@,
            ),
        r matches Ok(v) ==> forall|i: int, j: int|
            0 <= i < j < v@.len() ==> (#[trigger] v@[i]).0@ != (#[trigger] v@[j]).0@,
        r matches Ok(v) ==> forall|k: Seq<char>|
            user_meta_of(bytes@).dom().contains(k) ==> exists|i: int|
                0 <= i < v@.len() && (#[trigger] v@[i]).0@ == k,
        r matches Err(e) ==> e == Error::InvalidMetadata,
{
    let reader = match apache_avro::Reader::new(bytes) {
        Ok(reader) => reader,
        Err(_) => return Err(Error::InvalidMetadata),
    };
    Ok(reader.user_metadata().iter().map(|(k, v)| (k.clone(), v.clone())).collect())
}

/// Relies on uuid::Uuid::new_v4 and its Display form: a random identifier in
/// the canonical hyphenated form, which is 36 characters long. The value is
/// random, so nothing else is promised.
#[verifier::external_body]
pub(crate) fn uuid_v4_string() -> (r: String)
    ensures
        r@.len() == 36,
{
    uuid::Uuid::new_v4().to_string()
}

} // verus!
