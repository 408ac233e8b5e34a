//! Author and committer signatures.
use vstd::prelude::*;
use jj_lib::backend::{MillisSinceEpoch, Signature, Timestamp};

verus! {

#[verifier::external_type_specification]
pub struct ExMillisSinceEpoch(MillisSinceEpoch);

#[verifier::external_type_specification]
pub struct ExTimestamp(Timestamp);

#[verifier::external_type_specification]
pub struct ExSignature(Signature);

/// A point in time: milliseconds since the Unix epoch and the offset of the
/// time zone it was taken in.
#[derive(Debug, Clone, PartialEq, Eq)]
pub struct FfiTimestamp {
    pub millis_since_epoch: i64,
    pub tz_offset_minutes: i32,
}

/// Who made a commit, and when.
#[derive(Debug, Clone, PartialEq, Eq)]
pub struct FfiSignature {
    pub name: String,
    pub email: String,
    pub timestamp: FfiTimestamp,
}

impl FfiTimestamp {
    /// The timestamp as the engine records it.
    pub fn from_engine(ts: &Timestamp) -> (r: Self)
        ensures
            r.millis_since_epoch == ts.timestamp.0,
            r.tz_offset_minutes == ts.tz_offset,
    {
        FfiTimestamp { millis_since_epoch: ts.timestamp.0, tz_offset_minutes: ts.tz_offset }
    }

    pub fn to_engine(&self) -> (r: Timestamp)
        ensures
            r.timestamp.0 == self.millis_since_epoch,
            r.tz_offset == self.tz_offset_minutes,
    {
        Timestamp {
            timestamp: MillisSinceEpoch(self.millis_since_epoch),
            tz_offset: self.tz_offset_minutes,
        }
    }
}

impl FfiSignature {
    pub fn from_engine(sig: &Signature) -> (r: Self)
        ensures
            r.name@ == sig.name@,
            r.email@ == sig.email@,
            r.timestamp.millis_since_epoch == sig.timestamp.timestamp.0,
            r.timestamp.tz_offset_minutes == sig.timestamp.tz_offset,
    {
        FfiSignature {
            name: sig.name.clone(),
            email: sig.email.clone(),
            timestamp: FfiTimestamp::from_engine(&sig.timestamp),
        }
    }

    pub fn to_engine(&self) -> (r: Signature)
        ensures
            r.name@ == self.name@,
            r.email@ == self.email@,
            r.timestamp.timestamp.0 == self.timestamp.millis_since_epoch,
            r.timestamp.tz_offset == self.timestamp.tz_offset_minutes,
    {
        Signature {
            name: self.name.clone(),
            email: self.email.clone(),
            timestamp: self.timestamp.to_engine(),
        }
    }
}

/// Relies on `Timestamp::now` of jj-lib: the current time; nothing is known of it.
#[verifier::external_body]
pub(crate) fn timestamp_now() -> Timestamp {
    Timestamp::now()
}

} // verus!
