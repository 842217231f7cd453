//! Extraction of the BABE-related information of a header.
//!
//! A header that can be verified ends with its seal, and holds exactly one slot
//! claim and at most one announcement of the next epoch.

use crate::header::{DigestItem, EpochChangeDigest, HeaderRef, PreDigest};
use vstd::prelude::*;

verus! {

/// Information successfully extracted from the header.
#[derive(Debug, Clone, Copy)]
pub struct HeaderInfo<'a> {
    /// Block signature stored in the header.
    ///
    /// The last digest item of the header must always be the seal, containing a
    /// signature of the rest of the header made by the author of the block.
    pub seal_signature: [u8; 64],
    /// Information about the slot claim made by the block author.
    pub pre_runtime: PreDigest,
    /// Announcement of the next epoch, if the header holds one.
    pub epoch_change: Option<&'a EpochChangeDigest>,
}

/// What a [`HeaderInfo`] holds.
pub struct HeaderInfoView {
    pub seal_signature: [u8; 64],
    pub pre_runtime: PreDigest,
    pub epoch_change: Option<EpochChangeDigest>,
}

impl<'a> View for HeaderInfo<'a> {
    type V = HeaderInfoView;

    open spec fn view(&self) -> HeaderInfoView {
        HeaderInfoView {
            seal_signature: self.seal_signature,
            pre_runtime: self.pre_runtime,
            epoch_change: match self.epoch_change {
                Some(digest) => Some(*digest),
                None => None,
            },
        }
    }
}

impl<'a> HeaderInfo<'a> {
    /// Slot that the block claims.
    pub fn slot_number(&self) -> (slot: u64)
        ensures
            slot == self.pre_runtime.spec_slot_number(),
    {
        self.pre_runtime.slot_number()
    }
}

/// Failure to get the information from the header.
///
/// Indicates that the header is malformed.
#[derive(Debug, Clone, Copy, PartialEq, Eq, Structural)]
pub enum Error {
    /// The seal (containing the signature of the authority) is not the last digest
    /// item of the header.
    MissingSeal,
    /// No slot claim in the block header.
    NoPreRuntimeDigest,
    /// There are multiple slot claims in the block header.
    MultiplePreRuntimeDigests,
    /// There are multiple epoch announcements in the block header.
    MultipleEpochChangeDigests,
}

/// Item `i` of `digest` is a slot claim.
pub open spec fn pre_runtime_at(digest: Seq<DigestItem>, i: int) -> bool {
    0 <= i < digest.len() && digest[i] is PreRuntime
}

/// Item `i` of `digest` announces the next epoch.
pub open spec fn epoch_change_at(digest: Seq<DigestItem>, i: int) -> bool {
    0 <= i < digest.len() && digest[i] is EpochChange
}

/// `digest` holds a slot claim.
pub open spec fn has_pre_runtime(digest: Seq<DigestItem>) -> bool {
    exists|i: int| pre_runtime_at(digest, i)
}

/// `digest` holds more than one slot claim.
pub open spec fn has_several_pre_runtime(digest: Seq<DigestItem>) -> bool {
    exists|i: int, j: int| i != j && pre_runtime_at(digest, i) && pre_runtime_at(digest, j)
}

/// `digest` holds an announcement of the next epoch.
pub open spec fn has_epoch_change(digest: Seq<DigestItem>) -> bool {
    exists|i: int| epoch_change_at(digest, i)
}

/// `digest` holds more than one announcement of the next epoch.
pub open spec fn has_several_epoch_change(digest: Seq<DigestItem>) -> bool {
    exists|i: int, j: int| i != j && epoch_change_at(digest, i) && epoch_change_at(digest, j)
}

/// What [`header_information`] extracts from a header with the digest `digest`.
pub open spec fn header_information_spec(digest: Seq<DigestItem>) -> Result<HeaderInfoView, Error> {
    if digest.len() == 0 || !(digest.last() is Seal) {
        Err(Error::MissingSeal)
    } else if !has_pre_runtime(digest) {
        Err(Error::NoPreRuntimeDigest)
    } else if has_several_pre_runtime(digest) {
        Err(Error::MultiplePreRuntimeDigests)
    } else if has_several_epoch_change(digest) {
        Err(Error::MultipleEpochChangeDigests)
    } else {
        Ok(
            HeaderInfoView {
                seal_signature: digest.last()->Seal_0,
                pre_runtime: digest[choose|i: int| pre_runtime_at(digest, i)]->PreRuntime_0,
                epoch_change: if has_epoch_change(digest) {
                    Some(digest[choose|i: int| epoch_change_at(digest, i)]->EpochChange_0)
                } else {
                    None
                },
            },
        )
    }
}

/// Whether `info` is what `expected` describes.
pub open spec fn header_information_is(
    info: Result<HeaderInfo, Error>,
    expected: Result<HeaderInfoView, Error>,
) -> bool {
    match expected {
        Ok(view) => info matches Ok(found) && found@ == view,
        Err(error) => info matches Err(found) && found == error,
    }
}

/// Returns the information stored in a header and related to BABE.
///
/// Fails with the first of these that holds: the last digest item is not the
/// seal; there is no slot claim; there are several slot claims; there are several
/// announcements of the next epoch.
pub fn header_information<'a>(header: HeaderRef<'a>) -> (info: Result<HeaderInfo<'a>, Error>)
    ensures
        header_information_is(info, header_information_spec(header.digest@)),
{
    let digest: &'a [DigestItem] = header.digest;
    let len: usize = digest.len();
    if len == 0 {
        return Err(Error::MissingSeal);
    }
    let seal_signature: [u8; 64] = match &digest[len - 1] {
        DigestItem::Seal(signature) => *signature,
        _ => return Err(Error::MissingSeal),
    };
    let mut pre_runtime: Option<PreDigest> = None;
    let mut several_pre_runtime: bool = false;
    let mut epoch_change: Option<&'a EpochChangeDigest> = None;
    let mut several_epoch_change: bool = false;
    let ghost mut pre_runtime_index: int = -1;
    let ghost mut epoch_change_index: int = -1;
    let mut k: usize = 0;
    while k < len
        invariant
            k <= len == digest@.len(),
            pre_runtime is None ==> forall|i: int| 0 <= i < k ==> !pre_runtime_at(digest@, i),
            pre_runtime is Some ==> 0 <= pre_runtime_index < k && pre_runtime_at(
                digest@,
                pre_runtime_index,
            ) && pre_runtime == Some(digest@[pre_runtime_index]->PreRuntime_0),
            several_pre_runtime ==> has_several_pre_runtime(digest@),
            !several_pre_runtime ==> forall|i: int|
                0 <= i < k && i != pre_runtime_index ==> !pre_runtime_at(digest@, i),
            epoch_change is None ==> forall|i: int| 0 <= i < k ==> !epoch_change_at(digest@, i),
            epoch_change is Some ==> 0 <= epoch_change_index < k && epoch_change_at(
                digest@,
                epoch_change_index,
            ) && *epoch_change->Some_0 == digest@[epoch_change_index]->EpochChange_0,
            several_epoch_change ==> has_several_epoch_change(digest@),
            !several_epoch_change ==> forall|i: int|
                0 <= i < k && i != epoch_change_index ==> !epoch_change_at(digest@, i),
        decreases len - k,
    {
        match &digest[k] {
            DigestItem::PreRuntime(claim) => {
                if pre_runtime.is_some() {
                    several_pre_runtime = true;
                    assert(pre_runtime_at(digest@, pre_runtime_index) && pre_runtime_at(
                        digest@,
                        k as int,
                    ));
                } else {
                    pre_runtime = Some(*claim);
                    proof {
                        pre_runtime_index = k as int;
                    }
                }
            },
            DigestItem::EpochChange(announcement) => {
                if epoch_change.is_some() {
                    several_epoch_change = true;
                    assert(epoch_change_at(digest@, epoch_change_index) && epoch_change_at(
                        digest@,
                        k as int,
                    ));
                } else {
                    epoch_change = Some(announcement);
                    proof {
                        epoch_change_index = k as int;
                    }
                }
            },
            _ => {},
        }
        k += 1;
    }
    let pre_runtime: PreDigest = match pre_runtime {
        Some(claim) => claim,
        None => return Err(Error::NoPreRuntimeDigest),
    };
    if several_pre_runtime {
        return Err(Error::MultiplePreRuntimeDigests);
    }
    if several_epoch_change {
        return Err(Error::MultipleEpochChangeDigests);
    }
    Ok(HeaderInfo { seal_signature, pre_runtime, epoch_change })
}

} // verus!
