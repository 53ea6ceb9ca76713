//! The run over several devices: which devices are targeted, which
//! operation they get, and what the run reports once every workflow ended.

use crate::session::IMAGE_LEN;
use crate::workflow::Operation;
use vstd::prelude::*;

verus! {

/// USB vendor id of the controller.
pub const VENDOR_ID: u16 = 0x16c0;

/// USB product id of the controller.
pub const PRODUCT_ID: u16 = 0x05e1;

/// How the devices of a run were chosen.
#[derive(Clone, Copy, Debug, PartialEq, Eq)]
pub enum Selection {
    /// Every connected device.
    Broadcast,
    /// The devices that the caller named.
    Explicit,
    /// The one connected device.
    Automatic,
}

/// Why a run failed as a whole.
#[derive(Clone, Copy, Debug, PartialEq, Eq)]
pub enum RunError {
    /// More than one device is connected and none was chosen.
    TooManyDevices,
    /// No device is targeted.
    NoDevices,
    /// The image file holds fewer than 32768 bytes.
    ImageTooSmall,
    /// The image file holds more than 32768 bytes.
    ImageTooLarge,
    /// So many devices failed.
    DevicesFailed(usize),
}

/// Whether a USB serial port with these descriptors is a controller.
pub open spec fn supported(
    vid: u16,
    pid: u16,
    manufacturer: Option<Seq<char>>,
    product: Option<Seq<char>>,
) -> bool {
    &&& vid == VENDOR_ID
    &&& pid == PRODUCT_ID
    &&& manufacturer == Some("gekkio.fi"@)
    &&& (product == Some("GB-LIVE32"@) || product == Some("GB_LIVE32"@))
}

/// The descriptor text as a sequence of characters.
pub open spec fn text_of(text: Option<String>) -> Option<Seq<char>> {
    match text {
        Some(s) => Some(s@),
        None => None,
    }
}

/// Tells whether a text is there and equal to `wanted`.
fn text_is(text: &Option<String>, wanted: &str) -> (same: bool)
    ensures
        same == (text_of(*text) == Some(wanted@)),
{
    match text {
        Some(s) => {
            let wanted_text = wanted.to_owned();
            *s == wanted_text
        },
        None => false,
    }
}

/// Tells whether a USB serial port with these descriptors is a controller:
/// by vendor id, product id, manufacturer and one of two product names.
pub fn is_supported_device(
    vid: u16,
    pid: u16,
    manufacturer: &Option<String>,
    product: &Option<String>,
) -> (result: bool)
    ensures
        result == supported(vid, pid, text_of(*manufacturer), text_of(*product)),
{
    vid == VENDOR_ID && pid == PRODUCT_ID && text_is(manufacturer, "gekkio.fi") && (text_is(
        product,
        "GB-LIVE32",
    ) || text_is(product, "GB_LIVE32"))
}

/// Checks the number of targeted devices. With automatic selection more
/// than one device is ambiguous; in every mode at least one is needed.
pub fn check_targets(selection: Selection, count: usize) -> (result: Result<(), RunError>)
    ensures
        result == if selection == Selection::Automatic && count > 1 {
            Err::<(), RunError>(RunError::TooManyDevices)
        } else if count == 0 {
            Err::<(), RunError>(RunError::NoDevices)
        } else {
            Ok::<(), RunError>(())
        },
{
    let ambiguous = match selection {
        Selection::Automatic => count > 1,
        _ => false,
    };
    if ambiguous {
        Err(RunError::TooManyDevices)
    } else if count == 0 {
        Err(RunError::NoDevices)
    } else {
        Ok(())
    }
}

/// Makes the operation of a run from the bytes of the image file, if one
/// was given: an upload needs exactly 32768 bytes.
pub fn choose_operation(image: Option<Vec<u8>>) -> (result: Result<Operation, RunError>)
    ensures
        match image {
            None => result matches Ok(Operation::Status),
            Some(bytes) => if bytes@.len() < IMAGE_LEN {
                result matches Err(RunError::ImageTooSmall)
            } else if bytes@.len() > IMAGE_LEN {
                result matches Err(RunError::ImageTooLarge)
            } else {
                result matches Ok(Operation::Upload(data)) && data@ == bytes@
            },
        },
{
    match image {
        None => Ok(Operation::Status),
        Some(bytes) => {
            if bytes.len() < IMAGE_LEN {
                Err(RunError::ImageTooSmall)
            } else if bytes.len() > IMAGE_LEN {
                Err(RunError::ImageTooLarge)
            } else {
                Ok(Operation::Upload(bytes))
            }
        },
    }
}

/// Number of devices whose workflow failed; `true` marks a failure.
pub open spec fn failed_count(failed: Seq<bool>) -> nat
    decreases failed.len(),
{
    if failed.len() == 0 {
        0
    } else {
        failed_count(failed.drop_last()) + if failed.last() {
            1nat
        } else {
            0nat
        }
    }
}

/// No more devices fail than there are.
pub proof fn lemma_failed_count_bound(failed: Seq<bool>)
    ensures
        failed_count(failed) <= failed.len(),
    decreases failed.len(),
{
    if failed.len() > 0 {
        lemma_failed_count_bound(failed.drop_last());
    }
}

/// A run in which exactly one device failed counts one failure, wherever
/// that device stands.
pub proof fn lemma_one_failure(failed: Seq<bool>, index: int)
    requires
        0 <= index < failed.len(),
        forall|i: int| 0 <= i < failed.len() ==> (failed[i] <==> i == index),
    ensures
        failed_count(failed) == 1,
    decreases failed.len(),
{
    let rest = failed.drop_last();
    if index == failed.len() - 1 {
        lemma_no_failure(rest);
    } else {
        lemma_one_failure(rest, index);
    }
}

/// A run in which no device failed counts no failure.
pub proof fn lemma_no_failure(failed: Seq<bool>)
    requires
        forall|i: int| 0 <= i < failed.len() ==> !failed[i],
    ensures
        failed_count(failed) == 0,
    decreases failed.len(),
{
    if failed.len() > 0 {
        lemma_no_failure(failed.drop_last());
    }
}

/// Sums up a run once every workflow ended; `true` marks a device that
/// failed. The run succeeds only if no device failed, else it reports how
/// many did.
pub fn summarize(failed: &[bool]) -> (result: Result<(), RunError>)
    ensures
        result == if failed_count(failed@) == 0 {
            Ok::<(), RunError>(())
        } else {
            Err::<(), RunError>(RunError::DevicesFailed(failed_count(failed@) as usize))
        },
{
    let mut failures: usize = 0;
    let mut index: usize = 0;
    while index < failed.len()
        invariant
            index <= failed@.len(),
            failures == failed_count(failed@.take(index as int)),
            failures <= index,
        decreases failed@.len() - index,
    {
        proof {
            assert(failed@.take(index + 1).drop_last() =~= failed@.take(index as int));
        }
        if failed[index] {
            failures += 1;
        }
        index += 1;
    }
    proof {
        assert(failed@.take(index as int) =~= failed@);
    }
    if failures > 0 {
        Err(RunError::DevicesFailed(failures))
    } else {
        Ok(())
    }
}

/// The exit status of the process: zero for a run without failures, the
/// number of failed devices where some failed, and 1 for a run that could
/// not start.
pub fn exit_status(result: Result<(), RunError>) -> (status: i32)
    ensures
        status == match result {
            Ok(_) => 0int,
            Err(RunError::DevicesFailed(count)) => if 0 < count <= i32::MAX {
                count as int
            } else {
                i32::MAX as int
            },
            Err(_) => 1int,
        },
        result.is_err() ==> status != 0,
{
    match result {
        Ok(_) => 0,
        Err(RunError::DevicesFailed(count)) => {
            if 0 < count && count <= 0x7fff_ffff {
                count as i32
            } else {
                i32::MAX
            }
        },
        Err(_) => 1,
    }
}

} // verus!
