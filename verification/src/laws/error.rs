//! Laws of refusals.

use vstd::prelude::*;
use crate::error::AddonErrorView;

verus! {

/// A refusal names the addon and, of its parameters, the field and what stands
/// there.
pub proof fn law_parameter_messages(name: Seq<char>, field: Seq<char>, value: Seq<char>)
    ensures
        (AddonErrorView::InvalidNumber { name, field, value }).message() == "addon "@ + name
            + ": invalid verity_params "@ + field + "="@ + value,
        (AddonErrorView::MissingField { name, field }).message() == "addon "@ + name
            + ": verity_params missing "@ + field,
        (AddonErrorView::MissingOrZero { name, field }).message() == "addon "@ + name
            + ": verity_params missing or zero "@ + field,
{
}

/// A refusal for want of a device names the addon and the serial that was looked
/// for; one for want of a partition names the device.
pub proof fn law_device_messages(name: Seq<char>, serial: Seq<char>, dev: Seq<char>)
    ensures
        (AddonErrorView::NoDevice { name, serial }).message() == "addon "@ + name
            + ": no block device with serial "@ + serial,
        (AddonErrorView::MissingDataPartition { dev }).message() == "addon device "@ + dev
            + ": missing data partition (1)"@,
        (AddonErrorView::MissingHashPartition { dev }).message() == "addon device "@ + dev
            + ": missing hash partition (2)"@,
{
}

} // verus!
