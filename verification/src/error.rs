//! Reasons for refusing an addon.

use vstd::prelude::*;

verus! {

/// Why an addon cannot be mounted. Each of these is fatal.
#[derive(Debug)]
pub enum AddonError {
    /// A numeric verity parameter is not a 64-bit number.
    InvalidNumber { name: String, field: String, value: String },
    /// A textual verity parameter is absent.
    MissingField { name: String, field: String },
    /// A numeric verity parameter is absent or zero.
    MissingOrZero { name: String, field: String },
    /// No block device carries the serial of the addon.
    NoDevice { name: String, serial: String },
    /// The device of the addon has no first partition.
    MissingDataPartition { dev: String },
    /// The device of the addon has no second partition.
    MissingHashPartition { dev: String },
}

/// The mathematical counterpart of [`AddonError`].
pub enum AddonErrorView {
    InvalidNumber { name: Seq<char>, field: Seq<char>, value: Seq<char> },
    MissingField { name: Seq<char>, field: Seq<char> },
    MissingOrZero { name: Seq<char>, field: Seq<char> },
    NoDevice { name: Seq<char>, serial: Seq<char> },
    MissingDataPartition { dev: Seq<char> },
    MissingHashPartition { dev: Seq<char> },
}

impl View for AddonError {
    type V = AddonErrorView;

    open spec fn view(&self) -> AddonErrorView {
        match *self {
            AddonError::InvalidNumber { name, field, value } => AddonErrorView::InvalidNumber {
                name: name@,
                field: field@,
                value: value@,
            },
            AddonError::MissingField { name, field } => AddonErrorView::MissingField {
                name: name@,
                field: field@,
            },
            AddonError::MissingOrZero { name, field } => AddonErrorView::MissingOrZero {
                name: name@,
                field: field@,
            },
            AddonError::NoDevice { name, serial } => AddonErrorView::NoDevice {
                name: name@,
                serial: serial@,
            },
            AddonError::MissingDataPartition { dev } => AddonErrorView::MissingDataPartition {
                dev: dev@,
            },
            AddonError::MissingHashPartition { dev } => AddonErrorView::MissingHashPartition {
                dev: dev@,
            },
        }
    }
}

impl AddonErrorView {
    /// The text with which the machine is brought down.
    pub open spec fn message(self) -> Seq<char> {
        match self {
            AddonErrorView::InvalidNumber { name, field, value } => "addon "@ + name
                + ": invalid verity_params "@ + field + "="@ + value,
            AddonErrorView::MissingField { name, field } => "addon "@ + name
                + ": verity_params missing "@ + field,
            AddonErrorView::MissingOrZero { name, field } => "addon "@ + name
                + ": verity_params missing or zero "@ + field,
            AddonErrorView::NoDevice { name, serial } => "addon "@ + name
                + ": no block device with serial "@ + serial,
            AddonErrorView::MissingDataPartition { dev } => "addon device "@ + dev
                + ": missing data partition (1)"@,
            AddonErrorView::MissingHashPartition { dev } => "addon device "@ + dev
                + ": missing hash partition (2)"@,
        }
    }
}

impl AddonError {
    /// The text with which the machine is brought down.
    pub fn message(&self) -> (res: String)
        ensures
            res@ == self@.message(),
    {
        match self {
            AddonError::InvalidNumber { name, field, value } => "addon ".to_owned().concat(
                name.as_str(),
            ).concat(": invalid verity_params ").concat(field.as_str()).concat("=").concat(
                value.as_str(),
            ),
            AddonError::MissingField { name, field } => "addon ".to_owned().concat(
                name.as_str(),
            ).concat(": verity_params missing ").concat(field.as_str()),
            AddonError::MissingOrZero { name, field } => "addon ".to_owned().concat(
                name.as_str(),
            ).concat(": verity_params missing or zero ").concat(field.as_str()),
            AddonError::NoDevice { name, serial } => "addon ".to_owned().concat(
                name.as_str(),
            ).concat(": no block device with serial ").concat(serial.as_str()),
            AddonError::MissingDataPartition { dev } => "addon device ".to_owned().concat(
                dev.as_str(),
            ).concat(": missing data partition (1)"),
            AddonError::MissingHashPartition { dev } => "addon device ".to_owned().concat(
                dev.as_str(),
            ).concat(": missing hash partition (2)"),
        }
    }
}

} // verus!
