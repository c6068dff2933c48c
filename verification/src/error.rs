//! Why a start-up sequence ends before the application is ready.

use vstd::prelude::*;

verus! {

/// What a start-up sequence can find missing. Each of these ends it.
#[derive(Clone, Copy, Debug, PartialEq, Eq, Structural)]
pub enum InitError {
    /// Validation was asked for and the validation layer is not installed.
    MissingValidationLayer,
    /// No physical device meets the requirements.
    NoSuitableDevice,
    /// The device has no queue family for graphics, or none that presents to the surface.
    MissingQueueFamilies,
}

impl InitError {
    /// The text that describes this failure.
    pub open spec fn spec_message(self) -> Seq<char> {
        match self {
            InitError::MissingValidationLayer => {
                "Validation layer requested not supported. You may need to install them"@
            },
            InitError::NoSuitableDevice => "Failed to find suitable physical device."@,
            InitError::MissingQueueFamilies => "Missing required queue families."@,
        }
    }

    /// The text that describes this failure, for whoever reports it.
    pub fn message(&self) -> (text: String)
        ensures
            text@ == self.spec_message(),
    {
        match self {
            InitError::MissingValidationLayer => {
                "Validation layer requested not supported. You may need to install them".to_owned()
            },
            InitError::NoSuitableDevice => "Failed to find suitable physical device.".to_owned(),
            InitError::MissingQueueFamilies => "Missing required queue families.".to_owned(),
        }
    }
}

} // verus!
