//! What the answers of CoreAudio mean for the control of the default output
//! device.

use crate::audio_mute::AudioControlError;
use crate::audio_mute::AudioControlErrorView;
use crate::text::i32_to_decimal;
use crate::text::signed_decimal;
use vstd::prelude::*;

verus! {

/// The default output device of the system.
#[derive(Debug, Clone, Copy, PartialEq, Eq, Structural)]
pub struct MacOSAudioController {
    device_id: u32,
}

/// The words that name a status of the system.
pub open spec fn status_text(status: i32) -> Seq<char> {
    "OSStatus: "@ + signed_decimal(status as int)
}

fn status_message(status: i32) -> (r: String)
    ensures
        r@ == status_text(status),
{
    String::from_str("OSStatus: ").concat(i32_to_decimal(status).as_str())
}

impl MacOSAudioController {
    /// The id of the device.
    pub closed spec fn device(self) -> u32 {
        self.device_id
    }

    /// Makes the controller of the default output device from the system's
    /// answer to the question for that device: the status of the call, and the
    /// id that it gave. A status other than 0 is a failure, and so is the id
    /// 0, which stands for no device.
    pub fn new(status: i32, device_id: u32) -> (r: Result<Self, AudioControlError>)
        ensures
            match r {
                Ok(controller) => status == 0 && device_id != 0 && controller.device()
                    == device_id,
                Err(error) => if status != 0 {
                    error@ == AudioControlErrorView::InitializationFailed(
                        "Failed to get default output device ("@ + status_text(status) + ")"@,
                    )
                } else {
                    device_id == 0 && error@ == AudioControlErrorView::InitializationFailed(
                        "No default output device found"@,
                    )
                },
            },
    {
        if status != 0 {
            return Err(
                AudioControlError::InitializationFailed(
                    String::from_str("Failed to get default output device (").concat(
                        status_message(status).as_str(),
                    ).concat(")"),
                ),
            );
        }
        if device_id == 0 {
            return Err(
                AudioControlError::InitializationFailed(
                    String::from_str("No default output device found"),
                ),
            );
        }
        Ok(MacOSAudioController { device_id })
    }

    /// The id of the device.
    pub fn device_id(&self) -> (r: u32)
        ensures
            r == self.device(),
    {
        self.device_id
    }

    /// The value of a property that the system was asked for, from the status
    /// of the call and the value that it gave.
    pub fn get_u32_property(status: i32, value: u32) -> (r: Result<u32, AudioControlError>)
        ensures
            match r {
                Ok(read) => status == 0 && read == value,
                Err(error) => status != 0 && error@ == AudioControlErrorView::GetPropertyFailed(
                    status_text(status),
                ),
            },
    {
        if status != 0 {
            return Err(AudioControlError::GetPropertyFailed(status_message(status)));
        }
        Ok(value)
    }

    /// Whether a property was set, from the status of the call.
    pub fn set_u32_property(status: i32) -> (r: Result<(), AudioControlError>)
        ensures
            match r {
                Ok(_) => status == 0,
                Err(error) => status != 0 && error@ == AudioControlErrorView::SetPropertyFailed(
                    status_text(status),
                ),
            },
    {
        if status != 0 {
            return Err(AudioControlError::SetPropertyFailed(status_message(status)));
        }
        Ok(())
    }

    /// Whether the device is muted, from the system's answer to the question
    /// for its mute property.
    pub fn is_muted(status: i32, value: u32) -> (r: Result<bool, AudioControlError>)
        ensures
            match r {
                Ok(muted) => status == 0 && muted == (value != 0),
                Err(error) => status != 0 && error@ == AudioControlErrorView::GetPropertyFailed(
                    status_text(status),
                ),
            },
    {
        match Self::get_u32_property(status, value) {
            Ok(value) => Ok(value != 0),
            Err(error) => Err(error),
        }
    }

    /// The value of the mute property that mutes or unmutes the device.
    pub fn mute_property_value(muted: bool) -> (r: u32)
        ensures
            r == if muted {
                1u32
            } else {
                0u32
            },
    {
        if muted {
            1
        } else {
            0
        }
    }
}

} // verus!
