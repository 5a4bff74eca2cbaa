//! Declarations of the USB HID types that the core reads and carries.
use vstd::prelude::*;
use usb_device::UsbError;
use usbd_human_interface_device::page::Keyboard;
use usbd_human_interface_device::UsbHidError;

verus! {

/// The keyboard usage page: a plain enumeration of usage codes, read by
/// variant.
#[verifier::external_type_specification]
pub struct ExKeyboard(Keyboard);

/// The error of the HID class's report exchange, read by variant.
#[verifier::external_type_specification]
pub struct ExUsbHidError(UsbHidError);

/// The USB device error carried inside `UsbHidError::UsbError`, read by
/// variant.
#[verifier::external_type_specification]
pub struct ExUsbError(UsbError);

} // verus!
