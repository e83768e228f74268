//! Translation of the native layer's raw integer status codes into a closed
//! result enumeration. The translation is pure and total: every recognized
//! code maps to its documented variant, and every other code maps to the
//! catch-all variant rather than panicking or being coerced to success.

use vstd::prelude::*;

verus! {

/// The closed set of native status outcomes. Non-negative codes are
/// success/informational; negative codes are errors. Any code outside the
/// recognized table is surfaced as `INTERNAL_ERROR_BAD_VK_RESULT`.
#[allow(non_camel_case_types)]
#[derive(Copy, Clone, Debug, Hash, PartialEq, Eq, Structural)]
pub enum VkResult {
    VK_SUCCESS,
    VK_NOT_READY,
    VK_TIMEOUT,
    VK_EVENT_SET,
    VK_EVENT_RESET,
    VK_INCOMPLETE,
    VK_SUBOPTIMAL_KHR,
    VK_ERROR_OUT_OF_HOST_MEMORY,
    VK_ERROR_OUT_OF_DEVICE_MEMORY,
    VK_ERROR_INITIALIZATION_FAILED,
    VK_ERROR_DEVICE_LOST,
    VK_ERROR_MEMORY_MAP_FAILED,
    VK_ERROR_LAYER_NOT_PRESENT,
    VK_ERROR_EXTENSION_NOT_PRESENT,
    VK_ERROR_FEATURE_NOT_PRESENT,
    VK_ERROR_INCOMPATIBLE_DRIVER,
    VK_ERROR_TOO_MANY_OBJECTS,
    VK_ERROR_FORMAT_NOT_SUPPORTED,
    VK_ERROR_SURFACE_LOST_KHR,
    VK_ERROR_OUT_OF_DATE_KHR,
    VK_ERROR_INCOMPATIBLE_DISPLAY_KHR,
    VK_ERROR_NATIVE_WINDOW_IN_USE_KHR,
    VK_ERROR_VALIDATION_FAILED_EXT,
    INTERNAL_ERROR_BAD_VK_RESULT,
}

/// The codes the translation table recognizes: the success/informational
/// codes `0..=5` and the error codes `-11..=-1`.
pub open spec fn recognized_code(code: int) -> bool {
    0 <= code <= 5 || -11 <= code <= -1
}

/// The documented translation table, as a mathematical function of the code.
pub open spec fn spec_from_code(code: int) -> VkResult {
    if code == 0 {
        VkResult::VK_SUCCESS
    } else if code == 1 {
        VkResult::VK_NOT_READY
    } else if code == 2 {
        VkResult::VK_TIMEOUT
    } else if code == 3 {
        VkResult::VK_EVENT_SET
    } else if code == 4 {
        VkResult::VK_EVENT_RESET
    } else if code == 5 {
        VkResult::VK_INCOMPLETE
    } else if code == -1 {
        VkResult::VK_ERROR_OUT_OF_HOST_MEMORY
    } else if code == -2 {
        VkResult::VK_ERROR_OUT_OF_DEVICE_MEMORY
    } else if code == -3 {
        VkResult::VK_ERROR_INITIALIZATION_FAILED
    } else if code == -4 {
        VkResult::VK_ERROR_DEVICE_LOST
    } else if code == -5 {
        VkResult::VK_ERROR_MEMORY_MAP_FAILED
    } else if code == -6 {
        VkResult::VK_ERROR_LAYER_NOT_PRESENT
    } else if code == -7 {
        VkResult::VK_ERROR_EXTENSION_NOT_PRESENT
    } else if code == -8 {
        VkResult::VK_ERROR_FEATURE_NOT_PRESENT
    } else if code == -9 {
        VkResult::VK_ERROR_INCOMPATIBLE_DRIVER
    } else if code == -10 {
        VkResult::VK_ERROR_TOO_MANY_OBJECTS
    } else if code == -11 {
        VkResult::VK_ERROR_FORMAT_NOT_SUPPORTED
    } else {
        VkResult::INTERNAL_ERROR_BAD_VK_RESULT
    }
}

impl VkResult {
    /// Whether this outcome is an error. The success/informational variants
    /// are not errors; every named error variant is, and so is the catch-all
    /// for unrecognized codes (an unknown code is never coerced to success).
    pub open spec fn spec_is_error(self) -> bool {
        match self {
            VkResult::VK_SUCCESS => false,
            VkResult::VK_NOT_READY => false,
            VkResult::VK_TIMEOUT => false,
            VkResult::VK_EVENT_SET => false,
            VkResult::VK_EVENT_RESET => false,
            VkResult::VK_INCOMPLETE => false,
            VkResult::VK_SUBOPTIMAL_KHR => false,
            _ => true,
        }
    }

    /// Translates a raw native status code into the closed enumeration.
    /// Pure and total: it never fails, whatever the code.
    pub fn from_i32(r: i32) -> (res: VkResult)
        ensures
            res == spec_from_code(r as int),
    {
        match r {
            0 => VkResult::VK_SUCCESS,
            1 => VkResult::VK_NOT_READY,
            2 => VkResult::VK_TIMEOUT,
            3 => VkResult::VK_EVENT_SET,
            4 => VkResult::VK_EVENT_RESET,
            5 => VkResult::VK_INCOMPLETE,
            -1 => VkResult::VK_ERROR_OUT_OF_HOST_MEMORY,
            -2 => VkResult::VK_ERROR_OUT_OF_DEVICE_MEMORY,
            -3 => VkResult::VK_ERROR_INITIALIZATION_FAILED,
            -4 => VkResult::VK_ERROR_DEVICE_LOST,
            -5 => VkResult::VK_ERROR_MEMORY_MAP_FAILED,
            -6 => VkResult::VK_ERROR_LAYER_NOT_PRESENT,
            -7 => VkResult::VK_ERROR_EXTENSION_NOT_PRESENT,
            -8 => VkResult::VK_ERROR_FEATURE_NOT_PRESENT,
            -9 => VkResult::VK_ERROR_INCOMPATIBLE_DRIVER,
            -10 => VkResult::VK_ERROR_TOO_MANY_OBJECTS,
            -11 => VkResult::VK_ERROR_FORMAT_NOT_SUPPORTED,
            _ => VkResult::INTERNAL_ERROR_BAD_VK_RESULT,
        }
    }

    /// Whether this outcome is an error, as executable code.
    pub fn is_error(&self) -> (b: bool)
        ensures
            b == self.spec_is_error(),
    {
        match self {
            VkResult::VK_SUCCESS => false,
            VkResult::VK_NOT_READY => false,
            VkResult::VK_TIMEOUT => false,
            VkResult::VK_EVENT_SET => false,
            VkResult::VK_EVENT_RESET => false,
            VkResult::VK_INCOMPLETE => false,
            VkResult::VK_SUBOPTIMAL_KHR => false,
            _ => true,
        }
    }
}

/// Totality of the status translation: the catch-all variant comes out
/// exactly for the codes outside the recognized table, and a translated
/// outcome is an error exactly when its code is negative or unrecognized.
pub proof fn lemma_status_translation_total(code: int)
    ensures
        recognized_code(code) <==> spec_from_code(code) != VkResult::INTERNAL_ERROR_BAD_VK_RESULT,
        spec_from_code(code).spec_is_error() <==> (code < 0 || !recognized_code(code)),
{
}

/// The translation is one-to-one on recognized codes: distinct recognized
/// codes map to distinct variants.
pub proof fn lemma_status_translation_injective(a: int, b: int)
    requires
        recognized_code(a),
        recognized_code(b),
        a != b,
    ensures
        spec_from_code(a) != spec_from_code(b),
{
}

} // verus!
