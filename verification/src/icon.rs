//! Window icons.

use crate::error::ErrorMessage;
use vstd::prelude::*;
use winit::window::{BadIcon, Icon};

verus! {

/// An outside type: a window icon.
#[verifier::external_type_specification]
#[verifier::external_body]
pub struct ExIcon(Icon);

/// An outside type: why there is no icon.
#[verifier::external_type_specification]
#[verifier::external_body]
pub struct ExBadIcon(BadIcon);

/// The bytes are those of `width * height` pixels with four channels each.
pub open spec fn is_pixel_data(byte_count: nat, width: u32, height: u32) -> bool {
    &&& byte_count % 4 == 0
    &&& byte_count / 4 == width * height
}

/// What `Icon::from_rgba` of `winit` can answer to these pixels and dimensions, on
/// one system or another.
pub uninterp spec fn icon_outcomes(rgba: Seq<u8>, width: u32, height: u32) -> Set<
    Result<Icon, BadIcon>,
>;

/// Calls `Icon::from_rgba` of `winit`. The answer is one of those that it has for
/// these pixels and dimensions. It refuses data that do not hold as many pixels as
/// the dimensions say. Where the system builds icons of its own it can refuse
/// others too, so success is not claimed of data that fit. It multiplies the
/// dimensions in 32 bits once the number of bytes is a multiple of four.
#[verifier::external_body]
fn icon_from_rgba(rgba: Vec<u8>, width: u32, height: u32) -> (result: Result<Icon, BadIcon>)
    requires
        rgba@.len() % 4 == 0 ==> width * height <= u32::MAX,
    ensures
        icon_outcomes(rgba@, width, height).contains(result),
        result is Ok ==> is_pixel_data(rgba@.len(), width, height),
{
    Icon::from_rgba(rgba, width, height)
}

/// A result is the outcome of building an icon, with a message for the user where
/// it failed.
pub open spec fn describes(
    outcome: Result<Icon, BadIcon>,
    result: Result<Icon, ErrorMessage<BadIcon>>,
) -> bool {
    match outcome {
        Ok(icon) => result == Ok::<Icon, ErrorMessage<BadIcon>>(icon),
        Err(cause) => {
            &&& result is Err
            &&& result->Err_0.message@ == "Icon data was invalid"@
            &&& result->Err_0.cause == cause
        },
    }
}

/// The outcome of building an icon, with a message for the user where it failed.
pub fn describe_icon_outcome(outcome: Result<Icon, BadIcon>) -> (result: Result<
    Icon,
    ErrorMessage<BadIcon>,
>)
    ensures
        describes(outcome, result),
{
    match outcome {
        Ok(icon) => Ok(icon),
        Err(cause) => Err(ErrorMessage::msg_with_cause("Icon data was invalid", cause)),
    }
}

/// Builds an icon from pixels with a byte each for red, green, blue and alpha.
/// The result is what the system answers to exactly these pixels and dimensions.
/// What it refuses beyond data of the wrong length is left open.
pub fn icon_from_rgba_pixels(data: Vec<u8>, width: u32, height: u32) -> (result: Result<
    Icon,
    ErrorMessage<BadIcon>,
>)
    requires
        data@.len() % 4 == 0 ==> width * height <= u32::MAX,
    ensures
        exists|outcome: Result<Icon, BadIcon>| #[trigger]
            icon_outcomes(data@, width, height).contains(outcome) && describes(outcome, result),
        result is Ok ==> is_pixel_data(data@.len(), width, height),
        result matches Err(error) ==> error.message@ == "Icon data was invalid"@,
{
    describe_icon_outcome(icon_from_rgba(data, width, height))
}

/// Data hold the pixels of an icon if they have four bytes for each of them.
pub proof fn law_four_bytes_for_each_pixel(byte_count: nat, width: u32, height: u32)
    ensures
        is_pixel_data(byte_count, width, height) <==> byte_count == 4 * (width * height),
{
}

/// An icon that was built is handed on as it is, and so is the cause where none was,
/// with the message that says so.
pub proof fn law_icon_handed_on(
    icon: Icon,
    cause: BadIcon,
    result: Result<Icon, ErrorMessage<BadIcon>>,
)
    ensures
        describes(Ok(icon), result) <==> result == Ok::<Icon, ErrorMessage<BadIcon>>(icon),
        describes(Err(cause), result) ==> result is Err && result->Err_0.cause == cause
            && result->Err_0.message@ == "Icon data was invalid"@,
{
}

} // verus!
