//! conrod types that the library carries without looking inside them.
use vstd::prelude::*;

verus! {

/// conrod's identifier of an image in the application's image map.
#[verifier::external_type_specification]
#[verifier::external_body]
pub struct ExImageId(conrod::image::Id);

/// conrod's identifier of a font in the `Ui`'s font map.
#[verifier::external_type_specification]
#[verifier::external_body]
pub struct ExFontId(conrod::text::font::Id);

/// A raw input event that conrod's `Ui` consumes.
#[verifier::external_type_specification]
#[verifier::external_body]
pub struct ExInput(conrod::event::Input);

} // verus!
