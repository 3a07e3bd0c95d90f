//! The Moonshine model variant a model directory holds.

use crate::text::{contains_text, has_text};
use vstd::prelude::*;

verus! {

/// The Moonshine model sizes.
#[derive(PartialEq, Eq, Structural, Clone, Copy, Debug)]
pub enum MoonshineVariant {
    Base,
    Tiny,
}

/// The variant a model directory holds, read from the directory's name: a name containing
/// "base" holds the base model, any other the tiny one.
pub fn variant_for_directory(dir_name: &str) -> (r: MoonshineVariant)
    ensures
        r == (if contains_text(dir_name@, "base"@) {
            MoonshineVariant::Base
        } else {
            MoonshineVariant::Tiny
        }),
{
    if has_text(dir_name, "base") {
        MoonshineVariant::Base
    } else {
        MoonshineVariant::Tiny
    }
}

} // verus!
