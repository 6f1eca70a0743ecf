//! The marker that keeps [`crate::image::AsItem`] implemented by the
//! library's item types only.

use vstd::prelude::*;

verus! {

pub trait Sealed {}

impl Sealed for crate::model::Item {}

impl Sealed for crate::model::ItemWithRarity {}

impl Sealed for crate::model::ItemExt {}

impl Sealed for crate::model::ItemInfo {}

} // verus!
