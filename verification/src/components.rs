//! The float-free part of the `LeafTransformMat3x3` component: its name and the Arrow
//! datatype of its values. The component value itself, nine `f32` coefficients of a 3x3
//! matrix in column-major order, is held by the application layer.
use vstd::prelude::*;

use crate::arrow::{plain_field_model, ArrowDatatype, ArrowField, DatatypeModel};
use crate::names::ComponentName;
use crate::text::owned;

verus! {

/// The fully-qualified name of the `LeafTransformMat3x3` component.
pub open spec fn leaf_transform_mat3x3_name() -> Seq<char> {
    "rerun.components.LeafTransformMat3x3"@
}

/// The Arrow datatype of a 3x3 matrix: a fixed-size list of nine non-nullable `Float32`
/// items.
pub open spec fn mat3x3_datatype() -> DatatypeModel {
    DatatypeModel::FixedSizeList(
        Box::new(plain_field_model("item"@, DatatypeModel::Float32, false)),
        9,
    )
}

/// The name of the `LeafTransformMat3x3` component.
pub fn leaf_transform_mat3x3_component_name() -> (r: ComponentName)
    ensures
        r@ == leaf_transform_mat3x3_name(),
{
    ComponentName::new("rerun.components.LeafTransformMat3x3")
}

/// The Arrow datatype of `LeafTransformMat3x3` values, that of the 3x3 matrix it wraps.
pub fn leaf_transform_mat3x3_arrow_datatype() -> (r: ArrowDatatype)
    ensures
        r@ == mat3x3_datatype(),
{
    ArrowDatatype::FixedSizeList(
        Box::new(ArrowField::new(owned("item"), ArrowDatatype::Float32, false)),
        9,
    )
}

} // verus!
