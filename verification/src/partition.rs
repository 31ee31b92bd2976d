use vstd::prelude::*;

use crate::schema::PrimitiveType;

verus! {

/// A transform from a source column value to a partition value.
#[derive(Debug, Clone, Copy, PartialEq, Eq, Structural)]
pub enum Transform {
    /// The source value itself.
    Identity,
    /// Years since the epoch.
    Year,
    /// Months since the epoch.
    Month,
    /// Days since the epoch.
    Day,
    /// Hours since the epoch.
    Hour,
    /// A hash of the source value, modulo the bucket count.
    Bucket(u32),
    /// The source value truncated to the given width.
    Truncate(u32),
    /// Always null.
    Void,
}

impl Transform {
    /// Whether the transform preserves the order of its source values.
    /// Only a monotone transform lets file-level bounds be projected
    /// through it when pruning.
    pub fn is_monotone(&self) -> (r: bool)
        ensures
            r == match *self {
                Transform::Identity => true,
                Transform::Year => true,
                Transform::Month => true,
                Transform::Day => true,
                Transform::Hour => true,
                Transform::Bucket(_) => false,
                Transform::Truncate(_) => true,
                Transform::Void => false,
            },
    {
        match self {
            Transform::Identity => true,
            Transform::Year => true,
            Transform::Month => true,
            Transform::Day => true,
            Transform::Hour => true,
            Transform::Bucket(_) => false,
            Transform::Truncate(_) => true,
            Transform::Void => false,
        }
    }

    /// The type of the partition values the transform produces from source
    /// values of the given type: the time-unit and bucket transforms count
    /// in 32-bit integers, the others keep the source type.
    pub fn result_type(&self, source: PrimitiveType) -> (r: PrimitiveType)
        ensures
            r == spec_result_type(*self, source),
    {
        match self {
            Transform::Year => PrimitiveType::Int,
            Transform::Month => PrimitiveType::Int,
            Transform::Day => PrimitiveType::Int,
            Transform::Hour => PrimitiveType::Int,
            Transform::Bucket(_) => PrimitiveType::Int,
            Transform::Identity => source,
            Transform::Truncate(_) => source,
            Transform::Void => source,
        }
    }
}

/// The type of the partition values a transform produces.
pub open spec fn spec_result_type(t: Transform, source: PrimitiveType) -> PrimitiveType {
    match t {
        Transform::Year => PrimitiveType::Int,
        Transform::Month => PrimitiveType::Int,
        Transform::Day => PrimitiveType::Int,
        Transform::Hour => PrimitiveType::Int,
        Transform::Bucket(_) => PrimitiveType::Int,
        Transform::Identity => source,
        Transform::Truncate(_) => source,
        Transform::Void => source,
    }
}

/// A partition field: a source column, the transform applied to it, and the
/// name and identifier of the resulting partition column.
#[derive(Debug, Clone, PartialEq)]
pub struct PartitionField {
    /// The identifier of the source column in the table schema.
    pub source_id: i32,
    /// The identifier of the partition field.
    pub field_id: i32,
    /// The name of the partition field.
    pub name: String,
    /// The transform from source values to partition values.
    pub transform: Transform,
}

/// An ordered list of partition fields plus the identifier under which the
/// spec entered the spec history.
#[derive(Debug, Clone, PartialEq)]
pub struct PartitionSpec {
    /// The identifier of this spec in the history.
    pub spec_id: i32,
    /// The partition fields, in spec order.
    pub fields: Vec<PartitionField>,
}

} // verus!
