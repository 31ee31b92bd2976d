use vstd::prelude::*;
use vstd::string::StringExecFns;

verus! {

/// A primitive logical type of the table schema.
#[derive(Debug, Clone, Copy, PartialEq, Eq, Structural)]
pub enum PrimitiveType {
    /// True or false.
    Boolean,
    /// 32-bit signed integer.
    Int,
    /// 64-bit signed integer.
    Long,
    /// 32-bit floating point (values of this type never enter this crate;
    /// the tag is carried for schemas only).
    Float,
    /// 64-bit floating point (tag only, as for `Float`).
    Double,
    /// Days since the Unix epoch.
    Date,
    /// Microseconds since midnight.
    Time,
    /// Microseconds since the Unix epoch, without a zone.
    Timestamp,
    /// Microseconds since the Unix epoch, in UTC.
    Timestamptz,
    /// A character string.
    Text,
    /// A universally unique identifier.
    Uuid,
    /// A variable-length byte string.
    Binary,
}

/// The name of the primitive type inside the generated record schemas.
pub open spec fn spec_primitive_name(t: PrimitiveType) -> Seq<char> {
    match t {
        PrimitiveType::Boolean => "boolean"@,
        PrimitiveType::Int => "int"@,
        PrimitiveType::Long => "long"@,
        PrimitiveType::Float => "float"@,
        PrimitiveType::Double => "double"@,
        PrimitiveType::Date => "date"@,
        PrimitiveType::Time => "time"@,
        PrimitiveType::Timestamp => "timestamp"@,
        PrimitiveType::Timestamptz => "timestamptz"@,
        PrimitiveType::Text => "string"@,
        PrimitiveType::Uuid => "uuid"@,
        PrimitiveType::Binary => "binary"@,
    }
}

impl PrimitiveType {
    /// The name of the type inside the generated record schemas.
    pub fn name(&self) -> (r: &'static str)
        ensures
            r@ == spec_primitive_name(*self),
    {
        match self {
            PrimitiveType::Boolean => "boolean",
            PrimitiveType::Int => "int",
            PrimitiveType::Long => "long",
            PrimitiveType::Float => "float",
            PrimitiveType::Double => "double",
            PrimitiveType::Date => "date",
            PrimitiveType::Time => "time",
            PrimitiveType::Timestamp => "timestamp",
            PrimitiveType::Timestamptz => "timestamptz",
            PrimitiveType::Text => "string",
            PrimitiveType::Uuid => "uuid",
            PrimitiveType::Binary => "binary",
        }
    }

    /// The primitive type with the given name; fails on any other name.
    pub fn parse(s: &str) -> (r: Result<PrimitiveType, crate::error::Error>)
        ensures
            r matches Ok(t) ==> spec_primitive_name(t) == s@,
            r is Ok <==> (s@ == "boolean"@ || s@ == "int"@ || s@ == "long"@ || s@ == "float"@
                || s@ == "double"@ || s@ == "date"@ || s@ == "time"@ || s@ == "timestamp"@
                || s@ == "timestamptz"@ || s@ == "string"@ || s@ == "uuid"@ || s@
                == "binary"@),
            r matches Err(e) ==> e == crate::error::Error::Unsupported,
    {
        let owned = s.to_owned();
        if owned.eq(&String::from_str("boolean")) {
            Ok(PrimitiveType::Boolean)
        } else if owned.eq(&String::from_str("int")) {
            Ok(PrimitiveType::Int)
        } else if owned.eq(&String::from_str("long")) {
            Ok(PrimitiveType::Long)
        } else if owned.eq(&String::from_str("float")) {
            Ok(PrimitiveType::Float)
        } else if owned.eq(&String::from_str("double")) {
            Ok(PrimitiveType::Double)
        } else if owned.eq(&String::from_str("date")) {
            Ok(PrimitiveType::Date)
        } else if owned.eq(&String::from_str("time")) {
            Ok(PrimitiveType::Time)
        } else if owned.eq(&String::from_str("timestamp")) {
            Ok(PrimitiveType::Timestamp)
        } else if owned.eq(&String::from_str("timestamptz")) {
            Ok(PrimitiveType::Timestamptz)
        } else if owned.eq(&String::from_str("string")) {
            Ok(PrimitiveType::Text)
        } else if owned.eq(&String::from_str("uuid")) {
            Ok(PrimitiveType::Uuid)
        } else if owned.eq(&String::from_str("binary")) {
            Ok(PrimitiveType::Binary)
        } else {
            Err(crate::error::Error::Unsupported)
        }
    }
}

/// A field type. Only primitive types flow through this crate; nested
/// struct, list and map types belong to the host engine.
#[derive(Debug, Clone, Copy, PartialEq, Eq, Structural)]
pub enum AllType {
    /// A primitive type.
    Primitive(PrimitiveType),
}

impl AllType {
    /// The primitive type below the tag.
    pub fn primitive(&self) -> (r: PrimitiveType)
        ensures
            *self == AllType::Primitive(r),
    {
        match self {
            AllType::Primitive(p) => *p,
        }
    }
}

/// A named field of a table schema, with its stable identifier.
#[derive(Debug, Clone, PartialEq)]
pub struct StructField {
    /// The stable field identifier; never reused once assigned.
    pub id: i32,
    /// The field name; may change across schema versions.
    pub name: String,
    /// Whether a value is required.
    pub required: bool,
    /// The type of the field.
    pub field_type: AllType,
    /// Documentation of the field.
    pub doc: Option<String>,
}

/// The ordered fields of a schema.
#[derive(Debug, Clone, PartialEq)]
pub struct SchemaStruct {
    /// The fields, in schema order.
    pub fields: Vec<StructField>,
}

/// The first field with the given identifier, if any.
pub open spec fn spec_field_by_id(fields: Seq<StructField>, id: i32) -> Option<StructField>
    decreases fields.len(),
{
    if fields.len() == 0 {
        None
    } else if fields[0].id == id {
        Some(fields[0])
    } else {
        spec_field_by_id(fields.drop_first(), id)
    }
}

impl SchemaStruct {
    /// Looks a field up by its stable identifier.
    pub fn get(&self, id: i32) -> (r: Option<&StructField>)
        ensures
            match r {
                Some(f) => spec_field_by_id(self.fields@, id) == Some(*f),
                None => spec_field_by_id(self.fields@, id) is None,
            },
    {
        let n = self.fields.len();
        let mut i: usize = 0;
        assert(self.fields@.skip(0) =~= self.fields@);
        while i < n
            invariant
                n == self.fields@.len(),
                0 <= i <= n,
                spec_field_by_id(self.fields@, id) == spec_field_by_id(
                    self.fields@.skip(i as int),
                    id,
                ),
                forall|j: int| 0 <= j < i ==> #[trigger] self.fields@[j].id != id,
            decreases n - i,
        {
            assert(self.fields@.skip(i as int)[0] == self.fields@[i as int]);
            if self.fields[i].id == id {
                return Some(&self.fields[i]);
            }
            assert(self.fields@.skip(i as int).drop_first() =~= self.fields@.skip(i + 1));
            assert(spec_field_by_id(self.fields@.skip(i as int), id) == spec_field_by_id(
                self.fields@.skip(i + 1),
                id,
            )) by {
                assert(self.fields@.skip(i as int).len() > 0);
                assert(self.fields@.skip(i as int)[0].id != id);
            }
            i += 1;
        }
        assert(self.fields@.skip(n as int).len() == 0);
        None
    }
}

/// A table schema in the second format version: ordered fields plus the
/// schema identifier under which it entered the schema history.
#[derive(Debug, Clone, PartialEq)]
pub struct SchemaV2 {
    /// The identifier of this schema in the history.
    pub schema_id: i32,
    /// Field identifiers that together identify a row, if declared.
    pub identifier_field_ids: Option<Vec<i32>>,
    /// The ordered fields.
    pub struct_fields: SchemaStruct,
}

/// A schema of any supported format version.
#[derive(Debug, Clone, PartialEq)]
pub enum Schema {
    /// A schema in the second format version.
    V2(SchemaV2),
}

} // verus!
