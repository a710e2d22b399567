//! Table schemas: a caller's definition checked and turned into the
//! engine's columnar schema, and the engine's schema described back.

use std::collections::HashMap;
use std::sync::Arc;

use vstd::prelude::*;
use vstd::string::*;

use arrow_schema::{DataType, Field, Schema};

use crate::ipc::{FieldDataType, SchemaDefinition, SchemaDefinitionInput, SchemaField, SchemaFieldInput};

verus! {

#[verifier::external_type_specification]
#[verifier::external_body]
pub struct ExDataType(DataType);

#[verifier::external_type_specification]
#[verifier::external_body]
pub struct ExField(Field);

#[verifier::external_type_specification]
#[verifier::external_body]
pub struct ExSchema(Schema);

/// The column names of a columnar schema, in order.
pub uninterp spec fn schema_columns(s: Schema) -> Seq<Seq<char>>;

/// The type names (as `Debug` writes them) of a schema's columns, in order.
pub uninterp spec fn schema_types(s: Schema) -> Seq<Seq<char>>;

/// Whether each column of a schema allows nulls, in order.
pub uninterp spec fn schema_nullable(s: Schema) -> Seq<bool>;

/// The metadata of each column of a schema, in order.
pub uninterp spec fn schema_metadata(s: Schema) -> Seq<Map<String, String>>;

/// Why a column type cannot be built, if it cannot: a vector column needs a
/// positive length.
pub open spec fn type_error(t: FieldDataType, vector_length: Option<i32>) -> Option<Seq<char>> {
    match t {
        FieldDataType::FixedSizeListFloat32 => match vector_length {
            None => Some("vector_length is required for fixed_size_list_float32"@),
            Some(n) => if n <= 0 {
                Some("vector_length must be greater than 0"@)
            } else {
                None
            },
        },
        _ => None,
    }
}

/// Why a schema definition cannot be built, if it cannot: it needs a field,
/// and the first field whose type cannot be built decides.
pub open spec fn schema_error(fields: Seq<SchemaFieldInput>) -> Option<Seq<char>> {
    if fields.len() == 0 {
        Some("schema must contain at least one field"@)
    } else {
        first_field_error(fields)
    }
}

/// The error of the first field whose type cannot be built.
pub open spec fn first_field_error(fields: Seq<SchemaFieldInput>) -> Option<Seq<char>>
    decreases fields.len(),
{
    if fields.len() == 0 {
        None
    } else {
        match type_error(fields[0].data_type, fields[0].vector_length) {
            Some(e) => Some(e),
            None => first_field_error(fields.skip(1)),
        }
    }
}

/// Relies on the `arrow_schema::DataType` variants: the column type of a
/// fixed-width or variable-width scalar type, one variant for each.
#[verifier::external_body]
fn scalar_type(t: FieldDataType) -> (r: DataType)
    requires
        t != FieldDataType::FixedSizeListFloat32,
{
    match t {
        FieldDataType::Int8 => DataType::Int8, FieldDataType::Int16 => DataType::Int16,
        FieldDataType::Int32 => DataType::Int32, FieldDataType::Int64 => DataType::Int64,
        FieldDataType::UInt8 => DataType::UInt8, FieldDataType::UInt16 => DataType::UInt16,
        FieldDataType::UInt32 => DataType::UInt32, FieldDataType::UInt64 => DataType::UInt64,
        FieldDataType::Float32 => DataType::Float32, FieldDataType::Float64 => DataType::Float64,
        FieldDataType::Boolean => DataType::Boolean, FieldDataType::Utf8 => DataType::Utf8,
        FieldDataType::LargeUtf8 => DataType::LargeUtf8, FieldDataType::Binary => DataType::Binary,
        _ => DataType::LargeBinary,
    }
}

/// Relies on `DataType::FixedSizeList`: a vector column of `length`
/// nullable 32-bit floats named `item`.
#[verifier::external_body]
fn vector_type(length: i32) -> (r: DataType)
    requires
        length > 0,
{
    DataType::FixedSizeList(Arc::new(Field::new("item", DataType::Float32, true)), length)
}

/// Relies on `Field::new`: a named column of a type, with its nullability.
#[verifier::external_body]
fn new_field(name: &String, data_type: DataType, nullable: bool) -> (r: Field) {
    Field::new(name.clone(), data_type, nullable)
}

/// Relies on `Field::with_metadata`: the column with its metadata set.
#[verifier::external_body]
fn with_field_metadata(field: Field, metadata: &HashMap<String, String>) -> (r: Field) {
    field.with_metadata(metadata.clone())
}

/// Relies on `Schema::new`: a schema of the given columns, in order.
#[verifier::external_body]
fn make_schema(fields: Vec<Field>) -> (r: Schema) {
    Schema::new(fields)
}

/// The engine's column type for a caller's type; a vector type needs a
/// positive length.
pub fn to_arrow_data_type(data_type: &FieldDataType, vector_length: Option<i32>) -> (r: Result<DataType, String>)
    ensures
        match type_error(*data_type, vector_length) {
            Some(e) => r matches Err(m) && m@ == e,
            None => r is Ok,
        },
{
    match data_type {
        FieldDataType::FixedSizeListFloat32 => match vector_length {
            None => Err(String::from_str("vector_length is required for fixed_size_list_float32")),
            Some(length) => {
                if length <= 0 {
                    Err(String::from_str("vector_length must be greater than 0"))
                } else {
                    Ok(vector_type(length))
                }
            },
        },
        _ => Ok(scalar_type(*data_type)),
    }
}

/// The engine's column for a caller's field definition.
pub fn to_arrow_field(input: &SchemaFieldInput) -> (r: Result<Field, String>)
    ensures
        match type_error(input.data_type, input.vector_length) {
            Some(e) => r matches Err(m) && m@ == e,
            None => r is Ok,
        },
{
    let data_type = to_arrow_data_type(&input.data_type, input.vector_length)?;
    let field = new_field(&input.name, data_type, input.nullable);
    match &input.metadata {
        Some(m) => Ok(with_field_metadata(field, m)),
        None => Ok(field),
    }
}

/// The engine's schema for a caller's definition: every field in order. A
/// definition without fields is refused, and so is one with a field whose
/// type cannot be built (the first such field's error is reported).
pub fn to_arrow_schema(input: &SchemaDefinitionInput) -> (r: Result<Schema, String>)
    ensures
        match schema_error(input.fields@) {
            Some(e) => r matches Err(m) && m@ == e,
            None => r is Ok,
        },
{
    if input.fields.len() == 0 {
        return Err(String::from_str("schema must contain at least one field"));
    }
    let ghost all = input.fields@;
    let mut fields: Vec<Field> = Vec::new();
    let mut i: usize = 0;
    proof {
        assert(all.skip(0) =~= all);
    }
    while i < input.fields.len()
        invariant
            i <= all.len(),
            all == input.fields@,
            all.len() > 0,
            first_field_error(all) == first_field_error(all.skip(i as int)),
        decreases all.len() - i,
    {
        proof {
            assert(all.skip(i as int).skip(1) =~= all.skip(i + 1));
            assert(all.skip(i as int)[0] == all[i as int]);
        }
        let field = to_arrow_field(&input.fields[i])?;
        fields.push(field);
        i += 1;
    }
    proof {
        assert(all.skip(i as int) =~= Seq::<SchemaFieldInput>::empty());
    }
    Ok(make_schema(fields))
}

/// Relies on `Schema::fields`: the number of columns.
#[verifier::external_body]
fn column_count(s: &Schema) -> (r: usize)
    ensures
        r == schema_columns(*s).len(),
        r == schema_types(*s).len(),
        r == schema_nullable(*s).len(),
        r == schema_metadata(*s).len(),
{
    s.fields().len()
}

/// Relies on `Field::name`: the name of column `i`.
#[verifier::external_body]
fn column_name(s: &Schema, i: usize) -> (r: String)
    requires
        i < schema_columns(*s).len(),
    ensures
        r@ == schema_columns(*s)[i as int],
{
    s.field(i).name().clone()
}

/// Relies on `DataType`'s `Debug`: the type name of column `i`.
#[verifier::external_body]
fn column_type_text(s: &Schema, i: usize) -> (r: String)
    requires
        i < schema_columns(*s).len(),
    ensures
        r@ == schema_types(*s)[i as int],
{
    format!("{:?}", s.field(i).data_type())
}

/// Relies on `Field::is_nullable`: whether column `i` allows nulls.
#[verifier::external_body]
fn column_nullable(s: &Schema, i: usize) -> (r: bool)
    requires
        i < schema_columns(*s).len(),
    ensures
        r == schema_nullable(*s)[i as int],
{
    s.field(i).is_nullable()
}

/// Relies on `Field::metadata`: the metadata of column `i`.
#[verifier::external_body]
fn column_metadata(s: &Schema, i: usize) -> (r: HashMap<String, String>)
    requires
        i < schema_columns(*s).len(),
    ensures
        r@ == schema_metadata(*s)[i as int],
{
    HashMap::from(s.field(i).metadata())
}

/// Field `f` describes column `i` of schema `s`.
pub open spec fn field_describes(f: SchemaField, s: Schema, i: int) -> bool {
    &&& f.name@ == schema_columns(s)[i]
    &&& f.data_type@ == schema_types(s)[i]
    &&& f.nullable == schema_nullable(s)[i]
    &&& match f.metadata {
        Some(m) => m@ == schema_metadata(s)[i] && !schema_metadata(s)[i].is_empty(),
        None => schema_metadata(s)[i].is_empty(),
    }
}

impl SchemaDefinition {
    /// Describes an engine schema: one field per column, in order, with its
    /// name, type name, nullability and metadata (none where it is empty).
    pub fn from_arrow_schema(schema: &Schema) -> (r: SchemaDefinition)
        ensures
            r.fields@.len() == schema_columns(*schema).len(),
            forall|i: int| 0 <= i < r.fields@.len() ==> #[trigger] field_describes(r.fields@[i], *schema, i),
    {
        let n = column_count(schema);
        let mut fields: Vec<SchemaField> = Vec::new();
        let mut i: usize = 0;
        while i < n
            invariant
                n == schema_columns(*schema).len(),
                i <= n,
                fields@.len() == i,
                forall|j: int| 0 <= j < i ==> #[trigger] field_describes(fields@[j], *schema, j),
            decreases n - i,
        {
            fields.push(
                SchemaField {
                    name: column_name(schema, i),
                    data_type: column_type_text(schema, i),
                    nullable: column_nullable(schema, i),
                    metadata: {
                        let m = column_metadata(schema, i);
                        if m.is_empty() {
                            None
                        } else {
                            Some(m)
                        }
                    },
                },
            );
            i += 1;
        }
        SchemaDefinition { fields }
    }
}

} // verus!
