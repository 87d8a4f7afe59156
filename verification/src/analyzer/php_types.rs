use crate::parser::ast::SqlType;
use vstd::prelude::*;
use vstd::string::StringExecFns;

verus! {

/// The cross-language base kind computed for a column: a closed
/// enumeration, every source type maps to exactly one of these.
#[derive(Debug, Clone, Copy, PartialEq, Eq, Structural)]
pub enum PhpType {
    Int,
    Float,
    String,
    Bool,
    Array,
    Mixed,
    DateTime,
}

/// The canonical bare name of a base kind.
pub open spec fn spec_simple_type(t: PhpType) -> Seq<char> {
    match t {
        PhpType::Int => "int"@,
        PhpType::Float => "float"@,
        PhpType::String => "string"@,
        PhpType::Bool => "bool"@,
        PhpType::Array => "array"@,
        PhpType::Mixed => "mixed"@,
        PhpType::DateTime => "DateTime"@,
    }
}

/// The doc-comment form: the bare name, prefixed with the nullable
/// marker whenever the column is nullable.
pub open spec fn spec_docblock_type(t: PhpType, nullable: bool) -> Seq<char> {
    if nullable {
        "?"@ + spec_simple_type(t)
    } else {
        spec_simple_type(t)
    }
}

/// The type-hint form: the same rule as the doc-comment form, except that
/// Mixed is always the unqualified marker, never wrapped as nullable.
pub open spec fn spec_type_hint(t: PhpType, nullable: bool) -> Seq<char> {
    if t is Mixed {
        spec_simple_type(t)
    } else {
        spec_docblock_type(t, nullable)
    }
}

/// Mathematical model of a `PhpDataType`.
pub struct PhpDataTypeV {
    pub php_type: PhpType,
    pub is_nullable: bool,
    pub docblock_type: Seq<char>,
    pub type_hint: Seq<char>,
    pub simple_type: Seq<char>,
}

/// The one descriptor that a base kind and a nullability determine.
pub open spec fn spec_php_data_type(t: PhpType, nullable: bool) -> PhpDataTypeV {
    PhpDataTypeV {
        php_type: t,
        is_nullable: nullable,
        docblock_type: spec_docblock_type(t, nullable),
        type_hint: spec_type_hint(t, nullable),
        simple_type: spec_simple_type(t),
    }
}

/// The structured type descriptor a code generator consumes: the base
/// kind, the nullability, and the three derived string forms, which are
/// pure functions of the first two.
#[derive(Debug)]
pub struct PhpDataType {
    pub php_type: PhpType,
    pub is_nullable: bool,
    pub docblock_type: String,
    pub type_hint: String,
    pub simple_type: String,
}

impl View for PhpDataType {
    type V = PhpDataTypeV;

    open spec fn view(&self) -> PhpDataTypeV {
        PhpDataTypeV {
            php_type: self.php_type,
            is_nullable: self.is_nullable,
            docblock_type: self.docblock_type@,
            type_hint: self.type_hint@,
            simple_type: self.simple_type@,
        }
    }
}

impl PhpType {
    /// The canonical bare name of this kind, for display and diagnostics.
    pub fn simple_name(&self) -> (r: String)
        ensures
            r@ == spec_simple_type(*self),
    {
        match self {
            PhpType::Int => String::from_str("int"),
            PhpType::Float => String::from_str("float"),
            PhpType::String => String::from_str("string"),
            PhpType::Bool => String::from_str("bool"),
            PhpType::Array => String::from_str("array"),
            PhpType::Mixed => String::from_str("mixed"),
            PhpType::DateTime => String::from_str("DateTime"),
        }
    }
}

/// The bare name with the nullable marker in front.
fn prefix_nullable(simple: &String) -> (r: String)
    ensures
        r@ == "?"@ + simple@,
{
    String::from_str("?").concat(simple.as_str())
}

impl PhpDataType {
    /// Builds the descriptor for one base kind and nullability; the three
    /// string forms are derived by the fixed rules and never diverge.
    pub fn new(php_type: PhpType, is_nullable: bool) -> (r: PhpDataType)
        ensures
            r@ == spec_php_data_type(php_type, is_nullable),
    {
        let simple_type = php_type.simple_name();
        let docblock_type = if is_nullable {
            prefix_nullable(&simple_type)
        } else {
            simple_type.clone()
        };
        let type_hint = match php_type {
            PhpType::Mixed => simple_type.clone(),
            _ => if is_nullable {
                prefix_nullable(&simple_type)
            } else {
                simple_type.clone()
            },
        };
        PhpDataType { php_type, is_nullable, docblock_type, type_hint, simple_type }
    }
}

/// The base kind that one source type maps to: the full source-type space
/// is partitioned, and unrecognized types fall through to Mixed rather
/// than failing.
pub open spec fn spec_php_type_of(t: SqlType) -> PhpType {
    match t {
        SqlType::SmallInt
        | SqlType::Int
        | SqlType::BigInt
        | SqlType::Int2
        | SqlType::Int4
        | SqlType::Int8
        | SqlType::Int16
        | SqlType::Int32
        | SqlType::Int64
        | SqlType::UInt8
        | SqlType::UInt16
        | SqlType::UInt32
        | SqlType::UInt64 => PhpType::Int,
        SqlType::Float
        | SqlType::Float4
        | SqlType::Float8
        | SqlType::Float32
        | SqlType::Float64
        | SqlType::Decimal
        | SqlType::Real
        | SqlType::DoublePrecision => PhpType::Float,
        SqlType::Bool | SqlType::Boolean => PhpType::Bool,
        SqlType::Varchar
        | SqlType::Varbinary
        | SqlType::VarBit
        | SqlType::Char
        | SqlType::Character
        | SqlType::CharLargeObject
        | SqlType::StringType
        | SqlType::FixedString => PhpType::String,
        SqlType::Array | SqlType::Json | SqlType::Jsonb => PhpType::Array,
        SqlType::Date
        | SqlType::Date32
        | SqlType::Datetime
        | SqlType::Datetime64
        | SqlType::Time
        | SqlType::Timestamp => PhpType::DateTime,
        SqlType::Custom(name) => if name@ == "SERIAL"@ {
            PhpType::Int
        } else {
            PhpType::Mixed
        },
        SqlType::Other => PhpType::Mixed,
    }
}

/// Maps one source type and nullability to the full type descriptor.
/// Total and deterministic: there is no error path.
pub fn map_sql_to_php_data_type(sql_type: &SqlType, is_nullable: bool) -> (r: PhpDataType)
    ensures
        r@ == spec_php_data_type(spec_php_type_of(*sql_type), is_nullable),
{
    let php_type = match sql_type {
        SqlType::SmallInt
        | SqlType::Int
        | SqlType::BigInt
        | SqlType::Int2
        | SqlType::Int4
        | SqlType::Int8
        | SqlType::Int16
        | SqlType::Int32
        | SqlType::Int64
        | SqlType::UInt8
        | SqlType::UInt16
        | SqlType::UInt32
        | SqlType::UInt64 => PhpType::Int,
        SqlType::Float
        | SqlType::Float4
        | SqlType::Float8
        | SqlType::Float32
        | SqlType::Float64
        | SqlType::Decimal
        | SqlType::Real
        | SqlType::DoublePrecision => PhpType::Float,
        SqlType::Bool | SqlType::Boolean => PhpType::Bool,
        SqlType::Varchar
        | SqlType::Varbinary
        | SqlType::VarBit
        | SqlType::Char
        | SqlType::Character
        | SqlType::CharLargeObject
        | SqlType::StringType
        | SqlType::FixedString => PhpType::String,
        SqlType::Array | SqlType::Json | SqlType::Jsonb => PhpType::Array,
        SqlType::Date
        | SqlType::Date32
        | SqlType::Datetime
        | SqlType::Datetime64
        | SqlType::Time
        | SqlType::Timestamp => PhpType::DateTime,
        SqlType::Custom(name) => {
            let serial = String::from_str("SERIAL");
            if name.eq(&serial) {
                PhpType::Int
            } else {
                PhpType::Mixed
            }
        },
        SqlType::Other => PhpType::Mixed,
    };
    PhpDataType::new(php_type, is_nullable)
}

/// Law: for every base kind and nullability the derived string forms obey
/// one rule. The doc-comment form is the bare name, with the nullable
/// marker in front exactly when nullable; the type-hint form follows the
/// same rule for every kind but Mixed, which is always the bare marker.
pub proof fn lemma_type_forms_consistent(t: PhpType, nullable: bool)
    ensures
        spec_php_data_type(t, nullable).simple_type == spec_simple_type(t),
        spec_php_data_type(t, nullable).docblock_type == if nullable {
            "?"@ + spec_simple_type(t)
        } else {
            spec_simple_type(t)
        },
        spec_php_data_type(t, nullable).type_hint == if t is Mixed {
            spec_simple_type(t)
        } else {
            spec_php_data_type(t, nullable).docblock_type
        },
{
}

} // verus!
