use vstd::prelude::*;

verus! {

/// A column's source SQL type, as the statement model carries it: one
/// variant per recognized type keyword, plus vendor-specific custom types
/// (carrying the type name) and a catch-all for everything else.
#[derive(Debug, Clone, PartialEq, Eq)]
pub enum SqlType {
    SmallInt,
    Int,
    BigInt,
    Int2,
    Int4,
    Int8,
    Int16,
    Int32,
    Int64,
    UInt8,
    UInt16,
    UInt32,
    UInt64,
    Float,
    Float4,
    Float8,
    Float32,
    Float64,
    Decimal,
    Real,
    DoublePrecision,
    Bool,
    Boolean,
    Varchar,
    Varbinary,
    VarBit,
    Char,
    Character,
    CharLargeObject,
    StringType,
    FixedString,
    Array,
    Json,
    Jsonb,
    Date,
    Date32,
    Datetime,
    Datetime64,
    Time,
    Timestamp,
    Custom(String),
    Other,
}

/// A column-level constraint option, reduced to what nullability
/// derivation reads: NOT NULL, UNIQUE (primary or not), or anything else.
#[derive(Debug, Clone, Copy, PartialEq, Eq, Structural)]
pub enum ColumnConstraint {
    NotNull,
    Unique { is_primary: bool },
    Other,
}

/// One raw column definition from a CREATE TABLE or ADD COLUMN clause.
pub struct ColumnDefinition {
    pub name: String,
    pub data_type: SqlType,
    pub options: Vec<ColumnConstraint>,
}

/// Mathematical model of a `ColumnDefinition`.
pub struct ColumnDefinitionV {
    pub name: Seq<char>,
    pub data_type: SqlType,
    pub options: Seq<ColumnConstraint>,
}

impl View for ColumnDefinition {
    type V = ColumnDefinitionV;

    open spec fn view(&self) -> ColumnDefinitionV {
        ColumnDefinitionV { name: self.name@, data_type: self.data_type, options: self.options@ }
    }
}

/// One operation of an ALTER TABLE statement: only ADD COLUMN carries data.
pub enum AlterOp {
    AddColumn(ColumnDefinition),
    Other,
}

/// Mathematical model of an `AlterOp`.
pub enum AlterOpV {
    AddColumn(ColumnDefinitionV),
    Other,
}

impl View for AlterOp {
    type V = AlterOpV;

    open spec fn view(&self) -> AlterOpV {
        match self {
            AlterOp::AddColumn(def) => AlterOpV::AddColumn(def@),
            AlterOp::Other => AlterOpV::Other,
        }
    }
}

/// One SQL statement, reduced to what schema accumulation reads:
/// CREATE TABLE and ALTER TABLE carry their parts, everything else is Other.
pub enum SchemaStatement {
    CreateTable { name: String, columns: Vec<ColumnDefinition> },
    AlterTable { name: String, operations: Vec<AlterOp> },
    Other,
}

/// Mathematical model of a `SchemaStatement`.
pub enum SchemaStatementV {
    CreateTable { name: Seq<char>, columns: Seq<ColumnDefinitionV> },
    AlterTable { name: Seq<char>, operations: Seq<AlterOpV> },
    Other,
}

impl View for SchemaStatement {
    type V = SchemaStatementV;

    open spec fn view(&self) -> SchemaStatementV {
        match self {
            SchemaStatement::CreateTable { name, columns } => SchemaStatementV::CreateTable {
                name: name@,
                columns: columns@.map_values(|c: ColumnDefinition| c@),
            },
            SchemaStatement::AlterTable { name, operations } => SchemaStatementV::AlterTable {
                name: name@,
                operations: operations@.map_values(|op: AlterOp| op@),
            },
            SchemaStatement::Other => SchemaStatementV::Other,
        }
    }
}

/// The models of a statement vector.
pub open spec fn stmt_views(stmts: Seq<SchemaStatement>) -> Seq<SchemaStatementV> {
    stmts.map_values(|s: SchemaStatement| s@)
}

} // verus!
