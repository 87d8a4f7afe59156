use crate::analyzer::php_types::{PhpDataType, PhpDataTypeV};
use crate::parser::ast::SqlType;
use vstd::prelude::*;

verus! {

/// A column's type information: the source type as parsed, the mapped
/// cross-language descriptor, and the derived nullability.
#[derive(Debug)]
pub struct DType {
    pub sql_type: SqlType,
    pub php_type: PhpDataType,
    pub nullable: bool,
}

/// Mathematical model of a `DType`.
pub struct DTypeV {
    pub sql_type: SqlType,
    pub php_type: PhpDataTypeV,
    pub nullable: bool,
}

impl View for DType {
    type V = DTypeV;

    open spec fn view(&self) -> DTypeV {
        DTypeV { sql_type: self.sql_type, php_type: self.php_type@, nullable: self.nullable }
    }
}

/// One table column; immutable once constructed.
#[derive(Debug)]
pub struct Column {
    pub name: String,
    pub data_type: DType,
}

/// Mathematical model of a `Column`.
pub struct ColumnV {
    pub name: Seq<char>,
    pub data_type: DTypeV,
}

impl View for Column {
    type V = ColumnV;

    open spec fn view(&self) -> ColumnV {
        ColumnV { name: self.name@, data_type: self.data_type@ }
    }
}

/// One SQL table: its name as written, and its columns in declaration
/// order, with later additions appended at the end.
#[derive(Debug)]
pub struct Table {
    pub name: String,
    pub columns: Vec<Column>,
}

/// Mathematical model of a `Table`.
pub struct TableV {
    pub name: Seq<char>,
    pub columns: Seq<ColumnV>,
}

impl View for Table {
    type V = TableV;

    open spec fn view(&self) -> TableV {
        TableV { name: self.name@, columns: self.columns@.map_values(|c: Column| c@) }
    }
}

/// The complete canonical schema of one analysis run: tables in
/// first-seen order.
#[derive(Debug)]
pub struct EngineData {
    pub tables: Vec<Table>,
}

/// Mathematical model of an `EngineData`.
pub struct EngineDataV {
    pub tables: Seq<TableV>,
}

impl View for EngineData {
    type V = EngineDataV;

    open spec fn view(&self) -> EngineDataV {
        EngineDataV { tables: self.tables@.map_values(|t: Table| t@) }
    }
}

} // verus!
