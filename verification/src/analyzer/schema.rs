use crate::analyzer::php_types::{map_sql_to_php_data_type, spec_php_data_type, spec_php_type_of};
use crate::analyzer::types::{Column, ColumnV, DType, DTypeV, EngineData, Table, TableV};
use crate::errors::SchemaError;
use crate::parser::ast::{
    stmt_views, AlterOp, AlterOpV, ColumnConstraint, ColumnDefinition, ColumnDefinitionV,
    SchemaStatement, SchemaStatementV,
};
use crate::parser::sql::{parse_model, parse_ok, parse_schema_statements};
use vstd::prelude::*;

verus! {

broadcast use vstd::seq_lib::group_seq_properties;

/// Whether one constraint option forces the column to be not nullable:
/// NOT NULL does, and so does a UNIQUE option marked as primary.
pub open spec fn constraint_forces_not_null(c: ColumnConstraint) -> bool {
    c == ColumnConstraint::NotNull || c == (ColumnConstraint::Unique { is_primary: true })
}

/// A column is nullable unless one of its options forces it not to be.
pub open spec fn spec_nullable(opts: Seq<ColumnConstraint>) -> bool {
    forall|i: int| 0 <= i < opts.len() ==> !constraint_forces_not_null(#[trigger] opts[i])
}

/// The canonical column one raw definition normalizes to.
pub open spec fn spec_column(def: ColumnDefinitionV) -> ColumnV {
    ColumnV {
        name: def.name,
        data_type: DTypeV {
            sql_type: def.data_type,
            php_type: spec_php_data_type(
                spec_php_type_of(def.data_type),
                spec_nullable(def.options),
            ),
            nullable: spec_nullable(def.options),
        },
    }
}

/// The canonical columns of a whole definition list, in declaration order.
pub open spec fn spec_columns(defs: Seq<ColumnDefinitionV>) -> Seq<ColumnV> {
    defs.map_values(|d: ColumnDefinitionV| spec_column(d))
}

/// The position of the first table with the given name, if any.
pub open spec fn spec_find_table(tables: Seq<TableV>, name: Seq<char>) -> Option<int>
    decreases tables.len(),
{
    if tables.len() == 0 {
        None
    } else if tables[0].name == name {
        Some(0int)
    } else {
        match spec_find_table(tables.drop_first(), name) {
            Some(i) => Some(i + 1),
            None => None,
        }
    }
}

/// Applying ALTER TABLE operations in order: each ADD COLUMN appends its
/// normalized column at the end; every other operation kind has no effect.
pub open spec fn spec_apply_alter_ops(table: TableV, ops: Seq<AlterOpV>) -> TableV
    decreases ops.len(),
{
    if ops.len() == 0 {
        table
    } else {
        let applied = match ops[0] {
            AlterOpV::AddColumn(def) => TableV {
                name: table.name,
                columns: table.columns.push(spec_column(def)),
            },
            AlterOpV::Other => table,
        };
        spec_apply_alter_ops(applied, ops.drop_first())
    }
}

/// Folding one statement into the schema. CREATE TABLE appends a new
/// table (even under a duplicate name); ALTER TABLE resolves its target
/// by exact name against the tables seen so far and fails with the
/// unknown table's name when there is none; anything else is ignored.
pub open spec fn spec_fold_statement(tables: Seq<TableV>, stmt: SchemaStatementV) -> Result<
    Seq<TableV>,
    Seq<char>,
> {
    match stmt {
        SchemaStatementV::CreateTable { name, columns } => Ok(
            tables.push(TableV { name, columns: spec_columns(columns) }),
        ),
        SchemaStatementV::AlterTable { name, operations } => match spec_find_table(tables, name) {
            Some(i) => Ok(tables.update(i, spec_apply_alter_ops(tables[i], operations))),
            None => Err(name),
        },
        SchemaStatementV::Other => Ok(tables),
    }
}

/// Folding a statement sequence strictly in order, stopping at the first
/// failure with the name of the unknown table.
pub open spec fn spec_fold_statements(
    tables: Seq<TableV>,
    stmts: Seq<SchemaStatementV>,
) -> Result<Seq<TableV>, Seq<char>>
    decreases stmts.len(),
{
    if stmts.len() == 0 {
        Ok(tables)
    } else {
        match spec_fold_statement(tables, stmts[0]) {
            Ok(t) => spec_fold_statements(t, stmts.drop_first()),
            Err(e) => Err(e),
        }
    }
}

/// What a failing run leaves behind: the schema is exactly the
/// successful fold of the statements before the failing one, and that
/// very next statement is the one that fails, with the unknown table's
/// name. The failing statement itself leaks no mutation.
pub open spec fn stopped_at_failure(
    tables0: Seq<TableV>,
    stmts: Seq<SchemaStatementV>,
    result: Seq<TableV>,
    name: Seq<char>,
) -> bool {
    exists|k: int|
        0 <= k < stmts.len() && spec_fold_statements(tables0, #[trigger] stmts.take(k)) == Ok::<
            Seq<TableV>,
            Seq<char>,
        >(result) && spec_fold_statement(result, stmts[k]) == Err::<Seq<TableV>, Seq<char>>(name)
}

/// Nullability over a growing option list: one more option keeps the
/// column nullable exactly when it does not force NOT NULL.
proof fn lemma_nullable_push(opts: Seq<ColumnConstraint>, c: ColumnConstraint)
    ensures
        spec_nullable(opts.push(c)) == (spec_nullable(opts) && !constraint_forces_not_null(c)),
{
    if spec_nullable(opts) && !constraint_forces_not_null(c) {
        assert forall|i: int| 0 <= i < opts.push(c).len() implies !constraint_forces_not_null(
            #[trigger] opts.push(c)[i],
        ) by {
            if i < opts.len() {
                assert(opts.push(c)[i] == opts[i]);
            } else {
                assert(opts.push(c)[i] == c);
            }
        }
    } else if !spec_nullable(opts) {
        let i = choose|i: int| 0 <= i < opts.len() && constraint_forces_not_null(opts[i]);
        assert(opts.push(c)[i] == opts[i]);
        assert(!spec_nullable(opts.push(c)));
    } else {
        assert(opts.push(c)[opts.len() as int] == c);
        assert(!spec_nullable(opts.push(c)));
    }
}

/// A found index is in bounds and names the right table.
pub proof fn lemma_find_table_in_bounds(tables: Seq<TableV>, name: Seq<char>)
    requires
        spec_find_table(tables, name) is Some,
    ensures
        0 <= spec_find_table(tables, name)->Some_0 < tables.len(),
        tables[spec_find_table(tables, name)->Some_0].name == name,
    decreases tables.len(),
{
    if tables.len() > 0 && tables[0].name != name {
        lemma_find_table_in_bounds(tables.drop_first(), name);
    }
}

/// The found index is the first match.
pub proof fn lemma_find_table_first_match(tables: Seq<TableV>, name: Seq<char>, i: int)
    requires
        0 <= i < tables.len(),
        tables[i].name == name,
        forall|j: int| 0 <= j < i ==> (#[trigger] tables[j]).name != name,
    ensures
        spec_find_table(tables, name) == Some(i),
    decreases i,
{
    if i > 0 {
        assert(tables[0].name != name);
        assert forall|j: int| 0 <= j < i - 1 implies (#[trigger] tables.drop_first()[j]).name
            != name by {
            assert(tables.drop_first()[j] == tables[j + 1]);
        }
        assert(tables.drop_first()[i - 1] == tables[i]);
        lemma_find_table_first_match(tables.drop_first(), name, i - 1);
    }
}

/// When no table carries the name, the lookup finds none.
pub proof fn lemma_find_table_no_match(tables: Seq<TableV>, name: Seq<char>)
    requires
        forall|j: int| 0 <= j < tables.len() ==> (#[trigger] tables[j]).name != name,
    ensures
        spec_find_table(tables, name) is None,
    decreases tables.len(),
{
    if tables.len() > 0 {
        assert forall|j: int| 0 <= j < tables.drop_first().len() implies (#[trigger] tables.drop_first()[j]).name
            != name by {
            assert(tables.drop_first()[j] == tables[j + 1]);
        }
        lemma_find_table_no_match(tables.drop_first(), name);
    }
}

/// The schema accumulator: folds parsed statements into a canonical
/// schema, strictly in input order.
pub struct SchemaAnalyzer;

impl SchemaAnalyzer {
    /// Normalizes one raw column definition: nullability is derived from
    /// the options, and the source type is mapped to its descriptor.
    pub fn analyze_column_def(column_def: ColumnDefinition) -> (c: Column)
        ensures
            c@ == spec_column(column_def@),
    {
        let ColumnDefinition { name, data_type, options } = column_def;
        let mut is_nullable = true;
        let mut i: usize = 0;
        while i < options.len()
            invariant
                i <= options.len(),
                is_nullable == spec_nullable(options@.take(i as int)),
            decreases options.len() - i,
        {
            proof {
                assert(options@.take(i as int + 1) =~= options@.take(i as int).push(
                    options@[i as int],
                ));
                lemma_nullable_push(options@.take(i as int), options@[i as int]);
            }
            match options[i] {
                ColumnConstraint::NotNull => {
                    is_nullable = false;
                },
                ColumnConstraint::Unique { is_primary } => {
                    if is_primary {
                        is_nullable = false;
                    }
                },
                ColumnConstraint::Other => {},
            }
            i += 1;
        }
        proof {
            assert(options@.take(options@.len() as int) =~= options@);
        }
        let php_type = map_sql_to_php_data_type(&data_type, is_nullable);
        Column { name, data_type: DType { sql_type: data_type, php_type, nullable: is_nullable } }
    }

    /// The position of the first table with the given name, if any.
    fn find_table(tables: &Vec<Table>, name: &String) -> (r: Option<usize>)
        ensures
            match r {
                Some(i) => spec_find_table(tables@.map_values(|t: Table| t@), name@) == Some(
                    i as int,
                ),
                None => spec_find_table(tables@.map_values(|t: Table| t@), name@) is None,
            },
    {
        let ghost views = tables@.map_values(|t: Table| t@);
        let mut i: usize = 0;
        while i < tables.len()
            invariant
                i <= tables.len(),
                views == tables@.map_values(|t: Table| t@),
                forall|j: int| 0 <= j < i ==> (#[trigger] views[j]).name != name@,
            decreases tables.len() - i,
        {
            if tables[i].name.eq(name) {
                proof {
                    assert(views[i as int].name == name@);
                    lemma_find_table_first_match(views, name@, i as int);
                }
                return Some(i);
            }
            proof {
                assert(views[i as int].name != name@);
            }
            i += 1;
        }
        proof {
            lemma_find_table_no_match(views, name@);
        }
        None
    }

    /// Normalizes a whole definition list, in declaration order.
    fn analyze_column_defs(defs: Vec<ColumnDefinition>) -> (cols: Vec<Column>)
        ensures
            cols@.map_values(|c: Column| c@) == spec_columns(
                defs@.map_values(|d: ColumnDefinition| d@),
            ),
    {
        let ghost orig = defs@;
        let ghost def_views = defs@.map_values(|d: ColumnDefinition| d@);
        let mut remaining = defs;
        let mut cols: Vec<Column> = Vec::new();
        let ghost mut k: int = 0;
        while remaining.len() > 0
            invariant
                0 <= k <= orig.len(),
                cols@.len() == k,
                remaining@ =~= orig.skip(k),
                def_views == orig.map_values(|d: ColumnDefinition| d@),
                cols@.map_values(|c: Column| c@) =~= spec_columns(def_views.take(k)),
            decreases remaining.len(),
        {
            let def = remaining.remove(0);
            proof {
                assert(def == orig[k]);
                assert(remaining@ =~= orig.skip(k + 1));
                assert(def@ == def_views[k]);
            }
            let col = Self::analyze_column_def(def);
            let ghost prev_cols = cols@;
            cols.push(col);
            proof {
                assert(cols@ =~= prev_cols.push(col));
                let ghost newmap = cols@.map_values(|c: Column| c@);
                let ghost target = spec_columns(def_views.take(k + 1));
                assert forall|j: int| 0 <= j < k + 1 implies #[trigger] newmap[j] == target[j] by {
                    assert(def_views.take(k + 1)[j] == def_views[j]);
                    assert(newmap[j] == cols@[j]@);
                    assert(target[j] == spec_column(def_views[j]));
                    if j < k {
                        assert(cols@[j] == prev_cols[j]);
                        assert(prev_cols.map_values(|c: Column| c@)[j] == prev_cols[j]@);
                        assert(spec_columns(def_views.take(k))[j] == spec_column(
                            def_views.take(k)[j],
                        ));
                        assert(def_views.take(k)[j] == def_views[j]);
                    } else {
                        assert(cols@[j] == col);
                    }
                }
                assert(newmap =~= target);
                k = k + 1;
            }
        }
        proof {
            assert(k == orig.len());
            assert(def_views.take(k) =~= def_views);
        }
        cols
    }

    /// Applies ALTER TABLE operations to one table, in operation order.
    fn apply_alter_ops(table: &mut Table, operations: Vec<AlterOp>)
        ensures
            final(table)@ == spec_apply_alter_ops(
                old(table)@,
                operations@.map_values(|op: AlterOp| op@),
            ),
    {
        let ghost orig_ops = operations@;
        let ghost op_views = operations@.map_values(|op: AlterOp| op@);
        let ghost start = old(table)@;
        let mut remaining = operations;
        let ghost mut k: int = 0;
        while remaining.len() > 0
            invariant
                0 <= k <= orig_ops.len(),
                remaining@ =~= orig_ops.skip(k),
                op_views == orig_ops.map_values(|op: AlterOp| op@),
                op_views.len() == orig_ops.len(),
                spec_apply_alter_ops(start, op_views) == spec_apply_alter_ops(
                    table@,
                    op_views.skip(k),
                ),
            decreases remaining.len(),
        {
            let op = remaining.remove(0);
            proof {
                assert(op == orig_ops[k]);
                assert(remaining@ =~= orig_ops.skip(k + 1));
                assert(op@ == op_views[k]);
                assert(op_views.skip(k)[0] == op_views[k]);
                assert(op_views.skip(k).drop_first() =~= op_views.skip(k + 1));
            }
            let ghost before = table@;
            match op {
                AlterOp::AddColumn(def) => {
                    let col = Self::analyze_column_def(def);
                    table.columns.push(col);
                    proof {
                        assert(table@.columns =~= before.columns.push(spec_column(def@)));
                        assert(table@ == TableV {
                            name: before.name,
                            columns: before.columns.push(spec_column(def@)),
                        });
                        assert(spec_apply_alter_ops(before, op_views.skip(k))
                            == spec_apply_alter_ops(table@, op_views.skip(k + 1)));
                    }
                },
                AlterOp::Other => {
                    proof {
                        assert(spec_apply_alter_ops(before, op_views.skip(k))
                            == spec_apply_alter_ops(table@, op_views.skip(k + 1)));
                    }
                },
            }
            proof {
                k = k + 1;
            }
        }
        proof {
            assert(k == orig_ops.len());
            assert(op_views.skip(k) =~= Seq::<AlterOpV>::empty());
        }
    }

    /// Folds one statement into the schema. On failure (an ALTER against
    /// an undefined table) the schema is left exactly as it was.
    pub fn fold_statement(engine_data: &mut EngineData, statement: SchemaStatement) -> (r: Result<
        (),
        SchemaError,
    >)
        ensures
            match spec_fold_statement(old(engine_data)@.tables, statement@) {
                Ok(tables) => r is Ok && final(engine_data)@.tables == tables,
                Err(name) => (r matches Err(SchemaError::UnknownTableReference(n)) && n@ == name)
                    && final(engine_data)@ == old(engine_data)@,
            },
    {
        match statement {
            SchemaStatement::CreateTable { name, columns } => {
                let ghost col_views = columns@.map_values(|d: ColumnDefinition| d@);
                proof {
                    assert(statement@ == SchemaStatementV::CreateTable {
                        name: name@,
                        columns: col_views,
                    });
                }
                let cols = Self::analyze_column_defs(columns);
                let table = Table { name, columns: cols };
                proof {
                    assert(table@ == TableV {
                        name: table.name@,
                        columns: spec_columns(col_views),
                    });
                }
                engine_data.tables.push(table);
                proof {
                    assert(engine_data@.tables =~= old(engine_data)@.tables.push(table@));
                }
                Ok(())
            },
            SchemaStatement::AlterTable { name, operations } => {
                let ghost op_views = operations@.map_values(|op: AlterOp| op@);
                proof {
                    assert(statement@ == SchemaStatementV::AlterTable {
                        name: name@,
                        operations: op_views,
                    });
                }
                match Self::find_table(&engine_data.tables, &name) {
                    Some(i) => {
                        proof {
                            lemma_find_table_in_bounds(old(engine_data)@.tables, name@);
                        }
                        let mut table = engine_data.tables.remove(i);
                        let ghost taken = table@;
                        proof {
                            assert(taken == old(engine_data)@.tables[i as int]);
                        }
                        Self::apply_alter_ops(&mut table, operations);
                        engine_data.tables.insert(i, table);
                        proof {
                            assert(engine_data@.tables =~= old(engine_data)@.tables.update(
                                i as int,
                                spec_apply_alter_ops(taken, op_views),
                            ));
                        }
                        Ok(())
                    },
                    None => Err(SchemaError::UnknownTableReference(name)),
                }
            },
            SchemaStatement::Other => Ok(()),
        }
    }

    /// Folds a statement sequence into the schema, strictly in order. On
    /// failure the schema holds exactly the fold of the statements before
    /// the failing one: the failing statement leaks no partial mutation.
    #[verifier::rlimit(50)]
    #[verifier::loop_isolation(false)]
    pub fn analyze_sql_statements(
        engine_data: &mut EngineData,
        statements: Vec<SchemaStatement>,
    ) -> (r: Result<(), SchemaError>)
        ensures
            match spec_fold_statements(old(engine_data)@.tables, stmt_views(statements@)) {
                Ok(tables) => r is Ok && final(engine_data)@.tables == tables,
                Err(name) => (r matches Err(SchemaError::UnknownTableReference(n)) && n@ == name)
                    && stopped_at_failure(
                    old(engine_data)@.tables,
                    stmt_views(statements@),
                    final(engine_data)@.tables,
                    name,
                ),
            },
    {
        let ghost orig = statements@;
        let ghost svs = stmt_views(statements@);
        let ghost orig_tables = old(engine_data)@.tables;
        let mut remaining = statements;
        let ghost mut k: int = 0;
        while remaining.len() > 0
            invariant
                0 <= k <= orig.len(),
                remaining@ =~= orig.skip(k),
                svs == stmt_views(orig),
                svs.len() == orig.len(),
                spec_fold_statements(orig_tables, svs.take(k)) == Ok::<Seq<TableV>, Seq<char>>(
                    engine_data@.tables,
                ),
                spec_fold_statements(orig_tables, svs) == spec_fold_statements(
                    engine_data@.tables,
                    svs.skip(k),
                ),
                old(engine_data)@.tables == orig_tables,
            decreases remaining.len(),
        {
            let stmt = remaining.remove(0);
            proof {
                assert(stmt == orig[k]);
                assert(remaining@ =~= orig.skip(k + 1));
                assert(stmt@ == svs[k]);
                assert(svs.skip(k)[0] == svs[k]);
                assert(svs.skip(k).drop_first() =~= svs.skip(k + 1));
            }
            let ghost tables_before = engine_data@.tables;
            let step = Self::fold_statement(engine_data, stmt);
            match step {
                Ok(()) => {
                    proof {
                        assert(svs.take(k + 1) =~= svs.take(k).push(svs[k]));
                        lemma_fold_statements_snoc(orig_tables, svs.take(k), svs[k]);
                        assert(spec_fold_statements(tables_before, svs.skip(k))
                            == spec_fold_statements(engine_data@.tables, svs.skip(k + 1)));
                        k = k + 1;
                    }
                },
                Err(e) => {
                    proof {
                        assert(spec_fold_statement(tables_before, svs[k]) is Err);
                        let en = spec_fold_statement(tables_before, svs[k])->Err_0;
                        assert(spec_fold_statements(tables_before, svs.skip(k))
                            == spec_fold_statement(tables_before, svs[k]));
                        assert(spec_fold_statements(tables_before, svs.skip(k))
                            == spec_fold_statements(orig_tables, svs));
                        assert(spec_fold_statements(orig_tables, svs) == spec_fold_statement(
                            tables_before,
                            svs[k],
                        ));
                        assert(spec_fold_statements(orig_tables, svs) is Err);
                        assert(engine_data@.tables == tables_before);
                        assert(spec_fold_statements(orig_tables, svs.take(k))
                            == Ok::<Seq<TableV>, Seq<char>>(engine_data@.tables));
                        assert(svs.skip(k).len() > 0);
                        assert(0 <= k < svs.len());
                        assert(spec_fold_statement(engine_data@.tables, svs[k]) == Err::<
                            Seq<TableV>,
                            Seq<char>,
                        >(en));
                        assert(stopped_at_failure(orig_tables, svs, engine_data@.tables, en));
                    }
                    return Err(e);
                },
            }
        }
        proof {
            assert(k == orig.len());
            assert(svs.skip(k) =~= Seq::<SchemaStatementV>::empty());
            assert(svs.take(k) =~= svs);
        }
        Ok(())
    }
}

/// Parses one in-memory SQL string and folds every statement of it into
/// a fresh schema, in statement order. A text the parser rejects is the
/// parse-error condition; an accepted text yields exactly the fold, from
/// empty, of the statement models it parses to, or the unknown-table
/// error that the fold stops at.
pub fn process_sql_file(content: String) -> (r: Result<EngineData, SchemaError>)
    ensures
        !parse_ok(content@) ==> (r matches Err(e) && e is ParseError),
        parse_ok(content@) ==> match spec_fold_statements(
            Seq::<TableV>::empty(),
            parse_model(content@),
        ) {
            Ok(tables) => r matches Ok(data) && data@.tables == tables,
            Err(name) => r matches Err(SchemaError::UnknownTableReference(n)) && n@ == name,
        },
{
    let statements = match parse_schema_statements(content.as_str()) {
        Ok(s) => s,
        Err(e) => {
            return Err(e);
        },
    };
    let ghost svs = stmt_views(statements@);
    proof {
        assert(svs == parse_model(content@));
    }
    let mut engine_data = EngineData { tables: Vec::new() };
    proof {
        assert(engine_data@.tables =~= Seq::<TableV>::empty());
    }
    match SchemaAnalyzer::analyze_sql_statements(&mut engine_data, statements) {
        Ok(()) => {
            proof {
                assert(spec_fold_statements(Seq::<TableV>::empty(), svs) == Ok::<
                    Seq<TableV>,
                    Seq<char>,
                >(engine_data@.tables));
            }
            Ok(engine_data)
        },
        Err(e) => Err(e),
    }
}

/// Folding one more statement after a successful prefix is one more step.
proof fn lemma_fold_statements_snoc(
    tables: Seq<TableV>,
    stmts: Seq<SchemaStatementV>,
    stmt: SchemaStatementV,
)
    requires
        spec_fold_statements(tables, stmts) is Ok,
    ensures
        spec_fold_statements(tables, stmts.push(stmt)) == spec_fold_statement(
            spec_fold_statements(tables, stmts)->Ok_0,
            stmt,
        ),
    decreases stmts.len(),
{
    if stmts.len() == 0 {
        assert(stmts.push(stmt)[0] == stmt);
        assert(stmts.push(stmt).drop_first() =~= Seq::<SchemaStatementV>::empty());
        assert(spec_fold_statements(tables, stmts) == Ok::<Seq<TableV>, Seq<char>>(tables));
        assert(spec_fold_statements(tables, stmts.push(stmt)) == match spec_fold_statement(
            tables,
            stmt,
        ) {
            Ok(t) => spec_fold_statements(t, stmts.push(stmt).drop_first()),
            Err(e) => Err(e),
        });
    } else {
        assert(stmts.push(stmt)[0] == stmts[0]);
        assert(stmts.push(stmt).drop_first() =~= stmts.drop_first().push(stmt));
        match spec_fold_statement(tables, stmts[0]) {
            Ok(t) => {
                assert(spec_fold_statements(tables, stmts) == spec_fold_statements(
                    t,
                    stmts.drop_first(),
                ));
                assert(spec_fold_statements(tables, stmts.push(stmt)) == spec_fold_statements(
                    t,
                    stmts.drop_first().push(stmt),
                ));
                lemma_fold_statements_snoc(t, stmts.drop_first(), stmt);
            },
            Err(_) => {},
        }
    }
}

/// Law: a CREATE TABLE statement with N column definitions appends
/// exactly one table holding those N columns, normalized, in declaration
/// order, and leaves every existing table untouched.
pub proof fn lemma_create_table_appends(
    tables: Seq<TableV>,
    name: Seq<char>,
    columns: Seq<ColumnDefinitionV>,
)
    ensures
        spec_fold_statement(tables, SchemaStatementV::CreateTable { name, columns }) is Ok,
        ({
            let t = spec_fold_statement(
                tables,
                SchemaStatementV::CreateTable { name, columns },
            )->Ok_0;
            &&& t.len() == tables.len() + 1
            &&& t[tables.len() as int].name == name
            &&& t[tables.len() as int].columns.len() == columns.len()
            &&& forall|i: int|
                0 <= i < columns.len() ==> t[tables.len() as int].columns[i] == spec_column(
                    #[trigger] columns[i],
                )
            &&& forall|j: int| 0 <= j < tables.len() ==> #[trigger] t[j] == tables[j]
        }),
{
}

/// Law: one ALTER TABLE ADD COLUMN against a table already in the schema
/// appends the normalized column at the end of that table's column list,
/// disturbs none of its existing columns, and touches no other table.
pub proof fn lemma_alter_add_column_appends(tables: Seq<TableV>, name: Seq<char>, def: ColumnDefinitionV)
    requires
        spec_find_table(tables, name) is Some,
    ensures
        ({
            let i = spec_find_table(tables, name)->Some_0;
            let r = spec_fold_statement(
                tables,
                SchemaStatementV::AlterTable {
                    name,
                    operations: seq![AlterOpV::AddColumn(def)],
                },
            );
            &&& r is Ok
            &&& r->Ok_0.len() == tables.len()
            &&& r->Ok_0[i].name == tables[i].name
            &&& r->Ok_0[i].columns == tables[i].columns.push(spec_column(def))
            &&& forall|j: int|
                0 <= j < tables.len() && j != i ==> #[trigger] r->Ok_0[j] == tables[j]
        }),
{
    lemma_find_table_in_bounds(tables, name);
    let i = spec_find_table(tables, name)->Some_0;
    let ops = seq![AlterOpV::AddColumn(def)];
    assert(ops[0] == AlterOpV::AddColumn(def));
    assert(ops.drop_first() =~= Seq::<AlterOpV>::empty());
    let applied = TableV {
        name: tables[i].name,
        columns: tables[i].columns.push(spec_column(def)),
    };
    assert(spec_apply_alter_ops(applied, ops.drop_first()) == applied);
    assert(spec_apply_alter_ops(tables[i], ops) == applied);
}

/// Law: an ALTER TABLE whose target name is not in the schema fails with
/// the unknown-table condition carrying exactly that name; the fold
/// produces no schema, and the one in hand stays as it was (see
/// `fold_statement`).
pub proof fn lemma_alter_unknown_table_fails(
    tables: Seq<TableV>,
    name: Seq<char>,
    operations: Seq<AlterOpV>,
)
    requires
        forall|j: int| 0 <= j < tables.len() ==> (#[trigger] tables[j]).name != name,
    ensures
        spec_fold_statement(tables, SchemaStatementV::AlterTable { name, operations })
            == Err::<Seq<TableV>, Seq<char>>(name),
{
    lemma_find_table_no_match(tables, name);
}

/// Law: one statement can fail the fold only by being an ALTER TABLE
/// whose target name no table of the schema carries; CREATE TABLE and
/// every other statement kind always succeed, and the error carries
/// exactly the unknown table's name.
pub proof fn lemma_only_unknown_alter_fails(tables: Seq<TableV>, stmt: SchemaStatementV)
    ensures
        spec_fold_statement(tables, stmt) is Err <==> (stmt matches SchemaStatementV::AlterTable {
            name,
            operations,
        } && spec_find_table(tables, name) is None),
        spec_fold_statement(tables, stmt) matches Err(n) ==> (stmt
            matches SchemaStatementV::AlterTable { name, operations } && n == name),
{
}

/// Law: folding a statement list fails exactly when some statement,
/// taken after the successful fold of the statements before it, fails on
/// its own.
pub proof fn lemma_fold_error_characterization(tables: Seq<TableV>, stmts: Seq<SchemaStatementV>)
    ensures
        spec_fold_statements(tables, stmts) is Err <==> exists|k: int|
            0 <= k < stmts.len() && spec_fold_statements(tables, #[trigger] stmts.take(k)) is Ok
                && spec_fold_statement(
                spec_fold_statements(tables, stmts.take(k))->Ok_0,
                stmts[k],
            ) is Err,
    decreases stmts.len(),
{
    if stmts.len() == 0 {
    } else {
        assert(stmts.take(0) =~= Seq::<SchemaStatementV>::empty());
        assert(spec_fold_statements(tables, stmts.take(0)) == Ok::<Seq<TableV>, Seq<char>>(
            tables,
        ));
        match spec_fold_statement(tables, stmts[0]) {
            Err(_) => {
                assert(spec_fold_statements(tables, stmts) is Err);
                assert(spec_fold_statement(
                    spec_fold_statements(tables, stmts.take(0))->Ok_0,
                    stmts[0],
                ) is Err);
            },
            Ok(t) => {
                let tail = stmts.drop_first();
                lemma_fold_error_characterization(t, tail);
                assert(spec_fold_statements(tables, stmts) == spec_fold_statements(t, tail));
                assert forall|kk: int| 0 <= kk < tail.len() implies spec_fold_statements(
                    tables,
                    #[trigger] stmts.take(kk + 1),
                ) == spec_fold_statements(t, tail.take(kk)) by {
                    assert(stmts.take(kk + 1).len() == kk + 1);
                    assert(stmts.take(kk + 1)[0] == stmts[0]);
                    assert(stmts.take(kk + 1).drop_first() =~= tail.take(kk));
                };
                assert(forall|kk: int|
                    0 <= kk < tail.len() ==> #[trigger] tail[kk] == stmts[kk + 1]);
                if spec_fold_statements(tables, stmts) is Err {
                    assert(spec_fold_statements(t, tail) is Err);
                    let kk = choose|kk: int|
                        0 <= kk < tail.len() && spec_fold_statements(
                            t,
                            #[trigger] tail.take(kk),
                        ) is Ok && spec_fold_statement(
                            spec_fold_statements(t, tail.take(kk))->Ok_0,
                            tail[kk],
                        ) is Err;
                    assert(spec_fold_statements(tables, stmts.take(kk + 1))
                        == spec_fold_statements(t, tail.take(kk)));
                    assert(spec_fold_statements(tables, stmts.take(kk + 1)) is Ok);
                    assert(spec_fold_statement(
                        spec_fold_statements(tables, stmts.take(kk + 1))->Ok_0,
                        stmts[kk + 1],
                    ) is Err);
                    assert(0 <= kk + 1 < stmts.len());
                }
                if exists|k: int|
                    0 <= k < stmts.len() && spec_fold_statements(
                        tables,
                        #[trigger] stmts.take(k),
                    ) is Ok && spec_fold_statement(
                        spec_fold_statements(tables, stmts.take(k))->Ok_0,
                        stmts[k],
                    ) is Err {
                    let k = choose|k: int|
                        0 <= k < stmts.len() && spec_fold_statements(
                            tables,
                            #[trigger] stmts.take(k),
                        ) is Ok && spec_fold_statement(
                            spec_fold_statements(tables, stmts.take(k))->Ok_0,
                            stmts[k],
                        ) is Err;
                    if k == 0 {
                        assert(spec_fold_statement(tables, stmts[0]) is Err);
                        assert(false);
                    } else {
                        assert(spec_fold_statements(tables, stmts.take(k))
                            == spec_fold_statements(t, tail.take(k - 1)));
                        assert(spec_fold_statements(t, tail.take(k - 1)) is Ok);
                        assert(tail[k - 1] == stmts[k]);
                        assert(spec_fold_statement(
                            spec_fold_statements(t, tail.take(k - 1))->Ok_0,
                            tail[k - 1],
                        ) is Err);
                        assert(spec_fold_statements(t, tail) is Err);
                    }
                }
            },
        }
    }
}

/// Law: folding a statement list fails exactly when some ALTER TABLE in
/// it names a table that the schema at its point — the starting tables
/// plus what the earlier statements built — does not hold. No other
/// statement kind can make the fold fail.
pub proof fn lemma_fold_fails_iff_unknown_alter(tables: Seq<TableV>, stmts: Seq<SchemaStatementV>)
    ensures
        spec_fold_statements(tables, stmts) is Err <==> exists|k: int|
            0 <= k < stmts.len() && spec_fold_statements(tables, #[trigger] stmts.take(k)) is Ok
                && (stmts[k] matches SchemaStatementV::AlterTable { name, operations }
                && spec_find_table(
                spec_fold_statements(tables, stmts.take(k))->Ok_0,
                name,
            ) is None),
{
    lemma_fold_error_characterization(tables, stmts);
    if spec_fold_statements(tables, stmts) is Err {
        let k = choose|k: int|
            0 <= k < stmts.len() && spec_fold_statements(tables, #[trigger] stmts.take(k)) is Ok
                && spec_fold_statement(
                spec_fold_statements(tables, stmts.take(k))->Ok_0,
                stmts[k],
            ) is Err;
        lemma_only_unknown_alter_fails(spec_fold_statements(tables, stmts.take(k))->Ok_0, stmts[k]);
    }
    if exists|k: int|
        0 <= k < stmts.len() && spec_fold_statements(tables, #[trigger] stmts.take(k)) is Ok && (
        stmts[k] matches SchemaStatementV::AlterTable { name, operations } && spec_find_table(
            spec_fold_statements(tables, stmts.take(k))->Ok_0,
            name,
        ) is None) {
        let k = choose|k: int|
            0 <= k < stmts.len() && spec_fold_statements(tables, #[trigger] stmts.take(k)) is Ok
                && (stmts[k] matches SchemaStatementV::AlterTable { name, operations }
                && spec_find_table(
                spec_fold_statements(tables, stmts.take(k))->Ok_0,
                name,
            ) is None);
        lemma_only_unknown_alter_fails(spec_fold_statements(tables, stmts.take(k))->Ok_0, stmts[k]);
        assert(spec_fold_statement(
            spec_fold_statements(tables, stmts.take(k))->Ok_0,
            stmts[k],
        ) is Err);
    }
}

/// Law: a column with a NOT NULL option normalizes to not nullable; a
/// column with no options at all normalizes to nullable; and the
/// descriptor's own nullability always agrees.
pub proof fn lemma_nullability(def: ColumnDefinitionV)
    ensures
        (exists|i: int|
            0 <= i < def.options.len() && #[trigger] def.options[i]
                == ColumnConstraint::NotNull) ==> !spec_column(def).data_type.nullable,
        def.options.len() == 0 ==> spec_column(def).data_type.nullable,
        spec_column(def).data_type.nullable == spec_nullable(def.options),
        spec_column(def).data_type.php_type.is_nullable == spec_nullable(def.options),
{
    if exists|i: int|
        0 <= i < def.options.len() && #[trigger] def.options[i] == ColumnConstraint::NotNull {
        let i = choose|i: int|
            0 <= i < def.options.len() && #[trigger] def.options[i]
                == ColumnConstraint::NotNull;
        assert(constraint_forces_not_null(def.options[i]));
        assert(!spec_nullable(def.options));
    }
}

} // verus!

