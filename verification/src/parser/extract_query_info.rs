use crate::parser::query::is_space_char;
use vstd::prelude::*;
use vstd::string::StrSliceExecFns;
use vstd::string::StringExecFns;

verus! {

broadcast use vstd::seq_lib::group_seq_properties;

/// The kind of SQL query a statement is.
#[derive(Debug, Clone, Copy, PartialEq, Eq, Structural)]
pub enum QueryType {
    Select,
    Insert,
    Update,
    Delete,
    Other,
}

/// A WHERE-clause expression, reduced to what parameter extraction reads:
/// binary operations are walked, identifiers carry their text, and every
/// other expression kind is Other.
pub enum QueryExpr {
    BinaryOp { left: Box<QueryExpr>, right: Box<QueryExpr> },
    Ident(String),
    Other,
}

/// A table reference in a FROM clause: a plain named table carries its
/// name parts; anything else (a derived table, a join factor) is Other.
pub enum TableRef {
    Named(Vec<String>),
    Other,
}

/// What a SELECT statement exposes: its FROM items and its WHERE clause.
pub struct SelectData {
    pub from: Vec<TableRef>,
    pub selection: Option<QueryExpr>,
}

/// What a DELETE statement exposes: its target table names, its FROM
/// items, and its WHERE clause.
pub struct DeleteData {
    pub tables: Vec<Vec<String>>,
    pub from: Vec<TableRef>,
    pub selection: Option<QueryExpr>,
}

/// One statement, reduced to what query-info extraction reads.
pub enum QueryStatement {
    Select(SelectData),
    NonSelectQuery,
    Delete(DeleteData),
    Other,
}

/// The information extracted from one named query.
#[derive(Debug)]
pub struct QueryInfo {
    name: String,
    return_type: String,
    query_type: QueryType,
    target_table: String,
    parameters: Vec<String>,
}

/// Mathematical model of a `QueryInfo`.
pub struct QueryInfoV {
    pub name: Seq<char>,
    pub return_type: Seq<char>,
    pub query_type: QueryType,
    pub target_table: Seq<char>,
    pub parameters: Seq<Seq<char>>,
}

impl View for QueryInfo {
    type V = QueryInfoV;

    closed spec fn view(&self) -> QueryInfoV {
        QueryInfoV {
            name: self.name@,
            return_type: self.return_type@,
            query_type: self.query_type,
            target_table: self.target_table@,
            parameters: self.parameters@.map_values(|p: String| p@),
        }
    }
}

impl QueryInfo {
    /// The query's name, from the name comment.
    pub fn name(&self) -> (r: &String)
        ensures
            r@ == self@.name,
    {
        &self.name
    }

    /// The return-shape annotation, with its leading colons stripped.
    pub fn return_type(&self) -> (r: &String)
        ensures
            r@ == self@.return_type,
    {
        &self.return_type
    }

    /// The kind of query.
    pub fn query_type(&self) -> (r: QueryType)
        ensures
            r == self@.query_type,
    {
        self.query_type
    }

    /// The table the query targets.
    pub fn target_table(&self) -> (r: &String)
        ensures
            r@ == self@.target_table,
    {
        &self.target_table
    }

    /// The placeholder parameters found in the WHERE clause.
    pub fn parameters(&self) -> (r: &Vec<String>)
        ensures
            r@.map_values(|p: String| p@) == self@.parameters,
    {
        &self.parameters
    }
}

/// Splitting text at whitespace into its nonempty words.
pub open spec fn spec_split_ws_rec(s: Seq<char>, cur: Seq<char>) -> Seq<Seq<char>>
    decreases s.len(),
{
    if s.len() == 0 {
        if cur.len() == 0 {
            Seq::empty()
        } else {
            seq![cur]
        }
    } else if is_space_char(s[0]) {
        if cur.len() == 0 {
            spec_split_ws_rec(s.drop_first(), cur)
        } else {
            seq![cur] + spec_split_ws_rec(s.drop_first(), Seq::empty())
        }
    } else {
        spec_split_ws_rec(s.drop_first(), cur.push(s[0]))
    }
}

/// The whitespace-separated words of a text.
pub open spec fn spec_split_ws(s: Seq<char>) -> Seq<Seq<char>> {
    spec_split_ws_rec(s, Seq::empty())
}

/// A word with every leading colon dropped.
pub open spec fn spec_drop_colons(s: Seq<char>) -> Seq<char>
    decreases s.len(),
{
    if s.len() > 0 && s[0] == ':' {
        spec_drop_colons(s.drop_first())
    } else {
        s
    }
}

/// An object name's parts joined with dots.
pub open spec fn spec_object_name(parts: Seq<Seq<char>>) -> Seq<char>
    decreases parts.len(),
{
    if parts.len() == 0 {
        Seq::empty()
    } else if parts.len() == 1 {
        parts[0]
    } else {
        parts[0] + "."@ + spec_object_name(parts.drop_first())
    }
}

/// The name a table reference contributes: its joined parts, or the
/// unknown marker for anything that is not a plain named table.
pub open spec fn spec_table_ref_name(t: TableRef) -> Seq<char> {
    match t {
        TableRef::Named(parts) => spec_object_name(parts@.map_values(|p: String| p@)),
        TableRef::Other => "unknown"@,
    }
}

/// The target table of a SELECT: its first FROM item, or unknown.
pub open spec fn spec_select_table(s: SelectData) -> Seq<char> {
    if s.from@.len() > 0 {
        spec_table_ref_name(s.from@[0])
    } else {
        "unknown"@
    }
}

/// The target table of a DELETE: its first listed table, else its first
/// FROM item, else unknown.
pub open spec fn spec_delete_table(d: DeleteData) -> Seq<char> {
    if d.tables@.len() > 0 {
        spec_object_name(d.tables@[0]@.map_values(|p: String| p@))
    } else if d.from@.len() > 0 {
        spec_table_ref_name(d.from@[0])
    } else {
        "unknown"@
    }
}

/// The placeholder parameters of an expression, in walk order: the
/// identifiers that start with a colon, left subtree before right.
pub open spec fn spec_expr_params(e: QueryExpr) -> Seq<Seq<char>>
    decreases e,
{
    match e {
        QueryExpr::BinaryOp { left, right } => spec_expr_params(*left) + spec_expr_params(*right),
        QueryExpr::Ident(ident) => if ident@.len() > 0 && ident@[0] == ':' {
            seq![ident@]
        } else {
            Seq::empty()
        },
        QueryExpr::Other => Seq::empty(),
    }
}

/// The parameters of an optional WHERE clause.
pub open spec fn spec_opt_params(sel: Option<QueryExpr>) -> Seq<Seq<char>> {
    match sel {
        Some(e) => spec_expr_params(e),
        None => Seq::empty(),
    }
}

/// What extraction yields for one name comment and one statement: the
/// comment must be `-- name: <name> [:annotation]`, and only SELECT and
/// DELETE statements are supported; each failure carries its message.
pub open spec fn spec_query_info(comment: Seq<char>, stmt: QueryStatement) -> Result<
    QueryInfoV,
    Seq<char>,
> {
    let parts = spec_split_ws(comment);
    if parts.len() < 3 || parts[0] != "--"@ || parts[1] != "name:"@ {
        Err("Invalid comment format"@)
    } else {
        let name = parts[2];
        let return_type = if parts.len() > 3 {
            spec_drop_colons(parts[3])
        } else {
            Seq::empty()
        };
        match stmt {
            QueryStatement::Select(s) => Ok(
                QueryInfoV {
                    name,
                    return_type,
                    query_type: QueryType::Select,
                    target_table: spec_select_table(s),
                    parameters: spec_opt_params(s.selection),
                },
            ),
            QueryStatement::NonSelectQuery => Err("Unsupported query body type"@),
            QueryStatement::Delete(d) => Ok(
                QueryInfoV {
                    name,
                    return_type,
                    query_type: QueryType::Delete,
                    target_table: spec_delete_table(d),
                    parameters: spec_opt_params(d.selection),
                },
            ),
            QueryStatement::Other => Err("Unsupported statement type"@),
        }
    }
}

/// Mapping word views commutes with push.
proof fn lemma_word_view_push(s: Seq<String>, x: String)
    ensures
        s.push(x).map_values(|w: String| w@) =~= s.map_values(|w: String| w@).push(x@),
{
    let m1 = s.push(x).map_values(|w: String| w@);
    let m2 = s.map_values(|w: String| w@).push(x@);
    assert forall|j: int| 0 <= j < m1.len() implies #[trigger] m1[j] == m2[j] by {
        if j < s.len() {
            assert(s.push(x)[j] == s[j]);
        } else {
            assert(s.push(x)[j] == x);
        }
    }
}

/// Whether one character is whitespace.
fn is_ws(c: char) -> (r: bool)
    ensures
        r == is_space_char(c),
{
    c == ' ' || c == '\t' || c == '\r' || c == '\n'
}

/// Splits a text at whitespace into its nonempty words.
#[verifier::loop_isolation(false)]
#[verifier::rlimit(50)]
fn split_ws(s: &str) -> (r: Vec<String>)
    ensures
        r@.map_values(|w: String| w@) == spec_split_ws(s@),
{
    let n = s.unicode_len();
    let mut words: Vec<String> = Vec::new();
    let mut start: usize = 0;
    let mut i: usize = 0;
    proof {
        assert(s@.skip(0) =~= s@);
        assert(s@.subrange(0, 0) =~= Seq::<char>::empty());
        assert(words@.map_values(|w: String| w@) =~= Seq::<Seq<char>>::empty());
    }
    while i < n
        invariant
            start <= i <= n,
            spec_split_ws(s@) == words@.map_values(|w: String| w@) + spec_split_ws_rec(
                s@.skip(i as int),
                s@.subrange(start as int, i as int),
            ),
        decreases n - i,
    {
        let c = s.get_char(i);
        let ghost cur = s@.subrange(start as int, i as int);
        proof {
            assert(s@.skip(i as int)[0] == s@[i as int]);
            assert(s@.skip(i as int).drop_first() =~= s@.skip(i as int + 1));
        }
        if is_ws(c) {
            if i > start {
                let word = s.substring_char(start, i).to_owned();
                let ghost prev = words@;
                words.push(word);
                proof {
                    lemma_word_view_push(prev, word);
                    assert(spec_split_ws_rec(s@.skip(i as int), cur) == seq![cur]
                        + spec_split_ws_rec(s@.skip(i as int + 1), Seq::empty()));
                    assert((prev.map_values(|w: String| w@) + (seq![cur] + spec_split_ws_rec(
                        s@.skip(i as int + 1),
                        Seq::empty(),
                    ))) =~= (prev.map_values(|w: String| w@).push(cur) + spec_split_ws_rec(
                        s@.skip(i as int + 1),
                        Seq::empty(),
                    )));
                }
            }
            start = i + 1;
            proof {
                assert(s@.subrange(start as int, start as int) =~= Seq::<char>::empty());
            }
        } else {
            proof {
                assert(s@.subrange(start as int, i as int + 1) =~= cur.push(s@[i as int]));
                assert(spec_split_ws_rec(s@.skip(i as int), cur) == spec_split_ws_rec(
                    s@.skip(i as int + 1),
                    cur.push(s@[i as int]),
                ));
            }
        }
        i += 1;
    }
    proof {
        assert(s@.skip(n as int) =~= Seq::<char>::empty());
    }
    if start < n {
        let word = s.substring_char(start, n).to_owned();
        let ghost prev = words@;
        let ghost cur = s@.subrange(start as int, n as int);
        words.push(word);
        proof {
            lemma_word_view_push(prev, word);
            assert(spec_split_ws_rec(Seq::<char>::empty(), cur) =~= seq![cur]);
            assert((prev.map_values(|w: String| w@) + seq![cur]) =~= prev.map_values(
                |w: String| w@,
            ).push(cur));
        }
    } else {
        proof {
            assert(s@.subrange(start as int, n as int) =~= Seq::<char>::empty());
            assert(spec_split_ws_rec(Seq::<char>::empty(), Seq::<char>::empty())
                =~= Seq::<Seq<char>>::empty());
            assert(words@.map_values(|w: String| w@) + Seq::<Seq<char>>::empty() =~= words@.map_values(
                |w: String| w@,
            ));
        }
    }
    words
}

/// Strips every leading colon from an annotation word.
#[verifier::loop_isolation(false)]
fn drop_colons(s: &str) -> (r: &str)
    ensures
        r@ == spec_drop_colons(s@),
{
    let n = s.unicode_len();
    let mut start: usize = 0;
    while start < n && s.get_char(start) == ':'
        invariant
            start <= n,
            spec_drop_colons(s@) == spec_drop_colons(s@.skip(start as int)),
        decreases n - start,
    {
        proof {
            assert(s@.skip(start as int)[0] == s@[start as int]);
            assert(s@.skip(start as int).drop_first() =~= s@.skip(start as int + 1));
        }
        start += 1;
    }
    proof {
        if start < n {
            assert(s@.skip(start as int)[0] == s@[start as int]);
        } else {
            assert(s@.skip(start as int) =~= Seq::<char>::empty());
        }
        assert(spec_drop_colons(s@) == s@.skip(start as int));
    }
    s.substring_char(start, n)
}

/// Joins an object name's parts with dots.
#[verifier::loop_isolation(false)]
fn format_object_name(parts: &Vec<String>) -> (r: String)
    ensures
        r@ == spec_object_name(parts@.map_values(|p: String| p@)),
{
    let ghost views = parts@.map_values(|p: String| p@);
    if parts.len() == 0 {
        return String::new();
    }
    let mut result = parts[0].clone();
    let mut i: usize = 1;
    while i < parts.len()
        invariant
            1 <= i <= parts@.len(),
            views == parts@.map_values(|p: String| p@),
            views.len() == parts@.len(),
            result@ == spec_object_name(views.take(i as int)),
        decreases parts@.len() - i,
    {
        result.append(".");
        result.append(parts[i].as_str());
        proof {
            assert(views.take(i as int + 1) =~= views.take(i as int).push(views[i as int]));
            lemma_object_name_snoc(views.take(i as int), views[i as int]);
        }
        i += 1;
    }
    proof {
        assert(views.take(views.len() as int) =~= views);
    }
    result
}

/// Joining one more part appends a dot and the part.
proof fn lemma_object_name_snoc(parts: Seq<Seq<char>>, x: Seq<char>)
    requires
        parts.len() >= 1,
    ensures
        spec_object_name(parts.push(x)) == spec_object_name(parts) + "."@ + x,
    decreases parts.len(),
{
    if parts.len() == 1 {
        assert(parts.push(x)[0] == parts[0]);
        assert(parts.push(x).drop_first() =~= seq![x]);
        assert(spec_object_name(seq![x]) == x);
    } else {
        assert(parts.push(x)[0] == parts[0]);
        assert(parts.push(x).drop_first() =~= parts.drop_first().push(x));
        lemma_object_name_snoc(parts.drop_first(), x);
        assert((parts[0] + "."@ + (spec_object_name(parts.drop_first()) + "."@ + x)) =~= ((parts[0]
            + "."@ + spec_object_name(parts.drop_first())) + "."@ + x));
    }
}

/// The name a table reference contributes.
fn extract_table_name_from_table_with_joins(table_ref: &TableRef) -> (r: String)
    ensures
        r@ == spec_table_ref_name(*table_ref),
{
    match table_ref {
        TableRef::Named(parts) => format_object_name(parts),
        TableRef::Other => String::from_str("unknown"),
    }
}

/// The target table of a SELECT.
fn extract_table_name_from_select(select: &SelectData) -> (r: String)
    ensures
        r@ == spec_select_table(*select),
{
    if select.from.len() > 0 {
        extract_table_name_from_table_with_joins(&select.from[0])
    } else {
        String::from_str("unknown")
    }
}

/// Collects the placeholder parameters of an expression, in walk order.
fn extract_parameters_from_expr(expr: &QueryExpr, parameters: &mut Vec<String>)
    ensures
        final(parameters)@.map_values(|p: String| p@) == old(parameters)@.map_values(
            |p: String| p@,
        ) + spec_expr_params(*expr),
    decreases *expr,
{
    match expr {
        QueryExpr::BinaryOp { left, right } => {
            let ghost mid = parameters@;
            extract_parameters_from_expr(&*left, parameters);
            extract_parameters_from_expr(&*right, parameters);
            proof {
                assert((mid.map_values(|p: String| p@) + spec_expr_params(**left))
                    + spec_expr_params(**right) =~= mid.map_values(|p: String| p@) + (
                spec_expr_params(**left) + spec_expr_params(**right)));
            }
        },
        QueryExpr::Ident(ident) => {
            let starts_colon = ident.as_str().unicode_len() > 0 && ident.as_str().get_char(0)
                == ':';
            if starts_colon {
                let ghost prev = parameters@;
                parameters.push(ident.clone());
                proof {
                    lemma_word_view_push(prev, *ident);
                    assert(prev.map_values(|p: String| p@).push(ident@) =~= prev.map_values(
                        |p: String| p@,
                    ) + seq![ident@]);
                }
            } else {
                proof {
                    assert(parameters@.map_values(|p: String| p@) + Seq::<Seq<char>>::empty()
                        =~= parameters@.map_values(|p: String| p@));
                }
            }
        },
        QueryExpr::Other => {
            proof {
                assert(parameters@.map_values(|p: String| p@) + Seq::<Seq<char>>::empty()
                    =~= parameters@.map_values(|p: String| p@));
            }
        },
    }
}

/// Collects the parameters of a SELECT's WHERE clause.
fn extract_parameters_from_select(select: &SelectData) -> (r: Vec<String>)
    ensures
        r@.map_values(|p: String| p@) == spec_opt_params(select.selection),
{
    let mut parameters: Vec<String> = Vec::new();
    proof {
        assert(parameters@.map_values(|p: String| p@) =~= Seq::<Seq<char>>::empty());
    }
    match &select.selection {
        Some(where_clause) => {
            extract_parameters_from_expr(where_clause, &mut parameters);
            proof {
                assert(Seq::<Seq<char>>::empty() + spec_expr_params(
                    select.selection->Some_0,
                ) =~= spec_expr_params(select.selection->Some_0));
            }
        },
        None => {},
    }
    parameters
}

/// Collects the parameters of a DELETE's WHERE clause.
#[allow(dead_code)]
fn extract_parameters_from_delete(delete: &DeleteData) -> (r: Vec<String>)
    ensures
        r@.map_values(|p: String| p@) == spec_opt_params(delete.selection),
{
    let mut parameters: Vec<String> = Vec::new();
    proof {
        assert(parameters@.map_values(|p: String| p@) =~= Seq::<Seq<char>>::empty());
    }
    match &delete.selection {
        Some(where_clause) => {
            extract_parameters_from_expr(where_clause, &mut parameters);
            proof {
                assert(Seq::<Seq<char>>::empty() + spec_expr_params(
                    delete.selection->Some_0,
                ) =~= spec_expr_params(delete.selection->Some_0));
            }
        },
        None => {},
    }
    parameters
}

/// Extracts the query information of one named query: the name and
/// annotation from the `-- name:` comment, and the kind, target table and
/// parameters from the statement. A malformed comment and an unsupported
/// statement kind each fail with their message.
pub fn extract_query_info(name_comment: &str, statement: &QueryStatement) -> (r: Result<
    QueryInfo,
    String,
>)
    ensures
        match spec_query_info(name_comment@, *statement) {
            Ok(info) => r matches Ok(i) && i@ == info,
            Err(msg) => r matches Err(m) && m@ == msg,
        },
{
    let parts = split_ws(name_comment);
    let ghost part_views = spec_split_ws(name_comment@);
    let dashes = String::from_str("--");
    let marker = String::from_str("name:");
    if parts.len() < 3 || !parts[0].eq(&dashes) || !parts[1].eq(&marker) {
        proof {
            if parts@.len() >= 3 {
                assert(parts@.map_values(|w: String| w@)[0] == parts@[0]@);
                assert(parts@.map_values(|w: String| w@)[1] == parts@[1]@);
            }
        }
        return Err(String::from_str("Invalid comment format"));
    }
    proof {
        assert(parts@.map_values(|w: String| w@)[0] == parts@[0]@);
        assert(parts@.map_values(|w: String| w@)[1] == parts@[1]@);
        assert(parts@.map_values(|w: String| w@)[2] == parts@[2]@);
    }
    let name = parts[2].clone();
    let return_type = if parts.len() > 3 {
        proof {
            assert(parts@.map_values(|w: String| w@)[3] == parts@[3]@);
        }
        drop_colons(parts[3].as_str()).to_owned()
    } else {
        String::new()
    };
    match statement {
        QueryStatement::Select(select) => {
            let target_table = extract_table_name_from_select(select);
            let parameters = extract_parameters_from_select(select);
            Ok(
                QueryInfo {
                    name,
                    return_type,
                    query_type: QueryType::Select,
                    target_table,
                    parameters,
                },
            )
        },
        QueryStatement::NonSelectQuery => Err(String::from_str("Unsupported query body type")),
        QueryStatement::Delete(delete) => {
            let target_table = if delete.tables.len() > 0 {
                format_object_name(&delete.tables[0])
            } else if delete.from.len() > 0 {
                extract_table_name_from_table_with_joins(&delete.from[0])
            } else {
                String::from_str("unknown")
            };
            let mut parameters: Vec<String> = Vec::new();
            proof {
                assert(parameters@.map_values(|p: String| p@) =~= Seq::<Seq<char>>::empty());
            }
            match &delete.selection {
                Some(where_clause) => {
                    extract_parameters_from_expr(where_clause, &mut parameters);
                    proof {
                        assert(Seq::<Seq<char>>::empty() + spec_expr_params(
                            delete.selection->Some_0,
                        ) =~= spec_expr_params(delete.selection->Some_0));
                    }
                },
                None => {},
            }
            Ok(
                QueryInfo {
                    name,
                    return_type,
                    query_type: QueryType::Delete,
                    target_table,
                    parameters,
                },
            )
        },
        QueryStatement::Other => Err(String::from_str("Unsupported statement type")),
    }
}

} // verus!
