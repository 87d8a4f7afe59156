use crate::errors::SchemaError;
use crate::parser::sql::{parse_ok, SqlFileParser};
use vstd::prelude::*;
use vstd::string::StrSliceExecFns;
use vstd::string::StringExecFns;

verus! {

broadcast use vstd::seq_lib::group_seq_properties;

/// The whitespace characters that trimming strips.
pub open spec fn is_space_char(c: char) -> bool {
    c == ' ' || c == '\t' || c == '\r' || c == '\n'
}

/// Dropping leading whitespace.
pub open spec fn spec_trim_start(s: Seq<char>) -> Seq<char>
    decreases s.len(),
{
    if s.len() == 0 {
        s
    } else if is_space_char(s[0]) {
        spec_trim_start(s.drop_first())
    } else {
        s
    }
}

/// Dropping trailing whitespace.
pub open spec fn spec_trim_end(s: Seq<char>) -> Seq<char>
    decreases s.len(),
{
    if s.len() == 0 {
        s
    } else if is_space_char(s.last()) {
        spec_trim_end(s.drop_last())
    } else {
        s
    }
}

/// Dropping leading and trailing whitespace.
pub open spec fn spec_trim(s: Seq<char>) -> Seq<char> {
    spec_trim_end(spec_trim_start(s))
}

/// A line's text without one carriage return left by a CRLF line ending.
pub open spec fn spec_strip_cr(l: Seq<char>) -> Seq<char> {
    if l.len() > 0 && l.last() == '\r' {
        l.drop_last()
    } else {
        l
    }
}

/// Splitting text into lines at newline characters, one carriage return
/// stripped before each newline, the final line ending optional. `cur`
/// holds the characters of the line being read.
pub open spec fn spec_lines_rec(s: Seq<char>, cur: Seq<char>) -> Seq<Seq<char>>
    decreases s.len(),
{
    if s.len() == 0 {
        if cur.len() == 0 {
            Seq::empty()
        } else {
            seq![cur]
        }
    } else if s[0] == '\n' {
        seq![spec_strip_cr(cur)] + spec_lines_rec(s.drop_first(), Seq::empty())
    } else {
        spec_lines_rec(s.drop_first(), cur.push(s[0]))
    }
}

/// The lines of a text.
pub open spec fn spec_lines(s: Seq<char>) -> Seq<Seq<char>> {
    spec_lines_rec(s, Seq::empty())
}

/// Whether a line, once trimmed, opens a named query block.
pub open spec fn is_name_marker(line: Seq<char>) -> bool {
    spec_trim(line).len() >= 8 && spec_trim(line).take(8) == "-- name:"@
}

/// Grouping lines into query blocks: a marker line finishes the block in
/// progress (kept if nonempty once trimmed) and starts a new one; other
/// lines extend the block in progress and are dropped before the first
/// marker. Lines are accumulated raw, each with its newline, and each
/// finished block is trimmed.
pub open spec fn spec_group_queries(
    lines: Seq<Seq<char>>,
    cur: Seq<char>,
    in_query: bool,
) -> Seq<Seq<char>>
    decreases lines.len(),
{
    if lines.len() == 0 {
        if in_query && spec_trim(cur).len() > 0 {
            seq![spec_trim(cur)]
        } else {
            Seq::empty()
        }
    } else {
        let line = lines[0];
        if is_name_marker(line) {
            let started = line + seq!['\n'];
            if in_query && spec_trim(cur).len() > 0 {
                seq![spec_trim(cur)] + spec_group_queries(lines.drop_first(), started, true)
            } else {
                spec_group_queries(lines.drop_first(), started, true)
            }
        } else if in_query {
            spec_group_queries(lines.drop_first(), cur + line + seq!['\n'], true)
        } else {
            spec_group_queries(lines.drop_first(), cur, false)
        }
    }
}

/// The query blocks of a text.
pub open spec fn spec_divide_queries(content: Seq<char>) -> Seq<Seq<char>> {
    spec_group_queries(spec_lines(content), Seq::empty(), false)
}

/// Mapping line views commutes with push.
proof fn lemma_map_view_push(s: Seq<String>, x: String)
    ensures
        s.push(x).map_values(|l: String| l@) =~= s.map_values(|l: String| l@).push(x@),
{
    let m1 = s.push(x).map_values(|l: String| l@);
    let m2 = s.map_values(|l: String| l@).push(x@);
    assert forall|j: int| 0 <= j < m1.len() implies #[trigger] m1[j] == m2[j] by {
        if j < s.len() {
            assert(s.push(x)[j] == s[j]);
        } else {
            assert(s.push(x)[j] == x);
        }
    }
}

/// Whether one character is whitespace.
fn is_space(c: char) -> (r: bool)
    ensures
        r == is_space_char(c),
{
    c == ' ' || c == '\t' || c == '\r' || c == '\n'
}

/// Trims leading and trailing whitespace from a string slice.
#[verifier::loop_isolation(false)]
fn trim_str(s: &str) -> (r: &str)
    ensures
        r@ == spec_trim(s@),
{
    let n = s.unicode_len();
    let mut start: usize = 0;
    while start < n && is_space(s.get_char(start))
        invariant
            start <= n,
            spec_trim_start(s@) == spec_trim_start(s@.skip(start as int)),
        decreases n - start,
    {
        proof {
            assert(s@.skip(start as int)[0] == s@[start as int]);
            assert(s@.skip(start as int).drop_first() =~= s@.skip(start as int + 1));
        }
        start += 1;
    }
    proof {
        if start < n {
            assert(s@.skip(start as int)[0] == s@[start as int]);
            assert(spec_trim_start(s@.skip(start as int)) == s@.skip(start as int));
        } else {
            assert(s@.skip(start as int) =~= Seq::<char>::empty());
        }
        assert(spec_trim_start(s@) == s@.skip(start as int));
    }
    let mut end: usize = n;
    while end > start && is_space(s.get_char(end - 1))
        invariant
            start <= end <= n,
            spec_trim_end(s@.skip(start as int)) == spec_trim_end(
                s@.subrange(start as int, end as int),
            ),
        decreases end,
    {
        proof {
            assert(s@.subrange(start as int, end as int).last() == s@[end - 1]);
            assert(s@.subrange(start as int, end as int).drop_last() =~= s@.subrange(
                start as int,
                end as int - 1,
            ));
        }
        end -= 1;
    }
    proof {
        if end > start {
            assert(s@.subrange(start as int, end as int).last() == s@[end - 1]);
            assert(spec_trim_end(s@.subrange(start as int, end as int)) == s@.subrange(
                start as int,
                end as int,
            ));
        } else {
            assert(s@.subrange(start as int, end as int) =~= Seq::<char>::empty());
        }
        assert(s@.skip(start as int) =~= s@.subrange(start as int, n as int));
        assert(spec_trim(s@) == s@.subrange(start as int, end as int));
    }
    s.substring_char(start, end)
}

/// Whether a trimmed line starts with the named-query marker.
fn has_marker_prefix(t: &str) -> (r: bool)
    ensures
        r == (t@.len() >= 8 && t@.take(8) == "-- name:"@),
{
    proof {
        reveal_strlit("-- name:");
    }
    let n = t.unicode_len();
    if n < 8 {
        return false;
    }
    let r = t.get_char(0) == '-' && t.get_char(1) == '-' && t.get_char(2) == ' ' && t.get_char(3)
        == 'n' && t.get_char(4) == 'a' && t.get_char(5) == 'm' && t.get_char(6) == 'e'
        && t.get_char(7) == ':';
    proof {
        if r {
            assert(t@.take(8) =~= "-- name:"@);
        } else {
            if t@.take(8) == "-- name:"@ {
                assert(t@[0] == "-- name:"@[0]);
                assert(t@[1] == "-- name:"@[1]);
                assert(t@[2] == "-- name:"@[2]);
                assert(t@[3] == "-- name:"@[3]);
                assert(t@[4] == "-- name:"@[4]);
                assert(t@[5] == "-- name:"@[5]);
                assert(t@[6] == "-- name:"@[6]);
                assert(t@[7] == "-- name:"@[7]);
            }
        }
    }
    r
}

/// Splits a text into its lines.
#[verifier::loop_isolation(false)]
#[verifier::rlimit(50)]
fn split_lines(s: &str) -> (r: Vec<String>)
    ensures
        r@.map_values(|l: String| l@) == spec_lines(s@),
{
    let n = s.unicode_len();
    let mut lines: Vec<String> = Vec::new();
    let mut start: usize = 0;
    let mut i: usize = 0;
    proof {
        assert(s@.skip(0) =~= s@);
        assert(s@.subrange(0, 0) =~= Seq::<char>::empty());
        assert(lines@.map_values(|l: String| l@) =~= Seq::<Seq<char>>::empty());
    }
    while i < n
        invariant
            start <= i <= n,
            spec_lines(s@) == lines@.map_values(|l: String| l@) + spec_lines_rec(
                s@.skip(i as int),
                s@.subrange(start as int, i as int),
            ),
        decreases n - i,
    {
        let c = s.get_char(i);
        let ghost cur = s@.subrange(start as int, i as int);
        proof {
            assert(s@.skip(i as int)[0] == s@[i as int]);
            assert(s@.skip(i as int).drop_first() =~= s@.skip(i as int + 1));
        }
        if c == '\n' {
            let mut endl = i;
            if endl > start && s.get_char(endl - 1) == '\r' {
                endl -= 1;
            }
            proof {
                if i > start && s@[i as int - 1] == '\r' {
                    assert(cur.last() == s@[i as int - 1]);
                    assert(cur.drop_last() =~= s@.subrange(start as int, i as int - 1));
                    assert(s@.subrange(start as int, endl as int) =~= spec_strip_cr(cur));
                } else {
                    assert(s@.subrange(start as int, endl as int) =~= spec_strip_cr(cur));
                }
            }
            let line = s.substring_char(start, endl).to_owned();
            let ghost prev = lines@;
            lines.push(line);
            proof {
                lemma_map_view_push(prev, line);
                assert(spec_lines_rec(s@.skip(i as int), cur) == seq![spec_strip_cr(cur)]
                    + spec_lines_rec(s@.skip(i as int + 1), Seq::empty()));
                assert((prev.map_values(|l: String| l@) + (seq![spec_strip_cr(cur)]
                    + spec_lines_rec(s@.skip(i as int + 1), Seq::empty()))) =~= (prev.map_values(
                    |l: String| l@,
                ).push(spec_strip_cr(cur)) + spec_lines_rec(
                    s@.skip(i as int + 1),
                    Seq::empty(),
                )));
            }
            start = i + 1;
            proof {
                assert(s@.subrange(start as int, start as int) =~= Seq::<char>::empty());
            }
        } else {
            proof {
                assert(s@.subrange(start as int, i as int + 1) =~= cur.push(s@[i as int]));
                assert(spec_lines_rec(s@.skip(i as int), cur) == spec_lines_rec(
                    s@.skip(i as int + 1),
                    cur.push(s@[i as int]),
                ));
            }
        }
        i += 1;
    }
    proof {
        assert(s@.skip(n as int) =~= Seq::<char>::empty());
    }
    if start < n {
        let line = s.substring_char(start, n).to_owned();
        let ghost prev = lines@;
        let ghost cur = s@.subrange(start as int, n as int);
        lines.push(line);
        proof {
            lemma_map_view_push(prev, line);
            assert(spec_lines_rec(Seq::<char>::empty(), cur) =~= seq![cur]);
            assert((prev.map_values(|l: String| l@) + seq![cur]) =~= prev.map_values(
                |l: String| l@,
            ).push(cur));
        }
    } else {
        proof {
            assert(s@.subrange(start as int, n as int) =~= Seq::<char>::empty());
            assert(spec_lines_rec(Seq::<char>::empty(), Seq::<char>::empty())
                =~= Seq::<Seq<char>>::empty());
            assert(lines@.map_values(|l: String| l@) + Seq::<Seq<char>>::empty()
                =~= lines@.map_values(|l: String| l@));
        }
    }
    lines
}

/// The parser for annotated query files: splits their text into named
/// query blocks and hands each block to the external SQL parser.
pub struct QuerySqlFileParser;

impl Default for QuerySqlFileParser {
    fn default() -> (r: Self)
        ensures
            r == QuerySqlFileParser,
    {
        QuerySqlFileParser
    }
}

impl QuerySqlFileParser {
    /// Splits a file's text into query blocks: each block starts at a
    /// line whose trimmed text begins with the named-query marker, runs
    /// to the next marker or the end, and is kept trimmed if nonempty.
    /// Text before the first marker is dropped. Never fails.
    #[verifier::loop_isolation(false)]
    #[verifier::rlimit(50)]
    pub fn divide_content_into_queries(&self, sql: &str) -> (r: Result<Vec<String>, SchemaError>)
        ensures
            r is Ok,
            r->Ok_0@.map_values(|q: String| q@) == spec_divide_queries(sql@),
    {
        let lines = split_lines(sql);
        let ghost lviews = lines@.map_values(|l: String| l@);
        let mut queries: Vec<String> = Vec::new();
        let mut current_query = String::new();
        let mut in_query = false;
        let mut i: usize = 0;
        proof {
            assert(lviews.skip(0) =~= lviews);
            assert(queries@.map_values(|q: String| q@) =~= Seq::<Seq<char>>::empty());
        }
        while i < lines.len()
            invariant
                i <= lines@.len(),
                lviews == lines@.map_values(|l: String| l@),
                spec_divide_queries(sql@) == queries@.map_values(|q: String| q@)
                    + spec_group_queries(lviews.skip(i as int), current_query@, in_query),
            decreases lines@.len() - i,
        {
            let ghost line_v = lviews[i as int];
            proof {
                assert(lviews.skip(i as int)[0] == lviews[i as int]);
                assert(lviews.skip(i as int).drop_first() =~= lviews.skip(i as int + 1));
                assert(lviews[i as int] == lines@[i as int]@);
                reveal_strlit("\n");
                assert("\n"@ =~= seq!['\n']);
            }
            let trimmed = trim_str(lines[i].as_str());
            let marker = has_marker_prefix(trimmed);
            proof {
                assert(marker == is_name_marker(line_v));
            }
            if marker {
                if in_query {
                    let finished = trim_str(current_query.as_str()).to_owned();
                    if finished.as_str().unicode_len() > 0 {
                        let ghost prevq = queries@;
                        queries.push(finished);
                        proof {
                            lemma_map_view_push(prevq, finished);
                            assert((prevq.map_values(|q: String| q@) + (seq![
                                spec_trim(current_query@),
                            ] + spec_group_queries(
                                lviews.skip(i as int + 1),
                                line_v + seq!['\n'],
                                true,
                            ))) =~= (prevq.map_values(|q: String| q@).push(
                                spec_trim(current_query@),
                            ) + spec_group_queries(
                                lviews.skip(i as int + 1),
                                line_v + seq!['\n'],
                                true,
                            )));
                        }
                    }
                }
                current_query = String::new();
                current_query.append(lines[i].as_str());
                current_query.append("\n");
                in_query = true;
                proof {
                    assert(current_query@ =~= line_v + seq!['\n']);
                }
            } else if in_query {
                let ghost before = current_query@;
                current_query.append(lines[i].as_str());
                current_query.append("\n");
                proof {
                    assert(current_query@ =~= before + line_v + seq!['\n']);
                }
            }
            i += 1;
        }
        proof {
            assert(lviews.skip(lines@.len() as int) =~= Seq::<Seq<char>>::empty());
        }
        if in_query {
            let finished = trim_str(current_query.as_str()).to_owned();
            if finished.as_str().unicode_len() > 0 {
                let ghost prevq = queries@;
                queries.push(finished);
                proof {
                    lemma_map_view_push(prevq, finished);
                    assert((prevq.map_values(|q: String| q@) + seq![spec_trim(current_query@)])
                        =~= prevq.map_values(|q: String| q@).push(spec_trim(current_query@)));
                }
            } else {
                proof {
                    assert(queries@.map_values(|q: String| q@) + Seq::<Seq<char>>::empty()
                        =~= queries@.map_values(|q: String| q@));
                }
            }
        } else {
            proof {
                assert(queries@.map_values(|q: String| q@) + Seq::<Seq<char>>::empty()
                    =~= queries@.map_values(|q: String| q@));
            }
        }
        Ok(queries)
    }

    /// Parses each query block into AST statements, strictly in order:
    /// one statement list per block. It succeeds exactly when the
    /// external parser accepts every block, and the first parse failure
    /// is fatal for the whole call.
    #[verifier::loop_isolation(false)]
    pub fn parse_sql(&self, queries: &Vec<String>) -> (r: Result<
        Vec<Vec<sqlparser::ast::Statement>>,
        SchemaError,
    >)
        ensures
            r is Ok <==> (forall|i: int|
                0 <= i < queries@.len() ==> parse_ok(#[trigger] queries@[i]@)),
            r is Ok ==> r->Ok_0@.len() == queries@.len(),
            r matches Err(e) ==> e is ParseError,
    {
        let parser = SqlFileParser::default();
        let mut statements: Vec<Vec<sqlparser::ast::Statement>> = Vec::new();
        let mut i: usize = 0;
        while i < queries.len()
            invariant
                i <= queries@.len(),
                statements@.len() == i,
                forall|j: int| 0 <= j < i ==> parse_ok(#[trigger] queries@[j]@),
            decreases queries@.len() - i,
        {
            match parser.parse_sql(queries[i].as_str()) {
                Ok(parsed) => {
                    statements.push(parsed);
                },
                Err(e) => {
                    proof {
                        assert(!parse_ok(queries@[i as int]@));
                    }
                    return Err(e);
                },
            }
            i += 1;
        }
        Ok(statements)
    }
}

/// A parsed query file: where it came from, and its query groups.
pub struct QuerySqlFile {
    pub path: String,
    pub queries: Vec<QueriesMap>,
}

/// One group of parsed statements.
pub struct QueriesMap {
    pub statements: Vec<sqlparser::ast::Statement>,
}

} // verus!
