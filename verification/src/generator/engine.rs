use vstd::prelude::*;
use vstd::string::StrSliceExecFns;
use vstd::string::StringExecFns;

verus! {

/// ASCII uppercasing of one character: letters between 'a' and 'z' move
/// to their upper-case counterpart, everything else is unchanged.
pub open spec fn spec_ascii_upper(c: char) -> char {
    if 'a' <= c && c <= 'z' {
        (((c as u32) - 32) as u32) as char
    } else {
        c
    }
}

/// The capitalized-concatenation form of a delimiter-separated name:
/// underscores are dropped, and each character that opens a segment is
/// upper-cased. `capitalize` says whether the next character opens one.
pub open spec fn spec_pascal(s: Seq<char>, capitalize: bool) -> Seq<char>
    decreases s.len(),
{
    if s.len() == 0 {
        Seq::empty()
    } else if s[0] == '_' {
        spec_pascal(s.drop_first(), true)
    } else if capitalize {
        seq![spec_ascii_upper(s[0])] + spec_pascal(s.drop_first(), false)
    } else {
        seq![s[0]] + spec_pascal(s.drop_first(), false)
    }
}

/// The class name a table name maps to: PascalCase, starting capitalized.
pub open spec fn spec_pascal_case(s: Seq<char>) -> Seq<char> {
    spec_pascal(s, true)
}

/// Relies on String::push: appends exactly the given character at the end.
#[verifier::external_body]
fn push_char(s: &mut String, c: char)
    ensures
        final(s)@ == old(s)@.push(c),
{
    s.push(c)
}

/// ASCII uppercasing of one character.
fn ascii_upper(c: char) -> (r: char)
    ensures
        r == spec_ascii_upper(c),
{
    if 'a' <= c && c <= 'z' {
        ((c as u8) - 32) as char
    } else {
        c
    }
}

/// Converts a snake_case table name to the PascalCase class name: each
/// underscore-separated segment is capitalized and the underscores are
/// removed.
pub fn to_pascal_case(s: &str) -> (r: String)
    ensures
        r@ == spec_pascal_case(s@),
{
    let mut result = String::new();
    let mut capitalize = true;
    let n = s.unicode_len();
    let mut i: usize = 0;
    proof {
        assert(s@.skip(0) =~= s@);
        assert(Seq::<char>::empty() + spec_pascal(s@, true) =~= spec_pascal(s@, true));
    }
    while i < n
        invariant
            n == s@.len(),
            i <= n,
            spec_pascal_case(s@) == result@ + spec_pascal(s@.skip(i as int), capitalize),
        decreases n - i,
    {
        let c = s.get_char(i);
        let ghost rest = s@.skip(i as int);
        let ghost before = result@;
        proof {
            assert(rest[0] == s@[i as int]);
            assert(rest.drop_first() =~= s@.skip(i as int + 1));
        }
        if c == '_' {
            capitalize = true;
        } else if capitalize {
            push_char(&mut result, ascii_upper(c));
            capitalize = false;
            proof {
                assert(result@ =~= before + seq![spec_ascii_upper(c)]);
                assert((before + seq![spec_ascii_upper(c)]) + spec_pascal(
                    s@.skip(i as int + 1),
                    false,
                ) =~= before + (seq![spec_ascii_upper(c)] + spec_pascal(
                    s@.skip(i as int + 1),
                    false,
                )));
            }
        } else {
            push_char(&mut result, c);
            proof {
                assert(result@ =~= before + seq![c]);
                assert((before + seq![c]) + spec_pascal(s@.skip(i as int + 1), false) =~= before
                    + (seq![c] + spec_pascal(s@.skip(i as int + 1), false)));
            }
        }
        i += 1;
    }
    proof {
        assert(s@.skip(n as int) =~= Seq::<char>::empty());
        assert(result@ + Seq::<char>::empty() =~= result@);
    }
    result
}

/// The name of the file generated for one table: the PascalCase class
/// name with the target-language extension.
pub fn entity_file_name(table_name: &str) -> (r: String)
    ensures
        r@ == spec_pascal_case(table_name@) + ".php"@,
{
    let class_name = to_pascal_case(table_name);
    class_name.concat(".php")
}

} // verus!
