//! The SQL template resolver: renders the DDL statement for a lifecycle
//! action and a database name, and the optional quoted-identifier form of a
//! name.

use vstd::prelude::*;
use vstd::string::StringExecFns;
use crate::text::{lemma_without_quotes_no_quote, push_char, strip_quotes, without_quotes};

verus! {

/// The database-lifecycle actions the resolver can render.
#[derive(Clone, Copy, Debug)]
pub enum Action {
    Create,
    Drop,
    ForceDrop,
}

/// Leading clause of the rendered statement: the action verb applied to
/// DATABASE, up to where the database name is substituted.
pub open spec fn spec_verb_clause(action: Action) -> Seq<char> {
    match action {
        Action::Create => "CREATE DATABASE "@,
        Action::Drop => "DROP DATABASE "@,
        Action::ForceDrop => "DROP DATABASE "@,
    }
}

/// Trailing clause of the rendered statement, after the database name.
pub open spec fn spec_terminator(action: Action) -> Seq<char> {
    match action {
        Action::Create => ";"@,
        Action::Drop => ";"@,
        Action::ForceDrop => " WITH (FORCE);"@,
    }
}

/// The full rendered statement: verb clause, database name, terminator.
pub open spec fn spec_statement(action: Action, name: Seq<char>) -> Seq<char> {
    spec_verb_clause(action) + name + spec_terminator(action)
}

fn verb_clause(action: Action) -> (r: &'static str)
    ensures
        r@ == spec_verb_clause(action),
{
    match action {
        Action::Create => "CREATE DATABASE ",
        Action::Drop => "DROP DATABASE ",
        Action::ForceDrop => "DROP DATABASE ",
    }
}

fn terminator(action: Action) -> (r: &'static str)
    ensures
        r@ == spec_terminator(action),
{
    match action {
        Action::Create => ";",
        Action::Drop => ";",
        Action::ForceDrop => " WITH (FORCE);",
    }
}

/// A database name is accepted by the lifecycle operations exactly when it is
/// non-empty; an empty name is a caller programming error.
pub fn valid_db_name(db_name: &str) -> (r: bool)
    ensures
        r == (db_name@.len() > 0),
{
    !db_name.is_empty()
}

/// Renders the DDL statement for `action` on `db_name`.
pub fn get_sql_statement(action: Action, db_name: &str) -> (r: String)
    requires
        db_name@.len() > 0,
    ensures
        r@ == spec_statement(action, db_name@),
{
    let mut stmt = String::from_str(verb_clause(action));
    stmt.append(db_name);
    stmt.append(terminator(action));
    stmt
}

/// `pat` occurs in `text` at position `i`.
pub open spec fn occurs_at(text: Seq<char>, pat: Seq<char>, i: int) -> bool {
    &&& 0 <= i
    &&& i + pat.len() <= text.len()
    &&& forall|k: int| 0 <= k < pat.len() ==> text[i + k] == pat[k]
}

/// For every action and every non-empty name whose characters stay clear of
/// the fixed template text (no character of the verb clause or terminator,
/// and no placeholder marker `$`), the rendered statement carries the verb
/// clause exactly once, the name exactly once right after it, and no
/// placeholder marker at all.
pub proof fn lemma_statement_well_formed(action: Action, name: Seq<char>)
    requires
        name.len() > 0,
        forall|k: int|
            0 <= k < name.len() ==> !spec_verb_clause(action).contains(#[trigger] name[k]),
        forall|k: int|
            0 <= k < name.len() ==> !spec_terminator(action).contains(#[trigger] name[k]),
        !name.contains('$'),
    ensures
        occurs_at(spec_statement(action, name), spec_verb_clause(action), 0),
        forall|j: int| occurs_at(spec_statement(action, name), spec_verb_clause(action), j) ==> j
            == 0,
        occurs_at(spec_statement(action, name), name, spec_verb_clause(action).len() as int),
        forall|j: int| occurs_at(spec_statement(action, name), name, j) ==> j
            == spec_verb_clause(action).len(),
        !spec_statement(action, name).contains('$'),
{
    let clause = spec_verb_clause(action);
    let term = spec_terminator(action);
    let stmt = spec_statement(action, name);
    let cl = clause.len() as int;
    let nl = name.len() as int;
    let tl = term.len() as int;
    match action {
        Action::Create => {
            reveal_strlit("CREATE DATABASE ");
            reveal_strlit(";");
        },
        Action::Drop => {
            reveal_strlit("DROP DATABASE ");
            reveal_strlit(";");
        },
        Action::ForceDrop => {
            reveal_strlit("DROP DATABASE ");
            reveal_strlit(" WITH (FORCE);");
        },
    }
    // Ground facts about the fixed template text.
    assert(cl >= 2 && tl >= 1);
    assert(forall|p: int| 1 <= p < cl && p != 5 ==> #[trigger] clause[p] != clause[0]);
    assert(clause[1] != clause[6]);
    assert(forall|p: int| 0 <= p < tl ==> term[p] != clause[0]);
    assert(forall|p: int| 0 <= p < cl ==> clause[p] != '$');
    assert(forall|p: int| 0 <= p < tl ==> term[p] != '$');
    // How the statement indexes into its three parts.
    assert(stmt.len() == cl + nl + tl);
    assert(forall|i: int| 0 <= i < cl ==> stmt[i] == clause[i]);
    assert(forall|i: int| cl <= i < cl + nl ==> stmt[i] == name[i - cl]);
    assert(forall|i: int| cl + nl <= i < cl + nl + tl ==> stmt[i] == term[i - cl - nl]);
    // The verb clause stands at the front.
    assert(occurs_at(stmt, clause, 0));
    // ... and nowhere else.
    assert forall|j: int| occurs_at(stmt, clause, j) implies j == 0 by {
        if j != 0 {
            if j < cl {
                if j == 5 {
                    assert(stmt[j + 1] == clause[1]);
                    assert(stmt[j + 1] == clause[j + 1]);
                } else {
                    assert(stmt[j + 0] == clause[0]);
                    assert(stmt[j] == clause[j]);
                }
            } else if j < cl + nl {
                assert(stmt[j + 0] == clause[0]);
                assert(clause[0] == name[j - cl]);
                assert(clause.contains(name[j - cl]));
            } else {
                assert(stmt[j + 0] == clause[0]);
                assert(clause[0] == term[j - cl - nl]);
            }
        }
    }
    // The name stands right after the verb clause.
    assert(occurs_at(stmt, name, cl));
    // ... and nowhere else.
    assert forall|j: int| occurs_at(stmt, name, j) implies j == cl by {
        if j != cl {
            if j < cl {
                assert(stmt[j + 0] == name[0]);
                assert(stmt[j] == clause[j]);
                assert(clause.contains(name[0]));
            } else {
                assert(stmt[j + (nl - 1)] == name[nl - 1]);
                assert(stmt[j + nl - 1] == term[j + nl - 1 - cl - nl]);
                assert(term.contains(name[nl - 1]));
            }
        }
    }
    // No placeholder marker survives anywhere in the statement.
    assert forall|i: int| 0 <= i < stmt.len() implies stmt[i] != '$' by {
        if cl <= i < cl + nl {
            assert(stmt[i] == name[i - cl]);
            if name[i - cl] == '$' {
                assert(name.contains('$'));
            }
        }
    }
    assert(!stmt.contains('$'));
}

/// The quoted-identifier form of a name: embedded double quotes are stripped,
/// then the name is enclosed in double quotes.
pub open spec fn spec_quoted(name: Seq<char>) -> Seq<char> {
    seq!['"'] + without_quotes(name) + seq!['"']
}

/// A quoted identifier cannot be broken out of: it is delimited by exactly
/// one double quote on each side, and no interior character is a double
/// quote, so the name cannot terminate the identifier early and inject
/// statement text.
pub proof fn lemma_quoted_identifier_safe(name: Seq<char>)
    ensures
        spec_quoted(name).len() >= 2,
        spec_quoted(name).first() == '"',
        spec_quoted(name).last() == '"',
        forall|i: int|
            0 < i < spec_quoted(name).len() - 1 ==> #[trigger] spec_quoted(name)[i] != '"',
{
    lemma_without_quotes_no_quote(name);
    let q = spec_quoted(name);
    let w = without_quotes(name);
    assert forall|i: int| 0 < i < q.len() - 1 implies q[i] != '"' by {
        assert(q[i] == w[i - 1]);
    }
}

/// Encloses `name` in double quotes, stripping any double quote already
/// inside it so that the result is a single quoted identifier.
pub fn quote_identifier(name: &str) -> (r: String)
    ensures
        r@ == spec_quoted(name@),
{
    let mut r = String::new();
    push_char(&mut r, '"');
    let stripped = strip_quotes(name);
    r.append(stripped.as_str());
    push_char(&mut r, '"');
    proof {
        assert(r@ =~= spec_quoted(name@));
    }
    r
}

} // verus!
