//! Schema helpers layered on an existing connection: the batched
//! schema-creation statement (optionally followed by a search-path setting)
//! and the catalog lookup that tests a table's presence.

use vstd::prelude::*;
use vstd::string::StringExecFns;
use crate::errors::{spec_normalized, CustomError};

verus! {

/// The statement creating one schema.
pub open spec fn spec_create_schema_stmt(name: Seq<char>) -> Seq<char> {
    "CREATE SCHEMA "@ + name + ";"@
}

/// The concatenated creation statements for every non-empty name, in order.
pub open spec fn spec_schema_batch(names: Seq<Seq<char>>) -> Seq<char>
    decreases names.len(),
{
    if names.len() == 0 {
        Seq::empty()
    } else if names.last().len() == 0 {
        spec_schema_batch(names.drop_last())
    } else {
        spec_schema_batch(names.drop_last()) + spec_create_schema_stmt(names.last())
    }
}

/// The names that are not empty, in order.
pub open spec fn spec_nonempty(names: Seq<Seq<char>>) -> Seq<Seq<char>>
    decreases names.len(),
{
    if names.len() == 0 {
        Seq::empty()
    } else if names.last().len() == 0 {
        spec_nonempty(names.drop_last())
    } else {
        spec_nonempty(names.drop_last()).push(names.last())
    }
}

/// The names joined with a comma and a space.
pub open spec fn spec_comma_list(names: Seq<Seq<char>>) -> Seq<char>
    decreases names.len(),
{
    if names.len() == 0 {
        Seq::empty()
    } else if names.len() == 1 {
        names.last()
    } else {
        spec_comma_list(names.drop_last()) + ", "@ + names.last()
    }
}

/// The statement putting the given schemas, then the default schema, on the
/// session's search path, so the first listed schema becomes the default.
pub open spec fn spec_search_path_stmt(names: Seq<Seq<char>>) -> Seq<char> {
    "SET search_path TO "@ + spec_comma_list(names) + ", public;"@
}

/// The whole batched statement: one creation per non-empty name and, on
/// request, the search-path setting listing exactly the created schemas.
pub open spec fn spec_schemas_statement(names: Seq<Seq<char>>, set_default: bool) -> Seq<char> {
    spec_schema_batch(names) + if set_default {
        spec_search_path_stmt(spec_nonempty(names))
    } else {
        Seq::empty()
    }
}

proof fn lemma_schema_batch_push(names: Seq<Seq<char>>, x: Seq<char>)
    ensures
        spec_schema_batch(names.push(x)) == spec_schema_batch(names) + if x.len() == 0 {
            Seq::<char>::empty()
        } else {
            spec_create_schema_stmt(x)
        },
{
    assert(names.push(x).drop_last() =~~= names);
    assert(names.push(x).last() == x);
    if x.len() == 0 {
        assert(spec_schema_batch(names) + Seq::<char>::empty() =~= spec_schema_batch(names));
    }
}

proof fn lemma_nonempty_push(names: Seq<Seq<char>>, x: Seq<char>)
    ensures
        spec_nonempty(names.push(x)) == if x.len() == 0 {
            spec_nonempty(names)
        } else {
            spec_nonempty(names).push(x)
        },
{
    assert(names.push(x).drop_last() =~~= names);
    assert(names.push(x).last() == x);
}

proof fn lemma_comma_list_push(names: Seq<Seq<char>>, x: Seq<char>)
    ensures
        spec_comma_list(names.push(x)) == if names.len() == 0 {
            x
        } else {
            spec_comma_list(names) + ", "@ + x
        },
{
    assert(names.push(x).drop_last() =~~= names);
    assert(names.push(x).last() == x);
}

/// Renders the batched statement that creates every non-empty schema name of
/// `schema_names` and, when `set_default` is set, additionally puts those
/// schemas (then the default schema) on the session's search path.
pub fn render_create_schemas(schema_names: &Vec<String>, set_default: bool) -> (r: String)
    requires
        schema_names@.len() > 0,
    ensures
        r@ == spec_schemas_statement(schema_names.deep_view(), set_default),
{
    let ghost dv = schema_names.deep_view();
    let mut batch = String::new();
    let mut list = String::new();
    let mut any: bool = false;
    let n = schema_names.len();
    let mut i: usize = 0;
    while i < n
        invariant
            n == schema_names@.len(),
            dv == schema_names.deep_view(),
            dv.len() == n,
            i <= n,
            batch@ == spec_schema_batch(dv.subrange(0, i as int)),
            list@ == spec_comma_list(spec_nonempty(dv.subrange(0, i as int))),
            any == (spec_nonempty(dv.subrange(0, i as int)).len() > 0),
        decreases n - i,
    {
        proof {
            assert(dv[i as int] == schema_names@[i as int]@);
        }
        let name = &schema_names[i];
        if !name.as_str().is_empty() {
            batch.append("CREATE SCHEMA ");
            batch.append(name.as_str());
            batch.append(";");
            if any {
                list.append(", ");
            }
            list.append(name.as_str());
            any = true;
        }
        proof {
            let pre = dv.subrange(0, i as int);
            let x = dv[i as int];
            assert(dv.subrange(0, i + 1) =~~= pre.push(x));
            lemma_schema_batch_push(pre, x);
            lemma_nonempty_push(pre, x);
            if x.len() > 0 {
                lemma_comma_list_push(spec_nonempty(pre), x);
                if spec_nonempty(pre).len() == 0 {
                    assert(Seq::<char>::empty() + x =~= x);
                }
            } else {
                assert(batch@ == spec_schema_batch(pre) + Seq::<char>::empty());
                assert(batch@ =~= spec_schema_batch(pre));
            }
        }
        i = i + 1;
    }
    proof {
        assert(dv.subrange(0, n as int) =~~= dv);
    }
    if set_default {
        batch.append("SET search_path TO ");
        batch.append(list.as_str());
        batch.append(", public;");
        proof {
            assert(batch@ =~= spec_schemas_statement(dv, true));
        }
    } else {
        proof {
            assert(batch@ =~= spec_schemas_statement(dv, false));
        }
    }
    batch
}

/// A schema-creation call is accepted exactly when the list holds at least
/// one name; an empty list is a caller programming error to fail fast on,
/// before any statement is built or sent.
pub fn valid_schema_list(schema_names: &Vec<String>) -> (r: bool)
    ensures
        r == (schema_names@.len() > 0),
{
    schema_names.len() > 0
}

/// Delivers the result of the batched schema execution under the same
/// handler contract as the lifecycle calls: success passes through, and a
/// failure is delivered as the normalized error, never swallowed.
pub fn schemas_outcome(result: Result<(), tokio_postgres::Error>) -> (r: Result<(), CustomError>)
    ensures
        result is Ok <==> r is Ok,
        (result matches Err(e) ==> (r matches Err(ce) && spec_normalized(ce, e))),
{
    match result {
        Result::Ok(()) => Result::Ok(()),
        Result::Err(e) => Result::Err(CustomError::new(e)),
    }
}

/// The schema a table lookup runs against: the default schema when the given
/// name is empty, the given name otherwise.
pub open spec fn spec_effective_schema(schema: Seq<char>) -> Seq<char> {
    if schema.len() == 0 {
        "public"@
    } else {
        schema
    }
}

/// The catalog lookup returning one row per table of the given name in the
/// given schema.
pub open spec fn spec_table_lookup(schema: Seq<char>, table: Seq<char>) -> Seq<char> {
    "SELECT table_name FROM information_schema.tables WHERE table_schema = '"@
        + spec_effective_schema(schema) + "' AND table_name = '"@ + table + "';"@
}

/// A table lookup is accepted exactly when the table name is non-empty; an
/// empty table name is a caller programming error to fail fast on, before any
/// statement is built or sent.
pub fn valid_table_name(table_name: &str) -> (r: bool)
    ensures
        r == (table_name@.len() > 0),
{
    !table_name.is_empty()
}

/// Renders the catalog lookup for `table_name` in `schema_name`, defaulting
/// to the default schema when `schema_name` is empty.
pub fn render_table_lookup(schema_name: &str, table_name: &str) -> (r: String)
    requires
        table_name@.len() > 0,
    ensures
        r@ == spec_table_lookup(schema_name@, table_name@),
{
    let mut stmt = String::from_str(
        "SELECT table_name FROM information_schema.tables WHERE table_schema = '",
    );
    if schema_name.is_empty() {
        stmt.append("public");
    } else {
        stmt.append(schema_name);
    }
    stmt.append("' AND table_name = '");
    stmt.append(table_name);
    stmt.append("';");
    stmt
}

/// Interprets the row count of the catalog lookup: the table is present
/// exactly when at least one row came back.
pub fn table_present(rows: u64) -> (r: bool)
    ensures
        r == (rows != 0),
{
    rows != 0
}

} // verus!
