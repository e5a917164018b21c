use vstd::prelude::*;
use vstd::string::*;
use crate::resource::DatabaseResource;
use crate::strings::{is_ascii_text, lemma_snake_ascii, camel_to_snake_case, decimal_of, push_decimal, snake_of};
use crate::values::{insert_slot_of, DatabaseValue, ValueView};

verus! {

/// A column name paired with the value it is compared with or set to.
pub type Param = (String, DatabaseValue);

pub type ParamView = (Seq<char>, ValueView);

pub open spec fn params_view(p: Seq<Param>) -> Seq<ParamView> {
    p.map_values(|x: Param| (x.0@, x.1@))
}

pub open spec fn fields_of(p: Seq<ParamView>) -> Seq<Seq<char>> {
    p.map_values(|x: ParamView| x.0)
}

pub open spec fn values_of(p: Seq<ParamView>) -> Seq<ValueView> {
    p.map_values(|x: ParamView| x.1)
}

pub open spec fn texts(v: Seq<String>) -> Seq<Seq<char>> {
    v.map_values(|s: String| s@)
}

pub open spec fn value_views(v: Seq<DatabaseValue>) -> Seq<ValueView> {
    v.map_values(|x: DatabaseValue| x@)
}

/// The items written one after another with `sep` between each two.
pub open spec fn joined(items: Seq<Seq<char>>, sep: Seq<char>) -> Seq<char>
    decreases items.len(),
{
    if items.len() == 0 {
        Seq::empty()
    } else if items.len() == 1 {
        items[0]
    } else {
        joined(items.drop_last(), sep) + sep + items.last()
    }
}

/// The plural of an English word, as the pluralizer crate forms it.
pub uninterp spec fn plural_of(word: Seq<char>) -> Seq<char>;

/// The table of an entity: its type name in snake_case, pluralized.
pub open spec fn table_of(name: Seq<char>) -> Seq<char> {
    plural_of(snake_of(name))
}

/// Which rows a query sees with respect to soft deletion.
#[derive(Debug, Clone, Copy, PartialEq, Eq, Structural)]
pub enum ArchiveFilter {
    Any,
    Unarchived,
    Archived,
}

pub open spec fn archive_conditions(f: ArchiveFilter) -> Seq<Seq<char>> {
    match f {
        ArchiveFilter::Any => Seq::empty(),
        ArchiveFilter::Unarchived => seq!["archived_at IS NULL"@],
        ArchiveFilter::Archived => seq!["archived_at IS NOT NULL"@],
    }
}

/// `field = $n`.
pub open spec fn condition_of(field: Seq<char>, n: nat) -> Seq<char> {
    field + " = $"@ + decimal_of(n)
}

/// One equality per field, bound in order from `$1`.
pub open spec fn equality_conditions(fields: Seq<Seq<char>>) -> Seq<Seq<char>> {
    Seq::new(fields.len(), |i: int| condition_of(fields[i], (i + 1) as nat))
}

/// The WHERE clause that ANDs the conditions; nothing when there are none.
pub open spec fn where_of(conds: Seq<Seq<char>>) -> Seq<char> {
    if conds.len() == 0 {
        Seq::empty()
    } else {
        " WHERE "@ + joined(conds, " AND "@)
    }
}

pub open spec fn select_conditions(filter: ArchiveFilter, fields: Seq<Seq<char>>) -> Seq<Seq<char>> {
    archive_conditions(filter) + equality_conditions(fields)
}

/// The text of a SELECT over `table`.
pub open spec fn select_sql(
    table: Seq<char>,
    filter: ArchiveFilter,
    fields: Seq<Seq<char>>,
    order_by: Seq<char>,
    limit_one: bool,
) -> Seq<char> {
    "SELECT * FROM "@ + table + where_of(select_conditions(filter, fields)) + " ORDER BY "@
        + order_by + if limit_one {
        " LIMIT 1"@
    } else {
        Seq::<char>::empty()
    }
}

/// A statement ready to run: its text and the values bound to `$1`, `$2`, ...
pub struct Query {
    pub sql: String,
    pub binds: Vec<DatabaseValue>,
}

/// Relies on `pluralizer::pluralize` with a count of 2 and no count prefix: the
/// plural form of the word, which depends on the word alone. Its case restoring
/// slices a captured piece by byte, which panics on some non-ASCII words, so
/// the word must be ASCII.
#[verifier::external_body]
fn pluralize_word(word: &str) -> (r: String)
    requires
        is_ascii_text(word@),
    ensures
        r@ == plural_of(word@),
{
    pluralizer::pluralize(word, 2, false)
}

/// The table name of the resource `R`.
pub fn table_name<R: DatabaseResource>() -> (r: String)
    ensures
        r@ == table_of(R::spec_name()),
{
    let name = R::resource_name();
    let snake = camel_to_snake_case(name);
    proof {
        lemma_snake_ascii(R::spec_name(), R::spec_name().len() as int);
    }
    pluralize_word(snake.as_str())
}

proof fn lemma_joined_step(items: Seq<Seq<char>>, sep: Seq<char>, i: int)
    requires
        0 <= i < items.len(),
    ensures
        joined(items.take(i + 1), sep) == if i == 0 {
            items[0]
        } else {
            joined(items.take(i), sep) + sep + items[i]
        },
{
    if i > 0 {
        assert(items.take(i + 1).drop_last() =~= items.take(i));
    }
}

/// Appends the items to `sql`, separated by `sep`.
pub fn push_joined(sql: &mut String, items: &Vec<String>, sep: &str)
    ensures
        final(sql)@ == old(sql)@ + joined(texts(items@), sep@),
{
    let ghost start = sql@;
    let ghost t = texts(items@);
    let mut i: usize = 0;
    while i < items.len()
        invariant
            i <= items@.len(),
            t == texts(items@),
            sql@ == start + joined(t.take(i as int), sep@),
        decreases items@.len() - i,
    {
        proof {
            lemma_joined_step(t, sep@, i as int);
        }
        if i > 0 {
            sql.append(sep);
        }
        sql.append(items[i].as_str());
        proof {
            assert(t[i as int] == items@[i as int]@);
        }
        assert(sql@ =~= start + joined(t.take(i + 1), sep@));
        i = i + 1;
    }
    assert(t.take(i as int) =~= t);
}

/// Appends the WHERE clause of the conditions to `sql`.
pub fn push_where(sql: &mut String, conds: &Vec<String>)
    ensures
        final(sql)@ == old(sql)@ + where_of(texts(conds@)),
{
    if conds.len() > 0 {
        sql.append(" WHERE ");
        push_joined(sql, conds, " AND ");
        assert(final(sql)@ =~= old(sql)@ + where_of(texts(conds@)));
    } else {
        assert(texts(conds@).len() == 0);
        assert(final(sql)@ =~= old(sql)@ + where_of(texts(conds@)));
    }
}

/// The text `field = $n`.
pub fn condition_text(field: &String, n: usize) -> (r: String)
    ensures
        r@ == condition_of(field@, n as nat),
{
    let mut s = field.clone();
    s.append(" = $");
    push_decimal(&mut s, n as u64);
    assert(s@ =~= condition_of(field@, n as nat));
    s
}

/// The conditions of a SELECT: the archive filter's, then one equality per
/// parameter.
pub fn select_condition_list(filter: ArchiveFilter, params: &Vec<Param>) -> (r: Vec<String>)
    ensures
        texts(r@) == select_conditions(filter, fields_of(params_view(params@))),
{
    let ghost fields = fields_of(params_view(params@));
    let mut conds: Vec<String> = Vec::new();
    match filter {
        ArchiveFilter::Any => {},
        ArchiveFilter::Unarchived => {
            conds.push(String::from_str("archived_at IS NULL"));
        },
        ArchiveFilter::Archived => {
            conds.push(String::from_str("archived_at IS NOT NULL"));
        },
    }
    let ghost base = archive_conditions(filter);
    assert(texts(conds@) =~= base);
    let mut i: usize = 0;
    while i < params.len()
        invariant
            i <= params@.len(),
            fields == fields_of(params_view(params@)),
            base == archive_conditions(filter),
            texts(conds@) == base + equality_conditions(fields).take(i as int),
        decreases params@.len() - i,
    {
        let c = condition_text(&params[i].0, i + 1);
        proof {
            assert(fields[i as int] == params@[i as int].0@);
            assert(equality_conditions(fields)[i as int] == c@);
        }
        let ghost prev = conds@;
        conds.push(c);
        assert(texts(conds@) =~= texts(prev).push(c@));
        assert(texts(conds@) =~= base + equality_conditions(fields).take(i + 1));
        i = i + 1;
    }
    assert(equality_conditions(fields).take(i as int) =~= equality_conditions(fields));
    conds
}

/// The values of the parameters, in order.
pub fn bind_values(params: &Vec<Param>) -> (r: Vec<DatabaseValue>)
    ensures
        value_views(r@) == values_of(params_view(params@)),
{
    let mut out: Vec<DatabaseValue> = Vec::new();
    let mut i: usize = 0;
    while i < params.len()
        invariant
            i <= params@.len(),
            value_views(out@) == values_of(params_view(params@)).take(i as int),
        decreases params@.len() - i,
    {
        let v = params[i].1.duplicate();
        proof {
            assert(values_of(params_view(params@))[i as int] == v@);
        }
        let ghost prev = out@;
        out.push(v);
        assert(value_views(out@) =~= value_views(prev).push(v@));
        assert(value_views(out@) =~= values_of(params_view(params@)).take(i + 1));
        i = i + 1;
    }
    assert(values_of(params_view(params@)).take(i as int) =~= values_of(params_view(params@)));
    out
}

/// A SELECT of the rows of `R` where every parameter's column equals its value,
/// restricted by `filter`, ordered by `order_by`, and limited to one row when
/// `limit_one` holds.
pub fn find_query<R: DatabaseResource>(
    params: &Vec<Param>,
    filter: ArchiveFilter,
    order_by: &str,
    limit_one: bool,
) -> (r: Query)
    ensures
        r.sql@ == select_sql(
            table_of(R::spec_name()),
            filter,
            fields_of(params_view(params@)),
            order_by@,
            limit_one,
        ),
        value_views(r.binds@) == values_of(params_view(params@)),
{
    let mut sql = String::from_str("SELECT * FROM ");
    let table = table_name::<R>();
    sql.append(table.as_str());
    let conds = select_condition_list(filter, params);
    push_where(&mut sql, &conds);
    sql.append(" ORDER BY ");
    sql.append(order_by);
    if limit_one {
        sql.append(" LIMIT 1");
    }
    let binds = bind_values(params);
    Query { sql, binds }
}

/// The first index from `k` on whose column is `f`, or -1.
pub open spec fn index_from(ps: Seq<ParamView>, f: Seq<char>, k: int) -> int
    decreases ps.len() - k,
{
    if k < 0 || k >= ps.len() {
        -1
    } else if ps[k].0 == f {
        k
    } else {
        index_from(ps, f, k + 1)
    }
}

/// `ps` with column `f` set to `v`: the first entry for `f` is replaced, or one
/// is added at the end.
pub open spec fn stamped(ps: Seq<ParamView>, f: Seq<char>, v: ValueView) -> Seq<ParamView> {
    let j = index_from(ps, f, 0);
    if j >= 0 {
        ps.update(j, (f, v))
    } else {
        ps.push((f, v))
    }
}

/// A timestamp value given as text.
pub open spec fn timestamp_view(t: Seq<char>) -> ValueView {
    (7, Some(t))
}

/// A plain text value.
pub open spec fn text_view(t: Seq<char>) -> ValueView {
    (2, Some(t))
}

/// The columns an INSERT of `R` writes: the caller's, then a generated `id`,
/// then `created_at`, `updated_at` and `expires_at` as the flags of `R` ask.
pub open spec fn insert_params_of<R: DatabaseResource>(
    ps: Seq<ParamView>,
    id: Seq<char>,
    now: Seq<char>,
    expires: Seq<char>,
) -> Seq<ParamView> {
    let a = if R::spec_has_id() {
        ps.push(("id"@, text_view(id)))
    } else {
        ps
    };
    let b = if R::spec_is_creatable() {
        stamped(a, "created_at"@, timestamp_view(now))
    } else {
        a
    };
    let c = if R::spec_is_updatable() {
        stamped(b, "updated_at"@, timestamp_view(now))
    } else {
        b
    };
    if R::spec_is_expirable() {
        stamped(c, "expires_at"@, timestamp_view(expires))
    } else {
        c
    }
}

pub open spec fn insert_slots(vals: Seq<ValueView>) -> Seq<Seq<char>> {
    Seq::new(vals.len(), |i: int| insert_slot_of(vals[i], (i + 1) as nat))
}

/// The text of an INSERT of the columns `ps` into `table`.
pub open spec fn insert_sql(table: Seq<char>, ps: Seq<ParamView>) -> Seq<char> {
    "INSERT INTO "@ + table + " ("@ + joined(fields_of(ps), ", "@) + ") VALUES ("@ + joined(
        insert_slots(values_of(ps)),
        ", "@,
    ) + ") RETURNING *"@
}

/// The column names of the parameters, in order.
pub fn field_names(params: &Vec<Param>) -> (r: Vec<String>)
    ensures
        texts(r@) == fields_of(params_view(params@)),
{
    let mut out: Vec<String> = Vec::new();
    let mut i: usize = 0;
    while i < params.len()
        invariant
            i <= params@.len(),
            texts(out@) == fields_of(params_view(params@)).take(i as int),
        decreases params@.len() - i,
    {
        let f = params[i].0.clone();
        proof {
            assert(fields_of(params_view(params@))[i as int] == f@);
        }
        let ghost prev = out@;
        out.push(f);
        assert(texts(out@) =~= texts(prev).push(f@));
        assert(texts(out@) =~= fields_of(params_view(params@)).take(i + 1));
        i = i + 1;
    }
    assert(fields_of(params_view(params@)).take(i as int) =~= fields_of(params_view(params@)));
    out
}

/// Sets column `field` to `value` in `params`: the first entry for it is
/// replaced, or one is added at the end.
pub fn stamp(params: &mut Vec<Param>, field: &str, value: DatabaseValue)
    ensures
        params_view(final(params)@) == stamped(params_view(old(params)@), field@, value@),
{
    let ghost ps = params_view(params@);
    let name = String::from_str(field);
    let mut i: usize = 0;
    let mut found = false;
    while i < params.len()
        invariant
            ps == params_view(params@),
            i <= params@.len(),
            name@ == field@,
            index_from(ps, field@, 0) == index_from(ps, field@, i as int),
            found ==> i < params@.len() && ps[i as int].0 == field@,
        ensures
            ps == params_view(params@),
            i <= params@.len(),
            index_from(ps, field@, 0) == index_from(ps, field@, i as int),
            found ==> i < params@.len() && ps[i as int].0 == field@,
            !found ==> i == params@.len(),
        decreases params@.len() - i + if found { 0int } else { 1int },
    {
        if params[i].0 == name {
            found = true;
            break;
        }
        i = i + 1;
    }
    if found {
        params[i] = (name, value);
        assert(params_view(params@) =~= stamped(ps, field@, value@));
    } else {
        assert(index_from(ps, field@, i as int) == -1);
        params.push((name, value));
        assert(params_view(params@) =~= stamped(ps, field@, value@));
    }
}

/// The VALUES entries of the parameters, bound in order from `$1`.
pub fn insert_slot_list(params: &Vec<Param>) -> (r: Vec<String>)
    ensures
        texts(r@) == insert_slots(values_of(params_view(params@))),
{
    let ghost vals = values_of(params_view(params@));
    let mut out: Vec<String> = Vec::new();
    let mut i: usize = 0;
    while i < params.len()
        invariant
            i <= params@.len(),
            vals == values_of(params_view(params@)),
            texts(out@) == insert_slots(vals).take(i as int),
        decreases params@.len() - i,
    {
        let mut slot = String::new();
        params[i].1.push_insert_slot(&mut slot, i + 1);
        proof {
            assert(vals[i as int] == params@[i as int].1@);
            assert(slot@ =~= insert_slots(vals)[i as int]);
        }
        let ghost prev = out@;
        out.push(slot);
        assert(texts(out@) =~= texts(prev).push(slot@));
        assert(texts(out@) =~= insert_slots(vals).take(i + 1));
        i = i + 1;
    }
    assert(insert_slots(vals).take(i as int) =~= insert_slots(vals));
    out
}

/// An INSERT into the table of `R` of exactly the columns `params`, returning
/// the new row.
pub fn insert_statement<R: DatabaseResource>(params: &Vec<Param>) -> (r: Query)
    ensures
        r.sql@ == insert_sql(table_of(R::spec_name()), params_view(params@)),
        value_views(r.binds@) == values_of(params_view(params@)),
{
    let mut sql = String::from_str("INSERT INTO ");
    let table = table_name::<R>();
    sql.append(table.as_str());
    sql.append(" (");
    let fields = field_names(params);
    push_joined(&mut sql, &fields, ", ");
    sql.append(") VALUES (");
    let slots = insert_slot_list(params);
    push_joined(&mut sql, &slots, ", ");
    sql.append(") RETURNING *");
    let binds = bind_values(params);
    Query { sql, binds }
}

/// The INSERT of a new `R` with the caller's columns, the identifier `id` where
/// `R` has one, and the timestamp columns that `R` keeps: `created_at` and
/// `updated_at` set to `now`, `expires_at` to `expires`.
pub fn insert_query<R: DatabaseResource>(
    params: Vec<Param>,
    id: &String,
    now: &String,
    expires: &String,
) -> (r: Query)
    ensures
        r.sql@ == insert_sql(
            table_of(R::spec_name()),
            insert_params_of::<R>(params_view(params@), id@, now@, expires@),
        ),
        value_views(r.binds@) == values_of(
            insert_params_of::<R>(params_view(params@), id@, now@, expires@),
        ),
{
    let mut ps = params;
    if R::has_id() {
        let ghost prev = ps@;
        ps.push((String::from_str("id"), DatabaseValue::String(id.clone())));
        assert(params_view(ps@) =~= params_view(prev).push(("id"@, text_view(id@))));
    }
    if R::is_creatable() {
        stamp(&mut ps, "created_at", DatabaseValue::DateTime(now.clone()));
    }
    if R::is_updatable() {
        stamp(&mut ps, "updated_at", DatabaseValue::DateTime(now.clone()));
    }
    if R::is_expirable() {
        stamp(&mut ps, "expires_at", DatabaseValue::DateTime(expires.clone()));
    }
    insert_statement::<R>(&ps)
}

/// The columns an UPDATE of `R` writes: the caller's, then `updated_at` and
/// `expires_at` as the flags of `R` ask.
pub open spec fn update_params_of<R: DatabaseResource>(
    ps: Seq<ParamView>,
    now: Seq<char>,
    expires: Seq<char>,
) -> Seq<ParamView> {
    let a = if R::spec_is_updatable() {
        ps.push(("updated_at"@, text_view(now)))
    } else {
        ps
    };
    if R::spec_is_expirable() {
        a.push(("expires_at"@, text_view(expires)))
    } else {
        a
    }
}

/// A column whose name ends in `_at` holds a timestamp.
pub open spec fn is_timestamp_column(f: Seq<char>) -> bool {
    f.len() >= 3 && f[f.len() - 3] == '_' && f[f.len() - 2] == 'a' && f[f.len() - 1] == 't'
}

/// `field = $n`, cast to a timestamp for a timestamp column.
pub open spec fn assignment_of(f: Seq<char>, n: nat) -> Seq<char> {
    if is_timestamp_column(f) {
        f + " = CAST($"@ + decimal_of(n) + " AS TIMESTAMP)"@
    } else {
        condition_of(f, n)
    }
}

pub open spec fn assignments(fields: Seq<Seq<char>>) -> Seq<Seq<char>> {
    Seq::new(fields.len(), |i: int| assignment_of(fields[i], (i + 1) as nat))
}

/// The text of an UPDATE of the columns `fields` of the row whose id is bound
/// after them.
pub open spec fn update_sql(table: Seq<char>, fields: Seq<Seq<char>>) -> Seq<char> {
    "UPDATE "@ + table + " SET "@ + joined(assignments(fields), ", "@) + " WHERE id = $"@
        + decimal_of(fields.len() + 1) + " RETURNING *"@
}

/// The text of a delete of the rows where every field equals its value: a soft
/// delete that sets `archived_at` (bound after the fields) when `archivable`,
/// else a real DELETE.
pub open spec fn delete_sql(table: Seq<char>, archivable: bool, fields: Seq<Seq<char>>) -> Seq<
    char,
> {
    if archivable {
        "UPDATE "@ + table + " SET archived_at = CAST($"@ + decimal_of(fields.len() + 1)
            + " AS TIMESTAMP)"@ + where_of(equality_conditions(fields))
    } else {
        "DELETE FROM "@ + table + where_of(equality_conditions(fields))
    }
}

/// The values bound by a delete: the filters' values, then the archive time of a
/// soft delete.
pub open spec fn delete_binds(archivable: bool, ps: Seq<ParamView>, now: Seq<char>) -> Seq<ValueView> {
    if archivable {
        values_of(ps).push(timestamp_view(now))
    } else {
        values_of(ps)
    }
}

/// The text of a SELECT of the rows of `table` joined with `join_table` by the
/// `<join_table>_id = <table>_id` convention.
pub open spec fn join_sql(table: Seq<char>, join_table: Seq<char>, fields: Seq<Seq<char>>) -> Seq<
    char,
> {
    "SELECT * FROM "@ + table + " JOIN "@ + join_table + " ON "@ + join_table + "_id = "@ + table
        + "_id"@ + where_of(equality_conditions(fields))
}

fn is_timestamp_field(f: &String) -> (r: bool)
    ensures
        r == is_timestamp_column(f@),
{
    let n = f.as_str().unicode_len();
    if n < 3 {
        return false;
    }
    let a = f.as_str().get_char(n - 3);
    let b = f.as_str().get_char(n - 2);
    let c = f.as_str().get_char(n - 1);
    a == '_' && b == 'a' && c == 't'
}

/// The SET entries of an UPDATE, bound in order from `$1`.
pub fn assignment_list(params: &Vec<Param>) -> (r: Vec<String>)
    ensures
        texts(r@) == assignments(fields_of(params_view(params@))),
{
    let ghost fields = fields_of(params_view(params@));
    let mut out: Vec<String> = Vec::new();
    let mut i: usize = 0;
    while i < params.len()
        invariant
            i <= params@.len(),
            fields == fields_of(params_view(params@)),
            texts(out@) == assignments(fields).take(i as int),
        decreases params@.len() - i,
    {
        let f = &params[i].0;
        proof {
            assert(fields[i as int] == f@);
        }
        let entry = if is_timestamp_field(f) {
            let mut e = f.clone();
            e.append(" = CAST($");
            push_decimal(&mut e, (i + 1) as u64);
            e.append(" AS TIMESTAMP)");
            e
        } else {
            condition_text(f, i + 1)
        };
        assert(entry@ =~= assignments(fields)[i as int]);
        let ghost prev = out@;
        out.push(entry);
        assert(texts(out@) =~= texts(prev).push(entry@));
        assert(texts(out@) =~= assignments(fields).take(i + 1));
        i = i + 1;
    }
    assert(assignments(fields).take(i as int) =~= assignments(fields));
    out
}

/// An UPDATE of the row of `R` whose id is `id`: the caller's columns, then
/// `updated_at` set to `now` and `expires_at` to `expires` where `R` keeps them.
pub fn update_query<R: DatabaseResource>(
    params: Vec<Param>,
    id: &DatabaseValue,
    now: &String,
    expires: &String,
) -> (r: Query)
    requires
        params@.len() + 3 <= usize::MAX,
    ensures
        r.sql@ == update_sql(
            table_of(R::spec_name()),
            fields_of(update_params_of::<R>(params_view(params@), now@, expires@)),
        ),
        value_views(r.binds@) == values_of(
            update_params_of::<R>(params_view(params@), now@, expires@),
        ).push(id@),
{
    let mut ps = params;
    let ghost given = params_view(ps@);
    if R::is_updatable() {
        let ghost prev = ps@;
        ps.push((String::from_str("updated_at"), DatabaseValue::String(now.clone())));
        assert(params_view(ps@) =~= params_view(prev).push(("updated_at"@, text_view(now@))));
    }
    if R::is_expirable() {
        let ghost prev = ps@;
        ps.push((String::from_str("expires_at"), DatabaseValue::String(expires.clone())));
        assert(params_view(ps@) =~= params_view(prev).push(("expires_at"@, text_view(expires@))));
    }
    assert(params_view(ps@) == update_params_of::<R>(given, now@, expires@));
    let mut sql = String::from_str("UPDATE ");
    let table = table_name::<R>();
    sql.append(table.as_str());
    sql.append(" SET ");
    let entries = assignment_list(&ps);
    push_joined(&mut sql, &entries, ", ");
    sql.append(" WHERE id = $");
    push_decimal(&mut sql, (ps.len() + 1) as u64);
    sql.append(" RETURNING *");
    let mut binds = bind_values(&ps);
    let ghost prev = binds@;
    binds.push(id.duplicate());
    assert(value_views(binds@) =~= value_views(prev).push(id@));
    proof {
        assert(fields_of(params_view(ps@)).len() == ps@.len());
    }
    Query { sql, binds }
}

/// The delete of the rows of `R` where every parameter's column equals its
/// value: a soft delete that sets `archived_at` to `now` when `R` is archivable,
/// else a real DELETE.
pub fn delete_query<R: DatabaseResource>(params: &Vec<Param>, now: &String) -> (r: Query)
    requires
        params@.len() < usize::MAX,
    ensures
        r.sql@ == delete_sql(
            table_of(R::spec_name()),
            R::spec_is_archivable(),
            fields_of(params_view(params@)),
        ),
        value_views(r.binds@) == delete_binds(R::spec_is_archivable(), params_view(params@), now@),
{
    let table = table_name::<R>();
    let archivable = R::is_archivable();
    let mut sql = if archivable {
        let mut s = String::from_str("UPDATE ");
        s.append(table.as_str());
        s.append(" SET archived_at = CAST($");
        push_decimal(&mut s, (params.len() + 1) as u64);
        s.append(" AS TIMESTAMP)");
        s
    } else {
        let mut s = String::from_str("DELETE FROM ");
        s.append(table.as_str());
        s
    };
    let conds = select_condition_list(ArchiveFilter::Any, params);
    assert(texts(conds@) =~= equality_conditions(fields_of(params_view(params@))));
    push_where(&mut sql, &conds);
    let mut binds = bind_values(params);
    if archivable {
        let ghost prev = binds@;
        binds.push(DatabaseValue::DateTime(now.clone()));
        assert(value_views(binds@) =~= value_views(prev).push(timestamp_view(now@)));
    }
    proof {
        assert(fields_of(params_view(params@)).len() == params@.len());
    }
    Query { sql, binds }
}

/// A SELECT of the rows of `R` joined with those of `J`, filtered by equality on
/// every parameter's column.
pub fn join_query<R: DatabaseResource, J: DatabaseResource>(params: &Vec<Param>) -> (r: Query)
    ensures
        r.sql@ == join_sql(
            table_of(R::spec_name()),
            table_of(J::spec_name()),
            fields_of(params_view(params@)),
        ),
        value_views(r.binds@) == values_of(params_view(params@)),
{
    let table = table_name::<R>();
    let join_table = table_name::<J>();
    let mut sql = String::from_str("SELECT * FROM ");
    sql.append(table.as_str());
    sql.append(" JOIN ");
    sql.append(join_table.as_str());
    sql.append(" ON ");
    sql.append(join_table.as_str());
    sql.append("_id = ");
    sql.append(table.as_str());
    sql.append("_id");
    let conds = select_condition_list(ArchiveFilter::Any, params);
    assert(texts(conds@) =~= equality_conditions(fields_of(params_view(params@))));
    push_where(&mut sql, &conds);
    let binds = bind_values(params);
    Query { sql, binds }
}

} // verus!
