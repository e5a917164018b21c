//! What the statements of `query` do to the rows of a table, and the laws of
//! the persistence layer stated over it. A row maps column names to values;
//! every value is bound and compared as text.
//!
//! The laws take the same resource, filter list and timestamps that the
//! contracts of the statement builders and of the request plans are stated
//! over. The delete step of `delete_team_plan`, `deletes::<Team>` with the
//! filter `id = team_id`, is the `delete_rows(_, true, [id = team_id], now)` of
//! `lemma_archivable_delete_archives`; the delete step of `logout_plan` is the
//! `delete_rows(_, false, [token = t], now)` of `lemma_plain_delete_removes`;
//! an `inserts::<R>` step with columns `ps` creates the `row_of` of
//! `lemma_insert_then_find_by_id`; an `updates::<R>` step followed by its
//! re-read by id is `lemma_update_then_reread`; and the steps of
//! `regenerate_backup_codes_plan` are those of
//! `lemma_regeneration_replaces_codes`.

use vstd::prelude::*;
use crate::query::{
    index_from, insert_params_of, stamped, update_params_of, ArchiveFilter, ParamView,
    timestamp_view, text_view,
};
use crate::backup_code::BackupCode;
use crate::resource::DatabaseResource;
use crate::values::ValueView;

verus! {

/// A table row: column name to value.
pub type RowView = Map<Seq<char>, ValueView>;

/// The column holds the bound value; a NULL equals nothing.
pub open spec fn value_equals(cell: ValueView, v: ValueView) -> bool {
    v.1 is Some && cell.1 == v.1
}

/// The row satisfies every `column = value` filter.
pub open spec fn row_matches(row: RowView, ps: Seq<ParamView>) -> bool {
    forall|i: int|
        0 <= i < ps.len() ==> row.contains_key((#[trigger] ps[i]).0) && value_equals(
            row[ps[i].0],
            ps[i].1,
        )
}

/// The row was soft-deleted: its `archived_at` is set.
pub open spec fn is_archived(row: RowView) -> bool {
    row.contains_key("archived_at"@) && row["archived_at"@].1 is Some
}

pub open spec fn visible(row: RowView, filter: ArchiveFilter) -> bool {
    match filter {
        ArchiveFilter::Any => true,
        ArchiveFilter::Unarchived => !is_archived(row),
        ArchiveFilter::Archived => is_archived(row),
    }
}

pub open spec fn selected(row: RowView, filter: ArchiveFilter, ps: Seq<ParamView>) -> bool {
    visible(row, filter) && row_matches(row, ps)
}

/// The rows a SELECT returns, in table order.
pub open spec fn select_rows(rows: Seq<RowView>, filter: ArchiveFilter, ps: Seq<ParamView>) -> Seq<
    RowView,
> {
    rows.filter(|r: RowView| selected(r, filter, ps))
}

/// The row with `archived_at` set to `now`.
pub open spec fn archive_row(row: RowView, now: Seq<char>) -> RowView {
    row.insert("archived_at"@, timestamp_view(now))
}

/// The table after a delete with the filters `ps` at time `now`: a soft delete
/// archives the matching rows, a real one removes them.
pub open spec fn delete_rows(
    rows: Seq<RowView>,
    archivable: bool,
    ps: Seq<ParamView>,
    now: Seq<char>,
) -> Seq<RowView> {
    if archivable {
        rows.map_values(
            |r: RowView|
                if row_matches(r, ps) {
                    archive_row(r, now)
                } else {
                    r
                },
        )
    } else {
        rows.filter(|r: RowView| !row_matches(r, ps))
    }
}

/// The row with the columns of `ps` written in order.
pub open spec fn with_params(row: RowView, ps: Seq<ParamView>) -> RowView
    decreases ps.len(),
{
    if ps.len() == 0 {
        row
    } else {
        with_params(row, ps.drop_last()).insert(ps.last().0, ps.last().1)
    }
}

/// The row an INSERT of the columns `ps` creates.
pub open spec fn row_of(ps: Seq<ParamView>) -> RowView {
    with_params(Map::empty(), ps)
}

/// The filter that picks a row by its id.
pub open spec fn by_id(id: Seq<char>) -> Seq<ParamView> {
    seq![("id"@, text_view(id))]
}

/// The table after an UPDATE that writes the columns `ps` to the row with `id`.
pub open spec fn update_rows(rows: Seq<RowView>, id: Seq<char>, ps: Seq<ParamView>) -> Seq<RowView> {
    rows.map_values(
        |r: RowView|
            if row_matches(r, by_id(id)) {
                with_params(r, ps)
            } else {
                r
            },
    )
}

/// A column that only the entry at `i` of `ps` writes gets that entry's value.
pub proof fn lemma_with_params_last_entry(row: RowView, ps: Seq<ParamView>, i: int)
    requires
        0 <= i < ps.len(),
        forall|j: int| i < j < ps.len() ==> (#[trigger] ps[j]).0 != ps[i].0,
    ensures
        with_params(row, ps).contains_key(ps[i].0),
        with_params(row, ps)[ps[i].0] == ps[i].1,
    decreases ps.len(),
{
    if i < ps.len() - 1 {
        assert(ps.drop_last()[i] == ps[i]);
        assert forall|j: int| i < j < ps.drop_last().len() implies (
        #[trigger] ps.drop_last()[j]).0 != ps.drop_last()[i].0 by {
            assert(ps.drop_last()[j] == ps[j]);
        }
        lemma_with_params_last_entry(row, ps.drop_last(), i);
        assert(ps[ps.len() - 1].0 != ps[i].0);
    }
}

/// A column that no entry of `ps` writes keeps its state.
pub proof fn lemma_with_params_untouched(row: RowView, ps: Seq<ParamView>, k: Seq<char>)
    requires
        forall|j: int| 0 <= j < ps.len() ==> (#[trigger] ps[j]).0 != k,
    ensures
        with_params(row, ps).contains_key(k) == row.contains_key(k),
        row.contains_key(k) ==> with_params(row, ps)[k] == row[k],
    decreases ps.len(),
{
    if ps.len() > 0 {
        assert forall|j: int| 0 <= j < ps.drop_last().len() implies (
        #[trigger] ps.drop_last()[j]).0 != k by {
            assert(ps.drop_last()[j] == ps[j]);
        }
        lemma_with_params_untouched(row, ps.drop_last(), k);
        assert(ps[ps.len() - 1].0 != k);
    }
}

/// Soft delete: for a resource that is archivable, a delete sets `archived_at` on
/// every row its filters match. No unarchived find, whatever its filters, sees
/// such a row afterwards, and an archived find with the delete's own filters sees
/// it.
pub proof fn lemma_archivable_delete_archives<R: DatabaseResource>(
    rows: Seq<RowView>,
    ps: Seq<ParamView>,
    now: Seq<char>,
    qs: Seq<ParamView>,
    i: int,
)
    requires
        R::spec_is_archivable(),
        0 <= i < rows.len(),
        row_matches(rows[i], ps),
        forall|j: int| 0 <= j < ps.len() ==> (#[trigger] ps[j]).0 != "archived_at"@,
    ensures
        ({
            let after = delete_rows(rows, R::spec_is_archivable(), ps, now);
            &&& after.len() == rows.len()
            &&& after[i] == archive_row(rows[i], now)
            &&& is_archived(after[i])
            &&& !select_rows(after, ArchiveFilter::Unarchived, qs).contains(after[i])
            &&& select_rows(after, ArchiveFilter::Archived, ps).contains(after[i])
        }),
{
    let after = delete_rows(rows, true, ps, now);
    let row = after[i];
    assert(row == archive_row(rows[i], now));
    assert(is_archived(row));
    let un = |r: RowView| selected(r, ArchiveFilter::Unarchived, qs);
    after.filter_lemma(un);
    if after.filter(un).contains(row) {
        let k = choose|k: int| 0 <= k < after.filter(un).len() && after.filter(un)[k] == row;
        assert(un(after.filter(un)[k]));
    }
    assert forall|j: int| 0 <= j < ps.len() implies row.contains_key((#[trigger] ps[j]).0)
        && value_equals(row[ps[j].0], ps[j].1) by {
        assert(rows[i].contains_key(ps[j].0));
    }
    let ar = |r: RowView| selected(r, ArchiveFilter::Archived, ps);
    after.filter_lemma(ar);
    assert(ar(after[i]));
}

/// Hard delete: for a resource that is not archivable, a delete removes every
/// row its filters match. No find with those filters sees one afterwards,
/// archived or not.
pub proof fn lemma_plain_delete_removes<R: DatabaseResource>(
    rows: Seq<RowView>,
    ps: Seq<ParamView>,
    now: Seq<char>,
)
    requires
        !R::spec_is_archivable(),
    ensures
        ({
            let after = delete_rows(rows, R::spec_is_archivable(), ps, now);
            &&& forall|j: int| 0 <= j < after.len() ==> !row_matches(#[trigger] after[j], ps)
            &&& forall|j: int|
                0 <= j < rows.len() && row_matches(#[trigger] rows[j], ps) ==> !after.contains(rows[j])
            &&& select_rows(after, ArchiveFilter::Any, ps).len() == 0
            &&& select_rows(after, ArchiveFilter::Unarchived, ps).len() == 0
            &&& select_rows(after, ArchiveFilter::Archived, ps).len() == 0
        }),
{
    let keep = |r: RowView| !row_matches(r, ps);
    let after = rows.filter(keep);
    rows.filter_lemma(keep);
    assert forall|j: int| 0 <= j < after.len() implies !row_matches(#[trigger] after[j], ps) by {
        assert(keep(after[j]));
    }
    assert forall|j: int| 0 <= j < rows.len() && row_matches(#[trigger] rows[j], ps) implies !after.contains(
        rows[j],
    ) by {
        if after.contains(rows[j]) {
            let k = choose|k: int| 0 <= k < after.len() && after[k] == rows[j];
            assert(keep(after[k]));
        }
    }
    assert forall|f: ArchiveFilter| #![auto] select_rows(after, f, ps).len() == 0 by {
        let pick = |r: RowView| selected(r, f, ps);
        assert forall|j: int| 0 <= j < after.len() implies !pick(#[trigger] after[j]) by {
            assert(keep(after[j]));
        }
        assert(after.all(|x: RowView| !pick(x)));
        after.lemma_all_neg_filter_empty(pick);
    }
    assert(select_rows(after, ArchiveFilter::Any, ps).len() == 0);
    assert(select_rows(after, ArchiveFilter::Unarchived, ps).len() == 0);
    assert(select_rows(after, ArchiveFilter::Archived, ps).len() == 0);
}

/// The column names that the statements write on their own are distinct from
/// one another and from the columns the laws below speak of.
pub proof fn lemma_column_names_distinct()
    ensures
        "id"@ != "created_at"@,
        "id"@ != "updated_at"@,
        "id"@ != "expires_at"@,
        "id"@ != "archived_at"@,
        "created_at"@ != "updated_at"@,
        "created_at"@ != "expires_at"@,
        "updated_at"@ != "expires_at"@,
        "created_at"@ != "archived_at"@,
        "updated_at"@ != "archived_at"@,
        "expires_at"@ != "archived_at"@,
        "code"@ != "user_id"@,
        "code"@ != "id"@,
        "code"@ != "created_at"@,
        "code"@ != "updated_at"@,
        "code"@ != "expires_at"@,
        "code"@ != "archived_at"@,
        "user_id"@ != "id"@,
        "user_id"@ != "created_at"@,
        "user_id"@ != "updated_at"@,
        "user_id"@ != "expires_at"@,
        "user_id"@ != "archived_at"@,
{
    reveal_strlit("id");
    reveal_strlit("created_at");
    reveal_strlit("updated_at");
    reveal_strlit("expires_at");
    reveal_strlit("archived_at");
    reveal_strlit("code");
    reveal_strlit("user_id");
    assert("created_at"@[0] != "updated_at"@[0]);
    assert("created_at"@[0] != "expires_at"@[0]);
    assert("updated_at"@[0] != "expires_at"@[0]);
    assert("id"@.len() == 2);
    assert("code"@.len() == 4);
    assert("user_id"@.len() == 7);
    assert("created_at"@.len() == 10);
    assert("updated_at"@.len() == 10);
    assert("expires_at"@.len() == 10);
    assert("archived_at"@.len() == 11);
    assert("code"@[0] != "user_id"@[0]);
    assert("user_id"@[1] != "updated_at"@[1]);
}

/// The entry at `n` is the last one of `ps` for its column.
pub open spec fn sole_entry(ps: Seq<ParamView>, n: int) -> bool {
    &&& 0 <= n < ps.len()
    &&& forall|j: int| n < j < ps.len() ==> (#[trigger] ps[j]).0 != ps[n].0
}

proof fn lemma_index_from(ps: Seq<ParamView>, f: Seq<char>, k: int)
    requires
        0 <= k,
    ensures
        index_from(ps, f, k) >= 0 ==> k <= index_from(ps, f, k) < ps.len() && ps[index_from(
            ps,
            f,
            k,
        )].0 == f,
        index_from(ps, f, k) < 0 ==> forall|j: int| k <= j < ps.len() ==> (#[trigger] ps[j]).0 != f,
    decreases ps.len() - k,
{
    if k < ps.len() && ps[k].0 != f {
        lemma_index_from(ps, f, k + 1);
    }
}

/// Setting another column keeps the last entry of a column where it is.
proof fn lemma_stamped_keeps_entry(ps: Seq<ParamView>, n: int, f: Seq<char>, v: ValueView)
    requires
        sole_entry(ps, n),
        ps[n].0 != f,
    ensures
        sole_entry(stamped(ps, f, v), n),
        stamped(ps, f, v)[n] == ps[n],
        stamped(ps, f, v).len() >= ps.len(),
        forall|j: int|
            0 <= j < stamped(ps, f, v).len() ==> (#[trigger] stamped(ps, f, v)[j]).0 == f || (j
                < ps.len() && stamped(ps, f, v)[j] == ps[j]),
{
    lemma_index_from(ps, f, 0);
}

/// Every column of the entries of `ps` is one of `names`.
pub open spec fn columns_within(ps: Seq<ParamView>, names: Set<Seq<char>>) -> bool {
    forall|j: int| 0 <= j < ps.len() ==> names.contains((#[trigger] ps[j]).0)
}

proof fn lemma_stamped_columns(ps: Seq<ParamView>, f: Seq<char>, v: ValueView, names: Set<Seq<char>>)
    requires
        columns_within(ps, names),
        names.contains(f),
    ensures
        columns_within(stamped(ps, f, v), names),
{
    lemma_index_from(ps, f, 0);
    let out = stamped(ps, f, v);
    assert forall|j: int| 0 <= j < out.len() implies names.contains((#[trigger] out[j]).0) by {
        if j < ps.len() && out[j] != ps[j] {
        } else if j < ps.len() {
            assert(names.contains(ps[j].0));
        }
    }
}

/// The entries of the caller that an INSERT of `R` keeps as they are: those of
/// columns that the resource does not stamp itself.
proof fn lemma_insert_keeps_entry<R: DatabaseResource>(
    ps: Seq<ParamView>,
    id: Seq<char>,
    now: Seq<char>,
    expires: Seq<char>,
    all: Seq<ParamView>,
    n: int,
)
    requires
        sole_entry(all, n),
        all.len() >= ps.len(),
        all[n].0 != "created_at"@,
        all[n].0 != "updated_at"@,
        all[n].0 != "expires_at"@,
        all == (if R::spec_has_id() {
            ps.push(("id"@, text_view(id)))
        } else {
            ps
        }),
    ensures
        sole_entry(insert_params_of::<R>(ps, id, now, expires), n),
        insert_params_of::<R>(ps, id, now, expires)[n] == all[n],
{
    let b = if R::spec_is_creatable() {
        stamped(all, "created_at"@, timestamp_view(now))
    } else {
        all
    };
    if R::spec_is_creatable() {
        lemma_stamped_keeps_entry(all, n, "created_at"@, timestamp_view(now));
    }
    let c = if R::spec_is_updatable() {
        stamped(b, "updated_at"@, timestamp_view(now))
    } else {
        b
    };
    if R::spec_is_updatable() {
        lemma_stamped_keeps_entry(b, n, "updated_at"@, timestamp_view(now));
    }
    if R::spec_is_expirable() {
        lemma_stamped_keeps_entry(c, n, "expires_at"@, timestamp_view(expires));
    }
}

/// Insert: for a resource with an identifier, the row an insert creates holds
/// the generated id, and a find by that id sees the new row.
pub proof fn lemma_insert_then_find_by_id<R: DatabaseResource>(
    rows: Seq<RowView>,
    ps: Seq<ParamView>,
    id: Seq<char>,
    now: Seq<char>,
    expires: Seq<char>,
)
    requires
        R::spec_has_id(),
        forall|j: int| 0 <= j < ps.len() ==> (#[trigger] ps[j]).0 != "id"@,
    ensures
        ({
            let row = row_of(insert_params_of::<R>(ps, id, now, expires));
            &&& row.contains_key("id"@)
            &&& row["id"@] == text_view(id)
            &&& select_rows(rows.push(row), ArchiveFilter::Any, by_id(id)).contains(row)
        }),
{
    lemma_column_names_distinct();
    let all = ps.push(("id"@, text_view(id)));
    let n = ps.len() as int;
    lemma_insert_keeps_entry::<R>(ps, id, now, expires, all, n);
    let full = insert_params_of::<R>(ps, id, now, expires);
    lemma_with_params_last_entry(Map::empty(), full, n);
    let row = row_of(full);
    let pick = |r: RowView| selected(r, ArchiveFilter::Any, by_id(id));
    assert(row_matches(row, by_id(id)));
    rows.lemma_filter_push(row, pick);
    assert(rows.push(row).filter(pick) == rows.filter(pick).push(row));
    assert(rows.push(row).filter(pick)[rows.filter(pick).len() as int] == row);
}

/// Update: after an update of the row with `id`, a find by that id sees the
/// updated row, and every row it returns holds each value the caller set.
pub proof fn lemma_update_then_reread<R: DatabaseResource>(
    rows: Seq<RowView>,
    id: Seq<char>,
    ps: Seq<ParamView>,
    now: Seq<char>,
    expires: Seq<char>,
)
    requires
        forall|j: int|
            0 <= j < ps.len() ==> (#[trigger] ps[j]).0 != "id"@ && ps[j].0 != "updated_at"@ && ps[j].0
                != "expires_at"@,
        forall|a: int, b: int| 0 <= a < b < ps.len() ==> (#[trigger] ps[a]).0 != (#[trigger] ps[b]).0,
    ensures
        ({
            let ups = update_params_of::<R>(ps, now, expires);
            let found = select_rows(update_rows(rows, id, ups), ArchiveFilter::Any, by_id(id));
            &&& forall|k: int, i: int|
                0 <= k < found.len() && 0 <= i < ps.len() ==> (#[trigger] found[k]).contains_key(
                    (#[trigger] ps[i]).0,
                ) && found[k][ps[i].0] == ps[i].1
            &&& forall|j: int|
                0 <= j < rows.len() && row_matches(#[trigger] rows[j], by_id(id)) ==> found.contains(
                    with_params(rows[j], ups),
                )
        }),
{
    lemma_column_names_distinct();
    let ups = update_params_of::<R>(ps, now, expires);
    let after = update_rows(rows, id, ups);
    let pick = |r: RowView| selected(r, ArchiveFilter::Any, by_id(id));
    let found = after.filter(pick);
    after.filter_lemma(pick);
    assert forall|j: int| 0 <= j < ups.len() implies (#[trigger] ups[j]).0 != "id"@ by {
        if j < ps.len() {
            assert(ups[j] == ps[j]);
        }
    }
    assert forall|i: int| 0 <= i < ps.len() implies sole_entry(ups, i) && ups[i] == ps[i] by {
        assert(ups[i] == ps[i]);
        assert forall|j: int| i < j < ups.len() implies (#[trigger] ups[j]).0 != ups[i].0 by {
            if j < ps.len() {
                assert(ups[j] == ps[j]);
            }
        }
    }
    assert forall|k: int, i: int| 0 <= k < found.len() && 0 <= i < ps.len() implies (
    #[trigger] found[k]).contains_key((#[trigger] ps[i]).0) && found[k][ps[i].0] == ps[i].1 by {
        assert(pick(found[k]));
        assert(found.contains(found[k]));
        after.lemma_filter_contains_rev(pick, found[k]);
        let j = choose|j: int| 0 <= j < after.len() && after[j] == found[k];
        assert(row_matches(rows[j], by_id(id)));
        assert(sole_entry(ups, i));
        lemma_with_params_last_entry(rows[j], ups, i);
    }
    assert forall|j: int| 0 <= j < rows.len() && row_matches(#[trigger] rows[j], by_id(id)) implies found.contains(
        with_params(rows[j], ups),
    ) by {
        lemma_with_params_untouched(rows[j], ups, "id"@);
        assert(by_id(id)[0] == ("id"@, text_view(id)));
        assert(row_matches(with_params(rows[j], ups), by_id(id)));
        assert(after[j] == with_params(rows[j], ups));
    }
}

/// The filter that picks the rows of a user.
pub open spec fn owned_by(user: Seq<char>) -> Seq<ParamView> {
    seq![("user_id"@, text_view(user))]
}

/// The columns a caller gives for a new backup code.
pub open spec fn code_params(code: Seq<char>, user: Seq<char>) -> Seq<ParamView> {
    seq![("code"@, text_view(code)), ("user_id"@, text_view(user))]
}

/// The rows that inserting the codes for a user creates, with the ids given.
pub open spec fn new_code_rows(
    user: Seq<char>,
    codes: Seq<Seq<char>>,
    ids: Seq<Seq<char>>,
    now: Seq<char>,
) -> Seq<RowView> {
    Seq::new(
        codes.len(),
        |k: int| row_of(insert_params_of::<BackupCode>(code_params(codes[k], user), ids[k], now, now)),
    )
}

proof fn lemma_filter_keeps_all(s: Seq<RowView>, p: spec_fn(RowView) -> bool)
    requires
        forall|j: int| 0 <= j < s.len() ==> p(#[trigger] s[j]),
    ensures
        s.filter(p) == s,
    decreases s.len(),
{
    if s.len() > 0 {
        assert forall|j: int| 0 <= j < s.drop_last().len() implies p(#[trigger] s.drop_last()[j]) by {
            assert(s.drop_last()[j] == s[j]);
        }
        lemma_filter_keeps_all(s.drop_last(), p);
        s.drop_last().lemma_filter_push(s.last(), p);
        assert(s.drop_last().push(s.last()) =~= s);
    }
}

proof fn lemma_new_code_row(user: Seq<char>, code: Seq<char>, id: Seq<char>, now: Seq<char>)
    ensures
        ({
            let row = row_of(insert_params_of::<BackupCode>(code_params(code, user), id, now, now));
            &&& !is_archived(row)
            &&& row_matches(row, owned_by(user))
            &&& row.contains_key("code"@)
            &&& row["code"@] == text_view(code)
        }),
{
    lemma_column_names_distinct();
    let ps = code_params(code, user);
    let all = ps.push(("id"@, text_view(id)));
    let full = insert_params_of::<BackupCode>(ps, id, now, now);
    assert(sole_entry(all, 0));
    assert(sole_entry(all, 1));
    lemma_insert_keeps_entry::<BackupCode>(ps, id, now, now, all, 0);
    lemma_insert_keeps_entry::<BackupCode>(ps, id, now, now, all, 1);
    lemma_with_params_last_entry(Map::empty(), full, 0);
    lemma_with_params_last_entry(Map::empty(), full, 1);
    let names = set!["code"@, "user_id"@, "id"@, "created_at"@, "updated_at"@];
    assert(columns_within(all, names));
    let b = stamped(all, "created_at"@, timestamp_view(now));
    lemma_stamped_columns(all, "created_at"@, timestamp_view(now), names);
    lemma_stamped_columns(b, "updated_at"@, timestamp_view(now), names);
    assert forall|j: int| 0 <= j < full.len() implies (#[trigger] full[j]).0 != "archived_at"@ by {
        assert(names.contains(full[j].0));
    }
    lemma_with_params_untouched(Map::empty(), full, "archived_at"@);
    assert(owned_by(user)[0] == ("user_id"@, text_view(user)));
}

/// Backup code regeneration: once the user's codes are soft-deleted and the new
/// ones inserted, the user's unarchived codes are exactly the new rows, in
/// order, each holding its new code; no earlier code is listed.
pub proof fn lemma_regeneration_replaces_codes(
    rows: Seq<RowView>,
    user: Seq<char>,
    codes: Seq<Seq<char>>,
    ids: Seq<Seq<char>>,
    now: Seq<char>,
)
    requires
        ids.len() == codes.len(),
    ensures
        ({
            let deleted = delete_rows(rows, BackupCode::spec_is_archivable(), owned_by(user), now);
            let fresh = new_code_rows(user, codes, ids, now);
            &&& select_rows(deleted + fresh, ArchiveFilter::Unarchived, owned_by(user)) == fresh
            &&& forall|k: int|
                0 <= k < fresh.len() ==> (#[trigger] fresh[k]).contains_key("code"@) && fresh[k]["code"@]
                    == text_view(codes[k])
        }),
{
    let deleted = delete_rows(rows, true, owned_by(user), now);
    let fresh = new_code_rows(user, codes, ids, now);
    let pick = |r: RowView| selected(r, ArchiveFilter::Unarchived, owned_by(user));
    assert forall|k: int| 0 <= k < fresh.len() implies pick(#[trigger] fresh[k]) && fresh[k].contains_key(
        "code"@,
    ) && fresh[k]["code"@] == text_view(codes[k]) by {
        lemma_new_code_row(user, codes[k], ids[k], now);
    }
    lemma_filter_keeps_all(fresh, pick);
    assert forall|j: int| 0 <= j < deleted.len() implies !pick(#[trigger] deleted[j]) by {
        if row_matches(rows[j], owned_by(user)) {
            assert(deleted[j] == archive_row(rows[j], now));
            assert(is_archived(deleted[j]));
        }
    }
    assert(deleted.all(|x: RowView| !pick(x)));
    deleted.lemma_all_neg_filter_empty(pick);
    Seq::filter_distributes_over_add(deleted, fresh, pick);
    assert(deleted.filter(pick) + fresh.filter(pick) =~= fresh);
}

} // verus!
