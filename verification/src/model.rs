//! The mathematical model of the snippets table: a sequence of rows, one
//! spec-level transformer per store operation, and the laws the operations
//! obey.

use vstd::prelude::*;

verus! {

/// The model of one stored row.  Unlike [`crate::schema::SnippetView`], a row
/// always has an id: the store assigned one on insert.
pub struct RowModel {
    pub id: int,
    pub title: Seq<char>,
    pub code: Seq<char>,
    pub language: Seq<char>,
    pub tags: Seq<char>,
    pub is_favorite: bool,
    pub created_at: Seq<char>,
    pub updated_at: Seq<char>,
}

/// Names the verdict of SQLite's `LIKE` operator: whether `text` matches
/// `pattern`, where `%` and `_` in the pattern act as wildcards and ASCII
/// letters compare case-insensitively.  The verdict depends on the two
/// sequences alone; nothing more is assumed of it.
pub uninterp spec fn like_match(pattern: Seq<char>, text: Seq<char>) -> bool;

/// The pattern the search operation hands to `LIKE`: the query wrapped in
/// `%` wildcards.  A `%` or `_` inside the query itself keeps its wildcard
/// meaning; nothing escapes it.
pub open spec fn wild_pattern(query: Seq<char>) -> Seq<char> {
    seq!['%'] + query + seq!['%']
}

/// A row is a search hit when its title, code or tags field matches the
/// wildcard-wrapped query.
pub open spec fn row_matches(r: RowModel, query: Seq<char>) -> bool {
    ||| like_match(wild_pattern(query), r.title)
    ||| like_match(wild_pattern(query), r.code)
    ||| like_match(wild_pattern(query), r.tags)
}

/// Some row of the table carries this id.
pub open spec fn has_row(t: Seq<RowModel>, id: int) -> bool {
    exists|i: int| 0 <= i < t.len() && t[i].id == id
}

/// An index of a row carrying this id (the only one, when ids are unique).
pub open spec fn row_index(t: Seq<RowModel>, id: int) -> int
    recommends
        has_row(t, id),
{
    choose|i: int| 0 <= i < t.len() && t[i].id == id
}

/// No two rows share an id: the table's primary-key invariant.
pub open spec fn unique_ids(t: Seq<RowModel>) -> bool {
    forall|i: int, j: int|
        0 <= i < t.len() && 0 <= j < t.len() && i != j ==> t[i].id != t[j].id
}

/// Every id is positive and below the next id the store will assign, so a
/// fresh id never collides with a stored one and a deleted id is never
/// reused.
pub open spec fn ids_below(t: Seq<RowModel>, next_id: int) -> bool {
    forall|i: int| 0 <= i < t.len() ==> 1 <= #[trigger] t[i].id < next_id
}

/// Well-formedness of the table together with its id counter.
pub open spec fn table_wf(t: Seq<RowModel>, next_id: int) -> bool {
    &&& unique_ids(t)
    &&& ids_below(t, next_id)
    &&& 1 <= next_id
}

/// The row a create operation inserts: the favorite flag starts false no
/// matter what the caller's record held.
pub open spec fn inserted_row(
    id: int,
    title: Seq<char>,
    code: Seq<char>,
    language: Seq<char>,
    tags: Seq<char>,
    created_at: Seq<char>,
    updated_at: Seq<char>,
) -> RowModel {
    RowModel { id, title, code, language, tags, is_favorite: false, created_at, updated_at }
}

/// Create appends the new row at the end of the table.
pub open spec fn spec_create(
    t: Seq<RowModel>,
    id: int,
    title: Seq<char>,
    code: Seq<char>,
    language: Seq<char>,
    tags: Seq<char>,
    created_at: Seq<char>,
    updated_at: Seq<char>,
) -> Seq<RowModel> {
    t.push(inserted_row(id, title, code, language, tags, created_at, updated_at))
}

/// What update writes into a matching row: the id, the creation timestamp and
/// the favorite flag are left untouched.
pub open spec fn updated_row(
    r: RowModel,
    title: Seq<char>,
    code: Seq<char>,
    language: Seq<char>,
    tags: Seq<char>,
    updated_at: Seq<char>,
) -> RowModel {
    RowModel { title, code, language, tags, updated_at, ..r }
}

/// Update rewrites every row carrying the id (at most one, when ids are
/// unique) and leaves all others as they were.
pub open spec fn spec_update(
    t: Seq<RowModel>,
    id: int,
    title: Seq<char>,
    code: Seq<char>,
    language: Seq<char>,
    tags: Seq<char>,
    updated_at: Seq<char>,
) -> Seq<RowModel> {
    Seq::new(
        t.len(),
        |i: int|
            if t[i].id == id {
                updated_row(t[i], title, code, language, tags, updated_at)
            } else {
                t[i]
            },
    )
}

/// Delete keeps exactly the rows whose id differs, in their old order.
pub open spec fn spec_delete(t: Seq<RowModel>, id: int) -> Seq<RowModel>
    decreases t.len(),
{
    if t.len() == 0 {
        t
    } else {
        let rest = spec_delete(t.drop_last(), id);
        if t.last().id == id {
            rest
        } else {
            rest.push(t.last())
        }
    }
}

/// What toggle writes into the matching row: only the favorite flag moves.
pub open spec fn toggled_row(r: RowModel) -> RowModel {
    RowModel { is_favorite: !r.is_favorite, ..r }
}

/// Toggle flips the favorite flag of every row carrying the id (at most one,
/// when ids are unique) and leaves all others as they were.
pub open spec fn spec_toggle(t: Seq<RowModel>, id: int) -> Seq<RowModel> {
    Seq::new(t.len(), |i: int| if t[i].id == id { toggled_row(t[i]) } else { t[i] })
}

/// Search keeps exactly the hits, in their old order.
pub open spec fn spec_search(t: Seq<RowModel>, query: Seq<char>) -> Seq<RowModel>
    decreases t.len(),
{
    if t.len() == 0 {
        t
    } else {
        let rest = spec_search(t.drop_last(), query);
        if row_matches(t.last(), query) {
            rest.push(t.last())
        } else {
            rest
        }
    }
}

/// Law: a created snippet reads back whole.  After a create the table holds
/// one more row; the new row carries exactly the supplied fields, the
/// store-assigned id, a false favorite flag and equal creation and update
/// timestamps; every earlier row is untouched.
pub proof fn lemma_create_round_trip(
    t: Seq<RowModel>,
    id: int,
    title: Seq<char>,
    code: Seq<char>,
    language: Seq<char>,
    tags: Seq<char>,
    ts: Seq<char>,
)
    ensures
        ({
            let t2 = spec_create(t, id, title, code, language, tags, ts, ts);
            &&& t2.len() == t.len() + 1
            &&& t2[t.len() as int] == inserted_row(id, title, code, language, tags, ts, ts)
            &&& t2[t.len() as int].created_at == t2[t.len() as int].updated_at
            &&& !t2[t.len() as int].is_favorite
            &&& forall|i: int| 0 <= i < t.len() ==> t2[i] == t[i]
        }),
{
}

/// Law: update is idempotent on the content fields.  Updating with the same
/// field values twice leaves title, code, language and tags exactly as one
/// update leaves them; and no update ever moves an id, a created_at, or a
/// favorite flag.
pub proof fn lemma_update_idempotent(
    t: Seq<RowModel>,
    id: int,
    title: Seq<char>,
    code: Seq<char>,
    language: Seq<char>,
    tags: Seq<char>,
    ts1: Seq<char>,
    ts2: Seq<char>,
)
    ensures
        ({
            let once = spec_update(t, id, title, code, language, tags, ts1);
            let twice = spec_update(once, id, title, code, language, tags, ts2);
            &&& once.len() == t.len()
            &&& twice.len() == t.len()
            &&& forall|i: int|
                0 <= i < t.len() ==> {
                    &&& (#[trigger] twice[i]).title == once[i].title
                    &&& twice[i].code == once[i].code
                    &&& twice[i].language == once[i].language
                    &&& twice[i].tags == once[i].tags
                    &&& twice[i].id == t[i].id
                    &&& once[i].id == t[i].id
                    &&& twice[i].created_at == t[i].created_at
                    &&& once[i].created_at == t[i].created_at
                    &&& twice[i].is_favorite == t[i].is_favorite
                    &&& once[i].is_favorite == t[i].is_favorite
                }
        }),
{
}

/// Law: toggle flips and only flips.  One toggle negates the favorite flag of
/// the row carrying the id and touches no other field and no other row; a
/// second toggle gives the table back exactly as it was.
pub proof fn lemma_toggle_flips(t: Seq<RowModel>, id: int)
    ensures
        spec_toggle(t, id).len() == t.len(),
        forall|i: int|
            0 <= i < t.len() ==> #[trigger] spec_toggle(t, id)[i] == (if t[i].id == id {
                toggled_row(t[i])
            } else {
                t[i]
            }),
        spec_toggle(spec_toggle(t, id), id) == t,
{
    assert(spec_toggle(spec_toggle(t, id), id) =~= t);
}

/// Law: update and delete on an id no row carries are silent no-ops — the
/// table stays exactly what it was — and toggle on such an id changes the
/// model just as little (the adapter surfaces the miss as RowNotFound
/// instead of succeeding).
pub proof fn lemma_unknown_id_noop(
    t: Seq<RowModel>,
    id: int,
    title: Seq<char>,
    code: Seq<char>,
    language: Seq<char>,
    tags: Seq<char>,
    ts: Seq<char>,
)
    requires
        !has_row(t, id),
    ensures
        spec_update(t, id, title, code, language, tags, ts) == t,
        spec_delete(t, id) == t,
        spec_toggle(t, id) == t,
{
    assert(forall|i: int| 0 <= i < t.len() ==> #[trigger] t[i].id != id);
    lemma_delete_unmatched(t, id);
    assert(spec_update(t, id, title, code, language, tags, ts) =~= t);
    assert(spec_toggle(t, id) =~= t);
}

/// Deleting an id that no row carries leaves the table whole.
pub proof fn lemma_delete_unmatched(t: Seq<RowModel>, id: int)
    requires
        forall|i: int| 0 <= i < t.len() ==> #[trigger] t[i].id != id,
    ensures
        spec_delete(t, id) == t,
    decreases t.len(),
{
    if t.len() > 0 {
        lemma_delete_unmatched(t.drop_last(), id);
        assert(spec_delete(t, id) =~= t);
    }
}

/// Deleting an id removes exactly the row that carries it: what remains is
/// the table with that one row cut out, every other row unchanged and in its
/// old order.
pub proof fn lemma_delete_exact(t: Seq<RowModel>, id: int, k: int)
    requires
        unique_ids(t),
        0 <= k < t.len(),
        t[k].id == id,
    ensures
        spec_delete(t, id) == t.subrange(0, k) + t.subrange(k + 1, t.len() as int),
    decreases t.len(),
{
    let prefix = t.drop_last();
    if k == t.len() - 1 {
        assert(forall|i: int| 0 <= i < prefix.len() ==> #[trigger] prefix[i].id != id);
        lemma_delete_unmatched(prefix, id);
        assert(spec_delete(t, id) =~= t.subrange(0, k) + t.subrange(k + 1, t.len() as int));
    } else {
        lemma_delete_exact(prefix, id, k);
        assert(spec_delete(t, id) =~= t.subrange(0, k) + t.subrange(k + 1, t.len() as int));
    }
}

/// Delete preserves the table invariant.
pub(crate) proof fn lemma_delete_wf(t: Seq<RowModel>, id: int, next_id: int)
    requires
        table_wf(t, next_id),
    ensures
        table_wf(spec_delete(t, id), next_id),
{
    if has_row(t, id) {
        let k = row_index(t, id);
        lemma_delete_exact(t, id, k);
    } else {
        assert(forall|i: int| 0 <= i < t.len() ==> #[trigger] t[i].id != id);
        lemma_delete_unmatched(t, id);
    }
}

/// Search never invents a row: every hit stands in the table, and the hits
/// keep the table's order.
pub proof fn lemma_search_sound(t: Seq<RowModel>, query: Seq<char>)
    ensures
        spec_search(t, query).len() <= t.len(),
        forall|k: int|
            0 <= k < spec_search(t, query).len() ==> {
                &&& row_matches(#[trigger] spec_search(t, query)[k], query)
                &&& exists|i: int| 0 <= i < t.len() && t[i] == spec_search(t, query)[k]
            },
    decreases t.len(),
{
    if t.len() > 0 {
        let prefix = t.drop_last();
        lemma_search_sound(prefix, query);
        let s = spec_search(t, query);
        let sp = spec_search(prefix, query);
        assert forall|k: int| 0 <= k < s.len() implies {
            &&& row_matches(#[trigger] s[k], query)
            &&& exists|i: int| 0 <= i < t.len() && t[i] == s[k]
        } by {
            if k < sp.len() {
                assert(s[k] == sp[k]);
                let i = choose|i: int| 0 <= i < prefix.len() && prefix[i] == sp[k];
                assert(t[i] == s[k]);
            } else {
                assert(t[t.len() - 1] == s[k]);
            }
        }
    }
}

/// Search misses nothing: every row that matches the query stands among the
/// hits.
pub proof fn lemma_search_complete(t: Seq<RowModel>, query: Seq<char>)
    ensures
        forall|i: int|
            0 <= i < t.len() && row_matches(#[trigger] t[i], query) ==> spec_search(
                t,
                query,
            ).contains(t[i]),
    decreases t.len(),
{
    if t.len() > 0 {
        let prefix = t.drop_last();
        lemma_search_complete(prefix, query);
        let s = spec_search(t, query);
        let sp = spec_search(prefix, query);
        assert forall|i: int|
            0 <= i < t.len() && row_matches(#[trigger] t[i], query) implies s.contains(t[i]) by {
            if i == t.len() - 1 {
                assert(s[s.len() - 1] == t[i]);
            } else {
                assert(prefix[i] == t[i]);
                assert(sp.contains(t[i]));
                let j = choose|j: int| 0 <= j < sp.len() && sp[j] == t[i];
                if row_matches(t.last(), query) {
                    assert(s[j] == sp[j]);
                } else {
                    assert(s == sp);
                }
            }
        }
    }
}

} // verus!
