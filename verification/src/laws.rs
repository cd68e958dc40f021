//! What holds of the lifecycle as a whole: statements over the records that
//! the operations make and over the rows of a store that keeps one record per
//! name.

use crate::codec::{decoded_code, round_trips};
use crate::lifecycle::{
    create_replied, created_record, delete_replied, gate_is_asked, get_replied, merged_record,
    published_record, shown, tested_code,
};
use crate::record::{CreateFunctionRequest, ErrorView, FunctionView, Stage, UpdateFunctionRequest};
use crate::store::{
    can_replace, delete_outcome, distinct_names, get_outcome, has_name, index_of, insert_outcome,
    inserted, lemma_index_of, lemma_insert_keeps_names_distinct,
    lemma_update_keeps_names_distinct, lookup, removed, replaced, update_outcome, StoreFault,
};
use chrono::NaiveDateTime;
use vstd::prelude::*;

verus! {

/// A function that was created under a free name is read back with exactly
/// the code it was created with: the record that `create` makes is the one
/// that the store then holds under the name, and a reader of it is shown the
/// source text of the request. Encoding for storage loses nothing;
/// `encode_code` establishes `round_trips` of every text it encodes.
pub proof fn law_create_then_get_round_trips(
    rows: Seq<FunctionView>,
    request: CreateFunctionRequest,
    actor: Seq<char>,
    now: NaiveDateTime,
)
    requires
        distinct_names(rows),
        !has_name(rows, request.function_name@),
        round_trips(request.function@),
    ensures
        ({
            let record = created_record(request, actor, now);
            let after = inserted(rows, record);
            let reply = get_replied(get_outcome(after, request.function_name@));
            &&& insert_outcome(rows, record) == Ok::<FunctionView, StoreFault>(record)
            &&& create_replied(insert_outcome(rows, record)) == shown(record)
            &&& get_outcome(after, request.function_name@) == Ok::<FunctionView, StoreFault>(
                record,
            )
            &&& reply is Ok
            &&& reply->Ok_0.draft_code == request.function@
            &&& reply->Ok_0.published_code is None
        }),
{
    let record = created_record(request, actor, now);
    let after = inserted(rows, record);
    assert(after == rows.push(record));
    assert(after[rows.len() as int] == record);
    lemma_insert_keeps_names_distinct(rows, record);
    lemma_index_of(after, request.function_name@, rows.len() as int);
}

/// A function that was never published is never tested in its published
/// stage: the test ends with `NotPublished`, whatever its draft holds, and
/// the draft is not run in its place.
pub proof fn law_unpublished_is_not_tested_as_published(record: FunctionView)
    requires
        record.published_code is None,
    ensures
        tested_code(record, Stage::Published) == Err::<Seq<char>, ErrorView>(
            ErrorView::NotPublished,
        ),
{
}

/// The draft stage is always there to be tested: a test of it never ends
/// with `NotPublished`.
pub proof fn law_draft_is_always_testable(record: FunctionView)
    ensures
        tested_code(record, Stage::Draft) != Err::<Seq<char>, ErrorView>(ErrorView::NotPublished),
        decoded_code(record.draft_code) is Some ==> tested_code(record, Stage::Draft) == Ok::<
            Seq<char>,
            ErrorView,
        >(decoded_code(record.draft_code)->0),
{
}

/// Publishing takes a snapshot. After a publication the record under the
/// name has the draft code of that moment as its published code, and a
/// reader is shown the same text in both slots. An update that comes later,
/// with new code or without, leaves the published code what it was.
pub proof fn law_publish_is_a_snapshot(
    rows: Seq<FunctionView>,
    name: Seq<char>,
    publisher: Seq<char>,
    published_at: NaiveDateTime,
    request: UpdateFunctionRequest,
    editor: Seq<char>,
    edited_at: NaiveDateTime,
)
    requires
        distinct_names(rows),
        has_name(rows, name),
    ensures
        ({
            let existing = lookup(rows, name)->0;
            let published = published_record(existing, publisher, published_at);
            let after_publish = replaced(rows, name, published);
            let read = get_replied(get_outcome(after_publish, name));
            let merged = merged_record(published, name, request, editor, edited_at);
            let after_update = replaced(after_publish, name, merged);
            &&& update_outcome(rows, name, published) == Ok::<FunctionView, StoreFault>(published)
            &&& get_outcome(after_publish, name) == Ok::<FunctionView, StoreFault>(published)
            &&& published.published_code == Some(existing.draft_code)
            &&& published.draft_code == existing.draft_code
            &&& existing.decodes() ==> read is Ok && read->Ok_0.published_code == Some(
                read->Ok_0.draft_code,
            )
            &&& update_outcome(after_publish, name, merged) == Ok::<FunctionView, StoreFault>(
                merged,
            )
            &&& get_outcome(after_update, name) == Ok::<FunctionView, StoreFault>(merged)
            &&& merged.published_code == Some(existing.draft_code)
        }),
{
    let at = index_of(rows, name);
    let existing = rows[at];
    assert(existing.function_name == name);
    let published = published_record(existing, publisher, published_at);
    let after_publish = rows.update(at, published);
    assert(can_replace(rows, name, published));
    lemma_update_keeps_names_distinct(rows, name, published);
    assert(after_publish[at] == published);
    lemma_index_of(after_publish, name, at);
    let merged = merged_record(published, name, request, editor, edited_at);
    assert(can_replace(after_publish, name, merged));
    let after_update = after_publish.update(at, merged);
    lemma_update_keeps_names_distinct(after_publish, name, merged);
    assert(after_update[at] == merged);
    lemma_index_of(after_update, name, at);
}

/// Publishing twice in a row only stamps the publication anew.
pub proof fn law_publish_is_idempotent(
    existing: FunctionView,
    first: Seq<char>,
    first_at: NaiveDateTime,
    second: Seq<char>,
    second_at: NaiveDateTime,
)
    ensures
        published_record(published_record(existing, first, first_at), second, second_at)
            == published_record(existing, second, second_at),
{
}

/// An update that brings no code does not ask the code gate and does not change
/// the draft code, whatever else it changes.
pub proof fn law_update_without_code_keeps_draft(
    existing: FunctionView,
    name: Seq<char>,
    request: UpdateFunctionRequest,
    actor: Seq<char>,
    now: NaiveDateTime,
)
    requires
        request.draft_code is None,
    ensures
        !gate_is_asked(request),
        merged_record(existing, name, request, actor, now).draft_code == existing.draft_code,
{
}

/// An update never touches the published fields.
pub proof fn law_update_keeps_publication(
    existing: FunctionView,
    name: Seq<char>,
    request: UpdateFunctionRequest,
    actor: Seq<char>,
    now: NaiveDateTime,
)
    ensures
        ({
            let merged = merged_record(existing, name, request, actor, now);
            &&& merged.published_code == existing.published_code
            &&& merged.published_at == existing.published_at
            &&& merged.published_by == existing.published_by
            &&& merged.published_runtime_version == existing.published_runtime_version
        }),
{
}

/// The published fields of a record are all present or all absent, in every
/// record that the lifecycle makes: a new record has none, a publication sets
/// all four, and an update keeps what it finds.
pub proof fn law_records_stay_consistent(
    existing: FunctionView,
    created: CreateFunctionRequest,
    name: Seq<char>,
    request: UpdateFunctionRequest,
    actor: Seq<char>,
    now: NaiveDateTime,
)
    ensures
        created_record(created, actor, now).consistent(),
        !created_record(created, actor, now).is_published(),
        published_record(existing, actor, now).consistent(),
        published_record(existing, actor, now).is_published(),
        existing.consistent() ==> merged_record(existing, name, request, actor, now).consistent(),
{
}

/// Of two creations under one free name, whichever the store takes first
/// succeeds and the other ends with `NameConflict`; the store keeps the first
/// record and is not overwritten by the second.
pub proof fn law_second_create_conflicts(
    rows: Seq<FunctionView>,
    first: CreateFunctionRequest,
    first_actor: Seq<char>,
    first_at: NaiveDateTime,
    second: CreateFunctionRequest,
    second_actor: Seq<char>,
    second_at: NaiveDateTime,
)
    requires
        distinct_names(rows),
        first.function_name@ == second.function_name@,
        !has_name(rows, first.function_name@),
        round_trips(first.function@),
    ensures
        ({
            let winner = created_record(first, first_actor, first_at);
            let loser = created_record(second, second_actor, second_at);
            let after_first = inserted(rows, winner);
            let after_both = inserted(after_first, loser);
            &&& create_replied(insert_outcome(rows, winner)) is Ok
            &&& create_replied(insert_outcome(after_first, loser)) == Err::<
                FunctionView,
                ErrorView,
            >(ErrorView::NameConflict)
            &&& after_both == after_first
            &&& lookup(after_both, first.function_name@) == Some(winner)
        }),
{
    let winner = created_record(first, first_actor, first_at);
    let after_first = rows.push(winner);
    assert(after_first[rows.len() as int] == winner);
    lemma_insert_keeps_names_distinct(rows, winner);
    lemma_index_of(after_first, first.function_name@, rows.len() as int);
}

/// Removing a name that no record has is reported as `NotFound`, not as
/// success, and leaves the store as it was.
pub proof fn law_delete_of_missing_name_is_not_found(rows: Seq<FunctionView>, name: Seq<char>)
    requires
        !has_name(rows, name),
    ensures
        delete_replied(Ok::<usize, StoreFault>(delete_outcome(rows, name))) == Err::<
            (),
            ErrorView,
        >(ErrorView::NotFound),
        removed(rows, name) == rows,
{
}

/// Removing a name that a record has takes that record away, whatever its
/// state, and is reported as done; the name is free again.
pub proof fn law_delete_removes_the_record(rows: Seq<FunctionView>, name: Seq<char>)
    requires
        distinct_names(rows),
        has_name(rows, name),
    ensures
        delete_replied(Ok::<usize, StoreFault>(delete_outcome(rows, name))) == Ok::<
            (),
            ErrorView,
        >(()),
        !has_name(removed(rows, name), name),
        get_outcome(removed(rows, name), name) == Err::<FunctionView, StoreFault>(
            StoreFault::NotFound,
        ),
{
    let at = index_of(rows, name);
    let after = rows.remove(at);
    assert forall|i: int| 0 <= i < after.len() implies (#[trigger] after[i]).function_name
        != name by {
        let source = if i < at { i } else { i + 1 };
        assert(after[i] == rows[source]);
    }
}

} // verus!
