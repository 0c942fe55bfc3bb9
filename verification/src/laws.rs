//! What holds of the client as a whole, whatever the selections and the
//! order in which fetches complete.

use vstd::prelude::*;
use crate::app::{first_page_fits, key_has_room, retry_due, App, PAGE_LIMIT};
use crate::urls::{paged_text, route_text};
use crate::correlate::{
    error_of, filtered_after, filtered_filled, objects_after, owner_of_page, page_of,
    table_after, unread_text,
};
use crate::entity::Tag;
use crate::headers::{
    bytes_as_chars, is_visible_ascii, number_in, number_of_bytes, pagination_in, text_bytes,
    Header, HeaderFault,
};
use crate::paging::{pagination_headers_spec, total_pages_spec};
use crate::text::{decimal, is_digit, lemma_decimal_reads_back};
use crate::registry::{keys_of, lemma_shown_only, opened, shown_only, Window};
use crate::response::DataResponse;
use crate::types::{DataKind, Pagination};
use crate::windows::{FilteredTableData, ObjectData, TableData};

verus! {

/// Selecting the key of a single entity twice, with nothing collected in
/// between, leaves one window under the key and causes one fetch if the key
/// had no window, and none if it had one. The second selection changes
/// nothing at all.
pub proof fn lemma_selection_is_deduplicated(
    a: App,
    b: App,
    c: App,
    kind: DataKind,
    first: Tag,
    second: Tag,
)
    requires
        a.wf(),
        b.wf(),
        kind.is_object(),
        first.key@ == second.key@,
        a.url.fits(first.key@.len()),
        b.selected(&a, kind, Some(first)),
        c.selected(&b, kind, Some(second)),
    ensures
        b.objects(kind).has(first.key@),
        b.objects(kind).keys().no_duplicates(),
        b.requests@.len() == a.requests@.len() + opened(a.objects(kind).keys(), first.key@),
        c.objects(kind)@ == b.objects(kind)@,
        c.requests@ == b.requests@,
        c.errors@ == b.errors@,
{
    let key = first.key@;
    let slot = kind.subject().unwrap().index_spec() as int;
    assert(b.object_windows@[slot].wf());
    if !a.objects(kind).has(key) {
        let entries = b.objects(kind)@;
        assert(keys_of(entries)[entries.len() - 1] == key);
    } else {
        assert(b.objects(kind)@ == a.objects(kind)@);
    }
}

/// Selecting the key of a filtered listing twice, with nothing collected in
/// between, leaves one window under the key and causes one fetch if the key
/// had no window, and none if it had one. The second selection changes
/// nothing at all.
pub proof fn lemma_filtered_selection_is_deduplicated(
    a: App,
    b: App,
    c: App,
    kind: DataKind,
    first: Tag,
    second: Tag,
)
    requires
        a.wf(),
        b.wf(),
        kind.is_filtered(),
        first.key@ == second.key@,
        first_page_fits(a.url.text(), kind, first.key@),
        b.selected_filtered(&a, kind, Some(first)),
        c.selected_filtered(&b, kind, Some(second)),
    ensures
        b.filtered(kind).has(first.key@),
        b.filtered(kind).keys().no_duplicates(),
        b.requests@.len() == a.requests@.len() + opened(a.filtered(kind).keys(), first.key@),
        c.filtered(kind)@ == b.filtered(kind)@,
        c.requests@ == b.requests@,
        c.errors@ == b.errors@,
{
    let key = first.key@;
    let slot = kind.filter_slot() as int;
    assert(b.filtered_windows@[slot].wf());
    if !a.filtered(kind).has(key) {
        let entries = b.filtered(kind)@;
        assert(keys_of(entries)[entries.len() - 1] == key);
    } else {
        assert(b.filtered(kind)@ == a.filtered(kind)@);
    }
}

/// A key whose window is not shown has no window among the entries that
/// are left when the hidden windows go.
pub proof fn lemma_hidden_key_leaves<W: Window>(entries: Seq<(Seq<char>, W)>, place: int)
    requires
        keys_of(entries).no_duplicates(),
        0 <= place < entries.len(),
        !entries[place].1.visible(),
    ensures
        !keys_of(shown_only(entries)).contains(entries[place].0),
{
    let kept = shown_only(entries);
    lemma_shown_only(entries);
    if keys_of(kept).contains(entries[place].0) {
        let i = choose|i: int| 0 <= i < keys_of(kept).len() && keys_of(kept)[i] == entries[place].0;
        assert(kept.contains(kept[i]));
        assert(entries.contains(kept[i]));
        let j = choose|j: int| 0 <= j < entries.len() && entries[j] == kept[i];
        assert(keys_of(entries)[j] == keys_of(entries)[place]);
    }
}

/// The window of a single entity whose flag was set to hidden is gone after
/// one garbage collection, and a selection of the same key after that opens a
/// new window, shown and waiting, and causes the fetch of the entity anew.
pub proof fn lemma_hidden_window_is_collected(a: App, b: App, c: App, kind: DataKind, tag: Tag)
    requires
        a.wf(),
        kind.is_object(),
        a.objects(kind).has(tag.key@),
        !a.objects(kind).window(tag.key@).show,
        b.collected(&a),
        c.selected(&b, kind, Some(tag)),
    ensures
        !b.objects(kind).has(tag.key@),
        c.objects(kind)@ == b.objects(kind)@.push(
            (tag.key@, ObjectData { data: None, show: true, title: tag.label, counts: None }),
        ),
        c.requests@.len() == b.requests@.len() + 1,
        c.requests@.drop_last() == b.requests@,
        c.requests@.last().kind == kind,
        c.requests@.last().url@ == route_text(b.url.text(), kind, tag.key@),
        c.errors@ == b.errors@,
{
    let slot = kind.subject().unwrap().index_spec() as int;
    let entries = a.object_windows@[slot]@;
    assert(a.object_windows@[slot].wf());
    let place = keys_of(entries).index_of(tag.key@);
    assert(keys_of(entries)[place] == tag.key@);
    assert(DataKind::at_spec((slot + 7) as nat) == kind);
    assert(key_has_room(a.url.text(), kind, entries[place].0));
    lemma_hidden_key_leaves(entries, place);
    assert(b.object_windows@[slot]@ == shown_only(entries));
}

/// The window of a filtered listing whose flag was set to hidden is gone
/// after one garbage collection, and a selection of the same key after that
/// opens a new window, shown and waiting, and causes the fetch of the first
/// page anew.
pub proof fn lemma_hidden_filtered_window_is_collected(
    a: App,
    b: App,
    c: App,
    kind: DataKind,
    tag: Tag,
)
    requires
        a.wf(),
        kind.is_filtered(),
        a.filtered(kind).has(tag.key@),
        !a.filtered(kind).window(tag.key@).show,
        b.collected(&a),
        c.selected_filtered(&b, kind, Some(tag)),
    ensures
        !b.filtered(kind).has(tag.key@),
        c.filtered(kind)@.drop_last() == b.filtered(kind)@,
        c.filtered(kind)@.last().0 == tag.key@,
        c.filtered(kind)@.last().1.show,
        c.filtered(kind)@.last().1.data.is_none(),
        c.requests@.len() == b.requests@.len() + 1,
        c.requests@.drop_last() == b.requests@,
        c.requests@.last().kind == kind,
        c.requests@.last().url@ == paged_text(
            route_text(b.url.text(), kind, tag.key@),
            1,
            PAGE_LIMIT,
        ),
        c.errors@ == b.errors@,
{
    let slot = kind.filter_slot() as int;
    let entries = a.filtered_windows@[slot]@;
    assert(a.filtered_windows@[slot].wf());
    let place = keys_of(entries).index_of(tag.key@);
    assert(keys_of(entries)[place] == tag.key@);
    assert(DataKind::at_spec((slot + 13) as nat) == kind);
    assert(key_has_room(a.url.text(), kind, entries[place].0));
    lemma_hidden_key_leaves(entries, place);
    assert(b.filtered_windows@[slot]@ == shown_only(entries));
}

/// After a failure the mandatory load starts over exactly when the retry
/// delay has passed since the failure: not before, and at once after. Until
/// then the time of the failure is kept, and no fetch is decided on.
pub proof fn lemma_retry_waits_for_the_delay(a: App, b: App, now: u64, delay: u64)
    requires
        a.metadata is Failed,
        b.booted_after(&a, now, delay),
    ensures
        b.metadata is Empty <==> retry_due(a.metadata->Failed_1, now, delay),
        !retry_due(a.metadata->Failed_1, now, delay) ==> b.metadata is Failed
            && b.metadata->Failed_1 == a.metadata->Failed_1,
        b.requests == a.requests,
{
}

/// With the retry delay of ten time units, a failed load does not start
/// over before ten time units have passed since the failure.
pub proof fn lemma_retry_takes_ten_units(a: App, b: App, now: u64)
    requires
        a.metadata is Failed,
        b.booted(&a, now),
    ensures
        b.metadata is Empty <==> now >= a.metadata->Failed_1 + 10,
{
}

/// Metadata that has arrived stays: no tick of the mandatory load changes
/// anything after that.
pub proof fn lemma_loaded_metadata_stays(a: App, b: App, now: u64, delay: u64)
    requires
        a.metadata is Ready,
        b.booted_after(&a, now, delay),
    ensures
        b.metadata == a.metadata,
        b.requests == a.requests,
        b.errors == a.errors,
{
}

/// A page of a filtered listing goes to the window of the owner that the
/// page itself tells, and to no other: every other window stays as it is,
/// whichever of them was asked for first.
pub proof fn lemma_page_goes_to_its_owner(
    entries: Seq<(Seq<char>, FilteredTableData)>,
    kind: DataKind,
    response: DataResponse,
    owner: Seq<char>,
)
    requires
        keys_of(entries).no_duplicates(),
        owner_of_page(response, kind) == Some(owner),
    ensures
        keys_of(filtered_after(entries, kind, Ok(response))) == keys_of(entries),
        forall|i: int|
            0 <= i < entries.len() && entries[i].0 != owner ==> #[trigger] filtered_after(
                entries,
                kind,
                Ok(response),
            )[i] == entries[i],
        forall|i: int|
            0 <= i < entries.len() && entries[i].0 == owner ==> #[trigger] filtered_after(
                entries,
                kind,
                Ok(response),
            )[i] == (owner, filtered_filled(entries[i].1, page_of(response, kind).unwrap())),
{
    let after = filtered_after(entries, kind, Ok(response));
    if keys_of(entries).contains(owner) {
        let place = keys_of(entries).index_of(owner);
        assert(keys_of(entries)[place] == owner);
        assert(keys_of(after) =~= keys_of(entries));
        assert forall|i: int| 0 <= i < entries.len() && entries[i].0 == owner implies after[i] == (
            owner,
            filtered_filled(entries[i].1, page_of(response, kind).unwrap()),
        ) by {
            assert(keys_of(entries)[i] == owner);
            assert(i == place);
        }
    } else {
        assert forall|i: int| 0 <= i < entries.len() implies entries[i].0 != owner by {
            assert(keys_of(entries)[i] == entries[i].0);
        }
    }
}

/// Two pages of filtered listings of one kind with different owners fill
/// the same windows in whichever order they arrive.
pub proof fn lemma_arrival_order_does_not_matter(
    entries: Seq<(Seq<char>, FilteredTableData)>,
    kind: DataKind,
    one: DataResponse,
    other: DataResponse,
)
    requires
        keys_of(entries).no_duplicates(),
        owner_of_page(one, kind).is_some(),
        owner_of_page(other, kind).is_some(),
        owner_of_page(one, kind) != owner_of_page(other, kind),
    ensures
        filtered_after(filtered_after(entries, kind, Ok(one)), kind, Ok(other)) == filtered_after(
            filtered_after(entries, kind, Ok(other)),
            kind,
            Ok(one),
        ),
{
    let a = owner_of_page(one, kind).unwrap();
    let b = owner_of_page(other, kind).unwrap();
    lemma_page_goes_to_its_owner(entries, kind, one, a);
    lemma_page_goes_to_its_owner(entries, kind, other, b);
    let first = filtered_after(entries, kind, Ok(one));
    let second = filtered_after(entries, kind, Ok(other));
    lemma_page_goes_to_its_owner(first, kind, other, b);
    lemma_page_goes_to_its_owner(second, kind, one, a);
    let left = filtered_after(first, kind, Ok(other));
    let right = filtered_after(second, kind, Ok(one));
    assert(left.len() == entries.len());
    assert(right.len() == entries.len());
    assert forall|i: int| 0 <= i < entries.len() implies left[i] == right[i] by {
        assert(keys_of(entries)[i] == entries[i].0);
        assert(keys_of(first)[i] == first[i].0);
        assert(keys_of(second)[i] == second[i].0);
        if entries[i].0 == a {
            assert(first[i].0 == a);
            assert(second[i] == entries[i]);
        } else if entries[i].0 == b {
            assert(first[i] == entries[i]);
            assert(second[i].0 == b);
        } else {
            assert(first[i] == entries[i]);
            assert(second[i] == entries[i]);
        }
    }
    assert(left =~= right);
}

/// The bytes of the decimal text of a number, as a header carries it.
pub open spec fn decimal_bytes(n: nat) -> Seq<u8> {
    Seq::new(decimal(n).len(), |i: int| decimal(n)[i] as u8)
}

/// A header whose value is the decimal text of a number reads as that
/// number.
pub proof fn lemma_decimal_header_reads_back(header: Header, n: usize)
    ensures
        number_of_bytes(header, decimal_bytes(n as nat)) == Ok::<usize, HeaderFault>(
            n,
        ),
{
    let text = decimal(n as nat);
    let bytes = decimal_bytes(n as nat);
    lemma_decimal_reads_back(n as nat);
    assert forall|i: int| 0 <= i < bytes.len() implies is_visible_ascii(
        #[trigger] bytes[i],
    ) by {
        assert(is_digit(text[i]));
    }
    assert(text_bytes(bytes));
    assert forall|i: int| 0 <= i < text.len() implies #[trigger] bytes_as_chars(bytes)[i]
        == text[i] by {
        assert(is_digit(text[i]));
    }
    assert(bytes_as_chars(bytes) =~= text);
}

/// What the service writes, the client reads: where the headers of an
/// answer carry the numbers that the service computes for a page, each as
/// decimal text under its name, the client reads these very numbers, the
/// rounded-up number of pages among them.
pub proof fn lemma_written_paging_reads_back(
    values: Map<Seq<char>, Seq<u8>>,
    request: crate::paging::Pagination,
    count: usize,
    total_count: usize,
)
    requires
        forall|i: int|
            0 <= i < pagination_headers_spec(request, count, total_count).len() ==> {
                let sent = #[trigger] pagination_headers_spec(request, count, total_count)[i];
                values.contains_key(sent.0.name_spec()) && values[sent.0.name_spec()]
                    == decimal_bytes(sent.1 as nat)
            },
    ensures
        pagination_in(values) == Ok::<Pagination, HeaderFault>(
            Pagination {
                count,
                total_count,
                page: request.page,
                limit: request.limit,
                total_pages: total_pages_spec(total_count, request.limit) as usize,
            },
        ),
{
    let sent = pagination_headers_spec(request, count, total_count);
    assert(sent.len() == 5);
    let pages = total_pages_spec(total_count, request.limit) as usize;
    assert(sent[0] == (Header::PaginationCount, count));
    assert(sent[1] == (Header::PaginationTotalCount, total_count));
    assert(sent[2] == (Header::PaginationPage, request.page));
    assert(sent[3] == (Header::PaginationLimit, request.limit));
    assert(sent[4] == (Header::PaginationTotalPages, pages));
    lemma_decimal_header_reads_back(Header::PaginationCount, count);
    lemma_decimal_header_reads_back(Header::PaginationTotalCount, total_count);
    lemma_decimal_header_reads_back(Header::PaginationPage, request.page);
    lemma_decimal_header_reads_back(Header::PaginationLimit, request.limit);
    lemma_decimal_header_reads_back(Header::PaginationTotalPages, pages);
    assert(number_in(values, Header::PaginationCount) == Ok::<usize, HeaderFault>(
        count,
    ));
    assert(number_in(values, Header::PaginationTotalCount) == Ok::<
        usize,
        HeaderFault,
    >(total_count));
    assert(number_in(values, Header::PaginationPage) == Ok::<usize, HeaderFault>(
        request.page,
    ));
    assert(number_in(values, Header::PaginationLimit) == Ok::<usize, HeaderFault>(
        request.limit,
    ));
    assert(number_in(values, Header::PaginationTotalPages) == Ok::<
        usize,
        HeaderFault,
    >(pages));
}

/// Whatever arrives for a filtered listing, the page field of every window
/// stays as it is, and so do the titles, the flags and the keys: only rows
/// and paging come from the service.
pub proof fn lemma_arrivals_keep_the_page_field(
    entries: Seq<(Seq<char>, FilteredTableData)>,
    kind: DataKind,
    outcome: Result<DataResponse, String>,
)
    ensures
        filtered_after(entries, kind, outcome).len() == entries.len(),
        forall|i: int|
            0 <= i < entries.len() ==> {
                let after = #[trigger] filtered_after(entries, kind, outcome)[i];
                &&& after.0 == entries[i].0
                &&& after.1.page_text == entries[i].1.page_text
                &&& after.1.title == entries[i].1.title
                &&& after.1.show == entries[i].1.show
            },
{
}

/// An answer that does not hold what its kind of request asks for changes
/// no table and no window, and leaves its message in the error log.
pub proof fn lemma_unread_answers_change_nothing(
    table: Option<TableData>,
    objects: Seq<(Seq<char>, ObjectData)>,
    filtered: Seq<(Seq<char>, FilteredTableData)>,
    kind: DataKind,
    response: DataResponse,
)
    requires
        !response.holds_answer(kind),
    ensures
        kind.is_main_list() ==> table_after(table, kind, Ok(response)) == table,
        kind.is_object() ==> objects_after(objects, kind, Ok(response)) == objects,
        kind.is_filtered() ==> filtered_after(filtered, kind, Ok(response)) == filtered,
        error_of(kind, Ok(response)) == Some(unread_text()),
{
}

/// A failed fetch changes no table and no window, and leaves its message in
/// the error log.
pub proof fn lemma_failed_fetches_change_nothing(
    table: Option<TableData>,
    objects: Seq<(Seq<char>, ObjectData)>,
    filtered: Seq<(Seq<char>, FilteredTableData)>,
    kind: DataKind,
    message: String,
)
    ensures
        table_after(table, kind, Err(message)) == table,
        objects_after(objects, kind, Err(message)) == objects,
        filtered_after(filtered, kind, Err(message)) == filtered,
        error_of(kind, Err(message)) == Some(message@),
{
}

} // verus!
