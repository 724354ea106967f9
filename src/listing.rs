//! Top-level read and write operations.
//!
//! Every listing is unfiltered and bounded to one page of rows; the order is
//! the order in which storage returned them, which callers must treat as
//! unspecified.
use vstd::prelude::*;

use crate::model::{
    copy_text, Agreement, Category, Fee, Institution, InstitutionalAgreement, Journal, NewPublisher,
    Owner, Publisher,
};

verus! {

/// The most rows a single listing returns.
pub const PAGE_SIZE: usize = 100;

/// The first page of `rows`: all of them when they fit, else the first
/// `PAGE_SIZE`.
pub open spec fn page<T>(rows: Seq<T>) -> Seq<T> {
    if rows.len() <= PAGE_SIZE {
        rows
    } else {
        rows.take(PAGE_SIZE as int)
    }
}

/// The focus of each category, in order.
pub open spec fn focuses(rows: Seq<Category>) -> Seq<String> {
    rows.map_values(|c: Category| c.focus)
}

/// The publisher row that creating `data` stores under the id `id`.
pub open spec fn created_publisher(data: NewPublisher, id: i32) -> Publisher {
    Publisher { id, name: data.name, url: data.url, comments: data.comments }
}

/// The agreement `row` by name, once for each publisher row that its
/// publisher id names.
pub open spec fn agreements_with_publishers(
    row: InstitutionalAgreement,
    institution: Institution,
    publishers: Seq<Publisher>,
) -> Seq<Agreement> {
    publishers.filter(|p: Publisher| p.id == row.publisher_id).map_values(
        |p: Publisher|
            Agreement {
                institution: institution.name,
                publisher: p.name,
                agreement: row.agreement,
                details: row.details,
                url: row.url,
            },
    )
}

/// The agreement `row` by name, for each institution row that its institution
/// id names and each publisher row that its publisher id names.
pub open spec fn agreements_named(
    row: InstitutionalAgreement,
    institutions: Seq<Institution>,
    publishers: Seq<Publisher>,
) -> Seq<Agreement>
    decreases institutions.len(),
{
    if institutions.len() == 0 {
        Seq::empty()
    } else {
        let inst = institutions.last();
        let named = if inst.id == row.institution_id {
            agreements_with_publishers(row, inst, publishers)
        } else {
            Seq::empty()
        };
        agreements_named(row, institutions.drop_last(), publishers) + named
    }
}

/// Inner join of agreements with institutions and with publishers.
pub open spec fn all_agreements(
    rows: Seq<InstitutionalAgreement>,
    institutions: Seq<Institution>,
    publishers: Seq<Publisher>,
) -> Seq<Agreement>
    decreases rows.len(),
{
    if rows.len() == 0 {
        Seq::empty()
    } else {
        all_agreements(rows.drop_last(), institutions, publishers) + agreements_named(
            rows.last(),
            institutions,
            publishers,
        )
    }
}

/// Cuts `rows` down to its first page.
fn first_page<T>(rows: Vec<T>) -> (r: Vec<T>)
    ensures
        r@ == page(rows@),
{
    let mut rows = rows;
    rows.truncate(PAGE_SIZE);
    rows
}

/// The read operations.
pub struct QueryRoot;

/// The write operations.
pub struct MutationRoot;

impl QueryRoot {
    /// The first page of the publisher rows storage returned.
    pub fn publishers(rows: Vec<Publisher>) -> (r: Vec<Publisher>)
        ensures
            r@ == page(rows@),
            r@.len() <= PAGE_SIZE,
    {
        first_page(rows)
    }

    /// The first page of the owner rows storage returned.
    pub fn owners(rows: Vec<Owner>) -> (r: Vec<Owner>)
        ensures
            r@ == page(rows@),
            r@.len() <= PAGE_SIZE,
    {
        first_page(rows)
    }

    /// The first page of the journal rows storage returned.
    pub fn journals(rows: Vec<Journal>) -> (r: Vec<Journal>)
        ensures
            r@ == page(rows@),
            r@.len() <= PAGE_SIZE,
    {
        first_page(rows)
    }

    /// The first page of the fee rows storage returned.
    pub fn fees(rows: Vec<Fee>) -> (r: Vec<Fee>)
        ensures
            r@ == page(rows@),
            r@.len() <= PAGE_SIZE,
    {
        first_page(rows)
    }

    /// The focus of each category on the first page of the category rows
    /// storage returned.
    pub fn categories(rows: &Vec<Category>) -> (r: Vec<String>)
        ensures
            r@ == page(focuses(rows@)),
            r@.len() <= PAGE_SIZE,
    {
        let mut out: Vec<String> = Vec::new();
        let mut i: usize = 0;
        while i < rows.len() && i < PAGE_SIZE
            invariant
                i <= rows@.len(),
                i <= PAGE_SIZE,
                out@ == focuses(rows@).take(i as int),
            decreases rows@.len() - i,
        {
            assert(focuses(rows@).take(i + 1) == focuses(rows@).take(i as int).push(rows@[i as int].focus));
            out.push(rows[i].focus.clone());
            i += 1;
        }
        assert(rows@.len() <= PAGE_SIZE ==> focuses(rows@).take(rows@.len() as int) == focuses(rows@));
        out
    }

    /// The first page of the inner join of `agreements` with `institutions`
    /// and with `publishers`, naming both parties.
    pub fn institutional_agreements(
        agreements: &Vec<InstitutionalAgreement>,
        institutions: &Vec<Institution>,
        publishers: &Vec<Publisher>,
    ) -> (r: Vec<Agreement>)
        ensures
            r@ == page(all_agreements(agreements@, institutions@, publishers@)),
            r@.len() <= PAGE_SIZE,
    {
        let mut out: Vec<Agreement> = Vec::new();
        let mut i: usize = 0;
        while i < agreements.len()
            invariant
                i <= agreements@.len(),
                out@ == all_agreements(agreements@.take(i as int), institutions@, publishers@),
            decreases agreements@.len() - i,
        {
            let ghost before_row = out@;
            let row = &agreements[i];
            assert(agreements@.take(i + 1).drop_last() == agreements@.take(i as int));
            let mut k: usize = 0;
            while k < institutions.len()
                invariant
                    k <= institutions@.len(),
                    *row == agreements@[i as int],
                    out@ == before_row + agreements_named(
                        *row,
                        institutions@.take(k as int),
                        publishers@,
                    ),
                decreases institutions@.len() - k,
            {
                let ghost before_inst = out@;
                let inst = &institutions[k];
                assert(institutions@.take(k + 1).drop_last() == institutions@.take(k as int));
                if inst.id == row.institution_id {
                    let mut m: usize = 0;
                    while m < publishers.len()
                        invariant
                            m <= publishers@.len(),
                            *row == agreements@[i as int],
                            *inst == institutions@[k as int],
                            out@ == before_inst + agreements_with_publishers(
                                *row,
                                *inst,
                                publishers@.take(m as int),
                            ),
                        decreases publishers@.len() - m,
                    {
                        let ghost named = (
                            |p: Publisher|
                                Agreement {
                                    institution: inst.name,
                                    publisher: p.name,
                                    agreement: row.agreement,
                                    details: row.details,
                                    url: row.url,
                                }
                        );
                        proof {
                            let pred = |p: Publisher| p.id == row.publisher_id;
                            let prefix = publishers@.take(m as int);
                            assert(publishers@.take(m + 1) == prefix.push(publishers@[m as int]));
                            prefix.lemma_filter_push(publishers@[m as int], pred);
                            assert(prefix.filter(pred).push(publishers@[m as int]).map_values(named)
                                =~= prefix.filter(pred).map_values(named).push(
                                named(publishers@[m as int]),
                            ));
                        }
                        if publishers[m].id == row.publisher_id {
                            out.push(
                                Agreement {
                                    institution: inst.name.clone(),
                                    publisher: publishers[m].name.clone(),
                                    agreement: row.agreement,
                                    details: copy_text(&row.details),
                                    url: copy_text(&row.url),
                                },
                            );
                        }
                        m += 1;
                    }
                    assert(publishers@.take(publishers@.len() as int) == publishers@);
                    assert(out@ == before_row + agreements_named(
                        *row,
                        institutions@.take(k + 1),
                        publishers@,
                    ));
                } else {
                    assert(before_inst + Seq::<Agreement>::empty() == before_inst);
                }
                k += 1;
            }
            assert(institutions@.take(institutions@.len() as int) == institutions@);
            i += 1;
        }
        assert(agreements@.take(agreements@.len() as int) == agreements@);
        first_page(out)
    }
}

impl MutationRoot {
    /// The publisher row that storage holds after inserting `data` under the
    /// id `id` that it assigned: the supplied fields exactly as given.
    pub fn create_publisher(data: NewPublisher, id: i32) -> (r: Publisher)
        ensures
            r == created_publisher(data, id),
            r.name@ == data.name@,
    {
        Publisher { id, name: data.name, url: data.url, comments: data.comments }
    }
}

/// A listing holds at most one page of rows, each of them a row that storage
/// returned.
pub proof fn listing_is_bounded<T>(rows: Seq<T>)
    ensures
        page(rows).len() <= PAGE_SIZE,
        forall|x: T| page(rows).contains(x) ==> rows.contains(x),
{
    assert forall|x: T| page(rows).contains(x) implies rows.contains(x) by {
        let i = choose|i: int| 0 <= i < page(rows).len() && page(rows)[i] == x;
        assert(rows[i] == x);
    }
}

/// Two listings of a table with no write in between return the same rows,
/// whatever order storage returns them in, when the table fits on one page.
pub proof fn listing_is_stable<T>(first: Seq<T>, second: Seq<T>)
    requires
        first.to_multiset() == second.to_multiset(),
        first.len() <= PAGE_SIZE,
    ensures
        page(first).to_multiset() == page(second).to_multiset(),
        page(first).to_set() == page(second).to_set(),
{
    first.to_multiset_ensures();
    second.to_multiset_ensures();
    assert(second.len() == first.len());
    assert(page(first) == first);
    assert(page(second) == second);
    assert forall|x: T| first.to_set().contains(x) <==> second.to_set().contains(x) by {
        assert(first.contains(x) <==> first.to_multiset().count(x) > 0);
        assert(second.contains(x) <==> second.to_multiset().count(x) > 0);
    }
    assert(first.to_set() =~= second.to_set());
}

/// A created publisher, once stored, is listed with the name supplied on
/// creation, unchanged.
pub proof fn created_name_reads_back(data: NewPublisher, id: i32, stored: Seq<Publisher>)
    requires
        stored.len() <= PAGE_SIZE,
        stored.contains(created_publisher(data, id)),
    ensures
        exists|i: int|
            0 <= i < page(stored).len() && page(stored)[i].id == id && page(stored)[i].name@
                == data.name@,
{
    let i = choose|i: int| 0 <= i < stored.len() && stored[i] == created_publisher(data, id);
    assert(page(stored)[i].name@ == data.name@);
}

} // verus!
