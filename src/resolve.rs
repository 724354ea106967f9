//! Relationship fields: each resolves, by foreign-key equality, against the
//! rows of the related table that storage returned.
//!
//! A required relationship yields the first matching row and fails the field
//! when no row matches; it never substitutes a default. A many-valued
//! relationship yields every match, in the order of the rows given.
use vstd::prelude::*;

use crate::enums::PublicationModel;
use crate::model::{
    copy_text, Category, Currency, Fee, Institution, InstitutionalAgreement, Journal, JournalCategory,
    JournalPublicationModel, Owner, OwnershipLink, Publisher, PublisherAgreement,
};

verus! {

/// Why a required relationship could not be resolved.
#[derive(Clone, Copy, Debug, PartialEq, Eq, Structural)]
pub enum FieldError {
    /// No publisher row carries the journal's publisher id.
    PublisherNotFound,
    /// No journal row carries the fee's journal id.
    JournalNotFound,
    /// No currency row carries the fee's currency code.
    CurrencyNotFound,
}

/// `i` is the position of the first publisher row whose id is `id`.
pub open spec fn first_publisher_with_id(rows: Seq<Publisher>, id: i32, i: int) -> bool {
    &&& 0 <= i < rows.len()
    &&& rows[i].id == id
    &&& forall|j: int| 0 <= j < i ==> rows[j].id != id
}

/// `i` is the position of the first journal row whose id is `id`.
pub open spec fn first_journal_with_id(rows: Seq<Journal>, id: i32, i: int) -> bool {
    &&& 0 <= i < rows.len()
    &&& rows[i].id == id
    &&& forall|j: int| 0 <= j < i ==> rows[j].id != id
}

/// `i` is the position of the first currency row whose code is `code`.
pub open spec fn first_currency_with_code(rows: Seq<Currency>, code: Seq<char>, i: int) -> bool {
    &&& 0 <= i < rows.len()
    &&& rows[i].code@ == code
    &&& forall|j: int| 0 <= j < i ==> rows[j].code@ != code
}

/// The fee rows that belong to the journal `journal`, in order.
pub open spec fn fees_of_journal(rows: Seq<Fee>, journal: i32) -> Seq<Fee> {
    rows.filter(|f: Fee| f.journal_id == journal)
}

impl Journal {
    /// The publisher of this journal: the first of `publishers` whose id is
    /// the journal's publisher id. Fails when there is none.
    pub fn publisher(&self, publishers: &Vec<Publisher>) -> (r: Result<Publisher, FieldError>)
        ensures
            r matches Ok(p) ==> exists|i: int|
                first_publisher_with_id(publishers@, self.publisher_id, i) && p == publishers@[i],
            r is Err ==> r == Err::<Publisher, FieldError>(FieldError::PublisherNotFound),
            r is Err <==> forall|i: int|
                0 <= i < publishers@.len() ==> publishers@[i].id != self.publisher_id,
    {
        let mut i: usize = 0;
        while i < publishers.len()
            invariant
                i <= publishers@.len(),
                forall|j: int| 0 <= j < i ==> publishers@[j].id != self.publisher_id,
            decreases publishers@.len() - i,
        {
            if publishers[i].id == self.publisher_id {
                assert(first_publisher_with_id(publishers@, self.publisher_id, i as int));
                return Ok(publishers[i].duplicate());
            }
            i += 1;
        }
        Err(FieldError::PublisherNotFound)
    }

    /// The fees charged by this journal: those of `fees` whose journal id is
    /// this journal's id, in order.
    pub fn fees(&self, fees: &Vec<Fee>) -> (r: Vec<Fee>)
        ensures
            r@ == fees_of_journal(fees@, self.id),
    {
        let mut out: Vec<Fee> = Vec::new();
        let mut i: usize = 0;
        while i < fees.len()
            invariant
                i <= fees@.len(),
                out@ == fees_of_journal(fees@.take(i as int), self.id),
            decreases fees@.len() - i,
        {
            proof {
                assert(fees@.take(i + 1) == fees@.take(i as int).push(fees@[i as int]));
                fees@.take(i as int).lemma_filter_push(fees@[i as int], |f: Fee| f.journal_id == self.id);
            }
            if fees[i].journal_id == self.id {
                out.push(fees[i].duplicate());
            }
            i += 1;
        }
        assert(fees@.take(fees@.len() as int) == fees@);
        out
    }
}

impl Fee {
    /// The journal this fee belongs to: the first of `journals` whose id is
    /// the fee's journal id. Fails when there is none.
    pub fn journal(&self, journals: &Vec<Journal>) -> (r: Result<Journal, FieldError>)
        ensures
            r matches Ok(j) ==> exists|i: int|
                first_journal_with_id(journals@, self.journal_id, i) && j == journals@[i],
            r is Err ==> r == Err::<Journal, FieldError>(FieldError::JournalNotFound),
            r is Err <==> forall|i: int|
                0 <= i < journals@.len() ==> journals@[i].id != self.journal_id,
    {
        let mut i: usize = 0;
        while i < journals.len()
            invariant
                i <= journals@.len(),
                forall|j: int| 0 <= j < i ==> journals@[j].id != self.journal_id,
            decreases journals@.len() - i,
        {
            if journals[i].id == self.journal_id {
                assert(first_journal_with_id(journals@, self.journal_id, i as int));
                return Ok(journals[i].duplicate());
            }
            i += 1;
        }
        Err(FieldError::JournalNotFound)
    }

    /// The currency this fee is valued in: the first of `currencies` whose
    /// code is the fee's currency code. Fails when there is none.
    pub fn currency(&self, currencies: &Vec<Currency>) -> (r: Result<Currency, FieldError>)
        ensures
            r matches Ok(c) ==> exists|i: int|
                first_currency_with_code(currencies@, self.currency_code@, i) && c == currencies@[i],
            r is Err ==> r == Err::<Currency, FieldError>(FieldError::CurrencyNotFound),
            r is Err <==> forall|i: int|
                0 <= i < currencies@.len() ==> currencies@[i].code@ != self.currency_code@,
    {
        let mut i: usize = 0;
        while i < currencies.len()
            invariant
                i <= currencies@.len(),
                forall|j: int| 0 <= j < i ==> currencies@[j].code@ != self.currency_code@,
            decreases currencies@.len() - i,
        {
            if currencies[i].code == self.currency_code {
                assert(first_currency_with_code(currencies@, self.currency_code@, i as int));
                return Ok(currencies[i].duplicate());
            }
            i += 1;
        }
        Err(FieldError::CurrencyNotFound)
    }
}

/// The owner rows whose id is `id`, in order.
pub open spec fn owners_with_id(owners: Seq<Owner>, id: i32) -> Seq<Owner> {
    owners.filter(|o: Owner| o.id == id)
}

/// Inner join of ownership links with owners, restricted to the links of
/// `holder`: for each such link in order, the owners it names.
pub open spec fn owners_linked_to(links: Seq<OwnershipLink>, owners: Seq<Owner>, holder: i32) -> Seq<
    Owner,
>
    decreases links.len(),
{
    if links.len() == 0 {
        Seq::empty()
    } else {
        let link = links.last();
        let named = if link.holder_id == holder {
            owners_with_id(owners, link.owner_id)
        } else {
            Seq::empty()
        };
        owners_linked_to(links.drop_last(), owners, holder) + named
    }
}

/// The focus of each category row whose id is `id`, in order.
pub open spec fn focuses_with_id(categories: Seq<Category>, id: i32) -> Seq<String> {
    categories.filter(|c: Category| c.id == id).map_values(|c: Category| c.focus)
}

/// Inner join of journal-category links with categories, restricted to the
/// links of `journal`, selecting each category's focus.
pub open spec fn focuses_linked_to(
    links: Seq<JournalCategory>,
    categories: Seq<Category>,
    journal: i32,
) -> Seq<String>
    decreases links.len(),
{
    if links.len() == 0 {
        Seq::empty()
    } else {
        let link = links.last();
        let named = if link.journal_id == journal {
            focuses_with_id(categories, link.category_id)
        } else {
            Seq::empty()
        };
        focuses_linked_to(links.drop_last(), categories, journal) + named
    }
}

/// Owners named by the links of `holder`, in the order of `owners_linked_to`.
fn owners_of_holder(holder: i32, links: &Vec<OwnershipLink>, owners: &Vec<Owner>) -> (r: Vec<Owner>)
    ensures
        r@ == owners_linked_to(links@, owners@, holder),
{
    let mut out: Vec<Owner> = Vec::new();
    let mut i: usize = 0;
    while i < links.len()
        invariant
            i <= links@.len(),
            out@ == owners_linked_to(links@.take(i as int), owners@, holder),
        decreases links@.len() - i,
    {
        let ghost before = out@;
        assert(links@.take(i + 1).drop_last() == links@.take(i as int));
        if links[i].holder_id == holder {
            let wanted = links[i].owner_id;
            let mut k: usize = 0;
            while k < owners.len()
                invariant
                    k <= owners@.len(),
                    out@ == before + owners_with_id(owners@.take(k as int), wanted),
                decreases owners@.len() - k,
            {
                proof {
                    assert(owners@.take(k + 1) == owners@.take(k as int).push(owners@[k as int]));
                    owners@.take(k as int).lemma_filter_push(owners@[k as int], |o: Owner| o.id == wanted);
                }
                if owners[k].id == wanted {
                    out.push(owners[k].duplicate());
                }
                k += 1;
            }
            assert(owners@.take(owners@.len() as int) == owners@);
        } else {
            assert(before + Seq::<Owner>::empty() == before);
        }
        i += 1;
    }
    assert(links@.take(links@.len() as int) == links@);
    out
}

impl Publisher {
    /// Owners of this publisher: the inner join of the publisher-ownership
    /// `links` with `owners`, restricted to this publisher's links.
    pub fn owners(&self, links: &Vec<OwnershipLink>, owners: &Vec<Owner>) -> (r: Vec<Owner>)
        ensures
            r@ == owners_linked_to(links@, owners@, self.id),
    {
        owners_of_holder(self.id, links, owners)
    }
}

impl Journal {
    /// Owners with a stake in this journal beyond its publisher: the inner
    /// join of the journal-ownership `links` with `owners`, restricted to this
    /// journal's links.
    pub fn additional_owners(&self, links: &Vec<OwnershipLink>, owners: &Vec<Owner>) -> (r: Vec<Owner>)
        ensures
            r@ == owners_linked_to(links@, owners@, self.id),
    {
        owners_of_holder(self.id, links, owners)
    }

    /// Focus of each category this journal caters for: the inner join of
    /// `links` with `categories`, restricted to this journal's links.
    pub fn categories(&self, links: &Vec<JournalCategory>, categories: &Vec<Category>) -> (r: Vec<String>)
        ensures
            r@ == focuses_linked_to(links@, categories@, self.id),
    {
        let mut out: Vec<String> = Vec::new();
        let mut i: usize = 0;
        while i < links.len()
            invariant
                i <= links@.len(),
                out@ == focuses_linked_to(links@.take(i as int), categories@, self.id),
            decreases links@.len() - i,
        {
            let ghost before = out@;
            assert(links@.take(i + 1).drop_last() == links@.take(i as int));
            if links[i].journal_id == self.id {
                let wanted = links[i].category_id;
                let mut k: usize = 0;
                while k < categories.len()
                    invariant
                        k <= categories@.len(),
                        out@ == before + focuses_with_id(categories@.take(k as int), wanted),
                    decreases categories@.len() - k,
                {
                    proof {
                        let pred = |c: Category| c.id == wanted;
                        let prefix = categories@.take(k as int);
                        assert(categories@.take(k + 1) == prefix.push(categories@[k as int]));
                        prefix.lemma_filter_push(categories@[k as int], pred);
                        if pred(categories@[k as int]) {
                            assert(prefix.filter(pred).push(categories@[k as int]).map_values(
                                |c: Category| c.focus,
                            ) == prefix.filter(pred).map_values(|c: Category| c.focus).push(
                                categories@[k as int].focus,
                            ));
                        }
                    }
                    if categories[k].id == wanted {
                        out.push(categories[k].focus.clone());
                    }
                    k += 1;
                }
                assert(categories@.take(categories@.len() as int) == categories@);
            } else {
                assert(before + Seq::<String>::empty() == before);
            }
            i += 1;
        }
        assert(links@.take(links@.len() as int) == links@);
        out
    }
}

/// The publication model of `row`, once for each journal of `publisher` that
/// the row's journal id names.
pub open spec fn models_of_row(
    row: JournalPublicationModel,
    journals: Seq<Journal>,
    publisher: i32,
) -> Seq<PublicationModel> {
    journals.filter(|j: Journal| j.id == row.journal_id && j.publisher_id == publisher).map_values(
        |j: Journal| row.publication_model,
    )
}

/// Inner join of publication-model rows with journals, restricted to the
/// journals of `publisher`, selecting the publication model.
pub open spec fn models_offered_by(
    rows: Seq<JournalPublicationModel>,
    journals: Seq<Journal>,
    publisher: i32,
) -> Seq<PublicationModel>
    decreases rows.len(),
{
    if rows.len() == 0 {
        Seq::empty()
    } else {
        models_offered_by(rows.drop_last(), journals, publisher) + models_of_row(
            rows.last(),
            journals,
            publisher,
        )
    }
}

/// The agreement `row` as seen from its publisher, once for each institution
/// row that its institution id names.
pub open spec fn agreements_of_row(
    row: InstitutionalAgreement,
    institutions: Seq<Institution>,
) -> Seq<PublisherAgreement> {
    institutions.filter(|i: Institution| i.id == row.institution_id).map_values(
        |i: Institution|
            PublisherAgreement {
                institution: i.name,
                agreement: row.agreement,
                details: row.details,
                url: row.url,
            },
    )
}

/// Inner join of agreements with institutions, restricted to the agreements
/// of `publisher`.
pub open spec fn agreements_of_publisher(
    rows: Seq<InstitutionalAgreement>,
    institutions: Seq<Institution>,
    publisher: i32,
) -> Seq<PublisherAgreement>
    decreases rows.len(),
{
    if rows.len() == 0 {
        Seq::empty()
    } else {
        let named = if rows.last().publisher_id == publisher {
            agreements_of_row(rows.last(), institutions)
        } else {
            Seq::empty()
        };
        agreements_of_publisher(rows.drop_last(), institutions, publisher) + named
    }
}

impl Publisher {
    /// Publication models offered by this publisher: for each row of `rows`,
    /// in order, its model once per journal of this publisher that it names.
    pub fn publication_models(
        &self,
        journals: &Vec<Journal>,
        rows: &Vec<JournalPublicationModel>,
    ) -> (r: Vec<PublicationModel>)
        ensures
            r@ == models_offered_by(rows@, journals@, self.id),
    {
        let mut out: Vec<PublicationModel> = Vec::new();
        let mut i: usize = 0;
        while i < rows.len()
            invariant
                i <= rows@.len(),
                out@ == models_offered_by(rows@.take(i as int), journals@, self.id),
            decreases rows@.len() - i,
        {
            let ghost before = out@;
            let row = &rows[i];
            assert(rows@.take(i + 1).drop_last() == rows@.take(i as int));
            let mut k: usize = 0;
            while k < journals.len()
                invariant
                    k <= journals@.len(),
                    *row == rows@[i as int],
                    out@ == before + models_of_row(*row, journals@.take(k as int), self.id),
                decreases journals@.len() - k,
            {
                proof {
                    let pred = |j: Journal| j.id == row.journal_id && j.publisher_id == self.id;
                    let pick = |j: Journal| row.publication_model;
                    let prefix = journals@.take(k as int);
                    assert(journals@.take(k + 1) == prefix.push(journals@[k as int]));
                    prefix.lemma_filter_push(journals@[k as int], pred);
                    assert(prefix.filter(pred).push(journals@[k as int]).map_values(pick)
                        =~= prefix.filter(pred).map_values(pick).push(row.publication_model));
                }
                if journals[k].id == row.journal_id && journals[k].publisher_id == self.id {
                    out.push(row.publication_model);
                }
                k += 1;
            }
            assert(journals@.take(journals@.len() as int) == journals@);
            i += 1;
        }
        assert(rows@.take(rows@.len() as int) == rows@);
        out
    }

    /// Agreements that institutions hold with this publisher: the inner join
    /// of `agreements` with `institutions`, restricted to this publisher's
    /// agreements.
    pub fn institutional_agreements(
        &self,
        agreements: &Vec<InstitutionalAgreement>,
        institutions: &Vec<Institution>,
    ) -> (r: Vec<PublisherAgreement>)
        ensures
            r@ == agreements_of_publisher(agreements@, institutions@, self.id),
    {
        let mut out: Vec<PublisherAgreement> = Vec::new();
        let mut i: usize = 0;
        while i < agreements.len()
            invariant
                i <= agreements@.len(),
                out@ == agreements_of_publisher(agreements@.take(i as int), institutions@, self.id),
            decreases agreements@.len() - i,
        {
            let ghost before = out@;
            let row = &agreements[i];
            assert(agreements@.take(i + 1).drop_last() == agreements@.take(i as int));
            if row.publisher_id == self.id {
                let mut k: usize = 0;
                while k < institutions.len()
                    invariant
                        k <= institutions@.len(),
                        *row == agreements@[i as int],
                        out@ == before + agreements_of_row(*row, institutions@.take(k as int)),
                    decreases institutions@.len() - k,
                {
                    let ghost seen = (
                        |i: Institution|
                            PublisherAgreement {
                                institution: i.name,
                                agreement: row.agreement,
                                details: row.details,
                                url: row.url,
                            }
                    );
                    proof {
                        let pred = |i: Institution| i.id == row.institution_id;
                        let prefix = institutions@.take(k as int);
                        assert(institutions@.take(k + 1) == prefix.push(institutions@[k as int]));
                        prefix.lemma_filter_push(institutions@[k as int], pred);
                        assert(prefix.filter(pred).push(institutions@[k as int]).map_values(seen)
                            =~= prefix.filter(pred).map_values(seen).push(
                            seen(institutions@[k as int]),
                        ));
                    }
                    if institutions[k].id == row.institution_id {
                        out.push(
                            PublisherAgreement {
                                institution: institutions[k].name.clone(),
                                agreement: row.agreement,
                                details: copy_text(&row.details),
                                url: copy_text(&row.url),
                            },
                        );
                    }
                    k += 1;
                }
                assert(institutions@.take(institutions@.len() as int) == institutions@);
            } else {
                assert(before + Seq::<PublisherAgreement>::empty() == before);
            }
            i += 1;
        }
        assert(agreements@.take(agreements@.len() as int) == agreements@);
        out
    }
}

} // verus!
