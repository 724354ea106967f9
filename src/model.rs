//! Rows of the catalogue and their scalar fields.
//!
//! Scalar fields return the stored value as it is, absent values included.
//! URL-typed fields go through [`resolve_url`].
use vstd::prelude::*;

use url::Url;

use crate::enums::{FeeCategory, MaybeLogic, PublicationModel};
use crate::web_address::{parses_as_url, resolve_url};

verus! {

/// A journal publication house.
pub struct Publisher {
    pub id: i32,
    pub name: String,
    pub url: Option<String>,
    pub comments: Option<String>,
}

/// Owner of a publisher or a journal.
pub struct Owner {
    pub id: i32,
    pub name: String,
    pub ownership_url: Option<String>,
    pub comments: Option<String>,
}

/// A journal, with the publisher it belongs to.
pub struct Journal {
    pub id: i32,
    pub name: String,
    pub url: Option<String>,
    pub publisher_id: i32,
    pub for_profit: bool,
    pub comments: Option<String>,
}

/// An amount charged by a journal, in a given currency, for a given purpose.
pub struct Fee {
    pub id: i32,
    pub journal_id: i32,
    pub fee: i32,
    pub currency_code: String,
    pub category: FeeCategory,
}

/// A currency, keyed by its ISO 4217 code.
pub struct Currency {
    pub code: String,
    pub symbol: String,
    pub name: String,
}

/// A field of research that journals cater for.
pub struct Category {
    pub id: i32,
    pub focus: String,
}

/// A university or other institution that makes agreements with publishers.
pub struct Institution {
    pub id: i32,
    pub name: String,
    pub url: Option<String>,
}

/// A row of an ownership join table: `owner_id` holds a stake in the
/// publisher or journal `holder_id`.
pub struct OwnershipLink {
    pub holder_id: i32,
    pub owner_id: i32,
}

/// A row of the join table between journals and categories.
pub struct JournalCategory {
    pub journal_id: i32,
    pub category_id: i32,
}

/// A row of the join table between journals and the publication models they
/// offer.
pub struct JournalPublicationModel {
    pub journal_id: i32,
    pub publication_model: PublicationModel,
}

/// A stored agreement between an institution and a publisher, keyed by the
/// pair of ids.
pub struct InstitutionalAgreement {
    pub institution_id: i32,
    pub publisher_id: i32,
    pub agreement: MaybeLogic,
    pub details: Option<String>,
    pub url: Option<String>,
}

/// An agreement seen from the publisher it concerns.
pub struct PublisherAgreement {
    pub institution: String,
    pub agreement: MaybeLogic,
    pub details: Option<String>,
    pub url: Option<String>,
}

/// An agreement between an institution and a publisher, both by name.
pub struct Agreement {
    pub institution: String,
    pub publisher: String,
    pub agreement: MaybeLogic,
    pub details: Option<String>,
    pub url: Option<String>,
}

/// The data supplied to create a publisher.
pub struct NewPublisher {
    pub name: String,
    pub url: Option<String>,
    pub comments: Option<String>,
}

/// A possibly absent text, copied.
pub fn copy_text(t: &Option<String>) -> (r: Option<String>)
    ensures
        r == *t,
{
    match t {
        Some(s) => Some(s.clone()),
        None => None,
    }
}

impl Publisher {
    /// Official name of the publisher.
    pub fn name(&self) -> (r: &str)
        ensures
            r@ == self.name@,
    {
        self.name.as_str()
    }

    /// Homepage of the publisher, absent when none is stored or the stored
    /// text is not a URL.
    pub fn url(&self) -> (r: Option<Url>)
        ensures
            r is Some <==> (self.url matches Some(s) && parses_as_url(s@)),
    {
        resolve_url(&self.url)
    }

    /// Further comments about this publisher.
    pub fn comments(&self) -> (r: &Option<String>)
        ensures
            *r == self.comments,
    {
        &self.comments
    }

    /// A copy of this row.
    pub fn duplicate(&self) -> (r: Publisher)
        ensures
            r == *self,
    {
        Publisher {
            id: self.id,
            name: self.name.clone(),
            url: copy_text(&self.url),
            comments: copy_text(&self.comments),
        }
    }
}

impl Owner {
    /// Official name of the owner.
    pub fn name(&self) -> (r: &str)
        ensures
            r@ == self.name@,
    {
        self.name.as_str()
    }

    /// A URL attributing ownership to this owner, absent when none is stored
    /// or the stored text is not a URL.
    pub fn ownership_url(&self) -> (r: Option<Url>)
        ensures
            r is Some <==> (self.ownership_url matches Some(s) && parses_as_url(s@)),
    {
        resolve_url(&self.ownership_url)
    }

    /// Further comments about this owner.
    pub fn comments(&self) -> (r: &Option<String>)
        ensures
            *r == self.comments,
    {
        &self.comments
    }

    /// A copy of this row.
    pub fn duplicate(&self) -> (r: Owner)
        ensures
            r == *self,
    {
        Owner {
            id: self.id,
            name: self.name.clone(),
            ownership_url: copy_text(&self.ownership_url),
            comments: copy_text(&self.comments),
        }
    }
}

impl Journal {
    /// Name of the journal.
    pub fn name(&self) -> (r: &str)
        ensures
            r@ == self.name@,
    {
        self.name.as_str()
    }

    /// Homepage of the journal, absent when none is stored or the stored text
    /// is not a URL.
    pub fn url(&self) -> (r: Option<Url>)
        ensures
            r is Some <==> (self.url matches Some(s) && parses_as_url(s@)),
    {
        resolve_url(&self.url)
    }

    /// Whether the journal is a for-profit enterprise.
    pub fn for_profit(&self) -> (r: bool)
        ensures
            r == self.for_profit,
    {
        self.for_profit
    }

    /// Further comments about this journal.
    pub fn comments(&self) -> (r: &Option<String>)
        ensures
            *r == self.comments,
    {
        &self.comments
    }

    /// A copy of this row.
    pub fn duplicate(&self) -> (r: Journal)
        ensures
            r == *self,
    {
        Journal {
            id: self.id,
            name: self.name.clone(),
            url: copy_text(&self.url),
            publisher_id: self.publisher_id,
            for_profit: self.for_profit,
            comments: copy_text(&self.comments),
        }
    }
}

impl Fee {
    /// The amount charged, in the fee's currency.
    pub fn fee(&self) -> (r: i32)
        ensures
            r == self.fee,
    {
        self.fee
    }

    /// What the fee is charged for.
    pub fn category(&self) -> (r: &FeeCategory)
        ensures
            *r == self.category,
    {
        &self.category
    }

    /// A copy of this row.
    pub fn duplicate(&self) -> (r: Fee)
        ensures
            r == *self,
    {
        Fee {
            id: self.id,
            journal_id: self.journal_id,
            fee: self.fee,
            currency_code: self.currency_code.clone(),
            category: self.category,
        }
    }
}

impl Currency {
    /// ISO 4217 code of the currency.
    pub fn code(&self) -> (r: &str)
        ensures
            r@ == self.code@,
    {
        self.code.as_str()
    }

    /// The currency's symbol.
    pub fn symbol(&self) -> (r: &str)
        ensures
            r@ == self.symbol@,
    {
        self.symbol.as_str()
    }

    /// Name of the currency in English.
    pub fn name(&self) -> (r: &str)
        ensures
            r@ == self.name@,
    {
        self.name.as_str()
    }

    /// A copy of this row.
    pub fn duplicate(&self) -> (r: Currency)
        ensures
            r == *self,
    {
        Currency { code: self.code.clone(), symbol: self.symbol.clone(), name: self.name.clone() }
    }
}

impl PublisherAgreement {
    /// Name of the institution the agreement is with.
    pub fn institution(&self) -> (r: &str)
        ensures
            r@ == self.institution@,
    {
        self.institution.as_str()
    }

    /// Whether an agreement has been made, or is needed at all.
    pub fn agreement(&self) -> (r: &MaybeLogic)
        ensures
            *r == self.agreement,
    {
        &self.agreement
    }

    /// Further information about the agreement.
    pub fn details(&self) -> (r: &Option<String>)
        ensures
            *r == self.details,
    {
        &self.details
    }

    /// URL of the agreement's text, as stored.
    pub fn url(&self) -> (r: &Option<String>)
        ensures
            *r == self.url,
    {
        &self.url
    }
}

impl Agreement {
    /// Name of the institution the agreement is with.
    pub fn institution(&self) -> (r: &str)
        ensures
            r@ == self.institution@,
    {
        self.institution.as_str()
    }

    /// Name of the publisher the agreement concerns.
    pub fn publisher(&self) -> (r: &str)
        ensures
            r@ == self.publisher@,
    {
        self.publisher.as_str()
    }

    /// Whether an agreement has been made, or is needed at all.
    pub fn agreement(&self) -> (r: &MaybeLogic)
        ensures
            *r == self.agreement,
    {
        &self.agreement
    }

    /// Further information about the agreement.
    pub fn details(&self) -> (r: &Option<String>)
        ensures
            *r == self.details,
    {
        &self.details
    }

    /// URL of the agreement's text, as stored.
    pub fn url(&self) -> (r: &Option<String>)
        ensures
            *r == self.url,
    {
        &self.url
    }
}

} // verus!
