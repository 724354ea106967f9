//! Closed value sets of the domain, with their storage labels.
//!
//! Each enumeration is stored as a labelled database enum. Encoding a value
//! gives its label; decoding accepts exactly the labels of the set and
//! refuses anything else rather than falling back to a default.
use vstd::prelude::*;

use crate::text::same_text;

verus! {

/// How a journal's content access and author charges interact.
#[derive(Clone, Copy, Debug, PartialEq, Eq, Structural)]
pub enum PublicationModel {
    /// Closed, not open access.
    Subscription,
    /// Closed for an embargo period, then released openly.
    BronzeOpenAccess,
    /// Closed unless the author pays for open access.
    HybridOpenAccess,
    /// Authors may self-archive outside the journal.
    GreenOpenAccess,
    /// All content open immediately, usually under a CC licence.
    GoldOpenAccess,
    /// As gold, without charging authors a processing charge.
    PlatinumOpenAccess,
}

/// What a fee amount is charged for.
#[derive(Clone, Copy, Debug, PartialEq, Eq, Structural)]
pub enum FeeCategory {
    /// Charge for making an article open access.
    ArticleProcessingCharge,
    /// Charge for publication, mostly in closed models.
    Publication,
    /// Yearly fee for access to articles.
    Subscription,
    /// Cost of reading a single article.
    PayPerView,
}

/// Status of an institutional agreement.
#[derive(Clone, Copy, Debug, PartialEq, Eq, Structural)]
pub enum MaybeLogic {
    Yes,
    No,
    Unknown,
    NotNeeded,
}

pub open spec fn publication_model_label(m: PublicationModel) -> Seq<char> {
    match m {
        PublicationModel::Subscription => "subscription"@,
        PublicationModel::BronzeOpenAccess => "bronze_open_access"@,
        PublicationModel::HybridOpenAccess => "hybrid_open_access"@,
        PublicationModel::GreenOpenAccess => "green_open_access"@,
        PublicationModel::GoldOpenAccess => "gold_open_access"@,
        PublicationModel::PlatinumOpenAccess => "platinum_open_access"@,
    }
}

pub open spec fn fee_category_label(c: FeeCategory) -> Seq<char> {
    match c {
        FeeCategory::ArticleProcessingCharge => "article_processing_charge"@,
        FeeCategory::Publication => "publication"@,
        FeeCategory::Subscription => "subscription"@,
        FeeCategory::PayPerView => "pay_per_view"@,
    }
}

pub open spec fn maybe_logic_label(l: MaybeLogic) -> Seq<char> {
    match l {
        MaybeLogic::Yes => "yes"@,
        MaybeLogic::No => "no"@,
        MaybeLogic::Unknown => "unknown"@,
        MaybeLogic::NotNeeded => "not_needed"@,
    }
}

pub open spec fn publication_model_from_label(s: Seq<char>) -> Option<PublicationModel> {
    if s == "subscription"@ {
        Some(PublicationModel::Subscription)
    } else if s == "bronze_open_access"@ {
        Some(PublicationModel::BronzeOpenAccess)
    } else if s == "hybrid_open_access"@ {
        Some(PublicationModel::HybridOpenAccess)
    } else if s == "green_open_access"@ {
        Some(PublicationModel::GreenOpenAccess)
    } else if s == "gold_open_access"@ {
        Some(PublicationModel::GoldOpenAccess)
    } else if s == "platinum_open_access"@ {
        Some(PublicationModel::PlatinumOpenAccess)
    } else {
        None
    }
}

pub open spec fn fee_category_from_label(s: Seq<char>) -> Option<FeeCategory> {
    if s == "article_processing_charge"@ {
        Some(FeeCategory::ArticleProcessingCharge)
    } else if s == "publication"@ {
        Some(FeeCategory::Publication)
    } else if s == "subscription"@ {
        Some(FeeCategory::Subscription)
    } else if s == "pay_per_view"@ {
        Some(FeeCategory::PayPerView)
    } else {
        None
    }
}

pub open spec fn maybe_logic_from_label(s: Seq<char>) -> Option<MaybeLogic> {
    if s == "yes"@ {
        Some(MaybeLogic::Yes)
    } else if s == "no"@ {
        Some(MaybeLogic::No)
    } else if s == "unknown"@ {
        Some(MaybeLogic::Unknown)
    } else if s == "not_needed"@ {
        Some(MaybeLogic::NotNeeded)
    } else {
        None
    }
}

impl PublicationModel {
    /// The label under which this value is stored.
    pub fn to_label(&self) -> (r: &'static str)
        ensures
            r@ == publication_model_label(*self),
    {
        match self {
            PublicationModel::Subscription => "subscription",
            PublicationModel::BronzeOpenAccess => "bronze_open_access",
            PublicationModel::HybridOpenAccess => "hybrid_open_access",
            PublicationModel::GreenOpenAccess => "green_open_access",
            PublicationModel::GoldOpenAccess => "gold_open_access",
            PublicationModel::PlatinumOpenAccess => "platinum_open_access",
        }
    }

    /// The value stored under `label`, or `None` where `label` belongs to no
    /// value of the set.
    pub fn from_label(label: &str) -> (r: Option<PublicationModel>)
        ensures
            r == publication_model_from_label(label@),
    {
        if same_text(label, "subscription") {
            Some(PublicationModel::Subscription)
        } else if same_text(label, "bronze_open_access") {
            Some(PublicationModel::BronzeOpenAccess)
        } else if same_text(label, "hybrid_open_access") {
            Some(PublicationModel::HybridOpenAccess)
        } else if same_text(label, "green_open_access") {
            Some(PublicationModel::GreenOpenAccess)
        } else if same_text(label, "gold_open_access") {
            Some(PublicationModel::GoldOpenAccess)
        } else if same_text(label, "platinum_open_access") {
            Some(PublicationModel::PlatinumOpenAccess)
        } else {
            None
        }
    }
}

impl FeeCategory {
    /// The label under which this value is stored.
    pub fn to_label(&self) -> (r: &'static str)
        ensures
            r@ == fee_category_label(*self),
    {
        match self {
            FeeCategory::ArticleProcessingCharge => "article_processing_charge",
            FeeCategory::Publication => "publication",
            FeeCategory::Subscription => "subscription",
            FeeCategory::PayPerView => "pay_per_view",
        }
    }

    /// The value stored under `label`, or `None` where `label` belongs to no
    /// value of the set.
    pub fn from_label(label: &str) -> (r: Option<FeeCategory>)
        ensures
            r == fee_category_from_label(label@),
    {
        if same_text(label, "article_processing_charge") {
            Some(FeeCategory::ArticleProcessingCharge)
        } else if same_text(label, "publication") {
            Some(FeeCategory::Publication)
        } else if same_text(label, "subscription") {
            Some(FeeCategory::Subscription)
        } else if same_text(label, "pay_per_view") {
            Some(FeeCategory::PayPerView)
        } else {
            None
        }
    }
}

impl MaybeLogic {
    /// The label under which this value is stored.
    pub fn to_label(&self) -> (r: &'static str)
        ensures
            r@ == maybe_logic_label(*self),
    {
        match self {
            MaybeLogic::Yes => "yes",
            MaybeLogic::No => "no",
            MaybeLogic::Unknown => "unknown",
            MaybeLogic::NotNeeded => "not_needed",
        }
    }

    /// The value stored under `label`, or `None` where `label` belongs to no
    /// value of the set.
    pub fn from_label(label: &str) -> (r: Option<MaybeLogic>)
        ensures
            r == maybe_logic_from_label(label@),
    {
        if same_text(label, "yes") {
            Some(MaybeLogic::Yes)
        } else if same_text(label, "no") {
            Some(MaybeLogic::No)
        } else if same_text(label, "unknown") {
            Some(MaybeLogic::Unknown)
        } else if same_text(label, "not_needed") {
            Some(MaybeLogic::NotNeeded)
        } else {
            None
        }
    }
}

proof fn publication_model_labels_distinct(a: PublicationModel, b: PublicationModel)
    ensures
        publication_model_label(a) == publication_model_label(b) <==> a == b,
{
    if publication_model_label(a) == publication_model_label(b) && a != b {
        let x = publication_model_label(a);
        let y = publication_model_label(b);
        reveal_strlit("subscription");
        reveal_strlit("bronze_open_access");
        reveal_strlit("hybrid_open_access");
        reveal_strlit("green_open_access");
        reveal_strlit("gold_open_access");
        reveal_strlit("platinum_open_access");
        assert(x.len() == y.len());
        assert(x[0] == y[0]);
        assert(x[x.len() - 1] == y[y.len() - 1]);
    }
}

/// Every value decodes from the label it is stored under, and a label that
/// belongs to no value of the set is refused.
pub proof fn publication_model_round_trip(m: PublicationModel, s: Seq<char>)
    ensures
        publication_model_from_label(publication_model_label(m)) == Some(m),
        publication_model_from_label(s) is None <==> forall|x: PublicationModel| publication_model_label(x) != s,
{
    publication_model_labels_distinct(m, PublicationModel::Subscription);
    publication_model_labels_distinct(m, PublicationModel::BronzeOpenAccess);
    publication_model_labels_distinct(m, PublicationModel::HybridOpenAccess);
    publication_model_labels_distinct(m, PublicationModel::GreenOpenAccess);
    publication_model_labels_distinct(m, PublicationModel::GoldOpenAccess);
    publication_model_labels_distinct(m, PublicationModel::PlatinumOpenAccess);
    if publication_model_from_label(s) is Some {
        let found = publication_model_from_label(s).unwrap();
        assert(publication_model_label(found) == s);
    }
}

proof fn fee_category_labels_distinct(a: FeeCategory, b: FeeCategory)
    ensures
        fee_category_label(a) == fee_category_label(b) <==> a == b,
{
    if fee_category_label(a) == fee_category_label(b) && a != b {
        let x = fee_category_label(a);
        let y = fee_category_label(b);
        reveal_strlit("article_processing_charge");
        reveal_strlit("publication");
        reveal_strlit("subscription");
        reveal_strlit("pay_per_view");
        assert(x.len() == y.len());
        assert(x[0] == y[0]);
        assert(x[x.len() - 1] == y[y.len() - 1]);
    }
}

/// Every value decodes from the label it is stored under, and a label that
/// belongs to no value of the set is refused.
pub proof fn fee_category_round_trip(c: FeeCategory, s: Seq<char>)
    ensures
        fee_category_from_label(fee_category_label(c)) == Some(c),
        fee_category_from_label(s) is None <==> forall|x: FeeCategory| fee_category_label(x) != s,
{
    fee_category_labels_distinct(c, FeeCategory::ArticleProcessingCharge);
    fee_category_labels_distinct(c, FeeCategory::Publication);
    fee_category_labels_distinct(c, FeeCategory::Subscription);
    fee_category_labels_distinct(c, FeeCategory::PayPerView);
    if fee_category_from_label(s) is Some {
        let found = fee_category_from_label(s).unwrap();
        assert(fee_category_label(found) == s);
    }
}

proof fn maybe_logic_labels_distinct(a: MaybeLogic, b: MaybeLogic)
    ensures
        maybe_logic_label(a) == maybe_logic_label(b) <==> a == b,
{
    if maybe_logic_label(a) == maybe_logic_label(b) && a != b {
        let x = maybe_logic_label(a);
        let y = maybe_logic_label(b);
        reveal_strlit("yes");
        reveal_strlit("no");
        reveal_strlit("unknown");
        reveal_strlit("not_needed");
        assert(x.len() == y.len());
        assert(x[0] == y[0]);
        assert(x[x.len() - 1] == y[y.len() - 1]);
    }
}

/// Every value decodes from the label it is stored under, and a label that
/// belongs to no value of the set is refused.
pub proof fn maybe_logic_round_trip(l: MaybeLogic, s: Seq<char>)
    ensures
        maybe_logic_from_label(maybe_logic_label(l)) == Some(l),
        maybe_logic_from_label(s) is None <==> forall|x: MaybeLogic| maybe_logic_label(x) != s,
{
    maybe_logic_labels_distinct(l, MaybeLogic::Yes);
    maybe_logic_labels_distinct(l, MaybeLogic::No);
    maybe_logic_labels_distinct(l, MaybeLogic::Unknown);
    maybe_logic_labels_distinct(l, MaybeLogic::NotNeeded);
    if maybe_logic_from_label(s) is Some {
        let found = maybe_logic_from_label(s).unwrap();
        assert(maybe_logic_label(found) == s);
    }
}

} // verus!
