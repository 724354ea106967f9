use backend::enums::{FeeCategory, MaybeLogic, PublicationModel};
use backend::model::{
    Category, Currency, Fee, Institution, InstitutionalAgreement, Journal, JournalCategory,
    JournalPublicationModel, Owner, OwnershipLink, Publisher,
};
use backend::resolve::FieldError;

fn publisher(id: i32, name: &str) -> Publisher {
    Publisher { id, name: name.to_string(), url: None, comments: None }
}

fn journal(id: i32, name: &str, publisher_id: i32) -> Journal {
    Journal {
        id,
        name: name.to_string(),
        url: None,
        publisher_id,
        for_profit: true,
        comments: None,
    }
}

fn owner(id: i32, name: &str) -> Owner {
    Owner { id, name: name.to_string(), ownership_url: None, comments: None }
}

fn fee(id: i32, journal_id: i32, amount: i32, code: &str) -> Fee {
    Fee {
        id,
        journal_id,
        fee: amount,
        currency_code: code.to_string(),
        category: FeeCategory::ArticleProcessingCharge,
    }
}

fn currency(code: &str, symbol: &str, name: &str) -> Currency {
    Currency { code: code.to_string(), symbol: symbol.to_string(), name: name.to_string() }
}

fn link(holder_id: i32, owner_id: i32) -> OwnershipLink {
    OwnershipLink { holder_id, owner_id }
}

#[test]
fn journal_publisher_is_the_row_with_its_id() {
    let j = journal(10, "Cell", 2);
    let publishers = vec![publisher(1, "Wiley"), publisher(2, "Elsevier"), publisher(3, "Springer")];
    let p = j.publisher(&publishers).expect("publisher exists");
    assert_eq!(p.id, 2);
    assert_eq!(p.name(), "Elsevier");
}

#[test]
fn journal_publisher_takes_first_match() {
    let j = journal(10, "Cell", 2);
    let publishers = vec![publisher(2, "Elsevier"), publisher(2, "Elsevier BV")];
    assert_eq!(j.publisher(&publishers).unwrap().name, "Elsevier");
}

#[test]
fn deleted_publisher_fails_the_field() {
    let j = journal(10, "Cell", 7);
    let publishers = vec![publisher(1, "Wiley"), publisher(2, "Elsevier")];
    match j.publisher(&publishers) {
        Err(e) => assert_eq!(e, FieldError::PublisherNotFound),
        Ok(_) => panic!("a missing publisher must fail the field"),
    }
    assert!(matches!(j.publisher(&vec![]), Err(FieldError::PublisherNotFound)));
}

#[test]
fn fee_currency_resolves_by_code() {
    let f = fee(1, 10, 3150, "USD");
    let currencies = vec![currency("EUR", "€", "Euro"), currency("USD", "$", "US Dollar")];
    let c = f.currency(&currencies).unwrap();
    assert_eq!(c.name(), "US Dollar");
    assert_eq!(c.symbol(), "$");
}

#[test]
fn unknown_currency_fails_the_field() {
    let f = fee(1, 10, 3150, "XYZ");
    let currencies = vec![currency("EUR", "€", "Euro"), currency("usd", "$", "US Dollar")];
    assert!(matches!(f.currency(&currencies), Err(FieldError::CurrencyNotFound)));
    let g = fee(2, 10, 3150, "USD");
    assert!(matches!(g.currency(&currencies), Err(FieldError::CurrencyNotFound)));
}

#[test]
fn fee_journal_resolves_or_fails() {
    let f = fee(1, 10, 500, "GBP");
    let journals = vec![journal(9, "Nature", 3), journal(10, "Cell", 2)];
    assert_eq!(f.journal(&journals).unwrap().name, "Cell");
    let g = fee(2, 11, 500, "GBP");
    assert!(matches!(g.journal(&journals), Err(FieldError::JournalNotFound)));
}

#[test]
fn journal_fees_keep_only_its_own() {
    let j = journal(10, "Cell", 2);
    let fees = vec![fee(1, 10, 100, "USD"), fee(2, 11, 200, "USD"), fee(3, 10, 300, "EUR")];
    let mine = j.fees(&fees);
    assert_eq!(mine.len(), 2);
    assert_eq!(mine[0].id, 1);
    assert_eq!(mine[1].id, 3);
    assert_eq!(mine[1].fee(), 300);
    assert!(journal(12, "Other", 2).fees(&fees).is_empty());
}

#[test]
fn publisher_owners_join() {
    let p = publisher(1, "Elsevier");
    let links = vec![link(1, 20), link(2, 21), link(1, 22), link(1, 99)];
    let owners = vec![owner(22, "Reed"), owner(20, "RELX"), owner(21, "Other")];
    let found = p.owners(&links, &owners);
    let names: Vec<&str> = found.iter().map(|o| o.name()).collect();
    assert_eq!(names, vec!["RELX", "Reed"]);
}

#[test]
fn journal_additional_owners_join() {
    let j = journal(10, "Cell", 1);
    let links = vec![link(11, 20), link(10, 21)];
    let owners = vec![owner(20, "RELX"), owner(21, "Society of Cells")];
    let found = j.additional_owners(&links, &owners);
    assert_eq!(found.len(), 1);
    assert_eq!(found[0].name, "Society of Cells");
    assert!(j.additional_owners(&vec![], &owners).is_empty());
}

#[test]
fn journal_categories_join() {
    let j = journal(10, "Cell", 1);
    let links = vec![
        JournalCategory { journal_id: 10, category_id: 2 },
        JournalCategory { journal_id: 11, category_id: 1 },
        JournalCategory { journal_id: 10, category_id: 1 },
    ];
    let categories = vec![
        Category { id: 1, focus: "Biology".to_string() },
        Category { id: 2, focus: "Medicine".to_string() },
    ];
    assert_eq!(j.categories(&links, &categories), vec!["Medicine".to_string(), "Biology".to_string()]);
}

#[test]
fn publisher_publication_models_via_its_journals() {
    let p = publisher(1, "Elsevier");
    let journals = vec![journal(10, "Cell", 1), journal(11, "Nature", 2), journal(12, "Lancet", 1)];
    let rows = vec![
        JournalPublicationModel { journal_id: 10, publication_model: PublicationModel::HybridOpenAccess },
        JournalPublicationModel { journal_id: 11, publication_model: PublicationModel::GoldOpenAccess },
        JournalPublicationModel { journal_id: 12, publication_model: PublicationModel::Subscription },
        JournalPublicationModel { journal_id: 13, publication_model: PublicationModel::GreenOpenAccess },
    ];
    assert_eq!(
        p.publication_models(&journals, &rows),
        vec![PublicationModel::HybridOpenAccess, PublicationModel::Subscription]
    );
}

#[test]
fn publisher_institutional_agreements_join() {
    let p = publisher(1, "Elsevier");
    let institutions = vec![
        Institution { id: 5, name: "University of Oslo".to_string(), url: None },
        Institution { id: 6, name: "ETH Zurich".to_string(), url: None },
    ];
    let agreements = vec![
        InstitutionalAgreement {
            institution_id: 6,
            publisher_id: 1,
            agreement: MaybeLogic::Yes,
            details: Some("read and publish".to_string()),
            url: Some("https://ethz.ch/deal".to_string()),
        },
        InstitutionalAgreement {
            institution_id: 5,
            publisher_id: 2,
            agreement: MaybeLogic::No,
            details: None,
            url: None,
        },
        InstitutionalAgreement {
            institution_id: 5,
            publisher_id: 1,
            agreement: MaybeLogic::Unknown,
            details: None,
            url: None,
        },
    ];
    let found = p.institutional_agreements(&agreements, &institutions);
    assert_eq!(found.len(), 2);
    assert_eq!(found[0].institution(), "ETH Zurich");
    assert_eq!(found[0].agreement(), &MaybeLogic::Yes);
    assert_eq!(found[0].details(), &Some("read and publish".to_string()));
    assert_eq!(found[0].url(), &Some("https://ethz.ch/deal".to_string()));
    assert_eq!(found[1].institution(), "University of Oslo");
    assert_eq!(found[1].agreement(), &MaybeLogic::Unknown);
}
