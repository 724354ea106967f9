use backend::enums::{FeeCategory, MaybeLogic};
use backend::model::{Agreement, Currency, Fee, Journal, Owner, Publisher, PublisherAgreement};

fn publisher(id: i32, name: &str, url: Option<&str>) -> Publisher {
    Publisher {
        id,
        name: name.to_string(),
        url: url.map(|u| u.to_string()),
        comments: None,
    }
}

#[test]
fn malformed_url_resolves_to_absent() {
    let p = publisher(1, "Elsevier", Some("not a url"));
    assert!(p.url().is_none());
    let p = publisher(1, "Elsevier", Some("www.elsevier.com"));
    assert!(p.url().is_none());
}

#[test]
fn absent_url_resolves_to_absent() {
    let p = publisher(1, "Elsevier", None);
    assert!(p.url().is_none());
}

#[test]
fn valid_url_is_parsed() {
    let p = publisher(1, "Elsevier", Some("https://www.elsevier.com"));
    let u = p.url().expect("a valid url");
    assert_eq!(u.as_str(), "https://www.elsevier.com/");
    assert_eq!(u.host_str(), Some("www.elsevier.com"));
}

#[test]
fn owner_and_journal_urls() {
    let o = Owner {
        id: 3,
        name: "RELX".to_string(),
        ownership_url: Some("https://www.relx.com/about".to_string()),
        comments: Some("parent group".to_string()),
    };
    assert_eq!(o.ownership_url().unwrap().path(), "/about");
    assert_eq!(o.name(), "RELX");
    assert_eq!(o.comments(), &Some("parent group".to_string()));
    let j = Journal {
        id: 10,
        name: "Cell".to_string(),
        url: Some("http://".to_string()),
        publisher_id: 1,
        for_profit: true,
        comments: None,
    };
    assert!(j.url().is_none());
    assert_eq!(j.name(), "Cell");
    assert!(j.for_profit());
    assert_eq!(j.comments(), &None);
}

#[test]
fn scalar_fields_are_returned_as_stored() {
    let p = Publisher {
        id: 1,
        name: "  Springer Nature ".to_string(),
        url: None,
        comments: Some("".to_string()),
    };
    assert_eq!(p.name(), "  Springer Nature ");
    assert_eq!(p.comments(), &Some("".to_string()));
    let f = Fee {
        id: 5,
        journal_id: 10,
        fee: 3150,
        currency_code: "USD".to_string(),
        category: FeeCategory::ArticleProcessingCharge,
    };
    assert_eq!(f.fee(), 3150);
    assert_eq!(f.category(), &FeeCategory::ArticleProcessingCharge);
    let c = Currency { code: "EUR".to_string(), symbol: "€".to_string(), name: "Euro".to_string() };
    assert_eq!(c.code(), "EUR");
    assert_eq!(c.symbol(), "€");
    assert_eq!(c.name(), "Euro");
}

#[test]
fn agreement_fields() {
    let a = Agreement {
        institution: "University of Oslo".to_string(),
        publisher: "Elsevier".to_string(),
        agreement: MaybeLogic::NotNeeded,
        details: Some("read and publish".to_string()),
        url: Some("not checked".to_string()),
    };
    assert_eq!(a.institution(), "University of Oslo");
    assert_eq!(a.publisher(), "Elsevier");
    assert_eq!(a.agreement(), &MaybeLogic::NotNeeded);
    assert_eq!(a.details(), &Some("read and publish".to_string()));
    assert_eq!(a.url(), &Some("not checked".to_string()));
    let pa = PublisherAgreement {
        institution: "ETH Zurich".to_string(),
        agreement: MaybeLogic::Unknown,
        details: None,
        url: None,
    };
    assert_eq!(pa.institution(), "ETH Zurich");
    assert_eq!(pa.agreement(), &MaybeLogic::Unknown);
    assert_eq!(pa.details(), &None);
    assert_eq!(pa.url(), &None);
}

#[test]
fn duplicate_copies_every_field() {
    let p = publisher(4, "Wiley", Some("https://wiley.com"));
    let q = p.duplicate();
    assert_eq!(q.id, 4);
    assert_eq!(q.name, "Wiley");
    assert_eq!(q.url, Some("https://wiley.com".to_string()));
    assert_eq!(q.comments, None);
}
