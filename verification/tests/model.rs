use patch_tuesday::{Product, Severity};

#[test]
fn severity_is_read_by_name_whatever_the_case() {
    assert!(Severity::from_str("critical") == Ok(Severity::Critical));
    assert!(Severity::from_str("Critical") == Ok(Severity::Critical));
    assert!(Severity::from_str("IMPORTANT") == Ok(Severity::Important));
    assert!(Severity::from_str("mOdErAtE") == Ok(Severity::Moderate));
    assert!(Severity::from_str("high") == Ok(Severity::High));
    assert!(Severity::from_str("Medium") == Ok(Severity::Medium));
    assert!(Severity::from_str("LOW") == Ok(Severity::Low));
    assert!(Severity::from_str("None") == Ok(Severity::Unrated));
}

#[test]
fn severity_refuses_what_is_no_name() {
    assert_eq!(Severity::from_str("crit"), Err("invalid variant: crit".to_string()));
    assert_eq!(Severity::from_str(""), Err("invalid variant: ".to_string()));
    assert_eq!(Severity::from_str("critical "), Err("invalid variant: critical ".to_string()));
    assert_eq!(Severity::from_str("unrated"), Err("invalid variant: unrated".to_string()));
    assert_eq!(Severity::from_str("l\u{f6}w"), Err("invalid variant: l\u{f6}w".to_string()));
    assert_eq!(Severity::from_str("criti\u{212a}al"), Err("invalid variant: criti\u{212a}al".to_string()));
}

#[test]
fn severity_parses_as_a_str_does() {
    assert!("Low".parse::<Severity>() == Ok(Severity::Low));
    assert!("lowest".parse::<Severity>().is_err());
}

#[test]
fn severity_prints_its_label() {
    assert_eq!(Severity::Critical.to_string(), "Critical");
    assert_eq!(Severity::Important.to_string(), "Important");
    assert_eq!(Severity::Moderate.to_string(), "Moderate");
    assert_eq!(Severity::High.to_string(), "High");
    assert_eq!(Severity::Medium.to_string(), "Medium");
    assert_eq!(Severity::Low.to_string(), "Low");
    assert_eq!(Severity::Unrated.to_string(), "");
}

#[test]
fn product_is_read_from_its_number() {
    assert_eq!(Product::from_str("11569"), Ok(Product::Win10_1809_x64));
    assert_eq!(Product::from_str("12086"), Ok(Product::Win11_22H2_x64));
    assert_eq!("12086".parse::<Product>(), Ok(Product::Win11_22H2_x64));
}

#[test]
fn product_refuses_other_numbers() {
    assert_eq!(Product::from_str("0"), Err("Invalid product"));
    assert_eq!(Product::from_str(""), Err("Invalid product"));
    assert_eq!(Product::from_str("11569 "), Err("Invalid product"));
    assert_eq!(Product::from_str("011569"), Err("Invalid product"));
    assert_eq!(Product::from_str("All"), Err("Invalid product"));
}

#[test]
fn product_numbers() {
    assert_eq!(Product::All.code(), 0);
    assert_eq!(Product::Win10_1809_x64.code(), 11569);
    assert_eq!(Product::Win11_22H2_x64.code(), 12086);
    assert_eq!(Product::All.id_string(), "0");
    assert_eq!(Product::Win10_1809_x64.id_string(), "11569");
    assert_eq!(Product::Win11_22H2_x64.id_string(), "12086");
}

#[test]
fn product_number_round_trip() {
    for p in [Product::Win10_1809_x64, Product::Win11_22H2_x64] {
        assert_eq!(Product::from_str(&p.id_string()), Ok(p));
    }
}
