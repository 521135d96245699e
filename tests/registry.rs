use phone_number_parser::{get_operator_or_area_name, is_mobile_operator, PhoneNumberParser};

#[test]
fn every_code_resolves() {
    let table = [
        ("50", "Vodafone"), ("66", "Vodafone"), ("95", "Vodafone"), ("99", "Vodafone"),
        ("63", "lifecell"), ("73", "lifecell"), ("93", "lifecell"),
        ("67", "Kyivstar"), ("68", "Kyivstar"), ("96", "Kyivstar"), ("97", "Kyivstar"),
        ("98", "Kyivstar"), ("91", "3mob"), ("92", "PEOPLEnet"), ("94", "Intertelecom"),
        ("44", "Kyiv City"), ("32", "Lviv Oblast"), ("48", "Odesa Oblast"), ("56", "Dnipro"),
        ("61", "Zaporizhzhia Oblast"), ("64", "Luhansk Oblast"), ("69", "Sevastopol"),
        ("45", "Kyiv Oblast"), ("46", "Chernihiv Oblast"), ("47", "Cherkasy Oblast"),
        ("51", "Mykolaiv Oblast"), ("52", "Kirovohrad Oblast"), ("53", "Poltava Oblast"),
        ("54", "Sumy Oblast"), ("55", "Kherson Oblast"),
    ];
    for (code, name) in table {
        assert_eq!(get_operator_or_area_name(code), Some(name.to_string()), "code {}", code);
    }
}

#[test]
fn unknown_codes_do_not_resolve() {
    for code in ["10", "00", "49", "4", "444", "", "4a", "+3"] {
        assert_eq!(get_operator_or_area_name(code), None, "code {:?}", code);
    }
}

#[test]
fn mobile_operators_are_told_from_areas() {
    for name in ["Vodafone", "lifecell", "Kyivstar", "3mob", "PEOPLEnet", "Intertelecom"] {
        assert!(is_mobile_operator(name));
    }
    for name in ["Kyiv City", "Dnipro", "Sevastopol", "", "kyivstar", "Vodafone "] {
        assert!(!is_mobile_operator(name));
    }
}

#[test]
fn grammar_splits_nine_digits() {
    assert_eq!(
        PhoneNumberParser::split("441234567"),
        Some(("44".to_string(), "1234567".to_string()))
    );
    assert_eq!(PhoneNumberParser::split("44123456"), None);
    assert_eq!(PhoneNumberParser::split("4412345678"), None);
    assert_eq!(PhoneNumberParser::split("44a234567"), None);
    assert_eq!(PhoneNumberParser::split(""), None);
}
