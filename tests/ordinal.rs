use human_date_parser::ordinal::{
    ordinal_from_str, parse_compound_ordinal, parse_numeric_ordinal, parse_tens_base,
    parse_tens_ordinal, parse_units_ordinal, parse_word_ordinal,
};

#[test]
fn numeric_ordinals() {
    assert_eq!(parse_numeric_ordinal("1st"), Some(1));
    assert_eq!(parse_numeric_ordinal("22nd"), Some(22));
    assert_eq!(parse_numeric_ordinal("3rd"), Some(3));
    assert_eq!(parse_numeric_ordinal("104th"), Some(104));
    assert_eq!(parse_numeric_ordinal("th"), None);
    assert_eq!(parse_numeric_ordinal("4"), None);
    assert_eq!(parse_numeric_ordinal("xth"), None);
    assert_eq!(parse_numeric_ordinal("4294967296th"), None);
}

#[test]
fn word_ordinals() {
    assert_eq!(parse_word_ordinal("first"), Some(1));
    assert_eq!(parse_word_ordinal("twelfth"), Some(12));
    assert_eq!(parse_word_ordinal("twentieth"), Some(20));
    assert_eq!(parse_word_ordinal("twenty-first"), Some(21));
    assert_eq!(parse_word_ordinal("ninetieth"), Some(90));
    assert_eq!(parse_word_ordinal("hundredth"), None);
}

#[test]
fn compound_ordinals() {
    assert_eq!(parse_compound_ordinal("forty-fifth"), Some(45));
    assert_eq!(parse_compound_ordinal("ninety-ninth"), Some(99));
    assert_eq!(parse_compound_ordinal("thirtieth"), Some(30));
    assert_eq!(parse_compound_ordinal("twenty-tenth"), None);
    assert_eq!(parse_compound_ordinal("ten-first"), None);
    assert_eq!(parse_compound_ordinal("twenty-first-second"), None);
}

#[test]
fn tables() {
    assert_eq!(parse_tens_base("seventy"), Some(70));
    assert_eq!(parse_tens_base("seventieth"), None);
    assert_eq!(parse_units_ordinal("eighth"), Some(8));
    assert_eq!(parse_units_ordinal("tenth"), None);
    assert_eq!(parse_tens_ordinal("fiftieth"), Some(50));
    assert_eq!(parse_tens_ordinal("fifty"), None);
}

#[test]
fn ordinals_in_any_case() {
    assert_eq!(ordinal_from_str("Twenty-First"), Some(21));
    assert_eq!(ordinal_from_str("THIRD"), Some(3));
    assert_eq!(ordinal_from_str("31ST"), Some(31));
    assert_eq!(ordinal_from_str("+7th"), Some(7));
    assert_eq!(ordinal_from_str("last"), None);
    assert_eq!(ordinal_from_str(""), None);
}
