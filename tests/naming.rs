use holochain_client_wrapper::lowercase_first_letter;

#[test]
fn wire_name_of_register_dna() {
    assert_eq!(lowercase_first_letter(String::from("RegisterDna")), "registerDna");
}

#[test]
fn wire_name_of_empty_name() {
    assert_eq!(lowercase_first_letter(String::new()), "");
}

#[test]
fn wire_name_keeps_lowercase_first() {
    assert_eq!(lowercase_first_letter(String::from("listDnas")), "listDnas");
    let once = lowercase_first_letter(String::from("EnableApp"));
    assert_eq!(lowercase_first_letter(once.clone()), once);
}

#[test]
fn wire_name_lowers_only_first_char() {
    assert_eq!(lowercase_first_letter(String::from("ABC")), "aBC");
    assert_eq!(lowercase_first_letter(String::from("X")), "x");
}

#[test]
fn wire_name_of_non_ascii_first_char() {
    assert_eq!(lowercase_first_letter(String::from("\u{c9}cole")), "\u{e9}cole");
}
