use install_mimic::text::copy_text;
use install_mimic::text::copy_words;

#[test]
fn copy_of_optional_text() {
    assert_eq!(copy_text(&None), None);
    assert_eq!(copy_text(&Some("text".to_owned())), Some("text".to_owned()));
}

#[test]
fn copy_of_words_keeps_order() {
    let words = vec!["b".to_owned(), "a".to_owned(), "".to_owned(), "a".to_owned()];
    assert_eq!(copy_words(&words), words);
    assert_eq!(copy_words(&Vec::new()), Vec::<String>::new());
}
