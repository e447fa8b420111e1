use pc_mqtt_rs::library::text::{
    bytes_of, chars_of, contains_text, copy_texts, decimal_text, same_text, signed_decimal_text,
    texts_without,
};

fn strings(items: &[&str]) -> Vec<String> {
    items.iter().map(|s| s.to_string()).collect()
}

#[test]
fn decimal_of_small_and_large_numbers() {
    assert_eq!(decimal_text(0), "0");
    assert_eq!(decimal_text(7), "7");
    assert_eq!(decimal_text(10), "10");
    assert_eq!(decimal_text(200), "200");
    assert_eq!(decimal_text(1009), "1009");
    assert_eq!(decimal_text(65535), "65535");
    assert_eq!(decimal_text(u32::MAX), "4294967295");
}

#[test]
fn decimal_agrees_with_the_standard_formatting() {
    for n in 0..3000u32 {
        assert_eq!(decimal_text(n), format!("{}", n));
    }
    for n in -3000..3000i32 {
        assert_eq!(signed_decimal_text(n), format!("{}", n));
    }
}

#[test]
fn signed_decimal_of_the_extremes() {
    assert_eq!(signed_decimal_text(0), "0");
    assert_eq!(signed_decimal_text(-1), "-1");
    assert_eq!(signed_decimal_text(-32768), "-32768");
    assert_eq!(signed_decimal_text(32767), "32767");
    assert_eq!(signed_decimal_text(i32::MAX), "2147483647");
    assert_eq!(signed_decimal_text(i32::MIN), "-2147483648");
}

#[test]
fn same_text_compares_whole_texts() {
    assert!(same_text("", ""));
    assert!(same_text("speed", "speed"));
    assert!(same_text("größe", "größe"));
    assert!(!same_text("speed", "speeds"));
    assert!(!same_text("speed", "spee"));
    assert!(!same_text("speed", "Speed"));
    assert!(!same_text("a", ""));
}

#[test]
fn chars_and_bytes_of_a_text() {
    assert_eq!(chars_of("aé/"), vec!['a', 'é', '/']);
    assert_eq!(chars_of(""), Vec::<char>::new());
    assert_eq!(bytes_of("aé/"), "aé/".as_bytes().to_vec());
    assert_eq!(bytes_of(""), Vec::<u8>::new());
}

#[test]
fn contains_text_finds_whole_entries_only() {
    let list = strings(&["A", "BC", ""]);
    assert!(contains_text(&list, "A"));
    assert!(contains_text(&list, "BC"));
    assert!(contains_text(&list, ""));
    assert!(!contains_text(&list, "B"));
    assert!(!contains_text(&list, "a"));
    assert!(!contains_text(&Vec::new(), "A"));
}

#[test]
fn texts_without_keeps_order_and_duplicates() {
    let list = strings(&["A", "B", "C", "B", "D"]);
    assert_eq!(texts_without(&list, &strings(&["B"])), strings(&["A", "C", "D"]));
    assert_eq!(texts_without(&list, &strings(&["D", "A"])), strings(&["B", "C", "B"]));
    assert_eq!(texts_without(&list, &Vec::new()), list);
    assert_eq!(texts_without(&list, &list), Vec::<String>::new());
    assert_eq!(texts_without(&Vec::new(), &list), Vec::<String>::new());
}

#[test]
fn copy_texts_copies_everything() {
    let list = strings(&["A", "", "wägen"]);
    assert_eq!(copy_texts(&list), list);
    assert_eq!(copy_texts(&[]), Vec::<String>::new());
}
