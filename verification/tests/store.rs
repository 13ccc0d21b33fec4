use pin::store::{SaveError, Store};
use pin::table::{printable_string, render_table};
use pin::text::{chars_of, decimal_string, same_text, string_of};

fn s(text: &str) -> String {
    String::from(text)
}

fn store_of(pairs: &[(&str, &str)]) -> Store {
    let mut store = Store::init(None);
    for (alias, path) in pairs {
        let _ = store.add(s(alias), s(path));
    }
    store
}

#[test]
fn add_on_empty_store_then_get() {
    let mut store = Store::init(None);
    assert_eq!(store.add(s("docs"), s("/tmp")), Ok(()));
    assert_eq!(store.get(&s("docs")), Some(s("/tmp")));
}

#[test]
fn get_is_an_exact_match() {
    let store = store_of(&[("docs", "/tmp")]);
    assert_eq!(store.get(&s("doc")), None);
    assert_eq!(store.get(&s("docs ")), None);
    assert_eq!(store.get(&s("Docs")), None);
    assert_eq!(store.get(&s("")), None);
}

#[test]
fn second_add_replaces_and_reports_the_first_path() {
    let mut store = Store::init(None);
    assert_eq!(store.add(s("a"), s("/first")), Ok(()));
    assert_eq!(store.add(s("a"), s("/second")), Err(s("/first")));
    assert_eq!(store.get(&s("a")), Some(s("/second")));
}

#[test]
fn replaced_alias_keeps_its_place_in_the_listing() {
    let mut store = store_of(&[("a", "1"), ("b", "2")]);
    assert_eq!(store.add(s("a"), s("3")), Err(s("1")));
    let expected = "\
+-------+------+
| Alias | Path |
+-------+------+
| a     | 3    |
+-------+------+
| b     | 2    |
+-------+------+
";
    assert_eq!(store.list_all(), expected);
}

#[test]
fn delete_then_get_finds_nothing() {
    let mut store = store_of(&[("a", "/x"), ("b", "/y")]);
    assert_eq!(store.delete(s("a")), Ok(()));
    assert_eq!(store.get(&s("a")), None);
    assert_eq!(store.get(&s("b")), Some(s("/y")));
}

#[test]
fn delete_of_a_missing_alias_changes_nothing() {
    let mut store = store_of(&[("a", "/x"), ("b", "/y")]);
    let before = store.list_all();
    assert_eq!(store.delete(s("c")), Err(()));
    assert_eq!(store.list_all(), before);
    assert_eq!(store.get(&s("a")), Some(s("/x")));
    assert_eq!(store.get(&s("b")), Some(s("/y")));
}

#[test]
fn delete_keeps_the_order_of_the_rest() {
    let mut store = store_of(&[("a", "1"), ("b", "2"), ("c", "3")]);
    assert_eq!(store.delete(s("b")), Ok(()));
    assert_eq!(store.list_all(), store_of(&[("a", "1"), ("c", "3")]).list_all());
}

#[test]
fn save_gives_the_standard_encoding() {
    let store = store_of(&[("a", "b")]);
    assert_eq!(store.save(), Ok(vec![1u8, 1, 97, 1, 98]));
    assert_eq!(Store::init(None).save(), Ok(vec![0u8]));
    let two = store_of(&[("docs", "/tmp"), ("é", "")]);
    assert_eq!(two.save(), Ok(vec![2u8, 4, 100, 111, 99, 115, 4, 47, 116, 109, 112, 2, 0xc3, 0xa9, 0]));
}

#[test]
fn save_error_is_comparable() {
    assert_eq!(SaveError::Encoding, SaveError::Encoding);
}

#[test]
fn saved_store_is_read_back() {
    let pairs = [("proj", "/home/u/proj"), ("docs", "/tmp"), ("", "/empty alias"), ("ünï", "/päth/✓"), ("nl", "a\nb")];
    let store = store_of(&pairs);
    let listing = store.list_all();
    let bytes = store.save().unwrap();
    let back = Store::init(Some(bytes));
    for (alias, path) in pairs {
        assert_eq!(back.get(&s(alias)), Some(s(path)));
    }
    assert_eq!(back.list_all(), listing);
}

#[test]
fn large_store_is_read_back() {
    let mut store = Store::init(None);
    for i in 0..300u32 {
        let alias = format!("alias-{}", i);
        let path = format!("/some/where/{}/{}", i, "x".repeat((i % 40) as usize));
        assert_eq!(store.add(alias, path), Ok(()));
    }
    let listing = store.list_all();
    let bytes = store.save().unwrap();
    let again = bytes.clone();
    let back = Store::init(Some(bytes));
    assert_eq!(back.get(&s("alias-299")), Some(format!("/some/where/299/{}", "x".repeat(19))));
    assert_eq!(back.list_all(), listing);
    assert_eq!(back.save(), Ok(again));
}

#[test]
fn unreadable_file_gives_the_empty_store() {
    let store = Store::init(None);
    assert_eq!(store.get(&s("a")), None);
    assert_eq!(store.save(), Ok(vec![0u8]));
}

#[test]
fn malformed_file_gives_the_empty_store() {
    let cases: Vec<Vec<u8>> = vec![
        vec![],
        vec![2, 1, 97],
        vec![1, 1, 0xff, 1, 98],
        vec![1, 200, 97],
        vec![254, 0, 0],
        vec![255],
        vec![253, 0xff, 0xff, 0xff, 0xff, 0xff, 0xff, 0xff, 0xff],
        vec![253, 0, 0, 0, 0, 0, 0, 0, 0x10],
        vec![1, 253, 0xff, 0xff, 0xff, 0xff, 0xff, 0xff, 0xff, 0x7f, 97],
        vec![252, 0xff, 0xff, 0xff, 0xff],
    ];
    for bytes in cases {
        let store = Store::init(Some(bytes));
        assert_eq!(store.save(), Ok(vec![0u8]));
    }
}

#[test]
fn bytes_behind_the_entries_are_ignored() {
    let store = Store::init(Some(vec![1, 1, 97, 1, 98, 0xff, 0xff]));
    assert_eq!(store.get(&s("a")), Some(s("b")));
    assert_eq!(store.save(), Ok(vec![1u8, 1, 97, 1, 98]));
}

#[test]
fn later_pair_counts_when_a_file_names_an_alias_twice() {
    let store = Store::init(Some(vec![3, 1, 97, 1, 49, 1, 98, 1, 50, 1, 97, 1, 51]));
    assert_eq!(store.get(&s("a")), Some(s("3")));
    assert_eq!(store.get(&s("b")), Some(s("2")));
    assert_eq!(store.save(), Ok(vec![2u8, 1, 97, 1, 51, 1, 98, 1, 50]));
}

#[test]
fn from_entries_puts_pairs_in_one_after_the_other() {
    let store = Store::from_entries(Some(vec![(s("a"), s("1")), (s("b"), s("2")), (s("a"), s("3"))]));
    assert_eq!(store.list_all(), store_of(&[("a", "3"), ("b", "2")]).list_all());
    let none = Store::from_entries(None);
    assert_eq!(none.save(), Ok(vec![0u8]));
    let empty = Store::from_entries(Some(Vec::new()));
    assert_eq!(empty.save(), Ok(vec![0u8]));
}

#[test]
fn listing_of_the_empty_store_is_the_heading() {
    let expected = "\
+-------+------+
| Alias | Path |
+-------+------+
";
    assert_eq!(Store::init(None).list_all(), expected);
}

#[test]
fn listing_is_a_table_in_the_order_of_entry() {
    let store = store_of(&[("zeta", "/z"), ("a", "/a/long/path")]);
    let expected = "\
+-------+--------------+
| Alias | Path         |
+-------+--------------+
| zeta  | /z           |
+-------+--------------+
| a     | /a/long/path |
+-------+--------------+
";
    assert_eq!(store.list_all(), expected);
    assert_eq!(store.list_all(), store.list_all());
}

#[test]
fn listing_replaces_escape_characters() {
    let store = store_of(&[("e", "\u{1b}[31mred"), ("l", "\u{1b}[\u{644}\u{627}")]);
    let text = store.list_all();
    assert!(!text.contains('\u{1b}'));
    assert!(text.contains("\u{fffd}[31mred"));
    assert!(text.contains("\u{fffd}[\u{644}\u{627}"));
    assert_eq!(store.get(&s("e")), Some(s("\u{1b}[31mred")));
}

#[test]
fn printable_string_replaces_only_escapes() {
    assert_eq!(printable_string("plain"), "plain");
    assert_eq!(printable_string(""), "");
    assert_eq!(printable_string("a\u{1b}b\u{1b}"), "a\u{fffd}b\u{fffd}");
    assert_eq!(printable_string("tab\tnl\n"), "tab\tnl\n");
}

#[test]
fn render_table_pads_short_rows() {
    let rows = vec![vec![s("a"), s("bc"), s("def")], vec![s("def")]];
    let expected = "\
+-----+----+-----+
| a   | bc | def |
+-----+----+-----+
| def |    |     |
+-----+----+-----+
";
    assert_eq!(render_table(&rows), expected);
    assert_eq!(render_table(&Vec::new()), "++\n++\n");
}

#[test]
fn strings_and_characters_convert_both_ways() {
    assert_eq!(string_of(&vec!['a', 'é', '✓']), "aé✓");
    assert_eq!(string_of(&Vec::new()), "");
    assert_eq!(chars_of("aé✓"), vec!['a', 'é', '✓']);
    assert_eq!(chars_of(""), Vec::<char>::new());
    assert!(same_text("abc", "abc"));
    assert!(!same_text("abc", "abd"));
    assert!(!same_text("abc", "ab"));
}

#[test]
fn numbers_are_written_in_decimal() {
    assert_eq!(decimal_string(0), "0");
    assert_eq!(decimal_string(7), "7");
    assert_eq!(decimal_string(10), "10");
    assert_eq!(decimal_string(120), "120");
    assert_eq!(decimal_string(9_876_543_210), "9876543210");
    assert_eq!(decimal_string(u128::MAX), "340282366920938463463374607431768211455");
}

#[test]
fn pairs_are_in_the_order_of_the_listing() {
    let mut store = store_of(&[("b", "2"), ("a", "1"), ("c", "3")]);
    assert_eq!(store.add(s("a"), s("9")), Err(s("1")));
    assert_eq!(store.delete(s("b")), Ok(()));
    assert_eq!(store.pairs(), vec![(s("a"), s("9")), (s("c"), s("3"))]);
    assert_eq!(Store::init(None).pairs(), Vec::new());
}

#[test]
fn longest_file_that_is_sure_to_be_read() {
    let pairs: usize = 1_048_573;
    let mut bytes: Vec<u8> = vec![252];
    bytes.extend_from_slice(&(pairs as u32).to_le_bytes());
    bytes.resize(5 + 2 * pairs, 0);
    assert_eq!(bytes.len(), 2_097_151);
    let store = Store::init(Some(bytes));
    assert_eq!(store.pairs(), vec![(s(""), s(""))]);
}

#[test]
fn line_feed_at_the_end_of_a_text_is_not_drawn() {
    let store = store_of(&[("a\n", "/x\r\n")]);
    assert_eq!(store.list_all(), store_of(&[("a", "/x")]).list_all());
    assert_eq!(store.get(&s("a\n")), Some(s("/x\r\n")));
    assert_eq!(store.get(&s("a")), None);
    assert_eq!(store.pairs(), vec![(s("a\n"), s("/x\r\n"))]);
}

#[test]
fn text_of_two_lines_is_drawn_in_two_lines() {
    let store = store_of(&[("a\nbcd", "/x"), ("e", "f\r\n\ng")]);
    let expected = "\
+-------+------+
| Alias | Path |
+-------+------+
| a     | /x   |
| bcd   |      |
+-------+------+
| e     | f    |
|       |      |
|       | g    |
+-------+------+
";
    assert_eq!(store.list_all(), expected);
}

#[test]
fn render_table_draws_empty_and_line_feed_cells() {
    let rows = vec![vec![s(""), s("\n")], vec![s("x\n"), s("\ny")]];
    let expected = "\
+---+---+
|   |   |
+---+---+
| x |   |
|   | y |
+---+---+
";
    assert_eq!(render_table(&rows), expected);
}
