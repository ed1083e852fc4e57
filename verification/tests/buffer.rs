use calc::buffer::Buffer;
use calc::text::{chars_of, is_delimiter, is_digit, is_whitespace, same_text, string_from_chars};

#[test]
fn pop_reads_in_order() {
    let mut buf = Buffer::new(vec![1, 2, 3]);
    assert_eq!(buf.pop(), Some(1));
    assert_eq!(buf.pop(), Some(2));
    assert_eq!(buf.pop(), Some(3));
    assert_eq!(buf.pop(), None);
    assert_eq!(buf.pop(), None);
}

#[test]
fn push_puts_back() {
    let mut buf = Buffer::new(vec!['a', 'b']);
    assert_eq!(buf.pop(), Some('a'));
    buf.push('a');
    assert_eq!(buf.pop(), Some('a'));
    buf.push('x');
    buf.push('y');
    assert_eq!(buf.pop(), Some('y'));
    assert_eq!(buf.pop(), Some('x'));
    assert_eq!(buf.pop(), Some('b'));
    assert_eq!(buf.pop(), None);
    buf.push('z');
    assert_eq!(buf.pop(), Some('z'));
    assert_eq!(buf.pop(), None);
}

#[test]
fn peek_does_not_read() {
    let mut buf = Buffer::new(vec![7u8, 8]);
    assert_eq!(buf.peek(), Some(7));
    assert_eq!(buf.peek(), Some(7));
    assert_eq!(buf.pop(), Some(7));
    assert_eq!(buf.peek(), Some(8));
    assert_eq!(buf.pop(), Some(8));
    assert_eq!(buf.peek(), None);
    assert_eq!(buf.pop(), None);
}

#[test]
fn is_empty_does_not_read() {
    let mut buf = Buffer::new(vec![7u8]);
    assert!(!buf.is_empty());
    assert!(!buf.is_empty());
    assert_eq!(buf.pop(), Some(7));
    assert!(buf.is_empty());
    buf.push(9);
    assert!(!buf.is_empty());
    assert_eq!(buf.pop(), Some(9));
    assert!(buf.is_empty());
    let mut none: Buffer<u8> = Buffer::new(vec![]);
    assert!(none.is_empty());
    assert_eq!(none.peek(), None);
}

#[test]
fn take_until_stops_before_the_match() {
    let mut buf = Buffer::new(vec![1, 2, 3, 10, 4, 11]);
    assert_eq!(buf.take_until(|x: &i32| *x >= 10), vec![1, 2, 3]);
    assert_eq!(buf.peek(), Some(10));
    assert_eq!(buf.take_until(|x: &i32| *x >= 10), Vec::<i32>::new());
    assert_eq!(buf.pop(), Some(10));
    assert_eq!(buf.take_until(|x: &i32| *x >= 10), vec![4]);
    assert_eq!(buf.pop(), Some(11));
    assert_eq!(buf.take_until(|x: &i32| *x >= 10), Vec::<i32>::new());
    assert!(buf.is_empty());
}

#[test]
fn take_until_reads_to_the_end() {
    let mut buf = Buffer::new(vec![1, 2, 3]);
    buf.push(0);
    assert_eq!(buf.take_until(|_: &i32| false), vec![0, 1, 2, 3]);
    assert!(buf.is_empty());
    assert_eq!(buf.take_until(|_: &i32| false), Vec::<i32>::new());
}

#[test]
fn whitespace_is_the_unicode_property() {
    for code in 0..=0x10ffffu32 {
        if let Some(c) = char::from_u32(code) {
            assert_eq!(is_whitespace(c), c.is_whitespace(), "{:x}", code);
            assert_eq!(is_digit(c), c.is_digit(10) && c.is_ascii(), "{:x}", code);
            assert_eq!(is_digit(c), char::is_digit(c, 10), "{:x}", code);
            assert_eq!(is_delimiter(c), c.is_whitespace() || c == '(' || c == ')', "{:x}", code);
        }
    }
}

#[test]
fn strings_and_their_characters() {
    assert_eq!(chars_of("a(é 京"), vec!['a', '(', 'é', ' ', '京']);
    assert_eq!(chars_of(""), Vec::<char>::new());
    assert_eq!(string_from_chars(&vec!['a', '(', 'é', ' ', '京']), "a(é 京");
    assert_eq!(string_from_chars(&vec![]), "");
    assert_eq!(string_from_chars(&chars_of("(+ 2 5)")), "(+ 2 5)");
}

#[test]
fn same_text_compares_characters() {
    assert!(same_text("", ""));
    assert!(same_text("sqrt", "sqrt"));
    assert!(same_text("京é", "京é"));
    assert!(!same_text("sqrt", "sqr"));
    assert!(!same_text("sqr", "sqrt"));
    assert!(!same_text("sqrt", "sqrT"));
    assert!(!same_text("a", ""));
    assert!(!same_text("é", "e"));
}
