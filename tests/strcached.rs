use hnm::strcached::StrCached;

#[test]
fn cursor_reads_and_peeks() {
    let mut c = StrCached::new("aбc");
    assert_eq!(c.cur_char(), Some('a'));
    assert_eq!(c.peek_char(), Some('б'));
    assert_eq!(c.peek_n(1), Some('a'));
    assert_eq!(c.peek_n(3), Some('c'));
    assert_eq!(c.peek_n(4), None);
    c.next_char();
    assert_eq!(c.cur_char(), Some('б'));
    assert_eq!(c.peek_char(), Some('c'));
    c.next_char();
    assert_eq!(c.peek_char(), None);
    c.next_char();
    assert_eq!(c.cur_char(), None);
    c.next_char();
    assert_eq!(c.cur_char(), None);
}

#[test]
fn empty_text_has_no_character() {
    let mut c = StrCached::new("");
    assert_eq!(c.cur_char(), None);
}
