use mcinterface::chat::Chat;
use mcinterface::{mc_putc, print_str, MciWriteStream};

fn chars(s: &str) -> Vec<char> {
    s.chars().collect()
}

fn shown(out: &mut MciWriteStream, chat: &mut Chat) {
    let sent = out.take_output();
    chat.receive_all(&sent);
}

#[test]
fn print_without_newline_shows_nothing() {
    let mut out = MciWriteStream::new();
    let mut chat = Chat::new();
    print_str(&mut out, "hello, world");
    assert_eq!(out.take_output(), chars("hello, world"));
    let mut out = MciWriteStream::new();
    print_str(&mut out, "hello, world");
    shown(&mut out, &mut chat);
    assert!(chat.lines().is_empty());
    assert_eq!(*chat.pending(), chars("hello, world"));
}

#[test]
fn println_shows_exactly_one_line() {
    let mut out = MciWriteStream::new();
    let mut chat = Chat::new();
    mcinterface::println(&mut out, "score 42");
    assert_eq!(out.take_output(), chars("score 42\n"));
    mcinterface::println(&mut out, "score 42");
    shown(&mut out, &mut chat);
    assert_eq!(*chat.lines(), vec![chars("score 42")]);
    assert!(chat.pending().is_empty());
}

#[test]
fn println_of_empty_text_shows_empty_line() {
    let mut out = MciWriteStream::new();
    let mut chat = Chat::new();
    mcinterface::println(&mut out, "");
    shown(&mut out, &mut chat);
    assert_eq!(*chat.lines(), vec![Vec::<char>::new()]);
    assert!(chat.pending().is_empty());
}

#[test]
fn two_prints_join_in_pending_line() {
    let mut out = MciWriteStream::new();
    let mut chat = Chat::new();
    print_str(&mut out, "abc");
    print_str(&mut out, "def");
    shown(&mut out, &mut chat);
    assert!(chat.lines().is_empty());
    assert_eq!(*chat.pending(), chars("abcdef"));
    mcinterface::println(&mut out, "!");
    shown(&mut out, &mut chat);
    assert_eq!(*chat.lines(), vec![chars("abcdef!")]);
}

#[test]
fn bulk_write_matches_single_characters() {
    let mut bulk = MciWriteStream::new();
    let mut single = MciWriteStream::new();
    assert_eq!(bulk.write_str("AB"), Ok(()));
    assert_eq!(single.write_char('A'), Ok(()));
    assert_eq!(single.write_char('B'), Ok(()));
    let b = bulk.take_output();
    assert_eq!(b, vec!['A', 'B']);
    assert_eq!(b, single.take_output());
}

#[test]
fn split_write_matches_whole_write() {
    let mut split = MciWriteStream::new();
    let mut whole = MciWriteStream::new();
    assert_eq!(split.write_str("x = 5"), Ok(()));
    assert_eq!(split.write_str("\n"), Ok(()));
    assert_eq!(whole.write_str("x = 5\n"), Ok(()));
    let mut chat_split = Chat::new();
    let mut chat_whole = Chat::new();
    shown(&mut split, &mut chat_split);
    shown(&mut whole, &mut chat_whole);
    assert_eq!(*chat_split.lines(), vec![chars("x = 5")]);
    assert_eq!(*chat_split.lines(), *chat_whole.lines());
    assert_eq!(*chat_split.pending(), *chat_whole.pending());
}

#[test]
fn several_lines_and_a_pending_tail() {
    let mut out = MciWriteStream::new();
    let mut chat = Chat::new();
    print_str(&mut out, "a\nb\n\ncd");
    shown(&mut out, &mut chat);
    assert_eq!(*chat.lines(), vec![chars("a"), chars("b"), Vec::new()]);
    assert_eq!(*chat.pending(), chars("cd"));
}

#[test]
fn newline_passes_through_like_any_character() {
    let mut out = MciWriteStream::new();
    mc_putc(&mut out, 'q');
    mc_putc(&mut out, '\n');
    mc_putc(&mut out, 'é');
    assert_eq!(out.take_output(), vec!['q', '\n', 'é']);
    assert!(out.take_output().is_empty());
}

#[test]
fn empty_write_forwards_nothing() {
    let mut out = MciWriteStream::new();
    assert_eq!(out.write_str(""), Ok(()));
    print_str(&mut out, "");
    assert!(out.take_output().is_empty());
}

#[test]
fn chat_receives_characters_one_by_one() {
    let mut chat = Chat::new();
    chat.receive('h');
    chat.receive('i');
    assert!(chat.lines().is_empty());
    chat.receive('\n');
    assert_eq!(*chat.lines(), vec![chars("hi")]);
    assert!(chat.pending().is_empty());
}
