use pseudobash::program::Program;

#[test]
fn check_program_iterator() {
    let data: Vec<u8> = vec![2, 3, 0, 9, 0];
    let p = Program::new(data.clone());
    let mut it = p.into_iter();

    assert_eq!(data[it.next().unwrap()], data[0]);
    assert_eq!(data[it.next().unwrap()], data[3]);
    assert_eq!(it.next(), None);
    assert_eq!(it.next(), None);

    let data: Vec<u8> = vec![2, 0, 0, 9, 0];
    let p = Program::new(data.clone());
    let mut it = p.into_iter();

    assert_eq!(data[it.next().unwrap()], data[0]);
    assert_eq!(data[it.next().unwrap()], data[2]);
    assert_eq!(data[it.next().unwrap()], data[3]);
    assert_eq!(it.next(), None);
    assert_eq!(it.next(), None);
}

#[test]
fn iterator_yields_the_start_of_each_word() {
    let p = Program::new(b"echo\0a b\0\0tail\0".to_vec());
    let mut it = p.into_iter();
    assert_eq!(it.next(), Some(0));
    assert_eq!(it.next(), Some(5));
    assert_eq!(it.next(), Some(9));
    assert_eq!(it.next(), Some(10));
    assert_eq!(it.next(), None);
}

#[test]
fn iterator_over_an_empty_program_yields_nothing() {
    let p = Program::new(Vec::new());
    let mut it = p.into_iter();
    assert_eq!(it.next(), None);
    assert_eq!(it.next(), None);
}

#[test]
fn iterator_yields_an_unterminated_tail_once() {
    let p = Program::new(vec![2, 3]);
    let mut it = p.into_iter();
    assert_eq!(it.next(), Some(0));
    assert_eq!(it.next(), None);
    assert_eq!(it.next(), None);
}

#[test]
fn program_keeps_words_and_input_apart() {
    let mut p = Program::new(b"cat\0".to_vec());
    assert!(!p.is_default());
    p.add_args(b"file\0".to_vec());
    p.set_stdin_data(b"input".to_vec());
    assert_eq!(p.flush_stdin_data(), b"input".to_vec());
    assert_eq!(p.flush_stdin_data(), Vec::<u8>::new());
    assert_eq!(p.get_data(), b"cat\0file\0".to_vec());
}

#[test]
fn program_with_the_mark_is_a_builtin() {
    assert!(Program::new(b"@nop\0".to_vec()).is_default());
    assert!(!Program::new(b"nop\0".to_vec()).is_default());
    assert!(!Program::new(Vec::new()).is_default());
}
