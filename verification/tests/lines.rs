use shunt::lines::LineSplitter;

#[test]
fn lines_fifo_within_one_stream() {
    let mut sp = LineSplitter::new();
    let lines = sp.push_chunk(b"one\ntwo\nthr");
    assert_eq!(lines.len(), 2);
    assert_eq!(lines[0].as_slice(), b"one");
    assert_eq!(lines[1].as_slice(), b"two");
    let lines = sp.push_chunk(b"ee\nfour\n");
    assert_eq!(lines.len(), 2);
    assert_eq!(lines[0].as_slice(), b"three");
    assert_eq!(lines[1].as_slice(), b"four");
    assert!(sp.take_partial().is_none());
}

#[test]
fn lines_split_one_byte_at_a_time() {
    let mut sp = LineSplitter::new();
    let mut collected: Vec<Vec<u8>> = Vec::new();
    for b in b"hi\nthere\n" {
        collected.extend(sp.push_chunk(&[*b]));
    }
    assert_eq!(collected.len(), 2);
    assert_eq!(collected[0].as_slice(), b"hi");
    assert_eq!(collected[1].as_slice(), b"there");
}

#[test]
fn lines_trailing_tail_not_dropped() {
    let mut sp = LineSplitter::new();
    let lines = sp.push_chunk(b"done\nalmos");
    assert_eq!(lines.len(), 1);
    assert_eq!(lines[0].as_slice(), b"done");
    let tail = sp.take_partial().expect("unterminated tail must be delivered");
    assert_eq!(tail.as_slice(), b"almos");
    assert!(sp.take_partial().is_none());
}

#[test]
fn lines_empty_chunk_yields_nothing() {
    let mut sp = LineSplitter::new();
    let lines = sp.push_chunk(b"");
    assert!(lines.is_empty());
    assert!(sp.take_partial().is_none());
}

#[test]
fn lines_empty_line_is_a_line() {
    let mut sp = LineSplitter::new();
    let lines = sp.push_chunk(b"\n\na\n");
    assert_eq!(lines.len(), 3);
    assert_eq!(lines[0].as_slice(), b"");
    assert_eq!(lines[1].as_slice(), b"");
    assert_eq!(lines[2].as_slice(), b"a");
}
