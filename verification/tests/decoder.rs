use transfer_engine::decoder::LineDecoder;

#[test]
fn line_split_across_two_chunks_is_reassembled() {
    let mut decoder = LineDecoder::new();
    assert_eq!(decoder.push(b"Transferred: 1"), Vec::<String>::new());
    assert_eq!(decoder.push(b"0 MiB\n"), vec!["Transferred: 10 MiB".to_string()]);
}

#[test]
fn chunk_without_line_feed_completes_nothing() {
    let mut decoder = LineDecoder::new();
    assert!(decoder.push(b"partial").is_empty());
    assert!(decoder.push(b" still partial").is_empty());
    assert_eq!(decoder.push(b"\n"), vec!["partial still partial".to_string()]);
}

#[test]
fn several_lines_in_one_chunk_come_out_in_order() {
    let mut decoder = LineDecoder::new();
    let lines = decoder.push(b"one\ntwo\nthree\nfou");
    assert_eq!(lines, vec!["one".to_string(), "two".to_string(), "three".to_string()]);
    assert_eq!(decoder.push(b"r\n"), vec!["four".to_string()]);
}

#[test]
fn empty_chunk_changes_nothing() {
    let mut decoder = LineDecoder::new();
    assert!(decoder.push(b"ab").is_empty());
    assert!(decoder.push(b"").is_empty());
    assert_eq!(decoder.push(b"c\n"), vec!["abc".to_string()]);
}

#[test]
fn lone_line_feed_is_an_empty_line() {
    let mut decoder = LineDecoder::new();
    assert_eq!(decoder.push(b"\n"), vec![String::new()]);
    assert_eq!(decoder.push(b"\n\n"), vec![String::new(), String::new()]);
}

#[test]
fn line_feed_is_not_part_of_the_line() {
    let mut decoder = LineDecoder::new();
    let lines = decoder.push(b"abc\n");
    assert_eq!(lines.len(), 1);
    assert_eq!(lines[0].len(), 3);
    assert!(!lines[0].contains('\n'));
}

#[test]
fn carriage_return_stays_in_the_line() {
    let mut decoder = LineDecoder::new();
    assert_eq!(decoder.push(b"abc\r\n"), vec!["abc\r".to_string()]);
}

#[test]
fn invalid_bytes_are_replaced_not_refused() {
    let mut decoder = LineDecoder::new();
    assert_eq!(decoder.push(b"a\xffb\n"), vec!["a\u{fffd}b".to_string()]);
}

#[test]
fn multibyte_character_split_across_chunks_is_decoded_whole() {
    let mut decoder = LineDecoder::new();
    let bytes = "h\u{e9}llo\n".as_bytes();
    assert!(decoder.push(&bytes[..2]).is_empty());
    assert_eq!(decoder.push(&bytes[2..]), vec!["h\u{e9}llo".to_string()]);
}

#[test]
fn decoded_line_is_text_not_bytes() {
    let mut decoder = LineDecoder::new();
    let lines = decoder.push(&[0xe2, 0x82, 0xac, b'\n']);
    assert_eq!(lines, vec!["\u{20ac}".to_string()]);
    assert_eq!(lines[0].chars().count(), 1);
}

#[test]
fn cutting_the_input_elsewhere_gives_the_same_lines() {
    let input: &[u8] = b"alpha\nbeta\ngam\nma\n\ntail";
    let mut whole = LineDecoder::new();
    let expected = whole.push(input);
    let mut cut: usize = 0;
    while cut <= input.len() {
        let mut decoder = LineDecoder::new();
        let mut lines = decoder.push(&input[..cut]);
        lines.extend(decoder.push(&input[cut..]));
        assert_eq!(lines, expected);
        assert_eq!(decoder.push(b"\n"), vec!["tail".to_string()]);
        cut += 1;
    }
    assert_eq!(
        expected,
        vec![
            "alpha".to_string(),
            "beta".to_string(),
            "gam".to_string(),
            "ma".to_string(),
            String::new(),
        ]
    );
}

#[test]
fn two_decoders_do_not_share_their_buffers() {
    let mut out = LineDecoder::new();
    let mut err = LineDecoder::new();
    assert!(out.push(b"out").is_empty());
    assert!(err.push(b"err").is_empty());
    assert_eq!(out.push(b"\n"), vec!["out".to_string()]);
    assert_eq!(err.push(b"\n"), vec!["err".to_string()]);
}

#[test]
fn finish_hands_out_what_is_still_held() {
    let mut decoder = LineDecoder::new();
    assert_eq!(decoder.push(b"done\nno line feed"), vec!["done".to_string()]);
    assert_eq!(decoder.finish(), Some("no line feed".to_string()));
    assert_eq!(decoder.finish(), None);
    assert_eq!(decoder.push(b"\n"), vec![String::new()]);
}

#[test]
fn finish_of_an_empty_decoder_gives_nothing() {
    let mut decoder = LineDecoder::new();
    assert_eq!(decoder.finish(), None);
    assert_eq!(decoder.push(b"line\n"), vec!["line".to_string()]);
    assert_eq!(decoder.finish(), None);
}

#[test]
fn finish_replaces_invalid_bytes_too() {
    let mut decoder = LineDecoder::new();
    assert!(decoder.push(b"cut \xe2\x82").is_empty());
    assert_eq!(decoder.finish(), Some("cut \u{fffd}".to_string()));
}
