use agent_protocol::capability::{has_capability, has_capability_bytes, is_blank_byte, text_len};

#[test]
fn a_longer_tag_does_not_satisfy_a_shorter_requirement() {
    assert!(!has_capability("[\"decoding\"]", "coding"));
}

#[test]
fn a_declared_tag_is_found_among_several() {
    assert!(has_capability("[\"coding\",\"browser\"]", "coding"));
    assert!(has_capability("[\"coding\",\"browser\"]", "browser"));
    assert!(has_capability("[\"scraping\",\"browser\",\"coding\"]", "coding"));
}

#[test]
fn a_part_of_a_declared_tag_is_not_found() {
    assert!(!has_capability("[\"coding\"]", "cod"));
    assert!(!has_capability("[\"coding\"]", "oding"));
    assert!(!has_capability("[\"coding\"]", "codingx"));
    assert!(!has_capability("[\"coding\"]", ""));
}

#[test]
fn a_missing_bracket_finds_nothing() {
    assert!(!has_capability("\"coding\",\"browser\"]", "coding"));
    assert!(!has_capability("[\"decoding\",\"browser\"", "coding"));
    assert!(!has_capability("", "coding"));
    assert!(!has_capability("   ", "coding"));
    assert!(!has_capability("coding", "coding"));
}

#[test]
fn an_empty_list_holds_nothing() {
    assert!(!has_capability("[]", "coding"));
    assert!(!has_capability("[ ]", "coding"));
    assert!(!has_capability("[]", ""));
}

#[test]
fn an_empty_tag_matches_an_empty_requirement() {
    assert!(has_capability("[\"\"]", ""));
    assert!(!has_capability("[\"\"]", "a"));
}

#[test]
fn blanks_around_tokens_are_passed_over() {
    assert!(has_capability(" \t\n[ \"scraping\" ,\r\n \"coding\" ]", "coding"));
    assert!(has_capability("[\u{c}\"coding\"]", "coding"));
    assert!(!has_capability("[\" coding\"]", "coding"));
    assert!(!has_capability("[\"coding \"]", "coding"));
}

#[test]
fn a_vertical_tab_is_no_blank() {
    assert!(!is_blank_byte(11));
    assert!(is_blank_byte(9) && is_blank_byte(10) && is_blank_byte(12) && is_blank_byte(13) && is_blank_byte(32));
    assert!(!has_capability("[\u{b}\"coding\"]", "coding"));
}

#[test]
fn anything_before_the_opening_bracket_but_blanks_finds_nothing() {
    assert!(!has_capability("x[\"coding\"]", "coding"));
    assert!(!has_capability("][\"coding\"]", "coding"));
}

#[test]
fn an_escape_takes_the_next_byte_as_it_is() {
    assert!(has_capability("[\"a\\\"b\"]", "a\"b"));
    assert!(has_capability("[\"a\\\\b\"]", "a\\b"));
    assert!(has_capability("[\"a\\nb\"]", "anb"));
    assert!(!has_capability("[\"a\\\"b\"]", "a"));
    assert!(!has_capability("[\"a\\\"b\"]", "a\\\"b"));
}

#[test]
fn a_token_never_closed_finds_nothing() {
    assert!(!has_capability("[\"coding", "coding"));
    assert!(!has_capability("[\"coding\\\"]", "coding"));
    assert!(!has_capability("[\"coding\\", "coding"));
    assert!(!has_capability("[\"coding\\", "coding\\"));
}

#[test]
fn an_element_that_is_no_quoted_token_finds_nothing() {
    assert!(!has_capability("[1,\"coding\"]", "coding"));
    assert!(!has_capability("[coding]", "coding"));
    assert!(!has_capability("[null,\"coding\"]", "coding"));
    assert!(!has_capability("[[\"coding\"]]", "coding"));
}

#[test]
fn a_byte_out_of_place_after_a_token_finds_nothing() {
    assert!(!has_capability("[\"browser\" \"coding\"]", "coding"));
    assert!(!has_capability("[\"browser\";\"coding\"]", "coding"));
    assert!(!has_capability("[\"browser\",,\"coding\"]", "coding"));
    assert!(!has_capability("[\"browser\"]\"coding\"", "coding"));
}

#[test]
fn the_first_whole_match_decides() {
    assert!(has_capability("[\"coding\"", "coding"));
    assert!(has_capability("[\"coding\" garbage", "coding"));
    assert!(has_capability("[\"browser\",\"coding\",7]", "coding"));
    assert!(!has_capability("[\"browser\",7,\"coding\"]", "coding"));
}

#[test]
fn tags_outside_ascii_are_compared_byte_by_byte() {
    assert!(has_capability("[\"übersetzen\",\"翻訳\"]", "翻訳"));
    assert!(!has_capability("[\"übersetzen\"]", "ubersetzen"));
    assert_eq!(text_len("翻訳"), 6);
    assert_eq!(text_len("coding"), 6);
    assert_eq!(text_len(""), 0);
}

#[test]
fn bytes_are_matched_as_texts_are() {
    assert!(has_capability_bytes(b"[\"coding\",\"browser\"]", b"coding"));
    assert!(!has_capability_bytes(b"[\"decoding\"]", b"coding"));
    assert!(has_capability_bytes(&[91, 34, 255, 0, 34, 93], &[255, 0]));
    assert!(!has_capability_bytes(&[91, 34, 255, 0, 34, 93], &[255]));
}

#[test]
fn a_written_list_holds_exactly_its_tags() {
    let tags = ["scraping", "browser", "coding", "decoding", "code"];
    let mut blob = String::from("[");
    for (i, tag) in tags.iter().enumerate() {
        if i > 0 {
            blob.push(',');
        }
        blob.push('"');
        blob.push_str(tag);
        blob.push('"');
    }
    blob.push(']');
    for tag in tags.iter() {
        assert!(has_capability(&blob, tag));
    }
    for other in ["cod", "rows", "scrapingbrowser", "ing", "", "Coding"].iter() {
        assert!(!has_capability(&blob, other));
    }
}
