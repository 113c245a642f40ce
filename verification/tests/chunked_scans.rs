use fsm_engine::incremental::CommentScanner;
use fsm_engine::incremental::TextScanner;
use fsm_engine::text_tagged::scan_text_tagged;
use fsm_engine::comment_tagged::scan_comment_tagged;

fn chars(s: &str) -> Vec<char> {
    s.chars().collect()
}

fn text_in_chunks(chunks: &[&str]) -> fsm_engine::text_table::TextStats {
    let mut scanner = TextScanner::new();
    for chunk in chunks {
        scanner.feed(&chars(chunk));
    }
    scanner.stats()
}

fn comment_in_chunks(chunks: &[&str]) -> u64 {
    let mut scanner = CommentScanner::new();
    for chunk in chunks {
        scanner.feed(&chunk.as_bytes().to_vec());
    }
    scanner.count().counted_bytes
}

#[test]
fn text_chunks_match_one_shot_scan() {
    let whole = scan_text_tagged(&chars("ab 12\ncd"));
    assert_eq!(text_in_chunks(&["ab 12\ncd"]), whole);
    assert_eq!(text_in_chunks(&["ab ", "12\ncd"]), whole);
    assert_eq!(text_in_chunks(&["ab 1", "2\ncd"]), whole);
    assert_eq!(text_in_chunks(&["a", "b", " ", "1", "2", "\n", "c", "d"]), whole);
}

#[test]
fn token_split_across_a_chunk_boundary_counts_once() {
    // "12" arrives in two chunks; the digit that opens the number is
    // counted in the first and the second digit merely continues it.
    let stats = text_in_chunks(&["ab 1", "2 cd"]);
    assert_eq!(stats.number_count, 1);
    assert_eq!(stats.word_count, 2);
}

#[test]
fn empty_chunks_change_nothing() {
    let scanner = TextScanner::new();
    assert_eq!(scanner.stats(), scan_text_tagged(&chars("")));
    assert_eq!(text_in_chunks(&["", "ab", "", "", " 12", ""]), scan_text_tagged(&chars("ab 12")));
}

#[test]
fn comment_chunks_match_one_shot_scan() {
    let whole = scan_comment_tagged(&"/* hi */".as_bytes().to_vec()).counted_bytes;
    assert_eq!(comment_in_chunks(&["/* hi */"]), whole);
    assert_eq!(comment_in_chunks(&["/* h", "i */"]), whole);
    assert_eq!(comment_in_chunks(&["/", "*", " hi ", "*", "/"]), whole);
}

#[test]
fn closer_split_across_a_chunk_boundary_still_closes() {
    // The first chunk ends on the star of "*/"; the slash arrives later and
    // must still close the comment without counting either delimiter byte.
    assert_eq!(comment_in_chunks(&["/* hi *", "/"]), 4);
    assert_eq!(comment_in_chunks(&["/* hi *", "x*/"]), 6);
}

#[test]
fn comment_state_survives_chunk_boundaries() {
    assert_eq!(comment_in_chunks(&["/*ab", "cd*/"]), 4);
    assert_eq!(comment_in_chunks(&["/", "*ab"]), 2);
}
