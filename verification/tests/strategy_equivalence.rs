use fsm_engine::comment_dynamic::scan_comment_dynamic;
use fsm_engine::comment_tagged::scan_comment_tagged;
use fsm_engine::comment_typestate::scan_comment_typestate;
use fsm_engine::text_dynamic::scan_text_dynamic;
use fsm_engine::text_tagged::scan_text_tagged;
use fsm_engine::text_typestate::scan_text_typestate;

fn assert_text_strategies_agree(s: &str) {
    let input: Vec<char> = s.chars().collect();
    let tagged = scan_text_tagged(&input);
    let dynamic = scan_text_dynamic(&input);
    let typestate = scan_text_typestate(&input);
    assert_eq!(tagged, dynamic);
    assert_eq!(tagged, typestate);
}

fn assert_comment_strategies_agree(s: &str) {
    let input = s.as_bytes().to_vec();
    let tagged = scan_comment_tagged(&input);
    let dynamic = scan_comment_dynamic(&input);
    let typestate = scan_comment_typestate(&input);
    assert_eq!(tagged, dynamic);
    assert_eq!(tagged, typestate);
}

#[test]
fn text_strategies_agree_on_sample_inputs() {
    assert_text_strategies_agree("");
    assert_text_strategies_agree("ab 12\ncd");
    assert_text_strategies_agree("\n\n\n");
    assert_text_strategies_agree("one 2 three 44 \n mixed7tokens");
    assert_text_strategies_agree("héllo wörld 99");
}

#[test]
fn text_strategies_agree_and_match_the_table() {
    let input: Vec<char> = "ab 12\ncd".chars().collect();
    let tagged = scan_text_tagged(&input);
    assert_eq!(tagged.word_count, 2);
    assert_eq!(tagged.number_count, 1);
    assert_eq!(tagged.line_count, 1);
    assert_eq!(scan_text_dynamic(&input), tagged);
    assert_eq!(scan_text_typestate(&input), tagged);
}

#[test]
fn comment_strategies_agree_on_sample_inputs() {
    assert_comment_strategies_agree("");
    assert_comment_strategies_agree("/* hi */");
    assert_comment_strategies_agree("/**a*/");
    assert_comment_strategies_agree("/****/");
    assert_comment_strategies_agree("code /* body */ more /* x */");
    assert_comment_strategies_agree("/*unterminated");
}

#[test]
fn comment_strategies_agree_and_match_the_table() {
    let input = "/* hi */".as_bytes().to_vec();
    let tagged = scan_comment_tagged(&input);
    assert_eq!(tagged.counted_bytes, 4);
    assert_eq!(scan_comment_dynamic(&input), tagged);
    assert_eq!(scan_comment_typestate(&input), tagged);
}
