use fsm_engine::comment_table::FsmState;
use fsm_engine::comment_tagged::scan_comment_tagged;

fn counted(s: &str) -> u64 {
    scan_comment_tagged(&s.as_bytes().to_vec()).counted_bytes
}

#[test]
fn single_transitions_follow_the_table() {
    assert_eq!(FsmState::Code.transition(b'/'), (FsmState::Slash, 0));
    assert_eq!(FsmState::Code.transition(b'x'), (FsmState::Code, 0));
    assert_eq!(FsmState::Slash.transition(b'*'), (FsmState::Block, 0));
    assert_eq!(FsmState::Slash.transition(b'x'), (FsmState::Code, 0));
    assert_eq!(FsmState::Block.transition(b'*'), (FsmState::BlockStar, 0));
    assert_eq!(FsmState::Block.transition(b'x'), (FsmState::Block, 1));
    assert_eq!(FsmState::BlockStar.transition(b'/'), (FsmState::Code, 0));
    assert_eq!(FsmState::BlockStar.transition(b'*'), (FsmState::BlockStar, 1));
    assert_eq!(FsmState::BlockStar.transition(b'x'), (FsmState::Block, 2));
}

#[test]
fn comment_body_counted_without_delimiters() {
    assert_eq!(counted("/* hi */"), 4);
}

#[test]
fn star_that_does_not_close_counts_itself_and_the_next_byte() {
    assert_eq!(counted("/**a*/"), 2);
}

#[test]
fn consecutive_stars_count_once_each_as_body() {
    // Opener, then three stars, then the closing slash: the first star only
    // arms BlockStar, the next two are each counted as body, and the final
    // star-slash pair closes uncounted.
    assert_eq!(counted("/****/"), 2);
    assert_eq!(counted("/***/"), 1);
    assert_eq!(counted("/**/"), 0);
}

#[test]
fn code_outside_comments_is_never_counted() {
    assert_eq!(counted("abc def"), 0);
    assert_eq!(counted("a / b / c"), 0);
    assert_eq!(counted("*/ stray closer"), 0);
}

#[test]
fn empty_input_counts_nothing() {
    assert_eq!(counted(""), 0);
}

#[test]
fn unterminated_comment_counts_its_body() {
    assert_eq!(counted("/*abc"), 3);
}

#[test]
fn several_comments_add_up() {
    assert_eq!(counted("/*a*/ x /*bc*/"), 3);
}

#[test]
fn multibyte_text_is_counted_per_byte() {
    // Two characters of three UTF-8 bytes each.
    assert_eq!(counted("/*日本*/"), 6);
}
