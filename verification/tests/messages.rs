use micropolis_core::messages::parse_messages_resource;
use micropolis_core::messages::{
    GameMessage, MessagesStorage, ScoreCardString, GAME_MESSAGES_COUNT, SCORE_CARD_STRINGS_COUNT,
};

/// Lines of a resource holding `count` messages, with `text` as the message of
/// the given (zero-based) position, blank lines and `x` placeholders in between.
fn resource_lines(count: usize, position: usize, text: &str) -> Vec<String> {
    let mut lines = vec!["".to_string(), "x".to_string()];
    for i in 0..count {
        if i == position {
            lines.push(format!("  {}  ", text));
        } else {
            lines.push(format!("message {}", i));
        }
        if i % 5 == 0 {
            lines.push("   ".to_string());
        }
    }
    lines
}

#[test]
fn test_string_literals_loading() {
    let score_lines = resource_lines(
        SCORE_CARD_STRINGS_COUNT,
        ScoreCardString::GrowrateSlowGrowth.to_usize(),
        "Slow Growth",
    );
    let game_lines = resource_lines(
        GAME_MESSAGES_COUNT,
        GameMessage::MessageReachedCapital.to_usize() - 1,
        "Population has reached 50,000.",
    );
    let storage = MessagesStorage::load(score_lines, game_lines).expect("loading error");
    assert_eq!(
        storage.get_game_message(GameMessage::MessageReachedCapital),
        Some(&"Population has reached 50,000.".to_string())
    );
    assert_eq!(
        storage.get_score_card_string(ScoreCardString::GrowrateSlowGrowth),
        Some(&"Slow Growth".to_string())
    )
}

#[test]
fn messages_resource_with_wrong_count_is_refused() {
    let lines = resource_lines(3, 0, "first");
    assert!(parse_messages_resource(4, lines.clone()).is_err());
    let parsed = parse_messages_resource(3, lines).unwrap();
    assert_eq!(parsed, vec!["first".to_string(), "message 1".to_string(), "message 2".to_string()]);
}

#[test]
fn messages_storage_refuses_short_resources() {
    let score_lines = resource_lines(SCORE_CARD_STRINGS_COUNT - 1, 0, "a");
    let game_lines = resource_lines(GAME_MESSAGES_COUNT, 0, "b");
    assert!(MessagesStorage::load(score_lines, game_lines).is_err());
}

#[test]
fn first_game_message_has_number_one() {
    let score_lines = resource_lines(SCORE_CARD_STRINGS_COUNT, 0, "a");
    let game_lines = resource_lines(GAME_MESSAGES_COUNT, 0, "first message");
    let storage = MessagesStorage::load(score_lines, game_lines).unwrap();
    assert_eq!(GameMessage::MessageNeedMoreResidential.to_usize(), 1);
    assert_eq!(
        storage.get_game_message(GameMessage::MessageNeedMoreResidential),
        Some(&"first message".to_string())
    );
}
