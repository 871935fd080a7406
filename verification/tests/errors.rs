use game_cs::GameError;

#[test]
fn json_errors_convert_into_game_errors() {
    let bad = serde_json::from_str::<u32>("not json").unwrap_err();
    let e: GameError = GameError::from(bad);
    assert!(matches!(e, GameError::SerializationError(_)));
}
