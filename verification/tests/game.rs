use devcade_backend::DevcadeGame;

#[test]
fn default_game_is_blank_but_for_the_epoch() {
    let game = DevcadeGame::default();
    assert_eq!(game.id, "");
    assert_eq!(game.author, "");
    assert_eq!(game.upload_date, "1970-01-01T00:00:00.000Z");
    assert_eq!(game.name, "");
    assert_eq!(game.hash, "");
    assert_eq!(game.description, "");
    assert_eq!(game.icon_link, "");
    assert_eq!(game.banner_link, "");
}

#[test]
fn games_compare_field_by_field() {
    let mut game = DevcadeGame::default();
    game.id = String::from("b1946ac9");
    game.name = String::from("Brick Breaker");
    game.icon_link = String::from("https://devcade.example/icons/b1946ac9.png");
    let copy = game.clone();
    assert_eq!(copy, game);
    assert_ne!(copy, DevcadeGame::default());
    assert_eq!(copy.upload_date, "1970-01-01T00:00:00.000Z");
}
