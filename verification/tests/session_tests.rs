use ping::session::{build, ConfigError, PeerId, PlayerType};

fn two_players() -> Vec<PlayerType> {
    vec![PlayerType::Local, PlayerType::Remote(PeerId(42))]
}

#[test]
fn build_accepts_a_valid_two_player_session() {
    let d = build(&two_players(), 2, 8).unwrap();
    assert_eq!(d.local_handle, 0);
    assert_eq!(d.remote_peer, PeerId(42));
    assert_eq!(d.input_delay, 2);
    assert_eq!(d.window, 8);
}

#[test]
fn build_assigns_handles_in_the_order_supplied() {
    let players = vec![PlayerType::Remote(PeerId(7)), PlayerType::Local];
    let d = build(&players, 0, 1).unwrap();
    assert_eq!(d.local_handle, 1);
    assert_eq!(d.remote_peer, PeerId(7));
}

#[test]
fn build_rejects_one_player() {
    let players = vec![PlayerType::Local];
    assert_eq!(build(&players, 2, 8), Err(ConfigError::WrongPlayerCount));
}

#[test]
fn build_rejects_three_players() {
    let players = vec![
        PlayerType::Local,
        PlayerType::Remote(PeerId(1)),
        PlayerType::Remote(PeerId(2)),
    ];
    assert_eq!(build(&players, 2, 8), Err(ConfigError::WrongPlayerCount));
}

#[test]
fn build_rejects_two_locals() {
    let players = vec![PlayerType::Local, PlayerType::Local];
    assert_eq!(build(&players, 2, 8), Err(ConfigError::NotExactlyOneLocal));
}

#[test]
fn build_rejects_two_remotes() {
    let players = vec![PlayerType::Remote(PeerId(1)), PlayerType::Remote(PeerId(2))];
    assert_eq!(build(&players, 2, 8), Err(ConfigError::NotExactlyOneLocal));
}

#[test]
fn build_rejects_excessive_input_delay() {
    assert_eq!(build(&two_players(), 11, 8), Err(ConfigError::InputDelayOutOfRange));
}

#[test]
fn build_accepts_the_delay_bounds() {
    assert!(build(&two_players(), 0, 8).is_ok());
    assert!(build(&two_players(), 10, 8).is_ok());
}

#[test]
fn build_rejects_a_zero_window() {
    assert_eq!(build(&two_players(), 2, 0), Err(ConfigError::WindowOutOfRange));
}

#[test]
fn build_rejects_an_oversized_window() {
    assert_eq!(build(&two_players(), 2, 65), Err(ConfigError::WindowOutOfRange));
}

#[test]
fn build_accepts_the_window_bounds() {
    assert!(build(&two_players(), 2, 1).is_ok());
    assert!(build(&two_players(), 2, 64).is_ok());
}
