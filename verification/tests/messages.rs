//! Shapes of the outbound transport messages.

use shooter_core::server_message::ServerMessage;

#[test]
fn update_position_carries_own_and_bullet_positions() {
    let message = ServerMessage::UpdatePosition {
        player_tag: 1,
        position: (0, -374),
        bullets: vec![(0, -374), (7, -374)],
    };
    match message {
        ServerMessage::UpdatePosition { player_tag, position, bullets } => {
            assert_eq!(player_tag, 1);
            assert_eq!(position, (0, -374));
            assert_eq!(bullets.len(), 2);
        }
        _ => panic!("wrong variant"),
    }
}

#[test]
fn handshake_messages_compare_by_shape() {
    assert_eq!(ServerMessage::GameReady, ServerMessage::GameReady);
    assert_ne!(ServerMessage::GameReady, ServerMessage::GameStart);
    assert_eq!(
        ServerMessage::ConfirmDamaged { player_tag: 1, enemy_tag: 20 },
        ServerMessage::ConfirmDamaged { player_tag: 1, enemy_tag: 20 },
    );
    assert_ne!(
        ServerMessage::Joined { player_tag: 1 },
        ServerMessage::Joined { player_tag: 2 },
    );
}
