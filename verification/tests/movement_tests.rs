use netsync::movement::{MoveSystem, PlayerSystem};
use netsync::network::{InputEvent, NetParams, OwnedInput, Player};

fn keys(left: bool, right: bool, up: bool, down: bool) -> InputEvent {
    InputEvent { left, right, up, down }
}

#[test]
fn direction_per_key() {
    assert_eq!(keys(false, true, false, false).direction(), (1, 0));
    assert_eq!(keys(true, false, false, false).direction(), (-1, 0));
    assert_eq!(keys(false, false, true, false).direction(), (0, 1));
    assert_eq!(keys(false, false, false, true).direction(), (0, -1));
    assert_eq!(keys(true, false, true, false).direction(), (-1, 1));
}

#[test]
fn opposite_keys_cancel() {
    assert_eq!(keys(true, true, false, false).direction(), (0, 0));
    assert_eq!(keys(true, true, true, true).direction(), (0, 0));
    assert!(!keys(true, true, true, true).is_moving());
    assert!(!keys(false, false, false, false).is_moving());
    assert!(keys(true, true, true, false).is_moving());
}

#[test]
fn inputs_move_only_their_side() {
    let input = OwnedInput { is_server: true, input: keys(false, true, false, false) };
    assert_eq!(MoveSystem::movement(&input, &Player::new(true)), Some((1, 0)));
    assert_eq!(MoveSystem::movement(&input, &Player::new(false)), None);
    assert!(input.moves(&Player::new(true)));
    let still = OwnedInput { is_server: false, input: keys(true, true, false, false) };
    assert_eq!(MoveSystem::movement(&still, &Player::new(false)), None);
}

#[test]
fn local_keys_move_local_player() {
    let _system = PlayerSystem::new();
    let params = NetParams::new(false);
    let input = keys(false, false, true, false);
    assert_eq!(PlayerSystem::movement(&params, &Player::new(false), &input), Some((0, 1)));
    assert_eq!(PlayerSystem::movement(&params, &Player::new(true), &input), None);
    assert_eq!(
        PlayerSystem::movement(&params, &Player::new(false), &keys(false, false, false, false)),
        Some((0, 0))
    );
}
