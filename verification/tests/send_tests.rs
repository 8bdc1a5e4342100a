use netsync::network::{AnyEvent, AnyUpdate, ClientUpdate, CustomNetEvent, InputEvent, NetMessage, NetParams, Player, ServerUpdate};
use netsync::send::{NetUpdate, UPDATE_FREQ};
use netsync::setup::{bind_address, is_server_from_args, server_address};

#[test]
fn update_frequency_is_ninety_percent_of_drift_window() {
    assert_eq!(UPDATE_FREQ, 54);
    assert!(NetUpdate::is_update_frame(0));
    assert!(!NetUpdate::is_update_frame(1));
    assert!(!NetUpdate::is_update_frame(53));
    assert!(NetUpdate::is_update_frame(54));
    assert!(NetUpdate::is_update_frame(108));
    assert!(!NetUpdate::is_update_frame(107));
}

#[test]
fn update_message_names_sender_side() {
    let server = NetParams::new(true);
    let client = NetParams::new(false);
    let m: NetMessage<(f32, f32)> = NetUpdate::message(&server, 54, (1.5, 2.5));
    assert_eq!(
        m,
        NetMessage::Unreliable(CustomNetEvent {
            frame: 54,
            from_server: true,
            event: AnyEvent::Update(AnyUpdate::Server(ServerUpdate { player_pos: (1.5, 2.5) })),
        })
    );
    let m: NetMessage<(f32, f32)> = NetUpdate::message(&client, 108, (0.0, -1.0));
    assert_eq!(
        m,
        NetMessage::Unreliable(CustomNetEvent {
            frame: 108,
            from_server: false,
            event: AnyEvent::Update(AnyUpdate::Client(ClientUpdate { player_pos: (0.0, -1.0) })),
        })
    );
}

#[test]
fn peers_report_only_their_own_player() {
    let server = NetParams::new(true);
    assert!(NetUpdate::reports(&server, &Player::new(true)));
    assert!(!NetUpdate::reports(&server, &Player::new(false)));
    assert!(server.is_remote(&Player::new(false)));
    assert!(!server.is_remote(&Player::new(true)));
}

#[test]
fn input_message_is_reliable() {
    let client = NetParams::new(false);
    let input = InputEvent { left: true, right: false, up: false, down: false };
    let (m, _owned): (NetMessage<u8>, _) = netsync::send::InputSystem::messages(&client, 3, input);
    assert_eq!(
        m,
        NetMessage::Reliable(CustomNetEvent { frame: 3, from_server: false, event: AnyEvent::Input(input) })
    );
}

#[test]
fn server_is_chosen_by_first_argument() {
    let args = |v: &[&str]| v.iter().map(|s| s.to_string()).collect::<Vec<String>>();
    assert!(is_server_from_args(&args(&["game", "server"])));
    assert!(is_server_from_args(&args(&["game", "server", "extra"])));
    assert!(!is_server_from_args(&args(&["game"])));
    assert!(!is_server_from_args(&args(&["game", "client"])));
    assert!(!is_server_from_args(&args(&["game", "servers"])));
    assert!(!is_server_from_args(&args(&[])));
}

#[test]
fn addresses() {
    assert_eq!(bind_address(true), "127.0.0.1:3456");
    assert_eq!(bind_address(false), "0.0.0.0:0");
    assert_eq!(server_address(), "127.0.0.1:3456");
    assert!(NetParams::new(false).opens_connection());
    assert!(!NetParams::new(true).opens_connection());
    assert_eq!(NetParams::new(true).first_frame, 0);
}
