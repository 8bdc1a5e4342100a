use netsync::network::{
    AnyEvent, AnyUpdate, ClientUpdate, CustomNetEvent, InputEvent, NetMessage, NetParams,
    OwnedInput, Player, ServerUpdate,
};
use netsync::receive::{
    check_batch, check_due_update, check_message, check_recent, DueFrame, MessageFault, NetReceive, INPUT_LAG,
};
use netsync::send::{InputSystem, NetUpdate};

type Pos = (f32, f32);

fn keys(left: bool, right: bool, up: bool, down: bool) -> InputEvent {
    InputEvent { left, right, up, down }
}

fn reliable_input(frame: u64, from_server: bool, input: InputEvent) -> NetMessage<Pos> {
    NetMessage::Reliable(CustomNetEvent { frame, from_server, event: AnyEvent::Input(input) })
}

fn unreliable_update(frame: u64, from_server: bool, pos: Pos) -> NetMessage<Pos> {
    let update = if from_server {
        AnyUpdate::Server(ServerUpdate { player_pos: pos })
    } else {
        AnyUpdate::Client(ClientUpdate { player_pos: pos })
    };
    NetMessage::Unreliable(CustomNetEvent { frame, from_server, event: AnyEvent::Update(update) })
}

fn connected(now: u64) -> (NetReceive<u32, Pos>, NetParams) {
    let mut recv: NetReceive<u32, Pos> = NetReceive::new();
    let mut params = NetParams::new(false);
    assert!(recv.needs_reader());
    recv.connect(&mut params, now, || 7);
    (recv, params)
}

#[test]
fn first_connection_counts_frames_from_there() {
    let (mut recv, mut params) = connected(100);
    assert!(!recv.needs_reader());
    assert_eq!(*recv.reader_mut(), 7);
    assert_eq!(params.first_frame, 100);
    assert!(!params.is_server);
    // a later connection keeps the reader and the count
    recv.connect(&mut params, 150, || panic!("no second reader is registered"));
    assert_eq!(*recv.reader_mut(), 7);
    assert_eq!(params.first_frame, 100);
    // nothing is due in the frame of the first connection
    let mut fresh: NetReceive<u32, Pos> = NetReceive::new();
    let mut p = NetParams::new(true);
    fresh.connect(&mut p, 40, || 1);
    let d = fresh.receive_frame(&p, 40, vec![reliable_input(40, false, keys(true, false, false, false))]);
    assert_eq!(d, DueFrame { input: None, update: None });
    assert!(p.is_server);
}

#[test]
fn default_has_no_reader() {
    let recv: NetReceive<u32, Pos> = NetReceive::default();
    assert!(recv.needs_reader());
}

#[test]
fn input_is_handed_out_after_lag() {
    let (mut recv, params) = connected(100);
    let input = keys(true, false, true, false);
    let mut recent = None;
    recv.on_message(reliable_input(3, true, input), &mut recent);
    assert_eq!(recent, None);
    // elapsed 8 and 9: frames 2 and 3 - 1 are due, not 3
    let d = recv.take_due(&params, 100 + 3 + INPUT_LAG - 1);
    assert_eq!(d.input, None);
    let d = recv.take_due(&params, 100 + 3 + INPUT_LAG);
    assert_eq!(d.input, Some(OwnedInput { is_server: true, input }));
    assert_eq!(d.update, None);
    // handed out once
    let d = recv.take_due(&params, 100 + 3 + INPUT_LAG);
    assert_eq!(d, DueFrame { input: None, update: None });
}

#[test]
fn nothing_due_within_lag() {
    let (mut recv, params) = connected(10);
    let mut recent = None;
    recv.on_message(reliable_input(0, false, keys(false, false, false, true)), &mut recent);
    for now in 10..=(10 + INPUT_LAG) {
        assert_eq!(recv.take_due(&params, now), DueFrame { input: None, update: None });
    }
}

#[test]
fn later_input_for_same_frame_replaces_earlier() {
    let (mut recv, params) = connected(0);
    let mut recent = None;
    recv.on_message(reliable_input(5, false, keys(true, false, false, false)), &mut recent);
    recv.on_message(reliable_input(5, true, keys(false, true, false, false)), &mut recent);
    let d = recv.take_due(&params, 5 + INPUT_LAG);
    assert_eq!(d.input, Some(OwnedInput { is_server: true, input: keys(false, true, false, false) }));
}

#[test]
fn newest_update_is_kept_first_among_equals() {
    let (mut recv, _params) = connected(0);
    let mut recent = None;
    recv.on_message(unreliable_update(4, true, (1.0, 1.0)), &mut recent);
    recv.on_message(unreliable_update(9, true, (2.0, 2.0)), &mut recent);
    recv.on_message(unreliable_update(9, true, (3.0, 3.0)), &mut recent);
    recv.on_message(unreliable_update(7, true, (4.0, 4.0)), &mut recent);
    recv.on_message(reliable_input(12, true, keys(false, false, false, false)), &mut recent);
    let kept = recent.unwrap();
    assert_eq!(kept.frame, 9);
    assert_eq!(kept.event, AnyEvent::Update(AnyUpdate::Server(ServerUpdate { player_pos: (2.0, 2.0) })));
}

#[test]
fn update_reaches_other_peer_after_lag() {
    let (mut recv, params) = connected(50);
    let sender = NetParams::new(true);
    let msg: NetMessage<Pos> = NetUpdate::message(&sender, 2, (160.0, 90.0));
    assert_eq!(check_message(&msg), Ok(()));
    let mut recent = None;
    recv.on_message(msg, &mut recent);
    assert_eq!(check_recent(&recent), Ok(()));
    recv.buffer_recent(recent);
    let d = recv.take_due(&params, 50 + 2 + INPUT_LAG);
    let update = d.update.unwrap();
    assert_eq!(update.position_for(params.is_server), Some(&(160.0, 90.0)));
    assert_eq!(update.position_for(sender.is_server), None);
    assert_eq!(d.input, None);
}

#[test]
fn sent_input_matches_local_input() {
    let (mut recv, params) = connected(0);
    let sender = NetParams::new(true);
    let input = keys(false, true, false, true);
    let (msg, local): (NetMessage<Pos>, OwnedInput) = InputSystem::messages(&sender, 11, input);
    assert_eq!(check_message(&msg), Ok(()));
    let mut recent = None;
    recv.on_message(msg, &mut recent);
    let d = recv.take_due(&params, 11 + INPUT_LAG);
    assert_eq!(d.input, Some(local));
    assert_eq!(local, OwnedInput { is_server: true, input });
}

#[test]
fn faults_are_named() {
    let other: NetMessage<Pos> = NetMessage::Other;
    assert_eq!(check_message(&other), Err(MessageFault::UnexpectedEvent));
    let reliable_update = match unreliable_update(1, true, (0.0, 0.0)) {
        NetMessage::Unreliable(ev) => NetMessage::Reliable(ev),
        m => m,
    };
    assert_eq!(check_message(&reliable_update), Err(MessageFault::ReliableNonInput));
    let unreliable_input: Option<CustomNetEvent<Pos>> = Some(CustomNetEvent {
        frame: 1,
        from_server: false,
        event: AnyEvent::Input(keys(false, false, false, false)),
    });
    assert_eq!(check_recent(&unreliable_input), Err(MessageFault::RecentNotUpdate));
    assert_eq!(check_recent::<Pos>(&None), Ok(()));
    assert_eq!(MessageFault::UnexpectedEvent.message(), "unexpected NetEvent unhandled!");
    assert_eq!(MessageFault::ReliableNonInput.message(), "non-reliable InputEvent found");
    assert_eq!(
        MessageFault::RecentNotUpdate.message(),
        "expected update event in recent, but it wasn't"
    );
}

#[test]
fn buffer_recent_with_none_changes_nothing() {
    let (mut recv, params) = connected(0);
    recv.buffer_recent(None);
    assert_eq!(recv.take_due(&params, 1 + INPUT_LAG), DueFrame { input: None, update: None });
}

#[test]
fn whole_frame_buffers_inputs_and_newest_update() {
    let (mut recv, params) = connected(0);
    let batch = vec![
        reliable_input(2, true, keys(false, true, false, false)),
        unreliable_update(2, true, (1.0, 1.0)),
        unreliable_update(2, true, (5.0, 5.0)),
        reliable_input(3, true, keys(true, false, false, false)),
    ];
    assert_eq!(check_batch(&batch), Ok(()));
    let d = recv.receive_frame(&params, 1, batch);
    assert_eq!(d, DueFrame { input: None, update: None });
    // frames with nothing for frame 2 pass; it stays until it falls due
    for now in 2..(2 + INPUT_LAG) {
        let d = recv.receive_frame(&params, now, vec![]);
        assert_eq!(d.update, None);
    }
    let d = recv.receive_frame(&params, 2 + INPUT_LAG, vec![]);
    assert_eq!(d.input, Some(OwnedInput { is_server: true, input: keys(false, true, false, false) }));
    assert_eq!(d.update, Some(AnyUpdate::Server(ServerUpdate { player_pos: (1.0, 1.0) })));
    let d = recv.receive_frame(&params, 3 + INPUT_LAG, vec![]);
    assert_eq!(d.input, Some(OwnedInput { is_server: true, input: keys(true, false, false, false) }));
    assert_eq!(d.update, None);
}

#[test]
fn batch_faults_name_the_first_bad_message() {
    let batch: Vec<NetMessage<Pos>> = vec![
        reliable_input(1, true, keys(false, false, false, false)),
        NetMessage::Other,
        match unreliable_update(1, true, (0.0, 0.0)) {
            NetMessage::Unreliable(ev) => NetMessage::Reliable(ev),
            m => m,
        },
    ];
    assert_eq!(check_batch(&batch), Err(MessageFault::UnexpectedEvent));
    let newest_is_input: Vec<NetMessage<Pos>> = vec![
        unreliable_update(1, true, (0.0, 0.0)),
        NetMessage::Unreliable(CustomNetEvent {
            frame: 4,
            from_server: true,
            event: AnyEvent::Input(keys(false, false, false, false)),
        }),
    ];
    assert_eq!(check_batch(&newest_is_input), Err(MessageFault::RecentNotUpdate));
    let older_input: Vec<NetMessage<Pos>> = vec![
        NetMessage::Unreliable(CustomNetEvent {
            frame: 1,
            from_server: true,
            event: AnyEvent::Input(keys(false, false, false, false)),
        }),
        unreliable_update(4, true, (0.0, 0.0)),
    ];
    assert_eq!(check_batch(&older_input), Ok(()));
    assert_eq!(check_batch::<Pos>(&vec![]), Ok(()));
}

#[test]
fn own_update_for_remote_player_is_a_fault() {
    let client = NetParams::new(false);
    let own: Option<AnyUpdate<Pos>> = Some(AnyUpdate::Client(ClientUpdate { player_pos: (1.0, 2.0) }));
    let other: Option<AnyUpdate<Pos>> = Some(AnyUpdate::Server(ServerUpdate { player_pos: (3.0, 4.0) }));
    let both = vec![Player::new(true), Player::new(false)];
    let only_local = vec![Player::new(false)];
    assert_eq!(check_due_update(&own, &client, &both), Err(MessageFault::OwnUpdate));
    assert_eq!(check_due_update(&own, &client, &only_local), Ok(()));
    assert_eq!(check_due_update(&other, &client, &both), Ok(()));
    assert_eq!(check_due_update::<Pos>(&None, &client, &both), Ok(()));
    assert_eq!(MessageFault::OwnUpdate.message(), "received our own update");
    let update = other.unwrap();
    assert_eq!(client.correction_for(&update, &Player::new(true)), Some(&(3.0, 4.0)));
    assert_eq!(client.correction_for(&update, &Player::new(false)), None);
    let own_update = own.unwrap();
    assert_eq!(client.correction_for(&own_update, &Player::new(false)), None);
}
