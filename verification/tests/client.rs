use rustball::client::{AppState, BackendInfo, LocalGame, PollState, PowerUpKind, Scores,
    TurnState, WsSignal};
use rustball::formation::{get_formation_positions, parse_formation, Formation};
use rustball::match_state::{FormacionData, MatchStatus, PiezaPos, TurnoData};
use rustball::snapshot::Snapshot;

fn info() -> BackendInfo {
    // This client is the left player, identity 7; the opponent is 8.
    BackendInfo::new(1, 7, 7, 8)
}

fn snapshot_con_turnos(turnos: Vec<TurnoData>, proximo: Option<i32>) -> Snapshot {
    Snapshot {
        estado: MatchStatus::Playing,
        marcador: (1, 2),
        formaciones: vec![
            FormacionData { id_usuario: 7, formacion: "1-2-1-1".to_string(), turno_inicio: 1 },
            FormacionData { id_usuario: 8, formacion: "2-2-1".to_string(), turno_inicio: 2 },
        ],
        turnos,
        proximo_turno: proximo,
        nombre_jugador_1: "Ana".to_string(),
        nombre_jugador_2: "Beto".to_string(),
    }
}

fn turno(n: u64, uid: i32, piezas: Vec<PiezaPos>) -> TurnoData {
    TurnoData { numero_turno: n, id_usuario: uid, jugada: piezas, fecha_turno: 0 }
}

/// An accepted snapshot rebuilds board, score and the turn flags from the
/// snapshot alone.
#[test]
fn snapshot_is_applied() {
    let mut g = LocalGame::new(info());
    let piezas = vec![
        PiezaPos { id_usuario_real: 7, x: 10, y: 20 },
        PiezaPos { id_usuario_real: 8, x: -10, y: -20 },
    ];
    let snap = snapshot_con_turnos(vec![turno(1, 7, piezas.clone())], Some(7));

    assert!(g.apply_snapshot(&snap));
    assert_eq!(g.marcador, Scores { left: 1, right: 2 });
    assert_eq!(g.tablero, piezas);
    assert!(g.my_turn);
    assert_eq!(g.ultimo_turno_aplicado, Some(1));
    assert_eq!(g.proximo_numero_turno, 2);
    assert_eq!(g.estado_app, AppState::InGame);
    assert_eq!(g.turn_state.current_turn_id, 7);
    assert!(!g.turn_state.in_motion);
    assert!(g.turn_state.selected_index.is_none());
}

/// Applying the same snapshot twice is a no-op: the duplicate is dropped.
#[test]
fn duplicate_snapshot_is_dropped() {
    let mut g = LocalGame::new(info());
    let snap = snapshot_con_turnos(
        vec![turno(1, 7, vec![PiezaPos { id_usuario_real: 7, x: 1, y: 2 }])],
        Some(8),
    );
    assert!(g.apply_snapshot(&snap));
    let antes = format!("{:?}", g);
    assert!(!g.apply_snapshot(&snap));
    assert_eq!(format!("{:?}", g), antes);
}

/// Out-of-order delivery: after the newer snapshot, the older one is
/// stale and the state stays that of the newest.
#[test]
fn stale_snapshot_is_dropped() {
    let mut g = LocalGame::new(info());
    let nuevo = snapshot_con_turnos(
        vec![
            turno(1, 7, vec![PiezaPos { id_usuario_real: 7, x: 1, y: 1 }]),
            turno(2, 8, vec![PiezaPos { id_usuario_real: 8, x: 2, y: 2 }]),
            turno(3, 7, vec![PiezaPos { id_usuario_real: 7, x: 3, y: 3 }]),
        ],
        Some(8),
    );
    let viejo = snapshot_con_turnos(
        vec![
            turno(1, 7, vec![PiezaPos { id_usuario_real: 7, x: 1, y: 1 }]),
            turno(2, 8, vec![PiezaPos { id_usuario_real: 8, x: 2, y: 2 }]),
        ],
        Some(7),
    );
    assert!(g.apply_snapshot(&nuevo));
    let despues_del_nuevo = format!("{:?}", g);
    assert!(!g.apply_snapshot(&viejo));
    assert_eq!(format!("{:?}", g), despues_del_nuevo);
    assert_eq!(g.tablero, vec![PiezaPos { id_usuario_real: 7, x: 3, y: 3 }]);
}

/// A snapshot of a match that has not started yet is ignored.
#[test]
fn forming_snapshot_is_ignored() {
    let mut g = LocalGame::new(info());
    let mut snap = snapshot_con_turnos(vec![], None);
    snap.estado = MatchStatus::Forming;
    assert!(!g.apply_snapshot(&snap));
    assert_eq!(g.estado_app, AppState::FormationSelection);
}

/// The opening snapshot carries no turns: the board is rebuilt from the
/// two formations, mirrored for the left side, every piece tagged with its
/// side's identity.
#[test]
fn opening_snapshot_rebuilds_board_from_formations() {
    let mut g = LocalGame::new(info());
    let snap = snapshot_con_turnos(vec![], Some(7));
    assert!(g.apply_snapshot(&snap));
    assert_eq!(g.tablero.len(), 10);
    // Participant 7 plays left: the first five pieces are the mirrored
    // "1-2-1-1" layout.
    assert_eq!(g.tablero[0], PiezaPos { id_usuario_real: 7, x: -400_000, y: 0 });
    assert_eq!(g.tablero[1], PiezaPos { id_usuario_real: 7, x: -300_000, y: 100_000 });
    // Participant 8 plays right: the "2-2-1" layout unmirrored.
    assert_eq!(g.tablero[5], PiezaPos { id_usuario_real: 8, x: 400_000, y: 100_000 });
    assert_eq!(g.tablero[9], PiezaPos { id_usuario_real: 8, x: 100_000, y: 0 });
    assert_eq!(g.proximo_numero_turno, 1);
}

/// Input gating and the shot life-cycle: select, aim, charge, fire, stop,
/// queue — and the "my turn" flag falls as soon as the turn completes.
#[test]
fn full_local_turn() {
    let mut g = LocalGame::new(info());
    let snap = snapshot_con_turnos(vec![], Some(7));
    assert!(g.apply_snapshot(&snap));
    assert!(g.my_turn);

    g.auto_select_first_disk();
    assert_eq!(g.turn_state.selected_index, Some(0));

    g.aim_with_keyboard(false, true, true, false);
    assert_eq!((g.turn_state.aim_x, g.turn_state.aim_y), (100, 100));

    for _ in 0..60 {
        g.charge_shot_power(true);
    }
    assert_eq!(g.turn_state.power, 1000); // saturates at full charge

    let cmd = g.fire_selected_disk(true).expect("the shot must fire");
    assert_eq!(cmd.piece_index, 0);
    // velocity = aim (milli-units) * power * 800 / 1000-scale
    assert_eq!(cmd.vel_x, 100 * 800_000);
    assert_eq!(cmd.vel_y, 100 * 800_000);
    assert!(!cmd.double_restitution);
    assert!(g.turn_state.in_motion);
    assert_eq!(g.turn_state.power, 0);

    // While in motion, further input has no effect.
    assert!(g.fire_selected_disk(true).is_none());

    // Pieces still moving: not the end of the turn yet.
    assert!(!g.check_turn_end(false));
    assert!(g.check_turn_end(true));
    assert!(!g.my_turn, "input is blocked as soon as the turn completes");

    g.queue_completed_turn();
    let payload = g.take_pending_for_send().expect("a payload was queued");
    assert_eq!(payload.id_partida, 1);
    assert_eq!(payload.id_usuario, 7);
    assert_eq!(payload.numero_turno, 1);
    assert_eq!(payload.jugada.len(), 10);
    assert!(!payload.extiende);
    assert!(g.take_pending_for_send().is_none(), "the slot is cleared by the send");
}

/// A failed transmission keeps the payload for retry.
#[test]
fn failed_send_retains_payload() {
    let mut g = LocalGame::new(info());
    let snap = snapshot_con_turnos(vec![], Some(7));
    g.apply_snapshot(&snap);
    g.queue_completed_turn();
    let payload = g.take_pending_for_send().unwrap();
    let numero = payload.numero_turno;
    g.restore_pending(payload);
    assert_eq!(g.take_pending_for_send().unwrap().numero_turno, numero);
}

/// Input is dead while it is not this client's turn.
#[test]
fn input_is_gated_on_my_turn() {
    let mut g = LocalGame::new(info());
    let snap = snapshot_con_turnos(vec![], Some(8)); // opponent's turn
    assert!(g.apply_snapshot(&snap));
    assert!(!g.my_turn);

    g.aim_with_keyboard(false, true, false, false);
    g.charge_shot_power(true);
    assert_eq!((g.turn_state.aim_x, g.turn_state.aim_y, g.turn_state.power), (0, 0, 0));
    assert!(g.fire_selected_disk(true).is_none());
}

/// Aim is clamped to its range on each axis.
#[test]
fn aim_is_clamped() {
    let mut g = LocalGame::new(info());
    let snap = snapshot_con_turnos(vec![], Some(7));
    g.apply_snapshot(&snap);
    for _ in 0..20 {
        g.aim_with_keyboard(true, false, false, true);
    }
    assert_eq!((g.turn_state.aim_x, g.turn_state.aim_y), (-1000, -1000));
}

/// The selection cycles through this client's own pieces only.
#[test]
fn selection_cycles_through_own_pieces() {
    let mut g = LocalGame::new(info());
    let piezas = vec![
        PiezaPos { id_usuario_real: 8, x: 0, y: 0 },
        PiezaPos { id_usuario_real: 7, x: 1, y: 0 },
        PiezaPos { id_usuario_real: 7, x: 2, y: 0 },
        PiezaPos { id_usuario_real: 8, x: 3, y: 0 },
        PiezaPos { id_usuario_real: 7, x: 4, y: 0 },
    ];
    let snap = snapshot_con_turnos(vec![turno(1, 8, piezas)], Some(7));
    g.apply_snapshot(&snap);

    g.auto_select_first_disk();
    assert_eq!(g.turn_state.selected_index, Some(1));
    g.cycle_disk_selection(true);
    assert_eq!(g.turn_state.selected_index, Some(2));
    g.cycle_disk_selection(true);
    assert_eq!(g.turn_state.selected_index, Some(4));
    g.cycle_disk_selection(true);
    assert_eq!(g.turn_state.selected_index, Some(1), "wraps around");
    g.cycle_disk_selection(false);
    assert_eq!(g.turn_state.selected_index, Some(1), "no key, no change");
}

/// One-shot effects are consumed by the next shot: extra speed scales the
/// velocity, the extra turn flags the next submission, extra bounce asks
/// for doubled restitution.
#[test]
fn pending_effects_apply_once() {
    let mut g = LocalGame::new(info());
    let snap = snapshot_con_turnos(vec![], Some(7));
    g.apply_snapshot(&snap);
    g.auto_select_first_disk();
    g.aim_with_keyboard(false, true, false, false);
    for _ in 0..25 {
        g.charge_shot_power(true); // power 500
    }
    assert_eq!(g.turn_state.power, 500);

    g.pending_effect = Some(PowerUpKind::SpeedBoost);
    let cmd = g.fire_selected_disk(true).unwrap();
    // speed = 500 * 800 * 3 / 2 = 600000; vel_x = 100 * speed
    assert_eq!(cmd.vel_x, 100 * 600_000);
    assert!(g.pending_effect.is_none(), "the effect is consumed");

    // Extra turn: the flag survives into the queued payload.
    let mut g2 = LocalGame::new(info());
    g2.apply_snapshot(&snap);
    g2.auto_select_first_disk();
    g2.charge_shot_power(true);
    g2.pending_effect = Some(PowerUpKind::DoubleTurn);
    let cmd2 = g2.fire_selected_disk(true).unwrap();
    assert!(!cmd2.double_restitution);
    assert!(g2.turn_state.skip_turn_switch);
    g2.check_turn_end(true);
    g2.queue_completed_turn();
    assert!(g2.take_pending_for_send().unwrap().extiende);

    // Extra bounce: the command asks the physics runtime for it.
    let mut g3 = LocalGame::new(info());
    g3.apply_snapshot(&snap);
    g3.auto_select_first_disk();
    g3.charge_shot_power(true);
    g3.pending_effect = Some(PowerUpKind::DoubleBounce);
    assert!(g3.fire_selected_disk(true).unwrap().double_restitution);
}

/// Goals update the local score, reset the shot, swap the local turn view
/// and end the game at three.
#[test]
fn goals_and_game_over() {
    let mut g = LocalGame::new(info());
    let snap = snapshot_con_turnos(vec![], Some(7));
    g.apply_snapshot(&snap);
    g.marcador = Scores { left: 2, right: 2 };

    g.on_goal(false);
    assert_eq!(g.marcador, Scores { left: 2, right: 3 });
    assert_eq!(g.estado_app, AppState::GameOver);
    assert_eq!(g.next_mode_after_banner(), AppState::GameOver);

    let mut g2 = LocalGame::new(info());
    g2.apply_snapshot(&snap); // the snapshot carries score (1, 2)
    g2.on_goal(true);
    assert_eq!(g2.marcador, Scores { left: 2, right: 2 });
    assert_eq!(g2.estado_app, AppState::GoalScored);
    assert_eq!(g2.next_mode_after_banner(), AppState::FormationChange);
    assert_eq!(g2.turn_state.current_turn_id, 8, "the other side moves next");
}

/// The polling fallback fires exactly once per new turn number.
#[test]
fn poll_notifies_once_per_turn() {
    let mut poll = PollState::default();
    assert!(poll.note_latest_turn(1));
    assert!(!poll.note_latest_turn(1));
    assert!(poll.note_latest_turn(3));
    assert!(!poll.note_latest_turn(2));
    assert_eq!(poll.last_turn_number, 3);
}

/// A change signal prompts a snapshot re-fetch; a finished turn also
/// moves the local view into the formation-change interlude.
#[test]
fn signals_prompt_refetch() {
    let mut g = LocalGame::new(info());
    assert!(g.on_ws_signal(WsSignal::Start));
    assert_eq!(g.estado_app, AppState::FormationSelection);
    assert!(g.on_ws_signal(WsSignal::TurnoFinalizado));
    assert_eq!(g.estado_app, AppState::FormationChange);
    assert!(!g.on_ws_signal(WsSignal::Otro));
}

/// Text frames are classified into the two re-fetch signals and noise.
#[test]
fn ws_messages_are_classified() {
    assert_eq!(rustball::client::classify_ws_message(&"start".to_string()), WsSignal::Start);
    assert_eq!(
        rustball::client::classify_ws_message(&"turno_finalizado".to_string()),
        WsSignal::TurnoFinalizado
    );
    assert_eq!(
        rustball::client::classify_ws_message(&"{\"uid_origen\":7}".to_string()),
        WsSignal::Otro
    );
}

/// Formation names round-trip, unknown names fall back to the default
/// layout, and the layouts place the documented positions.
#[test]
fn formation_names_and_positions() {
    for f in [
        Formation::Rombo1211,
        Formation::Muro221,
        Formation::Ofensiva113,
        Formation::Diamante2111,
    ] {
        assert_eq!(parse_formation(&f.as_str().to_string()), f);
    }
    assert_eq!(parse_formation(&"4-4-2".to_string()), Formation::Rombo1211);

    let derecha = get_formation_positions(Formation::Ofensiva113, false);
    assert_eq!(derecha[0], (300_000, 150_000));
    assert_eq!(derecha[4], (400_000, 0));
    let izquierda = get_formation_positions(Formation::Ofensiva113, true);
    assert_eq!(izquierda[0], (-300_000, 150_000));
    assert_eq!(izquierda[4], (-400_000, 0));
}

/// The goal notification credits the scoring side's real identity.
#[test]
fn goal_payload_names_the_scorer() {
    let i = info();
    let g1 = rustball::client::build_goal_payload(&i, true);
    assert_eq!((g1.id_partida, g1.id_goleador), (1, 7));
    let g2 = rustball::client::build_goal_payload(&i, false);
    assert_eq!((g2.id_partida, g2.id_goleador), (1, 8));
}

/// Session context: side checks and the validated constructor.
#[test]
fn backend_info_basics() {
    let i = info();
    assert!(i.i_am_left());
    assert!(!i.i_am_right());
    assert!(BackendInfo::from_parts(1, 7, 7, 8).is_some());
    assert!(BackendInfo::from_parts(0, 7, 7, 8).is_none());
    assert!(BackendInfo::from_parts(1, 7, 0, 8).is_none());

    let d = TurnState::default();
    assert_eq!(d.current_turn_id, 0);
    assert!(!d.in_motion);
    assert!(d.selected_index.is_none());
}
