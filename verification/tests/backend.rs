use rustball::directory::{ApiError, FormacionPayload, GolPayload, JugadaPayload, MatchDirectory,
    PartidaPayload};
use rustball::match_state::{MatchStatus, PiezaEntrada};
use rustball::registry::{BusEvent, ChannelRegistry, SessionAction};
use rustball::transactions::FormationOutcome;
use rustball::users::{Estadistica, LoginPayload, RegistroPayload, UserDirectory};

fn nueva_partida(dir: &mut MatchDirectory, a: i32, b: i32) -> i32 {
    let p = dir
        .post_partida(&PartidaPayload { id_usuario_1: a, id_usuario_2: b }, Some(1000))
        .unwrap();
    p.id_partida
}

fn formacion(dir: &mut MatchDirectory, pid: i32, uid: i32, layout: &str) -> FormationOutcome {
    dir.post_formacion(FormacionPayload {
        id_partida: pid,
        id_usuario: uid,
        formacion: layout.to_string(),
        turno_inicio: 0,
    })
    .unwrap()
}

fn piezas_validas() -> Vec<PiezaEntrada> {
    vec![
        PiezaEntrada { claimed_owner: 99, x: Some(10_000), y: Some(20_000) },
        PiezaEntrada { claimed_owner: 98, x: Some(-5_000), y: Some(0) },
    ]
}

fn jugada(pid: i32, uid: i32, piezas: Vec<PiezaEntrada>, extiende: bool) -> JugadaPayload {
    JugadaPayload {
        id_partida: pid,
        numero_turno: 0,
        id_usuario: uid,
        jugada: Some(piezas),
        extiende,
    }
}

/// Both formations in: the match starts, one of the two participants drew
/// start order 1 and holds the opening turn, and the snapshot reports it.
#[test]
fn match_starts_once_both_formations_are_in() {
    let mut dir = MatchDirectory::new();
    let pid = nueva_partida(&mut dir, 7, 8);

    let first = formacion(&mut dir, pid, 7, "1-2-1-1");
    assert_eq!(first, FormationOutcome::RecordedWaiting);

    let second = formacion(&mut dir, pid, 8, "2-2-1");
    let primero = match second {
        FormationOutcome::Started(p) => p,
        otro => panic!("expected the match to start, got {:?}", otro),
    };
    assert!(primero == 7 || primero == 8);

    let snap = dir.get_snapshot(pid, "Ana".to_string(), "Beto".to_string()).unwrap();
    assert_eq!(snap.estado, MatchStatus::Playing);
    assert_eq!(snap.proximo_turno, Some(primero));
    assert_eq!(snap.turnos.len(), 0);
    assert_eq!(snap.formaciones.len(), 2);
    assert_eq!(snap.nombre_jugador_1, "Ana");
    assert_eq!(snap.nombre_jugador_2, "Beto");
}

/// Replaying a formation submission after the start changes neither the
/// start order nor the turn holder.
#[test]
fn formation_replay_does_not_redraw() {
    let mut dir = MatchDirectory::new();
    let pid = nueva_partida(&mut dir, 7, 8);
    formacion(&mut dir, pid, 7, "1-2-1-1");
    let primero = match formacion(&mut dir, pid, 8, "2-2-1") {
        FormationOutcome::Started(p) => p,
        otro => panic!("expected start, got {:?}", otro),
    };
    let ordenes: Vec<(i32, u32)> = dir.partidas[0]
        .formaciones
        .iter()
        .map(|f| (f.id_usuario, f.turno_inicio))
        .collect();

    // Replay with a different layout, several times.
    for _ in 0..5 {
        let replay = formacion(&mut dir, pid, 7, "1-1-3");
        assert_eq!(replay, FormationOutcome::AlreadyStarted);
    }
    let ordenes_despues: Vec<(i32, u32)> = dir.partidas[0]
        .formaciones
        .iter()
        .map(|f| (f.id_usuario, f.turno_inicio))
        .collect();
    assert_eq!(ordenes, ordenes_despues);
    assert_eq!(dir.partidas[0].turno_actual, Some(primero));
    // The layout itself was overwritten.
    let fila = dir.partidas[0].formaciones.iter().find(|f| f.id_usuario == 7).unwrap();
    assert_eq!(fila.formacion, "1-1-3");
}

/// A submission from the participant who is not the turn holder is
/// rejected and leaves no ledger row.
#[test]
fn out_of_turn_submission_is_rejected() {
    let mut dir = MatchDirectory::new();
    let pid = nueva_partida(&mut dir, 7, 8);
    formacion(&mut dir, pid, 7, "1-2-1-1");
    let primero = match formacion(&mut dir, pid, 8, "2-2-1") {
        FormationOutcome::Started(p) => p,
        otro => panic!("expected start, got {:?}", otro),
    };
    let intruso = if primero == 7 { 8 } else { 7 };

    let r = dir.post_jugada(&jugada(pid, intruso, piezas_validas(), false), 5000);
    assert_eq!(r, Err(ApiError::OutOfTurn));
    assert_eq!(dir.partidas[0].turnos.len(), 0);
    assert_eq!(dir.partidas[0].turno_actual, Some(primero));
}

/// A successful first submission creates exactly one ledger row with
/// sequence number 1 and hands the turn to the other participant.
#[test]
fn first_turn_gets_sequence_one_and_rotates_holder() {
    let mut dir = MatchDirectory::new();
    let pid = nueva_partida(&mut dir, 7, 8);
    formacion(&mut dir, pid, 7, "1-2-1-1");
    let primero = match formacion(&mut dir, pid, 8, "2-2-1") {
        FormationOutcome::Started(p) => p,
        otro => panic!("expected start, got {:?}", otro),
    };
    let otro = if primero == 7 { 8 } else { 7 };

    let r = dir.post_jugada(&jugada(pid, primero, piezas_validas(), false), 5000);
    assert_eq!(r, Ok(1));
    assert_eq!(dir.partidas[0].turnos.len(), 1);
    assert_eq!(dir.partidas[0].turnos[0].numero_turno, 1);
    assert_eq!(dir.partidas[0].turnos[0].id_usuario, primero);
    assert_eq!(dir.partidas[0].turnos[0].fecha_turno, 5000);
    assert_eq!(dir.partidas[0].turno_actual, Some(otro));
}

/// Turn numbers grow 1, 2, 3, ... without gaps as play alternates.
#[test]
fn turn_numbers_are_gap_free() {
    let mut dir = MatchDirectory::new();
    let pid = nueva_partida(&mut dir, 7, 8);
    formacion(&mut dir, pid, 7, "1-2-1-1");
    let mut holder = match formacion(&mut dir, pid, 8, "2-2-1") {
        FormationOutcome::Started(p) => p,
        otro => panic!("expected start, got {:?}", otro),
    };
    for esperado in 1..=6u64 {
        let r = dir.post_jugada(&jugada(pid, holder, piezas_validas(), false), 5000);
        assert_eq!(r, Ok(esperado));
        holder = if holder == 7 { 8 } else { 7 };
    }
    let numeros: Vec<u64> =
        dir.partidas[0].turnos.iter().map(|t| t.numero_turno).collect();
    assert_eq!(numeros, vec![1, 2, 3, 4, 5, 6]);
}

/// A submission tagged with the turn-extension flag keeps the holder.
#[test]
fn turn_extension_keeps_holder() {
    let mut dir = MatchDirectory::new();
    let pid = nueva_partida(&mut dir, 7, 8);
    formacion(&mut dir, pid, 7, "1-2-1-1");
    let primero = match formacion(&mut dir, pid, 8, "2-2-1") {
        FormationOutcome::Started(p) => p,
        otro => panic!("expected start, got {:?}", otro),
    };
    let r = dir.post_jugada(&jugada(pid, primero, piezas_validas(), true), 5000);
    assert_eq!(r, Ok(1));
    assert_eq!(dir.partidas[0].turno_actual, Some(primero));
}

/// Malformed payloads — a missing piece list, or a piece without a
/// coordinate — are rejected before any write.
#[test]
fn malformed_payloads_are_rejected() {
    let mut dir = MatchDirectory::new();
    let pid = nueva_partida(&mut dir, 7, 8);
    formacion(&mut dir, pid, 7, "1-2-1-1");
    let primero = match formacion(&mut dir, pid, 8, "2-2-1") {
        FormationOutcome::Started(p) => p,
        otro => panic!("expected start, got {:?}", otro),
    };

    let sin_lista = JugadaPayload {
        id_partida: pid,
        numero_turno: 0,
        id_usuario: primero,
        jugada: None,
        extiende: false,
    };
    assert_eq!(dir.post_jugada(&sin_lista, 5000), Err(ApiError::MalformedPayload));

    let coja = vec![PiezaEntrada { claimed_owner: 1, x: Some(3), y: None }];
    assert_eq!(
        dir.post_jugada(&jugada(pid, primero, coja, false), 5000),
        Err(ApiError::MalformedPayload)
    );
    assert_eq!(dir.partidas[0].turnos.len(), 0);
    assert_eq!(dir.partidas[0].turno_actual, Some(primero));
}

/// The pieces of a recorded turn are re-tagged with the submitter's real
/// identity: owner tags claimed by the client are ignored, and every later
/// snapshot carries the submitted positions under the submitter's tag.
#[test]
fn snapshot_tags_pieces_with_submitter() {
    let mut dir = MatchDirectory::new();
    let pid = nueva_partida(&mut dir, 7, 8);
    formacion(&mut dir, pid, 7, "1-2-1-1");
    let primero = match formacion(&mut dir, pid, 8, "2-2-1") {
        FormationOutcome::Started(p) => p,
        otro => panic!("expected start, got {:?}", otro),
    };
    // The client lies about ownership; positions are what count.
    let mentirosas = vec![
        PiezaEntrada { claimed_owner: 424242, x: Some(111), y: Some(-222) },
        PiezaEntrada { claimed_owner: -1, x: Some(333), y: Some(444) },
    ];
    dir.post_jugada(&jugada(pid, primero, mentirosas, false), 5000).unwrap();

    let snap = dir.get_snapshot(pid, "Ana".to_string(), "Beto".to_string()).unwrap();
    assert_eq!(snap.turnos.len(), 1);
    let piezas = &snap.turnos[0].jugada;
    assert_eq!(piezas.len(), 2);
    assert_eq!(piezas[0].id_usuario_real, primero);
    assert_eq!(piezas[1].id_usuario_real, primero);
    assert_eq!((piezas[0].x, piezas[0].y), (111, -222));
    assert_eq!((piezas[1].x, piezas[1].y), (333, 444));
}

/// With fewer than two formations the snapshot is formation-only: empty
/// turn list, no turn holder, zero score.
#[test]
fn partial_snapshot_before_both_formations() {
    let mut dir = MatchDirectory::new();
    let pid = nueva_partida(&mut dir, 7, 8);
    formacion(&mut dir, pid, 7, "1-2-1-1");
    let snap = dir.get_snapshot(pid, "Ana".to_string(), "Beto".to_string()).unwrap();
    assert_eq!(snap.estado, MatchStatus::Forming);
    assert_eq!(snap.marcador, (0, 0));
    assert_eq!(snap.turnos.len(), 0);
    assert_eq!(snap.proximo_turno, None);
    assert_eq!(snap.formaciones.len(), 1);
}

/// A formation from someone who is not in the match is rejected.
#[test]
fn formation_from_stranger_is_rejected() {
    let mut dir = MatchDirectory::new();
    let pid = nueva_partida(&mut dir, 7, 8);
    let r = dir.post_formacion(FormacionPayload {
        id_partida: pid,
        id_usuario: 99,
        formacion: "1-2-1-1".to_string(),
        turno_inicio: 0,
    });
    assert_eq!(r, Err(ApiError::NotParticipant));
    assert_eq!(dir.partidas[0].formaciones.len(), 0);
}

/// Requests against an unknown match fail with the dedicated error.
#[test]
fn unknown_match_is_reported() {
    let mut dir = MatchDirectory::new();
    assert_eq!(
        dir.post_jugada(&jugada(77, 1, piezas_validas(), false), 0),
        Err(ApiError::NoSuchMatch)
    );
    assert_eq!(
        dir.post_gol(&GolPayload { id_partida: 77, id_goleador: 1 }),
        Err(ApiError::NoSuchMatch)
    );
    assert!(dir.get_snapshot(77, "a".to_string(), "b".to_string()).is_none());
}

/// Creating a match is idempotent for a pair of participants, in either
/// order, and a pair made of one participant twice is refused.
#[test]
fn create_match_finds_existing_pair() {
    let mut dir = MatchDirectory::new();
    let pid = nueva_partida(&mut dir, 7, 8);
    let otra = dir
        .post_partida(&PartidaPayload { id_usuario_1: 8, id_usuario_2: 7 }, Some(2000))
        .unwrap();
    assert_eq!(otra.id_partida, pid);
    assert_eq!(dir.partidas.len(), 1);

    let err = dir.post_partida(&PartidaPayload { id_usuario_1: 5, id_usuario_2: 5 }, None);
    assert_eq!(err, Err(ApiError::SamePlayer));
}

/// Goals are booked on the right side and the updated score is returned.
#[test]
fn goals_update_the_score() {
    let mut dir = MatchDirectory::new();
    let pid = nueva_partida(&mut dir, 7, 8);
    assert_eq!(dir.post_gol(&GolPayload { id_partida: pid, id_goleador: 7 }), Ok((1, 0)));
    assert_eq!(dir.post_gol(&GolPayload { id_partida: pid, id_goleador: 8 }), Ok((1, 1)));
    assert_eq!(dir.post_gol(&GolPayload { id_partida: pid, id_goleador: 8 }), Ok((1, 2)));
}

/// Match listings: all of a participant's matches, and the ones still
/// waiting for their formation.
#[test]
fn match_listings() {
    let mut dir = MatchDirectory::new();
    let pid1 = nueva_partida(&mut dir, 7, 8);
    let pid2 = nueva_partida(&mut dir, 7, 9);
    nueva_partida(&mut dir, 8, 9);

    let mias: Vec<i32> = dir.get_mis_partidas(7).iter().map(|p| p.id_partida).collect();
    assert_eq!(mias, vec![pid1, pid2]);

    formacion(&mut dir, pid1, 7, "1-2-1-1");
    let pendientes: Vec<i32> =
        dir.get_partidas_pendientes(7).iter().map(|p| p.id_partida).collect();
    assert_eq!(pendientes, vec![pid2]);

    let detalle = dir.get_partida_detalle(pid2).unwrap();
    assert_eq!(detalle.id_usuario_1, 7);
    assert_eq!(detalle.id_usuario_2, 9);
    assert_eq!(detalle.estado, MatchStatus::Forming);
    assert!(dir.get_partida_detalle(1234).is_none());
}

/// The turn history endpoint returns the ledger rows in order.
#[test]
fn turn_history_is_returned_in_order() {
    let mut dir = MatchDirectory::new();
    let pid = nueva_partida(&mut dir, 7, 8);
    formacion(&mut dir, pid, 7, "1-2-1-1");
    let mut holder = match formacion(&mut dir, pid, 8, "2-2-1") {
        FormationOutcome::Started(p) => p,
        otro => panic!("expected start, got {:?}", otro),
    };
    for _ in 0..3 {
        dir.post_jugada(&jugada(pid, holder, piezas_validas(), false), 9).unwrap();
        holder = if holder == 7 { 8 } else { 7 };
    }
    let historia = dir.get_estado(pid).unwrap();
    assert_eq!(historia.len(), 3);
    assert_eq!(historia[0].numero_turno, 1);
    assert_eq!(historia[2].numero_turno, 3);
    assert!(dir.get_estado(999).is_none());
}

/// A live session is admitted only once its identity has a formation on
/// record for the match.
#[test]
fn session_admission_requires_formation() {
    let mut dir = MatchDirectory::new();
    let pid = nueva_partida(&mut dir, 7, 8);
    assert!(!dir.admit_session(pid, 7));
    formacion(&mut dir, pid, 7, "1-2-1-1");
    assert!(dir.admit_session(pid, 7));
    assert!(!dir.admit_session(pid, 8));
    assert!(!dir.admit_session(999, 7));
}

/// A lagged session is not replayed the missed messages: it receives one
/// fresh snapshot equal to the latest state the service cached.
#[test]
fn lagged_session_gets_latest_cached_snapshot() {
    let mut reg = ChannelRegistry::new();
    reg.get_or_create_channel(1);
    reg.subscribe(1);
    // Many broadcasts went by; only the most recent cache matters.
    for n in 0..50 {
        reg.save_last_snapshot(1, format!("estado numero {}", n));
    }
    match reg.session_step(1, 7, BusEvent::Lagged) {
        SessionAction::PushSnapshot(s) => assert_eq!(s, "estado numero 49"),
        otro => panic!("expected the cached snapshot, got {:?}", otro),
    }
}

/// Lag with nothing cached stays silent, and closing the channel ends the
/// session.
#[test]
fn lag_without_cache_and_channel_close() {
    let reg = ChannelRegistry::new();
    assert!(matches!(reg.session_step(3, 7, BusEvent::Lagged), SessionAction::Ignore));
    assert!(matches!(reg.session_step(3, 7, BusEvent::Closed), SessionAction::Stop));
}

/// A session's own messages are suppressed; everyone else's, and untagged
/// signals, are forwarded.
#[test]
fn self_echo_is_suppressed() {
    let reg = ChannelRegistry::new();
    let eco = BusEvent::Message { uid_origen: Some(7), texto: "hola".to_string() };
    assert!(matches!(reg.session_step(1, 7, eco), SessionAction::Ignore));

    let ajeno = BusEvent::Message { uid_origen: Some(8), texto: "hola".to_string() };
    match reg.session_step(1, 7, ajeno) {
        SessionAction::Forward(t) => assert_eq!(t, "hola"),
        otro => panic!("expected a forward, got {:?}", otro),
    }

    let senal_cruda = BusEvent::Message { uid_origen: None, texto: "start".to_string() };
    match reg.session_step(1, 7, senal_cruda) {
        SessionAction::Forward(t) => assert_eq!(t, "start"),
        otro => panic!("expected a forward, got {:?}", otro),
    }
}

/// Channels are reference-counted and removed only once empty.
#[test]
fn channel_lifecycle() {
    let mut reg = ChannelRegistry::new();
    reg.subscribe(5);
    reg.subscribe(5);
    reg.remove_channel_if_empty(5);
    assert!(reg.get_last_snapshot(5).is_none());
    reg.save_last_snapshot(5, "s".to_string());
    assert_eq!(reg.get_last_snapshot(5), Some("s".to_string()));
    reg.unsubscribe(5);
    reg.remove_channel_if_empty(5); // still one subscriber: stays
    reg.unsubscribe(5);
    reg.remove_channel_if_empty(5); // now empty: removed
    // The cache is independent of the channel's lifetime.
    assert_eq!(reg.get_last_snapshot(5), Some("s".to_string()));
}

/// Registration hands out fresh identifiers; login checks credentials.
#[test]
fn register_and_login() {
    let mut usuarios = UserDirectory::new();
    let id = usuarios.post_registro(RegistroPayload {
        nombre_usuario: "ana".to_string(),
        correo: "ana@example.com".to_string(),
        contrasena: "secreta".to_string(),
    });
    assert_eq!(id, 1);
    let id2 = usuarios.post_registro(RegistroPayload {
        nombre_usuario: "beto".to_string(),
        correo: "beto@example.com".to_string(),
        contrasena: "otra".to_string(),
    });
    assert_eq!(id2, 2);

    let bien = usuarios.post_login(&LoginPayload {
        nombre_usuario: "ana".to_string(),
        contrasena: "secreta".to_string(),
    });
    assert_eq!(bien.map(|u| u.id_usuario), Some(1));

    let mal = usuarios.post_login(&LoginPayload {
        nombre_usuario: "ana".to_string(),
        contrasena: "equivocada".to_string(),
    });
    assert!(mal.is_none());

    assert_eq!(usuarios.name_of(2).as_deref(), Some("beto"));
    assert!(usuarios.name_of(3).is_none());
    assert_eq!(usuarios.get_usuarios().len(), 2);
}

/// Statistics lookup distinguishes "no row" from a row of values.
#[test]
fn statistics_lookup() {
    let filas = vec![Estadistica {
        id_usuario: 4,
        partidas_jugadas: Some(10),
        partidas_ganadas: Some(6),
        goles_a_favor: Some(21),
        goles_en_contra: Some(13),
    }];
    let e = rustball::users::get_estadisticas(&filas, 4).unwrap();
    assert_eq!(e.partidas_ganadas, Some(6));
    assert!(rustball::users::get_estadisticas(&filas, 5).is_none());
}
