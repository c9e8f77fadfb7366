//! The client half of the protocol: a local mirror of one match that is
//! reconciled against incoming snapshots, the turn state machine that gates
//! aiming, charging and firing on the locally recorded "my turn" flag, and
//! the pending-turn queue that holds the one outgoing payload until it is
//! transmitted.
//!
//! Snapshot application is idempotent and order-insensitive: a snapshot
//! whose watermark is not strictly newer than the last applied one is
//! discarded without touching anything, and an applied snapshot rebuilds
//! the local state from the snapshot alone, so delivering duplicates or
//! reordering deliveries can only ever leave the state of the newest
//! snapshot.

use vstd::prelude::*;
use vstd::string::StringExecFns;

use crate::formation::{get_formation_positions, parse_formation, spec_formation_positions,
    spec_parse_formation};
use crate::match_state::{FormacionData, MatchStatus, PiezaEntrada, PiezaPos};
use crate::snapshot::Snapshot;

verus! {

/// Which match this client is in and who it is, as handed over at startup.
#[derive(Clone, Debug)]
pub struct BackendInfo {
    pub partida_id: i32,
    pub id_left: i32,
    pub id_right: i32,
    pub my_uid: i32,
    pub snapshot_actual: Option<BoardSnapshot>,
}

/// A bare board: the piece list of one moment of play.
#[derive(Clone, Debug)]
pub struct BoardSnapshot {
    pub piezas: Vec<PiezaPos>,
}

impl BackendInfo {
    /// Session context without an initial board.
    pub fn new(partida_id: i32, my_uid: i32, id_left: i32, id_right: i32) -> (r: Self)
        ensures
            r.partida_id == partida_id,
            r.my_uid == my_uid,
            r.id_left == id_left,
            r.id_right == id_right,
            r.snapshot_actual is None,
    {
        BackendInfo { partida_id, my_uid, id_left, id_right, snapshot_actual: None }
    }

    /// Session context with an optional initial board.
    pub fn new_with_snapshot(
        partida_id: i32,
        my_uid: i32,
        id_left: i32,
        id_right: i32,
        snapshot: Option<BoardSnapshot>,
    ) -> (r: Self)
        ensures
            r.partida_id == partida_id,
            r.my_uid == my_uid,
            r.id_left == id_left,
            r.id_right == id_right,
            r.snapshot_actual == snapshot,
    {
        BackendInfo { partida_id, my_uid, id_left, id_right, snapshot_actual: snapshot }
    }

    /// This client plays the left side.
    pub fn i_am_left(&self) -> (r: bool)
        ensures
            r == (self.my_uid == self.id_left),
    {
        self.my_uid == self.id_left
    }

    /// This client plays the right side.
    pub fn i_am_right(&self) -> (r: bool)
        ensures
            r == (self.my_uid == self.id_right),
    {
        self.my_uid == self.id_right
    }

    /// Validated session context: every identifier must be present (nonzero)
    /// before a session may run.
    pub fn from_parts(partida_id: i32, my_uid: i32, id_left: i32, id_right: i32) -> (r: Option<
        Self,
    >)
        ensures
            (partida_id != 0 && my_uid != 0 && id_left != 0 && id_right != 0) <==> r is Some,
            r matches Some(info) ==> info.partida_id == partida_id && info.my_uid == my_uid
                && info.id_left == id_left && info.id_right == id_right,
    {
        if partida_id == 0 || my_uid == 0 || id_left == 0 || id_right == 0 {
            None
        } else {
            Some(BackendInfo::new(partida_id, my_uid, id_left, id_right))
        }
    }
}

/// The client's view of whose turn it is and of the shot being prepared.
#[derive(Clone, Copy, Debug)]
pub struct TurnState {
    /// The participant the last snapshot named as turn holder (0 if none).
    pub current_turn_id: i32,
    /// A shot is in flight; input has no effect until the pieces stop.
    pub in_motion: bool,
    /// Index into the local board of the selected piece.
    pub selected_index: Option<usize>,
    /// Aim vector, each axis in milli-units within [-1000, 1000].
    pub aim_x: i32,
    pub aim_y: i32,
    /// Accumulated charge in milli-units, at most 1000.
    pub power: u32,
    /// Set by the extra-turn effect: the next submission keeps the turn.
    pub skip_turn_switch: bool,
}

impl TurnState {
    /// The machine at rest, nothing selected and nothing charged.
    pub open spec fn spec_default() -> TurnState {
        TurnState {
            current_turn_id: 0,
            in_motion: false,
            selected_index: None,
            aim_x: 0,
            aim_y: 0,
            power: 0,
            skip_turn_switch: false,
        }
    }
}

impl Default for TurnState {
    fn default() -> (r: Self)
        ensures
            r == TurnState::spec_default(),
    {
        TurnState {
            current_turn_id: 0,
            in_motion: false,
            selected_index: None,
            aim_x: 0,
            aim_y: 0,
            power: 0,
            skip_turn_switch: false,
        }
    }
}

/// The score pair as the client displays it.
#[derive(Clone, Copy, PartialEq, Eq, Structural, Debug)]
pub struct Scores {
    pub left: u32,
    pub right: u32,
}

/// The client's top-level mode.
#[derive(Clone, Copy, PartialEq, Eq, Structural, Debug)]
pub enum AppState {
    FormationSelection,
    InGame,
    GoalScored,
    FormationChange,
    GameOver,
}

/// A one-shot effect waiting to be applied to the next fired shot.
#[derive(Clone, Copy, PartialEq, Eq, Structural, Debug)]
pub enum PowerUpKind {
    SpeedBoost,
    DoubleBounce,
    DoubleTurn,
}

/// The outgoing turn payload, built once the local turn completes.
#[derive(Clone, Debug)]
pub struct TurnPayload {
    pub id_partida: i32,
    pub numero_turno: u64,
    pub id_usuario: i32,
    pub jugada: Vec<PiezaEntrada>,
    pub extiende: bool,
}

/// What firing a shot asks the physics runtime to do: set this piece's
/// velocity (milli-units) and optionally double its restitution.
#[derive(Clone, Copy, PartialEq, Eq, Debug)]
pub struct FireCommand {
    pub piece_index: usize,
    pub vel_x: i64,
    pub vel_y: i64,
    pub double_restitution: bool,
}

/// Ghost mirror of the outgoing payload.
pub ghost struct PayloadModel {
    pub id_partida: i32,
    pub numero_turno: u64,
    pub id_usuario: i32,
    pub jugada: Seq<PiezaEntrada>,
    pub extiende: bool,
}

/// Ghost mirror of the payload slot.
pub open spec fn payload_model(p: TurnPayload) -> PayloadModel {
    PayloadModel {
        id_partida: p.id_partida,
        numero_turno: p.numero_turno,
        id_usuario: p.id_usuario,
        jugada: p.jugada@,
        extiende: p.extiende,
    }
}

/// Ghost mirror of the whole client state, used to state that snapshot
/// application is a pure function of the snapshot.
pub ghost struct GameModel {
    pub partida_id: i32,
    pub id_left: i32,
    pub id_right: i32,
    pub my_uid: i32,
    pub estado_app: AppState,
    pub marcador: Scores,
    pub tablero: Seq<PiezaPos>,
    pub my_turn: bool,
    pub ultimo_turno_aplicado: Option<u64>,
    pub proximo_numero_turno: u64,
    pub turn: TurnState,
    pub pending: Option<PayloadModel>,
    pub pending_effect: Option<PowerUpKind>,
}

/// The client-side session state for one match.
#[derive(Debug)]
pub struct LocalGame {
    pub info: BackendInfo,
    pub estado_app: AppState,
    pub marcador: Scores,
    pub tablero: Vec<PiezaPos>,
    pub my_turn: bool,
    pub ultimo_turno_aplicado: Option<u64>,
    pub proximo_numero_turno: u64,
    pub turn_state: TurnState,
    pub pending: Option<TurnPayload>,
    pub pending_effect: Option<PowerUpKind>,
}

/// Ghost mirror of a client state.
pub open spec fn game_model(g: LocalGame) -> GameModel {
    GameModel {
        partida_id: g.info.partida_id,
        id_left: g.info.id_left,
        id_right: g.info.id_right,
        my_uid: g.info.my_uid,
        estado_app: g.estado_app,
        marcador: g.marcador,
        tablero: g.tablero@,
        my_turn: g.my_turn,
        ultimo_turno_aplicado: g.ultimo_turno_aplicado,
        proximo_numero_turno: g.proximo_numero_turno,
        turn: g.turn_state,
        pending: match g.pending {
            Some(p) => Some(payload_model(p)),
            None => None,
        },
        pending_effect: g.pending_effect,
    }
}

/// A snapshot's watermark: how many completed turns it carries.
pub open spec fn snap_watermark(snap: Snapshot) -> int {
    snap.turnos@.len() as int
}

/// Whether the client accepts this snapshot: play must have started and the
/// watermark must be strictly newer than the last applied one. Everything
/// else is a duplicate or stale delivery and is dropped silently.
pub open spec fn snapshot_offered(g: GameModel, snap: Snapshot) -> bool {
    &&& snap.estado == MatchStatus::Playing
    &&& match g.ultimo_turno_aplicado {
        None => true,
        Some(w) => snap_watermark(snap) > w,
    }
}

/// The board a formation row places for its participant.
pub open spec fn row_board(f: FormacionData, id_left: i32) -> Seq<PiezaPos> {
    spec_formation_positions(spec_parse_formation(f.formacion@), f.id_usuario == id_left)
        .map_values(
        |p: (i64, i64)| PiezaPos { id_usuario_real: f.id_usuario, x: p.0, y: p.1 },
    )
}

/// The starting board of a set of formation rows, in row order.
pub open spec fn formation_board(rows: Seq<FormacionData>, id_left: i32) -> Seq<PiezaPos>
    decreases rows.len(),
{
    if rows.len() == 0 {
        Seq::empty()
    } else {
        formation_board(rows.drop_last(), id_left) + row_board(rows.last(), id_left)
    }
}

/// The board an applied snapshot leaves behind: the layout of its newest
/// turn, or the starting formations when no turn was played yet.
pub open spec fn rebuild_board(snap: Snapshot, id_left: i32) -> Seq<PiezaPos> {
    if snap.turnos@.len() > 0 {
        snap.turnos@.last().jugada@
    } else {
        formation_board(snap.formaciones@, id_left)
    }
}

/// The turn holder a snapshot names, with 0 standing for none.
pub open spec fn holder_or_zero(snap: Snapshot) -> i32 {
    match snap.proximo_turno {
        Some(u) => u,
        None => 0,
    }
}

/// The client state after applying `snap`: a pure function of the snapshot
/// and of the few local fields a snapshot does not govern (identity, the
/// aim and charge being prepared, and the pending payload).
pub open spec fn apply_model(g: GameModel, snap: Snapshot) -> GameModel {
    GameModel {
        partida_id: g.partida_id,
        id_left: g.id_left,
        id_right: g.id_right,
        my_uid: g.my_uid,
        estado_app: if g.estado_app != AppState::InGame && snap.proximo_turno is Some {
            AppState::InGame
        } else {
            g.estado_app
        },
        marcador: Scores { left: snap.marcador.0, right: snap.marcador.1 },
        tablero: rebuild_board(snap, g.id_left),
        my_turn: snap.proximo_turno == Some(g.my_uid),
        ultimo_turno_aplicado: Some(snap_watermark(snap) as u64),
        proximo_numero_turno: (snap.turnos@.len() + 1) as u64,
        turn: TurnState {
            current_turn_id: holder_or_zero(snap),
            in_motion: false,
            selected_index: None,
            aim_x: g.turn.aim_x,
            aim_y: g.turn.aim_y,
            power: g.turn.power,
            skip_turn_switch: false,
        },
        pending: g.pending,
        pending_effect: None,
    }
}

/// One snapshot delivery: apply it if it is accepted, ignore it otherwise.
pub open spec fn step_model(g: GameModel, snap: Snapshot) -> GameModel {
    if snapshot_offered(g, snap) {
        apply_model(g, snap)
    } else {
        g
    }
}

/// Index of the first piece owned by `uid`, if any.
pub open spec fn first_owned(t: Seq<PiezaPos>, uid: i32) -> Option<int>
    decreases t.len(),
{
    if t.len() == 0 {
        None
    } else if t[0].id_usuario_real == uid {
        Some(0int)
    } else {
        match first_owned(t.drop_first(), uid) {
            Some(i) => Some(i + 1),
            None => None,
        }
    }
}

proof fn lemma_first_owned_at(t: Seq<PiezaPos>, uid: i32, k: int)
    requires
        0 <= k < t.len(),
        t[k].id_usuario_real == uid,
        forall|j: int| 0 <= j < k ==> (#[trigger] t[j]).id_usuario_real != uid,
    ensures
        first_owned(t, uid) == Some(k),
    decreases k,
{
    if k > 0 {
        lemma_first_owned_at(t.drop_first(), uid, k - 1);
    }
}

proof fn lemma_first_owned_none(t: Seq<PiezaPos>, uid: i32)
    requires
        forall|j: int| 0 <= j < t.len() ==> (#[trigger] t[j]).id_usuario_real != uid,
    ensures
        first_owned(t, uid) is None,
    decreases t.len(),
{
    if t.len() > 0 {
        lemma_first_owned_none(t.drop_first(), uid);
    }
}

/// The indices of the pieces `uid` owns, in board order.
pub open spec fn owned_indices(t: Seq<PiezaPos>, uid: i32) -> Seq<int>
    decreases t.len(),
{
    if t.len() == 0 {
        Seq::empty()
    } else {
        let prefix = owned_indices(t.drop_last(), uid);
        if t.last().id_usuario_real == uid {
            prefix.push(t.len() - 1)
        } else {
            prefix
        }
    }
}

/// First position of `v` in `s`, if present.
pub open spec fn pos_of(s: Seq<int>, v: int) -> Option<int>
    decreases s.len(),
{
    if s.len() == 0 {
        None
    } else if s[0] == v {
        Some(0int)
    } else {
        match pos_of(s.drop_first(), v) {
            Some(i) => Some(i + 1),
            None => None,
        }
    }
}

proof fn lemma_pos_of_at(s: Seq<int>, v: int, k: int)
    requires
        0 <= k < s.len(),
        s[k] == v,
        forall|j: int| 0 <= j < k ==> s[j] != v,
    ensures
        pos_of(s, v) == Some(k),
    decreases k,
{
    if k > 0 {
        lemma_pos_of_at(s.drop_first(), v, k - 1);
    }
}

proof fn lemma_pos_of_none(s: Seq<int>, v: int)
    requires
        forall|j: int| 0 <= j < s.len() ==> s[j] != v,
    ensures
        pos_of(s, v) is None,
    decreases s.len(),
{
    if s.len() > 0 {
        lemma_pos_of_none(s.drop_first(), v);
    }
}

/// The piece the selection moves to when it cycles: the owned piece after
/// the current one in board order, wrapping around, or the first owned
/// piece when nothing owned is selected.
pub open spec fn next_selection(t: Seq<PiezaPos>, uid: i32, current: Option<usize>) -> int
    recommends
        owned_indices(t, uid).len() > 0,
{
    let owned = owned_indices(t, uid);
    match current {
        Some(c) => match pos_of(owned, c as int) {
            Some(j) => owned[((j + 1) % (owned.len() as int))],
            None => owned[0],
        },
        None => owned[0],
    }
}

impl LocalGame {
    /// Bounds that every machine step keeps: aim and charge stay in range.
    pub open spec fn wf(self) -> bool {
        &&& self.turn_state.power <= 1000
        &&& -1000 <= self.turn_state.aim_x <= 1000
        &&& -1000 <= self.turn_state.aim_y <= 1000
    }

    /// A fresh session: formation selection mode, empty board, nothing
    /// applied yet, input blocked.
    pub fn new(info: BackendInfo) -> (g: Self)
        ensures
            g.wf(),
            g.info == info,
            g.estado_app == AppState::FormationSelection,
            g.marcador == (Scores { left: 0u32, right: 0u32 }),
            g.tablero@.len() == 0,
            g.my_turn == false,
            g.ultimo_turno_aplicado is None,
            g.proximo_numero_turno == 1,
            g.turn_state == TurnState::spec_default(),
            g.pending is None,
            g.pending_effect is None,
    {
        LocalGame {
            info,
            estado_app: AppState::FormationSelection,
            marcador: Scores { left: 0, right: 0 },
            tablero: Vec::new(),
            my_turn: false,
            ultimo_turno_aplicado: None,
            proximo_numero_turno: 1,
            turn_state: TurnState::default(),
            pending: None,
            pending_effect: None,
        }
    }

    /// Applies one incoming snapshot, or discards it.
    ///
    /// A snapshot is discarded — leaving the whole state untouched — unless
    /// play has started and its watermark is strictly above the last
    /// applied one. An accepted snapshot rebuilds board, score, mode and
    /// the turn flags from the snapshot alone, so application is idempotent
    /// and out-of-order deliveries collapse to the newest snapshot.
    pub fn apply_snapshot(&mut self, snap: &Snapshot) -> (applied: bool)
        requires
            old(self).wf(),
            snap.turnos@.len() < u64::MAX,
        ensures
            final(self).wf(),
            applied == snapshot_offered(game_model(*old(self)), *snap),
            game_model(*final(self)) == step_model(game_model(*old(self)), *snap),
            !applied ==> *final(self) == *old(self),
    {
        match snap.estado {
            MatchStatus::Playing => {},
            _ => {
                return false;
            },
        }
        let w: u64 = snap.turnos.len() as u64;
        let fresh = match self.ultimo_turno_aplicado {
            None => true,
            Some(prev) => w > prev,
        };
        if !fresh {
            return false;
        }

        // Rebuild the board from the newest turn, or from the formations
        // when no turn was played yet.
        let mut tablero: Vec<PiezaPos> = Vec::new();
        if snap.turnos.len() > 0 {
            let last = &snap.turnos[snap.turnos.len() - 1];
            let mut i: usize = 0;
            while i < last.jugada.len()
                invariant
                    i <= last.jugada.len(),
                    tablero@ == last.jugada@.subrange(0, i as int),
                decreases last.jugada.len() - i,
            {
                tablero.push(last.jugada[i]);
                assert(tablero@ =~= last.jugada@.subrange(0, i + 1));
                i += 1;
            }
            proof {
                assert(tablero@ =~= snap.turnos@.last().jugada@);
            }
        } else {
            let mut r: usize = 0;
            while r < snap.formaciones.len()
                invariant
                    r <= snap.formaciones.len(),
                    tablero@ == formation_board(
                        snap.formaciones@.subrange(0, r as int),
                        self.info.id_left,
                    ),
                    *self == *old(self),
                decreases snap.formaciones.len() - r,
            {
                let fila = &snap.formaciones[r];
                let formacion = parse_formation(&fila.formacion);
                let es_izquierda = fila.id_usuario == self.info.id_left;
                let posiciones = get_formation_positions(formacion, es_izquierda);
                let mut p: usize = 0;
                while p < posiciones.len()
                    invariant
                        p <= posiciones.len(),
                        posiciones@ == spec_formation_positions(
                            spec_parse_formation(fila.formacion@),
                            fila.id_usuario == self.info.id_left,
                        ),
                        tablero@ == formation_board(
                            snap.formaciones@.subrange(0, r as int),
                            self.info.id_left,
                        ) + row_board(*fila, self.info.id_left).subrange(0, p as int),
                        *self == *old(self),
                        r < snap.formaciones@.len(),
                        fila == snap.formaciones@[r as int],
                    decreases posiciones.len() - p,
                {
                    let pos = posiciones[p];
                    tablero.push(
                        PiezaPos { id_usuario_real: fila.id_usuario, x: pos.0, y: pos.1 },
                    );
                    proof {
                        assert(row_board(*fila, self.info.id_left)[p as int] == (PiezaPos {
                            id_usuario_real: fila.id_usuario,
                            x: posiciones@[p as int].0,
                            y: posiciones@[p as int].1,
                        }));
                        assert(tablero@ =~= formation_board(
                            snap.formaciones@.subrange(0, r as int),
                            self.info.id_left,
                        ) + row_board(*fila, self.info.id_left).subrange(0, p + 1));
                    }
                    p += 1;
                }
                proof {
                    let rows1 = snap.formaciones@.subrange(0, r + 1);
                    assert(rows1.drop_last() =~= snap.formaciones@.subrange(0, r as int));
                    assert(rows1.last() == snap.formaciones@[r as int]);
                    assert(row_board(*fila, self.info.id_left).subrange(
                        0,
                        row_board(*fila, self.info.id_left).len() as int,
                    ) =~= row_board(*fila, self.info.id_left));
                    assert(tablero@ =~= formation_board(rows1, self.info.id_left));
                }
                r += 1;
            }
            proof {
                assert(snap.formaciones@.subrange(0, snap.formaciones@.len() as int)
                    =~= snap.formaciones@);
            }
        }

        // Adopt the snapshot: score, board, watermark, turn flags, mode.
        self.marcador = Scores { left: snap.marcador.0, right: snap.marcador.1 };
        self.tablero = tablero;
        self.ultimo_turno_aplicado = Some(w);
        self.proximo_numero_turno = w + 1;
        let holder: i32 = match snap.proximo_turno {
            Some(u) => u,
            None => 0,
        };
        self.turn_state = TurnState {
            current_turn_id: holder,
            in_motion: false,
            selected_index: None,
            aim_x: self.turn_state.aim_x,
            aim_y: self.turn_state.aim_y,
            power: self.turn_state.power,
            skip_turn_switch: false,
        };
        self.my_turn = match snap.proximo_turno {
            Some(u) => u == self.info.my_uid,
            None => false,
        };
        self.pending_effect = None;
        let en_juego = match self.estado_app {
            AppState::InGame => true,
            _ => false,
        };
        if !en_juego && snap.proximo_turno.is_some() {
            self.estado_app = AppState::InGame;
        }
        proof {
            assert(game_model(*self).tablero =~= apply_model(
                game_model(*old(self)),
                *snap,
            ).tablero);
            assert(game_model(*self) == apply_model(game_model(*old(self)), *snap));
        }
        true
    }

    /// When it is this client's turn, nothing is selected and nothing is in
    /// motion, selects the first piece it owns.
    pub fn auto_select_first_disk(&mut self)
        requires
            old(self).wf(),
        ensures
            final(self).wf(),
            if old(self).turn_state.selected_index is None && !old(self).turn_state.in_motion
                && old(self).turn_state.current_turn_id == old(self).info.my_uid {
                match first_owned(old(self).tablero@, old(self).info.my_uid) {
                    Some(i) => *final(self) == (LocalGame {
                        turn_state: TurnState {
                            selected_index: Some(i as usize),
                            ..old(self).turn_state
                        },
                        ..*old(self)
                    }),
                    None => *final(self) == *old(self),
                }
            } else {
                *final(self) == *old(self)
            },
    {
        let seleccionable = self.turn_state.selected_index.is_none()
            && !self.turn_state.in_motion && self.turn_state.current_turn_id
            == self.info.my_uid;
        if !seleccionable {
            return ;
        }
        let mut i: usize = 0;
        while i < self.tablero.len()
            invariant
                i <= self.tablero.len(),
                forall|j: int|
                    0 <= j < i ==> (#[trigger] self.tablero@[j]).id_usuario_real
                        != self.info.my_uid,
                *self == *old(self),
                old(self).wf(),
                old(self).turn_state.selected_index is None,
                !old(self).turn_state.in_motion,
                old(self).turn_state.current_turn_id == old(self).info.my_uid,
            decreases self.tablero.len() - i,
        {
            if self.tablero[i].id_usuario_real == self.info.my_uid {
                proof {
                    lemma_first_owned_at(self.tablero@, self.info.my_uid, i as int);
                }
                self.turn_state.selected_index = Some(i);
                return ;
            }
            i += 1;
        }
        proof {
            lemma_first_owned_none(self.tablero@, self.info.my_uid);
        }
    }

    /// Cycles the selection to the next piece this client owns, resetting
    /// aim and charge; without the cycle key, or while a shot is in flight,
    /// or with no owned piece on the board, nothing changes.
    pub fn cycle_disk_selection(&mut self, tab_pressed: bool)
        requires
            old(self).wf(),
        ensures
            final(self).wf(),
            if tab_pressed && !old(self).turn_state.in_motion && owned_indices(
                old(self).tablero@,
                old(self).info.my_uid,
            ).len() > 0 {
                *final(self) == (LocalGame {
                    turn_state: TurnState {
                        selected_index: Some(
                            next_selection(
                                old(self).tablero@,
                                old(self).info.my_uid,
                                old(self).turn_state.selected_index,
                            ) as usize,
                        ),
                        aim_x: 0,
                        aim_y: 0,
                        power: 0,
                        ..old(self).turn_state
                    },
                    ..*old(self)
                })
            } else {
                *final(self) == *old(self)
            },
    {
        if !(tab_pressed && !self.turn_state.in_motion) {
            return ;
        }

        // Collect the indices of this client's pieces, in board order.
        let mut mios: Vec<usize> = Vec::new();
        let mut i: usize = 0;
        while i < self.tablero.len()
            invariant
                i <= self.tablero.len(),
                mios@.map_values(|u: usize| u as int) == owned_indices(
                    self.tablero@.subrange(0, i as int),
                    self.info.my_uid,
                ),
                forall|j: int| 0 <= j < mios@.len() ==> (#[trigger] mios@[j]) < i,
                *self == *old(self),
            decreases self.tablero.len() - i,
        {
            proof {
                assert(self.tablero@.subrange(0, i + 1).drop_last() =~= self.tablero@.subrange(
                    0,
                    i as int,
                ));
            }
            if self.tablero[i].id_usuario_real == self.info.my_uid {
                mios.push(i);
                proof {
                    assert(mios@.map_values(|u: usize| u as int) =~= owned_indices(
                        self.tablero@.subrange(0, i + 1),
                        self.info.my_uid,
                    ));
                }
            } else {
                proof {
                    assert(mios@.map_values(|u: usize| u as int) =~= owned_indices(
                        self.tablero@.subrange(0, i + 1),
                        self.info.my_uid,
                    ));
                }
            }
            i += 1;
        }
        proof {
            assert(self.tablero@.subrange(0, self.tablero@.len() as int) =~= self.tablero@);
        }
        let ghost owned = owned_indices(self.tablero@, self.info.my_uid);

        if mios.len() == 0 {
            return ;
        }

        // Find the current selection among them and step to the next one.
        let eleccion: usize;
        match self.turn_state.selected_index {
            Some(actual) => {
                let mut j: usize = 0;
                let mut encontrado: Option<usize> = None;
                while j < mios.len() && encontrado.is_none()
                    invariant
                        j <= mios.len(),
                        encontrado matches Some(k) ==> k < mios@.len() && mios@[k as int]
                            == actual && pos_of(owned, actual as int) == Some(k as int),
                        encontrado is None ==> forall|q: int|
                            0 <= q < j ==> (#[trigger] mios@[q]) != actual,
                        mios@.map_values(|u: usize| u as int) == owned,
                    decreases mios.len() - j + if encontrado is None {
                        1int
                    } else {
                        0int
                    },
                {
                    if mios[j] == actual {
                        proof {
                            lemma_pos_of_at(owned, actual as int, j as int);
                        }
                        encontrado = Some(j);
                    } else {
                        j += 1;
                    }
                }
                match encontrado {
                    Some(k) => {
                        eleccion = mios[(k + 1) % mios.len()];
                    },
                    None => {
                        proof {
                            lemma_pos_of_none(owned, actual as int);
                        }
                        eleccion = mios[0];
                    },
                }
            },
            None => {
                eleccion = mios[0];
            },
        }

        self.turn_state.selected_index = Some(eleccion);
        self.turn_state.aim_x = 0;
        self.turn_state.aim_y = 0;
        self.turn_state.power = 0;
    }

    /// Nudges the aim by the pressed direction keys, each axis clamped to
    /// its range. Input only has effect while it is locally this client's
    /// turn.
    pub fn aim_with_keyboard(&mut self, left: bool, right: bool, up: bool, down: bool)
        requires
            old(self).wf(),
        ensures
            final(self).wf(),
            !old(self).my_turn ==> *final(self) == *old(self),
            old(self).my_turn ==> *final(self) == (LocalGame {
                turn_state: TurnState {
                    aim_x: clamp_aim(
                        old(self).turn_state.aim_x + aim_delta(right) - aim_delta(left),
                    ) as i32,
                    aim_y: clamp_aim(
                        old(self).turn_state.aim_y + aim_delta(up) - aim_delta(down),
                    ) as i32,
                    ..old(self).turn_state
                },
                ..*old(self)
            }),
    {
        if !self.my_turn {
            return ;
        }
        let mut dx: i32 = 0;
        if right {
            dx += 100;
        }
        if left {
            dx -= 100;
        }
        let mut dy: i32 = 0;
        if up {
            dy += 100;
        }
        if down {
            dy -= 100;
        }
        let mut x = self.turn_state.aim_x + dx;
        if x > 1000 {
            x = 1000;
        }
        if x < -1000 {
            x = -1000;
        }
        let mut y = self.turn_state.aim_y + dy;
        if y > 1000 {
            y = 1000;
        }
        if y < -1000 {
            y = -1000;
        }
        self.turn_state.aim_x = x;
        self.turn_state.aim_y = y;
    }

    /// Charges the shot while the charge key is held, saturating at full
    /// charge. Only effective while it is locally this client's turn.
    pub fn charge_shot_power(&mut self, space_pressed: bool)
        requires
            old(self).wf(),
        ensures
            final(self).wf(),
            !(old(self).my_turn && space_pressed) ==> *final(self) == *old(self),
            old(self).my_turn && space_pressed ==> *final(self) == (LocalGame {
                turn_state: TurnState {
                    power: if old(self).turn_state.power + 20 <= 1000 {
                        (old(self).turn_state.power + 20) as u32
                    } else {
                        1000u32
                    },
                    ..old(self).turn_state
                },
                ..*old(self)
            }),
    {
        if !self.my_turn || !space_pressed {
            return ;
        }
        let nueva = self.turn_state.power + 20;
        self.turn_state.power = if nueva <= 1000 {
            nueva
        } else {
            1000
        };
    }

    /// Releasing the charge fires the selected piece: the aim and charge
    /// become a velocity, any pending one-shot effect is consumed (extra
    /// speed, extra bounce, or the extra-turn flag), and the machine enters
    /// the in-motion state. Returns the command for the physics runtime,
    /// or nothing if no shot was fired.
    pub fn fire_selected_disk(&mut self, space_released: bool) -> (cmd: Option<FireCommand>)
        requires
            old(self).wf(),
        ensures
            final(self).wf(),
            !(space_released && old(self).my_turn && !old(self).turn_state.in_motion
                && old(self).turn_state.selected_index is Some) ==> cmd is None && *final(self)
                == *old(self),
            (space_released && old(self).my_turn && !old(self).turn_state.in_motion
                && old(self).turn_state.selected_index is Some) ==> {
                let speed = fire_speed(old(self).turn_state.power, old(self).pending_effect);
                &&& cmd == Some(
                    FireCommand {
                        piece_index: old(self).turn_state.selected_index.unwrap(),
                        vel_x: (old(self).turn_state.aim_x * speed) as i64,
                        vel_y: (old(self).turn_state.aim_y * speed) as i64,
                        double_restitution: old(self).pending_effect == Some(
                            PowerUpKind::DoubleBounce,
                        ),
                    },
                )
                &&& *final(self) == (LocalGame {
                    turn_state: TurnState {
                        in_motion: true,
                        power: 0,
                        skip_turn_switch: old(self).turn_state.skip_turn_switch
                            || old(self).pending_effect == Some(PowerUpKind::DoubleTurn),
                        ..old(self).turn_state
                    },
                    pending_effect: None,
                    ..*old(self)
                })
            },
    {
        if !space_released || !self.my_turn || self.turn_state.in_motion {
            return None;
        }
        let index = match self.turn_state.selected_index {
            Some(i) => i,
            None => {
                return None;
            },
        };
        let mut speed: i64 = (self.turn_state.power as i64) * 800;
        match self.pending_effect {
            Some(PowerUpKind::SpeedBoost) => {
                speed = speed * 3 / 2;
            },
            Some(PowerUpKind::DoubleTurn) => {
                self.turn_state.skip_turn_switch = true;
            },
            _ => {},
        }
        let double_restitution = match self.pending_effect {
            Some(PowerUpKind::DoubleBounce) => true,
            _ => false,
        };
        let ax = self.turn_state.aim_x;
        let ay = self.turn_state.aim_y;
        proof {
            assert(-1200000000 <= (ax as int) * (speed as int) <= 1200000000
                && -1200000000 <= (ay as int) * (speed as int) <= 1200000000)
                by (nonlinear_arith)
                requires
                    -1000 <= ax as int <= 1000,
                    -1000 <= ay as int <= 1000,
                    0 <= speed as int <= 1200000,
            ;
        }
        let cmd = FireCommand {
            piece_index: index,
            vel_x: (ax as i64) * speed,
            vel_y: (ay as i64) * speed,
            double_restitution,
        };
        self.pending_effect = None;
        self.turn_state.in_motion = true;
        self.turn_state.power = 0;
        Some(cmd)
    }

    /// Detects the end of the turn: once a shot was in flight and every
    /// piece has stopped, the machine leaves the in-motion state, drops the
    /// selection and clears the local "my turn" flag at once, so no further
    /// input is accepted before the next snapshot.
    pub fn check_turn_end(&mut self, all_stopped: bool) -> (ended: bool)
        requires
            old(self).wf(),
        ensures
            final(self).wf(),
            ended == (old(self).turn_state.in_motion && all_stopped),
            !ended ==> *final(self) == *old(self),
            ended ==> *final(self) == (LocalGame {
                my_turn: false,
                turn_state: TurnState {
                    in_motion: false,
                    selected_index: None,
                    ..old(self).turn_state
                },
                ..*old(self)
            }),
    {
        if !self.turn_state.in_motion || !all_stopped {
            return false;
        }
        self.turn_state.in_motion = false;
        self.turn_state.selected_index = None;
        self.my_turn = false;
        true
    }

    /// Builds the outgoing payload from the whole board as it stands —
    /// every piece's position, tagged with its real owner — and places it
    /// in the pending-turn slot. With an empty board there is nothing to
    /// send and nothing changes.
    pub fn queue_completed_turn(&mut self)
        requires
            old(self).wf(),
        ensures
            final(self).wf(),
            old(self).tablero@.len() == 0 ==> *final(self) == *old(self),
            old(self).tablero@.len() > 0 ==> {
                &&& final(self).pending matches Some(p) && payload_model(p) == (PayloadModel {
                    id_partida: old(self).info.partida_id,
                    numero_turno: old(self).proximo_numero_turno,
                    id_usuario: old(self).info.my_uid,
                    jugada: payload_pieces(old(self).tablero@),
                    extiende: old(self).turn_state.skip_turn_switch,
                })
                &&& final(self).my_turn == false
                &&& final(self).info == old(self).info
                &&& final(self).estado_app == old(self).estado_app
                &&& final(self).marcador == old(self).marcador
                &&& final(self).tablero == old(self).tablero
                &&& final(self).ultimo_turno_aplicado == old(self).ultimo_turno_aplicado
                &&& final(self).proximo_numero_turno == old(self).proximo_numero_turno
                &&& final(self).turn_state == old(self).turn_state
                &&& final(self).pending_effect == old(self).pending_effect
            },
    {
        if self.tablero.len() == 0 {
            return ;
        }
        let mut jugada: Vec<PiezaEntrada> = Vec::new();
        let mut i: usize = 0;
        while i < self.tablero.len()
            invariant
                i <= self.tablero.len(),
                jugada@ == payload_pieces(self.tablero@.subrange(0, i as int)),
                *self == *old(self),
            decreases self.tablero.len() - i,
        {
            let p = self.tablero[i];
            jugada.push(
                PiezaEntrada { claimed_owner: p.id_usuario_real, x: Some(p.x), y: Some(p.y) },
            );
            proof {
                assert(self.tablero@.subrange(0, i + 1).drop_last() =~= self.tablero@.subrange(
                    0,
                    i as int,
                ));
                assert(jugada@ =~= payload_pieces(self.tablero@.subrange(0, i + 1)));
            }
            i += 1;
        }
        proof {
            assert(self.tablero@.subrange(0, self.tablero@.len() as int) =~= self.tablero@);
        }
        self.pending = Some(
            TurnPayload {
                id_partida: self.info.partida_id,
                numero_turno: self.proximo_numero_turno,
                id_usuario: self.info.my_uid,
                jugada,
                extiende: self.turn_state.skip_turn_switch,
            },
        );
        self.my_turn = false;
    }

    /// Takes the pending payload out for transmission.
    ///
    /// Transmission is attempted as soon as a payload exists. The local
    /// "my turn" flag is deliberately not consulted here: building the
    /// payload clears that flag, and the backend only announces a new turn
    /// holder after it has received the payload — so a send gated on the
    /// flag could never happen for an ordinary turn.
    pub fn take_pending_for_send(&mut self) -> (r: Option<TurnPayload>)
        requires
            old(self).wf(),
        ensures
            final(self).wf(),
            r == old(self).pending,
            final(self).pending is None,
            final(self).info == old(self).info,
            final(self).estado_app == old(self).estado_app,
            final(self).marcador == old(self).marcador,
            final(self).tablero == old(self).tablero,
            final(self).my_turn == old(self).my_turn,
            final(self).ultimo_turno_aplicado == old(self).ultimo_turno_aplicado,
            final(self).proximo_numero_turno == old(self).proximo_numero_turno,
            final(self).turn_state == old(self).turn_state,
            final(self).pending_effect == old(self).pending_effect,
    {
        self.pending.take()
    }

    /// Puts a payload back after a failed transmission, so it is retried.
    pub fn restore_pending(&mut self, payload: TurnPayload)
        requires
            old(self).wf(),
            old(self).pending is None,
        ensures
            final(self).wf(),
            final(self).pending == Some(payload),
            final(self).info == old(self).info,
            final(self).estado_app == old(self).estado_app,
            final(self).marcador == old(self).marcador,
            final(self).tablero == old(self).tablero,
            final(self).my_turn == old(self).my_turn,
            final(self).ultimo_turno_aplicado == old(self).ultimo_turno_aplicado,
            final(self).proximo_numero_turno == old(self).proximo_numero_turno,
            final(self).turn_state == old(self).turn_state,
            final(self).pending_effect == old(self).pending_effect,
    {
        self.pending = Some(payload);
    }

    /// A goal was scored: bump the side's counter, clear the shot being
    /// prepared, hand the local turn view to the other side, and move to
    /// the goal interlude — or straight to game over at three goals.
    pub fn on_goal(&mut self, scored_by_left: bool)
        requires
            old(self).wf(),
            scored_by_left ==> old(self).marcador.left < u32::MAX,
            !scored_by_left ==> old(self).marcador.right < u32::MAX,
        ensures
            final(self).wf(),
            final(self).marcador == if scored_by_left {
                Scores { left: (old(self).marcador.left + 1) as u32, right: old(self).marcador.right }
            } else {
                Scores { left: old(self).marcador.left, right: (old(self).marcador.right + 1) as u32 }
            },
            final(self).turn_state == (TurnState {
                current_turn_id: if old(self).turn_state.current_turn_id == old(self).info.id_left {
                    old(self).info.id_right
                } else {
                    old(self).info.id_left
                },
                in_motion: false,
                selected_index: None,
                aim_x: 0,
                aim_y: 0,
                power: 0,
                skip_turn_switch: old(self).turn_state.skip_turn_switch,
            }),
            final(self).estado_app == if final(self).marcador.left == 3
                || final(self).marcador.right == 3 {
                AppState::GameOver
            } else {
                AppState::GoalScored
            },
            final(self).info == old(self).info,
            final(self).tablero == old(self).tablero,
            final(self).my_turn == old(self).my_turn,
            final(self).ultimo_turno_aplicado == old(self).ultimo_turno_aplicado,
            final(self).proximo_numero_turno == old(self).proximo_numero_turno,
            final(self).pending == old(self).pending,
            final(self).pending_effect == old(self).pending_effect,
    {
        if scored_by_left {
            self.marcador.left = self.marcador.left + 1;
        } else {
            self.marcador.right = self.marcador.right + 1;
        }
        self.turn_state.in_motion = false;
        self.turn_state.selected_index = None;
        self.turn_state.aim_x = 0;
        self.turn_state.aim_y = 0;
        self.turn_state.power = 0;
        self.turn_state.current_turn_id = if self.turn_state.current_turn_id
            == self.info.id_left {
            self.info.id_right
        } else {
            self.info.id_left
        };
        if self.marcador.left == 3 || self.marcador.right == 3 {
            self.estado_app = AppState::GameOver;
        } else {
            self.estado_app = AppState::GoalScored;
        }
    }

    /// Where the client goes once the goal interlude ends: back to
    /// formation change, or to game over at three goals.
    pub fn next_mode_after_banner(&self) -> (mode: AppState)
        ensures
            mode == if self.marcador.left >= 3 || self.marcador.right >= 3 {
                AppState::GameOver
            } else {
                AppState::FormationChange
            },
    {
        if self.marcador.left >= 3 || self.marcador.right >= 3 {
            AppState::GameOver
        } else {
            AppState::FormationChange
        }
    }
}

/// Aim step for one pressed key.
pub open spec fn aim_delta(pressed: bool) -> int {
    if pressed {
        100int
    } else {
        0int
    }
}

/// Each aim axis is clamped to [-1000, 1000].
pub open spec fn clamp_aim(v: int) -> int {
    if v > 1000 {
        1000int
    } else if v < -1000 {
        -1000int
    } else {
        v
    }
}

/// Milli-speed of a fired shot: the charge scaled, and half again with the
/// speed-boost effect pending.
pub open spec fn fire_speed(power: u32, effect: Option<PowerUpKind>) -> int {
    if effect == Some(PowerUpKind::SpeedBoost) {
        (power * 800) * 3 / 2
    } else {
        power * 800
    }
}

/// The board as an outgoing payload: each piece's position, tagged with the
/// owner the client knows.
pub open spec fn payload_pieces(t: Seq<PiezaPos>) -> Seq<PiezaEntrada> {
    t.map_values(
        |p: PiezaPos| PiezaEntrada { claimed_owner: p.id_usuario_real, x: Some(p.x), y: Some(p.y) },
    )
}

/// The goal notification a client sends: the goal is credited to the
/// scoring side's real identity as this session knows it.
pub fn build_goal_payload(info: &BackendInfo, scored_by_left: bool) -> (r: crate::directory::GolPayload)
    ensures
        r.id_partida == info.partida_id,
        r.id_goleador == if scored_by_left {
            info.id_left
        } else {
            info.id_right
        },
{
    crate::directory::GolPayload {
        id_partida: info.partida_id,
        id_goleador: if scored_by_left {
            info.id_left
        } else {
            info.id_right
        },
    }
}

/// The polling fallback's watermark: the highest turn number already seen
/// over the synchronous read path.
#[derive(Clone, Copy, PartialEq, Eq, Structural, Debug)]
pub struct PollState {
    pub last_turn_number: u64,
}

impl Default for PollState {
    fn default() -> (r: Self)
        ensures
            r.last_turn_number == 0,
    {
        PollState { last_turn_number: 0 }
    }
}

impl PollState {
    /// Notes the newest turn number a poll brought back; reports — exactly
    /// once per new turn — whether a fresh snapshot should be fetched.
    pub fn note_latest_turn(&mut self, numero_turno: u64) -> (notify: bool)
        ensures
            notify == (numero_turno > old(self).last_turn_number),
            final(self).last_turn_number == if notify {
                numero_turno
            } else {
                old(self).last_turn_number
            },
    {
        if numero_turno > self.last_turn_number {
            self.last_turn_number = numero_turno;
            true
        } else {
            false
        }
    }
}

/// The signals a session can receive as bare text frames.
#[derive(Clone, Copy, PartialEq, Eq, Structural, Debug)]
pub enum WsSignal {
    /// Both formations are in: fetch the opening snapshot.
    Start,
    /// A turn was completed: fetch a fresh snapshot.
    TurnoFinalizado,
    /// Anything else: an advisory relay, not a prompt to re-fetch.
    Otro,
}

/// Which signal a text frame carries.
pub open spec fn spec_classify(m: Seq<char>) -> WsSignal {
    if m == "start"@ {
        WsSignal::Start
    } else if m == "turno_finalizado"@ {
        WsSignal::TurnoFinalizado
    } else {
        WsSignal::Otro
    }
}

/// Classifies one incoming text frame.
pub fn classify_ws_message(msg: &String) -> (s: WsSignal)
    ensures
        s == spec_classify(msg@),
{
    if *msg == String::from_str("start") {
        WsSignal::Start
    } else if *msg == String::from_str("turno_finalizado") {
        WsSignal::TurnoFinalizado
    } else {
        WsSignal::Otro
    }
}

impl LocalGame {
    /// Reacts to one bare change signal from the live session: either
    /// signal prompts a fresh snapshot fetch over the synchronous read
    /// path, and a finished turn additionally moves the local view into
    /// the formation-change interlude. Relayed chatter prompts nothing.
    pub fn on_ws_signal(&mut self, signal: WsSignal) -> (fetch: bool)
        requires
            old(self).wf(),
        ensures
            final(self).wf(),
            fetch == (signal == WsSignal::Start || signal == WsSignal::TurnoFinalizado),
            signal == WsSignal::TurnoFinalizado ==> *final(self) == (LocalGame {
                estado_app: AppState::FormationChange,
                ..*old(self)
            }),
            signal != WsSignal::TurnoFinalizado ==> *final(self) == *old(self),
    {
        match signal {
            WsSignal::Start => true,
            WsSignal::TurnoFinalizado => {
                self.estado_app = AppState::FormationChange;
                true
            },
            WsSignal::Otro => false,
        }
    }
}

} // verus!
