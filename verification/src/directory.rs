//! The collection of matches the service manages, with the request-level
//! operations of the synchronous interface: create or find a match for a
//! pair of participants, list a participant's matches, and route a
//! formation choice, a turn submission or a goal to the right match
//! record.

use vstd::prelude::*;

use crate::match_state::{MatchState, MatchStatus, PiezaEntrada};
use crate::snapshot::{build_snapshot, snapshot_matches, Snapshot};
use crate::transactions::{formation_post, FormationOutcome, TurnError};

verus! {

/// The match summary as the interface reports it.
#[derive(Clone, Copy, PartialEq, Eq, Debug)]
pub struct Partida {
    pub id_partida: i32,
    pub id_usuario_1: i32,
    pub id_usuario_2: i32,
    pub fecha_creacion: Option<i64>,
    pub estado: MatchStatus,
}

/// A request for a match between two participants.
#[derive(Clone, Copy, PartialEq, Eq, Debug)]
pub struct PartidaPayload {
    pub id_usuario_1: i32,
    pub id_usuario_2: i32,
}

/// A submitted turn: the match, the claimed submitter, the piece list as
/// sent (absent when the payload had none), and the turn-extension flag.
#[derive(Debug)]
pub struct JugadaPayload {
    pub id_partida: i32,
    pub numero_turno: u64,
    pub id_usuario: i32,
    pub jugada: Option<Vec<PiezaEntrada>>,
    pub extiende: bool,
}

/// A submitted formation choice. The start order is never taken from the
/// client; the service draws it.
#[derive(Debug)]
pub struct FormacionPayload {
    pub id_partida: i32,
    pub id_usuario: i32,
    pub formacion: String,
    pub turno_inicio: u32,
}

/// A goal notification.
#[derive(Clone, Copy, PartialEq, Eq, Debug)]
pub struct GolPayload {
    pub id_partida: i32,
    pub id_goleador: i32,
}

/// Why a request against the directory failed.
#[derive(Clone, Copy, PartialEq, Eq, Structural, Debug)]
pub enum ApiError {
    /// The named match does not exist.
    NoSuchMatch,
    /// A match needs two distinct participants.
    SamePlayer,
    /// The submitter of a formation is not a participant of the match.
    NotParticipant,
    /// The submitter of a turn is not the current turn holder.
    OutOfTurn,
    /// The piece list is missing or a piece lacks a coordinate.
    MalformedPayload,
}

/// The summary of one match record.
pub open spec fn resumen(m: MatchState) -> Partida {
    Partida {
        id_partida: m.id_partida,
        id_usuario_1: m.id_jugador1,
        id_usuario_2: m.id_jugador2,
        fecha_creacion: m.fecha_inicio,
        estado: m.estado,
    }
}

/// Index of the first match with this identifier.
pub open spec fn find_match(s: Seq<MatchState>, id: i32) -> Option<int>
    decreases s.len(),
{
    if s.len() == 0 {
        None
    } else if s[0].id_partida == id {
        Some(0int)
    } else {
        match find_match(s.drop_first(), id) {
            Some(i) => Some(i + 1),
            None => None,
        }
    }
}

proof fn lemma_find_match_at(s: Seq<MatchState>, id: i32, k: int)
    requires
        0 <= k < s.len(),
        s[k].id_partida == id,
        forall|j: int| 0 <= j < k ==> (#[trigger] s[j]).id_partida != id,
    ensures
        find_match(s, id) == Some(k),
    decreases k,
{
    if k > 0 {
        lemma_find_match_at(s.drop_first(), id, k - 1);
    }
}

proof fn lemma_find_match_none(s: Seq<MatchState>, id: i32)
    requires
        forall|j: int| 0 <= j < s.len() ==> (#[trigger] s[j]).id_partida != id,
    ensures
        find_match(s, id) is None,
    decreases s.len(),
{
    if s.len() > 0 {
        lemma_find_match_none(s.drop_first(), id);
    }
}

/// Whether this match is between these two participants, in either order.
pub open spec fn same_pair(m: MatchState, a: i32, b: i32) -> bool {
    (m.id_jugador1 == a && m.id_jugador2 == b) || (m.id_jugador1 == b && m.id_jugador2 == a)
}

/// Index of the first match between these two participants.
pub open spec fn find_pair(s: Seq<MatchState>, a: i32, b: i32) -> Option<int>
    decreases s.len(),
{
    if s.len() == 0 {
        None
    } else if same_pair(s[0], a, b) {
        Some(0int)
    } else {
        match find_pair(s.drop_first(), a, b) {
            Some(i) => Some(i + 1),
            None => None,
        }
    }
}

proof fn lemma_find_pair_at(s: Seq<MatchState>, a: i32, b: i32, k: int)
    requires
        0 <= k < s.len(),
        same_pair(s[k], a, b),
        forall|j: int| 0 <= j < k ==> !same_pair(#[trigger] s[j], a, b),
    ensures
        find_pair(s, a, b) == Some(k),
    decreases k,
{
    if k > 0 {
        lemma_find_pair_at(s.drop_first(), a, b, k - 1);
    }
}

proof fn lemma_find_pair_none(s: Seq<MatchState>, a: i32, b: i32)
    requires
        forall|j: int| 0 <= j < s.len() ==> !same_pair(#[trigger] s[j], a, b),
    ensures
        find_pair(s, a, b) is None,
    decreases s.len(),
{
    if s.len() > 0 {
        lemma_find_pair_none(s.drop_first(), a, b);
    }
}

/// A participant's match summaries, in directory order.
pub open spec fn partidas_de(s: Seq<MatchState>, uid: i32) -> Seq<Partida>
    decreases s.len(),
{
    if s.len() == 0 {
        Seq::empty()
    } else {
        let prefix = partidas_de(s.drop_last(), uid);
        if s.last().id_jugador1 == uid || s.last().id_jugador2 == uid {
            prefix.push(resumen(s.last()))
        } else {
            prefix
        }
    }
}

/// Whether a match still waits for this participant's formation: it is
/// forming, the participant is in it, and no formation of theirs is on
/// record.
pub open spec fn pendiente_para(m: MatchState, uid: i32) -> bool {
    &&& m.estado == MatchStatus::Forming
    &&& m.is_participant(uid)
    &&& forall|i: int|
        0 <= i < m.formaciones@.len() ==> (#[trigger] m.formaciones@[i]).id_usuario != uid
}

/// The summaries of the matches still waiting for this participant's
/// formation, in directory order.
pub open spec fn pendientes_de(s: Seq<MatchState>, uid: i32) -> Seq<Partida>
    decreases s.len(),
{
    if s.len() == 0 {
        Seq::empty()
    } else {
        let prefix = pendientes_de(s.drop_last(), uid);
        if pendiente_para(s.last(), uid) {
            prefix.push(resumen(s.last()))
        } else {
            prefix
        }
    }
}

/// Full postcondition of routing one formation submission through the
/// directory: the named match (and only it) is transformed as the
/// formation-completion transaction dictates, for whichever way the coin
/// fell.
pub open spec fn formation_dispatch_post(
    pre_dir: MatchDirectory,
    post_dir: MatchDirectory,
    id_usuario: i32,
    id_partida: i32,
    formacion: Seq<char>,
    r: Result<FormationOutcome, ApiError>,
) -> bool {
    &&& post_dir.next_id == pre_dir.next_id
    &&& match find_match(pre_dir.partidas@, id_partida) {
        None => r == Result::<FormationOutcome, ApiError>::Err(ApiError::NoSuchMatch) && post_dir
            == pre_dir,
        Some(k) => {
            let pre = pre_dir.partidas@[k];
            let post = post_dir.partidas@[k];
            let rows1 = crate::transactions::upsert_row(
                crate::transactions::form_model(pre.formaciones@),
                id_usuario,
                formacion,
            );
            &&& post_dir.partidas@.len() == pre_dir.partidas@.len()
            &&& (forall|j: int|
                0 <= j < pre_dir.partidas@.len() && j != k ==> post_dir.partidas@[j]
                    == pre_dir.partidas@[j])
            &&& post.id_partida == pre.id_partida
            &&& post.id_jugador1 == pre.id_jugador1
            &&& post.id_jugador2 == pre.id_jugador2
            &&& post.fecha_inicio == pre.fecha_inicio
            &&& post.gol_j1 == pre.gol_j1
            &&& post.gol_j2 == pre.gol_j2
            &&& post.turnos == pre.turnos
            &&& (r is Err ==> r == Result::<FormationOutcome, ApiError>::Err(
                ApiError::NotParticipant,
            ) && !pre.is_participant(id_usuario) && post == pre)
            &&& (r == Result::<FormationOutcome, ApiError>::Ok(
                FormationOutcome::RecordedWaiting,
            ) ==> crate::transactions::form_model(post.formaciones@) == rows1 && rows1.len() < 2
                && post.estado == pre.estado && post.turno_actual == pre.turno_actual)
            &&& (r == Result::<FormationOutcome, ApiError>::Ok(
                FormationOutcome::AlreadyStarted,
            ) ==> crate::transactions::form_model(post.formaciones@) == rows1 && pre.orders_set()
                && post.estado == pre.estado && post.turno_actual == pre.turno_actual)
            &&& (r matches Ok(FormationOutcome::Started(p)) ==> (p == rows1[0].id_usuario || p
                == rows1[1].id_usuario) && rows1.len() >= 2 && !pre.orders_set()
                && crate::transactions::form_model(post.formaciones@)
                == crate::transactions::assign_orders(rows1, p) && post.estado
                == MatchStatus::Playing && post.turno_actual == Some(p))
        },
    }
}

/// All matches the service knows, with the next identifier to hand out.
#[derive(Debug)]
pub struct MatchDirectory {
    pub partidas: Vec<MatchState>,
    pub next_id: i32,
}

impl MatchDirectory {
    /// Every record is well formed; identifiers are positive, unique and
    /// below the next one to assign.
    pub open spec fn wf(self) -> bool {
        &&& self.next_id >= 1
        &&& forall|i: int| 0 <= i < self.partidas@.len() ==> (#[trigger] self.partidas@[i]).wf()
        &&& forall|i: int|
            0 <= i < self.partidas@.len() ==> 0 < (#[trigger] self.partidas@[i]).id_partida
                < self.next_id
        &&& forall|i: int, j: int|
            0 <= i < j < self.partidas@.len() ==> (#[trigger] self.partidas@[i]).id_partida
                != (#[trigger] self.partidas@[j]).id_partida
    }

    /// An empty directory.
    pub fn new() -> (r: Self)
        ensures
            r.wf(),
            r.partidas@.len() == 0,
            r.next_id == 1,
    {
        MatchDirectory { partidas: Vec::new(), next_id: 1 }
    }

    /// Index of a match by identifier.
    fn index_of(&self, id_partida: i32) -> (r: Option<usize>)
        requires
            self.wf(),
        ensures
            match r {
                Some(i) => i < self.partidas@.len() && self.partidas@[i as int].id_partida
                    == id_partida && find_match(self.partidas@, id_partida) == Some(i as int),
                None => find_match(self.partidas@, id_partida) is None,
            },
    {
        let mut i: usize = 0;
        while i < self.partidas.len()
            invariant
                i <= self.partidas.len(),
                forall|j: int| 0 <= j < i ==> (#[trigger] self.partidas@[j]).id_partida != id_partida,
            decreases self.partidas.len() - i,
        {
            if self.partidas[i].id_partida == id_partida {
                proof {
                    lemma_find_match_at(self.partidas@, id_partida, i as int);
                }
                return Some(i);
            }
            i += 1;
        }
        proof {
            lemma_find_match_none(self.partidas@, id_partida);
        }
        None
    }

    /// Creates a match between the two requested participants, or returns
    /// the one that already exists between them (in either order). A
    /// request naming one participant twice is rejected before any write.
    pub fn post_partida(&mut self, payload: &PartidaPayload, fecha: Option<i64>) -> (r: Result<
        Partida,
        ApiError,
    >)
        requires
            old(self).wf(),
            old(self).next_id < i32::MAX,
        ensures
            final(self).wf(),
            payload.id_usuario_1 == payload.id_usuario_2 ==> r == Result::<
                Partida,
                ApiError,
            >::Err(ApiError::SamePlayer) && *final(self) == *old(self),
            payload.id_usuario_1 != payload.id_usuario_2 ==> match find_pair(
                old(self).partidas@,
                payload.id_usuario_1,
                payload.id_usuario_2,
            ) {
                Some(k) => r == Result::<Partida, ApiError>::Ok(resumen(old(self).partidas@[k]))
                    && *final(self) == *old(self),
                None => {
                    &&& r == Result::<Partida, ApiError>::Ok(
                        Partida {
                            id_partida: old(self).next_id,
                            id_usuario_1: payload.id_usuario_1,
                            id_usuario_2: payload.id_usuario_2,
                            fecha_creacion: fecha,
                            estado: MatchStatus::Forming,
                        },
                    )
                    &&& final(self).partidas@.len() == old(self).partidas@.len() + 1
                    &&& final(self).partidas@.subrange(0, old(self).partidas@.len() as int)
                        == old(self).partidas@
                    &&& resumen(final(self).partidas@.last()) == (Partida {
                        id_partida: old(self).next_id,
                        id_usuario_1: payload.id_usuario_1,
                        id_usuario_2: payload.id_usuario_2,
                        fecha_creacion: fecha,
                        estado: MatchStatus::Forming,
                    })
                    &&& final(self).partidas@.last().turnos@.len() == 0
                    &&& final(self).partidas@.last().formaciones@.len() == 0
                    &&& final(self).next_id == old(self).next_id + 1
                },
            },
    {
        if payload.id_usuario_1 == payload.id_usuario_2 {
            return Err(ApiError::SamePlayer);
        }
        let mut i: usize = 0;
        while i < self.partidas.len()
            invariant
                i <= self.partidas.len(),
                forall|j: int|
                    0 <= j < i ==> !same_pair(
                        #[trigger] self.partidas@[j],
                        payload.id_usuario_1,
                        payload.id_usuario_2,
                    ),
                *self == *old(self),
                old(self).wf(),
            decreases self.partidas.len() - i,
        {
            let m = &self.partidas[i];
            if (m.id_jugador1 == payload.id_usuario_1 && m.id_jugador2 == payload.id_usuario_2)
                || (m.id_jugador1 == payload.id_usuario_2 && m.id_jugador2
                == payload.id_usuario_1) {
                proof {
                    lemma_find_pair_at(
                        self.partidas@,
                        payload.id_usuario_1,
                        payload.id_usuario_2,
                        i as int,
                    );
                }
                return Ok(
                    Partida {
                        id_partida: m.id_partida,
                        id_usuario_1: m.id_jugador1,
                        id_usuario_2: m.id_jugador2,
                        fecha_creacion: m.fecha_inicio,
                        estado: m.estado,
                    },
                );
            }
            i += 1;
        }
        proof {
            lemma_find_pair_none(self.partidas@, payload.id_usuario_1, payload.id_usuario_2);
        }
        let id = self.next_id;
        let nueva = MatchState::new(id, payload.id_usuario_1, payload.id_usuario_2, fecha);
        self.partidas.push(nueva);
        self.next_id = self.next_id + 1;
        proof {
            assert(final(self).partidas@.subrange(0, old(self).partidas@.len() as int) =~= old(self).partidas@);
        }
        Ok(
            Partida {
                id_partida: id,
                id_usuario_1: payload.id_usuario_1,
                id_usuario_2: payload.id_usuario_2,
                fecha_creacion: fecha,
                estado: MatchStatus::Forming,
            },
        )
    }

    /// The summary of one match.
    pub fn get_partida_detalle(&self, id_partida: i32) -> (r: Option<Partida>)
        requires
            self.wf(),
        ensures
            match r {
                Some(p) => find_match(self.partidas@, id_partida) matches Some(k) && p == resumen(
                    self.partidas@[k],
                ),
                None => find_match(self.partidas@, id_partida) is None,
            },
    {
        match self.index_of(id_partida) {
            Some(i) => {
                let m = &self.partidas[i];
                Some(
                    Partida {
                        id_partida: m.id_partida,
                        id_usuario_1: m.id_jugador1,
                        id_usuario_2: m.id_jugador2,
                        fecha_creacion: m.fecha_inicio,
                        estado: m.estado,
                    },
                )
            },
            None => None,
        }
    }

    /// Every match this participant is in, in directory order.
    pub fn get_mis_partidas(&self, id_usuario: i32) -> (r: Vec<Partida>)
        ensures
            r@ == partidas_de(self.partidas@, id_usuario),
    {
        let mut r: Vec<Partida> = Vec::new();
        let mut i: usize = 0;
        while i < self.partidas.len()
            invariant
                i <= self.partidas.len(),
                r@ == partidas_de(self.partidas@.subrange(0, i as int), id_usuario),
            decreases self.partidas.len() - i,
        {
            proof {
                assert(self.partidas@.subrange(0, i + 1).drop_last() =~= self.partidas@.subrange(
                    0,
                    i as int,
                ));
            }
            let m = &self.partidas[i];
            if m.id_jugador1 == id_usuario || m.id_jugador2 == id_usuario {
                r.push(
                    Partida {
                        id_partida: m.id_partida,
                        id_usuario_1: m.id_jugador1,
                        id_usuario_2: m.id_jugador2,
                        fecha_creacion: m.fecha_inicio,
                        estado: m.estado,
                    },
                );
            }
            i += 1;
        }
        proof {
            assert(self.partidas@.subrange(0, self.partidas@.len() as int) =~= self.partidas@);
        }
        r
    }

    /// The matches still waiting for this participant's formation choice.
    pub fn get_partidas_pendientes(&self, id_usuario: i32) -> (r: Vec<Partida>)
        ensures
            r@ == pendientes_de(self.partidas@, id_usuario),
    {
        let mut r: Vec<Partida> = Vec::new();
        let mut i: usize = 0;
        while i < self.partidas.len()
            invariant
                i <= self.partidas.len(),
                r@ == pendientes_de(self.partidas@.subrange(0, i as int), id_usuario),
            decreases self.partidas.len() - i,
        {
            proof {
                assert(self.partidas@.subrange(0, i + 1).drop_last() =~= self.partidas@.subrange(
                    0,
                    i as int,
                ));
            }
            let m = &self.partidas[i];
            let es_forming = match m.estado {
                MatchStatus::Forming => true,
                _ => false,
            };
            let es_mio = m.id_jugador1 == id_usuario || m.id_jugador2 == id_usuario;
            if es_forming && es_mio && !m.has_formation_of(id_usuario) {
                r.push(
                    Partida {
                        id_partida: m.id_partida,
                        id_usuario_1: m.id_jugador1,
                        id_usuario_2: m.id_jugador2,
                        fecha_creacion: m.fecha_inicio,
                        estado: m.estado,
                    },
                );
            }
            i += 1;
        }
        proof {
            assert(self.partidas@.subrange(0, self.partidas@.len() as int) =~= self.partidas@);
        }
        r
    }

    /// Routes a formation submission to its match. The draw, when one is
    /// due, is decided inside by a coin flip; every other effect of the
    /// transaction is stated exactly.
    pub fn post_formacion(&mut self, payload: FormacionPayload) -> (r: Result<
        FormationOutcome,
        ApiError,
    >)
        requires
            old(self).wf(),
        ensures
            final(self).wf(),
            formation_dispatch_post(
                *old(self),
                *final(self),
                payload.id_usuario,
                payload.id_partida,
                payload.formacion@,
                r,
            ),
    {
        let idx = match self.index_of(payload.id_partida) {
            Some(i) => i,
            None => {
                return Err(ApiError::NoSuchMatch);
            },
        };
        let ghost pre = self.partidas@[idx as int];
        let ghost vista_formacion = payload.formacion@;
        let r = self.partidas[idx].submit_formation(payload.id_usuario, payload.formacion);
        let api: Result<FormationOutcome, ApiError> = match r {
            Ok(outcome) => Ok(outcome),
            Err(_) => Err(ApiError::NotParticipant),
        };
        proof {
            let post = self.partidas@[idx as int];
            let coin = choose|coin: bool|
                formation_post(pre, post, payload.id_usuario, vista_formacion, coin, r);
            assert(formation_post(pre, post, payload.id_usuario, vista_formacion, coin, r));
            assert(formation_dispatch_post(
                *old(self),
                *self,
                payload.id_usuario,
                payload.id_partida,
                vista_formacion,
                api,
            ));
        }
        api
    }

    /// Routes a turn submission to its match: the submitter must be the
    /// current turn holder, the piece list must be present and well
    /// formed, and on success the turn is appended under the next sequence
    /// number with the holder rotated.
    pub fn post_jugada(&mut self, payload: &JugadaPayload, fecha_turno: i64) -> (r: Result<
        u64,
        ApiError,
    >)
        requires
            old(self).wf(),
            forall|j: int|
                0 <= j < old(self).partidas@.len() ==> (#[trigger] old(self).partidas@[j]).turnos@.len() < u64::MAX,
        ensures
            final(self).wf(),
            final(self).next_id == old(self).next_id,
            match find_match(old(self).partidas@, payload.id_partida) {
                None => r == Result::<u64, ApiError>::Err(ApiError::NoSuchMatch) && *final(self)
                    == *old(self),
                Some(k) => ({
                    let pre = old(self).partidas@[k];
                    let post = final(self).partidas@[k];
                    &&& (payload.jugada is None ==> r == Result::<u64, ApiError>::Err(
                        ApiError::MalformedPayload,
                    ) && *final(self) == *old(self))
                    &&& (payload.jugada matches Some(piezas) ==> {
                        &&& final(self).partidas@.len() == old(self).partidas@.len()
                        &&& (forall|j: int|
                            0 <= j < old(self).partidas@.len() && j != k
                                ==> final(self).partidas@[j] == old(self).partidas@[j])
                        &&& (pre.turno_actual != Some(payload.id_usuario) ==> r
                            == Result::<u64, ApiError>::Err(ApiError::OutOfTurn) && post == pre)
                        &&& (pre.turno_actual == Some(payload.id_usuario)
                            && !crate::transactions::jugada_valida(piezas@) ==> r
                            == Result::<u64, ApiError>::Err(ApiError::MalformedPayload)
                            && post == pre)
                        &&& (pre.turno_actual == Some(payload.id_usuario)
                            && crate::transactions::jugada_valida(piezas@) ==> {
                            &&& r == Result::<u64, ApiError>::Ok(
                                (pre.turnos@.len() + 1) as u64,
                            )
                            &&& post.turnos@.len() == pre.turnos@.len() + 1
                            &&& post.turnos@.last().id_usuario == payload.id_usuario
                            &&& post.turnos@.last().jugada@
                                == crate::transactions::etiquetar(piezas@, payload.id_usuario)
                            &&& post.turnos@.last().fecha_turno == fecha_turno
                            &&& post.turnos@.subrange(0, pre.turnos@.len() as int)
                                == pre.turnos@
                            &&& post.turno_actual == Some(
                                if payload.extiende {
                                    payload.id_usuario
                                } else {
                                    pre.other_participant(payload.id_usuario)
                                },
                            )
                        })
                    })
                }),
            },
    {
        let idx = match self.index_of(payload.id_partida) {
            Some(i) => i,
            None => {
                return Err(ApiError::NoSuchMatch);
            },
        };
        let piezas = match &payload.jugada {
            Some(p) => p,
            None => {
                return Err(ApiError::MalformedPayload);
            },
        };
        let r = self.partidas[idx].submit_turn(
            payload.id_usuario,
            piezas,
            fecha_turno,
            payload.extiende,
        );
        match r {
            Ok(numero) => Ok(numero),
            Err(TurnError::OutOfTurn) => Err(ApiError::OutOfTurn),
            Err(TurnError::MalformedPayload) => Err(ApiError::MalformedPayload),
        }
    }

    /// Routes a goal to its match and returns the updated score pair.
    pub fn post_gol(&mut self, payload: &GolPayload) -> (r: Result<(u32, u32), ApiError>)
        requires
            old(self).wf(),
            forall|j: int|
                0 <= j < old(self).partidas@.len() ==> (#[trigger] old(self).partidas@[j]).gol_j1 < u32::MAX && old(self).partidas@[j].gol_j2 < u32::MAX,
        ensures
            final(self).wf(),
            final(self).next_id == old(self).next_id,
            match find_match(old(self).partidas@, payload.id_partida) {
                None => r == Result::<(u32, u32), ApiError>::Err(ApiError::NoSuchMatch) && *final(self) == *old(self),
                Some(k) => ({
                    let pre = old(self).partidas@[k];
                    let post = final(self).partidas@[k];
                    &&& final(self).partidas@.len() == old(self).partidas@.len()
                    &&& (forall|j: int|
                        0 <= j < old(self).partidas@.len() && j != k
                            ==> final(self).partidas@[j] == old(self).partidas@[j])
                    &&& (payload.id_goleador == pre.id_jugador1 ==> post.gol_j1 == pre.gol_j1 + 1
                        && post.gol_j2 == pre.gol_j2)
                    &&& (payload.id_goleador != pre.id_jugador1 ==> post.gol_j2 == pre.gol_j2 + 1
                        && post.gol_j1 == pre.gol_j1)
                    &&& r == Result::<(u32, u32), ApiError>::Ok((post.gol_j1, post.gol_j2))
                    &&& post.turnos == pre.turnos
                    &&& post.formaciones == pre.formaciones
                    &&& post.turno_actual == pre.turno_actual
                    &&& post.estado == pre.estado
                }),
            },
    {
        let idx = match self.index_of(payload.id_partida) {
            Some(i) => i,
            None => {
                return Err(ApiError::NoSuchMatch);
            },
        };
        let marcador = self.partidas[idx].record_goal(payload.id_goleador);
        Ok(marcador)
    }

    /// The turn history of one match, oldest first, or nothing when the
    /// match does not exist.
    pub fn get_estado(&self, id_partida: i32) -> (r: Option<Vec<crate::match_state::TurnoData>>)
        requires
            self.wf(),
        ensures
            match r {
                Some(turnos) => find_match(self.partidas@, id_partida) matches Some(k)
                    && crate::match_state::turnos_eq(turnos@, self.partidas@[k].turnos@),
                None => find_match(self.partidas@, id_partida) is None,
            },
    {
        match self.index_of(id_partida) {
            Some(i) => Some(self.partidas[i].turn_history()),
            None => None,
        }
    }

    /// Builds the snapshot of one match under the given participant names,
    /// or nothing when the match does not exist.
    pub fn get_snapshot(
        &self,
        id_partida: i32,
        nombre_jugador_1: String,
        nombre_jugador_2: String,
    ) -> (r: Option<Snapshot>)
        requires
            self.wf(),
        ensures
            match r {
                Some(snap) => find_match(self.partidas@, id_partida) matches Some(k)
                    && snapshot_matches(
                    self.partidas@[k],
                    nombre_jugador_1@,
                    nombre_jugador_2@,
                    snap,
                ),
                None => find_match(self.partidas@, id_partida) is None,
            },
    {
        match self.index_of(id_partida) {
            Some(i) => Some(
                build_snapshot(&self.partidas[i], nombre_jugador_1, nombre_jugador_2),
            ),
            None => None,
        }
    }

    /// Whether a live session of this identity may be admitted to this
    /// match: the match must exist and the identity must have a formation
    /// choice on record for it.
    pub fn admit_session(&self, id_partida: i32, id_usuario: i32) -> (r: bool)
        requires
            self.wf(),
        ensures
            r <==> match find_match(self.partidas@, id_partida) {
                Some(k) => ({
                    let m = self.partidas@[k];
                    exists|i: int|
                        0 <= i < m.formaciones@.len() && (#[trigger] m.formaciones@[i]).id_usuario
                            == id_usuario
                }),
                None => false,
            },
    {
        match self.index_of(id_partida) {
            Some(i) => self.partidas[i].has_formation_of(id_usuario),
            None => false,
        }
    }
}

} // verus!
