//! The two transactions that drive a match forward: formation completion
//! (which draws the start order exactly once and opens play) and turn
//! submission (which authorizes the submitter, appends to the ledger with
//! the next sequence number, and rotates the turn holder).
//!
//! Both are written against an exclusively borrowed match record, so the
//! read validation and the conditional write of each transaction observe
//! one consistent state, exactly as a serialized database transaction
//! would. In particular the next turn number is derived from the ledger
//! inside the same borrow that appends the row, so no two submissions can
//! draw the same number and the sequencing-conflict path of a concurrent
//! store can never arise here.

use vstd::prelude::*;

use crate::match_state::{FormacionData, MatchState, MatchStatus, PiezaEntrada, PiezaPos, TurnoData};

verus! {

/// Why a turn submission was rejected. `OutOfTurn` covers every submitter
/// that is not the current turn holder, including submissions before play
/// has started; `MalformedPayload` covers piece lists with missing fields.
#[derive(Clone, Copy, PartialEq, Eq, Structural, Debug)]
pub enum TurnError {
    OutOfTurn,
    MalformedPayload,
}

/// Why a formation submission was rejected.
#[derive(Clone, Copy, PartialEq, Eq, Structural, Debug)]
pub enum FormationError {
    NotParticipant,
}

/// What a formation submission achieved: recorded but still waiting for the
/// other side, recorded and the match just started (carrying the identity
/// of the participant who drew start order 1), or recorded while the match
/// had already started.
#[derive(Clone, Copy, PartialEq, Eq, Structural, Debug)]
pub enum FormationOutcome {
    RecordedWaiting,
    Started(i32),
    AlreadyStarted,
}

/// Ghost mirror of one formation row, used to state formation transitions.
pub ghost struct FormRow {
    pub id_usuario: i32,
    pub formacion: Seq<char>,
    pub turno_inicio: u32,
}

/// The formation registry of a match as a sequence of ghost rows.
pub open spec fn form_model(rows: Seq<FormacionData>) -> Seq<FormRow> {
    rows.map_values(
        |f: FormacionData|
            FormRow { id_usuario: f.id_usuario, formacion: f.formacion@, turno_inicio: f.turno_inicio },
    )
}

/// Index of the first row registered by `uid`, if any.
pub open spec fn find_row(rows: Seq<FormRow>, uid: i32) -> Option<int>
    decreases rows.len(),
{
    if rows.len() == 0 {
        None
    } else if rows[0].id_usuario == uid {
        Some(0int)
    } else {
        match find_row(rows.drop_first(), uid) {
            Some(i) => Some(i + 1),
            None => None,
        }
    }
}

/// The registry after `uid` records the layout `formacion`: an existing row
/// keeps its start order and has only the layout replaced, a new row is
/// appended with the start order still unset.
pub open spec fn upsert_row(rows: Seq<FormRow>, uid: i32, formacion: Seq<char>) -> Seq<FormRow> {
    match find_row(rows, uid) {
        Some(k) => rows.update(
            k,
            FormRow { id_usuario: uid, formacion, turno_inicio: rows[k].turno_inicio },
        ),
        None => rows.push(FormRow { id_usuario: uid, formacion, turno_inicio: 0 }),
    }
}

/// The registry after the start-order draw gave order 1 to `primero`.
pub open spec fn assign_orders(rows: Seq<FormRow>, primero: i32) -> Seq<FormRow> {
    rows.map_values(
        |r: FormRow|
            FormRow {
                id_usuario: r.id_usuario,
                formacion: r.formacion,
                turno_inicio: if r.id_usuario == primero {
                    1u32
                } else {
                    2u32
                },
            },
    )
}

/// Full deterministic postcondition of one formation submission, given the
/// coin that would decide a fresh start-order draw. `submit_formation`
/// guarantees it for whatever its coin flip returned.
pub open spec fn formation_post(
    pre: MatchState,
    post: MatchState,
    id_usuario: i32,
    formacion: Seq<char>,
    coin: bool,
    r: Result<FormationOutcome, FormationError>,
) -> bool {
    let rows1 = upsert_row(form_model(pre.formaciones@), id_usuario, formacion);
    &&& post.id_partida == pre.id_partida
    &&& post.id_jugador1 == pre.id_jugador1
    &&& post.id_jugador2 == pre.id_jugador2
    &&& post.fecha_inicio == pre.fecha_inicio
    &&& post.gol_j1 == pre.gol_j1
    &&& post.gol_j2 == pre.gol_j2
    &&& post.turnos == pre.turnos
    &&& if !pre.is_participant(id_usuario) {
        &&& r == Result::<FormationOutcome, FormationError>::Err(FormationError::NotParticipant)
        &&& post.formaciones == pre.formaciones
        &&& post.estado == pre.estado
        &&& post.turno_actual == pre.turno_actual
    } else if rows1.len() < 2 {
        // Still waiting for the other side: no state transition.
        &&& r == Result::<FormationOutcome, FormationError>::Ok(FormationOutcome::RecordedWaiting)
        &&& form_model(post.formaciones@) == rows1
        &&& post.estado == pre.estado
        &&& post.turno_actual == pre.turno_actual
    } else if pre.orders_set() {
        // Re-submission after the start: the layout may change, but the
        // draw is not re-run and the turn holder is untouched.
        &&& r == Result::<FormationOutcome, FormationError>::Ok(FormationOutcome::AlreadyStarted)
        &&& form_model(post.formaciones@) == rows1
        &&& post.estado == pre.estado
        &&& post.turno_actual == pre.turno_actual
    } else {
        // The pair is complete and no order was drawn yet: the coin decides
        // who acts first, and play opens.
        let primero = if coin {
            rows1[0].id_usuario
        } else {
            rows1[1].id_usuario
        };
        &&& r == Result::<FormationOutcome, FormationError>::Ok(FormationOutcome::Started(primero))
        &&& form_model(post.formaciones@) == assign_orders(rows1, primero)
        &&& post.estado == MatchStatus::Playing
        &&& post.turno_actual == Some(primero)
    }
}

/// A coin flip for the start-order draw.
///
/// Relies on rand::random::<bool>: either outcome may come back, and the
/// contract promises nothing about which.
#[verifier::external_body]
fn coin_flip() -> bool {
    rand::random::<bool>()
}

/// A piece of an incoming payload carries both coordinates.
pub open spec fn pieza_valida(p: PiezaEntrada) -> bool {
    p.x is Some && p.y is Some
}

/// Every piece of the payload is well formed.
pub open spec fn jugada_valida(piezas: Seq<PiezaEntrada>) -> bool {
    forall|i: int| 0 <= i < piezas.len() ==> pieza_valida(#[trigger] piezas[i])
}

/// The payload's pieces with every owner tag replaced by the authoritative
/// identity of the submitter; the client's own tags are never trusted.
pub open spec fn etiquetar(piezas: Seq<PiezaEntrada>, id_usuario: i32) -> Seq<PiezaPos>
    recommends
        jugada_valida(piezas),
{
    piezas.map_values(
        |p: PiezaEntrada| PiezaPos { id_usuario_real: id_usuario, x: p.x.unwrap(), y: p.y.unwrap() },
    )
}

impl MatchState {
    /// The formation-completion transaction, deterministic in the coin that
    /// decides a fresh start-order draw.
    ///
    /// Upserts the submitter's row; with fewer than two rows on record it
    /// stops there. The first submission that completes the pair assigns
    /// start orders 1 and 2 as the coin directs, sets the match playing and
    /// hands the turn to the order-1 participant. Any later re-submission
    /// finds the orders already set and leaves order, status and turn
    /// holder untouched.
    pub fn apply_formation_submission(
        &mut self,
        id_usuario: i32,
        formacion: String,
        coin: bool,
    ) -> (r: Result<FormationOutcome, FormationError>)
        requires
            old(self).wf(),
        ensures
            final(self).wf(),
            formation_post(*old(self), *final(self), id_usuario, formacion@, coin, r),
            !old(self).is_participant(id_usuario) ==> *final(self) == *old(self),
    {
        if id_usuario != self.id_jugador1 && id_usuario != self.id_jugador2 {
            return Err(FormationError::NotParticipant);
        }
        let ghost rows0 = form_model(self.formaciones@);
        let ghost rows1 = upsert_row(rows0, id_usuario, formacion@);

        // Upsert the submitter's row, keeping any start order it already has.
        let mut idx: usize = 0;
        let mut found: bool = false;
        while idx < self.formaciones.len() && !found
            invariant
                idx <= self.formaciones.len(),
                found ==> idx < self.formaciones.len() && self.formaciones@[idx as int].id_usuario
                    == id_usuario && find_row(form_model(self.formaciones@), id_usuario) == Some(
                    idx as int,
                ),
                !found ==> forall|j: int|
                    0 <= j < idx ==> (#[trigger] self.formaciones@[j]).id_usuario != id_usuario,
            decreases self.formaciones.len() - idx + if found {
                0int
            } else {
                1int
            },
        {
            if self.formaciones[idx].id_usuario == id_usuario {
                found = true;
                proof {
                    lemma_find_row_first(form_model(self.formaciones@), id_usuario, idx as int);
                }
            } else {
                idx += 1;
            }
        }
        if found {
            self.formaciones[idx].formacion = formacion;
            proof {
                assert(form_model(self.formaciones@) =~= rows1);
            }
        } else {
            proof {
                lemma_find_row_none(rows0, id_usuario);
            }
            self.formaciones.push(
                FormacionData { id_usuario, formacion, turno_inicio: 0 },
            );
            proof {
                assert(form_model(self.formaciones@) =~= rows1);
            }
        }

        if self.formaciones.len() < 2 {
            return Ok(FormationOutcome::RecordedWaiting);
        }

        // The start order is drawn exactly once: a nonzero order on record
        // is the guard against re-running the draw.
        if self.formaciones[0].turno_inicio != 0 || self.formaciones[1].turno_inicio != 0 {
            return Ok(FormationOutcome::AlreadyStarted);
        }

        let a = self.formaciones[0].id_usuario;
        let b = self.formaciones[1].id_usuario;
        let primero = if coin {
            a
        } else {
            b
        };
        let orden0: u32 = if self.formaciones[0].id_usuario == primero {
            1
        } else {
            2
        };
        let orden1: u32 = if self.formaciones[1].id_usuario == primero {
            1
        } else {
            2
        };
        self.formaciones[0].turno_inicio = orden0;
        self.formaciones[1].turno_inicio = orden1;
        self.estado = MatchStatus::Playing;
        self.turno_actual = Some(primero);
        proof {
            assert(form_model(self.formaciones@) =~= assign_orders(rows1, primero));
        }
        Ok(FormationOutcome::Started(primero))
    }

    /// The formation-completion transaction as the service runs it: the
    /// start-order draw, when one is due, is decided by a coin flip.
    pub fn submit_formation(&mut self, id_usuario: i32, formacion: String) -> (r: Result<
        FormationOutcome,
        FormationError,
    >)
        requires
            old(self).wf(),
        ensures
            final(self).wf(),
            exists|coin: bool|
                formation_post(*old(self), *final(self), id_usuario, formacion@, coin, r),
            !old(self).is_participant(id_usuario) ==> *final(self) == *old(self),
    {
        let coin = coin_flip();
        let r = self.apply_formation_submission(id_usuario, formacion, coin);
        proof {
            assert(formation_post(*old(self), *self, id_usuario, formacion@, coin, r));
        }
        r
    }

    /// The turn-submission transaction.
    ///
    /// Rejects any submitter that is not the current turn holder without
    /// touching the state; rejects a malformed piece list before any write;
    /// otherwise appends the turn under the next sequence number with every
    /// piece tagged with the submitter's identity, and hands the turn to
    /// the other participant — unless the submission carries the
    /// turn-extension flag, in which case the holder is unchanged.
    pub fn submit_turn(
        &mut self,
        id_usuario: i32,
        piezas: &Vec<PiezaEntrada>,
        fecha_turno: i64,
        extiende: bool,
    ) -> (r: Result<u64, TurnError>)
        requires
            old(self).wf(),
            old(self).turnos@.len() < u64::MAX,
        ensures
            final(self).wf(),
            old(self).turno_actual != Some(id_usuario) ==> r == Result::<u64, TurnError>::Err(
                TurnError::OutOfTurn,
            ) && *final(self) == *old(self),
            old(self).turno_actual == Some(id_usuario) && !jugada_valida(piezas@) ==> r
                == Result::<u64, TurnError>::Err(TurnError::MalformedPayload) && *final(self)
                == *old(self),
            old(self).turno_actual == Some(id_usuario) && jugada_valida(piezas@) ==> {
                &&& r == Result::<u64, TurnError>::Ok((old(self).turnos@.len() + 1) as u64)
                &&& final(self).turnos@.len() == old(self).turnos@.len() + 1
                &&& final(self).turnos@.subrange(0, old(self).turnos@.len() as int) == old(
                    self,
                ).turnos@
                &&& final(self).turnos@.last().numero_turno == old(self).turnos@.len() + 1
                &&& final(self).turnos@.last().id_usuario == id_usuario
                &&& final(self).turnos@.last().jugada@ == etiquetar(piezas@, id_usuario)
                &&& final(self).turnos@.last().fecha_turno == fecha_turno
                &&& final(self).turno_actual == Some(
                    if extiende {
                        id_usuario
                    } else {
                        old(self).other_participant(id_usuario)
                    },
                )
                &&& final(self).estado == old(self).estado
                &&& final(self).formaciones == old(self).formaciones
                &&& final(self).gol_j1 == old(self).gol_j1
                &&& final(self).gol_j2 == old(self).gol_j2
                &&& final(self).id_partida == old(self).id_partida
                &&& final(self).id_jugador1 == old(self).id_jugador1
                &&& final(self).id_jugador2 == old(self).id_jugador2
                &&& final(self).fecha_inicio == old(self).fecha_inicio
            },
    {
        // Authorization and the writes below observe the same exclusively
        // borrowed state: no other submission can interleave.
        let autorizado = match self.turno_actual {
            Some(u) => u == id_usuario,
            None => false,
        };
        if !autorizado {
            return Err(TurnError::OutOfTurn);
        }

        // Validate the payload shape before any write.
        let mut i: usize = 0;
        while i < piezas.len()
            invariant
                i <= piezas.len(),
                forall|j: int| 0 <= j < i ==> pieza_valida(#[trigger] piezas@[j]),
                *self == *old(self),
                old(self).wf(),
                old(self).turno_actual == Some(id_usuario),
            decreases piezas.len() - i,
        {
            if piezas[i].x.is_none() || piezas[i].y.is_none() {
                return Err(TurnError::MalformedPayload);
            }
            i += 1;
        }

        // Next sequence number: the ledger is gap-free, so its length is
        // the highest number on record.
        let numero_turno: u64 = (self.turnos.len() as u64) + 1;

        // Tag every piece with the submitter's identity.
        let mut jugada: Vec<PiezaPos> = Vec::new();
        let mut k: usize = 0;
        while k < piezas.len()
            invariant
                k <= piezas.len(),
                jugada_valida(piezas@),
                jugada@ == etiquetar(piezas@.subrange(0, k as int), id_usuario),
                *self == *old(self),
                old(self).wf(),
                old(self).turnos@.len() < u64::MAX,
                old(self).turno_actual == Some(id_usuario),
                numero_turno == old(self).turnos@.len() + 1,
            decreases piezas.len() - k,
        {
            let p = piezas[k];
            jugada.push(
                PiezaPos { id_usuario_real: id_usuario, x: p.x.unwrap(), y: p.y.unwrap() },
            );
            proof {
                assert(piezas@.subrange(0, k + 1).drop_last() =~= piezas@.subrange(0, k as int));
                assert(jugada@ =~= etiquetar(piezas@.subrange(0, k + 1), id_usuario));
            }
            k += 1;
        }
        proof {
            assert(piezas@.subrange(0, piezas@.len() as int) =~= piezas@);
        }

        self.turnos.push(TurnoData { numero_turno, id_usuario, jugada, fecha_turno });

        // Rotate the turn holder, unless this turn extends itself.
        let siguiente = if extiende {
            id_usuario
        } else if id_usuario == self.id_jugador1 {
            self.id_jugador2
        } else {
            self.id_jugador1
        };
        self.turno_actual = Some(siguiente);

        proof {
            assert(final(self).turnos@.subrange(0, old(self).turnos@.len() as int) =~= old(
                self,
            ).turnos@);
        }
        Ok(numero_turno)
    }
}

/// If the head of `rows` up to `k` avoids `uid` and row `k` carries it,
/// then `k` is the first match.
proof fn lemma_find_row_first(rows: Seq<FormRow>, uid: i32, k: int)
    requires
        0 <= k < rows.len(),
        rows[k].id_usuario == uid,
        forall|j: int| 0 <= j < k ==> (#[trigger] rows[j]).id_usuario != uid,
    ensures
        find_row(rows, uid) == Some(k),
    decreases k,
{
    if k == 0 {
    } else {
        lemma_find_row_first(rows.drop_first(), uid, k - 1);
    }
}

/// If no row carries `uid`, the search comes back empty.
proof fn lemma_find_row_none(rows: Seq<FormRow>, uid: i32)
    requires
        forall|j: int| 0 <= j < rows.len() ==> (#[trigger] rows[j]).id_usuario != uid,
    ensures
        find_row(rows, uid) is None,
    decreases rows.len(),
{
    if rows.len() > 0 {
        lemma_find_row_none(rows.drop_first(), uid);
    }
}

} // verus!
