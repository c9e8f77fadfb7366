//! The snapshot builder: one consistent, self-describing read of a match —
//! status, score, formation choices, the full turn ledger with every piece
//! re-tagged with its turn's real acting participant, and the next turn
//! holder. A snapshot is derived, never stored back, and is the protocol's
//! unit of truth: a client that has one needs nothing else.

use vstd::prelude::*;

use crate::match_state::{FormacionData, MatchState, MatchStatus, PiezaPos, TurnoData};
use crate::transactions::form_model;

verus! {

/// A full, self-consistent description of a match as sent to clients.
/// With fewer than two formations on record the snapshot is formation-only:
/// empty turn list, no turn holder, zero score.
#[derive(Debug)]
pub struct Snapshot {
    pub estado: MatchStatus,
    pub marcador: (u32, u32),
    pub formaciones: Vec<FormacionData>,
    pub turnos: Vec<TurnoData>,
    pub proximo_turno: Option<i32>,
    pub nombre_jugador_1: String,
    pub nombre_jugador_2: String,
}

/// The pieces of one ledger row with every tag replaced by the row's acting
/// participant: the authoritative ownership a client can rely on.
pub open spec fn enriquecer(t: TurnoData) -> Seq<PiezaPos> {
    t.jugada@.map_values(
        |p: PiezaPos| PiezaPos { id_usuario_real: t.id_usuario, x: p.x, y: p.y },
    )
}

/// What it means for `snap` to be the snapshot of match state `s` under the
/// given participant names. This is the whole contract of the builder.
pub open spec fn snapshot_matches(
    s: MatchState,
    n1: Seq<char>,
    n2: Seq<char>,
    snap: Snapshot,
) -> bool {
    &&& snap.estado == s.estado
    &&& snap.nombre_jugador_1@ == n1
    &&& snap.nombre_jugador_2@ == n2
    &&& form_model(snap.formaciones@) == form_model(s.formaciones@)
    &&& if s.formaciones@.len() < 2 {
        &&& snap.marcador == (0u32, 0u32)
        &&& snap.turnos@.len() == 0
        &&& snap.proximo_turno is None
    } else {
        &&& snap.marcador == (s.gol_j1, s.gol_j2)
        &&& snap.proximo_turno == s.turno_actual
        &&& snap.turnos@.len() == s.turnos@.len()
        &&& forall|i: int|
            0 <= i < s.turnos@.len() ==> {
                &&& (#[trigger] snap.turnos@[i]).numero_turno == s.turnos@[i].numero_turno
                &&& snap.turnos@[i].id_usuario == s.turnos@[i].id_usuario
                &&& snap.turnos@[i].fecha_turno == s.turnos@[i].fecha_turno
                &&& snap.turnos@[i].jugada@ == enriquecer(s.turnos@[i])
            }
    }
}

/// Builds the snapshot of `s`. Pure read-side assembly against one borrow
/// of the state, so the result can never mix pre- and post-transaction
/// reads. If the turn holder is unset the snapshot reports it honestly
/// rather than inventing one.
pub fn build_snapshot(
    s: &MatchState,
    nombre_jugador_1: String,
    nombre_jugador_2: String,
) -> (snap: Snapshot)
    requires
        s.wf(),
    ensures
        snapshot_matches(*s, nombre_jugador_1@, nombre_jugador_2@, snap),
{
    // Copy the formation registry.
    let mut formaciones: Vec<FormacionData> = Vec::new();
    let mut i: usize = 0;
    while i < s.formaciones.len()
        invariant
            i <= s.formaciones.len(),
            formaciones@.len() == i,
            forall|j: int| 0 <= j < i ==> #[trigger] formaciones@[j] == s.formaciones@[j],
        decreases s.formaciones.len() - i,
    {
        formaciones.push(s.formaciones[i].clone());
        i += 1;
    }
    proof {
        assert(formaciones@ =~= s.formaciones@);
    }

    if formaciones.len() < 2 {
        return Snapshot {
            estado: s.estado,
            marcador: (0, 0),
            formaciones,
            turnos: Vec::new(),
            proximo_turno: None,
            nombre_jugador_1,
            nombre_jugador_2,
        };
    }

    // Copy the ledger, tagging every piece of every turn with the turn's
    // acting participant.
    let mut turnos: Vec<TurnoData> = Vec::new();
    let mut t: usize = 0;
    while t < s.turnos.len()
        invariant
            t <= s.turnos.len(),
            turnos@.len() == t,
            forall|j: int|
                0 <= j < t ==> {
                    &&& (#[trigger] turnos@[j]).numero_turno == s.turnos@[j].numero_turno
                    &&& turnos@[j].id_usuario == s.turnos@[j].id_usuario
                    &&& turnos@[j].fecha_turno == s.turnos@[j].fecha_turno
                    &&& turnos@[j].jugada@ == enriquecer(s.turnos@[j])
                },
        decreases s.turnos.len() - t,
    {
        let fila = &s.turnos[t];
        let mut jugada: Vec<PiezaPos> = Vec::new();
        let mut p: usize = 0;
        while p < fila.jugada.len()
            invariant
                p <= fila.jugada.len(),
                jugada@.len() == p,
                forall|q: int|
                    0 <= q < p ==> #[trigger] jugada@[q] == (PiezaPos {
                        id_usuario_real: fila.id_usuario,
                        x: fila.jugada@[q].x,
                        y: fila.jugada@[q].y,
                    }),
            decreases fila.jugada.len() - p,
        {
            let pieza = fila.jugada[p];
            jugada.push(
                PiezaPos { id_usuario_real: fila.id_usuario, x: pieza.x, y: pieza.y },
            );
            p += 1;
        }
        proof {
            assert(jugada@ =~= enriquecer(s.turnos@[t as int]));
        }
        turnos.push(
            TurnoData {
                numero_turno: fila.numero_turno,
                id_usuario: fila.id_usuario,
                jugada,
                fecha_turno: fila.fecha_turno,
            },
        );
        t += 1;
    }

    Snapshot {
        estado: s.estado,
        marcador: (s.gol_j1, s.gol_j2),
        formaciones,
        turnos,
        proximo_turno: s.turno_actual,
        nombre_jugador_1,
        nombre_jugador_2,
    }
}

} // verus!
