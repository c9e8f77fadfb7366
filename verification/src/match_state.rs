//! The authoritative per-match record: status, participants, score, the
//! current turn holder, the formation registry and the append-only turn
//! ledger. Every transaction on a match preserves the well-formedness
//! invariant `wf`, whose heart is that turn numbers form a gap-free,
//! strictly increasing sequence starting at 1.

use vstd::prelude::*;

verus! {

/// Lifecycle of a match: formations are being collected, play is under way,
/// or the match is over.
#[derive(Clone, Copy, PartialEq, Eq, Structural, Debug)]
pub enum MatchStatus {
    Forming,
    Playing,
    Finished,
}

/// One piece of a recorded layout, tagged with the real identity of the
/// participant that submitted the turn it belongs to. Coordinates are held
/// in fixed-point milli-units so that the record is exact.
#[derive(Clone, Copy, PartialEq, Eq, Structural, Debug)]
pub struct PiezaPos {
    pub id_usuario_real: i32,
    pub x: i64,
    pub y: i64,
}

/// One piece of an incoming turn payload, exactly as the submitter sent it:
/// the owner tag is the submitter's claim and is never trusted, and either
/// coordinate may be missing from a malformed payload.
#[derive(Clone, Copy, PartialEq, Eq, Debug)]
pub struct PiezaEntrada {
    pub claimed_owner: i32,
    pub x: Option<i64>,
    pub y: Option<i64>,
}

/// A participant's chosen starting layout for a match. `turno_inicio` is 0
/// until the start order is drawn, then 1 for the participant who acts first
/// and 2 for the other; once set it is never changed.
#[derive(Debug)]
pub struct FormacionData {
    pub id_usuario: i32,
    pub formacion: String,
    pub turno_inicio: u32,
}

impl Clone for FormacionData {
    fn clone(&self) -> (res: Self)
        ensures
            res == *self,
    {
        FormacionData {
            id_usuario: self.id_usuario,
            formacion: self.formacion.clone(),
            turno_inicio: self.turno_inicio,
        }
    }
}

/// One completed turn in the ledger: its number, the acting participant,
/// the resulting layout and a timestamp in milliseconds.
#[derive(Debug)]
pub struct TurnoData {
    pub numero_turno: u64,
    pub id_usuario: i32,
    pub jugada: Vec<PiezaPos>,
    pub fecha_turno: i64,
}

/// Two turn rows carry the same record. Stated field by field, over the view
/// of the piece list, so that a faithful copy satisfies it.
pub open spec fn turno_eq(a: TurnoData, b: TurnoData) -> bool {
    &&& a.numero_turno == b.numero_turno
    &&& a.id_usuario == b.id_usuario
    &&& a.jugada@ == b.jugada@
    &&& a.fecha_turno == b.fecha_turno
}

/// Two turn ledgers carry the same records, row by row.
pub open spec fn turnos_eq(a: Seq<TurnoData>, b: Seq<TurnoData>) -> bool {
    &&& a.len() == b.len()
    &&& forall|i: int| 0 <= i < a.len() ==> turno_eq(#[trigger] a[i], b[i])
}

impl Clone for TurnoData {
    fn clone(&self) -> (res: Self)
        ensures
            turno_eq(res, *self),
    {
        let mut jugada: Vec<PiezaPos> = Vec::new();
        let mut i: usize = 0;
        while i < self.jugada.len()
            invariant
                i <= self.jugada.len(),
                jugada@ == self.jugada@.subrange(0, i as int),
            decreases self.jugada.len() - i,
        {
            jugada.push(self.jugada[i]);
            assert(jugada@ =~= self.jugada@.subrange(0, i + 1));
            i += 1;
        }
        assert(jugada@ =~= self.jugada@);
        TurnoData {
            numero_turno: self.numero_turno,
            id_usuario: self.id_usuario,
            jugada,
            fecha_turno: self.fecha_turno,
        }
    }
}

/// The authoritative state of one match, the single source of truth that
/// both clients reconcile against.
#[derive(Debug)]
pub struct MatchState {
    pub id_partida: i32,
    pub id_jugador1: i32,
    pub id_jugador2: i32,
    pub fecha_inicio: Option<i64>,
    pub estado: MatchStatus,
    pub gol_j1: u32,
    pub gol_j2: u32,
    pub turno_actual: Option<i32>,
    pub formaciones: Vec<FormacionData>,
    pub turnos: Vec<TurnoData>,
}

impl MatchState {
    /// Whether `u` is one of the two registered participants.
    pub open spec fn is_participant(self, u: i32) -> bool {
        u == self.id_jugador1 || u == self.id_jugador2
    }

    /// The other registered participant.
    pub open spec fn other_participant(self, u: i32) -> i32 {
        if u == self.id_jugador1 {
            self.id_jugador2
        } else {
            self.id_jugador1
        }
    }

    /// All recorded formation rows still await the start-order draw.
    pub open spec fn orders_unset(self) -> bool {
        forall|i: int|
            0 <= i < self.formaciones@.len() ==> (#[trigger] self.formaciones@[i]).turno_inicio
                == 0
    }

    /// The start order has been drawn: both rows exist and hold 1 and 2.
    pub open spec fn orders_set(self) -> bool {
        &&& self.formaciones@.len() == 2
        &&& {
            ||| (self.formaciones@[0].turno_inicio == 1 && self.formaciones@[1].turno_inicio == 2)
            ||| (self.formaciones@[0].turno_inicio == 2 && self.formaciones@[1].turno_inicio == 1)
        }
    }

    /// The participant whose formation row drew start order 1.
    pub open spec fn start_player(self) -> i32
        recommends
            self.orders_set(),
    {
        if self.formaciones@[0].turno_inicio == 1 {
            self.formaciones@[0].id_usuario
        } else {
            self.formaciones@[1].id_usuario
        }
    }

    /// Well-formedness of a match record. Established by `new` and preserved
    /// by every transaction.
    pub open spec fn wf(self) -> bool {
        &&& self.id_jugador1 != self.id_jugador2
        &&& forall|i: int|
            0 <= i < self.turnos@.len() ==> (#[trigger] self.turnos@[i]).numero_turno == i + 1
        &&& forall|i: int|
            0 <= i < self.turnos@.len() ==> self.is_participant(
                (#[trigger] self.turnos@[i]).id_usuario,
            )
        &&& self.formaciones@.len() <= 2
        &&& forall|i: int|
            0 <= i < self.formaciones@.len() ==> self.is_participant(
                (#[trigger] self.formaciones@[i]).id_usuario,
            )
        &&& forall|i: int, j: int|
            0 <= i < j < self.formaciones@.len() ==> (#[trigger] self.formaciones@[i]).id_usuario
                != (#[trigger] self.formaciones@[j]).id_usuario
        &&& self.orders_set() || self.orders_unset()
        &&& (self.orders_set() <==> self.estado != MatchStatus::Forming)
        &&& match self.turno_actual {
            Some(u) => self.is_participant(u) && self.estado != MatchStatus::Forming,
            None => self.estado == MatchStatus::Forming,
        }
        &&& (self.estado == MatchStatus::Forming ==> self.turnos@.len() == 0)
    }

    /// A fresh match record: no formations, no turns, no turn holder.
    pub fn new(id_partida: i32, id_jugador1: i32, id_jugador2: i32, fecha_inicio: Option<i64>) -> (
        s: Self)
        requires
            id_jugador1 != id_jugador2,
        ensures
            s.wf(),
            s.id_partida == id_partida,
            s.id_jugador1 == id_jugador1,
            s.id_jugador2 == id_jugador2,
            s.fecha_inicio == fecha_inicio,
            s.estado == MatchStatus::Forming,
            s.gol_j1 == 0 && s.gol_j2 == 0,
            s.turno_actual is None,
            s.formaciones@.len() == 0,
            s.turnos@.len() == 0,
    {
        MatchState {
            id_partida,
            id_jugador1,
            id_jugador2,
            fecha_inicio,
            estado: MatchStatus::Forming,
            gol_j1: 0,
            gol_j2: 0,
            turno_actual: None,
            formaciones: Vec::new(),
            turnos: Vec::new(),
        }
    }

    /// Membership check used to admit a live session: the connecting
    /// identity must already have a formation choice on record.
    pub fn has_formation_of(&self, id_usuario: i32) -> (r: bool)
        ensures
            r <==> exists|i: int|
                0 <= i < self.formaciones@.len() && (#[trigger] self.formaciones@[i]).id_usuario
                    == id_usuario,
    {
        let mut i: usize = 0;
        while i < self.formaciones.len()
            invariant
                i <= self.formaciones.len(),
                forall|j: int|
                    0 <= j < i ==> (#[trigger] self.formaciones@[j]).id_usuario != id_usuario,
            decreases self.formaciones.len() - i,
        {
            if self.formaciones[i].id_usuario == id_usuario {
                return true;
            }
            i += 1;
        }
        false
    }

    /// Records a goal for the given scorer: the first participant's counter
    /// is bumped when the scorer is participant 1, the second one's
    /// otherwise. Returns the updated score pair.
    pub fn record_goal(&mut self, id_goleador: i32) -> (marcador: (u32, u32))
        requires
            old(self).wf(),
            id_goleador == old(self).id_jugador1 ==> old(self).gol_j1 < u32::MAX,
            id_goleador != old(self).id_jugador1 ==> old(self).gol_j2 < u32::MAX,
        ensures
            final(self).wf(),
            id_goleador == old(self).id_jugador1 ==> final(self).gol_j1 == old(self).gol_j1 + 1
                && final(self).gol_j2 == old(self).gol_j2,
            id_goleador != old(self).id_jugador1 ==> final(self).gol_j2 == old(self).gol_j2 + 1
                && final(self).gol_j1 == old(self).gol_j1,
            marcador == (final(self).gol_j1, final(self).gol_j2),
            final(self).id_partida == old(self).id_partida,
            final(self).id_jugador1 == old(self).id_jugador1,
            final(self).id_jugador2 == old(self).id_jugador2,
            final(self).fecha_inicio == old(self).fecha_inicio,
            final(self).estado == old(self).estado,
            final(self).turno_actual == old(self).turno_actual,
            final(self).formaciones == old(self).formaciones,
            final(self).turnos == old(self).turnos,
    {
        if id_goleador == self.id_jugador1 {
            self.gol_j1 = self.gol_j1 + 1;
        } else {
            self.gol_j2 = self.gol_j2 + 1;
        }
        (self.gol_j1, self.gol_j2)
    }

    /// The full turn history, oldest first, as an owned copy.
    pub fn turn_history(&self) -> (r: Vec<TurnoData>)
        ensures
            turnos_eq(r@, self.turnos@),
    {
        let mut r: Vec<TurnoData> = Vec::new();
        let mut i: usize = 0;
        while i < self.turnos.len()
            invariant
                i <= self.turnos.len(),
                r@.len() == i,
                forall|j: int| 0 <= j < i ==> turno_eq(#[trigger] r@[j], self.turnos@[j]),
            decreases self.turnos.len() - i,
        {
            r.push(self.turnos[i].clone());
            i += 1;
        }
        r
    }
}

} // verus!
