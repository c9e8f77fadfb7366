//! The protocol's global guarantees, stated and proved as theorems over
//! the contracts of the transactions, the snapshot builder and the client
//! applier.

use vstd::prelude::*;

use crate::client::{apply_model, snap_watermark, snapshot_offered, step_model, GameModel};
use crate::match_state::{MatchState, MatchStatus, PiezaEntrada, PiezaPos};
use crate::snapshot::{enriquecer, snapshot_matches, Snapshot};
use crate::transactions::{etiquetar, find_row, form_model, formation_post, jugada_valida,
    upsert_row, FormRow};

verus! {

/// Law: in every well-formed match, the ledger's turn numbers form a
/// gap-free, strictly increasing sequence starting at 1 — the number of a
/// row is exactly its position plus one, so no number is skipped and none
/// repeats.
pub proof fn lemma_turn_numbers_gap_free(s: MatchState)
    requires
        s.wf(),
    ensures
        forall|i: int|
            0 <= i < s.turnos@.len() ==> (#[trigger] s.turnos@[i]).numero_turno == i + 1,
        s.turnos@.len() > 0 ==> s.turnos@[0].numero_turno == 1,
        forall|i: int, j: int|
            0 <= i < j < s.turnos@.len() ==> (#[trigger] s.turnos@[i]).numero_turno < (
            #[trigger] s.turnos@[j]).numero_turno,
{
}

/// Law: once the start order has been drawn, no replay of the
/// formation-completion transaction — with any coin and any layout — can
/// change the draw, the match status or the turn holder. Only the layout
/// text of the submitter's row may differ.
pub proof fn lemma_start_order_drawn_once(
    pre: MatchState,
    post: MatchState,
    id_usuario: i32,
    formacion: Seq<char>,
    coin: bool,
    r: Result<crate::transactions::FormationOutcome, crate::transactions::FormationError>,
)
    requires
        pre.wf(),
        pre.orders_set(),
        formation_post(pre, post, id_usuario, formacion, coin, r),
    ensures
        post.turno_actual == pre.turno_actual,
        post.estado == pre.estado,
        form_model(post.formaciones@).len() == form_model(pre.formaciones@).len(),
        forall|i: int|
            0 <= i < pre.formaciones@.len() ==> (#[trigger] form_model(
                post.formaciones@,
            )[i]).turno_inicio == form_model(pre.formaciones@)[i].turno_inicio && form_model(
                post.formaciones@,
            )[i].id_usuario == form_model(pre.formaciones@)[i].id_usuario,
{
    let rows0 = form_model(pre.formaciones@);
    if pre.is_participant(id_usuario) {
        // Both participants hold one of the two rows, so the upsert is an
        // in-place update that keeps identity and start order.
        assert(rows0.len() == 2);
        assert(rows0[0] == (FormRow {
            id_usuario: pre.formaciones@[0].id_usuario,
            formacion: pre.formaciones@[0].formacion@,
            turno_inicio: pre.formaciones@[0].turno_inicio,
        }));
        if rows0[0].id_usuario == id_usuario {
            assert(find_row(rows0, id_usuario) == Some(0int));
        } else {
            assert(pre.formaciones@[0].id_usuario != pre.formaciones@[1].id_usuario);
            assert(rows0[1].id_usuario == id_usuario);
            assert(rows0.drop_first()[0] == rows0[1]);
            assert(find_row(rows0.drop_first(), id_usuario) == Some(0int));
            assert(find_row(rows0, id_usuario) == Some(1int));
        }
        let k = find_row(rows0, id_usuario).unwrap();
        assert(form_model(post.formaciones@) == rows0.update(
            k,
            FormRow { id_usuario, formacion, turno_inicio: rows0[k].turno_inicio },
        ));
    }
}

/// Law: applying the same snapshot twice is a no-op — the first accepted
/// delivery raises the watermark to the snapshot's own, so the second
/// delivery is stale and discarded.
pub proof fn lemma_apply_idempotent(g: GameModel, snap: Snapshot)
    requires
        snap.turnos@.len() < u64::MAX,
    ensures
        step_model(step_model(g, snap), snap) == step_model(g, snap),
{
}

/// Law: deliveries collapse to the newest snapshot. For two snapshots of a
/// running match (status playing, holder announced), delivering the older
/// one before or after the newer one leaves exactly the state that
/// delivering the newer one alone would leave: out-of-order and duplicate
/// broadcast deliveries cannot corrupt the client.
pub proof fn lemma_apply_out_of_order(g: GameModel, s_old: Snapshot, s_new: Snapshot)
    requires
        snap_watermark(s_old) < snap_watermark(s_new),
        s_old.turnos@.len() < u64::MAX,
        s_new.turnos@.len() < u64::MAX,
        s_old.estado == MatchStatus::Playing,
        s_new.estado == MatchStatus::Playing,
        s_old.proximo_turno is Some,
        s_new.proximo_turno is Some,
    ensures
        step_model(step_model(g, s_old), s_new) == step_model(g, s_new),
        step_model(step_model(g, s_new), s_old) == step_model(g, s_new),
{
    if snapshot_offered(g, s_old) {
        let g1 = apply_model(g, s_old);
        assert(snapshot_offered(g1, s_new));
        assert(apply_model(g1, s_new) == apply_model(g, s_new));
    }
    if snapshot_offered(g, s_new) {
        let g2 = apply_model(g, s_new);
        assert(!snapshot_offered(g2, s_old));
    }
}

/// A whole run of deliveries, applied in the order received.
pub open spec fn step_all(g: GameModel, snaps: Seq<Snapshot>) -> GameModel
    decreases snaps.len(),
{
    if snaps.len() == 0 {
        g
    } else {
        step_all(step_model(g, snaps[0]), snaps.drop_first())
    }
}

/// Every snapshot in the run describes a running match within machine
/// limits: status playing, holder announced, ledger length representable.
pub open spec fn run_ok(snaps: Seq<Snapshot>) -> bool {
    forall|i: int|
        0 <= i < snaps.len() ==> (#[trigger] snaps[i]).estado == MatchStatus::Playing
            && snaps[i].proximo_turno is Some && snaps[i].turnos@.len() < u64::MAX
}

/// A client already at or past every watermark in the run ignores the
/// whole run.
proof fn lemma_run_all_stale(g: GameModel, snaps: Seq<Snapshot>, w: u64)
    requires
        run_ok(snaps),
        g.ultimo_turno_aplicado == Some(w),
        forall|i: int| 0 <= i < snaps.len() ==> snap_watermark(#[trigger] snaps[i]) <= w,
    ensures
        step_all(g, snaps) == g,
    decreases snaps.len(),
{
    if snaps.len() > 0 {
        assert(!snapshot_offered(g, snaps[0]));
        lemma_run_all_stale(g, snaps.drop_first(), w);
    }
}

/// Law (deliveries collapse to the newest snapshot, in full): however a
/// run of snapshots of a running match is delivered — duplicated,
/// reordered, partly stale — as long as one of them carries a watermark
/// strictly above all the others', the client ends in exactly the state
/// that delivering that one snapshot alone would produce.
pub proof fn lemma_run_collapses_to_highest(g: GameModel, snaps: Seq<Snapshot>, m: int)
    requires
        run_ok(snaps),
        0 <= m < snaps.len(),
        forall|i: int|
            0 <= i < snaps.len() && i != m ==> snap_watermark(#[trigger] snaps[i])
                < snap_watermark(snaps[m]),
    ensures
        step_all(g, snaps) == step_model(g, snaps[m]),
    decreases snaps.len(),
{
    let rest = snaps.drop_first();
    if m == 0 {
        let g1 = step_model(g, snaps[0]);
        if snapshot_offered(g, snaps[0]) {
            assert(g1.ultimo_turno_aplicado == Some(snap_watermark(snaps[0]) as u64));
            assert(forall|i: int|
                0 <= i < rest.len() ==> snap_watermark(#[trigger] rest[i]) < snap_watermark(
                    snaps[0],
                ));
            lemma_run_all_stale(g1, rest, (snap_watermark(snaps[0]) as u64));
        } else {
            // The client was already at or past the highest watermark.
            let w = g.ultimo_turno_aplicado.unwrap();
            assert(snap_watermark(snaps[0]) <= w);
            assert(forall|i: int|
                0 <= i < rest.len() ==> snap_watermark(#[trigger] rest[i]) <= w);
            lemma_run_all_stale(g, rest, w);
        }
    } else {
        let g1 = step_model(g, snaps[0]);
        lemma_run_collapses_to_highest(g1, rest, m - 1);
        assert(rest[m - 1] == snaps[m]);
        lemma_apply_out_of_order(g, snaps[0], snaps[m]);
    }
}

/// Law (reconciliation): a client that accepts a snapshot of a running
/// match ends up mirroring the authoritative record: the same score, the
/// "my turn" flag exactly when the service names this client as holder,
/// the watermark at the ledger's length, and the board rebuilt from the
/// newest recorded turn.
pub proof fn lemma_client_mirrors_backend(
    s: MatchState,
    n1: Seq<char>,
    n2: Seq<char>,
    snap: Snapshot,
    g: GameModel,
)
    requires
        s.wf(),
        s.formaciones@.len() >= 2,
        s.turnos@.len() < u64::MAX,
        snapshot_matches(s, n1, n2, snap),
        snapshot_offered(g, snap),
    ensures
        ({
            let g2 = apply_model(g, snap);
            &&& g2.my_turn == (s.turno_actual == Some(g.my_uid))
            &&& g2.marcador.left == s.gol_j1 && g2.marcador.right == s.gol_j2
            &&& g2.ultimo_turno_aplicado == Some(s.turnos@.len() as u64)
            &&& g2.turn.current_turn_id == (match s.turno_actual {
                Some(u) => u,
                None => 0,
            })
            &&& (s.turnos@.len() > 0 ==> g2.tablero == enriquecer(s.turnos@.last()))
        }),
{
    if s.turnos@.len() > 0 {
        assert(apply_model(g, snap).tablero =~= enriquecer(s.turnos@.last()));
    }
}

/// Law (round trip): a ledger row holding a submitter-tagged payload
/// reappears in any snapshot of any state that carries the row — with the
/// same positions, each tagged with the submitter's real identity. Since
/// the turn-submission transaction only ever appends rows and tags them
/// with the authenticated submitter, every snapshot that includes a turn
/// reproduces exactly what was submitted.
pub proof fn lemma_round_trip(
    s: MatchState,
    piezas: Seq<PiezaEntrada>,
    id_usuario: i32,
    k: int,
    snap: Snapshot,
    n1: Seq<char>,
    n2: Seq<char>,
)
    requires
        s.wf(),
        s.formaciones@.len() >= 2,
        0 <= k < s.turnos@.len(),
        s.turnos@[k].id_usuario == id_usuario,
        s.turnos@[k].jugada@ == etiquetar(piezas, id_usuario),
        jugada_valida(piezas),
        snapshot_matches(s, n1, n2, snap),
    ensures
        snap.turnos@.len() == s.turnos@.len(),
        snap.turnos@[k].id_usuario == id_usuario,
        snap.turnos@[k].jugada@ == etiquetar(piezas, id_usuario),
        snap.turnos@[k].jugada@.len() == piezas.len(),
        forall|i: int|
            0 <= i < piezas.len() ==> (#[trigger] snap.turnos@[k].jugada@[i]) == (PiezaPos {
                id_usuario_real: id_usuario,
                x: piezas[i].x.unwrap(),
                y: piezas[i].y.unwrap(),
            }),
{
    assert(enriquecer(s.turnos@[k]) =~= etiquetar(piezas, id_usuario));
}

/// Law: the start-order draw both seats exactly one participant first. A
/// fresh draw (orders not yet set, both rows in) gives order 1 to the
/// drawn participant and order 2 to the other — whichever way the coin
/// fell — and hands the opening turn to the order-1 participant.
pub proof fn lemma_draw_assigns_both_orders(
    pre: MatchState,
    post: MatchState,
    id_usuario: i32,
    formacion: Seq<char>,
    coin: bool,
    r: Result<crate::transactions::FormationOutcome, crate::transactions::FormationError>,
    primero: i32,
)
    requires
        pre.wf(),
        post.wf(),
        formation_post(pre, post, id_usuario, formacion, coin, r),
        r == Result::<
            crate::transactions::FormationOutcome,
            crate::transactions::FormationError,
        >::Ok(crate::transactions::FormationOutcome::Started(primero)),
    ensures
        post.estado == MatchStatus::Playing,
        post.turno_actual == Some(primero),
        post.orders_set(),
        post.start_player() == primero,
{
    let rows1 = upsert_row(form_model(pre.formaciones@), id_usuario, formacion);
    assert(form_model(post.formaciones@) == crate::transactions::assign_orders(rows1, primero));
    assert(post.orders_set() <==> post.estado != MatchStatus::Forming);
    if post.formaciones@[0].turno_inicio == 1 {
        assert(form_model(post.formaciones@)[0].turno_inicio == 1);
        assert(post.formaciones@[0].id_usuario == primero);
    } else {
        assert(form_model(post.formaciones@)[1].turno_inicio == 1);
        assert(post.formaciones@[1].id_usuario == primero);
    }
}

} // verus!
