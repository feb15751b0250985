//! Properties of the library as a whole, over the views that the functions'
//! contracts use.
use vstd::prelude::*;
use crate::client::{
    client_close_outcome, client_opening, client_ping_outcome, client_reaction,
    client_send_outcome, not_connected, ClientEffectView, ClientListeners,
};
use crate::message::{
    close_code_for, close_reason_for, payload_message, ping_bytes, ABNORMAL_CLOSURE,
    NORMAL_CLOSURE, NO_STATUS_RECEIVED,
};
use crate::server::{
    listen_effects, listen_next_id, ListenEffectView, ListenEventView, next_peer_id, peer_opening, peer_reaction, server_send_outcome, unknown_peer,
    PeerEffectView, ServerListeners,
};
use crate::session::SessionEventView;
use crate::types::{
    CloseEventView, CloseFrameView, ErrorStatus, ErrorView, MessageView, PayloadView,
    PeerCloseEventView, PeerMessageView,
};

verus! {

/// Whether an event ends the connection it happens on.
pub open spec fn is_terminal(e: SessionEventView) -> bool {
    match e {
        SessionEventView::Queued(_) => false,
        SessionEventView::ReceivedRaw => false,
        SessionEventView::Received(m) => m is Close,
        _ => true,
    }
}

/// The effects of a client connection that handles the events in order until
/// it ends, and whether it ended. Events after the end are not handled.
pub open spec fn client_run(l: ClientListeners, events: Seq<SessionEventView>) -> (
    Seq<ClientEffectView>,
    bool,
)
    decreases events.len(),
{
    if events.len() == 0 {
        (Seq::empty(), false)
    } else {
        let before = client_run(l, events.drop_last());
        if before.1 {
            before
        } else {
            let step = client_reaction(l, events.last());
            (before.0 + step.0, step.1)
        }
    }
}

/// The effects of a peer's connection, from its opening, that handles the
/// events in order until it ends, and whether it ended.
pub open spec fn peer_run(l: ServerListeners, peer_id: u32, events: Seq<SessionEventView>) -> (
    Seq<PeerEffectView>,
    bool,
)
    decreases events.len(),
{
    if events.len() == 0 {
        (peer_opening(l, peer_id), false)
    } else {
        let before = peer_run(l, peer_id, events.drop_last());
        if before.1 {
            before
        } else {
            let step = peer_reaction(l, peer_id, events.last());
            (before.0 + step.0, step.1)
        }
    }
}

/// The id handed out `n` allocations after `id`.
pub open spec fn advance_peer_id(id: u32, n: nat) -> u32
    decreases n,
{
    if n == 0 {
        id
    } else {
        next_peer_id(advance_peer_id(id, (n - 1) as nat))
    }
}

/// A ping is always answered: on a client and on a server's peer, the
/// reaction to a ping queues a pong with the same bytes and keeps the
/// connection open.
pub proof fn law_ping_is_answered(cl: ClientListeners, sl: ServerListeners, peer_id: u32, bytes: Seq<u8>)
    ensures
        ({
            let r = client_reaction(cl, SessionEventView::Received(MessageView::Ping(bytes)));
            &&& !r.1
            &&& r.0.len() > 0
            &&& r.0.last() == ClientEffectView::QueuePong(bytes)
        }),
        ({
            let r = peer_reaction(sl, peer_id, SessionEventView::Received(MessageView::Ping(bytes)));
            &&& !r.1
            &&& r.0 == seq![PeerEffectView::QueuePong(bytes)]
        }),
{
}

/// A client connection ends exactly on a terminal event, and its writer is
/// detached then and only then, as the last thing it does.
pub proof fn law_client_reaction_ends_with_disconnect(l: ClientListeners, e: SessionEventView)
    ensures
        client_reaction(l, e).1 == is_terminal(e),
        client_reaction(l, e).1 ==> client_reaction(l, e).0.len() > 0
            && client_reaction(l, e).0.last() is Disconnect,
        forall|i: int|
            0 <= i < client_reaction(l, e).0.len() && (#[trigger] client_reaction(l, e).0[i]) is Disconnect
                ==> i == client_reaction(l, e).0.len() - 1 && client_reaction(l, e).1,
{
}

/// Over any sequence of events, a client connection detaches its writer at
/// most once: only when it has ended, and as its very last effect.
pub proof fn law_client_run_disconnects_once(l: ClientListeners, events: Seq<SessionEventView>)
    ensures
        client_run(l, events).1 ==> client_run(l, events).0.len() > 0
            && client_run(l, events).0.last() is Disconnect,
        forall|i: int|
            0 <= i < client_run(l, events).0.len() && (#[trigger] client_run(l, events).0[i]) is Disconnect
                ==> i == client_run(l, events).0.len() - 1 && client_run(l, events).1,
    decreases events.len(),
{
    if events.len() > 0 {
        let before = client_run(l, events.drop_last());
        law_client_run_disconnects_once(l, events.drop_last());
        if !before.1 {
            let step = client_reaction(l, events.last());
            law_client_reaction_ends_with_disconnect(l, events.last());
            let all = before.0 + step.0;
            assert forall|i: int| 0 <= i < all.len() && (#[trigger] all[i]) is Disconnect implies i
                == all.len() - 1 && step.1 by {
                if i < before.0.len() {
                    assert(all[i] == before.0[i]);
                } else {
                    assert(all[i] == step.0[i - before.0.len()]);
                }
            }
            if step.1 {
                assert(all.last() == step.0.last());
            }
        }
    }
}

/// Whether an effect of a peer ends its registration or reports its end.
pub open spec fn is_peer_ending(e: PeerEffectView) -> bool {
    e is Unregister || e is NotifyClose || e is NotifyError
}

/// A peer's connection ends exactly on a terminal event; its ending reaction
/// removes the peer first and then reports at most one thing, its close or
/// an error; reactions that do not end it neither remove nor report.
pub proof fn law_peer_reaction_ending(l: ServerListeners, peer_id: u32, e: SessionEventView)
    ensures
        peer_reaction(l, peer_id, e).1 == is_terminal(e),
        peer_reaction(l, peer_id, e).1 ==> {
            let r = peer_reaction(l, peer_id, e).0;
            &&& r.len() >= 1 && r.len() <= 2
            &&& r[0] == PeerEffectView::Unregister(peer_id)
            &&& r.len() == 2 ==> (r[1] is NotifyClose || r[1] is NotifyError)
        },
        !peer_reaction(l, peer_id, e).1 ==> forall|i: int|
            0 <= i < peer_reaction(l, peer_id, e).0.len() ==> !is_peer_ending(
                #[trigger] peer_reaction(l, peer_id, e).0[i],
            ),
{
}

/// Over any sequence of events, a peer is registered first, and removed at
/// most once: exactly when its connection has ended, followed by at most one
/// report of its close or an error.
pub proof fn law_peer_run_registration(l: ServerListeners, peer_id: u32, events: Seq<SessionEventView>)
    ensures
        ({
            let r = peer_run(l, peer_id, events);
            &&& r.0.len() > 0
            &&& r.0[0] == PeerEffectView::Register(peer_id)
            &&& forall|i: int| 1 <= i < r.0.len() ==> !(#[trigger] r.0[i] is Register)
            &&& !r.1 ==> forall|i: int| 0 <= i < r.0.len() ==> !is_peer_ending(#[trigger] r.0[i])
            &&& r.1 ==> exists|k: int|
                #![trigger r.0[k]]
                r.0.len() - 2 <= k < r.0.len() && r.0[k] == PeerEffectView::Unregister(peer_id)
                    && (forall|i: int| 0 <= i < k ==> !is_peer_ending(#[trigger] r.0[i]))
                    && (forall|i: int| k < i < r.0.len() ==> (#[trigger] r.0[i] is NotifyClose
                        || r.0[i] is NotifyError))
        }),
    decreases events.len(),
{
    if events.len() == 0 {
    } else {
        let before = peer_run(l, peer_id, events.drop_last());
        law_peer_run_registration(l, peer_id, events.drop_last());
        if !before.1 {
            let step = peer_reaction(l, peer_id, events.last());
            law_peer_reaction_ending(l, peer_id, events.last());
            let all = before.0 + step.0;
            assert(all[0] == before.0[0]);
            assert forall|i: int| 1 <= i < all.len() implies !(#[trigger] all[i] is Register) by {
                if i < before.0.len() {
                    assert(all[i] == before.0[i]);
                } else {
                    assert(all[i] == step.0[i - before.0.len()]);
                }
            }
            if !step.1 {
                assert forall|i: int| 0 <= i < all.len() implies !is_peer_ending(#[trigger] all[i]) by {
                    if i < before.0.len() {
                        assert(all[i] == before.0[i]);
                    } else {
                        assert(all[i] == step.0[i - before.0.len()]);
                    }
                }
            } else {
                let k = before.0.len() as int;
                assert(all[k] == step.0[0]);
                assert forall|i: int| 0 <= i < k implies !is_peer_ending(#[trigger] all[i]) by {
                    assert(all[i] == before.0[i]);
                }
                assert forall|i: int| k < i < all.len() implies (#[trigger] all[i] is NotifyClose
                    || all[i] is NotifyError) by {
                    assert(all[i] == step.0[i - k]);
                }
            }
        }
    }
}

/// Calls that send on a client need an open connection; a ping that does not
/// fit in a control frame is refused before the connection is looked at.
pub proof fn law_client_calls_need_connection(data: PayloadView, bytes: Seq<u8>, code: u16, reason: Seq<char>)
    ensures
        client_send_outcome(false, data) == Err::<MessageView, _>(not_connected()),
        client_send_outcome(true, data) == Ok::<_, crate::types::ErrorView>(payload_message(data)),
        client_close_outcome(false, code, reason) == Err::<MessageView, _>(not_connected()),
        bytes.len() <= 125 ==> client_ping_outcome(false, bytes) == Err::<MessageView, _>(
            not_connected(),
        ),
        bytes.len() > 125 ==> client_ping_outcome(true, bytes) is Err && client_ping_outcome(
            false,
            bytes,
        ) == client_ping_outcome(true, bytes),
{
}

/// Sending to a peer reaches it from its registration until its removal:
/// after a peer is registered, sending to it gives its message; after it is
/// removed, sending to it is refused as an unknown peer; neither changes what
/// sending to any other peer gives.
pub proof fn law_peer_registry<S>(peers: Map<u32, S>, peer_id: u32, other: u32, writer: S, data: PayloadView)
    requires
        other != peer_id,
    ensures
        server_send_outcome(peers.insert(peer_id, writer), peer_id, data) == Ok::<
            _,
            crate::types::ErrorView,
        >(payload_message(data)),
        server_send_outcome(peers.remove(peer_id), peer_id, data) == Err::<MessageView, _>(
            unknown_peer(),
        ),
        server_send_outcome(peers.insert(peer_id, writer), other, data) == server_send_outcome(
            peers,
            other,
            data,
        ),
        server_send_outcome(peers.remove(peer_id), other, data) == server_send_outcome(
            peers,
            other,
            data,
        ),
{
}

/// `n` allocations after `id` hand out `id + n`, wrapping round after the
/// largest id.
pub proof fn law_advance_peer_id(id: u32, n: nat)
    ensures
        advance_peer_id(id, n) as int == (id as int + n) % 0x1_0000_0000,
    decreases n,
{
    if n > 0 {
        law_advance_peer_id(id, (n - 1) as nat);
        let a = (id as int + (n - 1)) % 0x1_0000_0000;
        assert((a + 1) % 0x1_0000_0000 == (id as int + n) % 0x1_0000_0000) by (nonlinear_arith)
            requires
                a == (id as int + (n - 1)) % 0x1_0000_0000,
        {
            vstd::arithmetic::div_mod::lemma_add_mod_noop(id as int + (n - 1), 1, 0x1_0000_0000);
            vstd::arithmetic::div_mod::lemma_mod_twice(id as int + (n - 1), 0x1_0000_0000);
        }
    }
}

/// Peer ids do not repeat: any two of fewer than 2^32 allocations in a row
/// hand out different ids. A new server's first peers are numbered 1, 2, 3,
/// and so on.
pub proof fn law_peer_ids_distinct(id: u32, n1: nat, n2: nat)
    requires
        n1 < 0x1_0000_0000,
        n2 < 0x1_0000_0000,
        n1 != n2,
    ensures
        advance_peer_id(id, n1) != advance_peer_id(id, n2),
        n1 < 0xffff_ffff ==> advance_peer_id(1, n1) == n1 + 1,
{
    law_advance_peer_id(id, n1);
    law_advance_peer_id(id, n2);
    law_advance_peer_id(1, n1);
}

/// A close code that fits in sixteen bits is sent unchanged; an absent one is
/// sent as normal closure. A received close frame without a status code is
/// reported as "no status received" (1005), clean; a connection that ends
/// without any close frame is reported as an abnormal closure (1006), not
/// clean; neither carries a reason.
pub proof fn law_close_codes(code: u32, peer_id: u32)
    ensures
        close_code_for(None) == NORMAL_CLOSURE,
        code < 0x10000 ==> close_code_for(Some(code)) == code,
        crate::message::close_event_for(None) == (crate::types::CloseEventView {
            code: NO_STATUS_RECEIVED,
            reason: Seq::empty(),
            clean: true,
        }),
        crate::message::peer_close_event_for(peer_id, None) == (crate::types::PeerCloseEventView {
            peer_id,
            code: NO_STATUS_RECEIVED,
            reason: Seq::empty(),
            clean: true,
        }),
        crate::message::abnormal_close_event() == (crate::types::CloseEventView {
            code: ABNORMAL_CLOSURE,
            reason: Seq::empty(),
            clean: false,
        }),
        crate::message::peer_abnormal_close_event(peer_id) == (crate::types::PeerCloseEventView {
            peer_id,
            code: ABNORMAL_CLOSURE,
            reason: Seq::empty(),
            clean: false,
        }),
{
}

/// A client's connection reports a close exactly as the closing event says:
/// a received close frame, with or without a status code, as a clean close;
/// the end of the stream as an abnormal one.
pub proof fn law_client_close_reports(l: ClientListeners, frame: Option<crate::types::CloseFrameView>)
    requires
        l.close,
    ensures
        client_reaction(l, SessionEventView::Received(MessageView::Close(frame))).0 == seq![
            ClientEffectView::NotifyClose(crate::message::close_event_for(frame)),
            ClientEffectView::Disconnect,
        ],
        client_reaction(l, SessionEventView::Received(MessageView::Close(frame))).0[0]->NotifyClose_0.clean,
        client_reaction(l, SessionEventView::ReadEnded).0 == seq![
            ClientEffectView::NotifyClose(crate::message::abnormal_close_event()),
            ClientEffectView::Disconnect,
        ],
{
    assert(client_reaction(l, SessionEventView::Received(MessageView::Close(frame))).0 =~= seq![
        ClientEffectView::NotifyClose(crate::message::close_event_for(frame)),
        ClientEffectView::Disconnect,
    ]);
    assert(client_reaction(l, SessionEventView::ReadEnded).0 =~= seq![
        ClientEffectView::NotifyClose(crate::message::abnormal_close_event()),
        ClientEffectView::Disconnect,
    ]);
}

/// The messages written, in order, by a sequence of client effects.
pub open spec fn client_written(effects: Seq<ClientEffectView>) -> Seq<MessageView>
    decreases effects.len(),
{
    if effects.len() == 0 {
        Seq::empty()
    } else {
        let rest = client_written(effects.drop_last());
        match effects.last() {
            ClientEffectView::Write(m) => rest.push(m),
            _ => rest,
        }
    }
}

/// The messages written, in order, by a sequence of peer effects.
pub open spec fn peer_written(effects: Seq<PeerEffectView>) -> Seq<MessageView>
    decreases effects.len(),
{
    if effects.len() == 0 {
        Seq::empty()
    } else {
        let rest = peer_written(effects.drop_last());
        match effects.last() {
            PeerEffectView::Write(m) => rest.push(m),
            _ => rest,
        }
    }
}

/// The message that an event hands over from a connection's queue, if any.
pub open spec fn queued_by(e: SessionEventView) -> Seq<MessageView> {
    match e {
        SessionEventView::Queued(m) => seq![m],
        _ => Seq::empty(),
    }
}

/// The messages that a connection's queue handed over, in order.
pub open spec fn queued(events: Seq<SessionEventView>) -> Seq<MessageView>
    decreases events.len(),
{
    if events.len() == 0 {
        Seq::empty()
    } else {
        queued(events.drop_last()) + queued_by(events.last())
    }
}

proof fn lemma_client_step_written(l: ClientListeners, e: SessionEventView)
    ensures
        client_written(client_reaction(l, e).0) == queued_by(e),
{
    let r = client_reaction(l, e).0;
    reveal_with_fuel(client_written, 3);
    if r.len() >= 1 {
        assert(r.drop_last().len() <= 1);
        if r.len() == 2 {
            assert(r.drop_last().drop_last() =~= Seq::<ClientEffectView>::empty());
        } else {
            assert(r.drop_last() =~= Seq::<ClientEffectView>::empty());
        }
    }
    assert(client_written(r) =~= queued_by(e));
}

proof fn lemma_peer_step_written(l: ServerListeners, peer_id: u32, e: SessionEventView)
    ensures
        peer_written(peer_reaction(l, peer_id, e).0) == queued_by(e),
{
    let r = peer_reaction(l, peer_id, e).0;
    reveal_with_fuel(peer_written, 3);
    if r.len() >= 1 {
        if r.len() == 2 {
            assert(r.drop_last().drop_last() =~= Seq::<PeerEffectView>::empty());
        } else {
            assert(r.drop_last() =~= Seq::<PeerEffectView>::empty());
        }
    }
    assert(peer_written(r) =~= queued_by(e));
}

proof fn lemma_client_written_append(a: Seq<ClientEffectView>, b: Seq<ClientEffectView>)
    ensures
        client_written(a + b) == client_written(a) + client_written(b),
    decreases b.len(),
{
    if b.len() == 0 {
        assert(a + b =~= a);
        assert(client_written(b) =~= Seq::<MessageView>::empty());
    } else {
        lemma_client_written_append(a, b.drop_last());
        assert((a + b).drop_last() =~= a + b.drop_last());
        assert((a + b).last() == b.last());
        match b.last() {
            ClientEffectView::Write(m) => {
                assert(client_written(a + b) =~= client_written(a) + client_written(b));
            },
            _ => {
                assert(client_written(a + b) =~= client_written(a) + client_written(b));
            },
        }
    }
}

proof fn lemma_peer_written_append(a: Seq<PeerEffectView>, b: Seq<PeerEffectView>)
    ensures
        peer_written(a + b) == peer_written(a) + peer_written(b),
    decreases b.len(),
{
    if b.len() == 0 {
        assert(a + b =~= a);
        assert(peer_written(b) =~= Seq::<MessageView>::empty());
    } else {
        lemma_peer_written_append(a, b.drop_last());
        assert((a + b).drop_last() =~= a + b.drop_last());
        assert((a + b).last() == b.last());
        match b.last() {
            PeerEffectView::Write(m) => {
                assert(peer_written(a + b) =~= peer_written(a) + peer_written(b));
            },
            _ => {
                assert(peer_written(a + b) =~= peer_written(a) + peer_written(b));
            },
        }
    }
}

/// A client's connection writes what its queue hands over, in the order
/// handed over, each once and unchanged: what it has written is always a
/// prefix of what was queued, and all of it while the connection lasts.
pub proof fn law_client_writes_in_queue_order(l: ClientListeners, events: Seq<SessionEventView>)
    ensures
        client_written(client_run(l, events).0).is_prefix_of(queued(events)),
        !client_run(l, events).1 ==> client_written(client_run(l, events).0) == queued(events),
    decreases events.len(),
{
    if events.len() > 0 {
        let before = client_run(l, events.drop_last());
        law_client_writes_in_queue_order(l, events.drop_last());
        let e = events.last();
        let q0 = queued(events.drop_last());
        assert(q0 =~= queued(events).subrange(0, q0.len() as int));
        if !before.1 {
            let step = client_reaction(l, e);
            lemma_client_step_written(l, e);
            lemma_client_written_append(before.0, step.0);
        } else {
            let w = client_written(before.0);
            assert(w =~= queued(events).subrange(0, w.len() as int));
        }
    }
}

/// A peer's connection writes what its queue hands over, in the order handed
/// over, each once and unchanged: what it has written is always a prefix of
/// what was queued, and all of it while the connection lasts.
pub proof fn law_peer_writes_in_queue_order(l: ServerListeners, peer_id: u32, events: Seq<SessionEventView>)
    ensures
        peer_written(peer_run(l, peer_id, events).0).is_prefix_of(queued(events)),
        !peer_run(l, peer_id, events).1 ==> peer_written(peer_run(l, peer_id, events).0) == queued(
            events,
        ),
    decreases events.len(),
{
    if events.len() == 0 {
        assert(peer_written(peer_opening(l, peer_id)) =~= Seq::<MessageView>::empty()) by {
            reveal_with_fuel(peer_written, 3);
        }
    } else {
        let before = peer_run(l, peer_id, events.drop_last());
        law_peer_writes_in_queue_order(l, peer_id, events.drop_last());
        let e = events.last();
        let q0 = queued(events.drop_last());
        assert(q0 =~= queued(events).subrange(0, q0.len() as int));
        if !before.1 {
            let step = peer_reaction(l, peer_id, e);
            lemma_peer_step_written(l, peer_id, e);
            lemma_peer_written_append(before.0, step.0);
        } else {
            let w = peer_written(before.0);
            assert(w =~= queued(events).subrange(0, w.len() as int));
        }
    }
}

/// Over any sequence of events, a peer's joining is announced at most once:
/// exactly when there is an open listener, right after the peer is
/// registered, and never later.
pub proof fn law_peer_open_announced_once(l: ServerListeners, peer_id: u32, events: Seq<SessionEventView>)
    ensures
        ({
            let r = peer_run(l, peer_id, events).0;
            &&& l.peer_open ==> r.len() > 1 && r[1] == PeerEffectView::NotifyOpen(peer_id)
            &&& forall|i: int| 0 <= i < r.len() && (#[trigger] r[i]) is NotifyOpen ==> i == 1
                && l.peer_open
        }),
    decreases events.len(),
{
    if events.len() > 0 {
        let before = peer_run(l, peer_id, events.drop_last());
        law_peer_open_announced_once(l, peer_id, events.drop_last());
        if !before.1 {
            let step = peer_reaction(l, peer_id, events.last());
            let all = before.0 + step.0;
            assert(forall|j: int| 0 <= j < step.0.len() ==> !(#[trigger] step.0[j] is NotifyOpen));
            assert forall|i: int| 0 <= i < all.len() && (#[trigger] all[i]) is NotifyOpen implies i == 1
                && l.peer_open by {
                if i < before.0.len() {
                    assert(all[i] == before.0[i]);
                } else {
                    assert(all[i] == step.0[i - before.0.len()]);
                }
            }
            if l.peer_open {
                assert(all[1] == before.0[1]);
            }
        }
    }
}

/// The effects of a server's listeners over a sequence of listener events,
/// across any number of starts, and the id the next peer then gets.
pub open spec fn listen_run(l: ServerListeners, next: u32, events: Seq<ListenEventView>) -> (
    Seq<ListenEffectView>,
    u32,
)
    decreases events.len(),
{
    if events.len() == 0 {
        (Seq::empty(), next)
    } else {
        let before = listen_run(l, next, events.drop_last());
        (
            before.0 + listen_effects(l, before.1, events.last()),
            listen_next_id(before.1, events.last()),
        )
    }
}

/// The ids under which peers were started, in order.
pub open spec fn started_ids(effects: Seq<ListenEffectView>) -> Seq<u32>
    decreases effects.len(),
{
    if effects.len() == 0 {
        Seq::empty()
    } else {
        let rest = started_ids(effects.drop_last());
        match effects.last() {
            ListenEffectView::StartPeer(id) => rest.push(id),
            _ => rest,
        }
    }
}

/// The number of accepted connections among listener events.
pub open spec fn accepted_count(events: Seq<ListenEventView>) -> nat
    decreases events.len(),
{
    if events.len() == 0 {
        0
    } else {
        accepted_count(events.drop_last()) + if events.last() is Accepted {
            1nat
        } else {
            0nat
        }
    }
}

/// Over any sequence of listener events, the k-th accepted connection is
/// started under the id `k` allocations after the first, whatever failures
/// and restarts come between; the next id is then as many allocations on.
pub proof fn law_listen_run_ids(l: ServerListeners, next: u32, events: Seq<ListenEventView>)
    ensures
        started_ids(listen_run(l, next, events).0) == Seq::new(
            accepted_count(events),
            |k: int| advance_peer_id(next, k as nat),
        ),
        listen_run(l, next, events).1 == advance_peer_id(next, accepted_count(events)),
    decreases events.len(),
{
    if events.len() > 0 {
        let before = listen_run(l, next, events.drop_last());
        law_listen_run_ids(l, next, events.drop_last());
        let e = events.last();
        let step = listen_effects(l, before.1, e);
        let all = before.0 + step;
        match e {
            ListenEventView::Accepted => {
                assert(all.drop_last() =~= before.0);
                assert(all.last() == ListenEffectView::StartPeer(before.1));
                assert(started_ids(all) =~= Seq::new(
                    accepted_count(events),
                    |k: int| advance_peer_id(next, k as nat),
                ));
            },
            ListenEventView::Shutdown => {
                assert(all =~= before.0);
            },
            ListenEventView::AcceptFailed(s) => {
                if l.error {
                    assert(all.drop_last() =~= before.0);
                } else {
                    assert(all =~= before.0);
                }
            },
        }
    }
}

/// A new server numbers its accepted connections 1, 2, 3, and so on, in
/// the order it accepts them, across all its starts: the i-th accepted
/// connection (counting from 1) gets the id i, as long as fewer than
/// 2^32 - 1 have been accepted.
pub proof fn law_connections_numbered_in_order(l: ServerListeners, events: Seq<ListenEventView>)
    requires
        accepted_count(events) < 0xffff_ffff,
    ensures
        started_ids(listen_run(l, 1, events).0).len() == accepted_count(events),
        forall|i: int|
            0 <= i < accepted_count(events) ==> #[trigger] started_ids(listen_run(l, 1, events).0)[i]
                == i + 1,
{
    law_listen_run_ids(l, 1, events);
    assert forall|i: int| 0 <= i < accepted_count(events) implies #[trigger] started_ids(
        listen_run(l, 1, events).0,
    )[i] == i + 1 by {
        law_advance_peer_id(1, i as nat);
    }
}

/// The close event that a received close frame must give: its own code and
/// reason when it has a status code, "no status received" and no reason when
/// it has none; clean either way, since the closing handshake took place.
pub open spec fn expected_close(f: Option<CloseFrameView>) -> CloseEventView {
    match f {
        Some(fr) => CloseEventView { code: fr.code as u32, reason: fr.reason, clean: true },
        None => CloseEventView { code: 1005, reason: Seq::empty(), clean: true },
    }
}

/// A client announces its opening to the open listener, exactly when there
/// is one, whatever other listeners it has.
pub proof fn law_client_opening_announced(l: ClientListeners)
    ensures
        l.open ==> client_opening(l) == seq![ClientEffectView::NotifyOpen],
        !l.open ==> client_opening(l) == Seq::<ClientEffectView>::empty(),
{
    assert(l.open ==> client_opening(l) =~= seq![ClientEffectView::NotifyOpen]);
    assert(!l.open ==> client_opening(l) =~= Seq::<ClientEffectView>::empty());
}

/// What a client does with each message it receives: text and bytes go to
/// the message listener, a ping's bytes to the ping listener and back in a
/// pong, a pong's bytes to the pong listener, a close frame to the close
/// listener; each only when that listener exists, and none ends the
/// connection but the close frame, which also detaches the writer.
pub proof fn law_client_delivers_received(
    l: ClientListeners,
    text: Seq<char>,
    bytes: Seq<u8>,
    frame: Option<CloseFrameView>,
)
    ensures
        client_reaction(l, SessionEventView::Received(MessageView::Text(text))) == (if l.message {
            seq![ClientEffectView::NotifyMessage(PayloadView::Text(text))]
        } else {
            Seq::<ClientEffectView>::empty()
        }, false),
        client_reaction(l, SessionEventView::Received(MessageView::Binary(bytes))) == (if l.message {
            seq![ClientEffectView::NotifyMessage(PayloadView::Binary(bytes))]
        } else {
            Seq::<ClientEffectView>::empty()
        }, false),
        client_reaction(l, SessionEventView::Received(MessageView::Ping(bytes))) == (if l.ping {
            seq![ClientEffectView::NotifyPing(bytes), ClientEffectView::QueuePong(bytes)]
        } else {
            seq![ClientEffectView::QueuePong(bytes)]
        }, false),
        client_reaction(l, SessionEventView::Received(MessageView::Pong(bytes))) == (if l.pong {
            seq![ClientEffectView::NotifyPong(bytes)]
        } else {
            Seq::<ClientEffectView>::empty()
        }, false),
        client_reaction(l, SessionEventView::Received(MessageView::Close(frame))) == (if l.close {
            seq![
                ClientEffectView::NotifyClose(expected_close(frame)),
                ClientEffectView::Disconnect,
            ]
        } else {
            seq![ClientEffectView::Disconnect]
        }, true),
{
    let r1 = client_reaction(l, SessionEventView::Received(MessageView::Text(text)));
    let r2 = client_reaction(l, SessionEventView::Received(MessageView::Binary(bytes)));
    let r3 = client_reaction(l, SessionEventView::Received(MessageView::Ping(bytes)));
    let r4 = client_reaction(l, SessionEventView::Received(MessageView::Pong(bytes)));
    let r5 = client_reaction(l, SessionEventView::Received(MessageView::Close(frame)));
    if l.message {
        assert(r1.0 =~= seq![ClientEffectView::NotifyMessage(PayloadView::Text(text))]);
        assert(r2.0 =~= seq![ClientEffectView::NotifyMessage(PayloadView::Binary(bytes))]);
    } else {
        assert(r1.0 =~= Seq::<ClientEffectView>::empty());
        assert(r2.0 =~= Seq::<ClientEffectView>::empty());
    }
    if l.ping {
        assert(r3.0 =~= seq![ClientEffectView::NotifyPing(bytes), ClientEffectView::QueuePong(bytes)]);
    } else {
        assert(r3.0 =~= seq![ClientEffectView::QueuePong(bytes)]);
    }
    if l.pong {
        assert(r4.0 =~= seq![ClientEffectView::NotifyPong(bytes)]);
    } else {
        assert(r4.0 =~= Seq::<ClientEffectView>::empty());
    }
    if l.close {
        assert(r5.0 =~= seq![
            ClientEffectView::NotifyClose(expected_close(frame)),
            ClientEffectView::Disconnect,
        ]);
    } else {
        assert(r5.0 =~= seq![ClientEffectView::Disconnect]);
    }
}

/// What a client does on the other events of its connection: a queued
/// message is written as it is; a raw frame is passed over; a failure goes to
/// the error listener; the end of the stream is an abnormal close for the
/// close listener; a closed queue or a refused pong ends it quietly; every
/// ending detaches the writer last.
pub proof fn law_client_connection_events(l: ClientListeners, m: MessageView, error: Seq<char>)
    ensures
        client_reaction(l, SessionEventView::Queued(m)) == (seq![ClientEffectView::Write(m)], false),
        client_reaction(l, SessionEventView::ReceivedRaw) == (Seq::<ClientEffectView>::empty(), false),
        client_reaction(l, SessionEventView::WriteFailed(error)) == (if l.error {
            seq![ClientEffectView::NotifyError(error), ClientEffectView::Disconnect]
        } else {
            seq![ClientEffectView::Disconnect]
        }, true),
        client_reaction(l, SessionEventView::ReadFailed(error)) == (if l.error {
            seq![ClientEffectView::NotifyError(error), ClientEffectView::Disconnect]
        } else {
            seq![ClientEffectView::Disconnect]
        }, true),
        client_reaction(l, SessionEventView::ReadEnded) == (if l.close {
            seq![
                ClientEffectView::NotifyClose(CloseEventView { code: 1006, reason: Seq::empty(), clean: false }),
                ClientEffectView::Disconnect,
            ]
        } else {
            seq![ClientEffectView::Disconnect]
        }, true),
        client_reaction(l, SessionEventView::QueueClosed) == (seq![ClientEffectView::Disconnect], true),
        client_reaction(l, SessionEventView::PongRejected) == (seq![ClientEffectView::Disconnect], true),
{
    let w = client_reaction(l, SessionEventView::WriteFailed(error));
    let r = client_reaction(l, SessionEventView::ReadFailed(error));
    let e = client_reaction(l, SessionEventView::ReadEnded);
    if l.error {
        assert(w.0 =~= seq![ClientEffectView::NotifyError(error), ClientEffectView::Disconnect]);
        assert(r.0 =~= seq![ClientEffectView::NotifyError(error), ClientEffectView::Disconnect]);
    } else {
        assert(w.0 =~= seq![ClientEffectView::Disconnect]);
        assert(r.0 =~= seq![ClientEffectView::Disconnect]);
    }
    if l.close {
        assert(e.0 =~= seq![
            ClientEffectView::NotifyClose(CloseEventView { code: 1006, reason: Seq::empty(), clean: false }),
            ClientEffectView::Disconnect,
        ]);
    } else {
        assert(e.0 =~= seq![ClientEffectView::Disconnect]);
    }
}

/// A peer is registered when its handshake succeeds, then announced to the
/// open listener exactly when there is one.
pub proof fn law_peer_opening(l: ServerListeners, peer_id: u32)
    ensures
        peer_opening(l, peer_id) == (if l.peer_open {
            seq![PeerEffectView::Register(peer_id), PeerEffectView::NotifyOpen(peer_id)]
        } else {
            seq![PeerEffectView::Register(peer_id)]
        }),
{
    if l.peer_open {
        assert(peer_opening(l, peer_id) =~= seq![
            PeerEffectView::Register(peer_id),
            PeerEffectView::NotifyOpen(peer_id),
        ]);
    } else {
        assert(peer_opening(l, peer_id) =~= seq![PeerEffectView::Register(peer_id)]);
    }
}

/// What a server does with each message a peer sends: text and bytes go to
/// the message listener, tagged with the peer's id, exactly when there is
/// one; a ping is answered with a pong of its bytes; a pong is passed over; a
/// close frame removes the peer, then reports the frame's close to the close
/// listener, and ends the connection.
pub proof fn law_peer_delivers_received(
    l: ServerListeners,
    peer_id: u32,
    text: Seq<char>,
    bytes: Seq<u8>,
    frame: Option<CloseFrameView>,
)
    ensures
        peer_reaction(l, peer_id, SessionEventView::Received(MessageView::Text(text))) == (if l.peer_message {
            seq![PeerEffectView::NotifyMessage(PeerMessageView { peer_id, data: PayloadView::Text(text) })]
        } else {
            Seq::<PeerEffectView>::empty()
        }, false),
        peer_reaction(l, peer_id, SessionEventView::Received(MessageView::Binary(bytes))) == (if l.peer_message {
            seq![PeerEffectView::NotifyMessage(PeerMessageView { peer_id, data: PayloadView::Binary(bytes) })]
        } else {
            Seq::<PeerEffectView>::empty()
        }, false),
        peer_reaction(l, peer_id, SessionEventView::Received(MessageView::Ping(bytes))) == (
            seq![PeerEffectView::QueuePong(bytes)],
            false,
        ),
        peer_reaction(l, peer_id, SessionEventView::Received(MessageView::Pong(bytes))) == (
            Seq::<PeerEffectView>::empty(),
            false,
        ),
        peer_reaction(l, peer_id, SessionEventView::Received(MessageView::Close(frame))) == (if l.peer_close {
            seq![
                PeerEffectView::Unregister(peer_id),
                PeerEffectView::NotifyClose(PeerCloseEventView {
                    peer_id,
                    code: expected_close(frame).code,
                    reason: expected_close(frame).reason,
                    clean: true,
                }),
            ]
        } else {
            seq![PeerEffectView::Unregister(peer_id)]
        }, true),
{
    let r1 = peer_reaction(l, peer_id, SessionEventView::Received(MessageView::Text(text)));
    let r2 = peer_reaction(l, peer_id, SessionEventView::Received(MessageView::Binary(bytes)));
    let r5 = peer_reaction(l, peer_id, SessionEventView::Received(MessageView::Close(frame)));
    if l.peer_message {
        assert(r1.0 =~= seq![PeerEffectView::NotifyMessage(PeerMessageView { peer_id, data: PayloadView::Text(text) })]);
        assert(r2.0 =~= seq![PeerEffectView::NotifyMessage(PeerMessageView { peer_id, data: PayloadView::Binary(bytes) })]);
    } else {
        assert(r1.0 =~= Seq::<PeerEffectView>::empty());
        assert(r2.0 =~= Seq::<PeerEffectView>::empty());
    }
    if l.peer_close {
        assert(r5.0 =~= seq![
            PeerEffectView::Unregister(peer_id),
            PeerEffectView::NotifyClose(PeerCloseEventView {
                peer_id,
                code: expected_close(frame).code,
                reason: expected_close(frame).reason,
                clean: true,
            }),
        ]);
    } else {
        assert(r5.0 =~= seq![PeerEffectView::Unregister(peer_id)]);
    }
}

/// A peer's payload, text or bytes, reaches the message listener unchanged
/// and tagged with the peer's id.
pub proof fn law_peer_payload_delivered(l: ServerListeners, peer_id: u32, data: PayloadView)
    requires
        l.peer_message,
    ensures
        peer_reaction(l, peer_id, SessionEventView::Received(payload_message(data))) == (
            seq![PeerEffectView::NotifyMessage(PeerMessageView { peer_id, data })],
            false,
        ),
{
    match data {
        PayloadView::Text(t) => {
            law_peer_delivers_received(l, peer_id, t, Seq::empty(), None);
        },
        PayloadView::Binary(b) => {
            law_peer_delivers_received(l, peer_id, Seq::empty(), b, None);
        },
    }
}

/// What a server does on the other events of a peer's connection: a queued
/// message is written as it is; a raw frame is passed over; a failure
/// removes the peer and goes to the error listener, with no close report;
/// the end of the stream, a closed queue or a refused pong removes the peer
/// and reports an abnormal close.
pub proof fn law_peer_connection_events(l: ServerListeners, peer_id: u32, m: MessageView, error: Seq<char>)
    ensures
        peer_reaction(l, peer_id, SessionEventView::Queued(m)) == (seq![PeerEffectView::Write(m)], false),
        peer_reaction(l, peer_id, SessionEventView::ReceivedRaw) == (Seq::<PeerEffectView>::empty(), false),
        peer_reaction(l, peer_id, SessionEventView::WriteFailed(error)) == (if l.error {
            seq![PeerEffectView::Unregister(peer_id), PeerEffectView::NotifyError(error)]
        } else {
            seq![PeerEffectView::Unregister(peer_id)]
        }, true),
        peer_reaction(l, peer_id, SessionEventView::ReadFailed(error)) == (if l.error {
            seq![PeerEffectView::Unregister(peer_id), PeerEffectView::NotifyError(error)]
        } else {
            seq![PeerEffectView::Unregister(peer_id)]
        }, true),
        forall|e: SessionEventView|
            (e == SessionEventView::ReadEnded || e == SessionEventView::QueueClosed || e
                == SessionEventView::PongRejected) ==> #[trigger] peer_reaction(l, peer_id, e) == (if l.peer_close {
                seq![
                    PeerEffectView::Unregister(peer_id),
                    PeerEffectView::NotifyClose(
                        PeerCloseEventView { peer_id, code: 1006, reason: Seq::empty(), clean: false },
                    ),
                ]
            } else {
                seq![PeerEffectView::Unregister(peer_id)]
            }, true),
{
    let w = peer_reaction(l, peer_id, SessionEventView::WriteFailed(error));
    let r = peer_reaction(l, peer_id, SessionEventView::ReadFailed(error));
    if l.error {
        assert(w.0 =~= seq![PeerEffectView::Unregister(peer_id), PeerEffectView::NotifyError(error)]);
        assert(r.0 =~= seq![PeerEffectView::Unregister(peer_id), PeerEffectView::NotifyError(error)]);
    } else {
        assert(w.0 =~= seq![PeerEffectView::Unregister(peer_id)]);
        assert(r.0 =~= seq![PeerEffectView::Unregister(peer_id)]);
    }
    assert forall|e: SessionEventView|
        (e == SessionEventView::ReadEnded || e == SessionEventView::QueueClosed || e
            == SessionEventView::PongRejected) implies #[trigger] peer_reaction(l, peer_id, e) == (if l.peer_close {
            seq![
                PeerEffectView::Unregister(peer_id),
                PeerEffectView::NotifyClose(
                    PeerCloseEventView { peer_id, code: 1006, reason: Seq::empty(), clean: false },
                ),
            ]
        } else {
            seq![PeerEffectView::Unregister(peer_id)]
        }, true) by {
        if l.peer_close {
            assert(peer_reaction(l, peer_id, e).0 =~= seq![
                PeerEffectView::Unregister(peer_id),
                PeerEffectView::NotifyClose(
                    PeerCloseEventView { peer_id, code: 1006, reason: Seq::empty(), clean: false },
                ),
            ]);
        } else {
            assert(peer_reaction(l, peer_id, e).0 =~= seq![PeerEffectView::Unregister(peer_id)]);
        }
    }
}

/// A ping carries exactly the bytes given, in order, or none when none are
/// given; it is sent on a connected client exactly when they fit in 125
/// bytes.
pub proof fn law_ping_carries_given_bytes(v: Vec<u8>)
    ensures
        ping_bytes(Some(v)) == v@,
        ping_bytes(None) == Seq::<u8>::empty(),
        v@.len() <= 125 ==> client_ping_outcome(true, v@) == Ok::<MessageView, ErrorView>(
            MessageView::Ping(v@),
        ),
        v@.len() > 125 ==> client_ping_outcome(true, v@) == Err::<MessageView, ErrorView>(
            ErrorView { status: ErrorStatus::InvalidArg, reason: "Ping payload exceeds 125 bytes"@ },
        ),
{
}

/// A received close frame is reported with its own status code and reason,
/// whatever the reason's length, and as clean; one without a status code as
/// "no status received" with no reason, clean. The same holds for a server's
/// peer, tagged with its id.
pub proof fn law_close_event_reports_frame(code: u16, reason: Seq<char>, peer_id: u32)
    ensures
        crate::message::close_event_for(Some(CloseFrameView { code, reason })) == (CloseEventView {
            code: code as u32,
            reason,
            clean: true,
        }),
        crate::message::close_event_for(None) == (CloseEventView { code: 1005, reason: Seq::empty(), clean: true }),
        crate::message::peer_close_event_for(peer_id, Some(CloseFrameView { code, reason })) == (
        PeerCloseEventView { peer_id, code: code as u32, reason, clean: true }),
        crate::message::peer_close_event_for(peer_id, None) == (PeerCloseEventView {
            peer_id,
            code: 1005,
            reason: Seq::empty(),
            clean: true,
        }),
{
}

/// A payload is sent as the message of its kind with the same contents, and
/// a close message carries the code's low sixteen bits (1000 when absent)
/// and the given reason (empty when absent).
pub proof fn law_messages_carry_their_contents(text: Seq<char>, bytes: Seq<u8>, code: u32, reason: String)
    ensures
        payload_message(PayloadView::Text(text)) == MessageView::Text(text),
        payload_message(PayloadView::Binary(bytes)) == MessageView::Binary(bytes),
        close_code_for(Some(code)) as int == code as int % 0x10000,
        close_code_for(None) == 1000,
        close_reason_for(Some(reason)) == reason@,
        close_reason_for(None) == Seq::<char>::empty(),
{
}

/// A server's listener starts an accepted connection under the next id and
/// moves on to the following one; reports a failure to the error listener
/// exactly when there is one, keeping the id; and does nothing else on a
/// shutdown.
pub proof fn law_listener_events(l: ServerListeners, next: u32, error: Seq<char>)
    ensures
        listen_effects(l, next, ListenEventView::Accepted) == seq![ListenEffectView::StartPeer(next)],
        listen_next_id(next, ListenEventView::Accepted) as int == (next as int + 1) % 0x1_0000_0000,
        listen_effects(l, next, ListenEventView::AcceptFailed(error)) == (if l.error {
            seq![ListenEffectView::NotifyError(error)]
        } else {
            Seq::<ListenEffectView>::empty()
        }),
        listen_next_id(next, ListenEventView::AcceptFailed(error)) == next,
        listen_effects(l, next, ListenEventView::Shutdown) == Seq::<ListenEffectView>::empty(),
        listen_next_id(next, ListenEventView::Shutdown) == next,
{
    if l.error {
        assert(listen_effects(l, next, ListenEventView::AcceptFailed(error)) =~= seq![
            ListenEffectView::NotifyError(error),
        ]);
    } else {
        assert(listen_effects(l, next, ListenEventView::AcceptFailed(error)) =~= Seq::<
            ListenEffectView,
        >::empty());
    }
}

} // verus!
