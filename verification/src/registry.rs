//! The per-match notification registry: one broadcast channel per match,
//! created on first use and discarded once the last subscriber is gone, and
//! a cache of the last snapshot sent for each match. The cache is what lag
//! recovery leans on: a session that has fallen behind the channel's buffer
//! is not replayed the missed messages — it is pushed the freshest cached
//! snapshot instead, because a snapshot, not an event log, is the
//! protocol's unit of truth.
//!
//! The registry is an explicit, injected object rather than process-global
//! state, so channel lifecycle is visible and several simulated services
//! can coexist in one process. `session_step` is the decision half of a
//! live session's outbound loop: the caller performs the returned action on
//! the socket.

use vstd::prelude::*;

verus! {

/// First-match lookup in an association list.
pub open spec fn lookup<V>(entries: Seq<(i32, V)>, k: i32) -> Option<V>
    decreases entries.len(),
{
    if entries.len() == 0 {
        None
    } else if entries[0].0 == k {
        Some(entries[0].1)
    } else {
        lookup(entries.drop_first(), k)
    }
}

/// Keys appear at most once.
pub open spec fn unique_keys<V>(entries: Seq<(i32, V)>) -> bool {
    forall|i: int, j: int|
        0 <= i < j < entries.len() ==> (#[trigger] entries[i]).0 != (#[trigger] entries[j]).0
}

/// If row `i` is the first one carrying `k`, the lookup returns its value.
proof fn lemma_lookup_first<V>(entries: Seq<(i32, V)>, k: i32, i: int)
    requires
        0 <= i < entries.len(),
        entries[i].0 == k,
        forall|j: int| 0 <= j < i ==> (#[trigger] entries[j]).0 != k,
    ensures
        lookup(entries, k) == Some(entries[i].1),
    decreases i,
{
    if i > 0 {
        lemma_lookup_first(entries.drop_first(), k, i - 1);
    }
}

/// If no row carries `k`, the lookup comes back empty.
proof fn lemma_lookup_none<V>(entries: Seq<(i32, V)>, k: i32)
    requires
        forall|j: int| 0 <= j < entries.len() ==> (#[trigger] entries[j]).0 != k,
    ensures
        lookup(entries, k) is None,
    decreases entries.len(),
{
    if entries.len() > 0 {
        lemma_lookup_none(entries.drop_first(), k);
    }
}

/// Appending a fresh key affects only that key's lookup.
proof fn lemma_lookup_push<V>(entries: Seq<(i32, V)>, k: i32, v: V, p: i32)
    ensures
        lookup(entries.push((k, v)), p) == if lookup(entries, p) is Some {
            lookup(entries, p)
        } else if p == k {
            Some(v)
        } else {
            None::<V>
        },
    decreases entries.len(),
{
    if entries.len() == 0 {
        assert(entries.push((k, v)).drop_first() =~= entries);
    } else {
        assert(entries.push((k, v)).drop_first() =~= entries.drop_first().push((k, v)));
        lemma_lookup_push(entries.drop_first(), k, v, p);
    }
}

/// Updating row `i` in place (same key) affects only that key's lookup,
/// provided keys are unique.
proof fn lemma_lookup_update<V>(entries: Seq<(i32, V)>, i: int, v: V, p: i32)
    requires
        unique_keys(entries),
        0 <= i < entries.len(),
    ensures
        lookup(entries.update(i, (entries[i].0, v)), p) == if p == entries[i].0 {
            Some(v)
        } else {
            lookup(entries, p)
        },
    decreases i,
{
    let updated = entries.update(i, (entries[i].0, v));
    if i == 0 {
        if p != entries[0].0 {
            assert(updated.drop_first() =~= entries.drop_first());
        }
    } else {
        assert(updated.drop_first() =~= entries.drop_first().update(i - 1, (entries[i].0, v)));
        lemma_lookup_update(entries.drop_first(), i - 1, v, p);
        if p == entries[i].0 {
            assert(entries[0].0 != entries[i].0);
        }
    }
}

/// Removing row `i` erases exactly its key from the lookup, provided keys
/// are unique.
proof fn lemma_lookup_remove<V>(entries: Seq<(i32, V)>, i: int, p: i32)
    requires
        unique_keys(entries),
        0 <= i < entries.len(),
    ensures
        lookup(entries.remove(i), p) == if p == entries[i].0 {
            None::<V>
        } else {
            lookup(entries, p)
        },
    decreases i,
{
    let removed = entries.remove(i);
    if i == 0 {
        assert(removed =~= entries.drop_first());
        if p == entries[0].0 {
            assert(forall|j: int|
                0 <= j < removed.len() ==> (#[trigger] removed[j]).0 != entries[0].0);
            lemma_lookup_none(removed, p);
        }
    } else {
        assert(removed.drop_first() =~= entries.drop_first().remove(i - 1));
        lemma_lookup_remove(entries.drop_first(), i - 1, p);
        if p == entries[i].0 {
            assert(entries[0].0 != entries[i].0);
        }
    }
}

/// What a session's outbound loop is told to do with one bus event.
#[derive(Debug)]
pub enum SessionAction {
    /// Write this text frame to the socket.
    Forward(String),
    /// The session lagged: write the cached snapshot instead of the missed
    /// messages.
    PushSnapshot(String),
    /// Nothing to do (self-echo suppressed, or lag with nothing cached).
    Ignore,
    /// The channel is gone; end the session.
    Stop,
}

/// One event seen by a session's outbound loop.
#[derive(Debug)]
pub enum BusEvent {
    /// A broadcast message; relays carry the origin identity, plain
    /// signals carry none and reach every subscriber.
    Message { uid_origen: Option<i32>, texto: String },
    /// The session fell behind the channel's bounded buffer.
    Lagged,
    /// The channel was closed.
    Closed,
}

/// Per-match broadcast channels (as subscriber counts) and the cached last
/// snapshot of each match.
pub struct ChannelRegistry {
    pub canales: Vec<(i32, u32)>,
    pub ultimos: Vec<(i32, String)>,
}

impl ChannelRegistry {
    /// Subscriber count of a match's channel, if the channel exists.
    pub open spec fn receptores(self, partida: i32) -> Option<u32> {
        lookup(self.canales@, partida)
    }

    /// The cached last snapshot of a match, if any.
    pub open spec fn cached(self, partida: i32) -> Option<Seq<char>> {
        match lookup(self.ultimos@, partida) {
            Some(s) => Some(s@),
            None => None,
        }
    }

    /// Keys are unique in both tables.
    pub open spec fn wf(self) -> bool {
        unique_keys(self.canales@) && unique_keys(self.ultimos@)
    }

    /// An empty registry: no channels, nothing cached.
    pub fn new() -> (r: Self)
        ensures
            r.wf(),
            forall|p: i32| r.receptores(p) is None,
            forall|p: i32| r.cached(p) is None,
    {
        let r = ChannelRegistry { canales: Vec::new(), ultimos: Vec::new() };
        proof {
            assert forall|p: i32| r.receptores(p) is None by {
                lemma_lookup_none(r.canales@, p);
            }
            assert forall|p: i32| r.cached(p) is None by {
                lemma_lookup_none(r.ultimos@, p);
            }
        }
        r
    }

    /// Index of a match's channel entry, if the channel exists.
    fn find_canal(&self, partida: i32) -> (r: Option<usize>)
        requires
            self.wf(),
        ensures
            match r {
                Some(i) => i < self.canales@.len() && self.canales@[i as int].0 == partida
                    && self.receptores(partida) == Some(self.canales@[i as int].1),
                None => self.receptores(partida) is None,
            },
    {
        let mut i: usize = 0;
        while i < self.canales.len()
            invariant
                i <= self.canales.len(),
                forall|j: int| 0 <= j < i ==> (#[trigger] self.canales@[j]).0 != partida,
            decreases self.canales.len() - i,
        {
            if self.canales[i].0 == partida {
                proof {
                    lemma_lookup_first(self.canales@, partida, i as int);
                }
                return Some(i);
            }
            i += 1;
        }
        proof {
            lemma_lookup_none(self.canales@, partida);
        }
        None
    }

    /// Ensures a channel exists for the match, as connecting the first
    /// session does; an existing channel and all caches are untouched.
    pub fn get_or_create_channel(&mut self, partida: i32)
        requires
            old(self).wf(),
        ensures
            final(self).wf(),
            forall|p: i32|
                final(self).receptores(p) == if p == partida && old(self).receptores(p) is None {
                    Some(0u32)
                } else {
                    old(self).receptores(p)
                },
            forall|p: i32| final(self).cached(p) == old(self).cached(p),
    {
        let existing = self.find_canal(partida);
        if existing.is_none() {
            proof {
                lemma_lookup_none_from_lookup(self.canales@, partida);
            }
            self.canales.push((partida, 0));
            proof {
                assert forall|p: i32| #[trigger]
                    lookup(final(self).canales@, p) == (if p == partida && lookup(
                        old(self).canales@,
                        p,
                    ) is None {
                        Some(0u32)
                    } else {
                        lookup(old(self).canales@, p)
                    }) by {
                    lemma_lookup_push(old(self).canales@, partida, 0u32, p);
                }
            }
        }
    }

    /// One more session subscribes to the match's channel, creating the
    /// channel if it did not exist yet.
    pub fn subscribe(&mut self, partida: i32)
        requires
            old(self).wf(),
            match old(self).receptores(partida) {
                Some(n) => n < u32::MAX,
                None => true,
            },
        ensures
            final(self).wf(),
            forall|p: i32|
                final(self).receptores(p) == if p == partida {
                    match old(self).receptores(partida) {
                        Some(n) => Some((n + 1) as u32),
                        None => Some(1u32),
                    }
                } else {
                    old(self).receptores(p)
                },
            forall|p: i32| final(self).cached(p) == old(self).cached(p),
    {
        match self.find_canal(partida) {
            Some(i) => {
                let n = self.canales[i].1;
                self.canales[i] = (partida, n + 1);
                proof {
                    assert(final(self).canales@ =~= old(self).canales@.update(
                        i as int,
                        (old(self).canales@[i as int].0, (n + 1) as u32),
                    ));
                    assert forall|p: i32| #[trigger]
                        lookup(final(self).canales@, p) == (if p == partida {
                            Some((n + 1) as u32)
                        } else {
                            lookup(old(self).canales@, p)
                        }) by {
                        lemma_lookup_update(old(self).canales@, i as int, (n + 1) as u32, p);
                    }
                }
            },
            None => {
                proof {
                    lemma_lookup_none_from_lookup(self.canales@, partida);
                }
                self.canales.push((partida, 1));
                proof {
                    assert forall|p: i32| #[trigger]
                        lookup(final(self).canales@, p) == (if p == partida {
                            Some(1u32)
                        } else {
                            lookup(old(self).canales@, p)
                        }) by {
                        lemma_lookup_push(old(self).canales@, partida, 1u32, p);
                    }
                }
            },
        }
    }

    /// One session of the match disconnects; the channel entry itself is
    /// only discarded by `remove_channel_if_empty`.
    pub fn unsubscribe(&mut self, partida: i32)
        requires
            old(self).wf(),
        ensures
            final(self).wf(),
            forall|p: i32|
                final(self).receptores(p) == if p == partida {
                    match old(self).receptores(partida) {
                        Some(n) => Some(if n > 0 {
                            (n - 1) as u32
                        } else {
                            0u32
                        }),
                        None => None::<u32>,
                    }
                } else {
                    old(self).receptores(p)
                },
            forall|p: i32| final(self).cached(p) == old(self).cached(p),
    {
        match self.find_canal(partida) {
            Some(i) => {
                let n = self.canales[i].1;
                let m: u32 = if n > 0 {
                    n - 1
                } else {
                    0
                };
                self.canales[i] = (partida, m);
                proof {
                    assert(final(self).canales@ =~= old(self).canales@.update(
                        i as int,
                        (old(self).canales@[i as int].0, m),
                    ));
                    assert forall|p: i32| #[trigger]
                        lookup(final(self).canales@, p) == (if p == partida {
                            Some(m)
                        } else {
                            lookup(old(self).canales@, p)
                        }) by {
                        lemma_lookup_update(old(self).canales@, i as int, m, p);
                    }
                }
            },
            None => {},
        }
    }

    /// Discards the match's channel if nobody is subscribed any more, so
    /// channels do not leak across match lifetimes.
    pub fn remove_channel_if_empty(&mut self, partida: i32)
        requires
            old(self).wf(),
        ensures
            final(self).wf(),
            forall|p: i32|
                final(self).receptores(p) == if p == partida && old(self).receptores(partida)
                    == Some(0u32) {
                    None::<u32>
                } else {
                    old(self).receptores(p)
                },
            forall|p: i32| final(self).cached(p) == old(self).cached(p),
    {
        match self.find_canal(partida) {
            Some(i) => {
                if self.canales[i].1 == 0 {
                    self.canales.remove(i);
                    proof {
                        assert forall|p: i32| #[trigger]
                            lookup(final(self).canales@, p) == (if p == partida {
                                None::<u32>
                            } else {
                                lookup(old(self).canales@, p)
                            }) by {
                            lemma_lookup_remove(old(self).canales@, i as int, p);
                        }
                    }
                }
            },
            None => {},
        }
    }

    /// Caches the latest snapshot text for the match, replacing any older
    /// one. This is what lag recovery will serve.
    pub fn save_last_snapshot(&mut self, partida: i32, snapshot_json: String)
        requires
            old(self).wf(),
        ensures
            final(self).wf(),
            forall|p: i32|
                final(self).cached(p) == if p == partida {
                    Some(snapshot_json@)
                } else {
                    old(self).cached(p)
                },
            forall|p: i32| final(self).receptores(p) == old(self).receptores(p),
    {
        let mut i: usize = 0;
        while i < self.ultimos.len()
            invariant
                i <= self.ultimos.len(),
                forall|j: int| 0 <= j < i ==> (#[trigger] self.ultimos@[j]).0 != partida,
                *self == *old(self),
                old(self).wf(),
            decreases self.ultimos.len() - i,
        {
            if self.ultimos[i].0 == partida {
                self.ultimos[i] = (partida, snapshot_json);
                proof {
                    assert(final(self).ultimos@ =~= old(self).ultimos@.update(
                        i as int,
                        (old(self).ultimos@[i as int].0, final(self).ultimos@[i as int].1),
                    ));
                    assert forall|p: i32| #[trigger]
                        final(self).cached(p) == (if p == partida {
                            Some(final(self).ultimos@[i as int].1@)
                        } else {
                            old(self).cached(p)
                        }) by {
                        lemma_lookup_update(
                            old(self).ultimos@,
                            i as int,
                            final(self).ultimos@[i as int].1,
                            p,
                        );
                    }
                }
                return ;
            }
            i += 1;
        }
        proof {
            lemma_lookup_none(self.ultimos@, partida);
        }
        self.ultimos.push((partida, snapshot_json));
        proof {
            assert forall|p: i32| #[trigger]
                final(self).cached(p) == (if p == partida {
                    Some(final(self).ultimos@.last().1@)
                } else {
                    old(self).cached(p)
                }) by {
                lemma_lookup_push(
                    old(self).ultimos@,
                    partida,
                    final(self).ultimos@.last().1,
                    p,
                );
            }
        }
    }

    /// The cached last snapshot of the match, if one was ever saved.
    pub fn get_last_snapshot(&self, partida: i32) -> (r: Option<String>)
        requires
            self.wf(),
        ensures
            match r {
                Some(s) => self.cached(partida) == Some(s@),
                None => self.cached(partida) is None,
            },
    {
        let mut i: usize = 0;
        while i < self.ultimos.len()
            invariant
                i <= self.ultimos.len(),
                forall|j: int| 0 <= j < i ==> (#[trigger] self.ultimos@[j]).0 != partida,
                self.wf(),
            decreases self.ultimos.len() - i,
        {
            if self.ultimos[i].0 == partida {
                proof {
                    lemma_lookup_first(self.ultimos@, partida, i as int);
                }
                return Some(self.ultimos[i].1.clone());
            }
            i += 1;
        }
        proof {
            lemma_lookup_none(self.ultimos@, partida);
        }
        None
    }

    /// Decides what a session's outbound loop does with one bus event:
    /// suppress the sender's own echo, forward everything else, answer lag
    /// with the cached snapshot, and stop when the channel closes.
    pub fn session_step(&self, partida: i32, uid: i32, event: BusEvent) -> (a: SessionAction)
        requires
            self.wf(),
        ensures
            match event {
                BusEvent::Message { uid_origen, texto } => if uid_origen == Some(uid) {
                    a is Ignore
                } else {
                    a matches SessionAction::Forward(t) && t@ == texto@
                },
                BusEvent::Lagged => match self.cached(partida) {
                    Some(s) => a matches SessionAction::PushSnapshot(j) && j@ == s,
                    None => a is Ignore,
                },
                BusEvent::Closed => a is Stop,
            },
    {
        match event {
            BusEvent::Message { uid_origen, texto } => {
                let es_eco = match uid_origen {
                    Some(o) => o == uid,
                    None => false,
                };
                if es_eco {
                    SessionAction::Ignore
                } else {
                    SessionAction::Forward(texto)
                }
            },
            BusEvent::Lagged => {
                match self.get_last_snapshot(partida) {
                    Some(s) => SessionAction::PushSnapshot(s),
                    None => SessionAction::Ignore,
                }
            },
            BusEvent::Closed => SessionAction::Stop,
        }
    }
}

/// Bridges an `Option`-shaped search result back to the lookup function.
proof fn lemma_lookup_none_from_lookup<V>(entries: Seq<(i32, V)>, k: i32)
    requires
        lookup(entries, k) is None,
    ensures
        forall|j: int| 0 <= j < entries.len() ==> (#[trigger] entries[j]).0 != k,
    decreases entries.len(),
{
    if entries.len() > 0 {
        lemma_lookup_none_from_lookup(entries.drop_first(), k);
        assert forall|j: int| 0 <= j < entries.len() implies (#[trigger] entries[j]).0 != k by {
            if j > 0 {
                assert(entries.drop_first()[j - 1] == entries[j]);
            }
        }
    }
}

/// Tags one inbound client frame with its sender before it is relayed:
/// inbound messages are advisory and always carry their origin, so
/// receivers can suppress self-echo and never mistake them for
/// authoritative state.
pub fn tag_inbound(uid: i32, texto: String) -> (e: BusEvent)
    ensures
        e matches BusEvent::Message { uid_origen, texto: t } && uid_origen == Some(uid) && t@
            == texto@,
{
    BusEvent::Message { uid_origen: Some(uid), texto }
}

} // verus!
