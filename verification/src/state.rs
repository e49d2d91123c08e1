//! The shared playback state: the one structure the playback worker, the
//! duration probes and the UI poll all read or write.  Every access copies
//! or mutates plain fields, so a lock around the whole structure is held
//! only briefly; the locking itself belongs to the embedding application.

use vstd::prelude::*;

use crate::audio::AudioError;

verus! {

/// The playback-observable state: the active session's position, a
/// path-to-duration cache, whether playback stands stopped, and the last
/// fatal session error, kept for diagnostics.
pub struct SharedPlaybackState {
    /// Last published position of the active session, or 0 when stopped.
    pub current_time_ms: u64,
    /// True when no session is active or the active one was stopped.
    pub stopped: bool,
    /// The duration cache: entries are only ever added or overwritten.
    pub durations: Vec<(String, u64)>,
    /// The last fatal session error, if any.
    pub last_error: Option<AudioError>,
}

/// The duration cached for a path: the first entry bearing that path.
pub open spec fn spec_lookup(entries: Seq<(String, u64)>, path: Seq<char>) -> Option<u64>
    decreases entries.len(),
{
    if entries.len() == 0 {
        None
    } else if entries[0].0@ == path {
        Some(entries[0].1)
    } else {
        spec_lookup(entries.drop_first(), path)
    }
}

/// How one probe result changes the cache: the probed path now maps to
/// its duration, and every other path keeps exactly what it had.
pub open spec fn cache_updated(
    before: Seq<(String, u64)>,
    after: Seq<(String, u64)>,
    path: Seq<char>,
    ms: u64,
) -> bool {
    &&& spec_lookup(after, path) == Some(ms)
    &&& forall|k: Seq<char>| k != path ==> #[trigger] spec_lookup(after, k) == spec_lookup(
        before,
        k,
    )
}

/// Overwriting the first entry of a path, when no earlier entry bears
/// that path, rebinds that path and nothing else.
proof fn lemma_lookup_update(s: Seq<(String, u64)>, i: int, pair: (String, u64), k: Seq<char>)
    requires
        0 <= i < s.len(),
        s[i].0@ == pair.0@,
        forall|j: int| 0 <= j < i ==> (#[trigger] s[j]).0@ != pair.0@,
    ensures
        k == pair.0@ ==> spec_lookup(s.update(i, pair), k) == Some(pair.1),
        k != pair.0@ ==> spec_lookup(s.update(i, pair), k) == spec_lookup(s, k),
    decreases i,
{
    let t = s.update(i, pair);
    if i == 0 {
        assert(t[0] == pair);
        assert(t.drop_first() =~= s.drop_first());
    } else {
        assert(t[0] == s[0]);
        assert(s[0].0@ != pair.0@);
        assert(t.drop_first() =~= s.drop_first().update(i - 1, pair));
        assert(forall|j: int| 0 <= j < i - 1 ==> (#[trigger] s.drop_first()[j]) == s[j + 1]);
        lemma_lookup_update(s.drop_first(), i - 1, pair, k);
    }
}

/// Appending an entry for a path binds that path if it was unbound, and
/// changes nothing else.
proof fn lemma_lookup_push(s: Seq<(String, u64)>, pair: (String, u64), k: Seq<char>)
    ensures
        spec_lookup(s, k) is Some ==> spec_lookup(s.push(pair), k) == spec_lookup(s, k),
        spec_lookup(s, k) is None && k == pair.0@ ==> spec_lookup(s.push(pair), k) == Some(
            pair.1,
        ),
        spec_lookup(s, k) is None && k != pair.0@ ==> spec_lookup(s.push(pair), k) == None::<
            u64,
        >,
    decreases s.len(),
{
    let t = s.push(pair);
    if s.len() == 0 {
        assert(t[0] == pair);
        assert(t.drop_first() =~= Seq::<(String, u64)>::empty());
        if k == pair.0@ {
            assert(spec_lookup(t, k) == Some(pair.1));
        } else {
            assert(spec_lookup(t, k) == spec_lookup(t.drop_first(), k));
        }
    } else {
        assert(t[0] == s[0]);
        assert(t.drop_first() =~= s.drop_first().push(pair));
        lemma_lookup_push(s.drop_first(), pair, k);
        if s[0].0@ == k {
            assert(spec_lookup(t, k) == Some(s[0].1));
        } else {
            assert(spec_lookup(t, k) == spec_lookup(s.drop_first().push(pair), k));
            assert(spec_lookup(s, k) == spec_lookup(s.drop_first(), k));
        }
    }
}

/// A path borne by no entry is unbound.
proof fn lemma_lookup_absent(s: Seq<(String, u64)>, k: Seq<char>)
    requires
        forall|j: int| 0 <= j < s.len() ==> (#[trigger] s[j]).0@ != k,
    ensures
        spec_lookup(s, k) is None,
    decreases s.len(),
{
    if s.len() > 0 {
        assert(forall|j: int| 0 <= j < s.len() - 1 ==> (#[trigger] s.drop_first()[j]) == s[j + 1]);
        lemma_lookup_absent(s.drop_first(), k);
    }
}

impl SharedPlaybackState {
    /// The state at startup: position zero, stopped, an empty cache.
    pub fn new() -> (r: SharedPlaybackState)
        ensures
            r.current_time_ms == 0,
            r.stopped,
            r.last_error is None,
            r.durations@.len() == 0,
            forall|k: Seq<char>| #[trigger] spec_lookup(r.durations@, k) is None,
    {
        SharedPlaybackState {
            current_time_ms: 0,
            stopped: true,
            durations: Vec::new(),
            last_error: None,
        }
    }

    /// Publishes a probed duration: adds the path's entry or overwrites
    /// it with the fresher value.  No other entry changes, and entries
    /// are never removed.
    pub fn set_duration(&mut self, path: &String, ms: u64)
        ensures
            final(self).current_time_ms == old(self).current_time_ms,
            final(self).stopped == old(self).stopped,
            final(self).last_error == old(self).last_error,
            cache_updated(old(self).durations@, final(self).durations@, path@, ms),
    {
        let ghost s0 = self.durations@;
        let n: usize = self.durations.len();
        let mut i: usize = 0;
        while i < n
            invariant
                *self == *old(self),
                s0 == self.durations@,
                n == s0.len(),
                0 <= i <= n,
                forall|j: int| 0 <= j < i ==> (#[trigger] s0[j]).0@ != path@,
            decreases n - i,
        {
            if self.durations[i].0 == *path {
                let fresh = (path.clone(), ms);
                let ghost gp = fresh;
                self.durations.set(i, fresh);
                proof {
                    assert(self.durations@ == s0.update(i as int, gp));
                    assert forall|k: Seq<char>| k != path@ implies #[trigger] spec_lookup(
                        self.durations@,
                        k,
                    ) == spec_lookup(s0, k) by {
                        lemma_lookup_update(s0, i as int, gp, k);
                    }
                    lemma_lookup_update(s0, i as int, gp, path@);
                }
                return ;
            }
            i += 1;
        }
        let fresh = (path.clone(), ms);
        let ghost gp = fresh;
        self.durations.push(fresh);
        proof {
            lemma_lookup_absent(s0, path@);
            assert(self.durations@ == s0.push(gp));
            assert forall|k: Seq<char>| k != path@ implies #[trigger] spec_lookup(
                self.durations@,
                k,
            ) == spec_lookup(s0, k) by {
                lemma_lookup_push(s0, gp, k);
            }
            lemma_lookup_push(s0, gp, path@);
        }
    }

    /// The cached duration of a path, if one was ever probed.
    pub fn duration_of(&self, path: &String) -> (r: Option<u64>)
        ensures
            r == spec_lookup(self.durations@, path@),
    {
        let n: usize = self.durations.len();
        let mut i: usize = 0;
        proof {
            assert(self.durations@.skip(0) =~= self.durations@);
        }
        while i < n
            invariant
                n == self.durations@.len(),
                0 <= i <= n,
                spec_lookup(self.durations@, path@) == spec_lookup(
                    self.durations@.skip(i as int),
                    path@,
                ),
            decreases n - i,
        {
            assert(self.durations@.skip(i as int)[0] == self.durations@[i as int]);
            if self.durations[i].0 == *path {
                return Some(self.durations[i].1);
            }
            proof {
                assert(self.durations@.skip(i as int).drop_first() =~= self.durations@.skip(
                    i as int + 1,
                ));
            }
            i += 1;
        }
        proof {
            assert(self.durations@.skip(n as int) =~= Seq::<(String, u64)>::empty());
        }
        None
    }

    /// One consistent read of position and stopped flag, as the UI poll
    /// takes it.
    pub fn snapshot(&self) -> (r: (u64, bool))
        ensures
            r.0 == self.current_time_ms,
            r.1 == self.stopped,
    {
        (self.current_time_ms, self.stopped)
    }
}

/// Probe results for distinct paths commute: however two completions for
/// different paths land in the cache, each path ends bound to its own
/// duration — neither result overwrites the other.
pub proof fn lemma_distinct_probes_coexist(
    s0: Seq<(String, u64)>,
    s1: Seq<(String, u64)>,
    s2: Seq<(String, u64)>,
    p1: Seq<char>,
    d1: u64,
    p2: Seq<char>,
    d2: u64,
)
    requires
        p1 != p2,
        cache_updated(s0, s1, p1, d1),
        cache_updated(s1, s2, p2, d2),
    ensures
        spec_lookup(s2, p1) == Some(d1),
        spec_lookup(s2, p2) == Some(d2),
{
}

} // verus!
