//! The playback queue: which tracks were queued together, how many of them
//! have not finished yet, the volume and the pause state.
//!
//! The queue does not make sound. Each `play_songs` starts a new session
//! and returns the tracks that the audio output is to render in order;
//! the output reports each finished track back with the session it was
//! queued in, and reports from an earlier session are ignored.
use vstd::prelude::*;

use crate::dir_state::paths;

verus! {

/// The volume at full scale, in hundredths.
pub const MAX_VOLUME: u32 = 100;

/// The session number that follows `s`, wrapping at the largest `u64`.
pub open spec fn next_session(s: nat) -> nat {
    if s == u64::MAX as nat {
        0
    } else {
        s + 1
    }
}

/// `v` brought into `0..=MAX_VOLUME`.
pub open spec fn clamp_volume(v: int) -> nat {
    if v < 0 {
        0
    } else if v > MAX_VOLUME as int {
        MAX_VOLUME as nat
    } else {
        v as nat
    }
}

pub struct QueueView {
    pub playing: Seq<Seq<char>>,
    pub remaining: nat,
    pub volume: nat,
    pub paused: bool,
    pub session: nat,
}

impl QueueView {
    pub open spec fn wf(self) -> bool {
        &&& self.remaining <= self.playing.len()
        &&& self.volume <= MAX_VOLUME
        &&& self.session <= u64::MAX
    }

    /// Position of the track that is playing: the number of queued tracks
    /// minus those not finished yet.
    pub open spec fn index(self) -> int {
        self.playing.len() - self.remaining
    }

    /// A new session on `tracks`, from `start` on, on a fresh output that
    /// is not paused.
    pub open spec fn play(self, start: nat, tracks: Seq<Seq<char>>) -> QueueView {
        QueueView {
            playing: tracks,
            remaining: (tracks.len() - start) as nat,
            volume: self.volume,
            paused: false,
            session: next_session(self.session),
        }
    }

    /// A track of session `session` finished: counted only when it is the
    /// current session and some track is still outstanding.
    pub open spec fn finish(self, session: nat) -> QueueView {
        if session == self.session && self.remaining > 0 {
            QueueView { remaining: (self.remaining - 1) as nat, ..self }
        } else {
            self
        }
    }
}

/// The queue after `k` completions reported for `session`.
pub open spec fn finish_n(q: QueueView, session: nat, k: nat) -> QueueView
    decreases k,
{
    if k == 0 {
        q
    } else {
        finish_n(q, session, (k - 1) as nat).finish(session)
    }
}

pub struct Player {
    playing: Vec<String>,
    remaining: usize,
    volume: u32,
    paused: bool,
    session: u64,
}

impl View for Player {
    type V = QueueView;

    closed spec fn view(&self) -> QueueView {
        QueueView {
            playing: paths(self.playing@),
            remaining: self.remaining as nat,
            volume: self.volume as nat,
            paused: self.paused,
            session: self.session as nat,
        }
    }
}

fn clamp(v: i64) -> (r: u32)
    ensures
        r == clamp_volume(v as int),
{
    if v < 0 {
        0
    } else if v > MAX_VOLUME as i64 {
        MAX_VOLUME
    } else {
        v as u32
    }
}

impl Player {
    /// An empty queue at volume `volume` (hundredths, brought into range).
    pub fn new(volume: i64) -> (r: Player)
        ensures
            r@.wf(),
            r@.playing.len() == 0,
            r@.remaining == 0,
            r@.volume == clamp_volume(volume as int),
            !r@.paused,
            r@.session == 0,
    {
        Player { playing: Vec::new(), remaining: 0, volume: clamp(volume), paused: false, session: 0 }
    }

    /// Queues the single track `p`: the same as `play_songs(0, vec![p])`.
    pub fn play_song(&mut self, p: String) -> (r: Vec<String>)
        requires
            old(self)@.wf(),
        ensures
            final(self)@.wf(),
            final(self)@ == old(self)@.play(0, seq![p@]),
            paths(r@) == seq![p@],
    {
        let mut v: Vec<String> = Vec::new();
        v.push(p);
        proof {
            assert(paths(v@) =~= seq![p@]);
        }
        self.play_songs(0, v)
    }

    /// Starts a new session on `dir`, playing from `start` to the end:
    /// returns the tracks to hand to the audio output, in order.
    pub fn play_songs(&mut self, start: usize, dir: Vec<String>) -> (r: Vec<String>)
        requires
            old(self)@.wf(),
            start <= dir@.len(),
        ensures
            final(self)@.wf(),
            final(self)@ == old(self)@.play(start as nat, paths(dir@)),
            paths(r@) == paths(dir@).subrange(start as int, dir@.len() as int),
    {
        let n = dir.len();
        let mut queued: Vec<String> = Vec::new();
        let mut i: usize = start;
        while i < n
            invariant
                n == dir@.len(),
                start <= i <= n,
                paths(queued@) =~= paths(dir@).subrange(start as int, i as int),
            decreases n - i,
        {
            let c = dir[i].clone();
            let ghost before = queued@;
            queued.push(c);
            assert(paths(queued@) =~= paths(before).push(dir@[i as int]@));
            i += 1;
        }
        self.remaining = n - start;
        self.playing = dir;
        self.paused = false;
        self.session = if self.session == u64::MAX {
            0
        } else {
            self.session + 1
        };
        queued
    }

    /// Counts one finished track of session `session`. Returns whether it
    /// was counted: a report from another session, or one past the last
    /// track, changes nothing.
    pub fn track_finished(&mut self, session: u64) -> (r: bool)
        requires
            old(self)@.wf(),
        ensures
            final(self)@.wf(),
            final(self)@ == old(self)@.finish(session as nat),
            r == (session == old(self)@.session && old(self)@.remaining > 0),
    {
        if session == self.session && self.remaining > 0 {
            self.remaining -= 1;
            true
        } else {
            false
        }
    }

    /// The tracks of the current session.
    pub fn playing(&self) -> (r: &Vec<String>)
        ensures
            paths(r@) == self@.playing,
    {
        &self.playing
    }

    /// Position of the track that is playing; the number of tracks once
    /// they have all finished.
    pub fn index(&self) -> (r: usize)
        requires
            self@.wf(),
        ensures
            r == self@.index(),
    {
        self.playing.len() - self.remaining
    }

    /// How many tracks of the session have not finished yet.
    pub fn remaining(&self) -> (r: usize)
        ensures
            r == self@.remaining,
    {
        self.remaining
    }

    /// The path of the track that is playing, if one is.
    pub fn current(&self) -> (r: Option<String>)
        requires
            self@.wf(),
        ensures
            self@.remaining == 0 ==> r is None,
            self@.remaining > 0 ==> (r matches Some(p) && p@ == self@.playing[self@.index()]),
    {
        if self.remaining == 0 {
            None
        } else {
            Some(self.playing[self.playing.len() - self.remaining].clone())
        }
    }

    /// The session that the tracks playing now belong to.
    pub fn session(&self) -> (r: u64)
        ensures
            r == self@.session,
    {
        self.session
    }

    /// Whether the output is paused.
    pub fn is_paused(&self) -> (r: bool)
        ensures
            r == self@.paused,
    {
        self.paused
    }

    /// Pauses a playing output or resumes a paused one; returns whether it
    /// is paused now.
    pub fn toggle_pause(&mut self) -> (r: bool)
        requires
            old(self)@.wf(),
        ensures
            final(self)@.wf(),
            final(self)@ == (QueueView { paused: !old(self)@.paused, ..old(self)@ }),
            r == final(self)@.paused,
    {
        self.paused = !self.paused;
        self.paused
    }

    /// The volume, in hundredths of full scale.
    pub fn volume(&self) -> (r: u32)
        ensures
            r == self@.volume,
    {
        self.volume
    }

    /// Sets the volume to `v` hundredths, brought into `0..=MAX_VOLUME`.
    pub fn set_volume(&mut self, v: i64)
        requires
            old(self)@.wf(),
        ensures
            final(self)@.wf(),
            final(self)@ == (QueueView { volume: clamp_volume(v as int), ..old(self)@ }),
    {
        self.volume = clamp(v);
    }
}

proof fn lemma_finish_n(q: QueueView, k: nat)
    requires
        k <= q.remaining,
    ensures
        finish_n(q, q.session, k) == (QueueView { remaining: (q.remaining - k) as nat, ..q }),
    decreases k,
{
    if k > 0 {
        lemma_finish_n(q, (k - 1) as nat);
    }
}

proof fn lemma_finish_n_after_end(q: QueueView, m: nat)
    requires
        q.remaining == 0,
    ensures
        finish_n(q, q.session, m) == q,
    decreases m,
{
    if m > 0 {
        lemma_finish_n_after_end(q, (m - 1) as nat);
    }
}

/// Once every track of a session started at the first track has reported
/// its end, the position is the number of tracks and nothing is left;
/// before that, something is left; and further reports change nothing, so
/// the count reaches zero exactly once.
pub proof fn lemma_session_completes(q: QueueView, tracks: Seq<Seq<char>>)
    ensures
        ({
            let p = q.play(0, tracks);
            let done = finish_n(p, p.session, tracks.len());
            &&& done.remaining == 0
            &&& done.index() == tracks.len()
            &&& forall|k: nat| k < tracks.len() ==> #[trigger] finish_n(p, p.session, k).remaining > 0
            &&& forall|m: nat| #[trigger] finish_n(done, p.session, m) == done
        }),
{
    let p = q.play(0, tracks);
    lemma_finish_n(p, tracks.len());
    assert forall|k: nat| k < tracks.len() implies #[trigger] finish_n(p, p.session, k).remaining
        > 0 by {
        lemma_finish_n(p, k);
    }
    let done = finish_n(p, p.session, tracks.len());
    assert forall|m: nat| #[trigger] finish_n(done, p.session, m) == done by {
        lemma_finish_n_after_end(done, m);
    }
}

} // verus!
