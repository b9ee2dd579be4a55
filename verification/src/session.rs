//! Playback sessions and the registry that tracks them.
//!
//! A session moves through the statuses of [`PlaybackStatus`] as its media
//! is acquired, validated, played and cleaned up.  Every change goes through
//! [`SessionManager::update`], which applies one [`SessionUpdate`] and
//! records the time of the activity.

use std::collections::HashMap;
use std::path::PathBuf;

use vstd::prelude::*;
use vstd::std_specs::iter::IteratorSpec;

use crate::error::AppError;
use crate::external::{new_session_id, utc_now, uuid_text, uuid_text_spec};
use crate::models::{copy_opt_string, AcquisitionStage, ProgressReport, VideoMetadata};
use crate::text::owned;

verus! {

broadcast use vstd::std_specs::hash::group_hash_axioms;

/// A point in time: whole seconds since the Unix epoch and nanoseconds past
/// that second.
#[derive(Clone, Copy, Debug, PartialEq, Eq, Structural)]
pub struct Timestamp {
    pub secs: i64,
    pub nanos: u32,
}

/// A timestamp as nanoseconds since the Unix epoch.
pub open spec fn epoch_nanos(t: Timestamp) -> int {
    t.secs * 1_000_000_000 + t.nanos
}

/// Where a session is in its life.
#[derive(Clone, Copy, Debug, PartialEq, Eq, Structural)]
pub enum PlaybackStatus {
    Queued,
    Downloading,
    Processing,
    Ready,
    Playing,
    Completed,
    Failed,
    Expired,
}

/// One playback of one video.
#[derive(Debug)]
pub struct PlaybackSession {
    pub id: u128,
    pub video_id: String,
    pub metadata: VideoMetadata,
    pub status: PlaybackStatus,
    pub created_at: Timestamp,
    pub last_activity: Timestamp,
    pub media_path: Option<PathBuf>,
    pub progress: Option<ProgressReport>,
    pub error: Option<String>,
}

/// A freshly created session: queued, with nothing acquired yet.
pub open spec fn fresh_session(
    s: PlaybackSession,
    id: u128,
    video_id: String,
    metadata: VideoMetadata,
    now: Timestamp,
) -> bool {
    &&& s.id == id
    &&& s.video_id == video_id
    &&& s.metadata == metadata
    &&& s.status == PlaybackStatus::Queued
    &&& s.created_at == now
    &&& s.last_activity == now
    &&& s.media_path is None
    &&& s.progress is None
    &&& s.error is None
}

/// Whether more than `timeout_secs` seconds have passed since the session's
/// last activity.  A last activity later than `now` never counts as expired.
pub open spec fn is_expired_spec(s: PlaybackSession, timeout_secs: u64, now: Timestamp) -> bool {
    let elapsed = epoch_nanos(now) - epoch_nanos(s.last_activity);
    elapsed >= 0 && elapsed > timeout_secs * 1_000_000_000
}

fn copy_path(p: &Option<PathBuf>) -> (r: Option<PathBuf>)
    ensures
        r == *p,
{
    match p {
        Some(path) => Some(path.clone()),
        None => None,
    }
}

impl PlaybackSession {
    /// A new queued session for `video_id`, created at `now` with identifier
    /// `id`.
    pub fn new_at(id: u128, video_id: String, metadata: VideoMetadata, now: Timestamp) -> (r: Self)
        ensures
            fresh_session(r, id, video_id, metadata, now),
    {
        PlaybackSession {
            id,
            video_id,
            metadata,
            status: PlaybackStatus::Queued,
            created_at: now,
            last_activity: now,
            media_path: None,
            progress: None,
            error: None,
        }
    }

    /// A new queued session for `video_id` with a random identifier,
    /// created now.
    pub fn new(video_id: String, metadata: VideoMetadata) -> (r: Self)
        ensures
            fresh_session(r, r.id, video_id, metadata, r.created_at),
    {
        let id = new_session_id();
        let now = utc_now();
        Self::new_at(id, video_id, metadata, now)
    }

    /// Whether the session has been inactive for longer than `timeout_secs`
    /// seconds at `now`.
    pub fn is_expired(&self, timeout_secs: u64, now: Timestamp) -> (r: bool)
        ensures
            r == is_expired_spec(*self, timeout_secs, now),
    {
        let now_nanos: i128 = (now.secs as i128) * 1_000_000_000 + (now.nanos as i128);
        let last_nanos: i128 = (self.last_activity.secs as i128) * 1_000_000_000 + (
        self.last_activity.nanos as i128);
        let elapsed: i128 = now_nanos - last_nanos;
        let limit: i128 = (timeout_secs as i128) * 1_000_000_000;
        elapsed >= 0 && elapsed > limit
    }

    /// A field-by-field copy.
    pub fn duplicate(&self) -> (r: Self)
        ensures
            r == *self,
    {
        PlaybackSession {
            id: self.id,
            video_id: self.video_id.clone(),
            metadata: self.metadata.duplicate(),
            status: self.status,
            created_at: self.created_at,
            last_activity: self.last_activity,
            media_path: copy_path(&self.media_path),
            progress: self.progress,
            error: copy_opt_string(&self.error),
        }
    }
}

/// The changes the service makes to a session.
#[derive(Debug)]
pub enum SessionUpdate {
    /// Acquisition has started.
    BeginDownload,
    /// The acquisition reported progress.
    Progress(ProgressReport),
    /// The media was acquired and is being validated.
    BeginValidation,
    /// The media is ready at the given path.
    Ready(PathBuf),
    /// Acquisition or validation failed.
    Fail,
    /// The session was looked at; nothing but its activity time changes.
    Touch,
    /// The player started playing.
    MarkPlaying,
    /// The player finished.
    Complete,
    /// The session timed out.
    Expire,
}

/// The status a progress report of a stage puts a session in.
pub open spec fn stage_status(stage: AcquisitionStage) -> PlaybackStatus {
    match stage {
        AcquisitionStage::Downloading => PlaybackStatus::Downloading,
        AcquisitionStage::Processing => PlaybackStatus::Processing,
    }
}

/// The message stored on a session whose acquisition failed.
pub open spec fn failure_message() -> Seq<char> {
    "The media could not be acquired."@
}

/// `new` is `old` after update `u` at time `now`.
pub open spec fn updated(
    old: PlaybackSession,
    u: SessionUpdate,
    now: Timestamp,
    new: PlaybackSession,
) -> bool {
    &&& new.id == old.id
    &&& new.video_id == old.video_id
    &&& new.metadata == old.metadata
    &&& new.created_at == old.created_at
    &&& new.last_activity == now
    &&& match u {
        SessionUpdate::BeginDownload => {
            &&& new.status == PlaybackStatus::Downloading
            &&& new.media_path == old.media_path
            &&& new.progress == old.progress
            &&& new.error == old.error
        },
        SessionUpdate::Progress(p) => {
            &&& new.media_path == old.media_path
            &&& new.error == old.error
            &&& if old.status == PlaybackStatus::Downloading || old.status
                == PlaybackStatus::Processing {
                new.status == stage_status(p.stage) && new.progress == Some(p)
            } else {
                new.status == old.status && new.progress == old.progress
            }
        },
        SessionUpdate::BeginValidation => {
            &&& new.status == PlaybackStatus::Processing
            &&& new.progress == Some(ProgressReport::processing_spec())
            &&& new.media_path == old.media_path
            &&& new.error == old.error
        },
        SessionUpdate::Ready(path) => {
            &&& new.status == PlaybackStatus::Ready
            &&& new.media_path == Some(path)
            &&& new.progress is None
            &&& new.error == old.error
        },
        SessionUpdate::Fail => {
            &&& new.status == PlaybackStatus::Failed
            &&& new.media_path is None
            &&& new.progress is None
            &&& new.error matches Some(m) && m@ == failure_message()
        },
        SessionUpdate::Touch => {
            &&& new.status == old.status
            &&& new.media_path == old.media_path
            &&& new.progress == old.progress
            &&& new.error == old.error
        },
        SessionUpdate::MarkPlaying => {
            &&& new.status == (if old.status == PlaybackStatus::Ready {
                PlaybackStatus::Playing
            } else {
                old.status
            })
            &&& new.media_path == old.media_path
            &&& new.progress == old.progress
            &&& new.error == old.error
        },
        SessionUpdate::Complete => {
            &&& new.status == PlaybackStatus::Completed
            &&& new.media_path == old.media_path
            &&& new.progress == old.progress
            &&& new.error == old.error
        },
        SessionUpdate::Expire => {
            &&& new.status == PlaybackStatus::Expired
            &&& new.media_path == old.media_path
            &&& new.progress == old.progress
            &&& new.error == old.error
        },
    }
}

/// Applies one update to a session at time `now`.
pub fn apply_update(session: &mut PlaybackSession, u: SessionUpdate, now: Timestamp)
    ensures
        updated(*old(session), u, now, *final(session)),
{
    match u {
        SessionUpdate::BeginDownload => {
            session.status = PlaybackStatus::Downloading;
        },
        SessionUpdate::Progress(p) => {
            if session.status == PlaybackStatus::Downloading || session.status
                == PlaybackStatus::Processing {
                session.status =
                match p.stage {
                    AcquisitionStage::Downloading => PlaybackStatus::Downloading,
                    AcquisitionStage::Processing => PlaybackStatus::Processing,
                };
                session.progress = Some(p);
            }
        },
        SessionUpdate::BeginValidation => {
            session.status = PlaybackStatus::Processing;
            session.progress = Some(ProgressReport::processing());
        },
        SessionUpdate::Ready(path) => {
            session.status = PlaybackStatus::Ready;
            session.media_path = Some(path);
            session.progress = None;
        },
        SessionUpdate::Fail => {
            session.status = PlaybackStatus::Failed;
            session.error = Some(owned("The media could not be acquired."));
            session.media_path = None;
            session.progress = None;
        },
        SessionUpdate::Touch => {},
        SessionUpdate::MarkPlaying => {
            if session.status == PlaybackStatus::Ready {
                session.status = PlaybackStatus::Playing;
            }
        },
        SessionUpdate::Complete => {
            session.status = PlaybackStatus::Completed;
        },
        SessionUpdate::Expire => {
            session.status = PlaybackStatus::Expired;
        },
    }
    session.last_activity = now;
}

/// The in-memory registry of sessions, keyed by session identifier.
pub struct SessionManager {
    sessions: HashMap<u128, PlaybackSession>,
}

/// Every session is stored under its own identifier.
pub open spec fn keyed_by_id(m: Map<u128, PlaybackSession>) -> bool {
    forall|k: u128| #[trigger] m.contains_key(k) ==> m[k].id == k
}

impl View for SessionManager {
    type V = Map<u128, PlaybackSession>;

    closed spec fn view(&self) -> Map<u128, PlaybackSession> {
        self.sessions@
    }
}

/// `r` lists the sessions of registry `m` that are expired at `now` under
/// `timeout_secs`: each of them exactly once, and no other.
pub open spec fn expired_list(
    m: Map<u128, PlaybackSession>,
    timeout_secs: u64,
    now: Timestamp,
    r: Seq<PlaybackSession>,
) -> bool {
    &&& forall|i: int|
        0 <= i < r.len() ==> m.contains_key(#[trigger] r[i].id) && m[r[i].id] == r[i]
            && is_expired_spec(r[i], timeout_secs, now)
    &&& forall|k: u128|
        #[trigger] m.contains_key(k) && is_expired_spec(m[k], timeout_secs, now) ==> exists|i: int|
            0 <= i < r.len() && r[i] == m[k]
    &&& forall|i: int, j: int| 0 <= i < j < r.len() ==> r[i].id != r[j].id
}

impl SessionManager {
    #[verifier::type_invariant]
    closed spec fn inv(self) -> bool {
        keyed_by_id(self.sessions@)
    }

    /// An empty registry.
    pub fn new() -> (r: Self)
        ensures
            r@ == Map::<u128, PlaybackSession>::empty(),
            keyed_by_id(r@),
    {
        SessionManager { sessions: HashMap::new() }
    }

    /// Registers a new queued session created at `now` under `id`, and
    /// returns it.  A session already registered under `id` is replaced.
    pub fn create_at(
        &mut self,
        id: u128,
        video_id: String,
        metadata: VideoMetadata,
        now: Timestamp,
    ) -> (r: PlaybackSession)
        ensures
            fresh_session(r, id, video_id, metadata, now),
            final(self)@ == old(self)@.insert(id, r),
            keyed_by_id(final(self)@),
    {
        proof {
            use_type_invariant(&*self);
        }
        let session = PlaybackSession::new_at(id, video_id, metadata, now);
        let copy = session.duplicate();
        let mut map = HashMap::new();
        std::mem::swap(&mut map, &mut self.sessions);
        map.insert(id, session);
        self.sessions = map;
        copy
    }

    /// Registers a new queued session with a random identifier, created
    /// now, and returns it.
    pub fn create(&mut self, video_id: String, metadata: VideoMetadata) -> (r: PlaybackSession)
        ensures
            fresh_session(r, r.id, video_id, metadata, r.created_at),
            final(self)@ == old(self)@.insert(r.id, r),
            keyed_by_id(final(self)@),
    {
        let id = new_session_id();
        let now = utc_now();
        self.create_at(id, video_id, metadata, now)
    }

    /// The session registered under `id`.
    pub fn get(&self, id: u128) -> (r: Result<PlaybackSession, AppError>)
        ensures
            self@.contains_key(id) ==> (r matches Ok(s) && s == self@[id]),
            !self@.contains_key(id) ==> (r matches Err(AppError::SessionNotFound)),
    {
        match self.sessions.get(&id) {
            Some(s) => Ok(s.duplicate()),
            None => Err(AppError::SessionNotFound),
        }
    }

    /// Applies `u` at time `now` to the session registered under `id` and
    /// returns the updated session.  An unknown `id` changes nothing.
    pub fn update_at(&mut self, id: u128, u: SessionUpdate, now: Timestamp) -> (r: Result<
        PlaybackSession,
        AppError,
    >)
        ensures
            !old(self)@.contains_key(id) ==> (r matches Err(AppError::SessionNotFound)
                && final(self)@ == old(self)@),
            old(self)@.contains_key(id) ==> (r matches Ok(s) && updated(old(self)@[id], u, now, s)
                && final(self)@ == old(self)@.insert(id, s)),
    {
        proof {
            use_type_invariant(&*self);
        }
        let mut map = HashMap::new();
        std::mem::swap(&mut map, &mut self.sessions);
        match map.remove(&id) {
            Some(mut session) => {
                apply_update(&mut session, u, now);
                let copy = session.duplicate();
                map.insert(id, session);
                assert(map@ =~= old(self)@.insert(id, copy));
                self.sessions = map;
                Ok(copy)
            },
            None => {
                assert(map@ =~= old(self)@);
                self.sessions = map;
                Err(AppError::SessionNotFound)
            },
        }
    }

    /// Applies `u` now to the session registered under `id`.
    pub fn update(&mut self, id: u128, u: SessionUpdate) -> (r: Result<PlaybackSession, AppError>)
        ensures
            !old(self)@.contains_key(id) ==> (r matches Err(AppError::SessionNotFound)
                && final(self)@ == old(self)@),
            old(self)@.contains_key(id) ==> (r matches Ok(s) && updated(
                old(self)@[id],
                u,
                s.last_activity,
                s,
            ) && final(self)@ == old(self)@.insert(id, s)),
    {
        let now = utc_now();
        self.update_at(id, u, now)
    }

    /// Removes the session registered under `id` and returns it.
    pub fn remove(&mut self, id: u128) -> (r: Option<PlaybackSession>)
        ensures
            final(self)@ == old(self)@.remove(id),
            r == (if old(self)@.contains_key(id) {
                Some(old(self)@[id])
            } else {
                None
            }),
    {
        proof {
            use_type_invariant(&*self);
        }
        let mut map = HashMap::new();
        std::mem::swap(&mut map, &mut self.sessions);
        let r = map.remove(&id);
        assert(map@ =~= old(self)@.remove(id));
        self.sessions = map;
        r
    }

    /// The sessions inactive for longer than `timeout_secs` seconds at
    /// `now`, each once, in no particular order.
    pub fn expired_at(&self, timeout_secs: u64, now: Timestamp) -> (r: Vec<PlaybackSession>)
        ensures
            expired_list(self@, timeout_secs, now, r@),
    {
        proof {
            use_type_invariant(self);
        }
        let mut r: Vec<PlaybackSession> = Vec::new();
        let ghost m = self.sessions@;
        let ghost mut src: Seq<int> = Seq::empty();
        let ghost pairs = vstd::std_specs::hash::spec_hash_map_iter(&self.sessions).remaining();
        for pair in it: self.sessions.iter()
            invariant
                it.seq() == pairs,
                m == self.sessions@,
                keyed_by_id(m),
                it.seq().len() == m.dom().len(),
                it.seq().no_duplicates(),
                forall|i: int|
                    0 <= i < it.seq().len() ==> m.contains_key(*#[trigger] it.seq()[i].0) && m[*it.seq()[i].0]
                        == *it.seq()[i].1,
                forall|k: u128| #[trigger] m.contains_key(k) ==> it.seq().contains((&k, &m[k])),
                forall|i: int|
                    0 <= i < r@.len() ==> m.contains_key(#[trigger] r@[i].id) && m[r@[i].id] == r@[i]
                        && is_expired_spec(r@[i], timeout_secs, now),
                forall|j: int|
                    0 <= j < it.index() && is_expired_spec(*#[trigger] it.seq()[j].1, timeout_secs, now)
                        ==> exists|i: int| 0 <= i < r@.len() && r@[i] == *it.seq()[j].1,
                src.len() == r@.len(),
                forall|i: int|
                    0 <= i < r@.len() ==> 0 <= #[trigger] src[i] < it.index() && r@[i].id
                        == *it.seq()[src[i]].0,
                forall|i: int, j: int| 0 <= i < j < r@.len() ==> src[i] < src[j],
                forall|i: int, j: int| 0 <= i < j < r@.len() ==> r@[i].id != r@[j].id,
        {
            let ghost idx = it.index();
            let ghost old_r = r@;
            let (key, session) = pair;
            assert(it.seq()[idx] == (key, session));
            if session.is_expired(timeout_secs, now) {
                let copy = session.duplicate();
                proof {
                    assert forall|i: int| 0 <= i < r@.len() implies r@[i].id != *key by {
                        let p = it.seq()[src[i]];
                        assert(src[i] != idx);
                        if *p.0 == *key {
                            assert(*p.1 == m[*key]);
                            assert(*session == m[*key]);
                            assert(p == it.seq()[idx]);
                            assert(false);
                        }
                    }
                    src = src.push(idx);
                }
                r.push(copy);
            }
            proof {
                assert forall|j: int|
                    0 <= j < idx + 1 && is_expired_spec(*#[trigger] it.seq()[j].1, timeout_secs, now)
                    implies exists|i: int| 0 <= i < r@.len() && r@[i] == *it.seq()[j].1 by {
                    if j == idx {
                        assert(r@[r@.len() - 1] == *session);
                    } else {
                        let i0 = choose|i: int| 0 <= i < old_r.len() && old_r[i] == *it.seq()[j].1;
                        assert(r@[i0] == old_r[i0]);
                    }
                }
            }
        }
        proof {
            assert forall|k: u128|
                #[trigger] m.contains_key(k) && is_expired_spec(m[k], timeout_secs, now)
                implies exists|i: int| 0 <= i < r@.len() && r@[i] == m[k] by {
                let j = choose|j: int| 0 <= j < pairs.len() && pairs[j] == (&k, &m[k]);
                assert(*pairs[j].1 == m[k]);
            }
        }
        r
    }

    /// The sessions inactive for longer than `timeout_secs` seconds now:
    /// exactly those expired at the moment of the call.
    pub fn expired(&self, timeout_secs: u64) -> (r: Vec<PlaybackSession>)
        ensures
            exists|now: Timestamp| #[trigger] expired_list(self@, timeout_secs, now, r@),
    {
        let now = utc_now();
        let r = self.expired_at(timeout_secs, now);
        assert(expired_list(self@, timeout_secs, now, r@));
        r
    }
}

impl Default for SessionManager {
    fn default() -> (r: Self)
        ensures
            r@ == Map::<u128, PlaybackSession>::empty(),
    {
        SessionManager::new()
    }
}

/// The name of a session's cache directory: its identifier in hyphenated
/// lower-case form.
pub fn session_dir_name(id: u128) -> (r: String)
    ensures
        r@ == uuid_text_spec(id),
{
    uuid_text(id)
}

} // verus!
