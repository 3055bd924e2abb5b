use std::collections::HashMap;
use vstd::prelude::*;
use vstd::std_specs::convert::FromSpecImpl;

use crate::api_model::DataProviderValueId;

verus! {

broadcast use vstd::std_specs::hash::group_hash_axioms;

/// How a virtual file transfer ended, as told to its `on_done` callback.
#[derive(Debug, Clone, PartialEq, Eq)]
pub enum VirtualFileResult {
    Done,
    Error { message: String },
    Cancelled,
}

/// Keeps a virtual file session alive.
pub struct VirtualSessionHandle;

/// Errors of the data provider manager.
#[derive(Debug, Clone, Copy, PartialEq, Eq, Structural)]
pub enum NativeExtensionsError {
    /// A message named a virtual file session that is not open.
    VirtualFileSessionNotFound,
}

/// Identifies an open virtual file session.
#[derive(Debug, Clone, Copy, PartialEq, Eq, Structural, Hash)]
pub struct VirtualSessionId(i64);

impl VirtualSessionId {
    /// The raw identifier.
    pub closed spec fn id(self) -> i64 {
        self.0
    }
}

impl From<i64> for VirtualSessionId {
    fn from(value: i64) -> (r: Self)
        ensures
            r.id() == value,
    {
        Self(value)
    }
}

impl FromSpecImpl<i64> for VirtualSessionId {
    open spec fn obeys_from_spec() -> bool {
        true
    }

    closed spec fn from_spec(v: i64) -> Self {
        VirtualSessionId(v)
    }
}

/// What a session's callbacks are told, in order.
#[derive(Debug, Clone, PartialEq, Eq)]
pub enum SessionNotice {
    /// `on_progress` receives the progress that came with the message.
    Progress,
    /// `on_size_known` receives `Some(size)`.
    SizeKnown(i64),
    /// `on_size_known` receives `None`.
    SizeUnknown,
    /// `on_done` receives the result; the session is over.
    Finished(VirtualFileResult),
}

/// Dart reports the size of a virtual file.
pub struct VirtualFileSizeKnown {
    pub session_id: VirtualSessionId,
    pub file_size: i64,
}

/// Dart reports that a virtual file was written completely.
pub struct VirtualFileComplete {
    pub session_id: VirtualSessionId,
}

/// Dart reports that a virtual file transfer was cancelled.
pub struct VirtualFileCancel {
    pub session_id: VirtualSessionId,
}

/// Dart reports that a virtual file transfer failed.
pub struct VirtualFileError {
    pub session_id: VirtualSessionId,
    pub error_message: String,
}

/// The reply to a message about a session: the notices for its callbacks, or
/// the error.
pub type SessionReply = Result<Seq<SessionNotice>, NativeExtensionsError>;

/// The view of an executable reply.
pub open spec fn reply_view(r: Result<Vec<SessionNotice>, NativeExtensionsError>) -> SessionReply {
    match r {
        Ok(v) => Ok(v@),
        Err(e) => Err(e),
    }
}

/// The reply for session `id` of the sessions `s` (each mapped to whether its
/// size was reported): `notices` when the session is open, else the error.
pub open spec fn reply_if_open(
    s: Map<i64, bool>,
    id: i64,
    notices: Seq<SessionNotice>,
) -> SessionReply {
    if s.contains_key(id) {
        Ok(notices)
    } else {
        Err(NativeExtensionsError::VirtualFileSessionNotFound)
    }
}

/// The notices that end a session: `on_size_known(None)` when no size was
/// reported, then `on_done(result)`.
pub open spec fn close_notices(size_known: bool, result: VirtualFileResult) -> Seq<SessionNotice> {
    if size_known {
        seq![SessionNotice::Finished(result)]
    } else {
        seq![SessionNotice::SizeUnknown, SessionNotice::Finished(result)]
    }
}

/// An event in a session's life, as a message from Dart delivers it.
pub enum SessionEvent {
    Progress,
    SizeKnown(i64),
    Close(VirtualFileResult),
}

/// The sessions after `e` for session `id`.
pub open spec fn state_after(s: Map<i64, bool>, id: i64, e: SessionEvent) -> Map<i64, bool> {
    if !s.contains_key(id) {
        s
    } else {
        match e {
            SessionEvent::Progress => s,
            SessionEvent::SizeKnown(_) => s.insert(id, true),
            SessionEvent::Close(_) => s.remove(id),
        }
    }
}

/// The reply to `e` for session `id`.
pub open spec fn reply_to(s: Map<i64, bool>, id: i64, e: SessionEvent) -> SessionReply {
    match e {
        SessionEvent::Progress => reply_if_open(s, id, seq![SessionNotice::Progress]),
        SessionEvent::SizeKnown(size) => reply_if_open(s, id, seq![SessionNotice::SizeKnown(size)]),
        SessionEvent::Close(result) => reply_if_open(s, id, close_notices(s[id], result)),
    }
}

/// The notices of a reply; none for an error.
pub open spec fn notices_of(r: SessionReply) -> Seq<SessionNotice> {
    match r {
        Ok(n) => n,
        Err(_) => Seq::empty(),
    }
}

/// The sessions and all notices after the events `es` for session `id`, in
/// order.
pub open spec fn run(s: Map<i64, bool>, id: i64, es: Seq<SessionEvent>) -> (Map<i64, bool>, Seq<SessionNotice>)
    decreases es.len(),
{
    if es.len() == 0 {
        (s, Seq::empty())
    } else {
        let (s1, n1) = run(s, id, es.drop_last());
        (state_after(s1, id, es.last()), n1 + notices_of(reply_to(s1, id, es.last())))
    }
}

/// Whether `es` reports a size.
pub open spec fn reports_size(es: Seq<SessionEvent>) -> bool {
    exists|i: int| 0 <= i < es.len() && #[trigger] es[i] is SizeKnown
}

/// The result of a lazy data request carrying a value of type `V`.
#[derive(Debug, Clone, PartialEq)]
pub enum ValuePromiseResult<V> {
    Resolved { value: V },
    Cancelled,
}

/// What becomes of a lazy data request once its task runs: the result the
/// promise is given, and whether `on_done` is called.
#[derive(Debug)]
pub struct LazyDataCompletion {
    pub result: ValuePromiseResult<String>,
    pub notify_done: bool,
}

/// The text a lazy data request for `value_id` resolves to.
pub open spec fn lazy_data_text(value_id: DataProviderValueId) -> Seq<char> {
    "test1"@
}

/// Completes a lazy data request for `data_id` once its task runs: with the
/// manager still alive, the promise gets the data and `on_done` is called;
/// with the manager gone, the promise is cancelled and `on_done` is not
/// called.
pub fn complete_lazy_data(manager: Option<&DataProviderManager>, data_id: DataProviderValueId) -> (r:
    LazyDataCompletion)
    ensures
        match manager {
            Some(_) => (r.result matches ValuePromiseResult::Resolved { value } && value@ == lazy_data_text(data_id)) && r.notify_done,
            None => r.result is Cancelled && !r.notify_done,
        },
{
    match manager {
        Some(m) => LazyDataCompletion { result: m.lazy_data(data_id), notify_done: true },
        None => LazyDataCompletion { result: ValuePromiseResult::Cancelled, notify_done: false },
    }
}

/// Tracks the open virtual file sessions and hands out their identifiers.
pub struct DataProviderManager {
    next_id: i64,
    virtual_sessions: HashMap<i64, bool>,
}

impl DataProviderManager {
    /// The open sessions, each mapped to whether its size was reported.
    pub closed spec fn sessions(&self) -> Map<i64, bool> {
        self.virtual_sessions@
    }

    /// The identifier the next session receives.
    pub closed spec fn next_session_id(&self) -> i64 {
        self.next_id
    }

    /// Every open session's identifier is positive and below the next one, so
    /// the next identifier is fresh.
    pub open spec fn ids_below_next(&self) -> bool {
        forall|k: i64| #[trigger] self.sessions().contains_key(k) ==> 1 <= k < self.next_session_id()
    }

    /// Identifiers are positive and every open session's lies below the next
    /// one.
    #[verifier::type_invariant]
    closed spec fn well_formed(&self) -> bool {
        &&& 1 <= self.next_id
        &&& forall|k: i64| #[trigger] self.virtual_sessions@.contains_key(k) ==> 1 <= k < self.next_id
    }

    /// A manager with no open session.
    pub fn new() -> (r: Self)
        ensures
            r.sessions() == Map::<i64, bool>::empty(),
            r.next_session_id() == 1,
            r.ids_below_next(),
    {
        DataProviderManager { next_id: 1, virtual_sessions: HashMap::new() }
    }

    /// Moves the session table out, leaving an empty one behind.
    fn take_sessions(&mut self) -> (r: HashMap<i64, bool>)
        ensures
            r@ == old(self).sessions(),
            final(self).sessions() == Map::<i64, bool>::empty(),
            final(self).next_session_id() == old(self).next_session_id(),
    {
        proof {
            use_type_invariant(&*self);
        }
        let mut sessions: HashMap<i64, bool> = HashMap::new();
        std::mem::swap(&mut sessions, &mut self.virtual_sessions);
        sessions
    }

    /// Opens a virtual file session with no size reported yet, under the next
    /// identifier; `None` when identifiers are exhausted.
    pub fn register_virtual_session(&mut self) -> (r: Option<VirtualSessionId>)
        ensures
            match r {
                Some(id) => {
                    &&& id.id() == old(self).next_session_id()
                    &&& !old(self).sessions().contains_key(id.id())
                    &&& forall|k: i64| #[trigger] old(self).sessions().contains_key(k) ==> k < id.id()
                    &&& final(self).sessions() == old(self).sessions().insert(id.id(), false)
                    &&& final(self).next_session_id() == old(self).next_session_id() + 1
                },
                None => {
                    &&& old(self).next_session_id() == i64::MAX
                    &&& final(self).sessions() == old(self).sessions()
                    &&& final(self).next_session_id() == old(self).next_session_id()
                },
            },
            final(self).ids_below_next(),
    {
        proof {
            use_type_invariant(&*self);
        }
        if self.next_id == i64::MAX {
            return None;
        }
        let id = self.next_id;
        self.next_id = id + 1;
        let mut sessions = self.take_sessions();
        sessions.insert(id, false);
        self.virtual_sessions = sessions;
        Some(VirtualSessionId(id))
    }

    /// Progress of session `session_id`: its `on_progress` is told, the
    /// sessions stay as they are.
    pub fn virtual_file_update_progress(&self, session_id: VirtualSessionId) -> (r: Result<
        Vec<SessionNotice>,
        NativeExtensionsError,
    >)
        ensures
            reply_view(r) == reply_to(self.sessions(), session_id.id(), SessionEvent::Progress),
    {
        match self.virtual_sessions.get(&session_id.0) {
            Some(_) => {
                let mut notices: Vec<SessionNotice> = Vec::new();
                notices.push(SessionNotice::Progress);
                Ok(notices)
            },
            None => Err(NativeExtensionsError::VirtualFileSessionNotFound),
        }
    }

    /// The size of a session's file is known: its `on_size_known` is told the
    /// size, and the session remembers that it was told.
    pub fn virtual_file_size_known(&mut self, size_known: VirtualFileSizeKnown) -> (r: Result<
        Vec<SessionNotice>,
        NativeExtensionsError,
    >)
        ensures
            final(self).sessions() == state_after(
                old(self).sessions(),
                size_known.session_id.id(),
                SessionEvent::SizeKnown(size_known.file_size),
            ),
            reply_view(r) == reply_to(
                old(self).sessions(),
                size_known.session_id.id(),
                SessionEvent::SizeKnown(size_known.file_size),
            ),
            final(self).next_session_id() == old(self).next_session_id(),
            final(self).ids_below_next(),
    {
        proof {
            use_type_invariant(&*self);
        }
        let id = size_known.session_id.0;
        if self.virtual_sessions.contains_key(&id) {
            let mut sessions = self.take_sessions();
            sessions.insert(id, true);
            self.virtual_sessions = sessions;
            let mut notices: Vec<SessionNotice> = Vec::new();
            notices.push(SessionNotice::SizeKnown(size_known.file_size));
            Ok(notices)
        } else {
            Err(NativeExtensionsError::VirtualFileSessionNotFound)
        }
    }

    /// Ends session `session_id` with `result`: removes it, and tells
    /// `on_size_known(None)` when no size was reported, then `on_done`.
    fn close_session(&mut self, session_id: VirtualSessionId, result: VirtualFileResult) -> (r:
        Result<Vec<SessionNotice>, NativeExtensionsError>)
        ensures
            final(self).sessions() == state_after(
                old(self).sessions(),
                session_id.id(),
                SessionEvent::Close(result),
            ),
            reply_view(r) == reply_to(old(self).sessions(), session_id.id(), SessionEvent::Close(result)),
            final(self).next_session_id() == old(self).next_session_id(),
            final(self).ids_below_next(),
    {
        proof {
            use_type_invariant(&*self);
        }
        let mut sessions = self.take_sessions();
        let removed = sessions.remove(&session_id.0);
        self.virtual_sessions = sessions;
        match removed {
            Some(size_known) => {
                let mut notices: Vec<SessionNotice> = Vec::new();
                if !size_known {
                    notices.push(SessionNotice::SizeUnknown);
                }
                notices.push(SessionNotice::Finished(result));
                assert(notices@ =~= close_notices(size_known, result));
                Ok(notices)
            },
            None => Err(NativeExtensionsError::VirtualFileSessionNotFound),
        }
    }

    /// The file of a session was written completely: the session ends with
    /// `Done`.
    pub fn virtual_file_complete(&mut self, complete: VirtualFileComplete) -> (r: Result<
        Vec<SessionNotice>,
        NativeExtensionsError,
    >)
        ensures
            final(self).sessions() == state_after(
                old(self).sessions(),
                complete.session_id.id(),
                SessionEvent::Close(VirtualFileResult::Done),
            ),
            reply_view(r) == reply_to(
                old(self).sessions(),
                complete.session_id.id(),
                SessionEvent::Close(VirtualFileResult::Done),
            ),
            final(self).next_session_id() == old(self).next_session_id(),
            final(self).ids_below_next(),
    {
        self.close_session(complete.session_id, VirtualFileResult::Done)
    }

    /// The transfer of a session failed: the session ends with `Error`,
    /// carrying the message.
    pub fn virtual_file_error(&mut self, error: VirtualFileError) -> (r: Result<
        Vec<SessionNotice>,
        NativeExtensionsError,
    >)
        ensures
            final(self).sessions() == state_after(
                old(self).sessions(),
                error.session_id.id(),
                SessionEvent::Close(VirtualFileResult::Error { message: error.error_message }),
            ),
            reply_view(r) == reply_to(
                old(self).sessions(),
                error.session_id.id(),
                SessionEvent::Close(VirtualFileResult::Error { message: error.error_message }),
            ),
            final(self).next_session_id() == old(self).next_session_id(),
            final(self).ids_below_next(),
    {
        let session_id = error.session_id;
        self.close_session(session_id, VirtualFileResult::Error { message: error.error_message })
    }

    /// The transfer of a session was cancelled: the session ends with
    /// `Cancelled`.
    pub fn virtual_file_cancel(&mut self, cancel: VirtualFileCancel) -> (r: Result<
        Vec<SessionNotice>,
        NativeExtensionsError,
    >)
        ensures
            final(self).sessions() == state_after(
                old(self).sessions(),
                cancel.session_id.id(),
                SessionEvent::Close(VirtualFileResult::Cancelled),
            ),
            reply_view(r) == reply_to(
                old(self).sessions(),
                cancel.session_id.id(),
                SessionEvent::Close(VirtualFileResult::Cancelled),
            ),
            final(self).next_session_id() == old(self).next_session_id(),
            final(self).ids_below_next(),
    {
        self.close_session(cancel.session_id, VirtualFileResult::Cancelled)
    }

    /// The data of lazy value `value_id`: the text `"test1"`, whatever the
    /// identifier.
    pub fn lazy_data(&self, value_id: DataProviderValueId) -> (r: ValuePromiseResult<String>)
        ensures
            r matches ValuePromiseResult::Resolved { value } && value@ == lazy_data_text(value_id),
    {
        ValuePromiseResult::Resolved { value: "test1".to_owned() }
    }
}

} // verus!
