use vstd::prelude::*;

use crate::api_model::DataProviderValueId;
use crate::data_provider_manager::{
    reply_view, lazy_data_text, close_notices, notices_of, reply_to, reports_size, run, state_after, NativeExtensionsError,
    SessionEvent, SessionNotice, VirtualFileResult,
};

verus! {

/// A message about a session that is not open is refused with
/// `VirtualFileSessionNotFound`, tells no callback anything and leaves every
/// session as it was.
pub proof fn lemma_unknown_session_is_refused(s: Map<i64, bool>, id: i64, e: SessionEvent)
    requires
        !s.contains_key(id),
    ensures
        reply_to(s, id, e) == Err::<Seq<SessionNotice>, NativeExtensionsError>(
            NativeExtensionsError::VirtualFileSessionNotFound,
        ),
        state_after(s, id, e) == s,
{
}

/// Once a session has ended (completed, failed or cancelled), every later
/// message about it is refused and changes nothing: a session ends once.
pub proof fn lemma_ended_session_stays_ended(
    s: Map<i64, bool>,
    id: i64,
    result: VirtualFileResult,
    e: SessionEvent,
)
    requires
        s.contains_key(id),
    ensures
        ({
            let s1 = state_after(s, id, SessionEvent::Close(result));
            &&& !s1.contains_key(id)
            &&& reply_to(s1, id, e) == Err::<Seq<SessionNotice>, NativeExtensionsError>(
                NativeExtensionsError::VirtualFileSessionNotFound,
            )
            &&& state_after(s1, id, e) == s1
        }),
{
}

/// A message about one session leaves every other session as it was.
pub proof fn lemma_other_sessions_unchanged(s: Map<i64, bool>, id: i64, other: i64, e: SessionEvent)
    requires
        other != id,
    ensures
        state_after(s, id, e).contains_key(other) == s.contains_key(other),
        s.contains_key(other) ==> state_after(s, id, e)[other] == s[other],
{
}

/// Ending an open session with `result` tells `on_done(result)` and nothing
/// else when its size was reported, and `on_size_known(None)` followed by
/// `on_done(result)` when it was not; the session is removed either way.
pub proof fn lemma_end_notices(s: Map<i64, bool>, id: i64, result: VirtualFileResult)
    requires
        s.contains_key(id),
    ensures
        s[id] ==> reply_to(s, id, SessionEvent::Close(result)) == Ok::<
            Seq<SessionNotice>,
            NativeExtensionsError,
        >(seq![SessionNotice::Finished(result)]),
        !s[id] ==> reply_to(s, id, SessionEvent::Close(result)) == Ok::<
            Seq<SessionNotice>,
            NativeExtensionsError,
        >(seq![SessionNotice::SizeUnknown, SessionNotice::Finished(result)]),
        state_after(s, id, SessionEvent::Close(result)) == s.remove(id),
{
}

/// A size report for an open session tells `on_size_known(Some(size))` with
/// the reported size, unchanged, and nothing else; the session is then marked
/// as having its size reported and no other session changes.
pub proof fn lemma_size_report_notices(s: Map<i64, bool>, id: i64, size: i64)
    requires
        s.contains_key(id),
    ensures
        reply_to(s, id, SessionEvent::SizeKnown(size)) == Ok::<
            Seq<SessionNotice>,
            NativeExtensionsError,
        >(seq![SessionNotice::SizeKnown(size)]),
        state_after(s, id, SessionEvent::SizeKnown(size)) == s.insert(id, true),
{
}

/// Progress for an open session tells `on_progress` and nothing else, and
/// changes no session.
pub proof fn lemma_progress_notices(s: Map<i64, bool>, id: i64)
    requires
        s.contains_key(id),
    ensures
        reply_to(s, id, SessionEvent::Progress) == Ok::<Seq<SessionNotice>, NativeExtensionsError>(
            seq![SessionNotice::Progress],
        ),
        state_after(s, id, SessionEvent::Progress) == s,
{
}

/// The lazy data does not depend on the value asked for: every request
/// resolves to the text `"test1"`.
pub proof fn lemma_lazy_data_same_for_every_id(a: DataProviderValueId, b: DataProviderValueId)
    ensures
        lazy_data_text(a) == lazy_data_text(b),
        lazy_data_text(a) == "test1"@,
{
}

/// The view of an executable reply is the same reply: its notices in the
/// same order, or the same error.
pub proof fn lemma_reply_view_keeps_reply(v: Vec<SessionNotice>, e: NativeExtensionsError)
    ensures
        reply_view(Ok(v)) == Ok::<Seq<SessionNotice>, NativeExtensionsError>(v@),
        reply_view(Err(e)) == Err::<Seq<SessionNotice>, NativeExtensionsError>(e),
{
}

/// Progress and size reports keep a session open; its flag records whether
/// any size was reported, and they tell no callback `on_done` or
/// `on_size_known(None)`.
proof fn lemma_open_session_run(s: Map<i64, bool>, id: i64, es: Seq<SessionEvent>)
    requires
        s.contains_key(id),
        forall|i: int| 0 <= i < es.len() ==> !(#[trigger] es[i] is Close),
    ensures
        run(s, id, es).0 == s.insert(id, s[id] || reports_size(es)),
        forall|i: int|
            0 <= i < run(s, id, es).1.len() ==> {
                &&& !(#[trigger] run(s, id, es).1[i] is Finished)
                &&& !(run(s, id, es).1[i] is SizeUnknown)
            },
    decreases es.len(),
{
    if es.len() == 0 {
        assert(s.insert(id, s[id]) =~= s);
        assert(!reports_size(es));
    } else {
        let pre = es.drop_last();
        assert forall|i: int| 0 <= i < pre.len() implies !(#[trigger] pre[i] is Close) by {
            assert(pre[i] == es[i]);
        }
        lemma_open_session_run(s, id, pre);
        let s1 = run(s, id, pre).0;
        let n1 = run(s, id, pre).1;
        assert(s1.contains_key(id));
        assert(reports_size(es) == (reports_size(pre) || es.last() is SizeKnown)) by {
            if reports_size(pre) {
                let i = choose|i: int| 0 <= i < pre.len() && #[trigger] pre[i] is SizeKnown;
                assert(es[i] == pre[i]);
            }
            if reports_size(es) && !(es.last() is SizeKnown) {
                let i = choose|i: int| 0 <= i < es.len() && #[trigger] es[i] is SizeKnown;
                assert(i < es.len() - 1);
                assert(pre[i] == es[i]);
            }
            if es.last() is SizeKnown {
                assert(es[es.len() - 1] is SizeKnown);
            }
        }
        assert(!(es.last() is Close)) by {
            assert(es.last() == es[es.len() - 1]);
        }
        let n2 = notices_of(reply_to(s1, id, es.last()));
        match es.last() {
            SessionEvent::Progress => {
                assert(state_after(s1, id, es.last()) =~= s.insert(
                    id,
                    s[id] || reports_size(es),
                ));
            },
            SessionEvent::SizeKnown(_) => {
                assert(state_after(s1, id, es.last()) =~= s.insert(
                    id,
                    s[id] || reports_size(es),
                ));
            },
            SessionEvent::Close(_) => {},
        }
        let n = run(s, id, es).1;
        assert(n == n1 + n2);
        assert forall|i: int| 0 <= i < n.len() implies {
            &&& !(#[trigger] n[i] is Finished)
            &&& !(n[i] is SizeUnknown)
        } by {
            if i < n1.len() {
                assert(n[i] == n1[i]);
            } else {
                assert(n[i] == n2[i - n1.len()]);
            }
        }
    }
}

/// The life of a session opened with no size reported: whatever progress and
/// size reports come before it ends with `result`, it ends removed, its last
/// notice is `on_done(result)` and it is the only `on_done`, and
/// `on_size_known(None)` is among its notices exactly when no size was
/// reported.
pub proof fn lemma_session_lifecycle(
    s: Map<i64, bool>,
    id: i64,
    es: Seq<SessionEvent>,
    result: VirtualFileResult,
)
    requires
        s.contains_key(id),
        !s[id],
        forall|i: int| 0 <= i < es.len() ==> !(#[trigger] es[i] is Close),
    ensures
        ({
            let (s2, n) = run(s, id, es.push(SessionEvent::Close(result)));
            &&& s2 == s.remove(id)
            &&& n.len() > 0
            &&& n.last() == SessionNotice::Finished(result)
            &&& forall|i: int| 0 <= i < n.len() - 1 ==> !(#[trigger] n[i] is Finished)
            &&& n.contains(SessionNotice::SizeUnknown) <==> !reports_size(es)
        }),
{
    let all = es.push(SessionEvent::Close(result));
    assert(all.drop_last() =~= es);
    assert(all.last() == SessionEvent::Close(result));
    lemma_open_session_run(s, id, es);
    let s1 = run(s, id, es).0;
    let n1 = run(s, id, es).1;
    assert(s1.contains_key(id));
    assert(s1[id] == reports_size(es));
    assert(state_after(s1, id, SessionEvent::Close(result)) =~= s.remove(id));
    let n2 = close_notices(s1[id], result);
    assert(reply_to(s1, id, SessionEvent::Close(result)) == Ok::<
        Seq<SessionNotice>,
        NativeExtensionsError,
    >(n2));
    let n = run(s, id, all).1;
    assert(n == n1 + n2);
    assert(n.last() == n2.last());
    assert forall|i: int| 0 <= i < n.len() - 1 implies !(#[trigger] n[i] is Finished) by {
        if i < n1.len() {
            assert(n[i] == n1[i]);
        } else {
            assert(n[i] == n2[i - n1.len()]);
        }
    }
    if !reports_size(es) {
        assert(n[n1.len() as int] == SessionNotice::SizeUnknown);
    } else {
        assert forall|i: int| 0 <= i < n.len() implies n[i] != SessionNotice::SizeUnknown by {
            if i < n1.len() {
                assert(n[i] == n1[i]);
            } else {
                assert(n[i] == n2[i - n1.len()]);
            }
        }
    }
}

} // verus!
