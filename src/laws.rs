use vstd::prelude::*;
use crate::attachments::{AttachmentView, folded_text};
use crate::message::{MessageView, Role};
use crate::session::{
    SessionView,
    known_with,
    recorded,
    sent,
    started_fresh,
    state_wf,
    store_after_send,
    switched,
    titled,
};
use crate::store::{
    StoreView,
    has_session,
    lemma_messages_of_empty,
    lemma_messages_of_push,
    listing,
    messages_of,
    sessions_newest_first,
    store_wf,
};

verus! {

/// After a send, the stored messages of the session in view are exactly the
/// history, the new user turn last.
pub proof fn lemma_send_keeps_history_stored(pre: SessionView, text: Seq<char>, post: SessionView)
    requires
        state_wf(pre),
        sent(pre, text, post),
    ensures
        post.history == messages_of(post.store.messages, post.current),
{
    let r = (pre.current, Role::User, folded_text(pre.staged, text));
    lemma_messages_of_push(pre.store.messages, r, pre.current);
    assert(store_after_send(pre, text).messages == pre.store.messages.push(r));
}

/// After a reply is filed, the stored messages of the session in view are
/// exactly the history.
pub proof fn lemma_reply_keeps_history_stored(
    pre: SessionView,
    sid: Seq<char>,
    text: Seq<char>,
    post: SessionView,
)
    requires
        state_wf(pre),
        recorded(pre, sid, text, post),
    ensures
        post.history == messages_of(post.store.messages, post.current),
{
    lemma_messages_of_push(pre.store.messages, (sid, Role::Assistant, text), pre.current);
}

/// A reply is filed under the session that was in view when its message was
/// sent, even when the user switched to another session meanwhile: that
/// session gains the reply, the one switched to gains nothing, and the
/// history in view stays as it was.
pub proof fn lemma_reply_follows_dispatch(
    s0: SessionView,
    text: Seq<char>,
    s1: SessionView,
    other: Seq<char>,
    s2: SessionView,
    reply: Seq<char>,
    s3: SessionView,
)
    requires
        state_wf(s0),
        sent(s0, text, s1),
        switched(s1, other, s2),
        other != s0.current,
        recorded(s2, s0.current, reply, s3),
    ensures
        messages_of(s3.store.messages, s0.current) == messages_of(
            s1.store.messages,
            s0.current,
        ).push((Role::Assistant, reply)),
        messages_of(s3.store.messages, other) == messages_of(s1.store.messages, other),
        s3.history == s2.history,
        s3.current == other,
{
    lemma_messages_of_push(s2.store.messages, (s0.current, Role::Assistant, reply), s0.current);
    lemma_messages_of_push(s2.store.messages, (s0.current, Role::Assistant, reply), other);
}

/// Staged attachments are folded into one send only: a second send with
/// nothing staged in between stores exactly its own text.
pub proof fn lemma_fold_is_one_shot(
    s0: SessionView,
    t1: Seq<char>,
    s1: SessionView,
    t2: Seq<char>,
    s2: SessionView,
)
    requires
        sent(s0, t1, s1),
        sent(s1, t2, s2),
    ensures
        s1.history.last() == (Role::User, folded_text(s0.staged, t1)),
        s2.history.last() == (Role::User, t2),
        s2.store.messages.last() == (s0.current, Role::User, t2),
        s2.staged == Seq::<AttachmentView>::empty(),
{
}

/// A session started afresh takes an id that no earlier session of this
/// state used and no stored row names, and writes nothing to the store; if
/// the user leaves it without sending, the store holds no message and no row
/// for it.
pub proof fn lemma_fresh_session_is_unused(
    s0: SessionView,
    id: Seq<char>,
    s1: SessionView,
    next: Seq<char>,
    s2: SessionView,
)
    requires
        state_wf(s0),
        started_fresh(s0, id, s1),
        switched(s1, next, s2),
    ensures
        !s0.known.contains(id),
        forall|i: int| 0 <= i < s0.store.sessions.len() ==> s0.store.sessions[i].0 != id,
        s1.store == s0.store,
        s2.store == s0.store,
        messages_of(s2.store.messages, id) == Seq::<MessageView>::empty(),
        !has_session(s2.store, id),
{
    assert forall|i: int| 0 <= i < s0.store.messages.len() implies #[trigger] s0.store.messages[i].0
        != id by {
        assert(s0.known.contains(s0.store.messages[i].0));
    }
    assert forall|i: int| 0 <= i < s0.store.sessions.len() implies s0.store.sessions[i].0 != id by {
        assert(s0.known.contains(s0.store.sessions[i].0));
    }
    lemma_messages_of_empty(s0.store.messages, id);
    assert(messages_of(s2.store.messages, id) =~= Seq::<MessageView>::empty());
}

/// Giving a session a title needs at least one stored message of it, and
/// changes exactly the one row with its id.
pub proof fn lemma_title_changes_one_row(
    pre: SessionView,
    id: Seq<char>,
    title: Seq<char>,
    post: SessionView,
)
    requires
        state_wf(pre),
        titled(pre, id, title, post),
    ensures
        messages_of(pre.store.messages, id).len() > 0,
        post.store.sessions.len() == pre.store.sessions.len(),
        post.store.messages == pre.store.messages,
        forall|k: int|
            0 <= k < pre.store.sessions.len() && pre.store.sessions[k].0 != id
                ==> post.store.sessions[k] == pre.store.sessions[k],
        forall|k: int|
            0 <= k < pre.store.sessions.len() && pre.store.sessions[k].0 == id
                ==> post.store.sessions[k] == (id, title, pre.store.sessions[k].2),
{
    let i = choose|i: int|
        0 <= i < pre.store.sessions.len() && pre.store.sessions[i].0 == id && post == (SessionView {
            store: StoreView {
                sessions: pre.store.sessions.update(i, (id, title, pre.store.sessions[i].2)),
                ..pre.store
            },
            ..pre
        });
    assert forall|k: int|
        0 <= k < pre.store.sessions.len() && pre.store.sessions[k].0 == id implies k == i by {
        if k != i {
            assert(pre.store.sessions[k].0 != pre.store.sessions[i].0);
        }
    }
}

/// The session listing is newest first: each entry was created strictly
/// later than every entry after it.
pub proof fn lemma_listing_newest_first(v: StoreView)
    requires
        store_wf(v),
    ensures
        sessions_newest_first(v).len() == v.sessions.len(),
        forall|i: int, j: int|
            0 <= i < j < v.sessions.len() ==> sessions_newest_first(v)[i].2
                > sessions_newest_first(v)[j].2,
        forall|i: int|
            0 <= i < v.sessions.len() ==> (listing(v)[i].0, listing(v)[i].1) == (
                sessions_newest_first(v)[i].0,
                sessions_newest_first(v)[i].1,
            ),
{
    let n = v.sessions.len() as int;
    assert forall|i: int, j: int| 0 <= i < j < n implies sessions_newest_first(v)[i].2
        > sessions_newest_first(v)[j].2 by {
        assert(sessions_newest_first(v)[i] == v.sessions[n - 1 - i]);
        assert(sessions_newest_first(v)[j] == v.sessions[n - 1 - j]);
    }
}

/// Storing messages never changes the session listing.
pub proof fn lemma_listing_ignores_messages(v: StoreView, sid: Seq<char>, role: Role, text: Seq<char>)
    ensures
        listing(StoreView { messages: v.messages.push((sid, role, text)), ..v }) == listing(v),
{
}

/// Switching twice in a row to the same session gives the same state as
/// switching once.
pub proof fn lemma_switch_idempotent(s0: SessionView, id: Seq<char>, s1: SessionView, s2: SessionView)
    requires
        switched(s0, id, s1),
        switched(s1, id, s2),
    ensures
        s2 == s1,
        s2.history == s1.history,
{
    if !s0.known.contains(id) {
        assert(s1.known[s1.known.len() - 1] == id);
    }
    assert(known_with(s1.known, id) == s1.known);
}

} // verus!
