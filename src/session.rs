use vstd::prelude::*;
use crate::attachments::{AttachmentStaging, AttachmentView, folded_text};
use crate::message::{Message, MessageView, Role, messages_view};
use crate::store::{
    Store,
    StoreView,
    has_session,
    ids_view,
    lemma_messages_of_empty,
    lemma_messages_of_push,
    messages_of,
    store_wf,
};
use crate::stream::{StreamAccumulator, StreamOutcome};

verus! {

/// The mathematical value of the session state.
pub struct SessionView {
    /// The persisted rows.
    pub store: StoreView,
    /// The id of the session in view.
    pub current: Seq<char>,
    /// The messages of the session in view.
    pub history: Seq<MessageView>,
    /// The attachments waiting for the next send.
    pub staged: Seq<AttachmentView>,
    /// Every session id this state has used or seen stored.
    pub known: Seq<Seq<char>>,
}

/// The session state is well formed when the store is, the history is exactly
/// the stored messages of the current session, and every id that is current
/// or stored is known.
pub open spec fn state_wf(v: SessionView) -> bool {
    &&& store_wf(v.store)
    &&& v.history == messages_of(v.store.messages, v.current)
    &&& v.known.contains(v.current)
    &&& forall|i: int|
        0 <= i < v.store.sessions.len() ==> v.known.contains(#[trigger] v.store.sessions[i].0)
    &&& forall|i: int|
        0 <= i < v.store.messages.len() ==> v.known.contains(#[trigger] v.store.messages[i].0)
}

/// The known ids after `id` was used.
pub open spec fn known_with(known: Seq<Seq<char>>, id: Seq<char>) -> Seq<Seq<char>> {
    if known.contains(id) {
        known
    } else {
        known.push(id)
    }
}

/// `post` is `pre` after switching to session `id`.
pub open spec fn switched(pre: SessionView, id: Seq<char>, post: SessionView) -> bool {
    &&& post.store == pre.store
    &&& post.current == id
    &&& post.history == messages_of(pre.store.messages, id)
    &&& post.staged == Seq::<AttachmentView>::empty()
    &&& post.known == known_with(pre.known, id)
}

/// `post` is `pre` after starting a new session with the unused id `id`.
pub open spec fn started_fresh(pre: SessionView, id: Seq<char>, post: SessionView) -> bool {
    &&& !pre.known.contains(id)
    &&& post.store == pre.store
    &&& post.current == id
    &&& post.history == Seq::<MessageView>::empty()
    &&& post.staged == Seq::<AttachmentView>::empty()
    &&& post.known == pre.known.push(id)
}

/// Whether a send from `pre` must insert a session row first: the session has
/// no message and no row yet.
pub open spec fn opens_session(pre: SessionView) -> bool {
    pre.history.len() == 0 && !has_session(pre.store, pre.current)
}

/// A send from `pre` cannot be recorded: it would open a session and the
/// store has no creation stamp left.
pub open spec fn send_refused(pre: SessionView) -> bool {
    opens_session(pre) && pre.store.clock == u64::MAX
}

/// The store after a send of `text` from `pre`: a session row titled with
/// the raw text when the send opens the session, then the user message with
/// the staged attachments folded in.
pub open spec fn store_after_send(pre: SessionView, text: Seq<char>) -> StoreView {
    let content = folded_text(pre.staged, text);
    let messages = pre.store.messages.push((pre.current, Role::User, content));
    if opens_session(pre) {
        StoreView {
            sessions: pre.store.sessions.push((pre.current, text, pre.store.clock)),
            messages,
            clock: (pre.store.clock + 1) as u64,
        }
    } else {
        StoreView { sessions: pre.store.sessions, messages, clock: pre.store.clock }
    }
}

/// `post` is `pre` after the user sent `text`.
pub open spec fn sent(pre: SessionView, text: Seq<char>, post: SessionView) -> bool {
    &&& post.store == store_after_send(pre, text)
    &&& post.current == pre.current
    &&& post.history == pre.history.push((Role::User, folded_text(pre.staged, text)))
    &&& post.staged == Seq::<AttachmentView>::empty()
    &&& post.known == pre.known
}

/// `post` is `pre` after an assistant reply `text` was filed under session
/// `sid`.
pub open spec fn recorded(pre: SessionView, sid: Seq<char>, text: Seq<char>, post: SessionView) -> bool {
    &&& post.store == (StoreView {
        messages: pre.store.messages.push((sid, Role::Assistant, text)),
        ..pre.store
    })
    &&& post.current == pre.current
    &&& post.history == if sid == pre.current {
        pre.history.push((Role::Assistant, text))
    } else {
        pre.history
    }
    &&& post.staged == pre.staged
    &&& post.known == pre.known
}

/// `post` is `pre` after session `id`, which has stored messages, got the
/// title `title`: the one row with that id changes its title and nothing else
/// changes.
pub open spec fn titled(pre: SessionView, id: Seq<char>, title: Seq<char>, post: SessionView) -> bool {
    &&& messages_of(pre.store.messages, id).len() > 0
    &&& exists|i: int|
        0 <= i < pre.store.sessions.len() && pre.store.sessions[i].0 == id && post == (SessionView {
            store: StoreView {
                sessions: pre.store.sessions.update(i, (id, title, pre.store.sessions[i].2)),
                ..pre.store
            },
            ..pre
        })
}

/// What a send hands to the generator: the session the reply belongs to and
/// the conversation so far, the new user turn last.
pub struct Dispatch {
    pub session_id: String,
    pub context: Vec<Message>,
    /// Whether the send inserted the session's row.
    pub opened_session: bool,
}

impl Dispatch {
    /// An accumulator for the reply to this dispatch.
    pub fn accumulator(&self) -> (r: StreamAccumulator)
        ensures
            r@.session_id == self.session_id@,
            r@.text == Seq::<char>::empty(),
            !r@.started,
    {
        StreamAccumulator::new(self.session_id.clone())
    }
}

fn copy_messages(ms: &Vec<Message>) -> (r: Vec<Message>)
    ensures
        messages_view(r@) == messages_view(ms@),
{
    let mut r: Vec<Message> = Vec::new();
    let mut i: usize = 0;
    while i < ms.len()
        invariant
            i <= ms@.len(),
            messages_view(r@) == messages_view(ms@.take(i as int)),
        decreases ms@.len() - i,
    {
        let m = ms[i].duplicate();
        let ghost prev = r@;
        r.push(m);
        assert(messages_view(r@) =~= messages_view(prev).push(m@));
        assert(ms@.take(i as int + 1) =~= ms@.take(i as int).push(ms@[i as int]));
        assert(messages_view(ms@.take(i as int + 1)) =~= messages_view(ms@.take(i as int)).push(
            ms@[i as int]@,
        ));
        i = i + 1;
    }
    assert(ms@.take(ms@.len() as int) =~= ms@);
    r
}

fn contains_id(known: &Vec<String>, id: &String) -> (r: bool)
    ensures
        r == ids_view(known@).contains(id@),
{
    let mut i: usize = 0;
    while i < known.len()
        invariant
            i <= known@.len(),
            forall|j: int| 0 <= j < i ==> known@[j]@ != id@,
        decreases known@.len() - i,
    {
        if known[i] == *id {
            assert(ids_view(known@)[i as int] == id@);
            return true;
        }
        i = i + 1;
    }
    assert(!ids_view(known@).contains(id@)) by {
        if ids_view(known@).contains(id@) {
            let j = choose|j: int| 0 <= j < ids_view(known@).len() && ids_view(known@)[j] == id@;
            assert(known@[j]@ == id@);
        }
    }
    false
}

/// The conversation context: the persisted rows, the session in view with
/// its messages, and the attachments staged for the next send.
pub struct SessionState {
    store: Store,
    current: String,
    history: Vec<Message>,
    staging: AttachmentStaging,
    known: Vec<String>,
}

impl View for SessionState {
    type V = SessionView;

    closed spec fn view(&self) -> SessionView {
        SessionView {
            store: self.store@,
            current: self.current@,
            history: messages_view(self.history@),
            staged: self.staging@,
            known: ids_view(self.known@),
        }
    }
}

impl SessionState {
    /// A state over `store` whose session in view is `id`, with that
    /// session's stored messages as history and nothing staged.
    pub fn with_session_id(store: Store, id: String) -> (r: SessionState)
        requires
            store_wf(store@),
        ensures
            state_wf(r@),
            r@.store == store@,
            r@.current == id@,
            r@.history == messages_of(store@.messages, id@),
            r@.staged == Seq::<AttachmentView>::empty(),
    {
        let mut known = store.referenced_ids();
        let ghost before = known@;
        known.push(id.clone());
        let history = store.load_messages(&id);
        let r = SessionState { store, current: id, history, staging: AttachmentStaging::new(), known };
        proof {
            assert(ids_view(known@) == ids_view(before).push(id@));
            assert(ids_view(known@)[before.len() as int] == id@);
            assert forall|s: Seq<char>| ids_view(before).contains(s) implies ids_view(
                known@,
            ).contains(s) by {
                let j = choose|j: int| 0 <= j < ids_view(before).len() && ids_view(before)[j] == s;
                assert(ids_view(known@)[j] == s);
            }
        }
        r
    }

    /// A state over `store` in a new session with a random id.
    pub fn new(store: Store) -> (r: SessionState)
        requires
            store_wf(store@),
        ensures
            state_wf(r@),
            r@.store == store@,
            r@.staged == Seq::<AttachmentView>::empty(),
    {
        let id = crate::ids::random_session_id();
        SessionState::with_session_id(store, id)
    }

    fn note_known(&mut self, id: &String)
        ensures
            final(self)@ == (SessionView { known: known_with(old(self)@.known, id@), ..old(self)@ }),
            forall|s: Seq<char>| old(self)@.known.contains(s) ==> final(self)@.known.contains(s),
    {
        if !contains_id(&self.known, id) {
            let ghost before = self.known@;
            self.known.push(id.clone());
            proof {
                assert(ids_view(self.known@) =~= ids_view(before).push(id@));
                assert forall|s: Seq<char>| old(self)@.known.contains(s) implies self@.known.contains(s) by {
                    let j = choose|j: int|
                        0 <= j < ids_view(before).len() && ids_view(before)[j] == s;
                    assert(ids_view(self.known@)[j] == s);
                }
            }
        }
    }

    /// Views session `id`: its stored messages become the history (none is a
    /// valid outcome) and the staged attachments are dropped.
    pub fn switch_to(&mut self, id: String)
        requires
            state_wf(old(self)@),
        ensures
            state_wf(final(self)@),
            switched(old(self)@, id@, final(self)@),
    {
        self.note_known(&id);
        self.history = self.store.load_messages(&id);
        self.current = id;
        self.staging.clear();
        proof {
            let k = self@.known;
            assert(k.contains(id@)) by {
                if !old(self)@.known.contains(id@) {
                    assert(k[k.len() - 1] == id@);
                }
            }
        }
    }

    /// Starts a new, empty session under `id`, unless `id` was already used
    /// or stored; returns whether it did. Nothing is written to the store.
    pub fn start_session_with_id(&mut self, id: String) -> (r: bool)
        requires
            state_wf(old(self)@),
        ensures
            state_wf(final(self)@),
            r == !old(self)@.known.contains(id@),
            r ==> started_fresh(old(self)@, id@, final(self)@),
            !r ==> final(self)@ == old(self)@,
    {
        if contains_id(&self.known, &id) {
            return false;
        }
        proof {
            lemma_messages_of_empty(self@.store.messages, id@);
            assert forall|i: int| 0 <= i < self@.store.messages.len() implies #[trigger] self@.store.messages[i].0 != id@ by {
                assert(self@.known.contains(self@.store.messages[i].0));
            }
            assert(messages_of(self@.store.messages, id@) =~= Seq::<MessageView>::empty());
        }
        self.note_known(&id);
        self.history = Vec::new();
        self.current = id;
        self.staging.clear();
        proof {
            assert(self@.history =~= Seq::<MessageView>::empty());
            let k = self@.known;
            assert(k[k.len() - 1] == id@);
        }
        true
    }

    /// Starts a new, empty session under a random id; returns whether the id
    /// was unused, and otherwise changes nothing.
    pub fn start_new_session(&mut self) -> (r: bool)
        requires
            state_wf(old(self)@),
        ensures
            state_wf(final(self)@),
            r ==> started_fresh(old(self)@, final(self)@.current, final(self)@),
            !r ==> final(self)@ == old(self)@,
    {
        let id = crate::ids::random_session_id();
        self.start_session_with_id(id)
    }

    /// Sends `text`: folds the staged attachments into it, opens the session
    /// in the store when it has no message and no row yet (titled with the raw
    /// text), stores and appends the user turn, and returns the session id and
    /// the context for the generator. Returns `None`, changing nothing, only
    /// when a session row is needed and the store has no stamp left.
    pub fn send(&mut self, text: &str) -> (r: Option<Dispatch>)
        requires
            state_wf(old(self)@),
        ensures
            state_wf(final(self)@),
            r is None <==> send_refused(old(self)@),
            r is None ==> final(self)@ == old(self)@,
            r matches Some(d) ==> {
                &&& sent(old(self)@, text@, final(self)@)
                &&& d.session_id@ == old(self)@.current
                &&& messages_view(d.context@) == final(self)@.history
                &&& d.opened_session == opens_session(old(self)@)
            },
    {
        let opens = self.history.len() == 0 && !self.store.has_session(&self.current);
        if opens && self.store.clock_spent() {
            return None;
        }
        let ghost pre = self@;
        let content = self.staging.drain_and_fold(text);
        if opens {
            let mut title = String::new();
            title.append(text);
            let ok = self.store.create_session(self.current.clone(), title);
            assert(ok);
        }
        let user = Message::user(content.clone());
        self.store.insert_message(self.current.clone(), Role::User, content);
        let ghost h = self.history@;
        self.history.push(user);
        proof {
            lemma_messages_of_push(
                store_after_send(pre, text@).messages.drop_last(),
                (pre.current, Role::User, folded_text(pre.staged, text@)),
                pre.current,
            );
            assert(store_after_send(pre, text@).messages.drop_last() =~= pre.store.messages);
            assert(messages_view(self.history@) =~= messages_view(h).push(user@));
            let v = self@;
            assert forall|i: int| 0 <= i < v.store.sessions.len() implies v.known.contains(
                #[trigger] v.store.sessions[i].0,
            ) by {
                if i >= pre.store.sessions.len() {
                    assert(v.store.sessions[i].0 == pre.current);
                } else {
                    assert(v.store.sessions[i] == pre.store.sessions[i]);
                }
            }
            assert forall|i: int| 0 <= i < v.store.messages.len() implies v.known.contains(
                #[trigger] v.store.messages[i].0,
            ) by {
                if i >= pre.store.messages.len() {
                    assert(v.store.messages[i].0 == pre.current);
                } else {
                    assert(v.store.messages[i] == pre.store.messages[i]);
                }
            }
        }
        let context = copy_messages(&self.history);
        Some(Dispatch { session_id: self.current.clone(), context, opened_session: opens })
    }

    /// Files an assistant reply under session `sid`, the session captured at
    /// dispatch, whichever session is in view now; the history grows only
    /// when `sid` is in view. Without a stored row for `sid` nothing changes.
    /// Returns whether the reply was filed.
    pub fn record_assistant_turn(&mut self, sid: &String, text: String) -> (r: bool)
        requires
            state_wf(old(self)@),
        ensures
            state_wf(final(self)@),
            r == has_session(old(self)@.store, sid@),
            r ==> recorded(old(self)@, sid@, text@, final(self)@),
            !r ==> final(self)@ == old(self)@,
    {
        if !self.store.has_session(sid) {
            return false;
        }
        let ghost pre = self@;
        let ghost t = text@;
        if *sid == self.current {
            let m = Message::assistant(text.clone());
            let ghost h = self.history@;
            self.history.push(m);
            assert(messages_view(self.history@) =~= messages_view(h).push(m@));
        }
        self.store.insert_message(sid.clone(), Role::Assistant, text);
        proof {
            lemma_messages_of_push(pre.store.messages, (sid@, Role::Assistant, t), pre.current);
            let v = self@;
            let j = choose|j: int| 0 <= j < pre.store.sessions.len() && pre.store.sessions[j].0 == sid@;
            assert(pre.known.contains(pre.store.sessions[j].0));
            assert forall|i: int| 0 <= i < v.store.messages.len() implies v.known.contains(
                #[trigger] v.store.messages[i].0,
            ) by {
                if i >= pre.store.messages.len() {
                    assert(v.store.messages[i].0 == sid@);
                } else {
                    assert(v.store.messages[i] == pre.store.messages[i]);
                }
            }
        }
        true
    }

    /// Reconciles a finished stream: a completed stream with at least one
    /// fragment is filed under the session it was dispatched for (see
    /// [`SessionState::record_assistant_turn`]); a failed or empty one files
    /// nothing. Returns whether a reply was filed.
    pub fn finish_stream(&mut self, acc: StreamAccumulator, outcome: StreamOutcome) -> (r: bool)
        requires
            state_wf(old(self)@),
        ensures
            state_wf(final(self)@),
            r == (outcome == StreamOutcome::Completed && acc@.started && has_session(
                old(self)@.store,
                acc@.session_id,
            )),
            r ==> recorded(old(self)@, acc@.session_id, acc@.text, final(self)@),
            !r ==> final(self)@ == old(self)@,
    {
        let (sid, text, started) = acc.into_parts();
        if outcome != StreamOutcome::Completed || !started {
            return false;
        }
        self.record_assistant_turn(&sid, text)
    }

    /// Gives session `id` a refined title, only when it has at least one
    /// stored message and a row; otherwise nothing changes. Returns whether
    /// the title was set.
    pub fn finalize_title(&mut self, id: &String, title: String) -> (r: bool)
        requires
            state_wf(old(self)@),
        ensures
            state_wf(final(self)@),
            r == (messages_of(old(self)@.store.messages, id@).len() > 0 && has_session(
                old(self)@.store,
                id@,
            )),
            r ==> titled(old(self)@, id@, title@, final(self)@),
            !r ==> final(self)@ == old(self)@,
    {
        if !self.store.has_messages(id) {
            return false;
        }
        let ghost pre = self@;
        let r = self.store.update_session_title(id, title);
        proof {
            if r {
                let v = self@;
                let i = choose|i: int|
                    0 <= i < pre.store.sessions.len() && pre.store.sessions[i].0 == id@
                        && v.store == (StoreView {
                        sessions: pre.store.sessions.update(i, (id@, title@, pre.store.sessions[i].2)),
                        ..pre.store
                    });
                assert forall|k: int| 0 <= k < v.store.sessions.len() implies v.known.contains(
                    #[trigger] v.store.sessions[k].0,
                ) by {
                    assert(v.store.sessions[k].0 == pre.store.sessions[k].0);
                }
                assert(v == (SessionView {
                        store: StoreView {
                            sessions: pre.store.sessions.update(i, (id@, title@, pre.store.sessions[i].2)),
                            ..pre.store
                        },
                        ..pre
                    }));
            }
        }
        r
    }

    /// The id of the session in view.
    pub fn current_id(&self) -> (r: &String)
        ensures
            r@ == self@.current,
    {
        &self.current
    }

    /// The messages of the session in view.
    pub fn history(&self) -> (r: &Vec<Message>)
        ensures
            messages_view(r@) == self@.history,
    {
        &self.history
    }

    /// The persisted rows.
    pub fn store(&self) -> (r: &Store)
        ensures
            r@ == self@.store,
    {
        &self.store
    }

    /// Stages an attachment for the next send.
    pub fn stage_attachment(&mut self, name: String, content: String)
        requires
            state_wf(old(self)@),
        ensures
            state_wf(final(self)@),
            final(self)@ == (SessionView {
                staged: old(self)@.staged.push((name@, content@)),
                ..old(self)@
            }),
    {
        self.staging.stage(name, content);
    }

    /// Drops the staged attachment at `index`; an index past the end changes
    /// nothing. Returns whether one was dropped.
    pub fn unstage_attachment(&mut self, index: usize) -> (r: bool)
        requires
            state_wf(old(self)@),
        ensures
            state_wf(final(self)@),
            r == (index < old(self)@.staged.len()),
            r ==> final(self)@ == (SessionView {
                staged: old(self)@.staged.remove(index as int),
                ..old(self)@
            }),
            !r ==> final(self)@ == old(self)@,
    {
        self.staging.unstage(index)
    }

    /// The names of the staged attachments, in staging order.
    pub fn attachment_names(&self) -> (r: Vec<String>)
        ensures
            r@.len() == self@.staged.len(),
            forall|i: int| 0 <= i < r@.len() ==> r@[i]@ == self@.staged[i].0,
    {
        self.staging.names()
    }
}

} // verus!
