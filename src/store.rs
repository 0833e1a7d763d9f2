use vstd::prelude::*;
use crate::message::{Message, MessageView, Role, messages_view};

verus! {

/// A stored session: its id, its title and its creation stamp.
pub type SessionRowView = (Seq<char>, Seq<char>, u64);

/// A stored message: the id of its session, its role and its text.
pub type MessageRowView = (Seq<char>, Role, Seq<char>);

/// The mathematical value of a store: its two tables in insertion order and
/// the stamp that the next session will get.
pub struct StoreView {
    pub sessions: Seq<SessionRowView>,
    pub messages: Seq<MessageRowView>,
    pub clock: u64,
}

/// A store is well formed when session ids are unique and creation stamps
/// strictly grow with insertion and stay below the clock.
pub open spec fn store_wf(v: StoreView) -> bool {
    &&& forall|i: int, j: int|
        0 <= i < v.sessions.len() && 0 <= j < v.sessions.len() && i != j
            ==> v.sessions[i].0 != v.sessions[j].0
    &&& forall|i: int, j: int|
        0 <= i < j < v.sessions.len() ==> v.sessions[i].2 < v.sessions[j].2
    &&& forall|i: int| 0 <= i < v.sessions.len() ==> v.sessions[i].2 < v.clock
}

/// Whether a session row with id `id` is stored.
pub open spec fn has_session(v: StoreView, id: Seq<char>) -> bool {
    exists|i: int| 0 <= i < v.sessions.len() && v.sessions[i].0 == id
}

/// The messages of session `sid`, in insertion order.
pub open spec fn messages_of(rows: Seq<MessageRowView>, sid: Seq<char>) -> Seq<MessageView>
    decreases rows.len(),
{
    if rows.len() == 0 {
        Seq::empty()
    } else {
        let last = rows.last();
        let rest = messages_of(rows.drop_last(), sid);
        if last.0 == sid {
            rest.push((last.1, last.2))
        } else {
            rest
        }
    }
}

/// The session rows, newest first.
pub open spec fn sessions_newest_first(v: StoreView) -> Seq<SessionRowView> {
    v.sessions.reverse()
}

/// The session listing: id and title of each session, newest first.
pub open spec fn listing(v: StoreView) -> Seq<(Seq<char>, Seq<char>)> {
    sessions_newest_first(v).map_values(|r: SessionRowView| (r.0, r.1))
}

/// Appending a row for `sid` appends its message to the messages of `sid`;
/// a row for another session leaves them as they were.
pub proof fn lemma_messages_of_push(rows: Seq<MessageRowView>, r: MessageRowView, sid: Seq<char>)
    ensures
        messages_of(rows.push(r), sid) == if r.0 == sid {
            messages_of(rows, sid).push((r.1, r.2))
        } else {
            messages_of(rows, sid)
        },
{
    assert(rows.push(r).drop_last() =~= rows);
}

/// A session has no stored message exactly when no message row names it.
pub proof fn lemma_messages_of_empty(rows: Seq<MessageRowView>, sid: Seq<char>)
    ensures
        messages_of(rows, sid).len() == 0 <==> forall|i: int|
            0 <= i < rows.len() ==> #[trigger] rows[i].0 != sid,
    decreases rows.len(),
{
    if rows.len() > 0 {
        let d = rows.drop_last();
        lemma_messages_of_empty(d, sid);
        if forall|i: int| 0 <= i < rows.len() ==> #[trigger] rows[i].0 != sid {
            assert forall|i: int| 0 <= i < d.len() implies #[trigger] d[i].0 != sid by {
                assert(d[i] == rows[i]);
            }
        }
        if messages_of(rows, sid).len() == 0 {
            assert forall|i: int| 0 <= i < rows.len() implies #[trigger] rows[i].0 != sid by {
                if i < d.len() {
                    assert(d[i] == rows[i]);
                }
            }
        }
    }
}

/// The ids held by a sequence of strings.
pub open spec fn ids_view(v: Seq<String>) -> Seq<Seq<char>> {
    v.map_values(|s: String| s@)
}

struct SessionRow {
    id: String,
    title: String,
    created_at: u64,
}

struct MessageRow {
    session_id: String,
    role: Role,
    content: String,
}

/// The persisted sessions and messages: a sessions table keyed by id and an
/// append-only messages table.
pub struct Store {
    sessions: Vec<SessionRow>,
    messages: Vec<MessageRow>,
    clock: u64,
}

impl View for Store {
    type V = StoreView;

    closed spec fn view(&self) -> StoreView {
        StoreView {
            sessions: self.sessions@.map_values(|r: SessionRow| (r.id@, r.title@, r.created_at)),
            messages: self.messages@.map_values(
                |r: MessageRow| (r.session_id@, r.role, r.content@),
            ),
            clock: self.clock,
        }
    }
}

impl Store {
    /// A store with no rows.
    pub fn new() -> (r: Store)
        ensures
            r@.sessions == Seq::<SessionRowView>::empty(),
            r@.messages == Seq::<MessageRowView>::empty(),
            r@.clock == 0,
            store_wf(r@),
    {
        let r = Store { sessions: Vec::new(), messages: Vec::new(), clock: 0 };
        assert(r@.sessions =~= Seq::<SessionRowView>::empty());
        assert(r@.messages =~= Seq::<MessageRowView>::empty());
        r
    }

    /// The position of the session row with id `id`, if there is one.
    pub fn find_session(&self, id: &String) -> (r: Option<usize>)
        ensures
            r is None <==> !has_session(self@, id@),
            r matches Some(i) ==> i < self@.sessions.len() && self@.sessions[i as int].0 == id@,
    {
        let mut i: usize = 0;
        while i < self.sessions.len()
            invariant
                i <= self.sessions@.len(),
                forall|j: int| 0 <= j < i ==> self@.sessions[j].0 != id@,
            decreases self.sessions@.len() - i,
        {
            if self.sessions[i].id == *id {
                assert(self@.sessions[i as int].0 == id@);
                return Some(i);
            }
            i = i + 1;
        }
        None
    }

    /// Whether a session row with id `id` is stored.
    pub fn has_session(&self, id: &String) -> (r: bool)
        ensures
            r == has_session(self@, id@),
    {
        self.find_session(id).is_some()
    }

    /// Inserts a session row stamped with the next creation stamp. Refused,
    /// with nothing changed, when the id is already stored or the stamps are
    /// spent.
    pub fn create_session(&mut self, id: String, title: String) -> (r: bool)
        requires
            store_wf(old(self)@),
        ensures
            store_wf(final(self)@),
            r == (!has_session(old(self)@, id@) && old(self)@.clock < u64::MAX),
            r ==> final(self)@ == (StoreView {
                sessions: old(self)@.sessions.push((id@, title@, old(self)@.clock)),
                messages: old(self)@.messages,
                clock: (old(self)@.clock + 1) as u64,
            }),
            !r ==> final(self)@ == old(self)@,
    {
        if self.has_session(&id) || self.clock == u64::MAX {
            return false;
        }
        let stamp = self.clock;
        self.sessions.push(SessionRow { id, title, created_at: stamp });
        self.clock = stamp + 1;
        assert(final(self)@.sessions =~= old(self)@.sessions.push((id@, title@, stamp)));
        true
    }

    /// Appends a message row.
    pub fn insert_message(&mut self, session_id: String, role: Role, content: String)
        requires
            store_wf(old(self)@),
        ensures
            store_wf(final(self)@),
            final(self)@ == (StoreView {
                sessions: old(self)@.sessions,
                messages: old(self)@.messages.push((session_id@, role, content@)),
                clock: old(self)@.clock,
            }),
    {
        self.messages.push(MessageRow { session_id, role, content });
        assert(final(self)@.messages =~= old(self)@.messages.push((session_id@, role, content@)));
        assert(final(self)@.sessions =~= old(self)@.sessions);
    }

    /// The messages of session `sid`, in insertion order.
    pub fn load_messages(&self, sid: &String) -> (r: Vec<Message>)
        ensures
            messages_view(r@) == messages_of(self@.messages, sid@),
    {
        let mut r: Vec<Message> = Vec::new();
        let mut i: usize = 0;
        while i < self.messages.len()
            invariant
                i <= self.messages@.len(),
                messages_view(r@) == messages_of(self@.messages.take(i as int), sid@),
            decreases self.messages@.len() - i,
        {
            let row = &self.messages[i];
            proof {
                let t = self@.messages.take(i as int + 1);
                assert(t.drop_last() =~= self@.messages.take(i as int));
            }
            if row.session_id == *sid {
                let m = Message { role: row.role, content: row.content.clone() };
                let ghost prev = r@;
                r.push(m);
                assert(messages_view(r@) =~= messages_view(prev).push(m@));
            }
            i = i + 1;
        }
        assert(self@.messages.take(self@.messages.len() as int) =~= self@.messages);
        r
    }

    /// The id and title of every session, newest first.
    pub fn list_sessions(&self) -> (r: Vec<(String, String)>)
        ensures
            r@.len() == listing(self@).len(),
            forall|i: int|
                0 <= i < r@.len() ==> (r@[i].0@, r@[i].1@) == #[trigger] listing(self@)[i],
    {
        let mut r: Vec<(String, String)> = Vec::new();
        let n = self.sessions.len();
        let mut k: usize = n;
        while k > 0
            invariant
                k <= n,
                n == self@.sessions.len(),
                r@.len() == n - k,
                forall|i: int|
                    0 <= i < r@.len() ==> (r@[i].0@, r@[i].1@) == (
                        self@.sessions[n - 1 - i].0,
                        self@.sessions[n - 1 - i].1,
                    ),
            decreases k,
        {
            k = k - 1;
            let row = &self.sessions[k];
            r.push((row.id.clone(), row.title.clone()));
        }
        r
    }

    /// Sets the title of the session row with id `id`. Returns whether there
    /// was such a row; without one nothing changes.
    pub fn update_session_title(&mut self, id: &String, title: String) -> (r: bool)
        requires
            store_wf(old(self)@),
        ensures
            store_wf(final(self)@),
            r == has_session(old(self)@, id@),
            r ==> exists|i: int|
                0 <= i < old(self)@.sessions.len() && old(self)@.sessions[i].0 == id@
                    && final(self)@ == (StoreView {
                    sessions: old(self)@.sessions.update(
                        i,
                        (id@, title@, old(self)@.sessions[i].2),
                    ),
                    ..old(self)@
                }),
            !r ==> final(self)@ == old(self)@,
    {
        match self.find_session(id) {
            None => false,
            Some(i) => {
                let stamp = self.sessions[i].created_at;
                let row = SessionRow { id: id.clone(), title, created_at: stamp };
                self.sessions.set(i, row);
                assert(final(self)@.sessions =~= old(self)@.sessions.update(
                    i as int,
                    (id@, title@, stamp),
                ));
                true
            },
        }
    }

    /// Whether any message of session `sid` is stored.
    pub fn has_messages(&self, sid: &String) -> (r: bool)
        ensures
            r == (messages_of(self@.messages, sid@).len() > 0),
    {
        proof {
            lemma_messages_of_empty(self@.messages, sid@);
        }
        let mut i: usize = 0;
        while i < self.messages.len()
            invariant
                i <= self.messages@.len(),
                forall|j: int| 0 <= j < i ==> self@.messages[j].0 != sid@,
            decreases self.messages@.len() - i,
        {
            if self.messages[i].session_id == *sid {
                proof {
                    let rows = self@.messages;
                    assert(rows[i as int].0 == sid@);
                    lemma_messages_of_empty(rows, sid@);
                }
                return true;
            }
            i = i + 1;
        }
        false
    }

    /// Every id that a session row or a message row of the store names.
    pub fn referenced_ids(&self) -> (r: Vec<String>)
        ensures
            forall|i: int|
                0 <= i < self@.sessions.len() ==> ids_view(r@).contains(
                    #[trigger] self@.sessions[i].0,
                ),
            forall|i: int|
                0 <= i < self@.messages.len() ==> ids_view(r@).contains(
                    #[trigger] self@.messages[i].0,
                ),
    {
        let mut r: Vec<String> = Vec::new();
        let mut i: usize = 0;
        while i < self.sessions.len()
            invariant
                i <= self.sessions@.len(),
                r@.len() == i,
                forall|j: int| 0 <= j < i ==> r@[j]@ == self@.sessions[j].0,
            decreases self.sessions@.len() - i,
        {
            r.push(self.sessions[i].id.clone());
            i = i + 1;
        }
        let ns = i;
        let mut k: usize = 0;
        while k < self.messages.len()
            invariant
                ns == self@.sessions.len(),
                k <= self.messages@.len(),
                r@.len() == ns + k,
                forall|j: int| 0 <= j < ns ==> r@[j]@ == self@.sessions[j].0,
                forall|j: int| 0 <= j < k ==> r@[ns + j]@ == self@.messages[j].0,
            decreases self.messages@.len() - k,
        {
            r.push(self.messages[k].session_id.clone());
            k = k + 1;
        }
        assert forall|i: int| 0 <= i < self@.sessions.len() implies ids_view(r@).contains(
            #[trigger] self@.sessions[i].0,
        ) by {
            assert(ids_view(r@)[i] == self@.sessions[i].0);
        }
        assert forall|i: int| 0 <= i < self@.messages.len() implies ids_view(r@).contains(
            #[trigger] self@.messages[i].0,
        ) by {
            assert(ids_view(r@)[ns + i] == self@.messages[i].0);
        }
        r
    }

    /// Whether every creation stamp is spent, so that no session row can be
    /// created any more.
    pub fn clock_spent(&self) -> (r: bool)
        ensures
            r == (self@.clock == u64::MAX),
    {
        self.clock == u64::MAX
    }
}

} // verus!
