use vstd::prelude::*;

verus! {

/// How a reply stream ended.
#[derive(Clone, Copy, Debug, PartialEq, Eq, Structural)]
pub enum StreamOutcome {
    /// The generator reached the end of its reply.
    Completed,
    /// The request or the stream failed.
    Failed,
}

/// What the display does with the reply row after a fragment: append a row
/// for the first fragment, else replace the last row. `text` is the whole
/// reply so far.
pub struct RowUpdate {
    pub replace_last: bool,
    pub text: String,
}

/// The reply received so far for one dispatched message, and the session it
/// will be filed under.
pub struct StreamAccumulator {
    session_id: String,
    text: String,
    started: bool,
}

/// The mathematical value of an accumulator: the target session id, the
/// reply so far and whether any fragment came.
pub struct AccumulatorView {
    pub session_id: Seq<char>,
    pub text: Seq<char>,
    pub started: bool,
}

impl View for StreamAccumulator {
    type V = AccumulatorView;

    closed spec fn view(&self) -> AccumulatorView {
        AccumulatorView { session_id: self.session_id@, text: self.text@, started: self.started }
    }
}

impl StreamAccumulator {
    /// An accumulator with no fragment yet, for a reply to be filed under
    /// `session_id`.
    pub fn new(session_id: String) -> (r: StreamAccumulator)
        ensures
            r@ == (AccumulatorView { session_id: session_id@, text: Seq::empty(), started: false }),
    {
        StreamAccumulator { session_id, text: String::new(), started: false }
    }

    /// Adds a fragment to the reply, in arrival order, and says how the
    /// display shows it.
    pub fn push_fragment(&mut self, chunk: &str) -> (r: RowUpdate)
        ensures
            final(self)@ == (AccumulatorView {
                session_id: old(self)@.session_id,
                text: old(self)@.text + chunk@,
                started: true,
            }),
            r.replace_last == old(self)@.started,
            r.text@ == final(self)@.text,
    {
        self.text.append(chunk);
        let replace_last = self.started;
        self.started = true;
        RowUpdate { replace_last, text: self.text.clone() }
    }

    /// The session the reply will be filed under.
    pub fn session_id(&self) -> (r: &String)
        ensures
            r@ == self@.session_id,
    {
        &self.session_id
    }

    /// The reply so far.
    pub fn text(&self) -> (r: &String)
        ensures
            r@ == self@.text,
    {
        &self.text
    }

    /// Whether any fragment came.
    pub fn started(&self) -> (r: bool)
        ensures
            r == self@.started,
    {
        self.started
    }

    /// The target session id and the reply, taken apart.
    pub fn into_parts(self) -> (r: (String, String, bool))
        ensures
            r.0@ == self@.session_id,
            r.1@ == self@.text,
            r.2 == self@.started,
    {
        (self.session_id, self.text, self.started)
    }
}

} // verus!
