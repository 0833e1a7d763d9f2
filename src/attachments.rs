use vstd::prelude::*;

verus! {

/// A named piece of text staged by the user for the next outgoing message.
#[derive(Clone, Debug)]
pub struct Attachment {
    pub name: String,
    pub content: String,
}

/// The mathematical value of an attachment: its name and its content.
pub type AttachmentView = (Seq<char>, Seq<char>);

impl View for Attachment {
    type V = AttachmentView;

    open spec fn view(&self) -> AttachmentView {
        (self.name@, self.content@)
    }
}

/// The line that opens the block of attached files.
pub open spec fn context_header() -> Seq<char> {
    "Context from files:\n"@
}

/// How one attachment is written in the block: its name in brackets on a
/// line of its own, then its content and a line break.
pub open spec fn attachment_block(a: AttachmentView) -> Seq<char> {
    "["@ + a.0 + "]\n"@ + a.1 + "\n"@
}

/// The blocks of all attachments, in staging order.
pub open spec fn attachment_blocks(atts: Seq<AttachmentView>) -> Seq<char>
    decreases atts.len(),
{
    if atts.len() == 0 {
        Seq::empty()
    } else {
        attachment_blocks(atts.drop_last()) + attachment_block(atts.last())
    }
}

/// The text of a message composed from staged attachments and the user's
/// text: the user's text alone when nothing is staged, else the header and
/// every attachment's block before it.
pub open spec fn folded_text(atts: Seq<AttachmentView>, text: Seq<char>) -> Seq<char> {
    if atts.len() == 0 {
        text
    } else {
        context_header() + attachment_blocks(atts) + text
    }
}

/// The attachments waiting for the next outgoing message.
pub struct AttachmentStaging {
    items: Vec<Attachment>,
}

impl View for AttachmentStaging {
    type V = Seq<AttachmentView>;

    closed spec fn view(&self) -> Seq<AttachmentView> {
        self.items@.map_values(|a: Attachment| a@)
    }
}

impl AttachmentStaging {
    /// Nothing staged.
    pub fn new() -> (r: AttachmentStaging)
        ensures
            r@ == Seq::<AttachmentView>::empty(),
    {
        let r = AttachmentStaging { items: Vec::new() };
        assert(r@ =~= Seq::<AttachmentView>::empty());
        r
    }

    /// The number of staged attachments.
    pub fn len(&self) -> (r: usize)
        ensures
            r == self@.len(),
    {
        self.items.len()
    }

    /// Whether nothing is staged.
    pub fn is_empty(&self) -> (r: bool)
        ensures
            r == (self@.len() == 0),
    {
        self.items.len() == 0
    }

    /// Appends an attachment; names may repeat.
    pub fn stage(&mut self, name: String, content: String)
        ensures
            final(self)@ == old(self)@.push((name@, content@)),
    {
        let a = Attachment { name, content };
        self.items.push(a);
        assert(final(self)@ =~= old(self)@.push((name@, content@)));
    }

    /// Removes the attachment at `index`; an index past the end changes
    /// nothing. Returns whether one was removed.
    pub fn unstage(&mut self, index: usize) -> (r: bool)
        ensures
            r == (index < old(self)@.len()),
            r ==> final(self)@ == old(self)@.remove(index as int),
            !r ==> final(self)@ == old(self)@,
    {
        if index < self.items.len() {
            self.items.remove(index);
            assert(final(self)@ =~= old(self)@.remove(index as int));
            true
        } else {
            false
        }
    }

    /// Drops every staged attachment.
    pub fn clear(&mut self)
        ensures
            final(self)@ == Seq::<AttachmentView>::empty(),
    {
        self.items.clear();
        assert(final(self)@ =~= Seq::<AttachmentView>::empty());
    }

    /// The names of the staged attachments, in staging order.
    pub fn names(&self) -> (r: Vec<String>)
        ensures
            r@.len() == self@.len(),
            forall|i: int| 0 <= i < r@.len() ==> r@[i]@ == self@[i].0,
    {
        let mut r: Vec<String> = Vec::new();
        let mut i: usize = 0;
        while i < self.items.len()
            invariant
                i <= self.items@.len(),
                r@.len() == i,
                forall|j: int| 0 <= j < i ==> r@[j]@ == self@[j].0,
            decreases self.items@.len() - i,
        {
            r.push(self.items[i].name.clone());
            i = i + 1;
        }
        r
    }

    /// Composes the outgoing text from the staged attachments and `text`
    /// (see [`folded_text`]) and empties the staging.
    pub fn drain_and_fold(&mut self, text: &str) -> (r: String)
        ensures
            r@ == folded_text(old(self)@, text@),
            final(self)@ == Seq::<AttachmentView>::empty(),
    {
        let mut out = String::new();
        if self.items.len() > 0 {
            out.append("Context from files:\n");
            let mut i: usize = 0;
            while i < self.items.len()
                invariant
                    i <= self.items@.len(),
                    self@ == old(self)@,
                    out@ == context_header() + attachment_blocks(self@.take(i as int)),
                decreases self.items@.len() - i,
            {
                let a = &self.items[i];
                out.append("[");
                out.append(a.name.as_str());
                out.append("]\n");
                out.append(a.content.as_str());
                out.append("\n");
                proof {
                    let s = self@.take(i as int + 1);
                    assert(s.drop_last() =~= self@.take(i as int));
                    assert(s.last() == self@[i as int]);
                    assert(out@ =~= context_header() + attachment_blocks(s));
                }
                i = i + 1;
            }
            assert(self@.take(self@.len() as int) =~= self@);
        }
        out.append(text);
        self.clear();
        proof {
            if old(self)@.len() == 0 {
                assert(out@ =~= text@);
            }
        }
        out
    }
}

} // verus!
