use vstd::prelude::*;

verus! {

/// Who spoke a turn of a conversation.
#[derive(Clone, Copy, Debug, PartialEq, Eq, Structural)]
pub enum Role {
    User,
    Assistant,
}

/// One turn of a conversation: a role and its text.
#[derive(Clone, Debug)]
pub struct Message {
    pub role: Role,
    pub content: String,
}

/// The mathematical value of a message: its role and its text as characters.
pub type MessageView = (Role, Seq<char>);

impl View for Message {
    type V = MessageView;

    open spec fn view(&self) -> MessageView {
        (self.role, self.content@)
    }
}

/// The views of a sequence of messages.
pub open spec fn messages_view(ms: Seq<Message>) -> Seq<MessageView> {
    ms.map_values(|m: Message| m@)
}

/// The role a stored tag denotes: `"user"` is a user turn, any other tag an
/// assistant turn, so that a malformed row never fails a load.
pub open spec fn role_of_tag(tag: Seq<char>) -> Role {
    if tag == seq!['u', 's', 'e', 'r'] {
        Role::User
    } else {
        Role::Assistant
    }
}

/// The tag under which a role is stored.
pub open spec fn tag_of_role(role: Role) -> Seq<char> {
    match role {
        Role::User => seq!['u', 's', 'e', 'r'],
        Role::Assistant => seq!['a', 's', 's', 'i', 's', 't', 'a', 'n', 't'],
    }
}

/// The label under which a role is shown.
pub open spec fn label_of_role(role: Role) -> Seq<char> {
    match role {
        Role::User => seq!['U', 's', 'e', 'r'],
        Role::Assistant => seq!['A', 'I'],
    }
}

/// Whether `s` and `t` hold the same characters.
pub fn str_equal(s: &str, t: &str) -> (r: bool)
    ensures
        r == (s@ == t@),
{
    let n = s.unicode_len();
    if n != t.unicode_len() {
        return false;
    }
    let mut i: usize = 0;
    while i < n
        invariant
            n == s@.len(),
            n == t@.len(),
            i <= n,
            forall|j: int| 0 <= j < i ==> s@[j] == t@[j],
        decreases n - i,
    {
        if s.get_char(i) != t.get_char(i) {
            return false;
        }
        i = i + 1;
    }
    assert(s@ =~= t@);
    true
}

impl Role {
    /// The role that a stored tag denotes; see [`role_of_tag`].
    pub fn from_tag(tag: &str) -> (r: Role)
        ensures
            r == role_of_tag(tag@),
    {
        proof {
            reveal_strlit("user");
            assert("user"@ =~= seq!['u', 's', 'e', 'r']);
        }
        if str_equal(tag, "user") {
            Role::User
        } else {
            Role::Assistant
        }
    }

    /// The tag under which this role is stored.
    pub fn tag(&self) -> (r: &'static str)
        ensures
            r@ == tag_of_role(*self),
    {
        proof {
            reveal_strlit("user");
            reveal_strlit("assistant");
            assert("user"@ =~= seq!['u', 's', 'e', 'r']);
            assert("assistant"@ =~= seq!['a', 's', 's', 'i', 's', 't', 'a', 'n', 't']);
        }
        match self {
            Role::User => "user",
            Role::Assistant => "assistant",
        }
    }

    /// The label under which this role is shown.
    pub fn label(&self) -> (r: &'static str)
        ensures
            r@ == label_of_role(*self),
    {
        proof {
            reveal_strlit("User");
            reveal_strlit("AI");
            assert("User"@ =~= seq!['U', 's', 'e', 'r']);
            assert("AI"@ =~= seq!['A', 'I']);
        }
        match self {
            Role::User => "User",
            Role::Assistant => "AI",
        }
    }
}

impl Message {
    /// A copy of this message.
    pub fn duplicate(&self) -> (r: Message)
        ensures
            r@ == self@,
    {
        Message { role: self.role, content: self.content.clone() }
    }

    /// A user turn holding `content`.
    pub fn user(content: String) -> (r: Message)
        ensures
            r@ == (Role::User, content@),
    {
        Message { role: Role::User, content }
    }

    /// An assistant turn holding `content`.
    pub fn assistant(content: String) -> (r: Message)
        ensures
            r@ == (Role::Assistant, content@),
    {
        Message { role: Role::Assistant, content }
    }
}

/// The rows that show a conversation: the label of each turn's role and its
/// text, in order.
pub fn display_rows(history: &Vec<Message>) -> (r: Vec<(String, String)>)
    ensures
        r@.len() == history@.len(),
        forall|i: int|
            0 <= i < r@.len() ==> (r@[i].0@, r@[i].1@) == (
                label_of_role(history@[i].role),
                history@[i].content@,
            ),
{
    let mut r: Vec<(String, String)> = Vec::new();
    let mut i: usize = 0;
    while i < history.len()
        invariant
            i <= history@.len(),
            r@.len() == i,
            forall|j: int|
                0 <= j < i ==> (r@[j].0@, r@[j].1@) == (
                    label_of_role(history@[j].role),
                    history@[j].content@,
                ),
        decreases history@.len() - i,
    {
        let m = &history[i];
        let mut label = String::new();
        label.append(m.role.label());
        r.push((label, m.content.clone()));
        i = i + 1;
    }
    r
}

} // verus!
