use vstd::prelude::*;

use crate::content::{Content, Part};
use crate::message::{Message, WireRole};

verus! {

/// Whether consecutive messages of `s` alternate their wire roles.
pub open spec fn alternates(s: Seq<Message>) -> bool {
    forall|i: int| 0 < i < s.len() ==> #[trigger] takes_turn(s, i)
}

/// Whether message `i` of `s` has another wire role than message `i - 1`.
pub open spec fn takes_turn(s: Seq<Message>, i: int) -> bool {
    s[i].role != s[i - 1].role
}

/// Whether `m` may follow the messages `s`: it is first, or it takes the
/// turn from the last one.
pub open spec fn may_follow(s: Seq<Message>, m: Message) -> bool {
    s.len() == 0 || s.last().role != m.role
}

/// The wire role that is not `r`.
pub open spec fn other_role(r: WireRole) -> WireRole {
    match r {
        WireRole::User => WireRole::Assistant,
        WireRole::Assistant => WireRole::User,
    }
}

/// The system slot `new` is what appending `c` to the slot `old` gives: `c`
/// itself where the slot was empty, else the parts it had, then those of
/// `c`.
pub open spec fn appended_system(old: Option<Content>, c: Content, new: Option<Content>) -> bool {
    match old {
        None => new == Some(c),
        Some(e) => new is Some && new->0 is MultiPart && new->0.parts() == e.parts() + c.parts(),
    }
}

/// Whether part `p` is a tool use with id `id`.
pub open spec fn is_use_of(p: Part, id: Seq<char>) -> bool {
    p matches Part::ToolUse { call } && call.id@ == id
}

/// The number of tool uses with id `id` among the parts `ps`.
pub open spec fn uses_in_parts(ps: Seq<Part>, id: Seq<char>) -> nat
    decreases ps.len(),
{
    if ps.len() == 0 {
        0
    } else {
        uses_in_parts(ps.drop_last(), id) + if is_use_of(ps.last(), id) {
            1nat
        } else {
            0nat
        }
    }
}

/// The number of tool uses with id `id` in the messages `ms`.
pub open spec fn uses_in(ms: Seq<Message>, id: Seq<char>) -> nat
    decreases ms.len(),
{
    if ms.len() == 0 {
        0
    } else {
        uses_in(ms.drop_last(), id) + uses_in_parts(ms.last().content.parts(), id)
    }
}

/// A message that would break the alternation of turns.
#[derive(Debug, Clone, Copy, PartialEq, Eq, Structural)]
pub struct TurnOrderError {
    /// The role that the next message must have.
    pub expected: WireRole,
}

/// Everything needed to prompt the model: an optional system content and
/// the conversation, whose messages alternate their wire roles. It is passed
/// along by value: each change consumes it and returns the new one.
pub struct Prompt {
    system: Option<Content>,
    messages: Vec<Message>,
}

impl Prompt {
    #[verifier::type_invariant]
    spec fn inv(&self) -> bool {
        alternates(self.messages@)
    }

    /// The system content.
    pub closed spec fn system_spec(&self) -> Option<Content> {
        self.system
    }

    /// The messages, in turn order.
    pub closed spec fn messages_spec(&self) -> Seq<Message> {
        self.messages@
    }

    /// An empty prompt: no system content, no messages.
    pub fn new() -> (r: Prompt)
        ensures
            r.system_spec() is None,
            r.messages_spec() == Seq::<Message>::empty(),
            alternates(r.messages_spec()),
    {
        Prompt { system: None, messages: Vec::new() }
    }

    /// Replace the system content.
    pub fn set_system(self, content: Option<Content>) -> (r: Prompt)
        ensures
            r.system_spec() == content,
            r.messages_spec() == self.messages_spec(),
            alternates(r.messages_spec()),
    {
        proof {
            use_type_invariant(&self);
        }
        Prompt { system: content, messages: self.messages }
    }

    /// Append to the system content. An empty slot takes `content` as it is;
    /// otherwise the slot holds the parts it had, then those of `content`.
    pub fn append_system(self, content: Content) -> (r: Prompt)
        ensures
            r.messages_spec() == self.messages_spec(),
            appended_system(self.system_spec(), content, r.system_spec()),
            alternates(r.messages_spec()),
    {
        proof {
            use_type_invariant(&self);
        }
        let Prompt { system, messages } = self;
        let system = match system {
            None => content,
            Some(existing) => existing.join(content),
        };
        Prompt { system: Some(system), messages }
    }

    /// The system content.
    pub fn system(&self) -> (r: Option<&Content>)
        ensures
            match r {
                Some(c) => self.system_spec() == Some(*c),
                None => self.system_spec() is None,
            },
    {
        match &self.system {
            Some(c) => Some(c),
            None => None,
        }
    }

    /// Whether `message` may be added at the end.
    pub fn accepts(&self, message: &Message) -> (r: bool)
        ensures
            r == may_follow(self.messages_spec(), *message),
    {
        let n = self.messages.len();
        n == 0 || !role_eq(self.messages[n - 1].role, message.role)
    }

    /// Add a message at the end. It fails, and the prompt is dropped, where
    /// the message has the wire role of the last one.
    pub fn add_message(self, message: Message) -> (r: Result<Prompt, TurnOrderError>)
        ensures
            r is Ok <==> may_follow(self.messages_spec(), message),
            r is Ok ==> r->Ok_0.messages_spec() == self.messages_spec().push(message)
                && r->Ok_0.system_spec() == self.system_spec(),
            alternates(self.messages_spec()),
            r is Ok ==> alternates(r->Ok_0.messages_spec()),
            r is Err ==> r->Err_0.expected == other_role(self.messages_spec().last().role),
    {
        proof {
            use_type_invariant(&self);
        }
        let n = self.messages.len();
        if n > 0 && role_eq(self.messages[n - 1].role, message.role) {
            return Err(TurnOrderError { expected: other(message.role) });
        }
        let Prompt { system, mut messages } = self;
        proof {
            lemma_alternates_concat(messages@, seq![message]);
            assert(messages@.push(message) == messages@ + seq![message]);
            assert(alternates(seq![message]));
        }
        messages.push(message);
        Ok(Prompt { system, messages })
    }

    /// Add messages at the end, in order. It fails, and the prompt is
    /// dropped, where two neighbours in the result would share a wire role.
    pub fn extend_messages(self, messages: Vec<Message>) -> (r: Result<Prompt, TurnOrderError>)
        ensures
            r is Ok <==> alternates(self.messages_spec() + messages@),
            r is Ok ==> r->Ok_0.messages_spec() == self.messages_spec() + messages@
                && r->Ok_0.system_spec() == self.system_spec(),
            alternates(self.messages_spec()),
            r is Ok ==> alternates(r->Ok_0.messages_spec()),
    {
        proof {
            use_type_invariant(&self);
        }
        let Prompt { system, messages: mut all } = self;
        proof {
            lemma_alternates_concat(all@, messages@);
        }
        let n = messages.len();
        let m = all.len();
        if n > 0 && m > 0 && role_eq(all[m - 1].role, messages[0].role) {
            return Err(TurnOrderError { expected: other(messages[0].role) });
        }
        let mut i: usize = 1;
        while i < n
            invariant
                n == messages@.len(),
                alternates(all@ + messages@) <==> alternates(messages@),
                all@ == self.messages@,
                alternates(self.messages@),
                1 <= i,
                n > 0 ==> i <= n,
                forall|j: int| 0 < j < i ==> #[trigger] takes_turn(messages@, j),
            decreases n - i,
        {
            if role_eq(messages[i - 1].role, messages[i].role) {
                proof {
                    assert(!takes_turn(messages@, i as int));
                }
                return Err(TurnOrderError { expected: other(messages[i].role) });
            }
            i = i + 1;
        }
        let mut rest = messages;
        all.append(&mut rest);
        Ok(Prompt { system, messages: all })
    }

    /// Whether exactly one tool use in the prompt has id `id`: the
    /// condition for a tool result with that id to answer it.
    pub fn answers_one_use(&self, id: &str) -> (r: bool)
        ensures
            r == (uses_in(self.messages_spec(), id@) == 1),
    {
        let key = id.to_owned();
        let ms = self.messages.as_slice();
        let mut count: usize = 0;
        let mut i: usize = 0;
        while i < ms.len()
            invariant
                i <= ms@.len(),
                ms@ == self.messages@,
                key@ == id@,
                count <= 2,
                count == if uses_in(ms@.subrange(0, i as int), id@) < 2 {
                    uses_in(ms@.subrange(0, i as int), id@)
                } else {
                    2
                },
            decreases ms@.len() - i,
        {
            let c = count_uses(&ms[i].content, &key);
            proof {
                let s = ms@.subrange(0, i + 1);
                assert(s.drop_last() =~= ms@.subrange(0, i as int));
                assert(s.last() == ms@[i as int]);
                assert(uses_in(s, id@) == uses_in(ms@.subrange(0, i as int), id@) + uses_in_parts(
                    ms@[i as int].content.parts(),
                    id@,
                ));
            }
            count = if count + c >= 2 {
                2
            } else {
                count + c
            };
            i = i + 1;
        }
        proof {
            assert(ms@.subrange(0, ms@.len() as int) =~= ms@);
        }
        count == 1
    }

    /// The messages, in turn order.
    pub fn messages(&self) -> (r: &[Message])
        ensures
            r@ == self.messages_spec(),
    {
        self.messages.as_slice()
    }
}

/// Appending `b` to alternating messages `a` keeps the alternation exactly
/// where `b` alternates and its first message may follow `a`: extending a
/// prompt at once succeeds exactly when adding the messages one by one
/// does.
pub proof fn lemma_alternates_concat(a: Seq<Message>, b: Seq<Message>)
    requires
        alternates(a),
    ensures
        alternates(a + b) <==> ((b.len() > 0 ==> may_follow(a, b[0])) && alternates(b)),
{
    let s = a + b;
    if alternates(s) {
        assert forall|j: int| 0 < j < b.len() implies #[trigger] takes_turn(b, j) by {
            assert(takes_turn(s, a.len() + j));
            assert(s[a.len() + j] == b[j]);
            assert(s[a.len() + j - 1] == b[j - 1]);
        }
        if b.len() > 0 && a.len() > 0 {
            assert(takes_turn(s, a.len() as int));
            assert(s[a.len() as int] == b[0]);
            assert(s[a.len() - 1] == a.last());
        }
    }
    if (b.len() > 0 ==> may_follow(a, b[0])) && alternates(b) {
        assert forall|i: int| 0 < i < s.len() implies #[trigger] takes_turn(s, i) by {
            if i < a.len() {
                assert(takes_turn(a, i));
                assert(s[i] == a[i]);
                assert(s[i - 1] == a[i - 1]);
            } else if i == a.len() {
                assert(s[i] == b[0]);
                assert(s[i - 1] == a.last());
            } else {
                assert(takes_turn(b, i - a.len()));
                assert(s[i] == b[i - a.len()]);
                assert(s[i - 1] == b[i - 1 - a.len()]);
            }
        }
    }
}

/// The number of tool uses with id `id` in content `c`, counted up to two.
fn count_uses(c: &Content, id: &String) -> (r: usize)
    ensures
        r == if uses_in_parts(c.parts(), id@) < 2 {
            uses_in_parts(c.parts(), id@)
        } else {
            2
        },
{
    match c {
        Content::SinglePart(_) => {
            proof {
                let ps = c.parts();
                assert(ps.drop_last() =~= Seq::<Part>::empty());
                assert(!is_use_of(ps.last(), id@));
                assert(uses_in_parts(ps.drop_last(), id@) == 0);
            }
            0
        },
        Content::MultiPart(v) => {
            let mut count: usize = 0;
            let mut i: usize = 0;
            while i < v.len()
                invariant
                    i <= v@.len(),
                    count <= 2,
                    count == if uses_in_parts(v@.subrange(0, i as int), id@) < 2 {
                        uses_in_parts(v@.subrange(0, i as int), id@)
                    } else {
                        2
                    },
                decreases v@.len() - i,
            {
                let hit = match &v[i] {
                    Part::ToolUse { call } => call.id == *id,
                    _ => false,
                };
                proof {
                    let s = v@.subrange(0, i + 1);
                    assert(s.drop_last() =~= v@.subrange(0, i as int));
                    assert(s.last() == v@[i as int]);
                    assert(hit == is_use_of(v@[i as int], id@));
                    assert(uses_in_parts(s, id@) == uses_in_parts(v@.subrange(0, i as int), id@) + if is_use_of(
                        v@[i as int],
                        id@,
                    ) {
                        1nat
                    } else {
                        0nat
                    });
                }
                if hit && count < 2 {
                    count = count + 1;
                }
                i = i + 1;
            }
            proof {
                assert(v@.subrange(0, v@.len() as int) =~= v@);
            }
            count
        },
    }
}

/// Whether two wire roles are the same.
pub fn role_eq(a: WireRole, b: WireRole) -> (r: bool)
    ensures
        r == (a == b),
{
    match (a, b) {
        (WireRole::User, WireRole::User) => true,
        (WireRole::Assistant, WireRole::Assistant) => true,
        _ => false,
    }
}

/// The wire role that is not `r`.
pub fn other(r: WireRole) -> (o: WireRole)
    ensures
        o == other_role(r),
{
    match r {
        WireRole::User => WireRole::Assistant,
        WireRole::Assistant => WireRole::User,
    }
}

/// Adding a message that may follow keeps the prior messages, in order,
/// and puts the new one last: the prompt is one message longer.
pub proof fn lemma_add_message_appends(prior: Seq<Message>, m: Message, after: Seq<Message>)
    requires
        may_follow(prior, m),
        after == prior.push(m),
    ensures
        after.len() == prior.len() + 1,
        after.last() == m,
        after.subrange(0, prior.len() as int) == prior,
        alternates(prior) ==> alternates(after),
{
    assert(after.subrange(0, prior.len() as int) =~= prior);
    if alternates(prior) {
        assert forall|i: int| 0 < i < after.len() implies #[trigger] takes_turn(after, i) by {
            if i < prior.len() {
                assert(takes_turn(prior, i));
            }
        }
    }
}

/// Appending to an empty system slot gives what setting the slot to the
/// same content gives.
pub proof fn lemma_append_to_empty_is_set(c: Content, new: Option<Content>)
    requires
        appended_system(None, c, new),
    ensures
        new == Some(c),
{
}

/// Appending a text to a system slot holding a single text gives two parts:
/// the text that was there first, then the new one.
pub proof fn lemma_append_to_single_part(first: String, second: String, new: Option<Content>)
    requires
        appended_system(Some(Content::SinglePart(first)), Content::SinglePart(second), new),
    ensures
        new is Some,
        new->0 is MultiPart,
        new->0.parts().len() == 2,
        new->0.parts()[0] == (Part::Text { text: first }),
        new->0.parts()[1] == (Part::Text { text: second }),
{
}

} // verus!
