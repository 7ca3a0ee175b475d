use vstd::prelude::*;
use vstd::string::*;

verus! {

/// One message of the chat: its text, and whether the player wrote it
/// (`user`) or the bot did.
#[derive(Clone, Debug)]
pub struct Message {
    pub text: String,
    pub user: bool,
}

/// A message in the abstract.
pub struct MessageView {
    pub text: Seq<char>,
    pub user: bool,
}

impl View for Message {
    type V = MessageView;

    open spec fn view(&self) -> MessageView {
        MessageView { text: self.text@, user: self.user }
    }
}

/// The chat between the player and the bot, oldest message first.
#[derive(Clone, Debug)]
pub struct Conversation {
    pub messages: Vec<Message>,
}

impl View for Conversation {
    type V = Seq<MessageView>;

    open spec fn view(&self) -> Seq<MessageView> {
        self.messages@.map_values(|m: Message| m@)
    }
}

/// The messages `msgs` with `chunk` added to the end of the text of the last
/// one; the messages before it, and who wrote the last one, stay as they are.
pub open spec fn with_appended(msgs: Seq<MessageView>, chunk: Seq<char>) -> Seq<MessageView>
    recommends
        msgs.len() > 0,
{
    msgs.update(
        msgs.len() - 1,
        MessageView { text: msgs.last().text + chunk, user: msgs.last().user },
    )
}

/// The messages `msgs` after each of `chunks`, in order, has been added to
/// the last message.
pub open spec fn with_streamed(msgs: Seq<MessageView>, chunks: Seq<Seq<char>>) -> Seq<MessageView>
    decreases chunks.len(),
{
    if chunks.len() == 0 {
        msgs
    } else {
        with_streamed(with_appended(msgs, chunks[0]), chunks.drop_first())
    }
}

/// A message the player wrote.
pub open spec fn user_message(text: Seq<char>) -> MessageView {
    MessageView { text: text, user: true }
}

/// A message of the bot.
pub open spec fn model_message(text: Seq<char>) -> MessageView {
    MessageView { text: text, user: false }
}

impl Conversation {
    /// An empty chat.
    pub fn new() -> (c: Self)
        ensures
            c@ == Seq::<MessageView>::empty(),
    {
        let c = Conversation { messages: Vec::new() };
        assert(c@ =~= Seq::<MessageView>::empty());
        c
    }

    /// Adds the player's message `text` at the end.
    pub fn push_user_message(&mut self, text: String)
        ensures
            final(self)@ == old(self)@.push(user_message(text@)),
            final(self)@ == old(self)@.push(MessageView { text: text@, user: true }),
    {
        let ghost before = self@;
        self.messages.push(Message { text, user: true });
        assert(self@ =~= before.push(user_message(text@)));
    }

    /// Adds an empty message of the bot at the end, for its answer to be
    /// streamed into.
    pub fn push_model_message(&mut self)
        ensures
            final(self)@ == old(self)@.push(model_message(Seq::empty())),
            final(self)@ == old(self)@.push(MessageView { text: Seq::empty(), user: false }),
    {
        let ghost before = self@;
        self.messages.push(Message { text: String::new(), user: false });
        assert(self@ =~= before.push(model_message(Seq::empty())));
    }

    /// Adds `chunk` to the end of the text of the last message.
    pub fn append_to_last(&mut self, chunk: &str)
        requires
            old(self)@.len() > 0,
        ensures
            final(self)@ == with_appended(old(self)@, chunk@),
    {
        let ghost before = self@;
        let last = self.messages.pop();
        match last {
            Some(m) => {
                let mut m = m;
                m.text.append(chunk);
                self.messages.push(m);
                assert(self@ =~= with_appended(before, chunk@));
            },
            None => {},
        }
    }
}

/// The CSS classes of a message in the chat area: first the row that places
/// it, then the bubble that holds it. The player's messages sit on the right
/// in blue, the bot's on the left in grey.
pub fn message_classes(user: bool) -> (c: (&'static str, &'static str))
    ensures
        user ==> c.0@ == "flex justify-end"@,
        user ==> c.1@ == "max-w-md p-4 mb-5 rounded-lg self-end bg-blue-500 text-white"@,
        !user ==> c.0@ == "flex justify-start"@,
        !user ==> c.1@ == "max-w-md p-4 mb-5 rounded-lg self-end bg-gray-200 text-black"@,
{
    let bubble = if user {
        "max-w-md p-4 mb-5 rounded-lg self-end bg-blue-500 text-white"
    } else {
        "max-w-md p-4 mb-5 rounded-lg self-end bg-gray-200 text-black"
    };
    let row = if user {
        "flex justify-end"
    } else {
        "flex justify-start"
    };
    (row, bubble)
}

/// The player's message is kept verbatim: adding it lengthens the chat by
/// one, keeps every earlier message, and the new last message carries exactly
/// the given text, whatever its length, marked as the player's; the bot's new
/// message is empty and marked as the bot's.
pub proof fn lemma_new_messages_are_verbatim(msgs: Seq<MessageView>, text: Seq<char>)
    ensures
        msgs.push(user_message(text)).len() == msgs.len() + 1,
        msgs.push(user_message(text)).last().text == text,
        msgs.push(user_message(text)).last().user,
        forall|i: int| 0 <= i < msgs.len() ==> #[trigger] msgs.push(user_message(text))[i] == msgs[i],
        msgs.push(model_message(Seq::empty())).last().text.len() == 0,
        !msgs.push(model_message(Seq::empty())).last().user,
{
}

/// Text streamed in two pieces lands as if it had come in one: adding `a`
/// and then `b` to the last message is adding `a` followed by `b`.
pub proof fn lemma_appends_accumulate(msgs: Seq<MessageView>, a: Seq<char>, b: Seq<char>)
    requires
        msgs.len() > 0,
    ensures
        with_appended(with_appended(msgs, a), b) == with_appended(msgs, a + b),
{
    let once = with_appended(msgs, a);
    assert(once.last().text == msgs.last().text + a);
    assert(msgs.last().text + a + b =~= msgs.last().text + (a + b));
    assert(with_appended(once, b) =~= with_appended(msgs, a + b));
}

/// Streaming chunks into the last message leaves the messages before it
/// alone and gives the last one its text followed by all the chunks in order.
pub proof fn lemma_streamed_into_last(prior: Seq<MessageView>, last: MessageView, chunks: Seq<Seq<char>>)
    ensures
        with_streamed(prior.push(last), chunks) == prior.push(
            MessageView { text: last.text + chunks.flatten(), user: last.user },
        ),
    decreases chunks.len(),
{
    if chunks.len() == 0 {
        assert(last.text + chunks.flatten() =~= last.text);
        assert(prior.push(last) =~= prior.push(
            MessageView { text: last.text + chunks.flatten(), user: last.user },
        ));
    } else {
        let next = MessageView { text: last.text + chunks[0], user: last.user };
        assert(with_appended(prior.push(last), chunks[0]) =~= prior.push(next));
        lemma_streamed_into_last(prior, next, chunks.drop_first());
        assert(chunks.flatten() == chunks[0] + chunks.drop_first().flatten());
        assert(next.text + chunks.drop_first().flatten() =~= last.text + chunks.flatten());
    }
}

/// One exchange of the chat: after the player's `question` has been added,
/// then the bot's empty message, and then the bot's answer has been streamed
/// in as `chunks`, the chat is what it was followed by the question and the
/// answer, the chunks joined in order.
pub proof fn lemma_exchange(msgs: Seq<MessageView>, question: Seq<char>, chunks: Seq<Seq<char>>)
    ensures
        with_streamed(
            msgs.push(user_message(question)).push(model_message(Seq::empty())),
            chunks,
        ) == msgs.push(user_message(question)).push(model_message(chunks.flatten())),
{
    lemma_streamed_into_last(msgs.push(user_message(question)), model_message(Seq::empty()), chunks);
    assert(Seq::<char>::empty() + chunks.flatten() =~= chunks.flatten());
}

/// The player and the bot take turns: there is an even number of messages,
/// the player's at even positions and the bot's at odd ones.
pub open spec fn alternating(msgs: Seq<MessageView>) -> bool {
    &&& msgs.len() % 2 == 0
    &&& forall|i: int| 0 <= i < msgs.len() ==> (#[trigger] msgs[i]).user == (i % 2 == 0)
}

/// Turns keep alternating: when the player's and the bot's messages
/// alternate, they still do after the player's `question` has been added,
/// then the bot's empty message, and then the bot's answer has been streamed
/// in as any `chunks`.
pub proof fn lemma_exchange_keeps_turns(msgs: Seq<MessageView>, question: Seq<char>, chunks: Seq<Seq<char>>)
    requires
        alternating(msgs),
    ensures
        alternating(
            with_streamed(
                msgs.push(user_message(question)).push(model_message(Seq::empty())),
                chunks,
            ),
        ),
{
    lemma_exchange(msgs, question, chunks);
    let after = msgs.push(user_message(question)).push(model_message(chunks.flatten()));
    let n = msgs.len() as int;
    assert forall|i: int| 0 <= i < after.len() implies (#[trigger] after[i]).user == (i % 2 == 0) by {
        if i < n {
            assert(after[i] == msgs[i]);
        } else if i == n {
            assert(after[i] == user_message(question));
        } else {
            assert(after[i] == model_message(chunks.flatten()));
        }
    }
}

} // verus!
