use vstd::prelude::*;
use vstd::string::*;

verus! {

/// What the model is told after each event: go on generating, or stop.
#[derive(Clone, Copy, Debug, PartialEq, Eq, Structural)]
pub enum Feedback {
    Continue,
    Halt,
}

/// An event of a model's inference run, as far as the filter tells them apart.
#[derive(Clone, Debug)]
pub enum ModelEvent {
    /// A token the model produced.
    Token(String),
    /// The model's end-of-text token.
    EndOfText,
    /// Any other event (prompt tokens played back, snapshots, ...).
    Other,
}

/// What the filter decided on one event: the feedback for the model, and
/// the text, if any, that is to be sent on to the client now.
#[derive(Debug)]
pub struct Step {
    pub feedback: Feedback,
    pub emit: Option<String>,
}

/// The ghost state of a [`StopFilter`]: the stop sequence, and the text
/// held back because it may be the start of the stop sequence.
pub struct FilterState {
    pub stop: Seq<char>,
    pub held: Seq<char>,
}

/// The outcome of one token, in the abstract.
pub struct TokenOutcome {
    pub held: Seq<char>,
    pub feedback: Feedback,
    pub emit: Option<Seq<char>>,
}

/// What one token does to a filter whose stop sequence is `stop` and which
/// holds back `held`. With `joined` the held text followed by the token:
/// when `joined` is the stop sequence, the model is halted, nothing is
/// sent and nothing is held any more; when it is a proper start of the stop
/// sequence, it is held back and nothing is sent; otherwise `joined` is sent
/// and the held text stays as it was.
pub open spec fn token_outcome(stop: Seq<char>, held: Seq<char>, token: Seq<char>) -> TokenOutcome {
    let joined = held + token;
    if joined == stop {
        TokenOutcome { held: Seq::empty(), feedback: Feedback::Halt, emit: None }
    } else if joined.is_prefix_of(stop) {
        TokenOutcome { held: joined, feedback: Feedback::Continue, emit: None }
    } else {
        TokenOutcome { held: held, feedback: Feedback::Continue, emit: Some(joined) }
    }
}

/// The texts in an optional emission, as a sequence of zero or one text.
pub open spec fn emitted(e: Option<Seq<char>>) -> Seq<Seq<char>> {
    match e {
        Some(t) => seq![t],
        None => Seq::empty(),
    }
}

/// The outcome of feeding `tokens` one after the other: whether some token
/// halted the model, the texts sent (in order) up to and including that
/// token, and what is held back at the end.
pub struct RunOutcome {
    pub halted: bool,
    pub sent: Seq<Seq<char>>,
    pub held: Seq<char>,
}

/// Feeds `tokens` to a filter holding `held`, stopping at the first token
/// that halts the model.
pub open spec fn run_tokens(stop: Seq<char>, held: Seq<char>, tokens: Seq<Seq<char>>) -> RunOutcome
    decreases tokens.len(),
{
    if tokens.len() == 0 {
        RunOutcome { halted: false, sent: Seq::empty(), held: held }
    } else {
        let o = token_outcome(stop, held, tokens[0]);
        if o.feedback == Feedback::Halt {
            RunOutcome { halted: true, sent: emitted(o.emit), held: o.held }
        } else {
            let rest = run_tokens(stop, o.held, tokens.drop_first());
            RunOutcome { halted: rest.halted, sent: emitted(o.emit) + rest.sent, held: rest.held }
        }
    }
}

/// The filter that sits between the model and the client: it passes the
/// model's tokens on, but holds back text that may be the start of the stop
/// sequence (the player's speaker tag), and halts the model once the stop
/// sequence has been produced in full.
pub struct StopFilter {
    stop_sequence: String,
    held: String,
}

impl View for StopFilter {
    type V = FilterState;

    closed spec fn view(&self) -> FilterState {
        FilterState { stop: self.stop_sequence@, held: self.held@ }
    }
}

/// Whether `prefix` is a start of `s`, character by character.
fn starts_with(s: &str, prefix: &str) -> (b: bool)
    ensures
        b == prefix@.is_prefix_of(s@),
{
    let n = prefix.unicode_len();
    let m = s.unicode_len();
    if n > m {
        return false;
    }
    let mut i: usize = 0;
    while i < n
        invariant
            n == prefix@.len(),
            m == s@.len(),
            n <= m,
            i <= n,
            forall|j: int| 0 <= j < i ==> prefix@[j] == s@[j],
        decreases n - i,
    {
        if prefix.get_char(i) != s.get_char(i) {
            return false;
        }
        i = i + 1;
    }
    assert(prefix@ =~= s@.subrange(0, n as int));
    true
}

impl StopFilter {
    #[verifier::type_invariant]
    spec fn held_is_start_of_stop(&self) -> bool {
        self.held@.is_prefix_of(self.stop_sequence@)
    }

    /// A filter for `stop_sequence` that holds nothing back yet.
    pub fn new(stop_sequence: String) -> (f: Self)
        ensures
            f@.stop == stop_sequence@,
            f@.held == Seq::<char>::empty(),
    {
        let f = StopFilter { stop_sequence, held: String::new() };
        assert(f.held@.is_prefix_of(f.stop_sequence@));
        f
    }

    /// The stop sequence this filter watches for.
    pub fn stop_sequence(&self) -> (s: &str)
        ensures
            s@ == self@.stop,
    {
        self.stop_sequence.as_str()
    }

    /// The text currently held back.
    pub fn held(&self) -> (s: &str)
        ensures
            s@ == self@.held,
            s@.is_prefix_of(self@.stop),
    {
        proof {
            use_type_invariant(self);
        }
        self.held.as_str()
    }

    /// Handles one token of the model, as [`token_outcome`] says.
    pub fn on_token(&mut self, token: &str) -> (step: Step)
        ensures
            final(self)@.stop == old(self)@.stop,
            final(self)@.held == token_outcome(old(self)@.stop, old(self)@.held, token@).held,
            step.feedback == token_outcome(old(self)@.stop, old(self)@.held, token@).feedback,
            step.emit is Some == token_outcome(old(self)@.stop, old(self)@.held, token@).emit is Some,
            step.emit matches Some(e) ==> Some(e@) == token_outcome(
                old(self)@.stop,
                old(self)@.held,
                token@,
            ).emit,
            final(self)@.held.is_prefix_of(final(self)@.stop),
            !(old(self)@.held + token@).is_prefix_of(old(self)@.stop) ==> {
                &&& step.feedback == Feedback::Continue
                &&& step.emit matches Some(e) && e@ == old(self)@.held + token@
                &&& final(self)@.held == old(self)@.held
            },
    {
        proof {
            use_type_invariant(&*self);
        }
        let mut joined = self.held.clone();
        joined.append(token);
        if self.stop_sequence == joined {
            self.held = String::new();
            assert(self.held@.is_prefix_of(self.stop_sequence@));
            Step { feedback: Feedback::Halt, emit: None }
        } else if starts_with(self.stop_sequence.as_str(), joined.as_str()) {
            self.held = joined;
            Step { feedback: Feedback::Continue, emit: None }
        } else {
            let text = if self.held.as_str().is_empty() {
                assert(joined@ =~= token@);
                String::from_str(token)
            } else {
                joined
            };
            Step { feedback: Feedback::Continue, emit: Some(text) }
        }
    }

    /// Handles one event of the model: a token as [`StopFilter::on_token`]
    /// does; the end-of-text token halts the model; any other event lets it
    /// go on. Only a token sends text or changes what is held back.
    pub fn step(&mut self, event: &ModelEvent) -> (step: Step)
        ensures
            final(self)@.stop == old(self)@.stop,
            final(self)@.held.is_prefix_of(final(self)@.stop),
            match event {
                ModelEvent::Token(t) => {
                    let o = token_outcome(old(self)@.stop, old(self)@.held, t@);
                    &&& final(self)@.held == o.held
                    &&& step.feedback == o.feedback
                    &&& step.emit is Some == o.emit is Some
                    &&& step.emit matches Some(e) ==> Some(e@) == o.emit
                },
                ModelEvent::EndOfText => {
                    &&& final(self)@.held == old(self)@.held
                    &&& step.feedback == Feedback::Halt
                    &&& step.emit is None
                },
                ModelEvent::Other => {
                    &&& final(self)@.held == old(self)@.held
                    &&& step.feedback == Feedback::Continue
                    &&& step.emit is None
                },
            },
    {
        proof {
            use_type_invariant(&*self);
        }
        match event {
            ModelEvent::Token(t) => self.on_token(t.as_str()),
            ModelEvent::EndOfText => Step { feedback: Feedback::Halt, emit: None },
            ModelEvent::Other => Step { feedback: Feedback::Continue, emit: None },
        }
    }
}

/// A false start is released whole: when the held text followed by a token
/// is not a start of the stop sequence (so not the stop sequence either),
/// the model goes on, the held text followed by the token is sent, in full
/// and in order, whatever the length of the held text, and what is held
/// stays as it was.
pub proof fn lemma_false_start_is_released(stop: Seq<char>, held: Seq<char>, token: Seq<char>)
    requires
        !(held + token).is_prefix_of(stop),
    ensures
        token_outcome(stop, held, token).feedback == Feedback::Continue,
        token_outcome(stop, held, token).emit == Some(held + token),
        token_outcome(stop, held, token).held == held,
        emitted(token_outcome(stop, held, token).emit) == seq![held + token],
{
    if held + token == stop {
        assert((held + token) =~= stop.subrange(0, stop.len() as int));
    }
}

/// A stop sequence that arrives in pieces is swallowed whole: when the held
/// text followed by the tokens, in order, spells the stop sequence, feeding
/// the tokens halts the model and sends nothing to the client.
pub proof fn lemma_stop_sequence_is_swallowed(stop: Seq<char>, held: Seq<char>, tokens: Seq<Seq<char>>)
    requires
        tokens.len() > 0,
        held + tokens.flatten() == stop,
    ensures
        run_tokens(stop, held, tokens).halted,
        run_tokens(stop, held, tokens).sent == Seq::<Seq<char>>::empty(),
    decreases tokens.len(),
{
    let t = tokens[0];
    let rest = tokens.drop_first();
    let joined = held + t;
    assert(tokens.flatten() == t + rest.flatten());
    assert(stop =~= joined + rest.flatten());
    if joined == stop {
    } else {
        assert(joined.is_prefix_of(stop)) by {
            assert(joined =~= stop.subrange(0, joined.len() as int));
        }
        if rest.len() == 0 {
            assert(rest.flatten() =~= Seq::<char>::empty());
            assert(joined =~= stop);
        } else {
            lemma_stop_sequence_is_swallowed(stop, joined, rest);
            assert(emitted(None) + run_tokens(stop, joined, rest).sent =~= Seq::<Seq<char>>::empty());
        }
    }
}

/// Tokens that cannot start the stop sequence pass through one by one:
/// when nothing is held back and no token is a start of the stop sequence,
/// every token is sent as it came, in order, and the model is not halted.
pub proof fn lemma_plain_tokens_pass_through(stop: Seq<char>, tokens: Seq<Seq<char>>)
    requires
        forall|i: int| 0 <= i < tokens.len() ==> !(#[trigger] tokens[i]).is_prefix_of(stop),
    ensures
        run_tokens(stop, Seq::empty(), tokens)
            == (RunOutcome { halted: false, sent: tokens, held: Seq::<char>::empty() }),
    decreases tokens.len(),
{
    if tokens.len() > 0 {
        let t = tokens[0];
        let rest = tokens.drop_first();
        assert(Seq::<char>::empty() + t =~= t);
        assert(!t.is_prefix_of(stop));
        assert(t != stop) by {
            if t == stop {
                assert(t =~= stop.subrange(0, t.len() as int));
            }
        }
        assert forall|i: int| 0 <= i < rest.len() implies !(#[trigger] rest[i]).is_prefix_of(stop) by {
            assert(rest[i] == tokens[i + 1]);
        }
        lemma_plain_tokens_pass_through(stop, rest);
        let o = token_outcome(stop, Seq::empty(), t);
        assert(o.feedback == Feedback::Continue && o.held == Seq::<char>::empty() && o.emit == Some(t));
        assert(emitted(Some(t)) + rest =~= tokens);
    } else {
        assert(tokens =~= Seq::<Seq<char>>::empty());
    }
}

} // verus!
