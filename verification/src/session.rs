//! The session of one game: what it is set up with, how far it has come, and
//! how each round trip to the service moves it on.
//!
//! A session performs no round trip itself. For each operation it first says
//! which request is due, or why none is; the caller performs the request and
//! hands the outcome back, and the session takes it in. On a failure nothing
//! of the session changes.

use vstd::prelude::*;
use vstd::string::*;
use crate::enums::{Answer, Language, Theme};
use crate::error::{EngineError, Error, UpdateFault};
use crate::models::{guess_option_view, guess_views, Guess, GuessView};

verus! {

/// How far a session has come.
#[derive(Clone, Copy, Debug, PartialEq, Eq, Structural)]
pub enum Phase {
    /// No game has been started: the service knows nothing of this session.
    Unstarted,
    /// A game is under way.
    Active,
    /// The game has been asked for its guesses.
    Won,
}

/// A round trip that is due: what the caller has to ask of the service.
#[derive(Clone, Copy, Debug, PartialEq, Eq, Structural)]
pub enum Request {
    /// Open a game with these settings and fetch its first question.
    Start { theme: Theme, language: Language, child_mode: bool },
    /// Submit an answer to the question at `step`.
    Answer { step: usize, answer: Answer, child_mode: bool },
    /// Take back the last answer, given at `step - 1`.
    Back { step: usize, child_mode: bool },
    /// Fetch the ranked guesses as they stand at `step`.
    Win { step: usize, child_mode: bool },
}

/// What the service sends when a game is opened.
#[derive(Debug)]
pub struct StartReply {
    /// The first question, if the service has one.
    pub question: Option<String>,
    /// The initial progression, as the bits of a single-precision number.
    pub progression: u32,
}

/// What the service sends after an answer, or after taking one back.
#[derive(Debug)]
pub struct MoveReply {
    /// The question now current, if the service has one.
    pub question: Option<String>,
    /// The progression now reached, as the bits of a single-precision number.
    pub progression: u32,
    /// The candidates as the service ranks them now, most likely first.
    pub guesses: Vec<Guess>,
}

/// The view of a text that may be absent.
pub open spec fn text_view(text: Option<String>) -> Option<Seq<char>> {
    match text {
        Some(t) => Some(t@),
        None => None,
    }
}

/// A start reply as mathematics.
pub ghost struct StartReplyView {
    pub question: Option<Seq<char>>,
    pub progression: u32,
}

/// A move reply as mathematics.
pub ghost struct MoveReplyView {
    pub question: Option<Seq<char>>,
    pub progression: u32,
    pub guesses: Seq<GuessView>,
}

impl View for StartReply {
    type V = StartReplyView;

    open spec fn view(&self) -> StartReplyView {
        StartReplyView { question: text_view(self.question), progression: self.progression }
    }
}

impl View for MoveReply {
    type V = MoveReplyView;

    open spec fn view(&self) -> MoveReplyView {
        MoveReplyView {
            question: text_view(self.question),
            progression: self.progression,
            guesses: guess_views(self.guesses@),
        }
    }
}

/// A session as mathematics.
pub ghost struct SessionView {
    pub theme: Theme,
    pub language: Language,
    pub child_mode: bool,
    pub phase: Phase,
    pub question: Option<Seq<char>>,
    pub progression: u32,
    pub step: nat,
    pub first_guess: Option<GuessView>,
    pub guesses: Seq<GuessView>,
}

impl SessionView {
    /// What holds of every session: one that was never started is at step 0
    /// with nothing received, and only a game under way has a question.
    pub open spec fn wf(self) -> bool {
        &&& self.phase is Unstarted ==> {
            &&& self.step == 0
            &&& self.progression == 0
            &&& self.first_guess is None
            &&& self.guesses.len() == 0
        }
        &&& !(self.phase is Active) ==> self.question is None
    }

    /// Whether a game was ever opened, so that the service knows the session.
    pub open spec fn is_started(self) -> bool {
        !(self.phase is Unstarted)
    }

    /// Whether the step is the largest the machine can count to, so that no
    /// further answer can be counted.
    pub open spec fn at_step_limit(self) -> bool {
        self.step >= usize::MAX
    }

    /// A session that has not been started, with the given settings.
    pub open spec fn fresh(theme: Theme, language: Language, child_mode: bool) -> SessionView {
        SessionView {
            theme,
            language,
            child_mode,
            phase: Phase::Unstarted,
            question: None,
            progression: 0,
            step: 0,
            first_guess: None,
            guesses: Seq::empty(),
        }
    }

    /// The session after a game was opened.
    pub open spec fn started(self, reply: StartReplyView) -> SessionView {
        SessionView {
            phase: Phase::Active,
            question: reply.question,
            progression: reply.progression,
            step: 0,
            ..self
        }
    }

    /// The session after an answer was taken.
    pub open spec fn answered(self, reply: MoveReplyView) -> SessionView {
        SessionView {
            phase: Phase::Active,
            question: reply.question,
            progression: reply.progression,
            step: self.step + 1,
            guesses: reply.guesses,
            ..self
        }
    }

    /// The session after the last answer was taken back.
    pub open spec fn went_back(self, reply: MoveReplyView) -> SessionView
        recommends
            self.step > 0,
    {
        SessionView {
            phase: Phase::Active,
            question: reply.question,
            progression: reply.progression,
            step: (self.step - 1) as nat,
            guesses: reply.guesses,
            ..self
        }
    }

    /// The session after the guesses were fetched: they stand as they came,
    /// the first of them is the first guess, and no question is open.
    pub open spec fn won(self, guesses: Seq<GuessView>) -> SessionView {
        SessionView {
            phase: Phase::Won,
            question: None,
            first_guess: if guesses.len() > 0 {
                Some(guesses[0])
            } else {
                None
            },
            guesses,
            ..self
        }
    }

    /// The text a session is shown as under a given class name.
    pub open spec fn repr(self, class: Seq<char>) -> Seq<char> {
        "<"@ + class + " theme=\""@ + self.theme.name_of() + "\" language=\""@
            + self.language.name_of() + "\" child_mode="@ + (if self.child_mode {
            "true"@
        } else {
            "false"@
        }) + ">"@
    }
}

/// Every move keeps a well-formed session well formed; going back needs a
/// step to go back from.
pub proof fn law_moves_keep_well_formed(
    session: SessionView,
    opening: StartReplyView,
    reply: MoveReplyView,
    guesses: Seq<GuessView>,
)
    requires
        session.wf(),
    ensures
        session.started(opening).wf(),
        session.answered(reply).wf(),
        session.step > 0 ==> session.went_back(reply).wf(),
        session.won(guesses).wf(),
{
}

/// Taking an answer back undoes what the answer did to the step, whatever
/// the service replied to either, and both leave the settings alone.
pub proof fn law_back_undoes_answer(session: SessionView, there: MoveReplyView, back: MoveReplyView)
    ensures
        session.answered(there).step == session.step + 1,
        session.answered(there).went_back(back).step == session.step,
        session.answered(there).went_back(back).theme == session.theme,
        session.answered(there).went_back(back).language == session.language,
        session.answered(there).went_back(back).child_mode == session.child_mode,
{
}

/// Fetching the guesses never reorders them: each stands where the service
/// put it, the list is as long as it came, and the first guess is the entry
/// at the front.
pub proof fn law_win_keeps_order(session: SessionView, guesses: Seq<GuessView>, i: int)
    requires
        0 <= i < guesses.len(),
    ensures
        session.won(guesses).guesses.len() == guesses.len(),
        session.won(guesses).guesses[i] == guesses[i],
        session.won(guesses).first_guess == Some(guesses[0]),
        session.won(guesses).step == session.step,
{
}

/// The entry at the front of a list of guesses, if the list has one.
pub open spec fn first_of(guesses: Seq<Guess>) -> Option<Guess> {
    if guesses.len() > 0 {
        Some(guesses[0])
    } else {
        None
    }
}

/// The failure of an operation that needs a started game and has none.
pub open spec fn not_started() -> Error {
    Error::AkiError(EngineError::NoDataFound)
}

/// The words of the failure of a step that does not fit the machine's word.
/// They are the engine's, for a step that it cannot read.
pub open spec fn step_limit_text() -> Seq<char> {
    "Failed to update data fields: Faield to parse data: number too large to fit in target type"@
}

/// Whether a failure is that of a step that does not fit the machine's word:
/// a whole number that could not be read, in the words above.
pub open spec fn is_step_limit(error: Error) -> bool {
    error matches Error::AkiError(
        EngineError::UpdateInfoError(UpdateFault::ParseIntError, text),
    ) && text@ == step_limit_text()
}

/// The failure of going back from the first question.
pub open spec fn at_first_question() -> Error {
    Error::AkiError(EngineError::CantGoBackAnyFurther)
}

/// One game against the service.
#[derive(Debug)]
pub struct Akinator {
    theme: Theme,
    language: Language,
    child_mode: bool,
    phase: Phase,
    current_question: Option<String>,
    progression: u32,
    step: usize,
    first_guess: Option<Guess>,
    guesses: Vec<Guess>,
}

impl View for Akinator {
    type V = SessionView;

    closed spec fn view(&self) -> SessionView {
        SessionView {
            theme: self.theme,
            language: self.language,
            child_mode: self.child_mode,
            phase: self.phase,
            question: text_view(self.current_question),
            progression: self.progression,
            step: self.step as nat,
            first_guess: guess_option_view(self.first_guess),
            guesses: guess_views(self.guesses@),
        }
    }
}

impl Akinator {
    /// Every session that exists is well formed.
    #[verifier::type_invariant]
    spec fn well_formed(self) -> bool {
        self@.wf()
    }

    /// A session that has not been started. A setting that is not given
    /// takes its default: characters, English, child mode off.
    pub fn new(
        theme: Option<Theme>,
        language: Option<Language>,
        child_mode: Option<bool>,
    ) -> (session: Akinator)
        ensures
            session@ == SessionView::fresh(
                theme.unwrap_or(Theme::Characters),
                language.unwrap_or(Language::English),
                child_mode.unwrap_or(false),
            ),
            session@.wf(),
    {
        let theme = match theme {
            Some(t) => t,
            None => Theme::default(),
        };
        let language = match language {
            Some(l) => l,
            None => Language::default(),
        };
        let child_mode = match child_mode {
            Some(c) => c,
            None => false,
        };
        let session = Akinator {
            theme,
            language,
            child_mode,
            phase: Phase::Unstarted,
            current_question: None,
            progression: 0,
            step: 0,
            first_guess: None,
            guesses: Vec::new(),
        };
        assert(session@.guesses =~= Seq::empty());
        session
    }

    /// The session as a short text for debugging, under the class name
    /// `Akinator`.
    pub fn repr(&self) -> (text: String)
        ensures
            text@ == self@.repr("Akinator"@),
    {
        self.repr_as("Akinator")
    }

    /// The session as a short text for debugging, under a class name of the
    /// caller's choice.
    pub fn repr_as(&self, class: &str) -> (text: String)
        ensures
            text@ == self@.repr(class@),
    {
        let mut text = String::from_str("<");
        text.append(class);
        text.append(" theme=\"");
        text.append(self.theme.name().as_str());
        text.append("\" language=\"");
        text.append(self.language.name().as_str());
        text.append("\" child_mode=");
        if self.child_mode {
            text.append("true");
        } else {
            text.append("false");
        }
        text.append(">");
        text
    }

    /// The request that opens a game. It is due in every phase: a session
    /// that is started again begins a new game with the service.
    pub fn start_request(&self) -> (request: Request)
        ensures
            request == (Request::Start {
                theme: self@.theme,
                language: self@.language,
                child_mode: self@.child_mode,
            }),
    {
        Request::Start { theme: self.theme, language: self.language, child_mode: self.child_mode }
    }

    /// The request that submits an answer, tagged with the current step.
    /// None is due for a session that was never started, which fails with
    /// missing data, nor at the largest step the machine can count to, where
    /// the next step could not be taken over.
    pub fn answer_request(&self, answer: Answer) -> (request: Result<Request, Error>)
        ensures
            !self@.is_started() ==> request == Err::<Request, Error>(not_started()),
            self@.is_started() && self@.at_step_limit() ==>
                request is Err && is_step_limit(request->Err_0),
            self@.is_started() && !self@.at_step_limit() ==> request == Ok::<Request, Error>(
                Request::Answer { step: self@.step as usize, answer, child_mode: self@.child_mode },
            ),
    {
        match self.phase {
            Phase::Unstarted => Err(Error::AkiError(EngineError::NoDataFound)),
            _ => {
                if self.step == usize::MAX {
                    Err(step_limit())
                } else {
                    Ok(Request::Answer { step: self.step, answer, child_mode: self.child_mode })
                }
            },
        }
    }

    /// The request that takes the last answer back. At step 0 there is none:
    /// the result is `CantGoBackAnyFurther`, decided here, before anything is
    /// sent. A request is only ever due in a game that was started.
    pub fn back_request(&self) -> (request: Result<Request, Error>)
        ensures
            self@.step == 0 ==> request == Err::<Request, Error>(at_first_question()),
            self@.step > 0 ==> request == Ok::<Request, Error>(
                Request::Back { step: self@.step as usize, child_mode: self@.child_mode },
            ),
            request is Ok ==> self@.is_started(),
    {
        proof {
            use_type_invariant(self);
        }
        if self.step == 0 {
            Err(Error::AkiError(EngineError::CantGoBackAnyFurther))
        } else {
            Ok(Request::Back { step: self.step, child_mode: self.child_mode })
        }
    }

    /// The request that fetches the ranked guesses; or, for a session that
    /// was never started, the failure of missing data. No progression is
    /// asked for: when to call it is the caller's policy.
    pub fn win_request(&self) -> (request: Result<Request, Error>)
        ensures
            !self@.is_started() ==> request == Err::<Request, Error>(not_started()),
            self@.is_started() ==> request == Ok::<Request, Error>(
                Request::Win { step: self@.step as usize, child_mode: self@.child_mode },
            ),
    {
        match self.phase {
            Phase::Unstarted => Err(Error::AkiError(EngineError::NoDataFound)),
            _ => Ok(Request::Win { step: self.step, child_mode: self.child_mode }),
        }
    }

    /// Takes in the outcome of opening a game and returns the first
    /// question, if the service had one.
    ///
    /// On a reply the session is under way at step 0 with the reply's
    /// question and progression. On a failure the failure is returned as it
    /// came and the session is as before.
    pub fn start_game(
        &mut self,
        outcome: Result<StartReply, Error>,
    ) -> (result: Result<Option<String>, Error>)
        ensures
            final(self)@.wf(),
            outcome matches Ok(reply) ==> final(self)@ == old(self)@.started(reply@),
            outcome matches Ok(reply) ==> result == Ok::<Option<String>, Error>(reply.question),
            outcome matches Err(failure) ==> *final(self) == *old(self),
            outcome matches Err(failure) ==> result == Err::<Option<String>, Error>(failure),
    {
        proof {
            use_type_invariant(&*self);
        }
        match outcome {
            Ok(reply) => {
                let question = copy_text(&reply.question);
                self.phase = Phase::Active;
                self.current_question = reply.question;
                self.progression = reply.progression;
                self.step = 0;
                Ok(question)
            },
            Err(failure) => Err(failure),
        }
    }

    /// Takes in the outcome of submitting an answer and returns the next
    /// question, or `None` where the service has no further one.
    ///
    /// Where no request was due the result is the failure that
    /// `answer_request` gives, whatever the outcome says: missing data for a
    /// session that was never started, a field that could not be taken over
    /// at the largest step. Otherwise, on a reply the step goes up by
    /// exactly one and question, progression and guesses are the reply's; on
    /// a failure the failure is returned as it came. Whenever the result is
    /// a failure the session is as before. A game can go on in this way
    /// after its guesses were fetched.
    pub fn answer(
        &mut self,
        outcome: Result<MoveReply, Error>,
    ) -> (result: Result<Option<String>, Error>)
        ensures
            final(self)@.wf(),
            result is Err ==> *final(self) == *old(self),
            result is Ok ==> final(self)@.step == old(self)@.step + 1,
            !old(self)@.is_started() ==> result == Err::<Option<String>, Error>(not_started()),
            old(self)@.is_started() && old(self)@.at_step_limit() ==>
                result is Err && is_step_limit(result->Err_0),
            old(self)@.is_started() && !old(self)@.at_step_limit() ==>
                (outcome matches Ok(reply) ==> final(self)@ == old(self)@.answered(reply@)),
            old(self)@.is_started() && !old(self)@.at_step_limit() ==>
                (outcome matches Ok(reply) ==>
                    result == Ok::<Option<String>, Error>(reply.question)),
            old(self)@.is_started() && !old(self)@.at_step_limit() ==>
                (outcome matches Err(failure) ==>
                    result == Err::<Option<String>, Error>(failure)),
    {
        proof {
            use_type_invariant(&*self);
        }
        match self.phase {
            Phase::Unstarted => { return Err(Error::AkiError(EngineError::NoDataFound)); },
            _ => {},
        }
        if self.step == usize::MAX {
            return Err(step_limit());
        }
        match outcome {
            Ok(reply) => {
                let question = copy_text(&reply.question);
                self.phase = Phase::Active;
                self.current_question = reply.question;
                self.progression = reply.progression;
                self.step = self.step + 1;
                self.guesses = reply.guesses;
                Ok(question)
            },
            Err(failure) => Err(failure),
        }
    }

    /// Takes in the outcome of taking the last answer back and returns the
    /// question that is current again.
    ///
    /// At step 0 the result is `CantGoBackAnyFurther`, whatever the outcome
    /// says. Otherwise, on a reply the step goes down by exactly one and
    /// question, progression and guesses are the reply's; on a failure the
    /// failure is returned as it came. Whenever the result is a failure the
    /// session is as before.
    pub fn back(
        &mut self,
        outcome: Result<MoveReply, Error>,
    ) -> (result: Result<Option<String>, Error>)
        ensures
            final(self)@.wf(),
            result is Err ==> *final(self) == *old(self),
            result is Ok ==> final(self)@.step == old(self)@.step - 1,
            old(self)@.step == 0 ==> result == Err::<Option<String>, Error>(at_first_question()),
            old(self)@.step > 0 ==> (outcome matches Ok(reply) ==>
                final(self)@ == old(self)@.went_back(reply@)),
            old(self)@.step > 0 ==> (outcome matches Ok(reply) ==>
                result == Ok::<Option<String>, Error>(reply.question)),
            old(self)@.step > 0 ==> (outcome matches Err(failure) ==>
                result == Err::<Option<String>, Error>(failure)),
    {
        proof {
            use_type_invariant(&*self);
        }
        if self.step == 0 {
            return Err(Error::AkiError(EngineError::CantGoBackAnyFurther));
        }
        match outcome {
            Ok(reply) => {
                let question = copy_text(&reply.question);
                self.phase = Phase::Active;
                self.current_question = reply.question;
                self.progression = reply.progression;
                self.step = self.step - 1;
                self.guesses = reply.guesses;
                Ok(question)
            },
            Err(failure) => Err(failure),
        }
    }

    /// Takes in the outcome of fetching the guesses and returns the first of
    /// them, or `None` where the service sent none.
    ///
    /// A session that was never started fails with missing data, whatever
    /// the outcome says. Otherwise, on a list the guesses are that list, in
    /// the order in which it came, the first guess is its first entry, and
    /// no question is open any more; on a failure the failure is returned as
    /// it came. Whenever the result is a failure the session is as before.
    pub fn win(
        &mut self,
        outcome: Result<Vec<Guess>, Error>,
    ) -> (result: Result<Option<Guess>, Error>)
        ensures
            final(self)@.wf(),
            result is Err ==> *final(self) == *old(self),
            !old(self)@.is_started() ==> result == Err::<Option<Guess>, Error>(not_started()),
            old(self)@.is_started() ==> (outcome matches Ok(list) ==>
                final(self)@ == old(self)@.won(guess_views(list@))),
            old(self)@.is_started() ==> (outcome matches Ok(list) ==>
                final(self)@.guesses == guess_views(list@)),
            old(self)@.is_started() ==> (outcome matches Ok(list) ==>
                result == Ok::<Option<Guess>, Error>(first_of(list@))),
            old(self)@.is_started() ==> (outcome matches Err(failure) ==>
                result == Err::<Option<Guess>, Error>(failure)),
    {
        proof {
            use_type_invariant(&*self);
        }
        match self.phase {
            Phase::Unstarted => { return Err(Error::AkiError(EngineError::NoDataFound)); },
            _ => {},
        }
        match outcome {
            Ok(list) => {
                let first = if list.len() > 0 {
                    Some(list[0].clone())
                } else {
                    None
                };
                let best = if list.len() > 0 {
                    Some(list[0].clone())
                } else {
                    None
                };
                self.current_question = None;
                self.phase = Phase::Won;
                self.first_guess = best;
                self.guesses = list;
                Ok(first)
            },
            Err(failure) => Err(failure),
        }
    }

    /// The theme of the game.
    pub fn theme(&self) -> (theme: Theme)
        ensures
            theme == self@.theme,
    {
        self.theme
    }

    /// The language of the game.
    pub fn language(&self) -> (language: Language)
        ensures
            language == self@.language,
    {
        self.language
    }

    /// Whether the game keeps to content fit for children.
    pub fn child_mode(&self) -> (child_mode: bool)
        ensures
            child_mode == self@.child_mode,
    {
        self.child_mode
    }

    /// How far the session has come. Whenever it is read, the session is
    /// well formed.
    pub fn phase(&self) -> (phase: Phase)
        ensures
            phase == self@.phase,
            self@.wf(),
    {
        proof {
            use_type_invariant(self);
        }
        self.phase
    }

    /// The question that is open, if one is.
    pub fn question(&self) -> (question: Option<String>)
        ensures
            text_view(question) == self@.question,
    {
        copy_text(&self.current_question)
    }

    /// The progression last reported, as the bits of a single-precision
    /// number.
    pub fn progression(&self) -> (bits: u32)
        ensures
            bits == self@.progression,
    {
        self.progression
    }

    /// The index of the current question, counted from 0.
    pub fn step(&self) -> (step: usize)
        ensures
            step == self@.step,
    {
        self.step
    }

    /// The best guess, once the guesses were fetched and there was one.
    pub fn first_guess(&self) -> (guess: Option<Guess>)
        ensures
            guess_option_view(guess) == self@.first_guess,
    {
        match &self.first_guess {
            Some(g) => Some(g.clone()),
            None => None,
        }
    }

    /// All guesses, in the order in which the service sent them.
    pub fn guesses(&self) -> (list: Vec<Guess>)
        ensures
            guess_views(list@) == self@.guesses,
    {
        let mut list: Vec<Guess> = Vec::new();
        let mut i: usize = 0;
        while i < self.guesses.len()
            invariant
                i <= self.guesses.len(),
                list@ == self.guesses@.subrange(0, i as int),
            decreases self.guesses.len() - i,
        {
            list.push(self.guesses[i].clone());
            assert(list@ =~= self.guesses@.subrange(0, i + 1));
            i = i + 1;
        }
        assert(list@ =~= self.guesses@);
        list
    }

    /// Sets the theme. Nothing else changes, in whatever phase.
    pub fn set_theme(&mut self, theme: Theme)
        ensures
            final(self)@ == (SessionView { theme, ..old(self)@ }),
    {
        proof {
            use_type_invariant(&*self);
        }
        self.theme = theme;
    }

    /// Sets the language. Nothing else changes, in whatever phase.
    pub fn set_language(&mut self, language: Language)
        ensures
            final(self)@ == (SessionView { language, ..old(self)@ }),
    {
        proof {
            use_type_invariant(&*self);
        }
        self.language = language;
    }

    /// Sets child mode. Nothing else changes, in whatever phase.
    pub fn set_child_mode(&mut self, child_mode: bool)
        ensures
            final(self)@ == (SessionView { child_mode, ..old(self)@ }),
    {
        proof {
            use_type_invariant(&*self);
        }
        self.child_mode = child_mode;
    }
}

impl Clone for Akinator {
    /// A second session in the same state. The two go separate ways from
    /// here on.
    fn clone(&self) -> (copy: Akinator)
        ensures
            copy@ == self@,
    {
        proof {
            use_type_invariant(self);
        }
        let copy = Akinator {
            theme: self.theme,
            language: self.language,
            child_mode: self.child_mode,
            phase: self.phase,
            current_question: copy_text(&self.current_question),
            progression: self.progression,
            step: self.step,
            first_guess: self.first_guess(),
            guesses: self.guesses(),
        };
        copy
    }
}

/// The failure of a step that does not fit the machine's word.
fn step_limit() -> (error: Error)
    ensures
        is_step_limit(error),
{
    Error::AkiError(
        EngineError::UpdateInfoError(
            UpdateFault::ParseIntError,
            String::from_str(
                "Failed to update data fields: Faield to parse data: number too large to fit in target type",
            ),
        ),
    )
}

/// A copy of a text that may be absent.
fn copy_text(text: &Option<String>) -> (copy: Option<String>)
    ensures
        copy == *text,
{
    match text {
        Some(t) => Some(t.clone()),
        None => None,
    }
}

} // verus!
