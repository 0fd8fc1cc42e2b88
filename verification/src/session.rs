//! The session of exercises: its phases, the messages it takes, and what
//! each message does to it.

use crate::fraction::{is_instance, Fraction, LIMIT};
use crate::generator::{generate, pick_kind};
use crate::kinds::{Choice, Ftype};
use vstd::prelude::*;

verus! {

/// After how many exercises a session is complete.
pub const SESSION_LENGTH: u32 = 20;

/// The phase a session is in.
#[derive(Debug, Clone, Copy, PartialEq, Eq, Structural)]
pub enum Mode {
    /// Nothing has happened yet.
    Start,
    /// A fraction is on display and waits for an answer.
    Exercising,
    /// The answer has been checked.
    Result,
    /// The session is over and its score is on display.
    FinalEvaluation,
}

impl Mode {
    /// The name of the phase, as text.
    pub open spec fn label_text(self) -> Seq<char> {
        match self {
            Mode::Start => "Start"@,
            Mode::Exercising => "Exercising"@,
            Mode::Result => "Result"@,
            Mode::FinalEvaluation => "FinalEvaluation"@,
        }
    }

    /// The name of the phase.
    pub fn label(&self) -> (text: &'static str)
        ensures
            text@ == self.label_text(),
    {
        match self {
            Mode::Start => "Start",
            Mode::Exercising => "Exercising",
            Mode::Result => "Result",
            Mode::FinalEvaluation => "FinalEvaluation",
        }
    }
}

impl Default for Mode {
    fn default() -> (mode: Mode)
        ensures
            mode == Mode::Start,
    {
        Mode::Start
    }
}

/// What a user can ask of a session.
#[derive(Debug, Clone, Copy, PartialEq, Eq, Structural)]
pub enum Message {
    /// Begin the first exercise.
    Start,
    /// Pick an answer for the fraction on display.
    ReadInput(Choice),
    /// Have the picked answer checked.
    Check,
    /// Go on to the next exercise.
    Next,
    /// End the session and see the score.
    Finish,
    /// Begin a new session.
    Restart,
    /// Leave.
    Quit,
}

impl Message {
    /// The name of the message, as text. The pick of an answer goes by the
    /// name of the answer.
    pub open spec fn label_text(self) -> Seq<char> {
        match self {
            Message::Start => "Start"@,
            Message::ReadInput(choice) => choice.label_text(),
            Message::Check => "Check"@,
            Message::Next => "Next"@,
            Message::Finish => "Finish"@,
            Message::Restart => "Restart"@,
            Message::Quit => "Quit"@,
        }
    }

    /// The name of the message.
    pub fn label(&self) -> (text: &'static str)
        ensures
            text@ == self.label_text(),
    {
        match self {
            Message::Start => "Start",
            Message::ReadInput(choice) => choice.label(),
            Message::Check => "Check",
            Message::Next => "Next",
            Message::Finish => "Finish",
            Message::Restart => "Restart",
            Message::Quit => "Quit",
        }
    }

    /// The message puts a new fraction on display.
    pub open spec fn wants_fraction(self) -> bool {
        self is Start || self is Next || self is Restart
    }

    /// What is left to do for the caller once the message was taken.
    pub open spec fn effect(self) -> Effect {
        if self is Quit {
            Effect::Quit
        } else {
            Effect::Continue
        }
    }
}

impl Default for Message {
    fn default() -> (message: Message)
        ensures
            message == Message::Start,
    {
        Message::Start
    }
}

/// What the caller has to do after a message was taken.
#[derive(Debug, Clone, Copy, PartialEq, Eq, Structural)]
pub enum Effect {
    /// Nothing: show the session as it is now.
    Continue,
    /// Close the session's window and end the program.
    Quit,
}

/// Why a message was not taken. The session is then as it was.
#[derive(Debug, Clone, Copy, PartialEq, Eq, Structural)]
pub enum TransitionError {
    /// The message has no meaning in the phase the session is in.
    WrongPhase,
    /// A check was asked for before any answer was picked.
    NoAnswer,
    /// The generator used up its attempts without a fraction.
    GeneratorExhausted,
}

/// How the name of a kind is to be shown once an answer was checked.
#[derive(Debug, Clone, Copy, PartialEq, Eq, Structural)]
pub enum Mark {
    /// The kind is the right one: as for a right answer.
    Right,
    /// The kind was picked and is the wrong one.
    Wrong,
    /// The kind was neither picked nor is it the right one.
    Plain,
}

/// What a session holds, as plain numbers.
pub struct Snapshot {
    /// The phase.
    pub mode: Mode,
    /// The answer checked last was wrong.
    pub error_made: bool,
    /// How many answers were wrong.
    pub errors_count: nat,
    /// How many answers were checked.
    pub exercise_count: nat,
    /// The numerator on display.
    pub num: nat,
    /// The denominator on display.
    pub den: nat,
    /// The kind of the fraction on display.
    pub frac_type: Ftype,
    /// The answer picked.
    pub choice: Choice,
}

impl Snapshot {
    /// A session before anything happened.
    pub open spec fn initial() -> Snapshot {
        Snapshot {
            mode: Mode::Start,
            error_made: false,
            errors_count: 0,
            exercise_count: 0,
            num: 0,
            den: 0,
            frac_type: Ftype::Proper,
            choice: Choice::Unselected,
        }
    }

    /// The fraction on display is one of its kind.
    pub open spec fn shows_fraction(self) -> bool {
        is_instance(self.frac_type, self.num, self.den)
    }

    /// The picked answer does not name the kind of the fraction on display.
    pub open spec fn mistaken(self) -> bool {
        self.choice.kind() != Some(self.frac_type)
    }

    /// What holds of a session at all times.
    ///
    /// No more answers were wrong than were checked. Before the start the
    /// session is untouched. From then on a fraction of its kind is on
    /// display. While it waits for an answer no error is flagged. Once an
    /// answer was checked, an answer is picked, and the error flag says
    /// whether it was wrong.
    pub open spec fn wf(self) -> bool {
        &&& self.errors_count <= self.exercise_count
        &&& match self.mode {
            Mode::Start => self == Snapshot::initial(),
            Mode::Exercising => self.shows_fraction() && !self.error_made,
            Mode::Result | Mode::FinalEvaluation => {
                &&& self.shows_fraction()
                &&& self.choice != Choice::Unselected
                &&& self.exercise_count >= 1
                &&& self.error_made == self.mistaken()
                &&& self.error_made ==> self.errors_count >= 1
            },
        }
    }

    /// Why the session does not take the message, if it does not.
    pub open spec fn refusal(self, message: Message) -> Option<TransitionError> {
        let phase = match message {
            Message::Start => Some(Mode::Start),
            Message::ReadInput(_) | Message::Check => Some(Mode::Exercising),
            Message::Next | Message::Finish => Some(Mode::Result),
            Message::Restart => Some(Mode::FinalEvaluation),
            Message::Quit => None,
        };
        if phase is Some && phase != Some(self.mode) {
            Some(TransitionError::WrongPhase)
        } else if message is Check && self.choice == Choice::Unselected {
            Some(TransitionError::NoAnswer)
        } else {
            None
        }
    }

    /// Why the message changes nothing, if it changes nothing: the session
    /// refuses it, or it wants a fraction and the generator delivered none.
    pub open spec fn rejection(self, message: Message, delivered: bool) -> Option<TransitionError> {
        if self.refusal(message) is Some {
            self.refusal(message)
        } else if message.wants_fraction() && !delivered {
            Some(TransitionError::GeneratorExhausted)
        } else {
            None
        }
    }

    /// The session with a new fraction on display, waiting for an answer.
    pub open spec fn presenting(self, kind: Ftype, num: nat, den: nat) -> Snapshot {
        Snapshot {
            mode: Mode::Exercising,
            error_made: false,
            num,
            den,
            frac_type: kind,
            choice: Choice::Unselected,
            ..self
        }
    }

    /// The session with the answer picked.
    pub open spec fn answered(self, choice: Choice) -> Snapshot {
        Snapshot { choice, ..self }
    }

    /// The session with the picked answer checked and counted.
    pub open spec fn checked(self) -> Snapshot {
        Snapshot {
            mode: Mode::Result,
            error_made: self.mistaken(),
            errors_count: if self.mistaken() {
                self.errors_count + 1
            } else {
                self.errors_count
            },
            exercise_count: self.exercise_count + 1,
            ..self
        }
    }

    /// The session at its end.
    pub open spec fn finished(self) -> Snapshot {
        Snapshot { mode: Mode::FinalEvaluation, ..self }
    }

    /// A new session with its first fraction on display.
    pub open spec fn restarted(self, kind: Ftype, num: nat, den: nat) -> Snapshot {
        Snapshot { errors_count: 0, exercise_count: 0, ..self.presenting(kind, num, den) }
    }

    /// The session after the message. A message that is refused changes
    /// nothing. The fraction given is the one that a message that wants a
    /// fraction puts on display.
    pub open spec fn after(self, message: Message, kind: Ftype, num: nat, den: nat) -> Snapshot {
        if self.refusal(message) is Some {
            self
        } else {
            match message {
                Message::Start | Message::Next => self.presenting(kind, num, den),
                Message::ReadInput(choice) => self.answered(choice),
                Message::Check => self.checked(),
                Message::Finish => self.finished(),
                Message::Restart => self.restarted(kind, num, den),
                Message::Quit => self,
            }
        }
    }

    /// How many answers were right.
    pub open spec fn correct_count(self) -> nat {
        (self.exercise_count - self.errors_count) as nat
    }

    /// How the name of a kind is to be shown: the picked kind as right or
    /// wrong, as the error flag says; the kind of the fraction as right;
    /// every other kind plainly.
    pub open spec fn mark(self, kind: Ftype) -> Mark {
        if self.choice.kind() == Some(kind) {
            if self.error_made {
                Mark::Wrong
            } else {
                Mark::Right
            }
        } else if self.frac_type == kind {
            Mark::Right
        } else {
            Mark::Plain
        }
    }
}

/// What a transition answers: the reason where there is one, else the value.
pub open spec fn reply<T>(rejection: Option<TransitionError>, value: T) -> Result<
    T,
    TransitionError,
> {
    match rejection {
        Some(reason) => Err(reason),
        None => Ok(value),
    }
}

/// An untouched session is well formed.
pub proof fn lemma_initial_wf()
    ensures
        Snapshot::initial().wf(),
{
}

/// Whatever message a well-formed session is sent, it stays well formed, as
/// long as the fraction put on display is one of its kind.
pub proof fn lemma_after_keeps_wf(s: Snapshot, message: Message, kind: Ftype, num: nat, den: nat)
    requires
        s.wf(),
        is_instance(kind, num, den),
    ensures
        s.after(message, kind, num, den).wf(),
{
}

/// After a check no more answers are counted wrong than were checked.
pub proof fn lemma_check_counts(s: Snapshot, kind: Ftype, num: nat, den: nat)
    requires
        s.wf(),
    ensures
        s.after(Message::Check, kind, num, den).errors_count <= s.after(
            Message::Check,
            kind,
            num,
            den,
        ).exercise_count,
{
}

/// A check without a picked answer changes nothing, so it counts nothing.
pub proof fn lemma_check_needs_answer(s: Snapshot, kind: Ftype, num: nat, den: nat)
    requires
        s.choice == Choice::Unselected,
    ensures
        s.after(Message::Check, kind, num, den) == s,
{
}

/// Once the session has gone on to the next exercise, or has begun anew, no
/// answer is picked and no error is flagged.
pub proof fn lemma_fresh_exercise(s: Snapshot, message: Message, kind: Ftype, num: nat, den: nat)
    requires
        message is Next || message is Restart,
        s.refusal(message) is None,
    ensures
        s.after(message, kind, num, den).choice == Choice::Unselected,
        !s.after(message, kind, num, den).error_made,
{
}

/// A session that has begun anew has counted nothing, whatever it had
/// counted before.
pub proof fn lemma_restart_resets(s: Snapshot, kind: Ftype, num: nat, den: nat)
    requires
        s.refusal(Message::Restart) is None,
    ensures
        s.after(Message::Restart, kind, num, den).exercise_count == 0,
        s.after(Message::Restart, kind, num, den).errors_count == 0,
{
}

/// A session of exercises.
#[derive(Debug, Clone, Copy)]
pub struct State {
    mode: Mode,
    error_made: bool,
    errors_count: u32,
    exercise_count: u32,
    num: u32,
    den: u32,
    frac_type: Ftype,
    choice: Choice,
}

impl View for State {
    type V = Snapshot;

    closed spec fn view(&self) -> Snapshot {
        Snapshot {
            mode: self.mode,
            error_made: self.error_made,
            errors_count: self.errors_count as nat,
            exercise_count: self.exercise_count as nat,
            num: self.num as nat,
            den: self.den as nat,
            frac_type: self.frac_type,
            choice: self.choice,
        }
    }
}

impl State {
    #[verifier::type_invariant]
    spec fn well_formed(self) -> bool {
        self@.wf()
    }

    /// A session before anything happened.
    pub fn new() -> (session: State)
        ensures
            session@ == Snapshot::initial(),
    {
        State {
            mode: Mode::Start,
            error_made: false,
            errors_count: 0,
            exercise_count: 0,
            num: 0,
            den: 0,
            frac_type: Ftype::Proper,
            choice: Choice::Unselected,
        }
    }

    /// Draws a kind and generates a fraction of it. `None` when the
    /// generator used up its attempts.
    pub fn get_new_numbers() -> (made: Option<Fraction>)
        ensures
            made matches Some(f) ==> is_instance(f.kind(), f.num(), f.den()),
            made matches Some(f) ==> f.kind() == Ftype::Apparent ==> f.num() < LIMIT,
    {
        generate(pick_kind())
    }

    /// Puts the given fraction on display, waiting for an answer.
    fn present(&mut self, fraction: Fraction)
        ensures
            final(self)@ == old(self)@.presenting(fraction.kind(), fraction.num(), fraction.den()),
            final(self)@.wf(),
    {
        proof {
            use_type_invariant(&*self);
            use_type_invariant(fraction);
        }
        *self = State {
            mode: Mode::Exercising,
            error_made: false,
            num: fraction.numerator(),
            den: fraction.denominator(),
            frac_type: fraction.category(),
            choice: Choice::Unselected,
            ..*self
        };
    }

    /// Begins the first exercise with what the generator delivered.
    ///
    /// Refused anywhere but before the start. Nothing changes either where
    /// nothing was delivered.
    pub fn start_with(&mut self, delivered: Option<Fraction>) -> (taken: Result<
        (),
        TransitionError,
    >)
        ensures
            taken == reply(old(self)@.rejection(Message::Start, delivered is Some), ()),
            taken is Err ==> final(self)@ == old(self)@,
            taken is Ok ==> final(self)@ == old(self)@.after(
                Message::Start,
                delivered->0.kind(),
                delivered->0.num(),
                delivered->0.den(),
            ),
            final(self)@.wf(),
    {
        proof {
            use_type_invariant(&*self);
        }
        if self.mode != Mode::Start {
            return Err(TransitionError::WrongPhase);
        }
        match delivered {
            Some(fraction) => {
                self.present(fraction);
                Ok(())
            },
            None => Err(TransitionError::GeneratorExhausted),
        }
    }

    /// Begins the first exercise with a fraction from the generator.
    ///
    /// Refused anywhere but before the start. Nothing changes either where
    /// the generator delivers nothing.
    pub fn start(&mut self) -> (taken: Result<(), TransitionError>)
        ensures
            taken == reply(old(self)@.rejection(Message::Start, taken is Ok), ()),
            taken is Err ==> final(self)@ == old(self)@,
            taken is Ok ==> final(self)@ == old(self)@.after(
                Message::Start,
                final(self)@.frac_type,
                final(self)@.num,
                final(self)@.den,
            ),
            final(self)@.wf(),
    {
        proof {
            use_type_invariant(&*self);
        }
        if self.mode != Mode::Start {
            return Err(TransitionError::WrongPhase);
        }
        let delivered = State::get_new_numbers();
        self.start_with(delivered)
    }

    /// Picks an answer for the fraction on display. To pick `Unselected` is
    /// to take the answer back.
    ///
    /// Refused anywhere but while the session waits for an answer.
    pub fn read_input(&mut self, choice: Choice) -> (taken: Result<(), TransitionError>)
        ensures
            taken == reply(old(self)@.refusal(Message::ReadInput(choice)), ()),
            taken is Err ==> final(self)@ == old(self)@,
            taken is Ok ==> final(self)@ == old(self)@.answered(choice),
            final(self)@.wf(),
    {
        proof {
            use_type_invariant(&*self);
        }
        if self.mode != Mode::Exercising {
            return Err(TransitionError::WrongPhase);
        }
        *self = State { choice, ..*self };
        Ok(())
    }

    /// Checks the picked answer against the kind of the fraction on display
    /// and counts it.
    ///
    /// Refused anywhere but while the session waits for an answer, and
    /// where no answer is picked: then nothing is counted. After a check no
    /// more answers are counted wrong than were checked. The count of
    /// exercises has to have room for one more.
    pub fn evaluate(&mut self) -> (taken: Result<(), TransitionError>)
        requires
            old(self)@.exercise_count < u32::MAX,
        ensures
            taken == reply(old(self)@.refusal(Message::Check), ()),
            taken is Err ==> final(self)@ == old(self)@,
            taken is Ok ==> final(self)@ == old(self)@.checked(),
            old(self)@.choice == Choice::Unselected ==> {
                &&& taken is Err
                &&& final(self)@.exercise_count == old(self)@.exercise_count
                &&& final(self)@.errors_count == old(self)@.errors_count
            },
            final(self)@.errors_count <= final(self)@.exercise_count,
            final(self)@.wf(),
    {
        proof {
            use_type_invariant(&*self);
        }
        if self.mode != Mode::Exercising {
            return Err(TransitionError::WrongPhase);
        }
        if self.choice == Choice::Unselected {
            return Err(TransitionError::NoAnswer);
        }
        let wrong = !self.choice.names(self.frac_type);
        let errors_count = if wrong {
            self.errors_count + 1
        } else {
            self.errors_count
        };
        *self = State {
            mode: Mode::Result,
            error_made: wrong,
            errors_count,
            exercise_count: self.exercise_count + 1,
            ..*self
        };
        Ok(())
    }

    /// Goes on to the next exercise with what the generator delivered. No
    /// answer is picked then, and no error flagged.
    ///
    /// Refused anywhere but after a check. Nothing changes either where
    /// nothing was delivered.
    pub fn next_with(&mut self, delivered: Option<Fraction>) -> (taken: Result<
        (),
        TransitionError,
    >)
        ensures
            taken == reply(old(self)@.rejection(Message::Next, delivered is Some), ()),
            taken is Err ==> final(self)@ == old(self)@,
            taken is Ok ==> final(self)@ == old(self)@.after(
                Message::Next,
                delivered->0.kind(),
                delivered->0.num(),
                delivered->0.den(),
            ),
            taken is Ok ==> final(self)@.choice == Choice::Unselected && !final(self)@.error_made,
            final(self)@.wf(),
    {
        proof {
            use_type_invariant(&*self);
        }
        if self.mode != Mode::Result {
            return Err(TransitionError::WrongPhase);
        }
        match delivered {
            Some(fraction) => {
                self.present(fraction);
                Ok(())
            },
            None => Err(TransitionError::GeneratorExhausted),
        }
    }

    /// Goes on to the next exercise with a fraction from the generator. No
    /// answer is picked then, and no error flagged.
    ///
    /// Refused anywhere but after a check. Nothing changes either where the
    /// generator delivers nothing.
    pub fn next(&mut self) -> (taken: Result<(), TransitionError>)
        ensures
            taken == reply(old(self)@.rejection(Message::Next, taken is Ok), ()),
            taken is Err ==> final(self)@ == old(self)@,
            taken is Ok ==> final(self)@ == old(self)@.after(
                Message::Next,
                final(self)@.frac_type,
                final(self)@.num,
                final(self)@.den,
            ),
            taken is Ok ==> final(self)@.choice == Choice::Unselected && !final(self)@.error_made,
            final(self)@.wf(),
    {
        proof {
            use_type_invariant(&*self);
        }
        if self.mode != Mode::Result {
            return Err(TransitionError::WrongPhase);
        }
        let delivered = State::get_new_numbers();
        self.next_with(delivered)
    }

    /// Ends the session.
    ///
    /// Refused anywhere but after a check.
    pub fn finish(&mut self) -> (taken: Result<(), TransitionError>)
        ensures
            taken == reply(old(self)@.refusal(Message::Finish), ()),
            taken is Err ==> final(self)@ == old(self)@,
            taken is Ok ==> final(self)@ == old(self)@.finished(),
            final(self)@.wf(),
    {
        proof {
            use_type_invariant(&*self);
        }
        if self.mode != Mode::Result {
            return Err(TransitionError::WrongPhase);
        }
        *self = State { mode: Mode::FinalEvaluation, ..*self };
        Ok(())
    }

    /// Begins a new session with what the generator delivered: nothing is
    /// counted any more, whatever was counted before, no answer is picked
    /// and no error flagged.
    ///
    /// Refused anywhere but at the end of a session. Nothing changes either
    /// where nothing was delivered.
    pub fn restart_with(&mut self, delivered: Option<Fraction>) -> (taken: Result<
        (),
        TransitionError,
    >)
        ensures
            taken == reply(old(self)@.rejection(Message::Restart, delivered is Some), ()),
            taken is Err ==> final(self)@ == old(self)@,
            taken is Ok ==> final(self)@ == old(self)@.after(
                Message::Restart,
                delivered->0.kind(),
                delivered->0.num(),
                delivered->0.den(),
            ),
            taken is Ok ==> final(self)@.choice == Choice::Unselected && !final(self)@.error_made,
            taken is Ok ==> final(self)@.exercise_count == 0 && final(self)@.errors_count == 0,
            final(self)@.wf(),
    {
        proof {
            use_type_invariant(&*self);
        }
        if self.mode != Mode::FinalEvaluation {
            return Err(TransitionError::WrongPhase);
        }
        match delivered {
            Some(fraction) => {
                proof {
                    use_type_invariant(fraction);
                }
                *self = State {
                    mode: Mode::Exercising,
                    error_made: false,
                    errors_count: 0,
                    exercise_count: 0,
                    num: fraction.numerator(),
                    den: fraction.denominator(),
                    frac_type: fraction.category(),
                    choice: Choice::Unselected,
                };
                Ok(())
            },
            None => Err(TransitionError::GeneratorExhausted),
        }
    }

    /// Begins a new session with a fraction from the generator: nothing is
    /// counted any more, whatever was counted before, no answer is picked
    /// and no error flagged.
    ///
    /// Refused anywhere but at the end of a session. Nothing changes either
    /// where the generator delivers nothing.
    pub fn restart(&mut self) -> (taken: Result<(), TransitionError>)
        ensures
            taken == reply(old(self)@.rejection(Message::Restart, taken is Ok), ()),
            taken is Err ==> final(self)@ == old(self)@,
            taken is Ok ==> final(self)@ == old(self)@.after(
                Message::Restart,
                final(self)@.frac_type,
                final(self)@.num,
                final(self)@.den,
            ),
            taken is Ok ==> final(self)@.choice == Choice::Unselected && !final(self)@.error_made,
            taken is Ok ==> final(self)@.exercise_count == 0 && final(self)@.errors_count == 0,
            final(self)@.wf(),
    {
        proof {
            use_type_invariant(&*self);
        }
        if self.mode != Mode::FinalEvaluation {
            return Err(TransitionError::WrongPhase);
        }
        let delivered = State::get_new_numbers();
        self.restart_with(delivered)
    }

    /// Takes a message: does what the message asks and says what is left to
    /// do for the caller.
    ///
    /// A message that the session refuses, or for which the generator
    /// delivers nothing, changes nothing. For a check the count of exercises
    /// has to have room for one more.
    pub fn update(&mut self, message: Message) -> (taken: Result<Effect, TransitionError>)
        requires
            message is Check ==> old(self)@.exercise_count < u32::MAX,
        ensures
            taken == reply(old(self)@.rejection(message, taken is Ok), message.effect()),
            taken is Err ==> final(self)@ == old(self)@,
            taken is Ok ==> final(self)@ == old(self)@.after(
                message,
                final(self)@.frac_type,
                final(self)@.num,
                final(self)@.den,
            ),
            final(self)@.wf(),
    {
        proof {
            use_type_invariant(&*self);
        }
        let taken = match message {
            Message::Start => self.start(),
            Message::ReadInput(choice) => self.read_input(choice),
            Message::Check => self.evaluate(),
            Message::Next => self.next(),
            Message::Finish => self.finish(),
            Message::Restart => self.restart(),
            Message::Quit => {
                return Ok(Effect::Quit);
            },
        };
        match taken {
            Ok(()) => Ok(Effect::Continue),
            Err(reason) => Err(reason),
        }
    }

    /// The phase.
    pub fn mode(&self) -> (mode: Mode)
        ensures
            mode == self@.mode,
            self@.wf(),
    {
        proof {
            use_type_invariant(self);
        }
        self.mode
    }

    /// Whether the answer checked last was wrong.
    pub fn error_made(&self) -> (flag: bool)
        ensures
            flag == self@.error_made,
    {
        self.error_made
    }

    /// How many answers were wrong.
    pub fn errors_count(&self) -> (count: u32)
        ensures
            count == self@.errors_count,
            count <= self@.exercise_count,
    {
        proof {
            use_type_invariant(self);
        }
        self.errors_count
    }

    /// How many answers were checked.
    pub fn exercise_count(&self) -> (count: u32)
        ensures
            count == self@.exercise_count,
    {
        self.exercise_count
    }

    /// The numerator on display; 0 before the start.
    pub fn num(&self) -> (num: u32)
        ensures
            num == self@.num,
    {
        self.num
    }

    /// The denominator on display; 0 before the start.
    pub fn den(&self) -> (den: u32)
        ensures
            den == self@.den,
    {
        self.den
    }

    /// The kind of the fraction on display.
    pub fn frac_type(&self) -> (kind: Ftype)
        ensures
            kind == self@.frac_type,
    {
        self.frac_type
    }

    /// The answer picked.
    pub fn choice(&self) -> (choice: Choice)
        ensures
            choice == self@.choice,
    {
        self.choice
    }

    /// Whether a check would be taken now: the session waits for an answer
    /// and one is picked.
    pub fn can_check(&self) -> (yes: bool)
        ensures
            yes == (self@.refusal(Message::Check) is None),
    {
        self.mode == Mode::Exercising && self.choice != Choice::Unselected
    }

    /// Whether the session has reached its length, so that it is time to
    /// finish and not to go on.
    pub fn session_complete(&self) -> (yes: bool)
        ensures
            yes == (self@.exercise_count >= SESSION_LENGTH),
    {
        self.exercise_count >= SESSION_LENGTH
    }

    /// How many answers were right.
    pub fn correct_count(&self) -> (count: u32)
        ensures
            count == self@.correct_count(),
            count + self@.errors_count == self@.exercise_count,
    {
        proof {
            use_type_invariant(self);
        }
        self.exercise_count - self.errors_count
    }

    /// The share of right answers in percent, rounded down. `None` as long
    /// as no answer was checked.
    pub fn accuracy_percent(&self) -> (percent: Option<u32>)
        ensures
            self@.exercise_count == 0 <==> percent is None,
            percent matches Some(p) ==> p == self@.correct_count() * 100 / self@.exercise_count,
            percent matches Some(p) ==> p <= 100,
    {
        proof {
            use_type_invariant(self);
        }
        if self.exercise_count == 0 {
            return None;
        }
        let correct: u64 = (self.exercise_count - self.errors_count) as u64;
        let total: u64 = self.exercise_count as u64;
        let percent: u64 = correct * 100 / total;
        assert(percent <= 100) by (nonlinear_arith)
            requires
                percent == (correct * 100) / (total as int),
                0 <= correct <= total,
                total > 0,
        ;
        Some(percent as u32)
    }

    /// How the name of a kind is to be shown once the answer was checked.
    pub fn mark(&self, kind: Ftype) -> (mark: Mark)
        ensures
            mark == self@.mark(kind),
    {
        if self.choice.names(kind) {
            if self.error_made {
                Mark::Wrong
            } else {
                Mark::Right
            }
        } else if self.frac_type == kind {
            Mark::Right
        } else {
            Mark::Plain
        }
    }
}

impl Default for State {
    fn default() -> (session: State)
        ensures
            session@ == Snapshot::initial(),
    {
        State::new()
    }
}

} // verus!
