//! The game session: owns the hidden target, the range bounds, the attempt
//! budget and the ordered guess history, and produces the feedback the
//! driver displays (classification, warnings, hints, victory text).
use vstd::prelude::*;

use crate::temperature::Temperature;
use crate::temperature::spec_distance;
use crate::temperature::spec_from_distance;

verus! {

/// Returned by `make_guess` once the attempt budget is spent: submitting a
/// guess to a finished session is a caller bug, reported rather than ignored.
#[derive(Clone, Copy, Debug, PartialEq, Eq, Structural)]
pub struct InvalidState;

/// The mutable state of one playthrough.
pub struct Game {
    pub target: u32,
    pub min: u32,
    pub max: u32,
    pub attempts: u32,
    pub max_attempts: u32,
    pub guesses: Vec<u32>,
}

/// Relies on rand::random_range: a sample from the thread-local generator,
/// uniformly distributed over the inclusive range; it panics only when the
/// range is empty, which the precondition rules out.
#[verifier::external_body]
fn random_in_range(min: u32, max: u32) -> (r: u32)
    requires
        min <= max,
    ensures
        min <= r <= max,
{
    rand::random_range(min..=max)
}

impl Game {
    /// The session invariant: bounds are ordered, the target lies within
    /// them, the budget is positive and not yet overdrawn, and the history
    /// holds exactly one in-range entry per attempt.
    pub open spec fn well_formed(&self) -> bool {
        &&& self.min <= self.max
        &&& self.min <= self.target <= self.max
        &&& 1 <= self.max_attempts
        &&& self.attempts <= self.max_attempts
        &&& self.guesses@.len() == self.attempts
        &&& forall|i: int|
            0 <= i < self.guesses@.len() ==> self.min <= #[trigger] self.guesses@[i] <= self.max
    }

    /// Start a playthrough with a randomly drawn target.
    pub fn new(min: u32, max: u32, max_attempts: u32) -> (g: Game)
        requires
            min <= max,
            1 <= max_attempts,
        ensures
            g.well_formed(),
            g.min == min,
            g.max == max,
            g.max_attempts == max_attempts,
            g.attempts == 0,
            g.guesses@ == Seq::<u32>::empty(),
            min <= g.target <= max,
    {
        let target = random_in_range(min, max);
        Game { target, min, max, attempts: 0, max_attempts, guesses: Vec::new() }
    }

    /// Start a playthrough with a caller-chosen target, so that a
    /// deterministic driver or a test can pin the hidden number.
    pub fn with_target(target: u32, min: u32, max: u32, max_attempts: u32) -> (g: Game)
        requires
            min <= target <= max,
            1 <= max_attempts,
        ensures
            g.well_formed(),
            g.target == target,
            g.min == min,
            g.max == max,
            g.max_attempts == max_attempts,
            g.attempts == 0,
            g.guesses@ == Seq::<u32>::empty(),
    {
        Game { target, min, max, attempts: 0, max_attempts, guesses: Vec::new() }
    }

    /// Submit a guess: consumes one attempt, records the guess, and returns
    /// the proximity level of its distance to the target. Once the budget is
    /// spent the session is left untouched and `InvalidState` is returned.
    pub fn make_guess(&mut self, guess: u32) -> (r: Result<Temperature, InvalidState>)
        requires
            old(self).well_formed(),
            old(self).min <= guess <= old(self).max,
        ensures
            final(self).well_formed(),
            final(self).guesses@.len() == final(self).attempts,
            final(self).target == old(self).target,
            final(self).min == old(self).min,
            final(self).max == old(self).max,
            final(self).max_attempts == old(self).max_attempts,
            old(self).attempts < old(self).max_attempts ==> {
                &&& r == Ok::<Temperature, InvalidState>(
                    spec_from_distance(spec_distance(guess, old(self).target)),
                )
                &&& final(self).attempts == old(self).attempts + 1
                &&& final(self).guesses@ == old(self).guesses@.push(guess)
            },
            old(self).attempts >= old(self).max_attempts ==> {
                &&& r == Err::<Temperature, InvalidState>(InvalidState)
                &&& final(self).attempts == old(self).attempts
                &&& final(self).guesses@ == old(self).guesses@
            },
    {
        if self.attempts >= self.max_attempts {
            return Err(InvalidState);
        }
        self.attempts = self.attempts + 1;
        self.guesses.push(guess);
        let distance = if guess >= self.target {
            guess - self.target
        } else {
            self.target - guess
        };
        Ok(Temperature::from_distance(distance))
    }

    /// How many attempts remain in the budget.
    pub open spec fn spec_attempts_left(&self) -> u32 {
        (self.max_attempts - self.attempts) as u32
    }

    pub fn attempts_left(&self) -> (r: u32)
        requires
            self.well_formed(),
        ensures
            r == self.spec_attempts_left(),
    {
        self.max_attempts - self.attempts
    }

    /// The session is over exactly when the attempt budget is exhausted;
    /// hitting the target is a separate end detected by the caller from the
    /// `OnFire` classification.
    pub open spec fn spec_is_game_over(&self) -> bool {
        self.attempts >= self.max_attempts
    }

    pub fn is_game_over(&self) -> (r: bool)
        ensures
            r == self.spec_is_game_over(),
    {
        self.attempts >= self.max_attempts
    }

    /// An escalating urgency message at exactly 3, 2 and 1 attempts left,
    /// and nothing otherwise — in particular nothing at 0, where the end of
    /// the game is signalled by `is_game_over` instead.
    pub fn attempts_warning(&self) -> (r: Option<&'static str>)
        requires
            self.well_formed(),
        ensures
            r is Some <==> 1 <= self.spec_attempts_left() <= 3,
            r matches Some(m) ==> m@.len() > 0,
            self.spec_attempts_left() == 1 ==> (r matches Some(m) && m@ == spec_warning_last()),
            self.spec_attempts_left() == 2 ==> (r matches Some(m) && m@ == spec_warning_two()),
            self.spec_attempts_left() == 3 ==> (r matches Some(m) && m@ == spec_warning_three()),
    {
        proof {
            reveal_strlit("🚨 Last chance, Adventurer! You wouldn't want to disappoint the Number Wizard, would you?");
            reveal_strlit("⚠️ Only 2 attempts left! The suspense sure is tickling my nose!");
            reveal_strlit("⏰ Just 3 left! The numbers are getting restless!");
        }
        let left = self.max_attempts - self.attempts;
        if left == 1 {
            Some("🚨 Last chance, Adventurer! You wouldn't want to disappoint the Number Wizard, would you?")
        } else if left == 2 {
            Some("⚠️ Only 2 attempts left! The suspense sure is tickling my nose!")
        } else if left == 3 {
            Some("⏰ Just 3 left! The numbers are getting restless!")
        } else {
            None
        }
    }

    /// The hint offered when the player is nearly out of attempts: a
    /// non-revealing teaser at 2 attempts left, the parity of the target at
    /// 1, and nothing otherwise. The parity hint is the only information
    /// about the target that leaks before the game ends.
    pub fn desperate_hint(&self) -> (r: Option<Hint>)
        requires
            self.well_formed(),
        ensures
            self.spec_attempts_left() == 2 ==> r == Some(Hint::Teaser),
            self.spec_attempts_left() == 1 && self.target % 2 == 0 ==> r == Some(Hint::EvenTarget),
            self.spec_attempts_left() == 1 && self.target % 2 == 1 ==> r == Some(Hint::OddTarget),
            !(1 <= self.spec_attempts_left() <= 2) ==> r is None,
            (r == Some(Hint::EvenTarget) || r == Some(Hint::OddTarget)) <==> self.spec_attempts_left() == 1,
            r == Some(Hint::EvenTarget) ==> self.target % 2 == 0,
            r == Some(Hint::OddTarget) ==> self.target % 2 == 1,
    {
        let left = self.max_attempts - self.attempts;
        if left == 2 {
            Some(Hint::Teaser)
        } else if left == 1 {
            if self.target % 2 == 0 {
                Some(Hint::EvenTarget)
            } else {
                Some(Hint::OddTarget)
            }
        } else {
            None
        }
    }

    /// The history replay: every guess so far, in submission order, paired
    /// with its proximity level recomputed against the target. A derived
    /// view for display; nothing is cached.
    pub fn classified_guesses(&self) -> (r: Vec<(u32, Temperature)>)
        ensures
            r@.len() == self.guesses@.len(),
            forall|i: int|
                0 <= i < r@.len() ==> #[trigger] r@[i] == (
                    self.guesses@[i],
                    spec_from_distance(spec_distance(self.guesses@[i], self.target)),
                ),
    {
        let mut r: Vec<(u32, Temperature)> = Vec::new();
        let mut i: usize = 0;
        while i < self.guesses.len()
            invariant
                i <= self.guesses@.len(),
                r@.len() == i,
                forall|j: int|
                    0 <= j < i ==> #[trigger] r@[j] == (
                        self.guesses@[j],
                        spec_from_distance(spec_distance(self.guesses@[j], self.target)),
                    ),
            decreases self.guesses@.len() - i,
        {
            let g = self.guesses[i];
            let distance = if g >= self.target {
                g - self.target
            } else {
                self.target - g
            };
            r.push((g, Temperature::from_distance(distance)));
            i = i + 1;
        }
        r
    }

    /// The victory bracket for the attempt count at the winning guess. The
    /// fixed numeric brackets are checked first, in source order; the
    /// last-attempt bracket is only reachable past them, so with a budget of
    /// nine or fewer a win on the final attempt still takes its numeric
    /// bracket.
    pub fn victory_class(&self) -> (c: VictoryClass)
        ensures
            c == spec_victory_class(self.attempts, self.max_attempts),
    {
        if self.attempts == 1 {
            VictoryClass::FirstTry
        } else if self.attempts >= 2 && self.attempts <= 3 {
            VictoryClass::Extraordinary
        } else if self.attempts >= 4 && self.attempts <= 6 {
            VictoryClass::WellDone
        } else if self.attempts >= 7 && self.attempts <= 9 {
            VictoryClass::BarelyMadeIt
        } else if self.attempts == self.max_attempts {
            VictoryClass::LastAttempt
        } else {
            VictoryClass::Generic
        }
    }

    /// The victory text for the attempt count at the winning guess.
    pub fn victory_message(&self) -> (r: &'static str)
        ensures
            r@ == spec_victory_text(spec_victory_class(self.attempts, self.max_attempts)),
    {
        match self.victory_class() {
            VictoryClass::FirstTry => "🤯 UNBELIEVABLE! You got it in ONE try! Are you a wizard too?!",
            VictoryClass::Extraordinary => "🧙 Extraordinary! Would you consider becoming my apprentice, Adventurer?",
            VictoryClass::WellDone => "👏 Well done! You've impressed the Number Wizard!",
            VictoryClass::BarelyMadeIt => "⌛️ Phew! You made it, but just barely!",
            VictoryClass::LastAttempt => "😅 Whew! You snatched victory from the jaws of defeat!",
            VictoryClass::Generic => "🎉 Congratulations, Adventurer! You found my darling number!.",
        }
    }
}

/// What a desperate hint tells the player.
#[derive(Clone, Copy, Debug, PartialEq, Eq, Structural)]
pub enum Hint {
    /// A playful refusal that reveals nothing.
    Teaser,
    /// The target is even.
    EvenTarget,
    /// The target is odd.
    OddTarget,
}

impl Hint {
    /// The fixed message shown for this hint.
    pub fn message(&self) -> (r: &'static str)
        ensures
            r@ == spec_hint_message(*self),
    {
        match self {
            Hint::Teaser => "🔮 Psst... The number rhymes with... No, no, I cannot tell you that!",
            Hint::EvenTarget => "🧙 It's... it's an even number. Don't tell anyone I told you!",
            Hint::OddTarget => "🧙 It's... it's an odd number. This stays between us!",
        }
    }
}

/// The victory brackets, by attempt count at the winning guess.
#[derive(Clone, Copy, Debug, PartialEq, Eq, Structural)]
pub enum VictoryClass {
    FirstTry,
    Extraordinary,
    WellDone,
    BarelyMadeIt,
    LastAttempt,
    Generic,
}

pub open spec fn spec_warning_last() -> Seq<char> {
    "🚨 Last chance, Adventurer! You wouldn't want to disappoint the Number Wizard, would you?"@
}

pub open spec fn spec_warning_two() -> Seq<char> {
    "⚠️ Only 2 attempts left! The suspense sure is tickling my nose!"@
}

pub open spec fn spec_warning_three() -> Seq<char> {
    "⏰ Just 3 left! The numbers are getting restless!"@
}

pub open spec fn spec_hint_message(h: Hint) -> Seq<char> {
    match h {
        Hint::Teaser => "🔮 Psst... The number rhymes with... No, no, I cannot tell you that!"@,
        Hint::EvenTarget => "🧙 It's... it's an even number. Don't tell anyone I told you!"@,
        Hint::OddTarget => "🧙 It's... it's an odd number. This stays between us!"@,
    }
}

/// The bracket selection: fixed numeric brackets first, then the
/// last-attempt check, then the generic fallback.
pub open spec fn spec_victory_class(attempts: u32, max_attempts: u32) -> VictoryClass {
    if attempts == 1 {
        VictoryClass::FirstTry
    } else if 2 <= attempts <= 3 {
        VictoryClass::Extraordinary
    } else if 4 <= attempts <= 6 {
        VictoryClass::WellDone
    } else if 7 <= attempts <= 9 {
        VictoryClass::BarelyMadeIt
    } else if attempts == max_attempts {
        VictoryClass::LastAttempt
    } else {
        VictoryClass::Generic
    }
}

pub open spec fn spec_victory_text(c: VictoryClass) -> Seq<char> {
    match c {
        VictoryClass::FirstTry => "🤯 UNBELIEVABLE! You got it in ONE try! Are you a wizard too?!"@,
        VictoryClass::Extraordinary => "🧙 Extraordinary! Would you consider becoming my apprentice, Adventurer?"@,
        VictoryClass::WellDone => "👏 Well done! You've impressed the Number Wizard!"@,
        VictoryClass::BarelyMadeIt => "⌛️ Phew! You made it, but just barely!"@,
        VictoryClass::LastAttempt => "😅 Whew! You snatched victory from the jaws of defeat!"@,
        VictoryClass::Generic => "🎉 Congratulations, Adventurer! You found my darling number!."@,
    }
}

/// Spending the whole budget ends the game: once as many guesses were
/// submitted as the budget allows, the session reports game over and no
/// attempts left.
pub proof fn lemma_budget_exhausted(g: Game)
    requires
        g.well_formed(),
        g.attempts == g.max_attempts,
    ensures
        g.spec_is_game_over(),
        g.spec_attempts_left() == 0,
{
}

} // verus!
