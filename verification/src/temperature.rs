//! The proximity classifier: a pure, total mapping from the distance between
//! a guess and the target to one of seven ordered feedback levels, each with
//! a fixed message and a fixed display-styling tag.
use vstd::prelude::*;

verus! {

/// The seven proximity levels, ordered from farthest to exact match.
#[derive(Clone, Copy, Debug, PartialEq, Eq, Structural)]
pub enum Temperature {
    Freezing,
    Cold,
    Cool,
    Warm,
    Hot,
    Burning,
    OnFire,
}

/// The classification table: inclusive distance ranges, checked from the
/// exact match outward, first match wins.
pub open spec fn spec_from_distance(distance: u32) -> Temperature {
    if distance == 0 {
        Temperature::OnFire
    } else if distance <= 2 {
        Temperature::Burning
    } else if distance <= 5 {
        Temperature::Hot
    } else if distance <= 10 {
        Temperature::Warm
    } else if distance <= 20 {
        Temperature::Cool
    } else if distance <= 50 {
        Temperature::Cold
    } else {
        Temperature::Freezing
    }
}

impl Temperature {
    /// Classify a distance into a proximity level.
    pub fn from_distance(distance: u32) -> (r: Temperature)
        ensures
            r == spec_from_distance(distance),
    {
        if distance == 0 {
            Temperature::OnFire
        } else if distance <= 2 {
            Temperature::Burning
        } else if distance <= 5 {
            Temperature::Hot
        } else if distance <= 10 {
            Temperature::Warm
        } else if distance <= 20 {
            Temperature::Cool
        } else if distance <= 50 {
            Temperature::Cold
        } else {
            Temperature::Freezing
        }
    }
}

/// The classification table partitions the non-negative integers: every
/// distance falls in exactly one level, with these inclusive bounds.
pub proof fn lemma_classify_partition(d: u32)
    ensures
        spec_from_distance(d) == Temperature::OnFire <==> d == 0,
        spec_from_distance(d) == Temperature::Burning <==> 1 <= d <= 2,
        spec_from_distance(d) == Temperature::Hot <==> 3 <= d <= 5,
        spec_from_distance(d) == Temperature::Warm <==> 6 <= d <= 10,
        spec_from_distance(d) == Temperature::Cool <==> 11 <= d <= 20,
        spec_from_distance(d) == Temperature::Cold <==> 21 <= d <= 50,
        spec_from_distance(d) == Temperature::Freezing <==> d > 50,
{
}

/// The flavor text attached to each level.
pub open spec fn spec_message(t: Temperature) -> Seq<char> {
    match t {
        Temperature::Freezing => "🥶 Brrr! Colder than my breakfast porridge after a night in the blizzard!"@,
        Temperature::Cold => "❄️ Icy! You're sniffing the wrong cauldron, heh-heh!"@,
        Temperature::Cool => "😐 Meh... Lukewarm. You'll need more than luck."@,
        Temperature::Warm => "🙂 Oooh, you're cooking now, Adventurer!"@,
        Temperature::Hot => "🥵 Ha! You're almost there, but not quite!"@,
        Temperature::Burning => "🔥 Aaah! So close I can almost smell victory!"@,
        Temperature::OnFire => "🎆 ON FIRE! The numbers explode in awe!"@,
    }
}

/// The display-styling tag attached to each level, named for the renderer;
/// the core never interprets it.
pub open spec fn spec_style_tag(t: Temperature) -> Seq<char> {
    match t {
        Temperature::Freezing => "cyan"@,
        Temperature::Cold => "blue"@,
        Temperature::Cool => "white"@,
        Temperature::Warm => "bright yellow"@,
        Temperature::Hot => "yellow"@,
        Temperature::Burning => "red"@,
        Temperature::OnFire => "bright red bold"@,
    }
}

impl Temperature {
    /// The fixed message shown for this level.
    pub fn message(&self) -> (r: &'static str)
        ensures
            r@ == spec_message(*self),
    {
        match self {
            Temperature::Freezing => "🥶 Brrr! Colder than my breakfast porridge after a night in the blizzard!",
            Temperature::Cold => "❄️ Icy! You're sniffing the wrong cauldron, heh-heh!",
            Temperature::Cool => "😐 Meh... Lukewarm. You'll need more than luck.",
            Temperature::Warm => "🙂 Oooh, you're cooking now, Adventurer!",
            Temperature::Hot => "🥵 Ha! You're almost there, but not quite!",
            Temperature::Burning => "🔥 Aaah! So close I can almost smell victory!",
            Temperature::OnFire => "🎆 ON FIRE! The numbers explode in awe!",
        }
    }

    /// The fixed styling tag the renderer applies to a guess at this level.
    pub fn style_tag(&self) -> (r: &'static str)
        ensures
            r@ == spec_style_tag(*self),
    {
        match self {
            Temperature::Freezing => "cyan",
            Temperature::Cold => "blue",
            Temperature::Cool => "white",
            Temperature::Warm => "bright yellow",
            Temperature::Hot => "yellow",
            Temperature::Burning => "red",
            Temperature::OnFire => "bright red bold",
        }
    }
}

/// The absolute difference of two guesses, as the classifier sees it.
pub open spec fn spec_distance(a: u32, b: u32) -> u32 {
    if a >= b {
        (a - b) as u32
    } else {
        (b - a) as u32
    }
}

/// Classification is symmetric under swapping guess and target: the distance
/// |a - b| equals |b - a|, so both classify alike.
pub proof fn lemma_classify_symmetric(a: u32, b: u32)
    ensures
        spec_distance(a, b) == spec_distance(b, a),
        spec_from_distance(spec_distance(a, b)) == spec_from_distance(spec_distance(b, a)),
{
}

} // verus!
