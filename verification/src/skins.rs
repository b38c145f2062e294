//! Sprite-variant names: the bird's colour (drawn at random once per run),
//! the pipes' colour and the background's time of day. Each variant knows the
//! name its sprite files carry.

use vstd::prelude::*;
use crate::rng::rand_index;

verus! {

/// Colour of the player's sprite set.
#[derive(Clone, Copy, PartialEq, Eq, Structural, Debug)]
pub enum BirdColor {
    YellowBird,
    BlueBird,
    RedBird,
}

/// Colour of the pipe sprite.
#[derive(Clone, Copy, PartialEq, Eq, Structural, Debug)]
pub enum PipeColor {
    Green,
    Red,
}

/// Which background sprite is shown.
#[derive(Clone, Copy, PartialEq, Eq, Structural, Debug)]
pub enum BackgroundType {
    Day,
    Night,
}

/// The background shown for a score: day and night alternate every ten
/// points, starting with day.
pub open spec fn spec_background_for_score(score: int) -> BackgroundType {
    if (score / 10) % 2 != 0 {
        BackgroundType::Night
    } else {
        BackgroundType::Day
    }
}

/// Picks the background for the score: day and night alternate every ten
/// points, starting with day.
pub fn background_for_score(score: u32) -> (b: BackgroundType)
    ensures
        b == spec_background_for_score(score as int),
{
    if (score / 10) % 2 != 0 {
        BackgroundType::Night
    } else {
        BackgroundType::Day
    }
}

impl BirdColor {
    /// The name this colour carries in sprite file names.
    pub open spec fn spec_str(self) -> Seq<char> {
        match self {
            BirdColor::YellowBird => "yellowbird"@,
            BirdColor::BlueBird => "bluebird"@,
            BirdColor::RedBird => "redbird"@,
        }
    }

    /// The colour drawn for index `i`, counted in declaration order.
    pub open spec fn spec_of_index(i: int) -> BirdColor {
        if i == 0 {
            BirdColor::YellowBird
        } else if i == 1 {
            BirdColor::BlueBird
        } else {
            BirdColor::RedBird
        }
    }

    pub fn as_str(&self) -> (s: &'static str)
        ensures
            s@ == self.spec_str(),
    {
        match self {
            BirdColor::YellowBird => "yellowbird",
            BirdColor::BlueBird => "bluebird",
            BirdColor::RedBird => "redbird",
        }
    }

    /// The colour of index `i`, counted in declaration order.
    pub fn of_index(i: usize) -> (c: BirdColor)
        requires
            i < 3,
        ensures
            c == BirdColor::spec_of_index(i as int),
    {
        match i {
            0 => BirdColor::YellowBird,
            1 => BirdColor::BlueBird,
            _ => BirdColor::RedBird,
        }
    }

    /// One of the three colours, drawn uniformly at random.
    pub fn get_random() -> (c: BirdColor)
        ensures
            exists|i: int| 0 <= i < 3 && c == BirdColor::spec_of_index(i),
    {
        let i: usize = rand_index(3);
        let c: BirdColor = BirdColor::of_index(i);
        proof {
            assert(c == BirdColor::spec_of_index(i as int));
        }
        c
    }
}

impl PipeColor {
    /// The name this colour carries in sprite file names.
    pub open spec fn spec_str(self) -> Seq<char> {
        match self {
            PipeColor::Green => "green"@,
            PipeColor::Red => "red"@,
        }
    }

    pub fn as_str(&self) -> (s: &'static str)
        ensures
            s@ == self.spec_str(),
    {
        match self {
            PipeColor::Green => "green",
            PipeColor::Red => "red",
        }
    }
}

impl BackgroundType {
    /// The name this background carries in sprite file names.
    pub open spec fn spec_str(self) -> Seq<char> {
        match self {
            BackgroundType::Day => "day"@,
            BackgroundType::Night => "night"@,
        }
    }

    pub fn as_str(&self) -> (s: &'static str)
        ensures
            s@ == self.spec_str(),
    {
        match self {
            BackgroundType::Day => "day",
            BackgroundType::Night => "night",
        }
    }
}

} // verus!
