//! Weight-initialization strategies and the names they are asked for by.

use vstd::prelude::*;

verus! {

/// How the weights of a new layer are drawn.  The strategies scale with the
/// fan-in of the layer, the number of rows of its weight tensor.
#[derive(Clone, Copy, Debug, PartialEq, Eq, Structural)]
pub enum Initializer {
    /// Uniform in `[-1, 1]`.
    Uniform,
    /// Uniform in `[-1/sqrt(fan_in), 1/sqrt(fan_in)]`.
    Xavier,
    /// Standard normal, scaled by `sqrt(2/fan_in)`.
    He,
}

/// The lower-case form of a string as `str::to_lowercase` of the standard
/// library computes it, over the full Unicode case mapping.
pub uninterp spec fn lowercase_of(text: Seq<char>) -> Seq<char>;

/// Lower-cases `text` with `str::to_lowercase`.  The contract only names the
/// outcome: it is whatever the standard library's case mapping yields for
/// these characters.
#[verifier::external_body]
fn to_lowercase(text: &str) -> (lower: String)
    ensures
        lower@ == lowercase_of(text@),
{
    text.to_lowercase()
}

impl Initializer {
    /// The strategy that a lower-case name stands for.  `xavier` and `glorot`
    /// name one strategy, `kaiming` and `he` another; every other name,
    /// the empty one too, falls back to the uniform strategy.
    pub open spec fn spec_from_lowercase(lower: Seq<char>) -> Initializer {
        if lower == "xavier"@ || lower == "glorot"@ {
            Initializer::Xavier
        } else if lower == "kaiming"@ || lower == "he"@ {
            Initializer::He
        } else {
            Initializer::Uniform
        }
    }

    /// The strategy named by `lower`, which is taken as it stands: an
    /// upper-case letter in it makes the name an unknown one.
    pub fn from_lowercase(lower: &String) -> (strategy: Initializer)
        ensures
            strategy == Self::spec_from_lowercase(lower@),
    {
        if *lower == "xavier".to_owned() || *lower == "glorot".to_owned() {
            Initializer::Xavier
        } else if *lower == "kaiming".to_owned() || *lower == "he".to_owned() {
            Initializer::He
        } else {
            Initializer::Uniform
        }
    }

    /// The strategy named by `name`, whatever the case of its letters.
    pub fn from_name(name: &str) -> (strategy: Initializer)
        ensures
            strategy == Self::spec_from_lowercase(lowercase_of(name@)),
    {
        let lower = to_lowercase(name);
        Self::from_lowercase(&lower)
    }
}

} // verus!
