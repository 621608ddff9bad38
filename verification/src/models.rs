//! The guess the game makes of what the player has in mind.

use vstd::prelude::*;
use vstd::string::*;
use crate::error::Error;

verus! {

/// One candidate the game proposes, with what the service says of it. Once
/// made, a guess does not change.
///
/// The confidence is kept as the decimal text the service sent. Reading a
/// text as a number is floating-point work and is left to the caller, who
/// hands the outcome to [`Guess::read_confidence`]: a text that is no number
/// is never taken for zero.
#[derive(Debug, PartialEq, Eq)]
pub struct Guess {
    id: String,
    name: String,
    award_id: String,
    flag_photo: usize,
    confidence: String,
    description: String,
    ranking: String,
    picture_path: String,
    absolute_picture_path: String,
}

/// A guess as mathematics: every text as its sequence of characters.
pub ghost struct GuessView {
    pub id: Seq<char>,
    pub name: Seq<char>,
    pub award_id: Seq<char>,
    pub flag_photo: nat,
    pub confidence: Seq<char>,
    pub description: Seq<char>,
    pub ranking: Seq<char>,
    pub picture_path: Seq<char>,
    pub absolute_picture_path: Seq<char>,
}

impl View for Guess {
    type V = GuessView;

    closed spec fn view(&self) -> GuessView {
        GuessView {
            id: self.id@,
            name: self.name@,
            award_id: self.award_id@,
            flag_photo: self.flag_photo as nat,
            confidence: self.confidence@,
            description: self.description@,
            ranking: self.ranking@,
            picture_path: self.picture_path@,
            absolute_picture_path: self.absolute_picture_path@,
        }
    }
}

/// The views of a list of guesses, in the order of the list.
pub open spec fn guess_views(guesses: Seq<Guess>) -> Seq<GuessView> {
    Seq::new(guesses.len(), |i: int| guesses[i]@)
}

/// The view of a guess that may be absent.
pub open spec fn guess_option_view(guess: Option<Guess>) -> Option<GuessView> {
    match guess {
        Some(g) => Some(g@),
        None => None,
    }
}

/// Whether the bits of a single-precision number stand for a finite one:
/// below the sign bit, they lie under the pattern of infinity. What lies at
/// or above it is an infinity or no number at all.
pub open spec fn finite_bits(bits: u32) -> bool {
    bits % 0x8000_0000 < 0x7F80_0000
}

/// What reading a confidence comes to, given what the text read as: the
/// number itself where it is finite, the failure of an invalid confidence
/// where the text read as nothing, as an infinity or as no number.
pub open spec fn confidence_result(parsed: Option<u32>) -> Result<u32, Error> {
    match parsed {
        Some(bits) if finite_bits(bits) => Ok(bits),
        _ => Err(Error::InvalidConfidence),
    }
}

impl GuessView {
    /// The text a guess is shown as when printed for debugging.
    pub open spec fn repr(self) -> Seq<char> {
        "<Guess id=\""@ + self.id + "\" name=\""@ + self.name + "\" ranking="@ + self.ranking
            + ">"@
    }
}

impl Clone for Guess {
    /// A copy that agrees with the guess in every field.
    fn clone(&self) -> (copy: Guess)
        ensures
            copy == *self,
    {
        Guess {
            id: self.id.clone(),
            name: self.name.clone(),
            award_id: self.award_id.clone(),
            flag_photo: self.flag_photo,
            confidence: self.confidence.clone(),
            description: self.description.clone(),
            ranking: self.ranking.clone(),
            picture_path: self.picture_path.clone(),
            absolute_picture_path: self.absolute_picture_path.clone(),
        }
    }
}

impl Guess {
    /// A guess of the given parts.
    pub fn new(
        id: String,
        name: String,
        award_id: String,
        flag_photo: usize,
        confidence: String,
        description: String,
        ranking: String,
        picture_path: String,
        absolute_picture_path: String,
    ) -> (guess: Guess)
        ensures
            guess@ == (GuessView {
                id: id@,
                name: name@,
                award_id: award_id@,
                flag_photo: flag_photo as nat,
                confidence: confidence@,
                description: description@,
                ranking: ranking@,
                picture_path: picture_path@,
                absolute_picture_path: absolute_picture_path@,
            }),
    {
        Guess {
            id,
            name,
            award_id,
            flag_photo,
            confidence,
            description,
            ranking,
            picture_path,
            absolute_picture_path,
        }
    }

    /// The guess as a short text: its id, name and ranking.
    pub fn repr(&self) -> (text: String)
        ensures
            text@ == self@.repr(),
    {
        let mut text = String::from_str("<Guess id=\"");
        text.append(self.id.as_str());
        text.append("\" name=\"");
        text.append(self.name.as_str());
        text.append("\" ranking=");
        text.append(self.ranking.as_str());
        text.append(">");
        text
    }

    /// The unique id of the guessed entity.
    pub fn id(&self) -> (text: &String)
        ensures
            text@ == self@.id,
    {
        &self.id
    }

    /// The common name of the guessed entity.
    pub fn name(&self) -> (text: &String)
        ensures
            text@ == self@.name,
    {
        &self.name
    }

    /// The award id.
    pub fn award_id(&self) -> (text: &String)
        ensures
            text@ == self@.award_id,
    {
        &self.award_id
    }

    /// The flag photo index.
    pub fn flag_photo(&self) -> (index: usize)
        ensures
            index == self@.flag_photo,
    {
        self.flag_photo
    }

    /// Judges a reading of the confidence as a number. `parsed` holds the
    /// bits of the single-precision number that the text read as, or `None`
    /// where it read as none. Only a finite number is a confidence: anything
    /// else fails as a value failure, and nothing is ever put in its place.
    pub fn read_confidence(parsed: Option<u32>) -> (result: Result<u32, Error>)
        ensures
            result == confidence_result(parsed),
            result is Ok <==> (parsed matches Some(bits) && finite_bits(bits)),
            result is Err ==> result == Err::<u32, Error>(Error::InvalidConfidence),
    {
        match parsed {
            Some(bits) => {
                let magnitude: u32 = if bits >= 0x8000_0000 {
                    bits - 0x8000_0000
                } else {
                    bits
                };
                if magnitude < 0x7F80_0000 {
                    Ok(bits)
                } else {
                    Err(Error::InvalidConfidence)
                }
            },
            None => Err(Error::InvalidConfidence),
        }
    }

    /// The confidence exactly as the service sent it, unparsed.
    pub fn confidence(&self) -> (text: &String)
        ensures
            text@ == self@.confidence,
    {
        &self.confidence
    }

    /// A short description of the guessed entity.
    pub fn description(&self) -> (text: &String)
        ensures
            text@ == self@.description,
    {
        &self.description
    }

    /// The rank of the guessed entity.
    pub fn ranking(&self) -> (text: &String)
        ensures
            text@ == self@.ranking,
    {
        &self.ranking
    }

    /// A relative path to a picture of the guessed entity.
    pub fn picture_path(&self) -> (text: &String)
        ensures
            text@ == self@.picture_path,
    {
        &self.picture_path
    }

    /// An absolute address of the picture of the guessed entity.
    pub fn absolute_picture_path(&self) -> (text: &String)
        ensures
            text@ == self@.absolute_picture_path,
    {
        &self.absolute_picture_path
    }
}

} // verus!
