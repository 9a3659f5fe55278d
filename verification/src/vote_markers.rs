//! Votes as the stored records write them: the member's id, a colon, and
//! the choice.

use vstd::prelude::*;
use vstd::string::{StrSliceExecFns, StringExecFns};
use crate::suggestions::{Choice, Vote};
use crate::text::{
    decimal_text, decimal_value, find_only, is_digit, lemma_decimal_round_trip,
    lemma_decimal_text_is_digits, lemma_split_is_unique, parse_decimal, parts_around,
    push_decimal, splits_at,
};

verus! {

/// The word that a choice is written as.
pub open spec fn choice_word(choice: Choice) -> Seq<char> {
    match choice {
        Choice::Like => "like"@,
        Choice::Dislike => "dislike"@,
    }
}

/// A vote as the stored records write it: the member's id in decimal, a
/// colon, and the choice.
pub open spec fn marker_text(vote: Vote) -> Seq<char> {
    decimal_text(vote.user as nat).push(':') + choice_word(vote.choice)
}

/// The vote that a stored mark stands for, if it is one: an id in decimal, a
/// colon, and one of the two choices.
pub open spec fn marker_vote(text: Seq<char>) -> Option<Vote> {
    match parts_around(text, ':') {
        Some((user, word)) => match decimal_value(user, u64::MAX as int) {
            Some(id) => if word == "like"@ {
                Some(Vote { user: id as u64, choice: Choice::Like })
            } else if word == "dislike"@ {
                Some(Vote { user: id as u64, choice: Choice::Dislike })
            } else {
                None
            },
            None => None,
        },
        None => None,
    }
}

/// Writes a vote as the stored records hold it.
pub fn vote_marker(vote: Vote) -> (text: String)
    ensures
        text@ == marker_text(vote),
{
    let mut text = String::new();
    push_decimal(&mut text, vote.user);
    text.push(':');
    match vote.choice {
        Choice::Like => {
            text.append("like");
        },
        Choice::Dislike => {
            text.append("dislike");
        },
    }
    assert(text@ =~= marker_text(vote));
    text
}

/// Reads a vote from a stored mark.
pub fn parse_vote_marker(text: &str) -> (vote: Option<Vote>)
    ensures
        vote == marker_vote(text@),
{
    match find_only(text, ':') {
        None => None,
        Some(at) => {
            proof {
                lemma_split_is_unique(text@, ':', at as int);
            }
            let n = text.unicode_len();
            let user = text.substring_char(0, at);
            let word = text.substring_char(at + 1, n);
            assert(user@ =~= text@.take(at as int));
            assert(word@ =~= text@.skip(at + 1));
            match parse_decimal(user) {
                None => None,
                Some(id) => {
                    if word.eq("like") {
                        Some(Vote { user: id, choice: Choice::Like })
                    } else if word.eq("dislike") {
                        Some(Vote { user: id, choice: Choice::Dislike })
                    } else {
                        None
                    }
                },
            }
        },
    }
}

/// A vote that is written and read again is the same vote.
pub proof fn lemma_marker_round_trip(vote: Vote)
    ensures
        marker_vote(marker_text(vote)) == Some(vote),
{
    reveal_strlit("like");
    reveal_strlit("dislike");
    let digits = decimal_text(vote.user as nat);
    let word = choice_word(vote.choice);
    let text = marker_text(vote);
    let at = digits.len() as int;
    lemma_decimal_text_is_digits(vote.user as nat);
    lemma_decimal_round_trip(vote.user);
    assert(text[at] == ':');
    assert forall|j: int| 0 <= j < text.len() && j != at implies text[j] != ':' by {
        if j < at {
            assert(is_digit(digits[j]));
        } else {
            assert(text[j] == word[j - at - 1]);
        }
    }
    assert(splits_at(text, ':', at));
    lemma_split_is_unique(text, ':', at);
    assert(text.take(at) =~= digits);
    assert(text.skip(at + 1) =~= word);
    assert("like"@ != "dislike"@);
}

} // verus!
