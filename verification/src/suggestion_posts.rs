//! The posts that show suggestions: their buttons, the edit form, the title
//! of the discussion, and what a message in a suggestion channel is taken
//! for.

use vstd::prelude::*;
use vstd::string::{StrSliceExecFns, StringExecFns};
use crate::suggestions::{
    tally_of, vote_fits, vote_refusal, with_vote, Choice, Decision, Status, Suggestion,
    SuggestionBoard, SuggestionError, SuggestionView, Tally,
};
use crate::text::{decimal_value, parse_decimal, starts_with};

verus! {

/// Longest text of a suggestion that a discussion title takes whole.
pub const TITLE_LIMIT: usize = 50;

/// A button under a suggestion.
#[derive(Clone, Copy, Debug, PartialEq, Eq, Structural)]
pub enum IdeaButton {
    Like,
    Dislike,
    Approve,
    Reject,
    Edit,
    /// A button of the suggestion family that nobody is entitled to press.
    Unknown,
}

/// What a message in a channel is taken for.
#[derive(Clone, Copy, Debug, PartialEq, Eq, Structural)]
pub enum Intake {
    /// The author's new wording for the suggestion with this id.
    Edit { suggestion: u64 },
    /// A new suggestion.
    Submission,
    /// An ordinary message.
    Ordinary,
}

/// What pressing a button came to.
#[derive(Clone, Debug)]
pub enum Pressed {
    /// The vote was recorded; the new tally.
    Voted(Tally),
    /// The suggestion was decided and has left the board.
    Decided(Suggestion),
    /// The author asked how to edit and is to be told.
    EditHint,
}

/// The button that an interaction id names, if it is of the suggestion
/// family: the family prefix, then the name of the button.
pub open spec fn button_of(custom_id: Seq<char>) -> Option<IdeaButton> {
    if !"idea_"@.is_prefix_of(custom_id) {
        None
    } else if "idea_like_"@.is_prefix_of(custom_id) {
        Some(IdeaButton::Like)
    } else if "idea_dislike_"@.is_prefix_of(custom_id) {
        Some(IdeaButton::Dislike)
    } else if "idea_approve_"@.is_prefix_of(custom_id) {
        Some(IdeaButton::Approve)
    } else if "idea_reject_"@.is_prefix_of(custom_id) {
        Some(IdeaButton::Reject)
    } else if "idea_edit_"@.is_prefix_of(custom_id) {
        Some(IdeaButton::Edit)
    } else {
        Some(IdeaButton::Unknown)
    }
}

/// The suggestion that an edit form is for, from the id of the form: the
/// form prefix, then the suggestion's id in decimal.
pub open spec fn form_target(custom_id: Seq<char>) -> Option<u64> {
    if "edit_idea_"@.is_prefix_of(custom_id) {
        match decimal_value(custom_id.skip("edit_idea_"@.len() as int), u64::MAX as int) {
            Some(id) => Some(id as u64),
            None => None,
        }
    } else {
        None
    }
}

/// The title of the discussion of a suggestion: a heading, then the text,
/// cut after [`TITLE_LIMIT`] characters and marked where it is longer.
pub open spec fn title_of(content: Seq<char>) -> Seq<char> {
    if content.len() > TITLE_LIMIT {
        "Обговорення: "@ + content.take(TITLE_LIMIT as int) + "..."@
    } else {
        "Обговорення: "@ + content
    }
}

/// What a message is taken for.
///
/// Outside the suggestion channels every message is ordinary. Inside them, a
/// reply to the post of a pending suggestion by its author is an edit; failing
/// that, a message of a member who is neither an administrator nor the owner
/// is a new suggestion; the rest is ordinary.
pub open spec fn intake_of(
    board: Map<u64, SuggestionView>,
    in_suggestion_channel: bool,
    reply_to_post: Option<u64>,
    author: u64,
    is_admin: bool,
    is_owner: bool,
) -> Intake {
    if !in_suggestion_channel {
        Intake::Ordinary
    } else if reply_to_post matches Some(id) && board.contains_key(id) && board[id].author_id
        == author {
        Intake::Edit { suggestion: reply_to_post->0 }
    } else if !is_admin && !is_owner {
        Intake::Submission
    } else {
        Intake::Ordinary
    }
}

/// Why pressing `button` under suggestion `id` is refused, if it is.
///
/// A suggestion that is not on the board has no buttons left. A vote is
/// refused as [`vote_refusal`] says. A decision takes an administrator, the
/// edit button the author, and an unknown button nobody.
pub open spec fn press_refusal(
    board: Map<u64, SuggestionView>,
    id: u64,
    button: IdeaButton,
    user: u64,
    is_admin: bool,
) -> Option<SuggestionError> {
    if !board.contains_key(id) {
        Some(SuggestionError::NotFound)
    } else {
        match button {
            IdeaButton::Like | IdeaButton::Dislike => vote_refusal(board, id, user),
            IdeaButton::Approve | IdeaButton::Reject => if is_admin {
                None
            } else {
                Some(SuggestionError::Permission)
            },
            IdeaButton::Edit => if board[id].author_id == user {
                None
            } else {
                Some(SuggestionError::Permission)
            },
            IdeaButton::Unknown => Some(SuggestionError::Permission),
        }
    }
}

/// The counter that the button raises has room for the vote, where the
/// button is a vote and the board takes it.
pub open spec fn press_fits(board: Map<u64, SuggestionView>, id: u64, button: IdeaButton, user: u64)
    -> bool {
    match button {
        IdeaButton::Like => vote_fits(board, id, user, Choice::Like),
        IdeaButton::Dislike => vote_fits(board, id, user, Choice::Dislike),
        _ => true,
    }
}

/// The board after `button` has been pressed under suggestion `id`.
pub open spec fn board_after_press(
    board: Map<u64, SuggestionView>,
    id: u64,
    button: IdeaButton,
    user: u64,
    is_admin: bool,
) -> Map<u64, SuggestionView> {
    if press_refusal(board, id, button, user, is_admin) is Some {
        board
    } else {
        match button {
            IdeaButton::Like => board.insert(id, with_vote(board[id], user, Choice::Like)),
            IdeaButton::Dislike => board.insert(id, with_vote(board[id], user, Choice::Dislike)),
            IdeaButton::Approve | IdeaButton::Reject => board.remove(id),
            _ => board,
        }
    }
}

/// Reads the button that an interaction id names, if it is of the suggestion
/// family.
pub fn parse_idea_button(custom_id: &str) -> (button: Option<IdeaButton>)
    ensures
        button == button_of(custom_id@),
{
    if !starts_with(custom_id, "idea_") {
        None
    } else if starts_with(custom_id, "idea_like_") {
        Some(IdeaButton::Like)
    } else if starts_with(custom_id, "idea_dislike_") {
        Some(IdeaButton::Dislike)
    } else if starts_with(custom_id, "idea_approve_") {
        Some(IdeaButton::Approve)
    } else if starts_with(custom_id, "idea_reject_") {
        Some(IdeaButton::Reject)
    } else if starts_with(custom_id, "idea_edit_") {
        Some(IdeaButton::Edit)
    } else {
        Some(IdeaButton::Unknown)
    }
}

/// Reads the suggestion that an edit form is for from the id of the form.
pub fn edit_form_target(custom_id: &str) -> (target: Option<u64>)
    ensures
        target == form_target(custom_id@),
{
    let prefix = "edit_idea_";
    if !starts_with(custom_id, prefix) {
        return None;
    }
    let skip = prefix.unicode_len();
    let n = custom_id.unicode_len();
    let rest = custom_id.substring_char(skip, n);
    assert(rest@ =~= custom_id@.skip(prefix@.len() as int));
    parse_decimal(rest)
}

/// The text that an edit form handed in, if it holds any.
pub fn form_content(value: Option<String>) -> (content: Option<String>)
    ensures
        content == match value {
            Some(text) => if text@.len() > 0 {
                Some(text)
            } else {
                None
            },
            None => None,
        },
{
    match value {
        Some(text) => {
            if text.as_str().unicode_len() == 0 {
                None
            } else {
                Some(text)
            }
        },
        None => None,
    }
}

/// Builds the title of the discussion of a suggestion.
pub fn discussion_title(content: &str) -> (title: String)
    ensures
        title@ == title_of(content@),
{
    let mut title = String::from_str("Обговорення: ");
    if content.unicode_len() > TITLE_LIMIT {
        title.append(content.substring_char(0, TITLE_LIMIT));
        title.append("...");
        assert(title@ =~= title_of(content@));
    } else {
        title.append(content);
    }
    title
}

impl SuggestionBoard {
    /// Says what a message is taken for; see [`intake_of`]. `reply_to_post`
    /// is the id of the post that the message answers, where that post is one
    /// of the board's own.
    pub fn classify(
        &self,
        in_suggestion_channel: bool,
        reply_to_post: Option<u64>,
        author: u64,
        is_admin: bool,
        is_owner: bool,
    ) -> (intake: Intake)
        ensures
            intake == intake_of(
                self@,
                in_suggestion_channel,
                reply_to_post,
                author,
                is_admin,
                is_owner,
            ),
    {
        if !in_suggestion_channel {
            return Intake::Ordinary;
        }
        if let Some(id) = reply_to_post {
            if let Some(suggestion) = self.get(id) {
                if suggestion.author_id == author {
                    return Intake::Edit { suggestion: id };
                }
            }
        }
        if !is_admin && !is_owner {
            Intake::Submission
        } else {
            Intake::Ordinary
        }
    }

    /// Whether [`SuggestionBoard::press`] can take the button.
    pub fn can_press(&self, id: u64, button: IdeaButton, user: u64) -> (fits: bool)
        ensures
            fits == press_fits(self@, id, button, user),
    {
        match button {
            IdeaButton::Like => self.can_vote(id, user, Choice::Like),
            IdeaButton::Dislike => self.can_vote(id, user, Choice::Dislike),
            _ => true,
        }
    }

    /// Handles a button pressed by `user` under suggestion `id`.
    ///
    /// A vote button casts a vote, a decision button decides, and the edit
    /// button only tells the author how to edit. Whoever is not entitled to
    /// the button is refused with `Permission`; a suggestion that is not on
    /// the board gives `NotFound` whatever the button.
    pub fn press(&mut self, id: u64, button: IdeaButton, user: u64, is_admin: bool) -> (outcome:
        Result<Pressed, SuggestionError>)
        requires
            press_fits(old(self)@, id, button, user),
        ensures
            final(self)@ == board_after_press(old(self)@, id, button, user, is_admin),
            match press_refusal(old(self)@, id, button, user, is_admin) {
                Some(reason) => outcome matches Err(e) && e == reason,
                None => match button {
                    IdeaButton::Like => outcome matches Ok(Pressed::Voted(tally)) && tally
                        == tally_of(with_vote(old(self)@[id], user, Choice::Like)),
                    IdeaButton::Dislike => outcome matches Ok(Pressed::Voted(tally)) && tally
                        == tally_of(with_vote(old(self)@[id], user, Choice::Dislike)),
                    IdeaButton::Approve => outcome matches Ok(Pressed::Decided(decided))
                        && decided@ == (SuggestionView {
                        status: Status::Approved,
                        ..old(self)@[id]
                    }),
                    IdeaButton::Reject => outcome matches Ok(Pressed::Decided(decided))
                        && decided@ == (SuggestionView {
                        status: Status::Rejected,
                        ..old(self)@[id]
                    }),
                    _ => outcome matches Ok(Pressed::EditHint),
                },
            },
    {
        let is_author = match self.get(id) {
            Some(suggestion) => suggestion.author_id == user,
            None => {
                return Err(SuggestionError::NotFound);
            },
        };
        match button {
            IdeaButton::Like => match self.vote(id, user, Choice::Like) {
                Ok(tally) => Ok(Pressed::Voted(tally)),
                Err(reason) => Err(reason),
            },
            IdeaButton::Dislike => match self.vote(id, user, Choice::Dislike) {
                Ok(tally) => Ok(Pressed::Voted(tally)),
                Err(reason) => Err(reason),
            },
            IdeaButton::Approve => match self.decide(id, is_admin, Decision::Approve) {
                Ok(decided) => Ok(Pressed::Decided(decided)),
                Err(reason) => Err(reason),
            },
            IdeaButton::Reject => match self.decide(id, is_admin, Decision::Reject) {
                Ok(decided) => Ok(Pressed::Decided(decided)),
                Err(reason) => Err(reason),
            },
            IdeaButton::Edit => if is_author {
                Ok(Pressed::EditHint)
            } else {
                Err(SuggestionError::Permission)
            },
            IdeaButton::Unknown => Err(SuggestionError::Permission),
        }
    }
}

} // verus!
