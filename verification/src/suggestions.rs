//! Suggestions: a board of pending proposals, the votes on them, and the
//! decision that takes each off the board for good.

use std::collections::HashMap;
use vstd::prelude::*;
use vstd::std_specs::iter::IteratorSpec;

verus! {

/// Where a suggestion stands. Only pending suggestions are on the board.
#[derive(Clone, Copy, Debug, PartialEq, Eq, Structural)]
pub enum Status {
    Pending,
    Approved,
    Rejected,
}

/// The two ways to vote.
#[derive(Clone, Copy, Debug, PartialEq, Eq, Structural)]
pub enum Choice {
    Like,
    Dislike,
}

/// The two ways to decide.
#[derive(Clone, Copy, Debug, PartialEq, Eq, Structural)]
pub enum Decision {
    Approve,
    Reject,
}

/// The mark a member leaves by voting.
#[derive(Clone, Copy, Debug, PartialEq, Eq, Structural)]
pub struct Vote {
    pub user: u64,
    pub choice: Choice,
}

/// Why the board turned a request down. No request that fails changes the
/// board.
#[derive(Clone, Copy, Debug, PartialEq, Eq, Structural)]
pub enum SuggestionError {
    /// No pending suggestion has this id: it never existed or was decided.
    NotFound,
    /// The member may not do this: an author voting on their own suggestion,
    /// a stranger editing it, or a decision by someone who is no
    /// administrator.
    Permission,
    /// The member has voted on this suggestion before, either way.
    DuplicateVote,
}

/// Votes on a suggestion, with the share in favour in whole percent.
#[derive(Clone, Copy, Debug, PartialEq, Eq, Structural)]
pub struct Tally {
    pub votes_for: u32,
    pub votes_against: u32,
    pub percent: u32,
}

/// A proposal and the votes cast on it. Its id is that of the message that
/// shows it.
#[derive(Clone, Debug)]
pub struct Suggestion {
    pub message_id: u64,
    pub channel_id: u64,
    pub author_id: u64,
    pub author_name: String,
    pub content: String,
    pub status: Status,
    pub votes_for: u32,
    pub votes_against: u32,
    pub voted_users: Vec<Vote>,
    pub timestamp: i64,
}

/// A suggestion as contracts see it.
pub struct SuggestionView {
    pub message_id: u64,
    pub channel_id: u64,
    pub author_id: u64,
    pub author_name: Seq<char>,
    pub content: Seq<char>,
    pub status: Status,
    pub votes_for: u32,
    pub votes_against: u32,
    pub voted_users: Seq<Vote>,
    pub timestamp: i64,
}

impl View for Suggestion {
    type V = SuggestionView;

    open spec fn view(&self) -> SuggestionView {
        SuggestionView {
            message_id: self.message_id,
            channel_id: self.channel_id,
            author_id: self.author_id,
            author_name: self.author_name@,
            content: self.content@,
            status: self.status,
            votes_for: self.votes_for,
            votes_against: self.votes_against,
            voted_users: self.voted_users@,
            timestamp: self.timestamp,
        }
    }
}

/// The share of votes in favour, in whole percent rounded down; zero while
/// nobody has voted.
pub open spec fn percent_for(votes_for: u32, votes_against: u32) -> int {
    if votes_for + votes_against == 0 {
        0
    } else {
        (100 * votes_for) / (votes_for + votes_against)
    }
}

/// The votes on a suggestion as a tally.
pub open spec fn tally_of(suggestion: SuggestionView) -> Tally {
    Tally {
        votes_for: suggestion.votes_for,
        votes_against: suggestion.votes_against,
        percent: percent_for(suggestion.votes_for, suggestion.votes_against) as u32,
    }
}

/// The member has left a mark among `votes`, for either choice.
pub open spec fn has_voted(votes: Seq<Vote>, user: u64) -> bool {
    exists|i: int| 0 <= i < votes.len() && votes[i].user == user
}

/// The number of marks for `choice` among `votes`.
pub open spec fn count_choice(votes: Seq<Vote>, choice: Choice) -> int
    decreases votes.len(),
{
    if votes.len() == 0 {
        0
    } else {
        count_choice(votes.drop_last(), choice) + if votes.last().choice == choice {
            1int
        } else {
            0int
        }
    }
}

/// What holds of every suggestion that only this library has touched: nobody
/// has voted twice, the author has not voted, and the two counters are the
/// numbers of marks for each choice.
pub open spec fn consistent(suggestion: SuggestionView) -> bool {
    &&& forall|i: int, j: int|
        0 <= i < j < suggestion.voted_users.len() ==> suggestion.voted_users[i].user
            != suggestion.voted_users[j].user
    &&& !has_voted(suggestion.voted_users, suggestion.author_id)
    &&& suggestion.votes_for == count_choice(suggestion.voted_users, Choice::Like)
    &&& suggestion.votes_against == count_choice(suggestion.voted_users, Choice::Dislike)
}

/// A new pending suggestion without votes.
pub open spec fn submitted(
    message_id: u64,
    channel_id: u64,
    author_id: u64,
    author_name: Seq<char>,
    content: Seq<char>,
    timestamp: i64,
) -> SuggestionView {
    SuggestionView {
        message_id,
        channel_id,
        author_id,
        author_name,
        content,
        status: Status::Pending,
        votes_for: 0,
        votes_against: 0,
        voted_users: Seq::empty(),
        timestamp,
    }
}

/// The suggestion with one more vote: the member's mark at the end of the
/// list, and the counter of their choice one higher.
pub open spec fn with_vote(suggestion: SuggestionView, user: u64, choice: Choice) -> SuggestionView {
    SuggestionView {
        votes_for: if choice == Choice::Like {
            (suggestion.votes_for + 1) as u32
        } else {
            suggestion.votes_for
        },
        votes_against: if choice == Choice::Dislike {
            (suggestion.votes_against + 1) as u32
        } else {
            suggestion.votes_against
        },
        voted_users: suggestion.voted_users.push(Vote { user, choice }),
        ..suggestion
    }
}

/// The status that a decision gives.
pub open spec fn status_after(decision: Decision) -> Status {
    match decision {
        Decision::Approve => Status::Approved,
        Decision::Reject => Status::Rejected,
    }
}

/// Why a vote of `user` on suggestion `id` is refused, if it is: the
/// suggestion is not on the board, or it is the member's own, or the member
/// has voted before. The first that applies, in this order, is the reason.
pub open spec fn vote_refusal(board: Map<u64, SuggestionView>, id: u64, user: u64) -> Option<
    SuggestionError,
> {
    if !board.contains_key(id) {
        Some(SuggestionError::NotFound)
    } else if board[id].author_id == user {
        Some(SuggestionError::Permission)
    } else if has_voted(board[id].voted_users, user) {
        Some(SuggestionError::DuplicateVote)
    } else {
        None
    }
}

/// The counter of `choice` has room for one vote more.
pub open spec fn counter_has_room(suggestion: SuggestionView, choice: Choice) -> bool {
    match choice {
        Choice::Like => suggestion.votes_for < u32::MAX,
        Choice::Dislike => suggestion.votes_against < u32::MAX,
    }
}

/// The counter that the vote raises has room for it, where the board takes
/// the vote.
pub open spec fn vote_fits(board: Map<u64, SuggestionView>, id: u64, user: u64, choice: Choice)
    -> bool {
    vote_refusal(board, id, user) is None ==> counter_has_room(board[id], choice)
}

/// The board after `user` has tried to vote on suggestion `id`.
pub open spec fn board_after_vote(
    board: Map<u64, SuggestionView>,
    id: u64,
    user: u64,
    choice: Choice,
) -> Map<u64, SuggestionView> {
    if vote_refusal(board, id, user) is Some {
        board
    } else {
        board.insert(id, with_vote(board[id], user, choice))
    }
}

/// Why an edit of suggestion `id` by `user` is refused, if it is.
pub open spec fn edit_refusal(board: Map<u64, SuggestionView>, id: u64, user: u64) -> Option<
    SuggestionError,
> {
    if !board.contains_key(id) {
        Some(SuggestionError::NotFound)
    } else if board[id].author_id != user {
        Some(SuggestionError::Permission)
    } else {
        None
    }
}

/// Why a decision on suggestion `id` is refused, if it is.
pub open spec fn decision_refusal(board: Map<u64, SuggestionView>, id: u64, is_admin: bool)
    -> Option<SuggestionError> {
    if !board.contains_key(id) {
        Some(SuggestionError::NotFound)
    } else if !is_admin {
        Some(SuggestionError::Permission)
    } else {
        None
    }
}

/// The board after somebody has tried to decide suggestion `id`.
pub open spec fn board_after_decision(board: Map<u64, SuggestionView>, id: u64, is_admin: bool)
    -> Map<u64, SuggestionView> {
    if decision_refusal(board, id, is_admin) is Some {
        board
    } else {
        board.remove(id)
    }
}

/// The suggestion is on the board.
pub open spec fn on_board(board: Map<u64, SuggestionView>, suggestion: SuggestionView) -> bool {
    exists|id: u64| #[trigger] board.contains_key(id) && board[id] == suggestion
}

/// The suggestion is among the records.
pub open spec fn is_listed(records: Seq<Suggestion>, suggestion: SuggestionView) -> bool {
    exists|i: int| 0 <= i < records.len() && (#[trigger] records[i])@ == suggestion
}

/// The pending suggestions, by id.
pub struct SuggestionBoard {
    active: HashMap<u64, Suggestion>,
}

impl View for SuggestionBoard {
    type V = Map<u64, SuggestionView>;

    closed spec fn view(&self) -> Map<u64, SuggestionView> {
        self.active@.map_values(|s: Suggestion| s@)
    }
}

/// The share of votes in favour, in whole percent rounded down; zero while
/// nobody has voted.
pub fn percent(votes_for: u32, votes_against: u32) -> (share: u32)
    ensures
        share == percent_for(votes_for, votes_against),
        share <= 100,
{
    let total: u64 = votes_for as u64 + votes_against as u64;
    if total == 0 {
        0
    } else {
        let share: u64 = (100 * votes_for as u64) / total;
        assert(share <= 100) by (nonlinear_arith)
            requires
                share == (100 * votes_for) / (total as int),
                0 < total,
                votes_for <= total,
        ;
        share as u32
    }
}

impl Suggestion {
    /// The votes so far, with the share in favour.
    pub fn tally(&self) -> (tally: Tally)
        ensures
            tally == tally_of(self@),
    {
        Tally {
            votes_for: self.votes_for,
            votes_against: self.votes_against,
            percent: percent(self.votes_for, self.votes_against),
        }
    }

    /// A copy of the record.
    pub fn duplicate(&self) -> (copy: Suggestion)
        ensures
            copy@ == self@,
    {
        let mut voted_users: Vec<Vote> = Vec::new();
        let mut i: usize = 0;
        while i < self.voted_users.len()
            invariant
                i <= self.voted_users.len(),
                voted_users@ == self.voted_users@.take(i as int),
            decreases self.voted_users.len() - i,
        {
            voted_users.push(self.voted_users[i]);
            assert(voted_users@ =~= self.voted_users@.take(i + 1));
            i += 1;
        }
        assert(self.voted_users@.take(i as int) =~= self.voted_users@);
        Suggestion {
            message_id: self.message_id,
            channel_id: self.channel_id,
            author_id: self.author_id,
            author_name: self.author_name.clone(),
            content: self.content.clone(),
            status: self.status,
            votes_for: self.votes_for,
            votes_against: self.votes_against,
            voted_users,
            timestamp: self.timestamp,
        }
    }

    /// Whether `user` has voted on this suggestion, either way.
    pub fn has_vote_of(&self, user: u64) -> (found: bool)
        ensures
            found == has_voted(self@.voted_users, user),
    {
        let mut i: usize = 0;
        while i < self.voted_users.len()
            invariant
                i <= self.voted_users.len(),
                forall|j: int| 0 <= j < i ==> self.voted_users@[j].user != user,
            decreases self.voted_users.len() - i,
        {
            if self.voted_users[i].user == user {
                return true;
            }
            i += 1;
        }
        false
    }
}

impl SuggestionBoard {
    /// A board with nothing on it.
    pub fn new() -> (board: SuggestionBoard)
        ensures
            board@ == Map::<u64, SuggestionView>::empty(),
    {
        let board = SuggestionBoard { active: HashMap::new() };
        assert(board@ =~= Map::<u64, SuggestionView>::empty());
        board
    }

    /// The number of pending suggestions.
    pub fn len(&self) -> (n: usize)
        ensures
            n == self@.len(),
    {
        proof {
            assert(self@.dom() =~= self.active@.dom());
        }
        self.active.len()
    }

    /// The pending suggestion with this id, if there is one.
    pub fn get(&self, id: u64) -> (found: Option<&Suggestion>)
        ensures
            found is Some <==> self@.contains_key(id),
            found matches Some(s) ==> s@ == self@[id],
    {
        self.active.get(&id)
    }

    /// A copy of every pending suggestion, each once, in no particular
    /// order.
    pub fn records(&self) -> (all: Vec<Suggestion>)
        ensures
            all@.len() == self@.len(),
            forall|i: int| 0 <= i < all@.len() ==> on_board(self@, (#[trigger] all@[i])@),
            forall|id: u64| #[trigger] self@.contains_key(id) ==> is_listed(all@, self@[id]),
    {
        broadcast use vstd::std_specs::hash::group_hash_axioms;

        let mut all: Vec<Suggestion> = Vec::new();
        for pair in it: self.active.iter()
            invariant
                all@.len() == it.index(),
                forall|i: int| 0 <= i < all@.len() ==> all@[i]@ == (*it.seq()[i].1)@,
        {
            all.push(pair.1.duplicate());
        }
        proof {
            let walked = vstd::std_specs::hash::spec_hash_map_iter(&self.active).remaining();
            assert(self@.dom() =~= self.active@.dom());
            assert forall|i: int| 0 <= i < all@.len() implies on_board(
                self@,
                (#[trigger] all@[i])@,
            ) by {
                let id = *walked[i].0;
                assert(self.active@.contains_key(id));
                assert(self@.contains_key(id) && self@[id] == all@[i]@);
            }
            assert forall|id: u64| #[trigger] self@.contains_key(id) implies is_listed(
                all@,
                self@[id],
            ) by {
                assert(self.active@.contains_key(id));
                assert(walked.contains((&id, &self.active@[id])));
                let i = choose|i: int|
                    0 <= i < walked.len() && walked[i] == (&id, &self.active@[id]);
                assert(all@[i]@ == self@[id]);
            }
        }
        all
    }

    /// Puts a record on the board under its own id, in place of any that was
    /// there; for records that were stored earlier.
    pub fn restore(&mut self, suggestion: Suggestion)
        ensures
            final(self)@ == old(self)@.insert(suggestion@.message_id, suggestion@),
    {
        let id = suggestion.message_id;
        self.active.insert(id, suggestion);
        assert(self@ =~= old(self)@.insert(suggestion@.message_id, suggestion@));
    }

    /// Puts a new pending suggestion on the board, without votes, under the id
    /// of the message that shows it.
    pub fn submit(
        &mut self,
        message_id: u64,
        channel_id: u64,
        author_id: u64,
        author_name: String,
        content: String,
        timestamp: i64,
    )
        ensures
            final(self)@ == old(self)@.insert(
                message_id,
                submitted(message_id, channel_id, author_id, author_name@, content@, timestamp),
            ),
    {
        let suggestion = Suggestion {
            message_id,
            channel_id,
            author_id,
            author_name,
            content,
            status: Status::Pending,
            votes_for: 0,
            votes_against: 0,
            voted_users: Vec::new(),
            timestamp,
        };
        self.restore(suggestion);
    }

    /// Whether [`SuggestionBoard::vote`] can take this vote of `user` on
    /// suggestion `id`.
    pub fn can_vote(&self, id: u64, user: u64, choice: Choice) -> (fits: bool)
        ensures
            fits == vote_fits(self@, id, user, choice),
    {
        match self.active.get(&id) {
            None => true,
            Some(suggestion) => {
                if suggestion.author_id == user || suggestion.has_vote_of(user) {
                    true
                } else {
                    match choice {
                        Choice::Like => suggestion.votes_for < u32::MAX,
                        Choice::Dislike => suggestion.votes_against < u32::MAX,
                    }
                }
            },
        }
    }

    /// Casts the vote of `user` on suggestion `id`.
    ///
    /// Refused with `NotFound` when the suggestion is not on the board, with
    /// `Permission` when it is the member's own, and with `DuplicateVote`
    /// when the member has voted on it before, whichever way. Otherwise the
    /// vote is recorded and the new tally returned.
    pub fn vote(&mut self, id: u64, user: u64, choice: Choice) -> (outcome: Result<
        Tally,
        SuggestionError,
    >)
        requires
            vote_fits(old(self)@, id, user, choice),
        ensures
            final(self)@ == board_after_vote(old(self)@, id, user, choice),
            match vote_refusal(old(self)@, id, user) {
                Some(reason) => outcome == Err::<Tally, SuggestionError>(reason),
                None => outcome == Ok::<Tally, SuggestionError>(
                    tally_of(with_vote(old(self)@[id], user, choice)),
                ),
            },
            vote_refusal(old(self)@, id, user) is None && consistent(old(self)@[id]) ==> consistent(
                final(self)@[id],
            ),
    {
        let refusal = match self.active.get(&id) {
            None => Some(SuggestionError::NotFound),
            Some(suggestion) => {
                if suggestion.author_id == user {
                    Some(SuggestionError::Permission)
                } else if suggestion.has_vote_of(user) {
                    Some(SuggestionError::DuplicateVote)
                } else {
                    None
                }
            },
        };
        if let Some(reason) = refusal {
            return Err(reason);
        }
        match self.active.remove(&id) {
            Some(mut suggestion) => {
                let ghost before = suggestion@;
                match choice {
                    Choice::Like => {
                        suggestion.votes_for += 1;
                    },
                    Choice::Dislike => {
                        suggestion.votes_against += 1;
                    },
                }
                suggestion.voted_users.push(Vote { user, choice });
                let tally = suggestion.tally();
                proof {
                    assert(suggestion@ == with_vote(before, user, choice));
                    if consistent(before) {
                        lemma_vote_keeps_consistent(before, user, choice);
                    }
                }
                self.active.insert(id, suggestion);
                assert(self@ =~= board_after_vote(old(self)@, id, user, choice));
                Ok(tally)
            },
            None => Err(SuggestionError::NotFound),
        }
    }

    /// Replaces the text of suggestion `id` at the request of `user`.
    ///
    /// Refused with `NotFound` when the suggestion is not on the board and
    /// with `Permission` when the member is not its author. Votes stay as
    /// they are.
    pub fn edit(&mut self, id: u64, user: u64, new_content: String) -> (outcome: Result<
        Tally,
        SuggestionError,
    >)
        ensures
            match edit_refusal(old(self)@, id, user) {
                Some(reason) => outcome == Err::<Tally, SuggestionError>(reason) && final(self)@
                    == old(self)@,
                None => outcome == Ok::<Tally, SuggestionError>(tally_of(old(self)@[id]))
                    && final(self)@ == old(self)@.insert(
                    id,
                    SuggestionView { content: new_content@, ..old(self)@[id] },
                ),
            },
    {
        let refusal = match self.active.get(&id) {
            None => Some(SuggestionError::NotFound),
            Some(suggestion) => {
                if suggestion.author_id != user {
                    Some(SuggestionError::Permission)
                } else {
                    None
                }
            },
        };
        if let Some(reason) = refusal {
            return Err(reason);
        }
        match self.active.remove(&id) {
            Some(mut suggestion) => {
                suggestion.content = new_content;
                let tally = suggestion.tally();
                self.active.insert(id, suggestion);
                assert(self@ =~= old(self)@.insert(
                    id,
                    SuggestionView { content: new_content@, ..old(self)@[id] },
                ));
                Ok(tally)
            },
            None => Err(SuggestionError::NotFound),
        }
    }

    /// Decides suggestion `id` and takes it off the board for good.
    ///
    /// Refused with `NotFound` when the suggestion is not on the board and
    /// with `Permission` when the request does not come from an
    /// administrator. Otherwise the record leaves the board and is returned
    /// with its final status, for a last display.
    pub fn decide(&mut self, id: u64, is_admin: bool, decision: Decision) -> (outcome: Result<
        Suggestion,
        SuggestionError,
    >)
        ensures
            final(self)@ == board_after_decision(old(self)@, id, is_admin),
            match decision_refusal(old(self)@, id, is_admin) {
                Some(reason) => outcome matches Err(e) && e == reason,
                None => outcome matches Ok(decided) && decided@ == (SuggestionView {
                    status: status_after(decision),
                    ..old(self)@[id]
                }),
            },
    {
        if !self.active.contains_key(&id) {
            return Err(SuggestionError::NotFound);
        }
        if !is_admin {
            return Err(SuggestionError::Permission);
        }
        match self.active.remove(&id) {
            Some(mut suggestion) => {
                suggestion.status = match decision {
                    Decision::Approve => Status::Approved,
                    Decision::Reject => Status::Rejected,
                };
                assert(self@ =~= old(self)@.remove(id));
                Ok(suggestion)
            },
            None => Err(SuggestionError::NotFound),
        }
    }

    /// Approves suggestion `id`; see [`SuggestionBoard::decide`].
    pub fn approve(&mut self, id: u64, is_admin: bool) -> (outcome: Result<
        Suggestion,
        SuggestionError,
    >)
        ensures
            final(self)@ == board_after_decision(old(self)@, id, is_admin),
            match decision_refusal(old(self)@, id, is_admin) {
                Some(reason) => outcome matches Err(e) && e == reason,
                None => outcome matches Ok(decided) && decided@ == (SuggestionView {
                    status: Status::Approved,
                    ..old(self)@[id]
                }),
            },
    {
        self.decide(id, is_admin, Decision::Approve)
    }

    /// Rejects suggestion `id`; see [`SuggestionBoard::decide`].
    pub fn reject(&mut self, id: u64, is_admin: bool) -> (outcome: Result<
        Suggestion,
        SuggestionError,
    >)
        ensures
            final(self)@ == board_after_decision(old(self)@, id, is_admin),
            match decision_refusal(old(self)@, id, is_admin) {
                Some(reason) => outcome matches Err(e) && e == reason,
                None => outcome matches Ok(decided) && decided@ == (SuggestionView {
                    status: Status::Rejected,
                    ..old(self)@[id]
                }),
            },
    {
        self.decide(id, is_admin, Decision::Reject)
    }
}

/// A vote that is accepted leaves a consistent suggestion consistent.
pub proof fn lemma_vote_keeps_consistent(suggestion: SuggestionView, user: u64, choice: Choice)
    requires
        consistent(suggestion),
        suggestion.author_id != user,
        !has_voted(suggestion.voted_users, user),
        counter_has_room(suggestion, choice),
    ensures
        consistent(with_vote(suggestion, user, choice)),
{
    let after = with_vote(suggestion, user, choice);
    let n = suggestion.voted_users.len() as int;
    assert(after.voted_users.drop_last() =~= suggestion.voted_users);
    assert forall|i: int, j: int| 0 <= i < j < after.voted_users.len() implies after.voted_users[i].user
        != after.voted_users[j].user by {
        if j == n {
            assert(suggestion.voted_users[i].user != user);
        }
    }
    if has_voted(after.voted_users, after.author_id) {
        let i = choose|i: int|
            0 <= i < after.voted_users.len() && after.voted_users[i].user == after.author_id;
        assert(i < n);
        assert(suggestion.voted_users[i].user == suggestion.author_id);
    }
}

/// Nobody switches a vote: once a member's vote on a suggestion was accepted,
/// any further vote of theirs on it, for the same choice or the other, is a
/// duplicate and leaves board and counters as they were.
pub proof fn lemma_no_vote_switching(
    board: Map<u64, SuggestionView>,
    id: u64,
    user: u64,
    first: Choice,
    second: Choice,
)
    requires
        vote_refusal(board, id, user) is None,
    ensures
        vote_refusal(board_after_vote(board, id, user, first), id, user) == Some(
            SuggestionError::DuplicateVote,
        ),
        board_after_vote(board_after_vote(board, id, user, first), id, user, second)
            == board_after_vote(board, id, user, first),
{
    let after = board_after_vote(board, id, user, first);
    let votes = after[id].voted_users;
    assert(votes[votes.len() - 1].user == user);
}

/// The author of a suggestion on the board is never let to vote on it.
pub proof fn lemma_author_cannot_vote(board: Map<u64, SuggestionView>, id: u64, choice: Choice)
    requires
        board.contains_key(id),
    ensures
        vote_refusal(board, id, board[id].author_id) == Some(SuggestionError::Permission),
        board_after_vote(board, id, board[id].author_id, choice) == board,
{
}

/// A decided suggestion is gone: every later vote, edit or decision on its id
/// finds nothing.
pub proof fn lemma_decided_is_gone(board: Map<u64, SuggestionView>, id: u64, user: u64)
    requires
        board.contains_key(id),
    ensures
        vote_refusal(board_after_decision(board, id, true), id, user) == Some(
            SuggestionError::NotFound,
        ),
        edit_refusal(board_after_decision(board, id, true), id, user) == Some(
            SuggestionError::NotFound,
        ),
        decision_refusal(board_after_decision(board, id, true), id, true) == Some(
            SuggestionError::NotFound,
        ),
{
}

} // verus!
