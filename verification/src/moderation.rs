//! Moderation: the banned words, mutes, and the bounds on clean-ups.

use vstd::prelude::*;
use vstd::string::StringExecFns;
use crate::pattern::{escape, escaped_text, pattern_match, search};
use crate::text::{lowercase, to_lowercase};

verus! {

/// Seconds of silence for a message with a banned word.
pub const BANNED_WORD_TIMEOUT_SECS: i64 = 300;

/// Seconds of silence for spamming.
pub const SPAM_TIMEOUT_SECS: i64 = 30;

/// Seconds that a warning stays up.
pub const WARNING_LIFETIME_SECS: u64 = 5;

/// Most messages that one purge removes.
pub const PURGE_LIMIT: u64 = 100;

/// Where a mute applies.
#[derive(Clone, Copy, Debug, PartialEq, Eq, Structural)]
pub enum MuteMode {
    Text,
    Voice,
    All,
}

/// The pattern that finds `word` as a whole word: the word taken literally,
/// between two word boundaries.
pub open spec fn word_pattern(word: Seq<char>) -> Seq<char> {
    "\\b"@ + escaped_text(word) + "\\b"@
}

/// `word` occurs in `text` as a whole word.
pub open spec fn word_occurs(word: Seq<char>, text: Seq<char>) -> bool {
    pattern_match(word_pattern(word), text) == Some(true)
}

/// The words of a list as contracts see them.
pub open spec fn word_views(words: Seq<String>) -> Seq<Seq<char>> {
    Seq::new(words.len(), |i: int| words[i]@)
}

/// One of `words` occurs in `text` as a whole word.
pub open spec fn any_word_occurs(words: Seq<Seq<char>>, text: Seq<char>) -> bool {
    exists|i: int| 0 <= i < words.len() && word_occurs(#[trigger] words[i], text)
}

/// `words` without every entry equal to `word`.
pub open spec fn without_word(words: Seq<Seq<char>>, word: Seq<char>) -> Seq<Seq<char>>
    decreases words.len(),
{
    if words.len() == 0 {
        Seq::empty()
    } else if words.last() == word {
        without_word(words.drop_last(), word)
    } else {
        without_word(words.drop_last(), word).push(words.last())
    }
}

/// The mode that a mute request names, by its lower-case form: text or voice
/// in either language, and everywhere for anything else.
pub open spec fn mute_mode_of(lower: Seq<char>) -> MuteMode {
    if lower == "text"@ || lower == "текст"@ {
        MuteMode::Text
    } else if lower == "voice"@ || lower == "голос"@ {
        MuteMode::Voice
    } else {
        MuteMode::All
    }
}

/// Whether a search result counts as a find: only a pattern that compiled and
/// matched does.
pub fn is_hit(result: Option<bool>) -> (hit: bool)
    ensures
        hit == (result == Some(true)),
{
    match result {
        Some(matched) => matched,
        None => false,
    }
}

/// Builds the pattern that finds `word` as a whole word.
pub fn whole_word_pattern(word: &str) -> (pattern: String)
    ensures
        pattern@ == word_pattern(word@),
{
    let escaped = escape(word);
    let mut pattern = String::from_str("\\b");
    pattern.append(escaped.as_str());
    pattern.append("\\b");
    pattern
}

/// Whether `text` holds one of `words` as a whole word, letter for letter.
pub fn holds_any_word(words: &Vec<String>, text: &str) -> (found: bool)
    ensures
        found == any_word_occurs(word_views(words@), text@),
{
    let ghost views = word_views(words@);
    let mut i: usize = 0;
    while i < words.len()
        invariant
            i <= words.len(),
            views == word_views(words@),
            forall|j: int| 0 <= j < i ==> !word_occurs(#[trigger] views[j], text@),
        decreases words.len() - i,
    {
        let pattern = whole_word_pattern(words[i].as_str());
        if is_hit(search(pattern.as_str(), text)) {
            assert(word_occurs(views[i as int], text@));
            return true;
        }
        i += 1;
    }
    false
}

/// Whether a message holds one of the banned words as a whole word, in any
/// letter case. The words are expected in lower case, as [`BannedWords`]
/// keeps them.
pub fn contains_banned_word(words: &Vec<String>, message: &str) -> (found: bool)
    ensures
        found == any_word_occurs(word_views(words@), lowercase(message@)),
{
    let lower = to_lowercase(message);
    holds_any_word(words, lower.as_str())
}

/// The banned words: lower-case, each at most once when added through
/// [`BannedWords::add`].
#[derive(Clone, Debug)]
pub struct BannedWords {
    pub words: Vec<String>,
}

impl View for BannedWords {
    type V = Seq<Seq<char>>;

    open spec fn view(&self) -> Seq<Seq<char>> {
        word_views(self.words@)
    }
}

impl BannedWords {
    /// An empty list.
    pub fn new() -> (list: BannedWords)
        ensures
            list@ == Seq::<Seq<char>>::empty(),
    {
        let list = BannedWords { words: Vec::new() };
        assert(list@ =~= Seq::<Seq<char>>::empty());
        list
    }

    /// Whether the list holds exactly this word.
    pub fn holds(&self, word: &str) -> (found: bool)
        ensures
            found == self@.contains(word@),
    {
        let mut i: usize = 0;
        while i < self.words.len()
            invariant
                i <= self.words.len(),
                forall|j: int| 0 <= j < i ==> self@[j] != word@,
            decreases self.words.len() - i,
        {
            if self.words[i].as_str().eq(word) {
                assert(self@[i as int] == word@);
                return true;
            }
            i += 1;
        }
        false
    }

    /// Bans `word`, in lower case, unless it is banned already. Says whether
    /// the list grew.
    pub fn add(&mut self, word: &str) -> (added: bool)
        ensures
            added == !old(self)@.contains(lowercase(word@)),
            added ==> final(self)@ == old(self)@.push(lowercase(word@)),
            !added ==> final(self)@ == old(self)@,
    {
        self.insert(to_lowercase(word))
    }

    /// Lifts the ban on `word`, in lower case, wherever the list holds it.
    /// Says whether the list shrank; `false` means the word was not banned.
    pub fn remove(&mut self, word: &str) -> (removed: bool)
        ensures
            final(self)@ == without_word(old(self)@, lowercase(word@)),
            removed == old(self)@.contains(lowercase(word@)),
    {
        let lower = to_lowercase(word);
        self.discard(lower.as_str())
    }

    /// Puts `word` on the list as it stands, unless the list holds it. Says
    /// whether the list grew.
    pub fn insert(&mut self, word: String) -> (added: bool)
        ensures
            added == !old(self)@.contains(word@),
            added ==> final(self)@ == old(self)@.push(word@),
            !added ==> final(self)@ == old(self)@,
    {
        if self.holds(word.as_str()) {
            false
        } else {
            self.words.push(word);
            assert(self@ =~= old(self)@.push(word@));
            true
        }
    }

    /// Takes `word` off the list wherever the list holds exactly it. Says
    /// whether the list shrank.
    pub fn discard(&mut self, word: &str) -> (removed: bool)
        ensures
            final(self)@ == without_word(old(self)@, word@),
            removed == old(self)@.contains(word@),
    {
        let mut kept: Vec<String> = Vec::new();
        let mut removed = false;
        let mut i: usize = 0;
        while i < self.words.len()
            invariant
                i <= self.words.len(),
                *self == *old(self),
                word_views(kept@) == without_word(self@.take(i as int), word@),
                removed == self@.take(i as int).contains(word@),
            decreases self.words.len() - i,
        {
            let ghost upto = self@.take(i + 1);
            assert(upto.drop_last() =~= self@.take(i as int));
            assert(upto.last() == self.words@[i as int]@);
            if self.words[i].as_str().eq(word) {
                removed = true;
                assert(upto[i as int] == word@);
            } else {
                let ghost before = word_views(kept@);
                kept.push(self.words[i].clone());
                assert(word_views(kept@) =~= before.push(upto.last()));
                proof {
                    if upto.contains(word@) {
                        let at = choose|at: int| 0 <= at < upto.len() && upto[at] == word@;
                        assert(self@.take(i as int)[at] == word@);
                    }
                }
            }
            proof {
                if self@.take(i as int).contains(word@) {
                    let at = choose|at: int|
                        0 <= at < self@.take(i as int).len() && self@.take(i as int)[at] == word@;
                    assert(upto[at] == word@);
                }
            }
            i += 1;
        }
        assert(self@.take(i as int) =~= self@);
        self.words = kept;
        removed
    }
}

/// The mode that a name in lower case stands for.
pub fn mute_mode_for(lower: &str) -> (mode: MuteMode)
    ensures
        mode == mute_mode_of(lower@),
{
    if lower.eq("text") || lower.eq("текст") {
        MuteMode::Text
    } else if lower.eq("voice") || lower.eq("голос") {
        MuteMode::Voice
    } else {
        MuteMode::All
    }
}

/// Reads the mode of a mute request, in any letter case; a request that
/// names none applies everywhere.
pub fn parse_mute_mode(mode: Option<&str>) -> (parsed: MuteMode)
    ensures
        parsed == match mode {
            Some(name) => mute_mode_of(lowercase(name@)),
            None => MuteMode::All,
        },
{
    match mode {
        None => MuteMode::All,
        Some(name) => {
            let lower = to_lowercase(name);
            mute_mode_for(lower.as_str())
        },
    }
}

/// A mute of `minutes` that starts at `now` ends within the range of the
/// clock.
pub open spec fn deadline_fits(now: i64, minutes: i64) -> bool {
    i64::MIN <= now + minutes * 60 <= i64::MAX
}

/// Whether [`mute_deadline`] can name the end of the mute.
pub fn can_mute(now: i64, minutes: i64) -> (fits: bool)
    ensures
        fits == deadline_fits(now, minutes),
{
    let deadline: i128 = now as i128 + minutes as i128 * 60;
    i64::MIN as i128 <= deadline && deadline <= i64::MAX as i128
}

/// The moment, in epoch seconds, at which a mute of `minutes` that starts at
/// `now` ends.
pub fn mute_deadline(now: i64, minutes: i64) -> (deadline: i64)
    requires
        deadline_fits(now, minutes),
    ensures
        deadline == now + minutes * 60,
{
    let deadline: i128 = now as i128 + minutes as i128 * 60;
    deadline as i64
}

/// The number of messages that a purge of `amount` removes: never more than
/// [`PURGE_LIMIT`].
pub fn purge_count(amount: u64) -> (count: u8)
    ensures
        count == if amount > PURGE_LIMIT {
            PURGE_LIMIT
        } else {
            amount
        },
{
    if amount > PURGE_LIMIT {
        PURGE_LIMIT as u8
    } else {
        amount as u8
    }
}

} // verus!
