//! Birthdays: a day and a month per member, kept by member id as text in
//! the form `dd.mm`, with the calendar that lists them and the check for
//! today's.

use std::collections::HashMap;
use vstd::prelude::*;
use vstd::std_specs::iter::IteratorSpec;
use vstd::string::StrSliceExecFns;
use crate::calendar::{calendar_date_exists, date_exists};
use crate::ranking::{is_ordering, sort_order};
use crate::text::{
    decimal_value, find_only, lemma_split_is_unique, parse_decimal, parse_decimal_u32,
    parts_around, push_two_digits, two_digit_text,
};

verus! {

/// The year that a birthday is checked against: a leap year, so that the
/// twenty-ninth of February is a birthday.
pub const REFERENCE_YEAR: i32 = 2000;

/// The hour of the day, local time, at which birthdays are announced.
pub const ANNOUNCEMENT_HOUR: u32 = 9;

/// Why the book turned a request down. No request that fails changes the
/// book.
#[derive(Clone, Copy, Debug, PartialEq, Eq, Structural)]
pub enum BirthdayError {
    /// The calendar has no such day.
    InvalidDate,
    /// The member has no birthday on record.
    NotFound,
}

/// A line of the calendar: the member, the day as it was written, and the
/// short name of the month.
#[derive(Clone, Debug)]
pub struct CalendarLine {
    pub user: u64,
    pub day: String,
    pub month: &'static str,
}

/// A birthday as the book holds it.
#[derive(Clone, Debug)]
pub struct BirthdayEntry {
    pub user: u64,
    pub date: String,
}

impl View for BirthdayEntry {
    type V = (u64, Seq<char>);

    open spec fn view(&self) -> (u64, Seq<char>) {
        (self.user, self.date@)
    }
}

/// A day and a month as the book writes them: two digits each, with a dot
/// between.
pub open spec fn birthday_text(day: u32, month: u32) -> Seq<char> {
    two_digit_text(day as nat).push('.') + two_digit_text(month as nat)
}

/// The two parts of a text that holds exactly one dot: what stands before
/// the dot and what stands after it.
pub open spec fn date_parts(text: Seq<char>) -> Option<(Seq<char>, Seq<char>)> {
    parts_around(text, '.')
}

/// The number that a part of a date stands for, or zero where it is none.
pub open spec fn part_value(part: Seq<char>) -> u32 {
    match decimal_value(part, u32::MAX as int) {
        Some(v) => v as u32,
        None => 0,
    }
}

/// The place of a written birthday in the calendar: month first, then day.
/// A text that is no date, or a part that is no number, counts as zero.
pub open spec fn date_key(text: Seq<char>) -> (u64, u64) {
    match date_parts(text) {
        Some((day, month)) => (part_value(month) as u64, part_value(day) as u64),
        None => (0, 0),
    }
}

/// The short names of the months as contracts see them.
pub open spec fn month_names() -> Seq<Seq<char>> {
    seq![
        "Січ"@,
        "Лют"@,
        "Бер"@,
        "Кві"@,
        "Тра"@,
        "Чер"@,
        "Лип"@,
        "Сер"@,
        "Вер"@,
        "Жов"@,
        "Лис"@,
        "Гру"@,
    ]
}

/// The name shown for a month as it was written: the month's short name for
/// a number from one to twelve, that of January for what is no number, and a
/// placeholder for any other number.
pub open spec fn month_label_of(month: Seq<char>) -> Seq<char> {
    let number = match decimal_value(month, u64::MAX as int) {
        Some(v) => v,
        None => 1,
    };
    if 1 <= number <= 12 {
        month_names()[number - 1]
    } else {
        "???"@
    }
}

/// The entries of a book as contracts see them.
pub open spec fn entry_views(entries: Seq<BirthdayEntry>) -> Seq<(u64, Seq<char>)> {
    Seq::new(entries.len(), |i: int| entries[i]@)
}

/// The calendar keys of entries, in their order.
pub open spec fn date_keys(entries: Seq<(u64, Seq<char>)>) -> Seq<(u64, u64)> {
    Seq::new(entries.len(), |i: int| date_key(entries[i].1))
}

/// No member has two entries.
pub open spec fn one_each(entries: Seq<(u64, Seq<char>)>) -> bool {
    forall|i: int, j: int| 0 <= i < j < entries.len() ==> entries[i].0 != entries[j].0
}

/// The member has an entry among `entries`.
pub open spec fn has_entry(entries: Seq<(u64, Seq<char>)>, user: u64) -> bool {
    exists|i: int| 0 <= i < entries.len() && (#[trigger] entries[i]).0 == user
}

/// `entries` lists the book: every member of the book once, with the date
/// on record, and nobody else. The book itself puts its members in no order.
pub open spec fn lists_book(book: Map<u64, Seq<char>>, entries: Seq<(u64, Seq<char>)>) -> bool {
    &&& entries.len() == book.len()
    &&& one_each(entries)
    &&& forall|i: int|
        0 <= i < entries.len() ==> book.contains_key((#[trigger] entries[i]).0)
            && book[entries[i].0] == entries[i].1
    &&& forall|user: u64| #[trigger] book.contains_key(user) ==> has_entry(entries, user)
}

/// The calendar lines for the entries at the first `count` positions of
/// `order`: one line for each entry that holds exactly one dot.
pub open spec fn lines_for(entries: Seq<(u64, Seq<char>)>, order: Seq<usize>, count: int)
    -> Seq<(u64, Seq<char>, Seq<char>)>
    decreases count,
{
    if count <= 0 {
        Seq::empty()
    } else {
        let before = lines_for(entries, order, count - 1);
        let entry = entries[order[count - 1] as int];
        match date_parts(entry.1) {
            Some((day, month)) => before.push((entry.0, day, month_label_of(month))),
            None => before,
        }
    }
}

/// The lines of a calendar as contracts see them.
pub open spec fn line_views(lines: Seq<CalendarLine>) -> Seq<(u64, Seq<char>, Seq<char>)> {
    Seq::new(lines.len(), |i: int| (lines[i].user, lines[i].day@, lines[i].month@))
}

/// Whether the calendar has such a day; the twenty-ninth of February counts.
pub fn is_valid_birthday(day: u32, month: u32) -> (valid: bool)
    ensures
        valid == date_exists(REFERENCE_YEAR as int, month as int, day as int),
{
    calendar_date_exists(REFERENCE_YEAR, month, day)
}

/// Writes a day and a month as the book keeps them.
pub fn format_birthday(day: u32, month: u32) -> (text: String)
    ensures
        text@ == birthday_text(day, month),
{
    let mut text = String::new();
    push_two_digits(&mut text, day as u64);
    text.push('.');
    push_two_digits(&mut text, month as u64);
    assert(text@ =~= birthday_text(day, month));
    text
}

/// Whether birthdays are announced in this hour of the day.
pub fn is_announcement_hour(hour: u32) -> (due: bool)
    ensures
        due == (hour == ANNOUNCEMENT_HOUR),
{
    hour == ANNOUNCEMENT_HOUR
}

/// The number that a part of a date stands for, or zero where it is none.
fn part_number(part: &str) -> (value: u32)
    ensures
        value == part_value(part@),
{
    match parse_decimal_u32(part) {
        Some(v) => v,
        None => 0,
    }
}

/// Reads a written birthday as month and day, for putting the calendar in
/// order. A text without exactly one dot reads as zero and zero, and so does
/// each part that is no number.
pub fn parse_date(text: &str) -> (key: (u32, u32))
    ensures
        (key.0 as u64, key.1 as u64) == date_key(text@),
{
    match find_only(text, '.') {
        Some(at) => {
            proof {
                lemma_split_is_unique(text@, '.', at as int);
            }
            let n = text.unicode_len();
            let day = text.substring_char(0, at);
            let month = text.substring_char(at + 1, n);
            assert(day@ =~= text@.take(at as int));
            assert(month@ =~= text@.skip(at + 1));
            (part_number(month), part_number(day))
        },
        None => (0, 0),
    }
}

/// The short name of a month for the calendar, from the month as it was
/// written.
pub fn month_label(month: &str) -> (label: &'static str)
    ensures
        label@ == month_label_of(month@),
{
    let number = match parse_decimal(month) {
        Some(v) => v,
        None => 1,
    };
    if number == 1 {
        "Січ"
    } else if number == 2 {
        "Лют"
    } else if number == 3 {
        "Бер"
    } else if number == 4 {
        "Кві"
    } else if number == 5 {
        "Тра"
    } else if number == 6 {
        "Чер"
    } else if number == 7 {
        "Лип"
    } else if number == 8 {
        "Сер"
    } else if number == 9 {
        "Вер"
    } else if number == 10 {
        "Жов"
    } else if number == 11 {
        "Лис"
    } else if number == 12 {
        "Гру"
    } else {
        "???"
    }
}

/// The birthdays on record, one for each member at most.
pub struct BirthdayBook {
    dates: HashMap<u64, String>,
}

impl View for BirthdayBook {
    type V = Map<u64, Seq<char>>;

    closed spec fn view(&self) -> Map<u64, Seq<char>> {
        self.dates@.map_values(|date: String| date@)
    }
}

impl BirthdayBook {
    /// A book without entries.
    pub fn new() -> (book: BirthdayBook)
        ensures
            book@ == Map::<u64, Seq<char>>::empty(),
    {
        let book = BirthdayBook { dates: HashMap::new() };
        assert(book@ =~= Map::<u64, Seq<char>>::empty());
        book
    }

    /// The number of birthdays on record.
    pub fn len(&self) -> (n: usize)
        ensures
            n == self@.len(),
    {
        proof {
            assert(self@.dom() =~= self.dates@.dom());
        }
        self.dates.len()
    }

    /// A copy of every entry: each member of the book once, in no particular
    /// order.
    pub fn entries(&self) -> (all: Vec<BirthdayEntry>)
        ensures
            lists_book(self@, entry_views(all@)),
    {
        broadcast use vstd::std_specs::hash::group_hash_axioms;

        let mut all: Vec<BirthdayEntry> = Vec::new();
        for pair in it: self.dates.iter()
            invariant
                all@.len() == it.index(),
                it.seq().no_duplicates(),
                forall|i: int|
                    0 <= i < all@.len() ==> (#[trigger] all@[i])@ == (
                        *it.seq()[i].0,
                        (*it.seq()[i].1)@,
                    ),
        {
            all.push(BirthdayEntry { user: *pair.0, date: pair.1.clone() });
        }
        proof {
            let walked = vstd::std_specs::hash::spec_hash_map_iter(&self.dates).remaining();
            let listed = entry_views(all@);
            assert(self@.dom() =~= self.dates@.dom());
            assert forall|i: int| 0 <= i < listed.len() implies self@.contains_key(
                (#[trigger] listed[i]).0,
            ) && self@[listed[i].0] == listed[i].1 by {
                assert(listed[i] == all@[i]@);
                assert(self.dates@.contains_key(*walked[i].0));
            }
            assert forall|i: int, j: int| 0 <= i < j < listed.len() implies listed[i].0
                != listed[j].0 by {
                assert(listed[i] == all@[i]@ && listed[j] == all@[j]@);
                if listed[i].0 == listed[j].0 {
                    assert(self.dates@.contains_key(*walked[i].0));
                    assert(self.dates@.contains_key(*walked[j].0));
                    assert(walked[i] == walked[j]);
                }
            }
            assert forall|user: u64| #[trigger] self@.contains_key(user) implies has_entry(
                listed,
                user,
            ) by {
                assert(self.dates@.contains_key(user));
                assert(walked.contains((&user, &self.dates@[user])));
                let i = choose|i: int|
                    0 <= i < walked.len() && walked[i] == (&user, &self.dates@[user]);
                assert(listed[i] == all@[i]@);
                assert(listed[i].0 == user);
            }
        }
        all
    }

    /// The birthday on record for a member, as written.
    pub fn get(&self, user: u64) -> (found: Option<&String>)
        ensures
            found is Some <==> self@.contains_key(user),
            found matches Some(date) ==> date@ == self@[user],
    {
        self.dates.get(&user)
    }

    /// Puts `date` on record for `user` as it stands, in place of what was
    /// there; for records that were stored earlier.
    pub fn restore(&mut self, user: u64, date: String)
        ensures
            final(self)@ == old(self)@.insert(user, date@),
    {
        self.dates.insert(user, date);
        assert(self@ =~= old(self)@.insert(user, date@));
    }

    /// Puts a member's birthday on record, in place of any that was there.
    ///
    /// Refused with `InvalidDate` exactly when the calendar has no such day;
    /// otherwise the date is recorded and returned as written.
    pub fn set(&mut self, user: u64, day: u32, month: u32) -> (outcome: Result<
        String,
        BirthdayError,
    >)
        ensures
            !date_exists(REFERENCE_YEAR as int, month as int, day as int) ==> final(self)@ == old(
                self,
            )@ && outcome == Err::<String, BirthdayError>(BirthdayError::InvalidDate),
            date_exists(REFERENCE_YEAR as int, month as int, day as int) ==> final(self)@ == old(
                self,
            )@.insert(user, birthday_text(day, month)) && (outcome matches Ok(date) && date@
                == birthday_text(day, month)),
    {
        if !is_valid_birthday(day, month) {
            return Err(BirthdayError::InvalidDate);
        }
        let date = format_birthday(day, month);
        self.restore(user, date.clone());
        Ok(date)
    }

    /// Takes a member's birthday off the record.
    ///
    /// Refused with `NotFound` exactly when the member has none.
    pub fn remove(&mut self, user: u64) -> (outcome: Result<(), BirthdayError>)
        ensures
            final(self)@ == old(self)@.remove(user),
            outcome == if old(self)@.contains_key(user) {
                Ok::<(), BirthdayError>(())
            } else {
                Err::<(), BirthdayError>(BirthdayError::NotFound)
            },
    {
        let removed = self.dates.remove(&user);
        assert(self@ =~= old(self)@.remove(user));
        match removed {
            Some(_) => Ok(()),
            None => Err(BirthdayError::NotFound),
        }
    }

    /// The members whose birthday is on the given day, each once, in no
    /// particular order.
    pub fn celebrants(&self, day: u32, month: u32) -> (members: Vec<u64>)
        ensures
            members@.no_duplicates(),
            forall|user: u64|
                members@.contains(user) <==> self@.contains_key(user) && self@[user]
                    == birthday_text(day, month),
    {
        let today = format_birthday(day, month);
        let entries = self.entries();
        let ghost listed = entry_views(entries@);
        let mut members: Vec<u64> = Vec::new();
        let mut i: usize = 0;
        while i < entries.len()
            invariant
                i <= entries.len(),
                listed == entry_views(entries@),
                one_each(listed),
                today@ == birthday_text(day, month),
                members@.no_duplicates(),
                forall|user: u64|
                    members@.contains(user) <==> exists|j: int|
                        0 <= j < i && #[trigger] listed[j] == (user, today@),
            decreases entries.len() - i,
        {
            let ghost before = members@;
            assert(listed[i as int] == entries@[i as int]@);
            if entries[i].date.as_str().eq(today.as_str()) {
                let user = entries[i].user;
                proof {
                    if before.contains(user) {
                        let j = choose|j: int| 0 <= j < i && #[trigger] listed[j] == (user, today@);
                        assert(listed[j].0 != listed[i as int].0);
                    }
                }
                members.push(user);
                proof {
                    assert forall|other: u64| members@.contains(other) <==> exists|j: int|
                        0 <= j < i + 1 && #[trigger] listed[j] == (other, today@) by {
                        if members@.contains(other) {
                            let at = choose|at: int|
                                0 <= at < members@.len() && members@[at] == other;
                            if at < before.len() {
                                assert(before[at] == other);
                                assert(before.contains(other));
                                let j = choose|j: int|
                                    0 <= j < i && #[trigger] listed[j] == (other, today@);
                                assert(0 <= j < i + 1 && listed[j] == (other, today@));
                            } else {
                                assert(listed[i as int] == (other, today@));
                            }
                        }
                        if exists|j: int| 0 <= j < i + 1 && #[trigger] listed[j] == (other, today@) {
                            let j = choose|j: int|
                                0 <= j < i + 1 && #[trigger] listed[j] == (other, today@);
                            if j < i {
                                assert(before.contains(other));
                                let at = choose|at: int|
                                    0 <= at < before.len() && before[at] == other;
                                assert(members@[at] == other);
                            } else {
                                assert(members@[before.len() as int] == other);
                            }
                        }
                    }
                }
            } else {
                proof {
                    assert forall|other: u64| members@.contains(other) <==> exists|j: int|
                        0 <= j < i + 1 && #[trigger] listed[j] == (other, today@) by {
                        if exists|j: int| 0 <= j < i + 1 && #[trigger] listed[j] == (other, today@) {
                            let j = choose|j: int|
                                0 <= j < i + 1 && #[trigger] listed[j] == (other, today@);
                            assert(j < i);
                        }
                        if members@.contains(other) {
                            let j = choose|j: int|
                                0 <= j < i && #[trigger] listed[j] == (other, today@);
                            assert(0 <= j < i + 1 && listed[j] == (other, today@));
                        }
                    }
                }
            }
            i += 1;
        }
        proof {
            assert forall|user: u64|
                members@.contains(user) <==> self@.contains_key(user) && self@[user]
                    == today@ by {
                if members@.contains(user) {
                    let j = choose|j: int| 0 <= j < i && #[trigger] listed[j] == (user, today@);
                    assert(self@.contains_key(listed[j].0));
                }
                if self@.contains_key(user) && self@[user] == today@ {
                    assert(has_entry(listed, user));
                    let j = choose|j: int| 0 <= j < listed.len() && (#[trigger] listed[j]).0 == user;
                    assert(listed[j] == (user, today@));
                }
            }
        }
        members
    }

    /// The calendar: the birthdays by month and day, each with the day as
    /// written and the month by name. Birthdays on the same day come as the
    /// book happens to list them. An entry that is not written as a day and
    /// a month has no line.
    pub fn calendar(&self) -> (lines: Vec<CalendarLine>)
        ensures
            exists|listed: Seq<(u64, Seq<char>)>, order: Seq<usize>|
                lists_book(self@, listed) && is_ordering(
                    date_keys(listed),
                    order,
                    listed.len() as int,
                    false,
                ) && line_views(lines@) == lines_for(listed, order, listed.len() as int),
    {
        let entries = self.entries();
        let ghost listed = entry_views(entries@);
        let n = entries.len();
        let mut keys: Vec<(u64, u64)> = Vec::new();
        let mut i: usize = 0;
        while i < n
            invariant
                i <= n,
                n == entries@.len(),
                listed == entry_views(entries@),
                keys@ == date_keys(listed).take(i as int),
            decreases n - i,
        {
            assert(listed[i as int] == entries@[i as int]@);
            let key = parse_date(entries[i].date.as_str());
            keys.push((key.0 as u64, key.1 as u64));
            assert(keys@ =~= date_keys(listed).take(i + 1));
            i += 1;
        }
        assert(keys@ =~= date_keys(listed));
        let order = sort_order(&keys, false);
        let mut lines: Vec<CalendarLine> = Vec::new();
        let mut k: usize = 0;
        while k < n
            invariant
                k <= n,
                n == entries@.len(),
                listed == entry_views(entries@),
                is_ordering(date_keys(listed), order@, n as int, false),
                line_views(lines@) == lines_for(listed, order@, k as int),
            decreases n - k,
        {
            let entry = &entries[order[k]];
            let ghost before = line_views(lines@);
            assert(listed[order@[k as int] as int] == entry@);
            match find_only(entry.date.as_str(), '.') {
                Some(at) => {
                    proof {
                        lemma_split_is_unique(entry.date@, '.', at as int);
                    }
                    let length = entry.date.as_str().unicode_len();
                    let day = entry.date.as_str().substring_char(0, at);
                    let month = entry.date.as_str().substring_char(at + 1, length);
                    assert(day@ =~= entry.date@.take(at as int));
                    assert(month@ =~= entry.date@.skip(at + 1));
                    let line = CalendarLine {
                        user: entry.user,
                        day: String::from_str(day),
                        month: month_label(month),
                    };
                    lines.push(line);
                    assert(line_views(lines@) =~= before.push(
                        (entry.user, day@, month_label_of(month@)),
                    ));
                },
                None => {},
            }
            k += 1;
        }
        lines
    }
}

} // verus!
