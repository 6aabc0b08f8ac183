//! The task record and the one factory that fabricates it: random status,
//! timestamps placed around a recent anchor, a short lorem name, an owning
//! user, and a palette index stored in string form.

use vstd::prelude::*;
use crate::sources::{fresh_id, now_timestamp, random_below};
use crate::user::User;
use crate::words::{random_phrase, word_count};

verus! {

/// Lifecycle state of a task: a closed set of four snapshot values,
/// with no transitions modelled.
#[derive(Clone, Copy, Debug, PartialEq, Eq, Structural)]
pub enum TaskStatus {
    Done,
    InProgress,
    NotNeeded,
    ReadyToStart,
}

/// The status that a uniform draw in `0 ..= 4` selects: the four members
/// in declaration order, with the surplus outcome `4` collapsing onto
/// `ReadyToStart`.
pub open spec fn status_of_index(i: int) -> TaskStatus {
    if i == 0 {
        TaskStatus::Done
    } else if i == 1 {
        TaskStatus::InProgress
    } else if i == 2 {
        TaskStatus::NotNeeded
    } else {
        TaskStatus::ReadyToStart
    }
}

impl TaskStatus {
    /// Maps a drawn index onto a status member, exactly as `status_of_index`
    /// describes it.
    pub fn from_index(i: u64) -> (s: TaskStatus)
        requires
            i <= 4,
        ensures
            s == status_of_index(i as int),
    {
        match i {
            0 => TaskStatus::Done,
            1 => TaskStatus::InProgress,
            2 => TaskStatus::NotNeeded,
            _ => TaskStatus::ReadyToStart,
        }
    }

    /// Draws a status: a uniform index in `0 ..= 4` mapped through
    /// `from_index`, a deliberate small bias towards `ReadyToStart` in
    /// place of a portable count of the enumeration's members.
    pub fn get_random_task_status() -> (s: TaskStatus)
        ensures
            exists|i: int| 0 <= i <= 4 && s == status_of_index(i),
    {
        TaskStatus::from_index(random_below(5))
    }
}

/// How many entries the colour palette holds.
pub const PROJECT_COLORS_LEN: usize = 10;

/// The palette entry at `i`: `#RRGGBBAA` hex-with-alpha strings, used only
/// as a lookup table by index.
pub open spec fn project_color_spec(i: int) -> Seq<char> {
    if i == 0 {
        "#61e294ff"@
    } else if i == 1 {
        "#7bcdbaff"@
    } else if i == 2 {
        "#9799caff"@
    } else if i == 3 {
        "#bd93d8ff"@
    } else if i == 4 {
        "#b47aeaff"@
    } else if i == 5 {
        "#d3d5d4ff"@
    } else if i == 6 {
        "#a2c5acff"@
    } else if i == 7 {
        "#9db5b2ff"@
    } else if i == 8 {
        "#878e99ff"@
    } else {
        "#7f6a93ff"@
    }
}

/// Looks a colour up in the palette.
pub fn project_color(i: usize) -> (c: String)
    requires
        i < PROJECT_COLORS_LEN,
    ensures
        c@ == project_color_spec(i as int),
{
    let s: &str = match i {
        0 => "#61e294ff",
        1 => "#7bcdbaff",
        2 => "#9799caff",
        3 => "#bd93d8ff",
        4 => "#b47aeaff",
        5 => "#d3d5d4ff",
        6 => "#a2c5acff",
        7 => "#9db5b2ff",
        8 => "#878e99ff",
        _ => "#7f6a93ff",
    };
    String::from_str(s)
}

/// How many duration choices the generator draws from.
pub const DURATION_OPTIONS_LEN: usize = 7;

/// The fixed duration choices, in seconds.
pub open spec fn duration_option_spec(i: int) -> int {
    if i == 0 {
        3600
    } else if i == 1 {
        1800
    } else if i == 2 {
        5400
    } else if i == 3 {
        3450
    } else if i == 4 {
        1600
    } else if i == 5 {
        1954
    } else {
        7200
    }
}

/// Every duration choice is positive and modest in size.
pub proof fn lemma_duration_option_bounds(i: int)
    requires
        0 <= i < DURATION_OPTIONS_LEN,
    ensures
        1600 <= duration_option_spec(i) <= 7200,
{
}

/// Looks a duration choice up by index.
pub fn duration_option(i: usize) -> (r: i64)
    requires
        i < DURATION_OPTIONS_LEN,
    ensures
        r == duration_option_spec(i as int),
{
    match i {
        0 => 3600,
        1 => 1800,
        2 => 5400,
        3 => 3450,
        4 => 1600,
        5 => 1954,
        _ => 7200,
    }
}

/// The decimal digit character for `d`.
pub open spec fn digit_char(d: int) -> char {
    if d == 0 {
        '0'
    } else if d == 1 {
        '1'
    } else if d == 2 {
        '2'
    } else if d == 3 {
        '3'
    } else if d == 4 {
        '4'
    } else if d == 5 {
        '5'
    } else if d == 6 {
        '6'
    } else if d == 7 {
        '7'
    } else if d == 8 {
        '8'
    } else {
        '9'
    }
}

/// The one-character decimal string for a digit.
pub fn digit_string(d: u64) -> (r: String)
    requires
        d <= 9,
    ensures
        r@ == seq![digit_char(d as int)],
{
    let s: &str = match d {
        0 => "0",
        1 => "1",
        2 => "2",
        3 => "3",
        4 => "4",
        5 => "5",
        6 => "6",
        7 => "7",
        8 => "8",
        _ => "9",
    };
    proof {
        reveal_strlit("0");
        reveal_strlit("1");
        reveal_strlit("2");
        reveal_strlit("3");
        reveal_strlit("4");
        reveal_strlit("5");
        reveal_strlit("6");
        reveal_strlit("7");
        reveal_strlit("8");
        reveal_strlit("9");
        assert(s@ =~= seq![digit_char(d as int)]);
    }
    String::from_str(s)
}

/// A synthetic unit-of-work record: immutable once constructed, every
/// field populated by the factory. Timestamps are whole seconds since the
/// Unix epoch, in UTC.
#[derive(Debug)]
pub struct Task {
    pub id: u128,
    pub name: String,
    pub status: TaskStatus,
    pub user: User,
    pub started_at: i64,
    pub updated_at: i64,
    pub finished_at: i64,
    pub color: String,
}

impl Task {
    /// What every generated task looks like, whoever the owner was: the
    /// name splits into 3 or 4 words; the end stamp serves both as update
    /// and finish time; start and finish sit symmetrically, one drawn
    /// duration on either side of the anchor, and lie in a band that the
    /// clock's own range widened by ten days and one duration gives; and
    /// the colour is the decimal string of an index that spares the
    /// palette's last entry.
    pub open spec fn generated_ok(self) -> bool {
        &&& 3 <= word_count(self.name@) <= 4
        &&& self.updated_at == self.finished_at
        &&& self.started_at <= self.updated_at
        &&& -8_400_000_871_200 <= self.started_at
        &&& self.finished_at <= 8_400_000_007_200
        &&& exists|i: int|
            0 <= i < DURATION_OPTIONS_LEN && self.finished_at - self.started_at == 2
                * duration_option_spec(i)
        &&& self.color@.len() == 1
        &&& exists|d: int| 0 <= d <= 8 && self.color@ == seq![digit_char(d)]
    }

    /// Fabricates one random task. A supplied user is copied unchanged
    /// into the record; without one, a fresh well-formed user is drawn.
    pub fn new_random_task(user: &Option<User>) -> (t: Task)
        ensures
            t.generated_ok(),
            match *user {
                Some(u) => t.user == u,
                None => t.user.wf(),
            },
    {
        let owner = match user {
            Some(u) => u.clone(),
            None => User::create_random_user(),
        };

        let random_amount_of_days = random_below(11) as i64;
        let duration_index = random_below(DURATION_OPTIONS_LEN as u64) as usize;
        let random_time_in_seconds = duration_option(duration_index);
        proof {
            lemma_duration_option_bounds(duration_index as int);
        }

        let random_date = now_timestamp() - random_amount_of_days * 86_400;

        let fake_initial_date = random_date - random_time_in_seconds;
        let fake_end_date = random_date + random_time_in_seconds;

        let color_index = random_below((PROJECT_COLORS_LEN - 1) as u64);

        let t = Task {
            id: fresh_id(),
            name: random_phrase(3, 5),
            status: TaskStatus::get_random_task_status(),
            user: owner,
            started_at: fake_initial_date,
            updated_at: fake_end_date,
            finished_at: fake_end_date,
            color: digit_string(color_index),
        };
        proof {
            assert(t.finished_at - t.started_at == 2 * duration_option_spec(
                duration_index as int,
            ));
            assert(t.color@ == seq![digit_char(color_index as int)]);
        }
        t
    }
}

} // verus!
