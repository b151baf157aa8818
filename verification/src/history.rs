//! What a run leaves behind, as the builder records it: the commits that it
//! has made, day after day, what each day was built upon, and what holds of
//! them.

use vstd::prelude::*;
use git2::Oid;
use crate::calendar::{midday_of, Date};
use crate::repository::signed_text;
use crate::text::message_text;
use crate::tiler::{intensity, lemma_total_grows, total_intensity, Column};

verus! {

/// What the builder knows of a commit that it has made: the id that the
/// repository gave it, and what was handed to the repository for it.
#[derive(Debug, PartialEq, Eq)]
pub struct CommitRecord {
    /// The id under which the repository stored the commit.
    pub id: Oid,
    /// The id of the commit that was handed over as its parent.
    pub parent: Option<Oid>,
    /// The id of the tree that was handed over as its tree.
    pub tree: Oid,
    /// The name on the signature that was handed over for author and
    /// committer.
    pub name: String,
    /// The email on that signature.
    pub email: String,
    /// The day that the commit stands for.
    pub date: Date,
    /// The time on that signature, in seconds after the epoch.
    pub seconds: i64,
    /// The offset from UTC on that signature, in minutes.
    pub offset_minutes: i32,
    /// Its place among the commits of its day, from 1.
    pub ordinal: u8,
    /// How many commits its day gets.
    pub total: u8,
    pub message: String,
}

/// What a day was built upon.
#[derive(Debug, Clone, Copy, PartialEq, Eq)]
pub struct DayBasis {
    /// The tip of the reference when the day began, if it had one.
    pub seed: Option<Oid>,
    /// The id that writing the index as a tree gave when the day began.
    pub tree: Oid,
}

/// The commits of one day, and what they were built upon.
#[derive(Debug, PartialEq, Eq)]
pub struct DrawnDay {
    pub basis: DayBasis,
    pub commits: Vec<CommitRecord>,
}

/// The commits of a run, in the order in which they were made, and for each
/// day of the run what it was built upon.
#[derive(Debug, PartialEq, Eq)]
pub struct History {
    pub commits: Vec<CommitRecord>,
    pub bases: Vec<DayBasis>,
}

/// Whether `record` is the `place`-th commit, from 0, of day `day`, which
/// gets `pixel` commits, are built on `basis` and are signed with what a
/// signature keeps of `name` and `email`, at midday without an offset.
pub open spec fn record_at(
    record: CommitRecord,
    place: int,
    pixel: u8,
    day: int,
    basis: DayBasis,
    name: Seq<char>,
    email: Seq<char>,
) -> bool {
    &&& record.date@ == day
    &&& record.seconds == midday_of(day)
    &&& record.offset_minutes == 0
    &&& record.ordinal == place + 1
    &&& record.total == pixel
    &&& record.message@ == message_text((place + 1) as nat, pixel as nat)
    &&& record.tree == basis.tree
    &&& record.name@ == signed_text(name)
    &&& record.email@ == signed_text(email)
}

/// Whether `records` are the commits of day `day` with intensity `pixel`:
/// as many as `pixel` says, in order, all with the tree of `basis`, the
/// first the child of the seed of `basis`, each other the child of the one
/// before it.
pub open spec fn day_records(
    records: Seq<CommitRecord>,
    pixel: u8,
    day: int,
    basis: DayBasis,
    name: Seq<char>,
    email: Seq<char>,
) -> bool {
    &&& records.len() == pixel
    &&& forall|k: int|
        0 <= k < records.len() ==> record_at(#[trigger] records[k], k, pixel, day, basis, name, email)
    &&& forall|k: int|
        1 <= k < records.len() ==> (#[trigger] records[k]).parent == Some(records[k - 1].id)
    &&& records.len() > 0 ==> records[0].parent == basis.seed
}

/// The commits of day `day` within a history: as many as the day's
/// intensity says, after those of the days before it.
pub open spec fn day_block(records: Seq<CommitRecord>, columns: Seq<Column>, day: nat) -> Seq<
    CommitRecord,
> {
    records.subrange(
        total_intensity(columns, day) as int,
        total_intensity(columns, day + 1) as int,
    )
}

/// Whether `records` and `bases` are the history of the first `days` days
/// of a grid that begins on day `start` and shows the stream of `columns`,
/// signed with `name` and `email`: as many commits as the intensities of
/// those days add up to, one basis for each day, and day after day the
/// commits of each day as `day_records` says, built on the day's basis.
pub open spec fn history_records(
    records: Seq<CommitRecord>,
    bases: Seq<DayBasis>,
    columns: Seq<Column>,
    start: int,
    days: nat,
    name: Seq<char>,
    email: Seq<char>,
) -> bool {
    &&& records.len() == total_intensity(columns, days)
    &&& bases.len() == days
    &&& forall|day: nat|
        day < days ==> day_records(
            #[trigger] day_block(records, columns, day),
            intensity(columns, day as int),
            start + day,
            bases[day as int],
            name,
            email,
        )
}

/// Whether each commit but the first is the child of the one before it.
pub open spec fn linear(records: Seq<CommitRecord>) -> bool {
    forall|i: int|
        1 <= i < records.len() ==> (#[trigger] records[i]).parent == Some(records[i - 1].id)
}

/// The tip of the reference after `records` were made upon `initial`.
pub open spec fn tip_after(records: Seq<CommitRecord>, initial: Option<Oid>) -> Option<Oid> {
    if records.len() == 0 {
        initial
    } else {
        Some(records.last().id)
    }
}

/// Whether each day began from the tip that the run had left: the commit
/// made last before the day or, before any was made, the tip that the first
/// day found. So it is where nothing but the run moves the reference.
pub open spec fn days_joined(
    records: Seq<CommitRecord>,
    bases: Seq<DayBasis>,
    columns: Seq<Column>,
) -> bool {
    forall|day: nat|
        day < bases.len() ==> (#[trigger] bases[day as int]).seed == tip_after(
            records.take(total_intensity(columns, day) as int),
            bases[0].seed,
        )
}

/// Whether no two commits have the same id.
pub open spec fn distinct_ids(records: Seq<CommitRecord>) -> bool {
    forall|i: int, j: int|
        0 <= i < j < records.len() ==> (#[trigger] records[i]).id != (#[trigger] records[j]).id
}

/// A history of `days` days and the commits and basis of the day after them
/// make the history of `days + 1` days.
pub proof fn lemma_history_grows(
    records: Seq<CommitRecord>,
    bases: Seq<DayBasis>,
    added: Seq<CommitRecord>,
    basis: DayBasis,
    columns: Seq<Column>,
    start: int,
    days: nat,
    name: Seq<char>,
    email: Seq<char>,
)
    requires
        history_records(records, bases, columns, start, days, name, email),
        day_records(added, intensity(columns, days as int), start + days, basis, name, email),
    ensures
        history_records(
            records + added,
            bases.push(basis),
            columns,
            start,
            days + 1,
            name,
            email,
        ),
{
    let grown = records + added;
    let more = bases.push(basis);
    assert forall|day: nat| day < days + 1 implies day_records(
        #[trigger] day_block(grown, columns, day),
        intensity(columns, day as int),
        start + day,
        more[day as int],
        name,
        email,
    ) by {
        if day < days {
            lemma_total_grows(columns, day + 1, days);
            assert(day_block(grown, columns, day) =~= day_block(records, columns, day));
            assert(more[day as int] == bases[day as int]);
        } else {
            assert(day_block(grown, columns, day) =~= added);
        }
    }
}

/// The day to which the `place`-th commit of the first `days` days belongs.
proof fn lemma_day_of_place(columns: Seq<Column>, days: nat, place: int) -> (day: nat)
    requires
        0 <= place < total_intensity(columns, days),
    ensures
        day < days,
        total_intensity(columns, day) <= place < total_intensity(columns, day + 1),
    decreases days,
{
    if place >= total_intensity(columns, (days - 1) as nat) {
        (days - 1) as nat
    } else {
        lemma_day_of_place(columns, (days - 1) as nat, place)
    }
}

/// Where the `place`-th commit of a history stands: in the block of the day
/// `day` to which its place belongs.
proof fn lemma_record(
    records: Seq<CommitRecord>,
    bases: Seq<DayBasis>,
    columns: Seq<Column>,
    start: int,
    days: nat,
    name: Seq<char>,
    email: Seq<char>,
    place: int,
) -> (day: nat)
    requires
        history_records(records, bases, columns, start, days, name, email),
        0 <= place < records.len(),
    ensures
        day < days,
        total_intensity(columns, day) <= place < total_intensity(columns, day + 1),
        record_at(
            records[place],
            place - total_intensity(columns, day),
            intensity(columns, day as int),
            start + day,
            bases[day as int],
            name,
            email,
        ),
        place > total_intensity(columns, day) ==> records[place].parent == Some(
            records[place - 1].id,
        ),
        place == total_intensity(columns, day) ==> records[place].parent == bases[day as int].seed,
{
    let day = lemma_day_of_place(columns, days, place);
    let first = total_intensity(columns, day) as int;
    let block = day_block(records, columns, day);
    lemma_total_grows(columns, day + 1, days);
    assert(day_records(
        block,
        intensity(columns, day as int),
        start + day,
        bases[day as int],
        name,
        email,
    ));
    assert(block[place - first] == records[place]);
    if place > first {
        assert(block[place - first - 1] == records[place - 1]);
    }
    day
}

/// A history holds as many commits as the intensities of its days add up to.
pub proof fn lemma_commit_count(
    records: Seq<CommitRecord>,
    bases: Seq<DayBasis>,
    columns: Seq<Column>,
    start: int,
    days: nat,
    name: Seq<char>,
    email: Seq<char>,
)
    requires
        history_records(records, bases, columns, start, days, name, email),
    ensures
        records.len() == total_intensity(columns, days),
{
}

/// The commits of a day are those between the totals of the days before it
/// and of the days up to it: a commit is dated on day `day` of the grid
/// exactly if its place is among them. So each day has as many commits as
/// its intensity says.
pub proof fn lemma_commits_of_day(
    records: Seq<CommitRecord>,
    bases: Seq<DayBasis>,
    columns: Seq<Column>,
    start: int,
    days: nat,
    name: Seq<char>,
    email: Seq<char>,
    day: nat,
)
    requires
        history_records(records, bases, columns, start, days, name, email),
        day < days,
    ensures
        total_intensity(columns, day + 1) - total_intensity(columns, day) == intensity(
            columns,
            day as int,
        ),
        forall|place: int|
            0 <= place < records.len() ==> ((#[trigger] records[place]).date@ == start + day
                <==> total_intensity(columns, day) <= place < total_intensity(columns, day + 1)),
{
    assert forall|place: int| 0 <= place < records.len() implies ((
    #[trigger] records[place]).date@ == start + day <==> total_intensity(columns, day) <= place
        < total_intensity(columns, day + 1)) by {
        let found = lemma_record(records, bases, columns, start, days, name, email, place);
        if found < day {
            lemma_total_grows(columns, found + 1, day);
        } else if found > day {
            lemma_total_grows(columns, day + 1, found);
        }
    }
}

/// Every commit of a history is dated at midday of its day, which is a day
/// of the grid: the time of day is the same for all, and the date of the
/// timestamp is the day that the commit stands for. Later commits are not
/// dated before earlier ones.
pub proof fn lemma_commit_times(
    records: Seq<CommitRecord>,
    bases: Seq<DayBasis>,
    columns: Seq<Column>,
    start: int,
    days: nat,
    name: Seq<char>,
    email: Seq<char>,
)
    requires
        history_records(records, bases, columns, start, days, name, email),
    ensures
        forall|i: int|
            0 <= i < records.len() ==> {
                let record = #[trigger] records[i];
                &&& start <= record.date@ < start + days
                &&& record.seconds == midday_of(record.date@)
                &&& record.offset_minutes == 0
                &&& record.seconds as int / 86_400 == record.date@
                &&& record.seconds as int % 86_400 == 43_200
            },
        forall|i: int, j: int|
            0 <= i <= j < records.len() ==> (#[trigger] records[i]).date@ <= (
            #[trigger] records[j]).date@,
{
    assert forall|i: int| 0 <= i < records.len() implies {
        let record = #[trigger] records[i];
        &&& start <= record.date@ < start + days
        &&& record.seconds == midday_of(record.date@)
        &&& record.offset_minutes == 0
        &&& record.seconds as int / 86_400 == record.date@
        &&& record.seconds as int % 86_400 == 43_200
    } by {
        let day = lemma_record(records, bases, columns, start, days, name, email, i);
    }
    assert forall|i: int, j: int| 0 <= i <= j < records.len() implies (
    #[trigger] records[i]).date@ <= (#[trigger] records[j]).date@ by {
        let earlier = lemma_record(records, bases, columns, start, days, name, email, i);
        let later = lemma_record(records, bases, columns, start, days, name, email, j);
        if earlier > later {
            lemma_total_grows(columns, later + 1, earlier);
        }
    }
}

/// All commits of a history carry the same identity, and those of one day
/// carry the tree of that day's basis.
pub proof fn lemma_commit_identity(
    records: Seq<CommitRecord>,
    bases: Seq<DayBasis>,
    columns: Seq<Column>,
    start: int,
    days: nat,
    name: Seq<char>,
    email: Seq<char>,
)
    requires
        history_records(records, bases, columns, start, days, name, email),
    ensures
        forall|i: int|
            0 <= i < records.len() ==> {
                let record = #[trigger] records[i];
                &&& record.name@ == signed_text(name)
                &&& record.email@ == signed_text(email)
                &&& start <= record.date@ < start + days
                &&& record.tree == bases[record.date@ - start].tree
            },
{
    assert forall|i: int| 0 <= i < records.len() implies {
        let record = #[trigger] records[i];
        &&& record.name@ == signed_text(name)
        &&& record.email@ == signed_text(email)
        &&& start <= record.date@ < start + days
        &&& record.tree == bases[record.date@ - start].tree
    } by {
        let day = lemma_record(records, bases, columns, start, days, name, email, i);
    }
}

/// Within a history the first commit of each day is the child of the day's
/// seed, and each other commit is the child of the commit before it.
pub proof fn lemma_days_are_chains(
    records: Seq<CommitRecord>,
    bases: Seq<DayBasis>,
    columns: Seq<Column>,
    start: int,
    days: nat,
    name: Seq<char>,
    email: Seq<char>,
)
    requires
        history_records(records, bases, columns, start, days, name, email),
    ensures
        forall|i: int|
            0 <= i < records.len() ==> {
                let record = #[trigger] records[i];
                &&& record.ordinal >= 1
                &&& start <= record.date@ < start + days
                &&& record.ordinal == 1 ==> record.parent == bases[record.date@ - start].seed
                &&& record.ordinal != 1 ==> i >= 1 && record.parent == Some(records[i - 1].id)
            },
{
    assert forall|i: int| 0 <= i < records.len() implies {
        let record = #[trigger] records[i];
        &&& record.ordinal >= 1
        &&& start <= record.date@ < start + days
        &&& record.ordinal == 1 ==> record.parent == bases[record.date@ - start].seed
        &&& record.ordinal != 1 ==> i >= 1 && record.parent == Some(records[i - 1].id)
    } by {
        let day = lemma_record(records, bases, columns, start, days, name, email, i);
    }
}

/// A history whose days are joined is one chain: its first commit is the
/// child of the tip that the first day found, if there was one, and each
/// other commit is the child of the one before it. Where no two of its
/// commits share an id, no two of them have the same parent: no commit has
/// two children.
pub proof fn lemma_joined_history_is_linear(
    records: Seq<CommitRecord>,
    bases: Seq<DayBasis>,
    columns: Seq<Column>,
    start: int,
    days: nat,
    name: Seq<char>,
    email: Seq<char>,
)
    requires
        history_records(records, bases, columns, start, days, name, email),
        days_joined(records, bases, columns),
    ensures
        linear(records),
        records.len() > 0 ==> records[0].parent == bases[0].seed,
        distinct_ids(records) ==> forall|i: int, j: int|
            1 <= i < j < records.len() ==> (#[trigger] records[i]).parent != (
            #[trigger] records[j]).parent,
{
    assert forall|i: int| 0 <= i < records.len() implies (#[trigger] records[i]).parent == (if i
        == 0 {
        bases[0].seed
    } else {
        Some(records[i - 1].id)
    }) by {
        let day = lemma_record(records, bases, columns, start, days, name, email, i);
        let first = total_intensity(columns, day) as int;
        if i == first {
            let before = records.take(first);
            assert(bases[day as int].seed == tip_after(before, bases[0].seed));
            if first > 0 {
                assert(before.last() == records[first - 1]);
            }
        }
    }
    if distinct_ids(records) {
        assert forall|i: int, j: int| 1 <= i < j < records.len() implies (
        #[trigger] records[i]).parent != (#[trigger] records[j]).parent by {
            assert(records[i].parent == Some(records[i - 1].id));
            assert(records[j].parent == Some(records[j - 1].id));
            assert(records[i - 1].id != records[j - 1].id);
        }
    }
}

} // verus!
