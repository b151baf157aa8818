//! Builds the commit history: for each day of the grid as many commits as the
//! day's intensity says, each the child of the one before it, all dated at
//! midday of their day.

use vstd::prelude::*;
use vstd::string::StringExecFns;
use git2::{Commit, Oid, Signature, Tree};
use crate::calendar::{midday_of, Date, DateRange, GRID_DAYS, UTC_OFFSET_MINUTES};
use crate::error::{DrawError, InputFault, InternalFault, RepositoryStep};
use crate::history::{
    day_records, history_records, lemma_history_grows, record_at, CommitRecord, DayBasis,
    DrawnDay, History,
};
use crate::repository::{
    commit_id, commit_oid, create_commit, email_signed, find_commit, find_reference, find_tree,
    name_signed, open_index, peel_to_commit, reference_or_none, repository_error, signature_at,
    signature_email, signature_name, signature_when, signed_text, tip_or_none, tree_id, tree_oid,
    when_signed, write_tree, CommitOrder, GitInfo,
};
use crate::text::{
    civil_date_text, commit_message, day_progress_line, percent_complete, percent_of_grid,
    progress_text,
};
use crate::tiler::{intensity, total_intensity, Column, PatternTiler};

verus! {

/// The id of the commit that an order names as parent, if it names one.
pub open spec fn parent_of(order: CommitOrder<'_, '_>) -> Option<Oid> {
    match order.parent {
        Some(commit) => Some(commit_oid(*commit)),
        None => None,
    }
}

/// The record of a commit, read from the order that was handed to the
/// repository for it and from the id that the repository gave it.
fn record_of(order: &CommitOrder<'_, '_>, id: Oid, date: Date, ordinal: u8, total: u8) -> (r:
    CommitRecord)
    requires
        signature_name(*order.signature) is Some,
        signature_email(*order.signature) is Some,
    ensures
        r.id == id,
        r.parent == parent_of(*order),
        r.tree == tree_oid(*order.tree),
        Some(r.name@) == signature_name(*order.signature),
        Some(r.email@) == signature_email(*order.signature),
        (r.seconds, r.offset_minutes) == signature_when(*order.signature),
        r.message@ == order.message@,
        r.date == date,
        r.ordinal == ordinal,
        r.total == total,
{
    let parent = match order.parent {
        Some(commit) => Some(commit_id(commit)),
        None => None,
    };
    let (seconds, offset_minutes) = when_signed(order.signature);
    CommitRecord {
        id,
        parent,
        tree: tree_id(order.tree),
        name: name_signed(order.signature).unwrap(),
        email: email_signed(order.signature).unwrap(),
        date,
        seconds,
        offset_minutes,
        ordinal,
        total,
        message: String::from_str(order.message),
    }
}

/// Draws one day: appends `pixel` commits to the reference, each signed by
/// the given name and email at midday of `date`, each with the tree that the
/// index gives, and each the child of the one before it; the first is the
/// child of the reference's tip, if it has one.
pub fn draw_pixel(git: &GitInfo, pixel: u8, date: Date) -> (r: Result<DrawnDay, DrawError>)
    ensures
        match r {
            Ok(day) => day_records(day.commits@, pixel, date@, day.basis, git.name@, git.email@),
            Err(e) => e is RepositoryError,
        },
{
    let signature: Signature<'static> = match signature_at(
        git.name.as_str(),
        git.email.as_str(),
        date.midday_seconds(),
        UTC_OFFSET_MINUTES,
    ) {
        Ok(signature) => signature,
        Err(failure) => {
            return Err(repository_error(RepositoryStep::Signature, &failure));
        },
    };
    let mut index = match open_index(&git.repo) {
        Ok(index) => index,
        Err(failure) => {
            return Err(repository_error(RepositoryStep::Index, &failure));
        },
    };
    let written = match write_tree(&mut index) {
        Ok(id) => id,
        Err(failure) => {
            return Err(repository_error(RepositoryStep::WriteTree, &failure));
        },
    };
    let tree: Tree<'_> = match find_tree(&git.repo, written) {
        Ok(tree) => tree,
        Err(failure) => {
            return Err(repository_error(RepositoryStep::FindTree, &failure));
        },
    };
    let reference = match reference_or_none(find_reference(&git.repo, git.reference.as_str())) {
        Ok(reference) => reference,
        Err(e) => {
            return Err(e);
        },
    };
    let mut parent: Option<Commit<'_>> = match reference {
        Some(reference) => tip_or_none(peel_to_commit(&reference)),
        None => None,
    };
    let seed: Option<Oid> = match &parent {
        Some(commit) => Some(commit_id(commit)),
        None => None,
    };
    let basis = DayBasis { seed, tree: written };
    let mut commits: Vec<CommitRecord> = Vec::new();
    let mut made: u8 = 0;
    while made < pixel
        invariant
            made <= pixel,
            basis.seed == seed,
            basis.tree == written,
            signature_when(signature) == (midday_of(date@) as i64, 0i32),
            signature_name(signature) == Some(signed_text(git.name@)),
            signature_email(signature) == Some(signed_text(git.email@)),
            tree_oid(tree) == written,
            commits@.len() == made,
            forall|k: int|
                0 <= k < commits@.len() ==> record_at(
                    #[trigger] commits@[k],
                    k,
                    pixel,
                    date@,
                    basis,
                    git.name@,
                    git.email@,
                ),
            forall|k: int|
                1 <= k < commits@.len() ==> (#[trigger] commits@[k]).parent == Some(
                    commits@[k - 1].id,
                ),
            made > 0 ==> commits@[0].parent == seed,
            match parent {
                Some(commit) => Some(commit_oid(commit)),
                None => None,
            } == if made == 0 {
                seed
            } else {
                Some(commits@[made - 1].id)
            },
        decreases pixel - made,
    {
        let ordinal: u8 = made + 1;
        let message = commit_message(ordinal, pixel);
        let order = CommitOrder {
            signature: &signature,
            message: message.as_str(),
            tree: &tree,
            parent: parent.as_ref(),
        };
        let id = match create_commit(&git.repo, git.reference.as_str(), &order) {
            Ok(id) => id,
            Err(failure) => {
                return Err(repository_error(RepositoryStep::Commit, &failure));
            },
        };
        let record = record_of(&order, id, date, ordinal, pixel);
        let commit = match find_commit(&git.repo, id) {
            Ok(commit) => commit,
            Err(failure) => {
                return Err(repository_error(RepositoryStep::FindCommit, &failure));
            },
        };
        commits.push(record);
        parent = Some(commit);
        made = ordinal;
    }
    Ok(DrawnDay { basis, commits })
}

/// What is reported of a day once it is drawn.
#[derive(Debug, Clone, Copy, PartialEq, Eq, Structural)]
pub struct DayProgress {
    pub date: Date,
    /// How many days of the grid lie before this one.
    pub elapsed: u32,
    /// The share of the grid that lies before this day, in percent.
    pub percent: u8,
    /// The intensity of the day: the number of commits it got.
    pub pixel: u8,
}

impl DayProgress {
    /// The progress line of the day.
    pub fn line(&self) -> (r: Result<String, DrawError>)
        ensures
            match r {
                Ok(line) => civil_date_text(self.date@) matches Some(text) && line@
                    == progress_text(self.percent as nat, text),
                Err(e) => civil_date_text(self.date@) is None && e == DrawError::InternalError(
                    InternalFault::DateUnprintable,
                ),
            },
    {
        day_progress_line(self.percent, self.date)
    }
}

/// A run over the grid, day by day, into one repository.
pub struct HistoryBuilder<'a> {
    git: &'a GitInfo,
    tiler: PatternTiler<'a>,
    range: DateRange,
    elapsed: u32,
    commits: Vec<CommitRecord>,
    bases: Vec<DayBasis>,
}

impl<'a> HistoryBuilder<'a> {
    /// What holds of a builder between two days.
    pub closed spec fn well_formed(&self) -> bool {
        &&& self.elapsed <= 371
        &&& self.tiler.position() == self.elapsed
        &&& history_records(
            self.commits@,
            self.bases@,
            self.tiler.columns(),
            self.range.start_day(),
            self.elapsed as nat,
            self.git.name@,
            self.git.email@,
        )
    }

    pub closed spec fn git(&self) -> &GitInfo {
        self.git
    }

    pub closed spec fn columns(&self) -> Seq<Column> {
        self.tiler.columns()
    }

    pub closed spec fn range(&self) -> DateRange {
        self.range
    }

    /// How many days are drawn.
    pub closed spec fn elapsed(&self) -> nat {
        self.elapsed as nat
    }

    /// The commits made so far.
    pub closed spec fn records(&self) -> Seq<CommitRecord> {
        self.commits@
    }

    /// What each day drawn so far was built upon.
    pub closed spec fn day_bases(&self) -> Seq<DayBasis> {
        self.bases@
    }

    /// What a well-formed builder holds: the history of the days drawn.
    pub proof fn lemma_well_formed(&self)
        requires
            self.well_formed(),
        ensures
            self.elapsed() <= 371,
            history_records(
                self.records(),
                self.day_bases(),
                self.columns(),
                self.range().start_day(),
                self.elapsed(),
                self.git().name@,
                self.git().email@,
            ),
    {
    }

    /// A run into `git` over `range` that draws the stream of `columns`,
    /// before its first day.
    pub fn new(git: &'a GitInfo, columns: &'a [Column], range: DateRange) -> (r: Result<
        HistoryBuilder<'a>,
        DrawError,
    >)
        ensures
            match r {
                Ok(run) => {
                    &&& columns@.len() > 0
                    &&& run.well_formed()
                    &&& run.git() == git
                    &&& run.columns() == columns@
                    &&& run.range() == range
                    &&& run.elapsed() == 0
                    &&& run.records().len() == 0
                    &&& run.day_bases().len() == 0
                },
                Err(e) => columns@.len() == 0 && e == DrawError::InvalidInput(
                    InputFault::NoColumns,
                ),
            },
    {
        match PatternTiler::new(columns) {
            Ok(tiler) => Ok(
                HistoryBuilder {
                    git,
                    tiler,
                    range,
                    elapsed: 0,
                    commits: Vec::new(),
                    bases: Vec::new(),
                },
            ),
            Err(e) => Err(e),
        }
    }

    /// Whether every day of the grid is drawn.
    pub fn is_finished(&self) -> (r: bool)
        ensures
            r == (self.elapsed() >= 371),
    {
        self.elapsed >= GRID_DAYS
    }

    /// Draws the next day of the grid, if one is left, and reports it. A
    /// failure of the repository leaves the builder as it was.
    pub fn draw_next_day(&mut self) -> (r: Result<Option<DayProgress>, DrawError>)
        requires
            old(self).well_formed(),
        ensures
            final(self).well_formed(),
            final(self).git() == old(self).git(),
            final(self).columns() == old(self).columns(),
            final(self).range() == old(self).range(),
            match r {
                Ok(Some(progress)) => {
                    &&& old(self).elapsed() < 371
                    &&& final(self).elapsed() == old(self).elapsed() + 1
                    &&& progress.elapsed == old(self).elapsed()
                    &&& progress.date@ == old(self).range().start_day() + old(self).elapsed()
                    &&& progress.percent == percent_of_grid(old(self).elapsed() as int)
                    &&& progress.pixel == intensity(
                        old(self).columns(),
                        old(self).elapsed() as int,
                    )
                    &&& final(self).records().len() == old(self).records().len() + progress.pixel
                    &&& final(self).records().take(old(self).records().len() as int) == old(
                        self,
                    ).records()
                    &&& final(self).day_bases().drop_last() == old(self).day_bases()
                    &&& day_records(
                        final(self).records().skip(old(self).records().len() as int),
                        progress.pixel,
                        progress.date@,
                        final(self).day_bases().last(),
                        old(self).git().name@,
                        old(self).git().email@,
                    )
                },
                Ok(None) => {
                    &&& old(self).elapsed() == 371
                    &&& final(self).elapsed() == 371
                    &&& final(self).records() == old(self).records()
                    &&& final(self).day_bases() == old(self).day_bases()
                },
                Err(e) => {
                    &&& e is RepositoryError
                    &&& old(self).elapsed() < 371
                    &&& final(self).elapsed() == old(self).elapsed()
                    &&& final(self).records() == old(self).records()
                    &&& final(self).day_bases() == old(self).day_bases()
                },
            },
    {
        if self.elapsed >= GRID_DAYS {
            return Ok(None);
        }
        let elapsed = self.elapsed;
        let date = self.range.day(elapsed);
        let pixel = self.tiler.peek();
        let mut drawn = match draw_pixel(self.git, pixel, date) {
            Ok(drawn) => drawn,
            Err(e) => {
                return Err(e);
            },
        };
        let ghost before = self.commits@;
        let ghost bases = self.bases@;
        let ghost added = drawn.commits@;
        let _ = self.tiler.next();
        self.commits.append(&mut drawn.commits);
        self.bases.push(drawn.basis);
        self.elapsed = elapsed + 1;
        proof {
            lemma_history_grows(
                before,
                bases,
                added,
                drawn.basis,
                self.tiler.columns(),
                self.range.start_day(),
                elapsed as nat,
                self.git.name@,
                self.git.email@,
            );
            assert((before + added).take(before.len() as int) =~= before);
            assert((before + added).skip(before.len() as int) =~= added);
            assert(bases.push(drawn.basis).drop_last() =~= bases);
        }
        Ok(Some(DayProgress { date, elapsed, percent: percent_complete(elapsed), pixel }))
    }

    /// The commits made so far, in the order in which they were made.
    pub fn commits(&self) -> (r: &Vec<CommitRecord>)
        ensures
            r@ == self.records(),
    {
        &self.commits
    }

    /// What each day drawn so far was built upon, day after day.
    pub fn bases(&self) -> (r: &Vec<DayBasis>)
        ensures
            r@ == self.day_bases(),
    {
        &self.bases
    }

    /// Ends the run and hands out its history.
    pub fn finish(self) -> (r: History)
        ensures
            r.commits@ == self.records(),
            r.bases@ == self.day_bases(),
    {
        History { commits: self.commits, bases: self.bases }
    }
}

/// Draws the whole grid: for each day of `range`, in order, as many commits
/// as the stream of `columns` says for it.
pub fn draw_repeating_pattern(git: &GitInfo, columns: &[Column], range: DateRange) -> (r: Result<
    History,
    DrawError,
>)
    ensures
        match r {
            Ok(history) => {
                &&& columns@.len() > 0
                &&& history_records(
                    history.commits@,
                    history.bases@,
                    columns@,
                    range.start_day(),
                    371,
                    git.name@,
                    git.email@,
                )
                &&& history.commits@.len() == total_intensity(columns@, 371)
            },
            Err(e) => if columns@.len() == 0 {
                e == DrawError::InvalidInput(InputFault::NoColumns)
            } else {
                e is RepositoryError
            },
        },
{
    let mut run = match HistoryBuilder::new(git, columns, range) {
        Ok(run) => run,
        Err(e) => {
            return Err(e);
        },
    };
    while !run.is_finished()
        invariant
            run.well_formed(),
            run.git() == git,
            run.columns() == columns@,
            run.range() == range,
            columns@.len() > 0,
        decreases 371 - run.elapsed(),
    {
        match run.draw_next_day() {
            Ok(_) => {},
            Err(e) => {
                return Err(e);
            },
        }
    }
    proof {
        run.lemma_well_formed();
    }
    Ok(run.finish())
}

} // verus!
