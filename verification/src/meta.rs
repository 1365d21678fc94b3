//! Bookkeeping for a block import that several machines share. A metadata
//! table records the ranges of blocks that have been imported. The blocks are
//! cut into batches and dealt out to the machines in turn; each machine looks
//! for the next range that is not done yet and takes the part of it that
//! falls into its own batch.
//!
//! The queries against the table are sent elsewhere. Here are the texts of
//! the queries, the reading of their answers, and every decision between two
//! of them.

use vstd::prelude::*;
use vstd::string::*;
use vstd::arithmetic::div_mod::{
    lemma_fundamental_div_mod, lemma_fundamental_div_mod_converse, lemma_mod_decreases,
};
use crate::text::{decimal_text, integer_to_string};
use std::ops::Range;

verus! {

/// The dataset that holds the metadata table.
pub const DATASET_ID: &'static str = "zilliqa";

/// The name of the metadata table within its dataset.
pub const METADATA_TABLE_ID: &'static str = "meta";

/// The full name of the metadata table of a project.
pub open spec fn table_name_of(project_id: Seq<char>) -> Seq<char> {
    project_id + "."@ + DATASET_ID@ + "."@ + METADATA_TABLE_ID@
}

/// The remainder that the machine computes for a positive divisor: it has
/// the sign of the dividend.
pub open spec fn truncated_rem(dividend: int, divisor: int) -> int
    recommends
        divisor > 0,
{
    if dividend >= 0 {
        dividend % divisor
    } else {
        -((-dividend) % divisor)
    }
}

/// A round of at least one machine with batches of at least one block
/// holds at least one block.
proof fn lemma_round_holds_a_block(batch_blks: int, nr_machines: int)
    requires
        batch_blks >= 1,
        nr_machines >= 1,
    ensures
        batch_blks * nr_machines >= 1,
{
    assert(batch_blks * nr_machines >= 1) by (nonlinear_arith)
        requires
            batch_blks >= 1,
            nr_machines >= 1,
    ;
}

/// The batch of a machine whose id is below the number of machines starts at
/// or above the start of the round and ends within it.
proof fn lemma_batch_lies_in_round(batch_blks: int, nr_machines: int, machine_id: int)
    requires
        batch_blks >= 1,
        0 <= machine_id < nr_machines,
    ensures
        machine_id * batch_blks >= 0,
        machine_id * batch_blks + batch_blks <= batch_blks * nr_machines,
{
    assert(machine_id * batch_blks >= 0 && machine_id * batch_blks + batch_blks <= batch_blks
        * nr_machines) by (nonlinear_arith)
        requires
            batch_blks >= 1,
            0 <= machine_id < nr_machines,
    ;
}

/// The remainder that the machine computes lies between zero and the
/// dividend.
proof fn lemma_truncated_rem_lies_within(dividend: int, divisor: int)
    requires
        divisor > 0,
    ensures
        dividend >= 0 ==> 0 <= truncated_rem(dividend, divisor) <= dividend,
        dividend < 0 ==> dividend <= truncated_rem(dividend, divisor) <= 0,
        -divisor < truncated_rem(dividend, divisor) < divisor,
{
    if dividend >= 0 {
        lemma_mod_decreases(dividend as nat, divisor as nat);
    } else {
        lemma_mod_decreases((-dividend) as nat, divisor as nat);
    }
}

/// What contracts say of a [`Meta`].
pub struct MetaView {
    pub nr_machines: int,
    pub nr_blks: int,
    pub batch_blks: int,
    pub machine_id: int,
    pub project_id: Seq<char>,
    pub table_name: Seq<char>,
    pub client_id: Seq<char>,
}

/// What a machine does with the next range of blocks that is not done.
#[derive(Debug, PartialEq, Eq)]
pub enum BatchStep {
    /// The range starts at or above the number of blocks: nothing is left.
    Exhausted,
    /// This part of the range falls into the machine's batch: import it.
    Take(Range<i64>),
    /// No part of the range is this machine's: look again from this block.
    Skip(i64),
}

impl MetaView {
    /// Whether the numbers describe a proper partition, in which every
    /// block belongs to the batch of exactly one machine and this machine is
    /// one of them: at least one machine, batches of at least one block,
    /// a machine id below the number of machines, a round of batches that a
    /// signed 64-bit integer can count, and room for one such round above
    /// the last block.
    pub open spec fn partitions(self) -> bool {
        &&& self.nr_machines >= 1
        &&& self.batch_blks >= 1
        &&& 0 <= self.machine_id < self.nr_machines
        &&& self.round_blks() <= i64::MAX
        &&& self.nr_blks + self.round_blks() <= i64::MAX
    }

    /// The number of blocks in one round: one batch for each machine.
    pub open spec fn round_blks(self) -> int {
        self.batch_blks * self.nr_machines
    }

    /// The first block of this machine's batch in the round that `blk`
    /// belongs to.
    pub open spec fn batch_start(self, blk: int) -> int {
        blk - truncated_rem(blk, self.round_blks()) + self.machine_id * self.batch_blks
    }

    /// Whether the machine can compute the decision for the free range
    /// `next` within its integers. A range at or above the number of blocks
    /// needs no computing. For any other, there is at least one machine and
    /// one block to a batch, and the round, the start of the machine's batch
    /// and its end can all be counted.
    pub open spec fn selects(self, next: Range<i64>) -> bool {
        next.start < self.nr_blks ==> {
            &&& self.nr_machines >= 1
            &&& self.batch_blks >= 1
            &&& self.round_blks() <= i64::MAX
            &&& i64::MIN <= self.machine_id * self.batch_blks <= i64::MAX
            &&& i64::MIN <= self.batch_start(next.start as int)
            &&& self.batch_start(next.start as int) + self.batch_blks <= i64::MAX
        }
    }

    /// The decision for the free range `next`.
    pub open spec fn batch_step(self, next: Range<i64>) -> BatchStep {
        if next.start >= self.nr_blks {
            BatchStep::Exhausted
        } else {
            let ours_start = self.batch_start(next.start as int);
            let ours_end = ours_start + self.batch_blks;
            let start = if next.start >= ours_start {
                next.start as int
            } else {
                ours_start
            };
            let end = if next.end <= ours_end {
                next.end as int
            } else {
                ours_end
            };
            if start < next.end && end > next.start {
                BatchStep::Take(Range { start: start as i64, end: end as i64 })
            } else {
                BatchStep::Skip(next.end)
            }
        }
    }
}

/// The share of one machine in an import, and the table that records it.
pub struct Meta {
    nr_machines: i64,
    nr_blks: i64,
    batch_blks: i64,
    machine_id: i64,
    project_id: String,
    table_name: String,
    client_id: String,
}

impl View for Meta {
    type V = MetaView;

    closed spec fn view(&self) -> MetaView {
        MetaView {
            nr_machines: self.nr_machines as int,
            nr_blks: self.nr_blks as int,
            batch_blks: self.batch_blks as int,
            machine_id: self.machine_id as int,
            project_id: self.project_id@,
            table_name: self.table_name@,
            client_id: self.client_id@,
        }
    }
}

impl Meta {
    /// The share of machine `machine_id` out of `nr_machines` in an import
    /// of `nr_blks` blocks in batches of `batch_blks`, recorded in the
    /// metadata table of the project under the name of the client.
    pub fn new(
        project_id: &str,
        nr_machines: i64,
        nr_blks: i64,
        batch_blks: i64,
        machine_id: i64,
        client_id: &str,
    ) -> (meta: Self)
        ensures
            meta@ == (MetaView {
                nr_machines: nr_machines as int,
                nr_blks: nr_blks as int,
                batch_blks: batch_blks as int,
                machine_id: machine_id as int,
                project_id: project_id@,
                table_name: table_name_of(project_id@),
                client_id: client_id@,
            }),
    {
        let mut table_name = String::from_str(project_id);
        table_name.append(".");
        table_name.append(DATASET_ID);
        table_name.append(".");
        table_name.append(METADATA_TABLE_ID);
        Meta {
            nr_machines,
            nr_blks,
            batch_blks,
            machine_id,
            project_id: String::from_str(project_id),
            table_name,
            client_id: String::from_str(client_id),
        }
    }

    /// The number of blocks to import.
    pub fn get_nr_blocks(&self) -> (nr_blks: i64)
        ensures
            nr_blks == self@.nr_blks,
    {
        self.nr_blks
    }

    /// The project that holds the metadata table.
    pub fn project_id(&self) -> (project_id: &str)
        ensures
            project_id@ == self@.project_id,
    {
        self.project_id.as_str()
    }

    /// The full name of the metadata table.
    pub fn table_name(&self) -> (table_name: &str)
        ensures
            table_name@ == self@.table_name,
    {
        self.table_name.as_str()
    }

    /// Whether the numbers describe a proper partition: every block belongs
    /// to the batch of exactly one machine, and this machine is one of them.
    pub fn partitions(&self) -> (fit: bool)
        ensures
            fit == self@.partitions(),
    {
        if self.nr_machines < 1 || self.batch_blks < 1 || self.machine_id < 0 || self.machine_id
            >= self.nr_machines {
            return false;
        }
        proof {
            lemma_round_holds_a_block(self.batch_blks as int, self.nr_machines as int);
        }
        match self.batch_blks.checked_mul(self.nr_machines) {
            Some(round) => self.nr_blks.checked_add(round).is_some(),
            None => false,
        }
    }

    /// Whether the machine can compute the decision for the next free range
    /// within its integers.
    pub fn selects(&self, next_range: &Range<i64>) -> (fit: bool)
        ensures
            fit == self@.selects(*next_range),
    {
        if next_range.start >= self.nr_blks {
            return true;
        }
        if self.nr_machines < 1 || self.batch_blks < 1 {
            return false;
        }
        proof {
            lemma_round_holds_a_block(self.batch_blks as int, self.nr_machines as int);
        }
        let round: i64 = match self.batch_blks.checked_mul(self.nr_machines) {
            Some(round) => round,
            None => {
                return false;
            },
        };
        let offset: i64 = match self.machine_id.checked_mul(self.batch_blks) {
            Some(offset) => offset,
            None => {
                return false;
            },
        };
        let within_round: i64 = next_range.start % round;
        proof {
            lemma_truncated_rem_lies_within(next_range.start as int, round as int);
        }
        let batch_start: i64 = next_range.start - within_round;
        match batch_start.checked_add(offset) {
            Some(ours_start) => ours_start.checked_add(self.batch_blks).is_some(),
            None => {
                assert(self.batch_blks >= 1);
                false
            },
        }
    }

    /// The decision for the next free range: nothing is left, or a part of
    /// the range is this machine's to import, or the search goes on behind
    /// the range. A part that is taken is not empty and lies within the
    /// range.
    pub fn select_batch(&self, next_range: &Range<i64>) -> (step: BatchStep)
        requires
            self@.selects(*next_range),
        ensures
            step == self@.batch_step(*next_range),
            step matches BatchStep::Take(taken) ==> next_range.start <= taken.start < taken.end
                <= next_range.end,
    {
        if next_range.start >= self.nr_blks {
            return BatchStep::Exhausted;
        }
        proof {
            lemma_round_holds_a_block(self.batch_blks as int, self.nr_machines as int);
        }
        let round: i64 = self.batch_blks * self.nr_machines;
        let within_round: i64 = next_range.start % round;
        proof {
            lemma_truncated_rem_lies_within(next_range.start as int, round as int);
        }
        let batch_start: i64 = next_range.start - within_round;
        let our_next_batch_start: i64 = batch_start + self.machine_id * self.batch_blks;
        let our_next_batch_end: i64 = our_next_batch_start + self.batch_blks;
        let start_range: i64 = if next_range.start >= our_next_batch_start {
            next_range.start
        } else {
            our_next_batch_start
        };
        let end_range: i64 = if next_range.end <= our_next_batch_end {
            next_range.end
        } else {
            our_next_batch_end
        };
        if start_range < next_range.end && end_range > next_range.start {
            BatchStep::Take(Range { start: start_range, end: end_range })
        } else {
            BatchStep::Skip(next_range.end)
        }
    }
}

/// A proper partition can decide on every free range: where the machine's
/// id is below the number of machines and there is room for one round above
/// the last block, no start or end of a batch leaves the integers.
pub proof fn lemma_partition_selects(meta: MetaView, next: Range<i64>)
    requires
        meta.partitions(),
    ensures
        meta.selects(next),
{
    if next.start < meta.nr_blks {
        lemma_batch_lies_in_round(meta.batch_blks, meta.nr_machines, meta.machine_id);
        lemma_truncated_rem_lies_within(next.start as int, meta.round_blks());
    }
}

/// The kind of values that a column of the metadata table holds.
#[derive(Clone, Copy, Debug, PartialEq, Eq, Structural)]
pub enum ColumnKind {
    Text,
    DateTime,
    Integer,
}

/// A column of the metadata table.
#[derive(Debug, PartialEq, Eq)]
pub struct Column {
    pub name: &'static str,
    pub kind: ColumnKind,
}

/// The columns of the metadata table, in order: who recorded the run, when,
/// its first block and its number of blocks.
pub open spec fn metadata_columns_spec() -> Seq<(Seq<char>, ColumnKind)> {
    seq![
        ("client_id"@, ColumnKind::Text),
        ("event_stamp"@, ColumnKind::DateTime),
        ("start_blk"@, ColumnKind::Integer),
        ("nr_blks"@, ColumnKind::Integer),
    ]
}

/// The columns with which the metadata table is created.
pub fn metadata_columns() -> (columns: Vec<Column>)
    ensures
        columns@.len() == metadata_columns_spec().len(),
        forall|i: int|
            0 <= i < columns@.len() ==> (#[trigger] columns@[i].name@, columns@[i].kind)
                == metadata_columns_spec()[i],
{
    let mut columns = Vec::new();
    columns.push(Column { name: "client_id", kind: ColumnKind::Text });
    columns.push(Column { name: "event_stamp", kind: ColumnKind::DateTime });
    columns.push(Column { name: "start_blk", kind: ColumnKind::Integer });
    columns.push(Column { name: "nr_blks", kind: ColumnKind::Integer });
    columns
}

/// The text of the query for the first run of done blocks that starts at or
/// above a block: the earliest start, and the longest run among those.
pub open spec fn gap_query_text(table_name: Seq<char>, blk_to_find: int) -> Seq<char> {
    "SELECT start_blk, nr_blks FROM "@ + table_name + " WHERE start_blk >= "@ + decimal_text(
        blk_to_find,
    ) + " AND nr_blks > 0  ORDER BY start_blk ASC, nr_blks DESC LIMIT 1"@
}

/// The text of the statement that records a run of done blocks under the
/// name of a client.
pub open spec fn commit_query_text(
    table_name: Seq<char>,
    client_id: Seq<char>,
    start_blk: int,
    nr_blks: int,
) -> Seq<char> {
    "INSERT INTO "@ + table_name + " (client_id, event_stamp, start_blk, nr_blks) VALUES (\""@
        + client_id + "\",CURRENT_DATETIME(), "@ + decimal_text(start_blk) + ", "@ + decimal_text(
        nr_blks,
    ) + ")"@
}

/// Why a row of the metadata table could not be read as a run of blocks.
#[derive(Clone, Copy, Debug, PartialEq, Eq, Structural)]
pub enum MetaError {
    /// The row holds no start block.
    NoStartValue,
    /// The row holds no number of blocks.
    NoEndValue,
}

impl MetaError {
    /// The message of the error.
    pub open spec fn message_text(self) -> Seq<char> {
        match self {
            MetaError::NoStartValue => "No start value in range read"@,
            MetaError::NoEndValue => "No end value in range read"@,
        }
    }

    /// The message of the error.
    pub fn message(&self) -> (text: String)
        ensures
            text@ == self.message_text(),
    {
        match self {
            MetaError::NoStartValue => String::from_str("No start value in range read"),
            MetaError::NoEndValue => String::from_str("No end value in range read"),
        }
    }
}

/// The run of blocks that a row of the metadata table stands for, by its two
/// columns: it starts at the start block and holds the number of blocks.
pub open spec fn run_of_row(start_blk: Option<i64>, nr_blks: Option<i64>) -> Result<
    Range<i64>,
    MetaError,
> {
    match (start_blk, nr_blks) {
        (None, _) => Err(MetaError::NoStartValue),
        (Some(_), None) => Err(MetaError::NoEndValue),
        (Some(start), Some(nr)) => Ok(Range { start, end: (start + nr) as i64 }),
    }
}

/// Reads the two columns of a row as a run of blocks. A missing start block
/// is reported before a missing number of blocks.
pub fn gap_from_row(start_blk: Option<i64>, nr_blks: Option<i64>) -> (run: Result<
    Range<i64>,
    MetaError,
>)
    requires
        start_blk is Some && nr_blks is Some ==> i64::MIN <= start_blk->Some_0 + nr_blks->Some_0
            <= i64::MAX,
    ensures
        run == run_of_row(start_blk, nr_blks),
{
    match start_blk {
        None => Err(MetaError::NoStartValue),
        Some(start) => match nr_blks {
            None => Err(MetaError::NoEndValue),
            Some(nr) => Ok(Range { start, end: start + nr }),
        },
    }
}

impl Meta {
    /// The query for the first run of done blocks at or above `blk_to_find`.
    pub fn gap_query(&self, blk_to_find: i64) -> (query: String)
        ensures
            query@ == gap_query_text(self@.table_name, blk_to_find as int),
    {
        let mut query = String::from_str("SELECT start_blk, nr_blks FROM ");
        query.append(self.table_name.as_str());
        query.append(" WHERE start_blk >= ");
        query.append(integer_to_string(blk_to_find).as_str());
        query.append(" AND nr_blks > 0  ORDER BY start_blk ASC, nr_blks DESC LIMIT 1");
        query
    }

    /// The statement that records `range` as done by this client.
    pub fn commit_query(&self, range: &Range<i64>) -> (query: String)
        requires
            i64::MIN <= range.end - range.start <= i64::MAX,
        ensures
            query@ == commit_query_text(
                self@.table_name,
                self@.client_id,
                range.start as int,
                range.end - range.start,
            ),
    {
        let mut query = String::from_str("INSERT INTO ");
        query.append(self.table_name.as_str());
        query.append(" (client_id, event_stamp, start_blk, nr_blks) VALUES (\"");
        query.append(self.client_id.as_str());
        query.append("\",CURRENT_DATETIME(), ");
        query.append(integer_to_string(range.start).as_str());
        query.append(", ");
        query.append(integer_to_string(range.end - range.start).as_str());
        query.append(")");
        query
    }
}

/// What contracts say of a [`FreeRangeScan`].
pub struct ScanView {
    pub start_at: i64,
    pub max_blk: i64,
    pub current_run: Option<Range<i64>>,
    pub should_commit: bool,
}

impl ScanView {
    /// The block from which the next run of done blocks is looked for: the
    /// end of the run found so far, or the start of the scan.
    pub open spec fn blk_to_find(self) -> i64 {
        match self.current_run {
            Some(run) => run.end,
            None => self.start_at,
        }
    }

    /// The free range, where the answer `found` ends the scan.
    pub open spec fn free_range(self, found: Option<Range<i64>>) -> Option<Range<i64>> {
        match (found, self.current_run) {
            (None, _) => Some(
                Range { start: self.blk_to_find(), end: (self.max_blk + 1) as i64 },
            ),
            (Some(have_run), Some(run)) => if run.end == have_run.start {
                None
            } else {
                Some(Range { start: run.end, end: have_run.start })
            },
            (Some(have_run), None) => if have_run.start > self.start_at {
                Some(Range { start: self.start_at, end: have_run.start })
            } else {
                None
            },
        }
    }

    /// The scan after the answer `found`. A run that continues the run
    /// found so far is merged into it, and the merged run is to be recorded.
    pub open spec fn after(self, found: Option<Range<i64>>) -> ScanView {
        match (found, self.current_run) {
            (None, _) => self,
            (Some(have_run), Some(run)) => if run.end == have_run.start {
                ScanView {
                    current_run: Some(Range { start: run.start, end: have_run.end }),
                    should_commit: true,
                    ..self
                }
            } else {
                self
            },
            (Some(have_run), None) => ScanView {
                current_run: Some(have_run),
                should_commit: false,
                ..self
            },
        }
    }

    /// The merged run that is to be recorded when the scan has ended.
    pub open spec fn run_to_commit(self) -> Option<Range<i64>> {
        if self.should_commit {
            self.current_run
        } else {
            None
        }
    }

    /// Whether the scan is in a state that its own steps lead to: the run
    /// found so far, if there is one, is not empty and starts where the scan
    /// started, and nothing is to be recorded while no run has been found.
    pub open spec fn coherent(self) -> bool {
        match self.current_run {
            Some(run) => run.start == self.start_at && run.start < run.end,
            None => !self.should_commit,
        }
    }

    /// Whether `found` is an answer that the query of this scan can give: a
    /// run, if any, that is not empty and starts at or above the block asked
    /// for.
    pub open spec fn answers(self, found: Option<Range<i64>>) -> bool {
        found matches Some(have_run) ==> self.blk_to_find() <= have_run.start < have_run.end
    }
}

/// The search for the next range of blocks that is not done, from a start
/// block up to and including a last block. It asks for the first run of done
/// blocks at or above a block, merges the runs that follow one another
/// without a gap, and ends at the first gap.
pub struct FreeRangeScan {
    start_at: i64,
    max_blk: i64,
    current_run: Option<Range<i64>>,
    should_commit: bool,
}

impl View for FreeRangeScan {
    type V = ScanView;

    closed spec fn view(&self) -> ScanView {
        ScanView {
            start_at: self.start_at,
            max_blk: self.max_blk,
            current_run: self.current_run,
            should_commit: self.should_commit,
        }
    }
}

impl FreeRangeScan {
    /// A scan from `start_at` up to and including `max_blk`, with no run
    /// found yet.
    pub fn new(start_at: i64, max_blk: i64) -> (scan: Self)
        ensures
            scan@ == (ScanView {
                start_at,
                max_blk,
                current_run: None,
                should_commit: false,
            }),
    {
        FreeRangeScan { start_at, max_blk, current_run: None, should_commit: false }
    }

    /// The block to ask for next.
    pub fn blk_to_find(&self) -> (blk: i64)
        ensures
            blk == self@.blk_to_find(),
    {
        match &self.current_run {
            Some(run) => run.end,
            None => self.start_at,
        }
    }

    /// Takes the answer to the query for [`Self::blk_to_find`]: the first
    /// run of done blocks at or above that block, or none. Gives the free
    /// range if the answer ends the scan, and none if the scan has to ask
    /// again.
    pub fn feed(&mut self, found: Option<Range<i64>>) -> (free: Option<Range<i64>>)
        requires
            found is None ==> old(self)@.max_blk < i64::MAX,
        ensures
            free == old(self)@.free_range(found),
            final(self)@ == old(self)@.after(found),
    {
        let blk_to_find = self.blk_to_find();
        match found {
            None => Some(Range { start: blk_to_find, end: self.max_blk + 1 }),
            Some(have_run) => {
                let merged = match &self.current_run {
                    Some(run) => Some((run.start, run.end)),
                    None => None,
                };
                match merged {
                    Some((run_start, run_end)) => {
                        if run_end == have_run.start {
                            self.current_run = Some(Range { start: run_start, end: have_run.end });
                            self.should_commit = true;
                            None
                        } else {
                            Some(Range { start: run_end, end: have_run.start })
                        }
                    },
                    None => {
                        let free = if have_run.start > self.start_at {
                            Some(Range { start: self.start_at, end: have_run.start })
                        } else {
                            None
                        };
                        self.current_run = Some(have_run);
                        self.should_commit = false;
                        free
                    },
                }
            },
        }
    }

    /// The merged run to record once the scan has ended, if runs were
    /// merged.
    pub fn run_to_commit(&self) -> (run: Option<Range<i64>>)
        ensures
            run == self@.run_to_commit(),
    {
        if self.should_commit {
            match &self.current_run {
                Some(run) => Some(Range { start: run.start, end: run.end }),
                None => None,
            }
        } else {
            None
        }
    }
}

/// A scan that is fed the answers of its own queries makes progress and
/// ends at the first gap. The block to ask for is never below the start of
/// the scan. An answer that does not end the scan leaves it coherent and
/// moves the block to ask for upwards. The free range that ends the scan
/// starts at the block that was asked for; where a run was found above it,
/// the range is not empty and ends where that run starts; and the run that
/// is then to be recorded, if any, reaches from the start of the scan to the
/// start of the free range.
pub proof fn lemma_scan_finds_first_gap(scan: ScanView, found: Option<Range<i64>>)
    requires
        scan.coherent(),
        scan.answers(found),
    ensures
        scan.blk_to_find() >= scan.start_at,
        scan.free_range(found) is None ==> scan.after(found).coherent() && scan.after(
            found,
        ).blk_to_find() > scan.blk_to_find(),
        scan.free_range(found) matches Some(free) ==> {
            &&& free.start == scan.blk_to_find()
            &&& found matches Some(have_run) ==> free.start < free.end == have_run.start
            &&& scan.after(found).run_to_commit() matches Some(run) ==> run.start == scan.start_at
                && run.end == free.start
        },
{
}

/// The scan after a run of answers, fed oldest first.
pub open spec fn scan_after(scan: ScanView, answers: Seq<Option<Range<i64>>>) -> ScanView
    decreases answers.len(),
{
    if answers.len() == 0 {
        scan
    } else {
        scan_after(scan, answers.drop_last()).after(answers.last())
    }
}

/// Whether each of the answers is one that the query of the scan can give
/// at its turn, and none of them ends the scan.
pub open spec fn answers_in_turn(scan: ScanView, answers: Seq<Option<Range<i64>>>) -> bool {
    forall|i: int|
        0 <= i < answers.len() ==> {
            &&& (#[trigger] scan_after(scan, answers.subrange(0, i))).answers(answers[i])
            &&& scan_after(scan, answers.subrange(0, i)).free_range(answers[i]) is None
        }
}

/// Whether an answer is a run that holds the block.
pub open spec fn covers(answer: Option<Range<i64>>, blk: int) -> bool {
    answer matches Some(run) && run.start <= blk < run.end
}

/// Whether a block lies in one of the runs that were answered.
pub open spec fn answered(answers: Seq<Option<Range<i64>>>, blk: int) -> bool {
    exists|i: int|
        0 <= i < answers.len() && covers(#[trigger] answers[i], blk)
}

/// A scan passes over done blocks only. After any run of answers that were
/// given in turn and did not end the scan, the scan is coherent, it asks at
/// or above its start, and every block from its start up to the block it
/// asks for lies in a run that was answered; where it has moved on at all,
/// the run it has found reaches from its start to the block it asks for.
/// With [`lemma_scan_finds_first_gap`]: the free range that the next answer
/// ends the scan with starts right above blocks that are all done.
pub proof fn lemma_scan_passes_done_blocks(
    start_at: i64,
    max_blk: i64,
    answers: Seq<Option<Range<i64>>>,
)
    requires
        answers_in_turn(
            ScanView { start_at, max_blk, current_run: None, should_commit: false },
            answers,
        ),
    ensures
        ({
            let scan = scan_after(
                ScanView { start_at, max_blk, current_run: None, should_commit: false },
                answers,
            );
            &&& scan.coherent()
            &&& scan.start_at == start_at
            &&& scan.max_blk == max_blk
            &&& scan.blk_to_find() >= start_at
            &&& answers.len() > 0 ==> scan.current_run == Some(
                Range { start: start_at, end: scan.blk_to_find() },
            )
            &&& forall|blk: int| start_at <= blk < scan.blk_to_find() ==> answered(answers, blk)
        }),
    decreases answers.len(),
{
    let fresh = ScanView { start_at, max_blk, current_run: None, should_commit: false };
    if answers.len() > 0 {
        let earlier = answers.drop_last();
        let last = answers.last();
        assert forall|i: int| 0 <= i < earlier.len() implies {
            &&& (#[trigger] scan_after(fresh, earlier.subrange(0, i))).answers(earlier[i])
            &&& scan_after(fresh, earlier.subrange(0, i)).free_range(earlier[i]) is None
        } by {
            assert(earlier.subrange(0, i) =~= answers.subrange(0, i));
            assert(scan_after(fresh, answers.subrange(0, i)).answers(answers[i]));
        }
        lemma_scan_passes_done_blocks(start_at, max_blk, earlier);
        let before = scan_after(fresh, earlier);
        assert(answers.subrange(0, answers.len() - 1) =~= earlier);
        assert(scan_after(fresh, answers.subrange(0, answers.len() - 1)).answers(
            answers[answers.len() - 1],
        ));
        lemma_scan_finds_first_gap(before, last);
        let scan = before.after(last);
        assert forall|blk: int| start_at <= blk < scan.blk_to_find() implies answered(
            answers,
            blk,
        ) by {
            if blk < before.blk_to_find() {
                assert(answered(earlier, blk));
                let i = choose|i: int| 0 <= i < earlier.len() && covers(#[trigger] earlier[i], blk);
                assert(covers(answers[i], blk));
            } else {
                assert(covers(answers[answers.len() - 1], blk));
            }
        }
    }
}

/// The batches are dealt out in turn: every block of a range that a machine
/// takes lies in a batch whose number, counted from block 0, leaves the
/// machine's id when divided by the number of machines. This is stated for
/// free ranges that start at block 0 or above.
pub proof fn lemma_taken_blocks_are_own(meta: MetaView, next: Range<i64>, blk: int)
    requires
        meta.partitions(),
        next.start >= 0,
        meta.batch_step(next) matches BatchStep::Take(taken) && taken.start <= blk < taken.end,
    ensures
        (blk / meta.batch_blks) % meta.nr_machines == meta.machine_id,
{
    let round = meta.round_blks();
    let rounds = next.start as int / round;
    let ours_start = meta.batch_start(next.start as int);
    let offset = blk - ours_start;
    lemma_batch_lies_in_round(meta.batch_blks, meta.nr_machines, meta.machine_id);
    lemma_fundamental_div_mod(next.start as int, round);
    lemma_truncated_rem_lies_within(next.start as int, round);
    assert(ours_start == round * rounds + meta.machine_id * meta.batch_blks);
    assert(0 <= offset < meta.batch_blks);
    let batch = meta.nr_machines * rounds + meta.machine_id;
    assert(blk == batch * meta.batch_blks + offset) by (nonlinear_arith)
        requires
            blk == round * rounds + meta.machine_id * meta.batch_blks + offset,
            round == meta.batch_blks * meta.nr_machines,
            batch == meta.nr_machines * rounds + meta.machine_id,
    ;
    lemma_fundamental_div_mod_converse(blk, meta.batch_blks, batch, offset);
    assert(batch == rounds * meta.nr_machines + meta.machine_id) by (nonlinear_arith)
        requires
            batch == meta.nr_machines * rounds + meta.machine_id,
    ;
    lemma_fundamental_div_mod_converse(batch, meta.nr_machines, rounds, meta.machine_id);
}

} // verus!
