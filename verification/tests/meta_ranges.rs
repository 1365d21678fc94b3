use evm_ds::meta::{
    gap_from_row, metadata_columns, BatchStep, ColumnKind, FreeRangeScan, Meta, MetaError,
    DATASET_ID, METADATA_TABLE_ID,
};
use std::ops::Range;

fn second_of_three() -> Meta {
    Meta::new("prj", 3, 1000, 10, 1, "importer-1")
}

fn taken(meta: &Meta, next: Range<i64>) -> Option<Range<i64>> {
    assert!(meta.selects(&next));
    match meta.select_batch(&next) {
        BatchStep::Take(range) => Some(range),
        _ => None,
    }
}

#[test]
fn table_name_joins_project_dataset_and_table() {
    let meta = second_of_three();
    assert_eq!(DATASET_ID, "zilliqa");
    assert_eq!(METADATA_TABLE_ID, "meta");
    assert_eq!(meta.table_name(), "prj.zilliqa.meta");
    assert_eq!(meta.project_id(), "prj");
    assert_eq!(Meta::new("", 1, 1, 1, 0, "").table_name(), ".zilliqa.meta");
}

#[test]
fn nr_blocks_is_what_was_given() {
    assert_eq!(second_of_three().get_nr_blocks(), 1000);
    assert_eq!(Meta::new("p", 1, -4, 1, 0, "c").get_nr_blocks(), -4);
}

#[test]
fn partitions_needs_machines_batches_and_room() {
    assert!(second_of_three().partitions());
    assert!(Meta::new("p", 1, 0, 1, 0, "c").partitions());
    assert!(!Meta::new("p", 0, 100, 10, 0, "c").partitions());
    assert!(!Meta::new("p", 3, 100, 0, 0, "c").partitions());
    assert!(!Meta::new("p", 3, 100, 10, 3, "c").partitions());
    assert!(!Meta::new("p", 3, 100, 10, -1, "c").partitions());
    assert!(!Meta::new("p", 3, 100, i64::MAX, 0, "c").partitions());
    assert!(Meta::new("p", 1, 0, i64::MAX, 0, "c").partitions());
    assert!(!Meta::new("p", 1, 1, i64::MAX, 0, "c").partitions());
    assert!(Meta::new("p", 2, i64::MAX - 20, 10, 1, "c").partitions());
    assert!(!Meta::new("p", 2, i64::MAX - 19, 10, 1, "c").partitions());
}

#[test]
fn a_machine_takes_its_own_batch_of_a_wide_range() {
    let meta = second_of_three();
    assert_eq!(taken(&meta, 0..1000), Some(10..20));
    assert_eq!(taken(&meta, 30..1000), Some(40..50));
    assert_eq!(taken(&meta, 45..1000), Some(45..50));
    assert_eq!(taken(&meta, 12..17), Some(12..17));
    assert_eq!(taken(&meta, 5..13), Some(10..13));
    assert_eq!(taken(&meta, 19..500), Some(19..20));
}

#[test]
fn each_machine_takes_a_different_batch_of_the_same_round() {
    assert_eq!(taken(&Meta::new("p", 3, 1000, 10, 0, "c"), 60..1000), Some(60..70));
    assert_eq!(taken(&Meta::new("p", 3, 1000, 10, 1, "c"), 60..1000), Some(70..80));
    assert_eq!(taken(&Meta::new("p", 3, 1000, 10, 2, "c"), 60..1000), Some(80..90));
}

#[test]
fn a_range_outside_the_batch_is_skipped() {
    let meta = second_of_three();
    assert!(matches!(meta.select_batch(&(0..10)), BatchStep::Skip(10)));
    assert!(matches!(meta.select_batch(&(3..7)), BatchStep::Skip(7)));
    assert!(matches!(meta.select_batch(&(20..30)), BatchStep::Skip(30)));
    assert!(matches!(meta.select_batch(&(25..1000)), BatchStep::Skip(1000)));
    assert!(matches!(meta.select_batch(&(15..15)), BatchStep::Skip(15)));
    assert!(matches!(meta.select_batch(&(15..12)), BatchStep::Skip(12)));
}

#[test]
fn a_range_at_or_above_the_last_block_ends_the_search() {
    let meta = second_of_three();
    assert!(matches!(meta.select_batch(&(1000..1001)), BatchStep::Exhausted));
    assert!(matches!(meta.select_batch(&(5000..6000)), BatchStep::Exhausted));
    assert!(matches!(meta.select_batch(&(1000..900)), BatchStep::Exhausted));
}

#[test]
fn a_range_that_starts_below_the_last_block_is_not_cut_at_it() {
    let meta = second_of_three();
    assert_eq!(taken(&meta, 975..1001), Some(975..980));
    assert_eq!(taken(&meta, 999..1001), Some(1000..1001));
    assert_eq!(taken(&meta, 990..2000), Some(1000..1010));
}

#[test]
fn a_range_below_block_zero_is_rounded_towards_zero() {
    let meta = second_of_three();
    assert_eq!(taken(&meta, -5..1000), Some(10..20));
    assert!(matches!(meta.select_batch(&(-5..3)), BatchStep::Skip(3)));
    assert_eq!(taken(&meta, -45..1000), Some(-20..-10));
    assert_eq!(taken(&meta, i64::MIN..1000), Some(i64::MIN + 8 + 10..i64::MIN + 8 + 20));
}

#[test]
fn taken_blocks_are_the_machines_own_and_lie_in_the_range() {
    for machine_id in 0..4 {
        let meta = Meta::new("p", 4, 500, 7, machine_id, "c");
        assert!(meta.partitions());
        for start in 0..120 {
            for len in [1i64, 3, 7, 40] {
                let next = start..start + len;
                if let BatchStep::Take(range) = meta.select_batch(&next) {
                    assert!(next.start <= range.start);
                    assert!(range.start < range.end);
                    assert!(range.end <= next.end);
                    for blk in range {
                        assert_eq!((blk / 7) % 4, machine_id);
                    }
                }
            }
        }
    }
}

#[test]
fn gap_query_names_the_table_and_the_block() {
    let meta = second_of_three();
    assert_eq!(
        meta.gap_query(120),
        "SELECT start_blk, nr_blks FROM prj.zilliqa.meta WHERE start_blk >= 120 AND nr_blks > 0  ORDER BY start_blk ASC, nr_blks DESC LIMIT 1"
    );
    assert_eq!(
        meta.gap_query(0),
        "SELECT start_blk, nr_blks FROM prj.zilliqa.meta WHERE start_blk >= 0 AND nr_blks > 0  ORDER BY start_blk ASC, nr_blks DESC LIMIT 1"
    );
    assert_eq!(
        meta.gap_query(-7),
        "SELECT start_blk, nr_blks FROM prj.zilliqa.meta WHERE start_blk >= -7 AND nr_blks > 0  ORDER BY start_blk ASC, nr_blks DESC LIMIT 1"
    );
    assert_eq!(
        meta.gap_query(i64::MIN),
        "SELECT start_blk, nr_blks FROM prj.zilliqa.meta WHERE start_blk >= -9223372036854775808 AND nr_blks > 0  ORDER BY start_blk ASC, nr_blks DESC LIMIT 1"
    );
    assert_eq!(
        meta.gap_query(i64::MAX),
        "SELECT start_blk, nr_blks FROM prj.zilliqa.meta WHERE start_blk >= 9223372036854775807 AND nr_blks > 0  ORDER BY start_blk ASC, nr_blks DESC LIMIT 1"
    );
}

#[test]
fn commit_query_records_start_and_length() {
    let meta = second_of_three();
    assert_eq!(
        meta.commit_query(&(100..130)),
        "INSERT INTO prj.zilliqa.meta (client_id, event_stamp, start_blk, nr_blks) VALUES (\"importer-1\",CURRENT_DATETIME(), 100, 30)"
    );
    assert_eq!(
        meta.commit_query(&(7..7)),
        "INSERT INTO prj.zilliqa.meta (client_id, event_stamp, start_blk, nr_blks) VALUES (\"importer-1\",CURRENT_DATETIME(), 7, 0)"
    );
    assert_eq!(
        meta.commit_query(&(10..4)),
        "INSERT INTO prj.zilliqa.meta (client_id, event_stamp, start_blk, nr_blks) VALUES (\"importer-1\",CURRENT_DATETIME(), 10, -6)"
    );
}

#[test]
fn a_row_is_read_as_start_and_length() {
    assert_eq!(gap_from_row(Some(100), Some(30)), Ok(100..130));
    assert_eq!(gap_from_row(Some(0), Some(1)), Ok(0..1));
    assert_eq!(gap_from_row(Some(-3), Some(3)), Ok(-3..0));
}

#[test]
fn a_row_without_a_value_is_an_error() {
    assert_eq!(gap_from_row(None, Some(30)), Err(MetaError::NoStartValue));
    assert_eq!(gap_from_row(None, None), Err(MetaError::NoStartValue));
    assert_eq!(gap_from_row(Some(100), None), Err(MetaError::NoEndValue));
    assert_eq!(MetaError::NoStartValue.message(), "No start value in range read");
    assert_eq!(MetaError::NoEndValue.message(), "No end value in range read");
}

#[test]
fn the_metadata_table_has_four_columns() {
    let columns = metadata_columns();
    let listed: Vec<(&str, ColumnKind)> = columns.iter().map(|c| (c.name, c.kind)).collect();
    assert_eq!(
        listed,
        vec![
            ("client_id", ColumnKind::Text),
            ("event_stamp", ColumnKind::DateTime),
            ("start_blk", ColumnKind::Integer),
            ("nr_blks", ColumnKind::Integer),
        ]
    );
}

#[test]
fn an_empty_table_leaves_everything_free() {
    let mut scan = FreeRangeScan::new(40, 99);
    assert_eq!(scan.blk_to_find(), 40);
    assert_eq!(scan.feed(None), Some(40..100));
    assert_eq!(scan.run_to_commit(), None);
}

#[test]
fn a_hole_before_the_first_run_is_free() {
    let mut scan = FreeRangeScan::new(40, 99);
    assert_eq!(scan.feed(Some(50..60)), Some(40..50));
    assert_eq!(scan.run_to_commit(), None);
}

#[test]
fn runs_without_a_gap_are_merged_and_recorded() {
    let mut scan = FreeRangeScan::new(40, 99);
    assert_eq!(scan.feed(Some(40..50)), None);
    assert_eq!(scan.blk_to_find(), 50);
    assert_eq!(scan.run_to_commit(), None);
    assert_eq!(scan.feed(Some(50..55)), None);
    assert_eq!(scan.blk_to_find(), 55);
    assert_eq!(scan.run_to_commit(), Some(40..55));
    assert_eq!(scan.feed(Some(55..70)), None);
    assert_eq!(scan.blk_to_find(), 70);
    assert_eq!(scan.feed(Some(80..90)), Some(70..80));
    assert_eq!(scan.run_to_commit(), Some(40..80 - 10));
}

#[test]
fn a_single_run_is_not_recorded_again() {
    let mut scan = FreeRangeScan::new(0, 99);
    assert_eq!(scan.feed(Some(0..10)), None);
    assert_eq!(scan.feed(Some(30..40)), Some(10..30));
    assert_eq!(scan.run_to_commit(), None);
}

#[test]
fn the_end_of_the_table_leaves_the_rest_free() {
    let mut scan = FreeRangeScan::new(0, 99);
    assert_eq!(scan.feed(Some(0..10)), None);
    assert_eq!(scan.feed(Some(10..20)), None);
    assert_eq!(scan.feed(None), Some(20..100));
    assert_eq!(scan.run_to_commit(), Some(0..20));
}

#[test]
fn a_run_that_reaches_past_the_last_block_leaves_an_empty_range() {
    let mut scan = FreeRangeScan::new(0, 9);
    assert_eq!(scan.feed(Some(0..25)), None);
    assert_eq!(scan.feed(None), Some(25..10));
}

/// The first run of done blocks at or above `blk`: the earliest start, and
/// the longest among the runs that start there.
fn first_run_above(table: &[(i64, i64)], blk: i64) -> Option<Range<i64>> {
    table
        .iter()
        .filter(|(start, nr)| *start >= blk && *nr > 0)
        .min_by_key(|(start, nr)| (*start, -*nr))
        .map(|(start, nr)| *start..*start + *nr)
}

/// Runs a scan against a table and gives the free range and the run to record.
fn scan_table(table: &[(i64, i64)], start_at: i64, max_blk: i64) -> (Range<i64>, Option<Range<i64>>) {
    let mut scan = FreeRangeScan::new(start_at, max_blk);
    let mut asked = Vec::new();
    loop {
        let blk = scan.blk_to_find();
        assert!(asked.last().map_or(true, |last| *last < blk), "the scan does not move on");
        asked.push(blk);
        if let Some(free) = scan.feed(first_run_above(table, blk)) {
            return (free, scan.run_to_commit());
        }
    }
}

#[test]
fn a_scan_over_a_table_ends_at_the_first_gap() {
    let table = [(0, 10), (10, 5), (15, 5), (30, 10), (40, 2), (50, 1)];
    assert_eq!(scan_table(&table, 0, 99), (20..30, Some(0..20)));
    assert_eq!(scan_table(&table, 10, 99), (20..30, Some(10..20)));
    assert_eq!(scan_table(&table, 15, 99), (20..30, None));
    assert_eq!(scan_table(&table, 12, 99), (12..15, None));
    assert_eq!(scan_table(&table, 30, 99), (42..50, Some(30..42)));
    assert_eq!(scan_table(&table, 50, 99), (51..100, None));
    assert_eq!(scan_table(&table, 51, 99), (51..100, None));
    assert_eq!(scan_table(&[], 7, 99), (7..100, None));
}

#[test]
fn a_scan_prefers_the_longest_run_at_a_start() {
    let table = [(0, 3), (0, 10), (10, 1), (3, 2)];
    assert_eq!(scan_table(&table, 0, 99), (11..100, Some(0..11)));
}

#[test]
fn the_blocks_below_the_free_range_are_all_done() {
    let table = [(5, 5), (10, 10), (20, 1), (40, 3), (43, 7), (60, 1)];
    let done = |blk: i64| table.iter().any(|(start, nr)| *start <= blk && blk < *start + *nr);
    for start_at in 0..70 {
        let (free, recorded) = scan_table(&table, start_at, 99);
        assert!(free.start >= start_at);
        assert!(free.start < free.end);
        for blk in start_at..free.start {
            assert!(done(blk));
        }
        if free.start > start_at {
            assert!(!done(free.start));
        }
        if let Some(run) = recorded {
            assert_eq!(run, start_at..free.start);
        }
    }
}

/// The batch decision written out with the machine's own remainder.
fn batch_by_hand(
    nr_machines: i64,
    nr_blks: i64,
    batch_blks: i64,
    machine_id: i64,
    next: &Range<i64>,
) -> Option<Result<Range<i64>, i64>> {
    if next.start >= nr_blks {
        return None;
    }
    let batch_start = next.start - next.start % (batch_blks * nr_machines);
    let ours_start = batch_start + machine_id * batch_blks;
    let ours_end = ours_start + batch_blks;
    let start = std::cmp::max(next.start, ours_start);
    let end = std::cmp::min(next.end, ours_end);
    if start < next.end && end > next.start {
        Some(Ok(start..end))
    } else {
        Some(Err(next.end))
    }
}

#[test]
fn the_batch_decision_is_the_one_written_out_by_hand() {
    for (nr_machines, batch_blks) in [(1i64, 1i64), (1, 8), (3, 10), (4, 7), (5, 1)] {
        for machine_id in 0..nr_machines {
            let meta = Meta::new("p", nr_machines, 90, batch_blks, machine_id, "c");
            assert!(meta.partitions());
            for start in -40..100 {
                for len in [-3i64, 0, 1, 2, 9, 33, 200] {
                    let next = start..start + len;
                    let expected = batch_by_hand(nr_machines, 90, batch_blks, machine_id, &next);
                    let step = meta.select_batch(&next);
                    match expected {
                        None => assert_eq!(step, BatchStep::Exhausted),
                        Some(Ok(range)) => assert_eq!(step, BatchStep::Take(range)),
                        Some(Err(from)) => assert_eq!(step, BatchStep::Skip(from)),
                    }
                }
            }
        }
    }
}

#[test]
fn a_machine_beyond_the_number_of_machines_takes_from_the_next_round() {
    let meta = Meta::new("p", 3, 1000, 10, 4, "c");
    assert!(!meta.partitions());
    assert_eq!(taken(&meta, 0..1000), Some(40..50));
    assert_eq!(taken(&meta, 45..1000), Some(70..80));
    assert!(matches!(meta.select_batch(&(0..40)), BatchStep::Skip(40)));
    let before = Meta::new("p", 3, 1000, 10, -1, "c");
    assert!(before.selects(&(0..1000)));
    assert!(matches!(before.select_batch(&(0..1000)), BatchStep::Skip(1000)));
    assert_eq!(taken(&before, -5..1000), Some(-5..0));
}

#[test]
fn a_decision_can_be_computed_where_no_batch_leaves_the_integers() {
    let meta = second_of_three();
    assert!(meta.selects(&(0..10)));
    assert!(meta.selects(&(i64::MIN..0)));
    assert!(meta.selects(&(5000..6000)));
    assert!(Meta::new("p", 0, 100, 10, 0, "c").selects(&(100..200)));
    assert!(!Meta::new("p", 0, 100, 10, 0, "c").selects(&(99..200)));
    assert!(!Meta::new("p", 3, 100, 0, 0, "c").selects(&(0..1)));
    assert!(!Meta::new("p", 3, 100, i64::MAX, 0, "c").selects(&(0..1)));
    assert!(!Meta::new("p", 3, 100, 10, i64::MAX, "c").selects(&(0..1)));
    let high = Meta::new("p", 2, i64::MAX, 10, 1, "c");
    assert!(high.selects(&(i64::MAX - 40..i64::MAX)));
    assert!(!high.selects(&(i64::MAX - 5..i64::MAX)));
    assert_eq!(taken(&high, i64::MAX - 40..i64::MAX), Some(i64::MAX - 37..i64::MAX - 27));
}
