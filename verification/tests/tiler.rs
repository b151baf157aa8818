use commit_canvas::error::{DrawError, InputFault};
use commit_canvas::tiler::{stream_prefix, Column, PatternTiler};

fn take(tiler: &mut PatternTiler<'_>, count: usize) -> Vec<u8> {
    let mut values = Vec::new();
    for _ in 0..count {
        values.push(tiler.next());
    }
    values
}

#[test]
fn two_columns_tile_with_a_blank_column_between_passes() {
    let first: Column = [1, 2, 3, 4, 5, 6, 7];
    let second: Column = [11, 12, 13, 14, 15, 16, 17];
    let columns = vec![first, second];
    let mut tiler = PatternTiler::new(&columns).unwrap();
    let stream = take(&mut tiler, 49);
    // First week: the first column.
    assert_eq!(&stream[0..7], &first);
    // Days 8 to 14: the second column, not the first again.
    assert_eq!(&stream[7..14], &second);
    // Then the separator: seven days without intensity.
    assert_eq!(&stream[14..21], &[0; 7]);
    // The second pass.
    assert_eq!(&stream[21..28], &first);
    assert_eq!(&stream[28..35], &second);
    assert_eq!(&stream[35..42], &[0; 7]);
    // And the third begins.
    assert_eq!(&stream[42..49], &first);
}

#[test]
fn one_column_alternates_with_the_blank_column() {
    let column: Column = [9, 8, 7, 6, 5, 4, 3];
    let columns = vec![column];
    let mut tiler = PatternTiler::new(&columns).unwrap();
    assert_eq!(tiler.width(), 1);
    let stream = take(&mut tiler, 28);
    assert_eq!(
        stream,
        vec![9, 8, 7, 6, 5, 4, 3, 0, 0, 0, 0, 0, 0, 0, 9, 8, 7, 6, 5, 4, 3, 0, 0, 0, 0, 0, 0, 0]
    );
}

#[test]
fn a_pass_has_seven_values_per_column_and_seven_more() {
    for width in 1..6_usize {
        let columns: Vec<Column> = (0..width).map(|x| [x as u8 + 1; 7]).collect();
        let period = 7 * (width + 1);
        let stream = stream_prefix(&columns, 3 * period + 5).unwrap();
        for (i, value) in stream.iter().enumerate() {
            let offset = i % period;
            let expected = if offset < 7 * width { columns[offset / 7][offset % 7] } else { 0 };
            assert_eq!(*value, expected, "width {width}, place {i}");
            if i >= period {
                assert_eq!(*value, stream[i - period]);
            }
        }
    }
}

#[test]
fn stream_goes_on_past_the_whole_grid() {
    let columns: Vec<Column> = vec![[255; 7], [1; 7], [0; 7]];
    let stream = stream_prefix(&columns, 371).unwrap();
    assert_eq!(stream.len(), 371);
    // A pass has 28 values, so the grid ends seven values into the fourteenth.
    assert_eq!(stream[363], 0);
    assert_eq!(stream[364], 255);
    assert_eq!(stream[370], 255);
    let total: u32 = stream.iter().map(|v| *v as u32).sum();
    // Thirteen whole passes of 28 days, and then 7 days of 255.
    assert_eq!(total, 13 * (7 * 255 + 7) + 7 * 255);
}

#[test]
fn peek_does_not_move_the_cursor() {
    let columns: Vec<Column> = vec![[4, 5, 6, 7, 8, 9, 10]];
    let mut tiler = PatternTiler::new(&columns).unwrap();
    assert_eq!(tiler.peek(), 4);
    assert_eq!(tiler.peek(), 4);
    assert_eq!(tiler.next(), 4);
    assert_eq!(tiler.peek(), 5);
    assert_eq!(tiler.next(), 5);
}

#[test]
fn restart_goes_back_to_the_first_value() {
    let columns: Vec<Column> = vec![[1, 2, 3, 4, 5, 6, 7], [8; 7]];
    let mut tiler = PatternTiler::new(&columns).unwrap();
    let before = take(&mut tiler, 17);
    tiler.restart();
    let after = take(&mut tiler, 17);
    assert_eq!(before, after);
    assert_eq!(after[0], 1);
}

#[test]
fn no_columns_is_invalid_input() {
    assert!(matches!(PatternTiler::new(&[]), Err(DrawError::InvalidInput(InputFault::NoColumns))));
    assert_eq!(stream_prefix(&[], 10), Err(DrawError::InvalidInput(InputFault::NoColumns)));
    assert_eq!(stream_prefix(&[], 0), Err(DrawError::InvalidInput(InputFault::NoColumns)));
    assert!(stream_prefix(&[], 0).unwrap_err().is_invalid_input());
}

#[test]
fn empty_prefix_of_a_stream_is_empty() {
    assert_eq!(stream_prefix(&[[1; 7]], 0), Ok(Vec::new()));
}

#[test]
fn blank_columns_give_a_blank_stream() {
    let stream = stream_prefix(&[[0; 7], [0; 7]], 371).unwrap();
    assert!(stream.iter().all(|v| *v == 0));
}
