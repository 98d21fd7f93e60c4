use dent::error::Error;
use dent::plot::{place, place_marks, render, render_row, shared_range, Marks};
use dent::summary::OrderStats;

#[test]
fn place_clamps_into_the_plot() {
    assert_eq!(place(Some(-3), 21), Ok(0));
    assert_eq!(place(Some(0), 21), Ok(0));
    assert_eq!(place(Some(10), 21), Ok(10));
    assert_eq!(place(Some(20), 21), Ok(20));
    assert_eq!(place(Some(100), 21), Ok(20));
}

#[test]
fn degenerate_scale_goes_to_the_middle() {
    assert_eq!(place(None, 21), Ok(10));
    assert_eq!(place(None, 1), Ok(0));
    assert_eq!(place(None, 80), Ok(39));
}

#[test]
fn zero_width_is_refused() {
    assert_eq!(place(Some(1), 0), Err(Error::InvalidWidth));
    let m = Marks { low: 0, high: 0, median: 0, mean: 0 };
    assert_eq!(render(&vec![m], 0, true), Err(Error::InvalidWidth));
}

#[test]
fn median_and_mean_collapse_in_the_middle() {
    let m = Marks { low: 0, high: 20, median: 10, mean: 10 };
    let row: String = render_row(&m, 21, true).into_iter().collect();
    assert_eq!(row, "|---------#---------|");
    assert_eq!(row.chars().count(), 21);
}

#[test]
fn median_and_mean_apart() {
    let m = Marks { low: 2, high: 8, median: 4, mean: 6 };
    let row: String = render_row(&m, 10, true).into_iter().collect();
    assert_eq!(row, "  |-+-*-| ");
}

#[test]
fn box_drawing_glyphs() {
    let m = Marks { low: 0, high: 4, median: 2, mean: 3 };
    let row: String = render_row(&m, 5, false).into_iter().collect();
    assert_eq!(row, "\u{2502}\u{2500}\u{253c}\u{25c6}\u{2502}");
}

#[test]
fn every_row_has_the_width() {
    let rows = vec![
        Marks { low: 0, high: 5, median: 2, mean: 3 },
        Marks { low: 7, high: 29, median: 15, mean: 15 },
        Marks { low: 29, high: 29, median: 29, mean: 29 },
    ];
    let out = render(&rows, 30, false).unwrap();
    assert_eq!(out.len(), 3);
    for r in &out {
        assert_eq!(r.len(), 30);
    }
    assert_eq!(out[2][29], '\u{25c8}');
}

#[test]
fn shared_range_spans_all_samples() {
    let a = OrderStats::from_keys(&vec![5, 7, 9]).unwrap();
    let b = OrderStats::from_keys(&vec![3, 4]).unwrap();
    let c = OrderStats::from_keys(&vec![6, 12]).unwrap();
    assert_eq!(shared_range(&vec![a, b, c]), Ok((3, 12)));
    assert_eq!(shared_range(&vec![a]), Ok((5, 9)));
    assert_eq!(shared_range(&vec![]), Err(Error::EmptySample));
}

#[test]
fn marks_of_a_row() {
    let m = place_marks(Some(0), Some(20), Some(10), Some(10), 21).unwrap();
    assert_eq!(m, Marks { low: 0, high: 20, median: 10, mean: 10 });
    let m = place_marks(Some(-1), Some(99), None, Some(3), 9).unwrap();
    assert_eq!(m, Marks { low: 0, high: 8, median: 4, mean: 3 });
    assert_eq!(place_marks(None, None, None, None, 0), Err(Error::InvalidWidth));
}
