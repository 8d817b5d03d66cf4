use skia_safe::data_table::DataTable;
use skia_safe::engine::Engine;
use skia_safe::matrix::Matrix;
use skia_safe::path::Path;
use skia_safe::path_effect::PathEffect;
use skia_safe::rect::Rect;
use skia_safe::stroke_rec::StrokeRec;

#[test]
fn empty_table_has_no_entries() {
    let mut e = Engine::new();
    let table = DataTable::new_empty(&mut e);
    assert!(table.is_empty(&e));
    assert_eq!(table.count(&e), 0);
}

#[test]
fn from_slices_copies_each_entry() {
    let mut e = Engine::new();
    let slices = vec![vec![1u8, 2, 3], vec![], vec![9u8]];
    let table = DataTable::from_slices(&slices, &mut e);
    assert_eq!(table.count(&e), 3);
    assert!(!table.is_empty(&e));
    assert_eq!(table.at_size(0, &e), 3);
    assert_eq!(table.at_size(1, &e), 0);
    assert_eq!(table.at(0, &e), &vec![1u8, 2, 3]);
    assert_eq!(table.at(2, &e), &vec![9u8]);
}

#[test]
fn from_slice_cuts_exact_elements() {
    let mut e = Engine::new();
    let data = vec![1u8, 2, 3, 4, 5, 6];
    let table = DataTable::from_slice(&data, 2, &mut e);
    assert_eq!(table.count(&e), 3);
    assert_eq!(table.at(0, &e), &vec![1u8, 2]);
    assert_eq!(table.at(1, &e), &vec![3u8, 4]);
    assert_eq!(table.at(2, &e), &vec![5u8, 6]);
}

#[test]
fn last_entry_reads_an_exact_multiple() {
    let mut e = Engine::new();
    let slices = vec![vec![0u8; 8], vec![0u8; 12]];
    let table = DataTable::from_slices(&slices, &mut e);
    let last = table.count(&e) - 1;
    let (bytes, elements) = table.at_t(last, 4, &e);
    assert_eq!(bytes.len(), 12);
    assert_eq!(elements, 3);
    assert_eq!(elements * 4, table.at_size(last, &e));
}

fn dash_bytes(intervals: &[i32], phase: i32) -> Vec<u8> {
    let mut out = vec![1u8, intervals.len() as u8];
    for v in intervals {
        out.extend_from_slice(&v.to_le_bytes());
    }
    out.extend_from_slice(&phase.to_le_bytes());
    out
}

#[test]
fn deserialize_rebuilds_a_dash() {
    let mut e = Engine::new();
    let bytes = dash_bytes(&[10, 5], 3);
    let effect = PathEffect::deserialize(&bytes, &mut e).unwrap();
    let info = effect.as_a_dash(&e).unwrap();
    assert_eq!(info.intervals, vec![10, 5]);
    assert_eq!(info.phase, 3);
    let again = effect.as_dash(&e).unwrap();
    assert_eq!(again, info);
}

#[test]
fn deserialize_rejects_malformed_bytes() {
    let mut e = Engine::new();
    assert!(PathEffect::deserialize(&vec![], &mut e).is_none());
    assert!(PathEffect::deserialize(&vec![2u8, 2], &mut e).is_none());
    assert!(PathEffect::deserialize(&vec![1u8, 3], &mut e).is_none());
    assert!(PathEffect::deserialize(&vec![1u8, 2, 0, 0], &mut e).is_none());
    assert_eq!(e.live_objects(), 0);
}

#[test]
fn sums_and_compositions_are_not_dashes() {
    let mut e = Engine::new();
    let a = PathEffect::deserialize(&dash_bytes(&[1, 1], 0), &mut e).unwrap();
    let b = PathEffect::deserialize(&dash_bytes(&[2, 2], 0), &mut e).unwrap();
    let sum = PathEffect::sum(&a, &b, &mut e);
    assert!(sum.as_a_dash(&e).is_none());
    let composed = PathEffect::compose(&a, &b, &mut e);
    assert!(composed.as_a_dash(&e).is_none());
}

#[test]
fn filter_path_applies_only_dashes() {
    let mut e = Engine::new();
    let dash = PathEffect::deserialize(&dash_bytes(&[4, 4], 0), &mut e).unwrap();
    let src = Path::new();
    let stroke = StrokeRec::new(2);
    let filtered = dash.filter_path(&src, &stroke, Rect::new_empty(), &e);
    let (dst, stroke_out) = filtered.unwrap();
    assert_eq!(dst.count_points(), 0);
    assert_eq!(stroke_out.width(), 2);
    let other = PathEffect::deserialize(&dash_bytes(&[4, 4], 0), &mut e).unwrap();
    let sum = PathEffect::sum(&dash, &other, &mut e);
    assert!(sum.filter_path(&src, &stroke, Rect::new_empty(), &e).is_none());
    assert_eq!(sum.compute_fast_bounds(Rect::new(1, 2, 3, 4), &e), Rect::new(1, 2, 3, 4));
}

#[test]
fn as_points_breaks_up_only_dashes() {
    let mut e = Engine::new();
    let dash = PathEffect::deserialize(&dash_bytes(&[4, 4], 0), &mut e).unwrap();
    let src = Path::new();
    let stroke = StrokeRec::new(3);
    let pd = dash
        .as_points(&src, &stroke, &Matrix::new_identity(), Rect::new_empty(), &e)
        .unwrap();
    assert_eq!(pd.points().len(), 0);
    assert_eq!(pd.size.x, 3);
    let other = PathEffect::deserialize(&dash_bytes(&[4, 4], 0), &mut e).unwrap();
    let sum = PathEffect::sum(&dash, &other, &mut e);
    assert!(sum
        .as_points(&src, &stroke, &Matrix::new_identity(), Rect::new_empty(), &e)
        .is_none());
}

#[test]
fn iteration_walks_every_entry_once() {
    let mut e = Engine::new();
    let slices = vec![vec![1u8], vec![2u8, 2], vec![3u8, 3, 3]];
    let table = DataTable::from_slices(&slices, &mut e);
    let mut iter = table.iter(&e);
    let mut seen = Vec::new();
    while let Some(entry) = iter.next(&e) {
        seen.push(entry.len());
    }
    assert_eq!(seen, vec![1, 2, 3]);
    assert!(iter.next(&e).is_none());
}

#[test]
fn at_str_strips_the_terminator() {
    let mut e = Engine::new();
    let slices = vec![vec![b'h', b'i', 0u8]];
    let table = DataTable::from_slices(&slices, &mut e);
    assert_eq!(table.at_str(0, &e), vec![b'h', b'i']);
}
