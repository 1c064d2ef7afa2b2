use qr_studio::{render, text_2_qr_string, EncodeError, ModuleGrid};

fn grid(rows: &[&[bool]]) -> ModuleGrid {
    ModuleGrid::from_rows(rows.iter().map(|r| r.to_vec()).collect()).unwrap()
}

#[test]
fn render_one_square_per_dark_module() {
    let g = grid(&[&[true, false, false], &[false, true, true], &[false, false, false]]);
    let p = render(&g, 4);
    assert_eq!(p.len(), 3);
    assert_eq!(p.square(0), (4, 4));
    assert_eq!(p.square(1), (5, 5));
    assert_eq!(p.square(2), (6, 5));
    assert_eq!(p.extent(), 11);
    assert_eq!(p.data(), "M4,4h1v1h-1z M5,5h1v1h-1z M6,5h1v1h-1z");
}

#[test]
fn render_all_light_grid_is_empty() {
    let g = grid(&[&[false, false], &[false, false]]);
    let p = render(&g, 4);
    assert_eq!(p.len(), 0);
    assert_eq!(p.data(), "");
    assert_eq!(p.extent(), 10);
}

#[test]
fn render_zero_border_and_multi_digit_offsets() {
    let g = grid(&[&[false, true], &[false, false]]);
    assert_eq!(render(&g, 0).data(), "M1,0h1v1h-1z");
    assert_eq!(render(&g, 123).data(), "M124,123h1v1h-1z");
    assert_eq!(render(&g, 123).extent(), 248);
}

#[test]
fn render_is_row_major_and_repeatable() {
    let g = grid(&[&[false, true, true], &[true, false, true], &[true, true, false]]);
    let a = render(&g, 2);
    let b = render(&g, 2);
    assert_eq!(a.data(), b.data());
    let mut prev: Option<(usize, usize)> = None;
    for i in 0..a.len() {
        let (x, y) = a.square(i);
        if let Some((px, py)) = prev {
            assert!(py < y || (py == y && px < x));
        }
        prev = Some((x, y));
    }
    assert_eq!(a.len(), 6);
}

#[test]
fn from_rows_rejects_non_square() {
    assert!(ModuleGrid::from_rows(vec![vec![true, false], vec![true]]).is_none());
    assert!(ModuleGrid::from_rows(vec![vec![true, false]]).is_none());
    assert!(ModuleGrid::from_rows(vec![]).is_some());
    let g = grid(&[&[true, false], &[false, false]]);
    assert_eq!(g.size(), 2);
    assert!(g.get(0, 0));
    assert!(!g.get(1, 0));
}

#[test]
fn text_to_path_data_for_hello() {
    let d = text_2_qr_string("HELLO").unwrap();
    assert!(d.starts_with("M4,4h1v1h-1z M5,4h1v1h-1z"));
    assert!(!d.starts_with(' '));
    assert_eq!(d, text_2_qr_string("HELLO").unwrap());
    let g = qr_studio::encode("HELLO").unwrap();
    assert_eq!(g.size(), 21);
    let dark = (0..21).flat_map(|y| (0..21).map(move |x| (x, y))).filter(|&(x, y)| g.get(x, y)).count();
    assert_eq!(d.split(' ').count(), dark);
}

#[test]
fn text_too_long_is_rejected() {
    let long = "A".repeat(4300);
    assert_eq!(text_2_qr_string(&long), Err(EncodeError::CapacityExceeded));
}
