use egui_memory_editor::layout::{
    address_count, cell_address, cluster_cells, cluster_count, cluster_width, hex_digit_count,
    in_range, locate, row_contains, row_count, row_start_address, row_width,
};

#[test]
fn sixteen_rows_of_sixteen() {
    let space = 0..256;
    assert_eq!(row_count(&space, 16), 16);
    assert_eq!(row_start_address(&space, 16, 5), Some(80));
    assert_eq!(locate(&space, 16, 85), Some((5, 5)));
    assert_eq!(cell_address(&space, 16, 5, 5), Some(85));
}

#[test]
fn row_count_rounds_up() {
    assert_eq!(row_count(&(0..255), 16), 16);
    assert_eq!(row_count(&(0..257), 16), 17);
    assert_eq!(row_count(&(0..1), 16), 1);
    assert_eq!(row_count(&(0x100..0x200), 8), 32);
    assert_eq!(row_count(&(0..10), 1), 10);
    assert_eq!(row_count(&(0..usize::MAX), 1), usize::MAX);
    assert_eq!(row_count(&(0..usize::MAX), usize::MAX), 1);
}

#[test]
fn empty_and_inverted_ranges_have_no_rows() {
    assert_eq!(row_count(&(0..0), 16), 0);
    assert_eq!(row_count(&(10..10), 16), 0);
    assert_eq!(row_count(&(10..5), 16), 0);
    assert_eq!(address_count(&(10..5)), 0);
    assert_eq!(address_count(&(5..10)), 5);
    assert_eq!(cell_address(&(10..5), 16, 0, 0), None);
    assert_eq!(row_start_address(&(0..0), 16, 0), None);
}

#[test]
fn cell_address_follows_the_formula() {
    let space = 0x1000..0x1100;
    for row in 0..20usize {
        for col in 0..20usize {
            let address = 0x1000 + row * 12 + col;
            let expected = if col < 12 && address < 0x1100 { Some(address) } else { None };
            assert_eq!(cell_address(&space, 12, row, col), expected);
            if let Some(a) = expected {
                assert_eq!(locate(&space, 12, a), Some((row, col)));
            }
        }
    }
}

#[test]
fn cells_outside_the_range_are_skipped() {
    let space = 0..250;
    assert_eq!(cell_address(&space, 16, 15, 9), Some(249));
    assert_eq!(cell_address(&space, 16, 15, 10), None);
    assert_eq!(cell_address(&space, 16, 16, 0), None);
    assert_eq!(cell_address(&space, 16, 0, 16), None);
    assert_eq!(cell_address(&space, 16, usize::MAX, 0), None);
    assert_eq!(cell_address(&space, 16, usize::MAX, 15), None);
    assert_eq!(cell_address(&(usize::MAX - 4..usize::MAX), 16, 0, 4), None);
    assert_eq!(cell_address(&(usize::MAX - 4..usize::MAX), 16, 0, 3), Some(usize::MAX - 1));
    assert_eq!(row_start_address(&space, 16, 15), Some(240));
    assert_eq!(row_start_address(&space, 16, 16), None);
}

#[test]
fn locate_rejects_addresses_outside() {
    let space = 16..32;
    assert_eq!(locate(&space, 4, 15), None);
    assert_eq!(locate(&space, 4, 32), None);
    assert_eq!(locate(&space, 4, 16), Some((0, 0)));
    assert_eq!(locate(&space, 4, 31), Some((3, 3)));
    assert!(in_range(&space, 16));
    assert!(!in_range(&space, 32));
}

#[test]
fn clusters_hold_eight_columns() {
    assert_eq!(cluster_count(16), 2);
    assert_eq!(cluster_count(20), 3);
    assert_eq!(cluster_count(8), 1);
    assert_eq!(cluster_count(1), 1);
    assert_eq!(cluster_count(0), 0);
    assert_eq!(cluster_width(20, 0), 8);
    assert_eq!(cluster_width(20, 1), 8);
    assert_eq!(cluster_width(20, 2), 4);
    assert_eq!(cluster_width(20, 3), 0);
    assert_eq!(cluster_width(16, usize::MAX), 0);
}

#[test]
fn cluster_cells_are_cut_to_row_and_range() {
    let space = 0..100;
    assert_eq!(cluster_cells(&space, 80, 20, 0), 80..88);
    assert_eq!(cluster_cells(&space, 80, 20, 1), 88..96);
    assert_eq!(cluster_cells(&space, 80, 20, 2), 96..100);
    assert_eq!(cluster_cells(&space, 80, 20, 3), 0..0);
    assert_eq!(cluster_cells(&space, 60, 20, 2), 76..80);
    assert_eq!(cluster_cells(&space, 100, 20, 0), 0..0);
    assert_eq!(cluster_cells(&(50..100), 40, 16, 1), 50..56);
    assert_eq!(cluster_cells(&(0..usize::MAX), usize::MAX - 3, 16, 0), usize::MAX - 3..usize::MAX);
    assert_eq!(cluster_cells(&(0..usize::MAX), usize::MAX - 3, 16, 1), 0..0);
}

#[test]
fn row_width_is_cut_at_the_end() {
    assert_eq!(row_width(&(0..250), 240, 16), 10);
    assert_eq!(row_width(&(0..250), 224, 16), 16);
    assert_eq!(row_width(&(0..250), 250, 16), 0);
    assert_eq!(row_width(&(10..250), 0, 16), 0);
    assert!(row_contains(80, 16, 85));
    assert!(row_contains(80, 16, 95));
    assert!(!row_contains(80, 16, 96));
    assert!(!row_contains(80, 16, 79));
    assert!(row_contains(usize::MAX - 1, 16, usize::MAX));
}

#[test]
fn address_label_width() {
    assert_eq!(hex_digit_count(0), 1);
    assert_eq!(hex_digit_count(0xF), 1);
    assert_eq!(hex_digit_count(0x10), 2);
    assert_eq!(hex_digit_count(0xFF), 2);
    assert_eq!(hex_digit_count(0x100), 3);
    assert_eq!(hex_digit_count(0xFFFF), 4);
    assert_eq!(hex_digit_count(0x10000), 5);
    assert_eq!(hex_digit_count(u32::MAX as usize), 8);
    for n in [0usize, 1, 15, 16, 255, 256, 4095, 4096, 123456789] {
        assert_eq!(hex_digit_count(n), format!("{:X}", n).chars().count());
    }
}
