use secure_website::grid::{get_box, set_box, write_masks};
use secure_website::{HEIGHT, WIDTH};

#[test]
fn board_is_five_by_five() {
    assert_eq!(WIDTH, 5);
    assert_eq!(HEIGHT, 5);
}

#[test]
fn box_sits_at_row_times_width_plus_column() {
    assert_eq!(set_box(0, 2, 2, true), 0b1_0000_0000_0000);
    assert_eq!(set_box(0, 0, 0, true), 1);
    assert_eq!(set_box(0, 4, 4, true), 1 << 24);
    assert_eq!(set_box(0, 1, 3, true), 1 << 16);
    assert!(get_box(1 << 16, 1, 3));
    assert!(!get_box(1 << 16, 3, 1));
    assert!(get_box(1 << 8, 3, 1));
}

#[test]
fn clearing_leaves_the_other_bits() {
    assert_eq!(set_box(u64::MAX, 2, 2, false), u64::MAX & !(1 << 12));
    assert_eq!(set_box(0b1011, 1, 0, false), 0b1001);
    assert_eq!(set_box(0b1011, 2, 0, false), 0b1011);
    assert_eq!(set_box(1 << 40, 0, 0, true), (1 << 40) | 1);
}

#[test]
fn checking_twice_is_checking_once() {
    for boxes in [0u64, 0x1ff_ffff, 0b1010_1010, u64::MAX] {
        for x in 0..WIDTH {
            for y in 0..HEIGHT {
                let once = set_box(boxes, x, y, true);
                assert_eq!(set_box(once, x, y, true), once);
                assert!(get_box(once, x, y));
                let cleared = set_box(once, x, y, false);
                assert_eq!(cleared, set_box(boxes, x, y, false));
                assert!(!get_box(cleared, x, y));
                if !get_box(boxes, x, y) {
                    assert_eq!(cleared, boxes);
                }
            }
        }
    }
}

#[test]
fn board_shows_the_last_write_to_each_box() {
    let writes = [(0, 0, true), (2, 2, true), (0, 0, false), (4, 1, true), (2, 2, true), (4, 1, false), (4, 1, true)];
    let mut boxes = 0u64;
    for (x, y, checked) in writes {
        boxes = set_box(boxes, x, y, checked);
    }
    for x in 0..WIDTH {
        for y in 0..HEIGHT {
            let expected = (x, y) == (2, 2) || (x, y) == (4, 1);
            assert_eq!(get_box(boxes, x, y), expected);
        }
    }
    assert_eq!(boxes, (1 << 12) | (1 << 9));
}

#[test]
fn masks_apply_a_write_in_one_expression() {
    assert_eq!(write_masks(2, 2, true), (1 << 12, u64::MAX));
    assert_eq!(write_masks(2, 2, false), (0, !(1 << 12)));
    for boxes in [0u64, 0x1ff_ffff, 0b1010_1010, u64::MAX] {
        for x in 0..WIDTH {
            for y in 0..HEIGHT {
                for checked in [true, false] {
                    let (set, keep) = write_masks(x, y, checked);
                    assert_eq!((boxes | set) & keep, set_box(boxes, x, y, checked));
                }
            }
        }
    }
}
