use siege::battlefield::{grid_cells, Weapon};

#[test]
fn weapon_slot_indices_are_unique() {
    assert_ne!(Weapon::Crossbow.slot_index(), Weapon::Trebuchet.slot_index());
}

#[test]
fn weapon_labels_and_keys() {
    assert_eq!(Weapon::Crossbow.keybind(), "1");
    assert_eq!(Weapon::Trebuchet.keybind(), "2");
    assert_eq!(Weapon::Crossbow.slot_index(), 0);
    assert_eq!(Weapon::Trebuchet.slot_index(), 1);
}

#[test]
fn grid_of_nothing_is_empty() {
    assert!(grid_cells(0, 4).is_empty());
}

#[test]
fn grid_cells_fill_rows_left_to_right() {
    let cells = grid_cells(5, 2);
    assert_eq!(cells.len(), 5);
    assert_eq!((cells[0].col, cells[0].row), (0, 0));
    assert_eq!((cells[1].col, cells[1].row), (1, 0));
    assert_eq!((cells[2].col, cells[2].row), (0, 1));
    assert_eq!((cells[4].col, cells[4].row), (0, 2));
    assert_eq!(cells[4].cols_in_row, 1);
    assert_eq!(cells[0].cols_in_row, 2);
}

#[test]
fn grid_cells_are_distinct() {
    let cells = grid_cells(10, 3);
    for i in 0..cells.len() {
        for j in 0..cells.len() {
            if i != j {
                assert!(cells[i] != cells[j]);
            }
        }
    }
}
