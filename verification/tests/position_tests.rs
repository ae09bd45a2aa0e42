use pointercrate::demon::MinimalDemon;
use pointercrate::error::DemonlistError;
use pointercrate::position::PositionShift;

fn demon(position: i16) -> MinimalDemon {
    MinimalDemon { id: 7, position, name: "Bloodbath".to_string() }
}

/// Positions of a list of `n` demons after moving the one at `from` to `to`.
fn positions_after(n: i16, from: i16, to: i16) -> Vec<i16> {
    let mut moving = demon(from);
    let shift = moving.mv(to, n).unwrap();
    (1..=n)
        .map(|p| if p == from { moving.position } else { shift.shift(p) })
        .collect()
}

#[test]
fn move_down_the_list_shifts_the_demons_in_between_up() {
    let mut d = demon(2);
    assert_eq!(d.mv(5, 10), Ok(PositionShift::TowardsLower { from: 2, to: 5 }));
    assert_eq!(d.position, 5);
    assert_eq!(d.id, 7);
    assert_eq!(d.name, "Bloodbath");
}

#[test]
fn move_up_the_list_shifts_the_demons_in_between_down() {
    let mut d = demon(8);
    assert_eq!(d.mv(3, 10), Ok(PositionShift::TowardsHigher { from: 8, to: 3 }));
    assert_eq!(d.position, 3);
}

#[test]
fn move_to_own_position_changes_nothing() {
    let mut d = demon(4);
    assert_eq!(d.mv(4, 10), Ok(PositionShift::Unchanged));
    assert_eq!(d.position, 4);
}

#[test]
fn move_outside_the_list_is_refused() {
    let mut d = demon(4);
    assert_eq!(d.mv(0, 10), Err(DemonlistError::InvalidPosition { maximal: 10 }));
    assert_eq!(d.mv(11, 10), Err(DemonlistError::InvalidPosition { maximal: 10 }));
    assert_eq!(d.mv(-3, 10), Err(DemonlistError::InvalidPosition { maximal: 10 }));
    assert_eq!(d.position, 4);
}

#[test]
fn move_on_empty_list_is_refused() {
    let mut d = demon(1);
    assert_eq!(d.mv(1, 0), Err(DemonlistError::InvalidPosition { maximal: 0 }));
}

#[test]
fn move_to_last_and_first_positions_is_allowed() {
    let mut d = demon(4);
    assert!(d.mv(10, 10).is_ok());
    assert!(d.mv(1, 10).is_ok());
    assert_eq!(d.position, 1);
}

#[test]
fn shift_towards_lower_moves_only_the_range() {
    let shift = PositionShift::TowardsLower { from: 2, to: 5 };
    assert_eq!(shift.shift(1), 1);
    assert_eq!(shift.shift(3), 2);
    assert_eq!(shift.shift(5), 4);
    assert_eq!(shift.shift(6), 6);
}

#[test]
fn shift_towards_higher_moves_only_the_range() {
    let shift = PositionShift::TowardsHigher { from: 8, to: 3 };
    assert_eq!(shift.shift(2), 2);
    assert_eq!(shift.shift(3), 4);
    assert_eq!(shift.shift(7), 8);
    assert_eq!(shift.shift(9), 9);
    assert_eq!(PositionShift::Unchanged.shift(5), 5);
}

#[test]
fn move_leaves_no_hole_and_no_duplicate() {
    for from in 1..=6 {
        for to in 1..=6 {
            let mut positions = positions_after(6, from, to);
            positions.sort();
            assert_eq!(positions, vec![1, 2, 3, 4, 5, 6], "move {} -> {}", from, to);
        }
    }
}

#[test]
fn move_back_restores_the_list() {
    let after = positions_after(6, 2, 5);
    assert_eq!(after, vec![1, 5, 2, 3, 4, 6]);
    let mut back = demon(5);
    let shift = back.mv(2, 6).unwrap();
    let restored: Vec<i16> =
        after.iter().map(|&p| if p == 5 { back.position } else { shift.shift(p) }).collect();
    assert_eq!(restored, vec![1, 2, 3, 4, 5, 6]);
}

#[test]
fn move_keeps_the_order_of_the_other_demons() {
    let after = positions_after(6, 5, 1);
    assert_eq!(after, vec![2, 3, 4, 5, 1, 6]);
    let others: Vec<i16> = after.iter().enumerate().filter(|(i, _)| *i != 4).map(|(_, p)| *p).collect();
    let mut sorted = others.clone();
    sorted.sort();
    assert_eq!(others, sorted);
}
