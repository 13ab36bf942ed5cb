use wayland_frontend::collections::{OrderedSet, Table};
use wayland_frontend::defs::{MemoryPoolId, ObjectId, SurfaceId};
use wayland_frontend::enums::{DeviceKind, Direction, KeyState};

fn members(set: &OrderedSet<ObjectId>) -> Vec<u32> {
    (0..set.len()).map(|i| set.at(i).value).collect()
}

#[test]
fn ordered_set_keeps_first_insertion_order() {
    let mut set: OrderedSet<ObjectId> = OrderedSet::new();
    assert_eq!(set.len(), 0);
    for value in [5, 3, 5, 9, 3] {
        set.insert(ObjectId::new(value));
    }
    assert_eq!(members(&set), vec![5, 3, 9]);
    assert!(set.contains(ObjectId::new(3)));
    assert!(!set.contains(ObjectId::new(4)));
    assert!(set.remove(ObjectId::new(3)));
    assert!(!set.remove(ObjectId::new(3)));
    assert_eq!(members(&set), vec![5, 9]);
    set.insert(ObjectId::new(3));
    assert_eq!(members(&set), vec![5, 9, 3]);
}

#[test]
fn ordered_set_of_pools() {
    let mut set: OrderedSet<MemoryPoolId> = OrderedSet::new();
    set.insert(MemoryPoolId { value: u64::MAX });
    set.insert(MemoryPoolId { value: 0 });
    assert_eq!(set.at(0), MemoryPoolId { value: u64::MAX });
    assert_eq!(set.at(1), MemoryPoolId { value: 0 });
}

#[test]
fn table_updates_in_place() {
    let mut table: Table<SurfaceId, u32> = Table::new();
    assert_eq!(table.get(SurfaceId::new(1)), None);
    table.insert(SurfaceId::new(1), 10);
    table.insert(SurfaceId::new(2), 20);
    table.insert(SurfaceId::new(1), 30);
    assert_eq!(table.len(), 2);
    assert_eq!(table.key_at(0), SurfaceId::new(1));
    assert_eq!(table.value_at(0), 30);
    assert_eq!(table.key_at(1), SurfaceId::new(2));
    assert_eq!(table.value_at(1), 20);
    assert_eq!(table.get(SurfaceId::new(2)), Some(20));
    assert_eq!(table.get(SurfaceId::new(3)), None);
}

#[test]
fn directions_reverse() {
    assert_eq!(Direction::North.reversed(), Direction::South);
    assert_eq!(Direction::South.reversed(), Direction::North);
    assert_eq!(Direction::East.reversed(), Direction::West);
    assert_eq!(Direction::West.reversed(), Direction::South);
    assert_eq!(Direction::Backward.reversed(), Direction::Forward);
    assert_eq!(Direction::Forward.reversed(), Direction::Backward);
    assert_eq!(Direction::Begin.reversed(), Direction::End);
    assert_eq!(Direction::End.reversed(), Direction::Begin);
    assert_eq!(Direction::Up.reversed(), Direction::Up);
    assert_eq!(Direction::Workspace.reversed(), Direction::Workspace);
    assert_eq!(Direction::Nowhere.reversed(), Direction::Nowhere);
}

#[test]
fn planar_directions_are_the_four_of_the_compass() {
    for direction in [Direction::North, Direction::East, Direction::South, Direction::West] {
        assert!(direction.is_planar());
    }
    for direction in [
        Direction::Nowhere,
        Direction::Backward,
        Direction::Forward,
        Direction::Begin,
        Direction::End,
        Direction::Up,
        Direction::Workspace,
    ] {
        assert!(!direction.is_planar());
    }
}

#[test]
fn device_kinds_have_names_and_key_states_values() {
    assert_eq!(DeviceKind::Keyboard.name(), "keyboard");
    assert_eq!(DeviceKind::Mouse.name(), "mouse");
    assert_eq!(DeviceKind::Touchpad.name(), "touchpad");
    assert_eq!(DeviceKind::Unknown.name(), "unknown device");
    assert_eq!(KeyState::Released.value(), 0);
    assert_eq!(KeyState::Pressed.value(), 1);
}
