use sargerust::entity_tracker::{
    entities_to_destroy, find_entity, has_level, object_components, NewObject, ObjectComponents, ObjectMask,
};

fn object(mask: ObjectMask) -> NewObject {
    NewObject { guid: 0x0F00_0000_0000_1234, has_position: true, spline_enabled: false, mask }
}

#[test]
fn units_get_their_level_and_display_id() {
    let c = object_components(object(ObjectMask::Unit { level: Some(12), display_id: Some(4502) }));
    assert!(
        c == ObjectComponents {
            guid: 0x0F00_0000_0000_1234,
            location: true,
            spline_walker: false,
            level: Some(12),
            display_id: Some(4502),
            renderable: false,
        }
    );
    let c = object_components(object(ObjectMask::Unit { level: Some(1), display_id: None }));
    assert_eq!(c.display_id, None);
    assert_eq!(c.level, Some(1));
}

#[test]
fn players_are_rendered() {
    let mut o = object(ObjectMask::Player { level: Some(80) });
    o.spline_enabled = true;
    o.has_position = false;
    let c = object_components(o);
    assert!(c.renderable);
    assert_eq!(c.level, Some(80));
    assert_eq!(c.display_id, None);
    assert!(c.spline_walker);
    assert!(!c.location);
}

#[test]
fn other_objects_get_only_their_movement() {
    for mask in [
        ObjectMask::GameObject,
        ObjectMask::Item,
        ObjectMask::Container,
        ObjectMask::DynamicObject,
        ObjectMask::Corpse,
    ] {
        let c = object_components(object(mask));
        assert!(c.location && !c.spline_walker && !c.renderable);
        assert_eq!(c.level, None);
        assert_eq!(c.display_id, None);
    }
}

#[test]
fn units_and_players_need_a_level() {
    assert!(!has_level(ObjectMask::Unit { level: None, display_id: Some(3) }));
    assert!(!has_level(ObjectMask::Player { level: None }));
    assert!(has_level(ObjectMask::Player { level: Some(2) }));
    assert!(has_level(ObjectMask::Corpse));
}

#[test]
fn the_first_entity_with_the_guid_is_found() {
    let known = vec![5, 7, 9, 7];
    assert_eq!(find_entity(&known, 7), Some(1));
    assert_eq!(find_entity(&known, 5), Some(0));
    assert_eq!(find_entity(&known, 8), None);
    assert_eq!(find_entity(&vec![], 8), None);
}

#[test]
fn every_entity_of_the_destroyed_guids_goes() {
    let known = vec![5, 7, 9, 7, 11];
    assert_eq!(entities_to_destroy(&known, &vec![7, 11, 13]), vec![1, 3, 4]);
    assert_eq!(entities_to_destroy(&known, &vec![]), Vec::<usize>::new());
    assert_eq!(entities_to_destroy(&vec![], &vec![1]), Vec::<usize>::new());
}
