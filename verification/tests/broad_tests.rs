use gyrii_core::broad::{
    classify_pair, collect_collidables, dedup_pairs, ray_candidates, Collidable, PairClass,
    RayCastEntry,
};

#[test]
fn collidables_tag_bodies_then_triggers() {
    let body_ids: Vec<u64> = vec![10, 20];
    let trigger_ids: Vec<u64> = vec![30];
    let items = collect_collidables(&body_ids, &trigger_ids);
    assert_eq!(items.len(), 3);
    assert_eq!(
        items[0],
        Collidable { id: 10, rigidbody_index: 0, trigger_index: 0, is_trigger: false, collidable_index: 0 }
    );
    assert_eq!(
        items[1],
        Collidable { id: 20, rigidbody_index: 1, trigger_index: 0, is_trigger: false, collidable_index: 1 }
    );
    assert_eq!(
        items[2],
        Collidable { id: 30, rigidbody_index: 0, trigger_index: 0, is_trigger: true, collidable_index: 2 }
    );
}

#[test]
fn dedup_drops_self_pairs_and_mirrors() {
    let raw: Vec<(usize, usize)> = vec![(1, 2), (2, 1), (3, 3), (0, 2), (1, 2)];
    let pairs = dedup_pairs(&raw);
    assert_eq!(pairs, vec![(1, 2), (0, 2)]);
    // No pair (i, i), and no (j, i) next to (i, j).
    for &(a, b) in &pairs {
        assert!(a < b);
        assert!(!pairs.contains(&(b, a)));
    }
}

#[test]
fn dedup_of_empty_is_empty() {
    let raw: Vec<(usize, usize)> = Vec::new();
    assert!(dedup_pairs(&raw).is_empty());
}

fn body_item(index: usize) -> Collidable {
    Collidable {
        id: 100 + index as u64,
        rigidbody_index: index,
        trigger_index: 0,
        is_trigger: false,
        collidable_index: index,
    }
}

fn trigger_item(index: usize, collidable_index: usize) -> Collidable {
    Collidable {
        id: 200 + index as u64,
        rigidbody_index: 0,
        trigger_index: index,
        is_trigger: true,
        collidable_index,
    }
}

#[test]
fn pair_classification() {
    let b0 = body_item(0);
    let b1 = body_item(1);
    let t0 = trigger_item(0, 2);
    let t1 = trigger_item(1, 3);
    assert_eq!(classify_pair(&b0, &b1), PairClass::BodyBody);
    assert_eq!(
        classify_pair(&t0, &b1),
        PairClass::TriggerBody { trigger_index: 0, body_index: 1 }
    );
    assert_eq!(
        classify_pair(&b0, &t1),
        PairClass::TriggerBody { trigger_index: 1, body_index: 0 }
    );
    assert_eq!(classify_pair(&t0, &t1), PairClass::TriggerTrigger);
}

#[test]
fn ray_candidates_drop_triggers_and_duplicates() {
    let items = vec![body_item(0), body_item(1), trigger_item(0, 2)];
    // The traversal visited a trigger leaf and one body leaf twice.
    let visited: Vec<usize> = vec![2, 1, 1, 0];
    assert_eq!(ray_candidates(&items, &visited), vec![1, 0]);
}

#[test]
fn raycast_entry_holds_its_indices() {
    let e = RayCastEntry { raycast_id: 77, raycast_index: 4 };
    assert_eq!(e.raycast_id, 77);
    assert_eq!(e.raycast_index, 4);
}
