use blockcell::error::Error;
use blockcell::vector_index::{
    check_row_dimension, choose_nlist, choose_probe, count_sql, delete_sql, hit_positions_valid,
    index_stats, plan_index, resolve_layout, sanitize_identifier, search_precheck, tags_column,
    training_params, upsert_precheck, vector_count_of, IndexPlan, IndexState,
};

#[test]
fn identifiers_are_sanitized() {
    assert_eq!(sanitize_identifier("memory_vectors"), "memory_vectors");
    assert_eq!(sanitize_identifier("my-table; DROP"), "mytableDROP");
    assert_eq!(sanitize_identifier("表"), "rabitq_vectors");
    assert_eq!(sanitize_identifier(""), "rabitq_vectors");
}

#[test]
fn list_and_probe_counts() {
    assert_eq!(choose_nlist(0), 1);
    assert_eq!(choose_nlist(48), 12);
    assert_eq!(choose_nlist(10_000), 256);
    assert_eq!(choose_probe(48, 5), 12);
    assert_eq!(choose_probe(48, 2), 8);
    assert_eq!(choose_probe(100_000, 100), 64);
    assert_eq!(choose_probe(10, 0), 1);
    assert_eq!(choose_probe(10_000, usize::MAX), 64);
    assert_eq!(training_params(200_000), (256, true));
    assert_eq!(training_params(40), (10, false));
}

#[test]
fn layouts() {
    let l = resolve_layout("/data/vectors.rabitq", "memory vectors", false);
    assert_eq!(l.table_name, "memoryvectors");
    assert_eq!(l.db_path, "/data/vectors.sqlite");
    assert_eq!(l.index_path, "/data/vectors.rabitq");
    let l = resolve_layout("/data/store", "t", false);
    assert_eq!(l.db_path, "/data/store/vectors.sqlite");
    assert_eq!(l.index_path, "/data/store/index.bin");
    let l = resolve_layout("/data/dir.d", "t", true);
    assert_eq!(l.db_path, "/data/dir.d/vectors.sqlite");
}

#[test]
fn index_plans() {
    let shapes: Vec<(usize, usize)> = vec![(3, 3); 48];
    let mut s = IndexState { has_cached_index: true, dimensions: None, dirty: true };
    assert_eq!(plan_index(&mut s, &shapes, true), IndexPlan::Rebuild { dimensions: 3 });
    assert_eq!(s.dimensions, Some(3));
    s.store_clean(true, Some(3));
    assert_eq!(plan_index(&mut s, &shapes, true), IndexPlan::Cached);
    s.mark_dirty();
    assert!(!s.has_cached_index);
    assert_eq!(plan_index(&mut s, &shapes, true), IndexPlan::Rebuild { dimensions: 3 });
    let mut clean = IndexState { has_cached_index: false, dimensions: Some(3), dirty: false };
    assert_eq!(plan_index(&mut clean, &shapes, true), IndexPlan::Load { dimensions: 3 });
    assert_eq!(plan_index(&mut clean, &shapes, false), IndexPlan::Rebuild { dimensions: 3 });
    assert_eq!(plan_index(&mut clean, &shapes[..10], true), IndexPlan::BelowTrainSize { dimensions: 3, reset: false });
    assert_eq!(plan_index(&mut clean, &[], true), IndexPlan::Empty);
    let mixed = vec![(3, 3), (4, 4)];
    assert_eq!(plan_index(&mut clean, &mixed, true), IndexPlan::Inconsistent);
    let (opened, remove) = IndexState::opened(Some(3), 0, true);
    assert!(remove);
    assert!(!opened.dirty);
    let (opened, remove) = IndexState::opened(Some(3), 5, false);
    assert!(!remove);
    assert!(opened.dirty);
}

#[test]
fn dimension_checks() {
    let mut s = IndexState { has_cached_index: false, dimensions: None, dirty: false };
    match upsert_precheck(&mut s, 0) {
        Err(Error::Storage(m)) => assert_eq!(m, "Vector must not be empty"),
        other => panic!("unexpected {:?}", other),
    }
    assert!(upsert_precheck(&mut s, 3).is_ok());
    assert_eq!(s.dimensions, Some(3));
    match upsert_precheck(&mut s, 4) {
        Err(Error::Storage(m)) => assert_eq!(m, "Vector dimension mismatch: expected 3, got 4"),
        other => panic!("unexpected {:?}", other),
    }
    assert_eq!(s.dimensions, Some(3));
    assert!(s.ensure_query_dimensions(3).is_ok());
    match check_row_dimension("m-1", 3, 2) {
        Err(Error::Storage(m)) => {
            assert_eq!(m, "Stored vector dimension mismatch for id m-1: expected 3, got 2")
        }
        other => panic!("unexpected {:?}", other),
    }
    assert!(matches!(search_precheck(0, 0), Some(Ok(()))));
    assert!(matches!(search_precheck(5, 0), Some(Err(Error::Storage(_)))));
    assert!(search_precheck(5, 3).is_none());
    assert!(hit_positions_valid(&[0, 2], 3));
    assert!(!hit_positions_valid(&[0, 3], 3));
    assert_eq!(vector_count_of(-4), 0);
    assert_eq!(vector_count_of(7), 7);
}

#[test]
fn sql_and_stats() {
    assert_eq!(count_sql("t"), "SELECT COUNT(*) FROM \"t\"");
    assert_eq!(delete_sql("t"), "DELETE FROM \"t\" WHERE id = ?1");
    assert_eq!(tags_column(&vec!["a".to_string(), "b".to_string()]), "a,b");
    assert_eq!(tags_column(&vec![]), "");
    let layout = resolve_layout("/x/v.rabitq", "t", false);
    let state = IndexState { has_cached_index: false, dimensions: None, dirty: true };
    let stats = index_stats(&layout, 4, &state);
    assert_eq!(stats.get_str("backend"), Some("rabitq".to_string()));
    assert_eq!(stats.get_str("index_path"), Some("/x/v.rabitq".to_string()));
}

#[test]
fn loading_an_index_keeps_dimension_and_dirtiness() {
    let mut s = IndexState { has_cached_index: false, dimensions: Some(3), dirty: true };
    s.loaded();
    assert!(s.has_cached_index);
    assert_eq!(s.dimensions, Some(3));
    assert!(s.dirty);
}

#[test]
fn sanitized_names_are_stable_and_safe() {
    for input in ["a\"b; c", "", "x_1", "名字"] {
        let once = sanitize_identifier(input);
        assert!(!once.is_empty());
        assert!(!once.contains('"'));
        assert_eq!(sanitize_identifier(&once), once);
    }
}
