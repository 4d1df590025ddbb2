use pipeline_aggs::builders::{avg_pipeline_agg, bucket_script_pipeline_agg, ArityMismatchError};
use pipeline_aggs::doc::{FieldValue, GapPolicy};
use pipeline_aggs::keymap::KeyMap;

#[test]
fn avg_bucket_minimal() {
    let d = avg_pipeline_agg("my_bucket>avg", None, None);
    assert_eq!(d.operator().as_str(), "avg_bucket");
    assert_eq!(d.fields().len(), 1);
    assert_eq!(
        d.fields().get(&"bucket_path".to_string()),
        Some(&FieldValue::Text("my_bucket>avg".to_string()))
    );
}

#[test]
fn avg_bucket_with_options() {
    let d = avg_pipeline_agg("b", Some(GapPolicy::Skip), Some(2));
    assert_eq!(d.operator().as_str(), "avg_bucket");
    assert_eq!(d.fields().len(), 3);
    assert_eq!(
        d.fields().get(&"bucket_path".to_string()),
        Some(&FieldValue::Text("b".to_string()))
    );
    assert_eq!(
        d.fields().get(&"gap_policy".to_string()),
        Some(&FieldValue::Text("skip".to_string()))
    );
    assert_eq!(
        d.fields().get(&"format".to_string()),
        Some(&FieldValue::Integer(2))
    );
}

#[test]
fn avg_bucket_omits_absent_optionals() {
    let d = avg_pipeline_agg("p", None, None);
    assert_eq!(d.fields().len(), 1);
    assert!(d.fields().get(&"bucket_path".to_string()).is_some());
    assert!(d.fields().get(&"gap_policy".to_string()).is_none());
    assert!(d.fields().get(&"format".to_string()).is_none());
}

#[test]
fn avg_bucket_insert_zeros_token() {
    let d = avg_pipeline_agg("p", Some(GapPolicy::InsertZeros), None);
    assert_eq!(
        d.fields().get(&"gap_policy".to_string()),
        Some(&FieldValue::Text("insert_zeros".to_string()))
    );
}

#[test]
fn avg_bucket_idempotent() {
    let d1 = avg_pipeline_agg("b", Some(GapPolicy::InsertZeros), Some(7));
    let d2 = avg_pipeline_agg("b", Some(GapPolicy::InsertZeros), Some(7));
    assert_eq!(d1, d2);
}

#[test]
fn gap_policy_tokens() {
    assert_eq!(GapPolicy::Skip.token(), "skip");
    assert_eq!(GapPolicy::InsertZeros.token(), "insert_zeros");
}

#[test]
fn bucket_script_two_paths() {
    let d = bucket_script_pipeline_agg(
        "params.a + params.b",
        vec!["a".to_string(), "b".to_string()],
        vec!["path.a".to_string(), "path.b".to_string()],
        None,
        None,
    )
    .unwrap();
    assert_eq!(d.operator().as_str(), "bucket_script");
    assert_eq!(d.fields().len(), 2);
    assert_eq!(
        d.fields().get(&"script".to_string()),
        Some(&FieldValue::Text("params.a + params.b".to_string()))
    );
    match d.fields().get(&"bucket_path".to_string()) {
        Some(FieldValue::Paths(m)) => {
            assert_eq!(m.len(), 2);
            assert_eq!(m.get(&"a".to_string()), Some(&"path.a".to_string()));
            assert_eq!(m.get(&"b".to_string()), Some(&"path.b".to_string()));
        }
        other => panic!("expected a path map, got {:?}", other),
    }
}

#[test]
fn bucket_script_empty_lists() {
    let d = bucket_script_pipeline_agg("x", vec![], vec![], None, None).unwrap();
    assert_eq!(d.fields().len(), 2);
    match d.fields().get(&"bucket_path".to_string()) {
        Some(FieldValue::Paths(m)) => assert_eq!(m.len(), 0),
        other => panic!("expected a path map, got {:?}", other),
    }
}

#[test]
fn bucket_script_with_options() {
    let d = bucket_script_pipeline_agg(
        "params.v * 2",
        vec!["v".to_string()],
        vec!["sales>sum".to_string()],
        Some(GapPolicy::Skip),
        Some(0),
    )
    .unwrap();
    assert_eq!(d.fields().len(), 4);
    assert_eq!(
        d.fields().get(&"gap_policy".to_string()),
        Some(&FieldValue::Text("skip".to_string()))
    );
    assert_eq!(
        d.fields().get(&"format".to_string()),
        Some(&FieldValue::Integer(0))
    );
}

#[test]
fn bucket_script_arity_mismatch() {
    let r = bucket_script_pipeline_agg(
        "x",
        vec!["a".to_string(), "b".to_string()],
        vec!["p1".to_string()],
        None,
        None,
    );
    assert_eq!(r, Err(ArityMismatchError));
}

#[test]
fn bucket_script_arity_mismatch_longer_params() {
    let r = bucket_script_pipeline_agg(
        "x",
        vec!["a".to_string(), "b".to_string()],
        vec!["p1".to_string(), "p2".to_string(), "p3".to_string()],
        None,
        None,
    );
    assert_eq!(r, Err(ArityMismatchError));
}

#[test]
fn bucket_script_duplicate_name_last_write_wins() {
    let d = bucket_script_pipeline_agg(
        "x",
        vec!["a".to_string(), "a".to_string()],
        vec!["p1".to_string(), "p2".to_string()],
        None,
        None,
    )
    .unwrap();
    match d.fields().get(&"bucket_path".to_string()) {
        Some(FieldValue::Paths(m)) => {
            assert_eq!(m.len(), 1);
            assert_eq!(m.get(&"a".to_string()), Some(&"p2".to_string()));
        }
        other => panic!("expected a path map, got {:?}", other),
    }
}

#[test]
fn bucket_script_idempotent() {
    let vars = vec!["a".to_string(), "b".to_string()];
    let params = vec!["p1".to_string(), "p2".to_string()];
    let d1 = bucket_script_pipeline_agg("x", vars.clone(), params.clone(), Some(GapPolicy::Skip), None);
    let d2 = bucket_script_pipeline_agg("x", vars, params, Some(GapPolicy::Skip), None);
    assert_eq!(d1, d2);
}

#[test]
fn arity_mismatch_message() {
    assert_eq!(
        ArityMismatchError.message(),
        "not the same number of bucket-path variables and parameters were given"
    );
}

#[test]
fn keymap_insert_get_len() {
    let mut m: KeyMap<String> = KeyMap::new();
    assert_eq!(m.len(), 0);
    m.insert("k1".to_string(), "v1".to_string());
    m.insert("k2".to_string(), "v2".to_string());
    assert_eq!(m.len(), 2);
    m.insert("k1".to_string(), "v3".to_string());
    assert_eq!(m.len(), 2);
    assert_eq!(m.get(&"k1".to_string()), Some(&"v3".to_string()));
    assert_eq!(m.get(&"k2".to_string()), Some(&"v2".to_string()));
    assert_eq!(m.get(&"k3".to_string()), None);
    let e = m.entry_at(0);
    assert_eq!(e.0, "k1");
    assert_eq!(e.1, "v3");
}
