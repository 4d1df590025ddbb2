//! The laws the builders obey, stated over the document views their
//! contracts return and proved once for all inputs.

use vstd::prelude::*;

use crate::builders::{
    avg_bucket_view, bucket_script_view, with_optional_keys, zip_path_map,
};
use crate::doc::{DocView, FieldView, GapPolicy};

verus! {

/// The five field keys the two builders use are pairwise distinct.
proof fn lemma_field_keys_distinct()
    ensures
        "bucket_path"@ != "gap_policy"@,
        "bucket_path"@ != "format"@,
        "bucket_path"@ != "script"@,
        "gap_policy"@ != "format"@,
        "gap_policy"@ != "script"@,
        "format"@ != "script"@,
{
    reveal_strlit("bucket_path");
    reveal_strlit("gap_policy");
    reveal_strlit("format");
    reveal_strlit("script");
    assert("bucket_path"@.len() == 11);
    assert("gap_policy"@.len() == 10);
    assert("format"@.len() == 6);
    assert("script"@.len() == 6);
    assert("format"@[0] != "script"@[0]);
}

/// The average-bucket document has the operator name `avg_bucket`; its
/// field map holds `bucket_path` always, `gap_policy` and `format` exactly
/// when they were supplied, and no other keys.
pub proof fn lemma_avg_bucket_fields_exact(
    bucket_path: Seq<char>,
    gap_policy: Option<GapPolicy>,
    format: Option<i64>,
)
    ensures
        avg_bucket_view(bucket_path, gap_policy, format).name == "avg_bucket"@,
        avg_bucket_view(bucket_path, gap_policy, format).fields.dom() == with_optional_keys(
            set!["bucket_path"@],
            gap_policy,
            format,
        ),
        avg_bucket_view(bucket_path, gap_policy, format).fields["bucket_path"@]
            == FieldView::Text(bucket_path),
        gap_policy matches Some(g)
            ==> avg_bucket_view(bucket_path, gap_policy, format).fields["gap_policy"@]
            == FieldView::Text(g.spec_token()),
        format matches Some(f)
            ==> avg_bucket_view(bucket_path, gap_policy, format).fields["format"@]
            == FieldView::Integer(f as int),
{
    lemma_field_keys_distinct();
    assert(avg_bucket_view(bucket_path, gap_policy, format).fields.dom() =~= with_optional_keys(
        set!["bucket_path"@],
        gap_policy,
        format,
    ));
}

/// The bucket-script document has the operator name `bucket_script`; its
/// field map holds `script` and the zipped `bucket_path` map always,
/// `gap_policy` and `format` exactly when they were supplied, and no other
/// keys.
pub proof fn lemma_bucket_script_fields_exact(
    script: Seq<char>,
    vars: Seq<Seq<char>>,
    params: Seq<Seq<char>>,
    gap_policy: Option<GapPolicy>,
    format: Option<i64>,
)
    ensures
        bucket_script_view(script, vars, params, gap_policy, format).name == "bucket_script"@,
        bucket_script_view(script, vars, params, gap_policy, format).fields.dom()
            == with_optional_keys(set!["script"@, "bucket_path"@], gap_policy, format),
        bucket_script_view(script, vars, params, gap_policy, format).fields["script"@]
            == FieldView::Text(script),
        bucket_script_view(script, vars, params, gap_policy, format).fields["bucket_path"@]
            == FieldView::Paths(zip_path_map(vars, params)),
        gap_policy matches Some(g)
            ==> bucket_script_view(script, vars, params, gap_policy, format).fields["gap_policy"@]
            == FieldView::Text(g.spec_token()),
        format matches Some(f)
            ==> bucket_script_view(script, vars, params, gap_policy, format).fields["format"@]
            == FieldView::Integer(f as int),
{
    lemma_field_keys_distinct();
    assert(bucket_script_view(script, vars, params, gap_policy, format).fields.dom()
        =~= with_optional_keys(set!["script"@, "bucket_path"@], gap_policy, format));
}

/// A name that occurs in no position is absent from the zipped map.
proof fn lemma_zip_path_map_fresh(vars: Seq<Seq<char>>, params: Seq<Seq<char>>, k: Seq<char>)
    requires
        vars.len() == params.len(),
        forall|i: int| 0 <= i < vars.len() ==> vars[i] != k,
    ensures
        !zip_path_map(vars, params).dom().contains(k),
    decreases vars.len(),
{
    if vars.len() > 0 {
        lemma_zip_path_map_fresh(vars.drop_last(), params.drop_last(), k);
    }
}

/// The zipped map binds exactly the names that occur in the list, and no
/// other keys.
pub proof fn lemma_zip_path_map_dom(vars: Seq<Seq<char>>, params: Seq<Seq<char>>)
    requires
        vars.len() == params.len(),
    ensures
        forall|k: Seq<char>| #[trigger] zip_path_map(vars, params).dom().contains(k)
            <==> vars.contains(k),
    decreases vars.len(),
{
    if vars.len() > 0 {
        let v2 = vars.drop_last();
        let p2 = params.drop_last();
        lemma_zip_path_map_dom(v2, p2);
        assert forall|k: Seq<char>|
            #[trigger] zip_path_map(vars, params).dom().contains(k) <==> vars.contains(k) by {
            if vars.contains(k) {
                let i = choose|i: int| 0 <= i < vars.len() && vars[i] == k;
                if i < vars.len() - 1 {
                    assert(v2[i] == k);
                    assert(v2.contains(k));
                    assert(zip_path_map(v2, p2).dom().contains(k));
                } else {
                    assert(k == vars.last());
                }
                assert(zip_path_map(vars, params).dom().contains(k));
            }
            if zip_path_map(vars, params).dom().contains(k) {
                if k != vars.last() {
                    assert(zip_path_map(v2, p2).dom().contains(k));
                    assert(v2.contains(k));
                    let i = choose|i: int| 0 <= i < v2.len() && v2[i] == k;
                    assert(vars[i] == k);
                } else {
                    assert(vars[vars.len() - 1] == k);
                }
                assert(vars.contains(k));
            }
        }
    }
}

/// With equal-length lists and pairwise-distinct variable names, the
/// zipped bucket-path map has exactly one entry per name and binds each
/// `vars[i]` to `params[i]`.
pub proof fn lemma_zip_path_map_distinct_names(vars: Seq<Seq<char>>, params: Seq<Seq<char>>)
    requires
        vars.len() == params.len(),
        forall|i: int, j: int| 0 <= i < j < vars.len() ==> vars[i] != vars[j],
    ensures
        zip_path_map(vars, params).dom().finite(),
        zip_path_map(vars, params).dom().len() == vars.len(),
        forall|i: int| 0 <= i < vars.len() ==> zip_path_map(vars, params).dom().contains(
            #[trigger] vars[i],
        ) && zip_path_map(vars, params)[vars[i]] == params[i],
    decreases vars.len(),
{
    if vars.len() > 0 {
        let v2 = vars.drop_last();
        let p2 = params.drop_last();
        lemma_zip_path_map_distinct_names(v2, p2);
        assert(forall|i: int| 0 <= i < v2.len() ==> v2[i] != vars.last());
        lemma_zip_path_map_fresh(v2, p2, vars.last());
        assert(forall|i: int| 0 <= i < v2.len() ==> #[trigger] vars[i] == v2[i]);
    }
}

/// Calling the average-bucket builder twice with identical inputs yields
/// structurally identical documents.
pub proof fn lemma_avg_bucket_deterministic(
    bucket_path: Seq<char>,
    gap_policy: Option<GapPolicy>,
    format: Option<i64>,
    d1: DocView,
    d2: DocView,
)
    requires
        d1 == avg_bucket_view(bucket_path, gap_policy, format),
        d2 == avg_bucket_view(bucket_path, gap_policy, format),
    ensures
        d1 == d2,
{
}

/// Calling the bucket-script builder twice with identical inputs yields the
/// same outcome: both calls fail when the lists differ in length, and both
/// return structurally identical documents when they do not.
pub proof fn lemma_bucket_script_deterministic(
    script: Seq<char>,
    vars: Seq<Seq<char>>,
    params: Seq<Seq<char>>,
    gap_policy: Option<GapPolicy>,
    format: Option<i64>,
    d1: DocView,
    d2: DocView,
)
    requires
        vars.len() == params.len(),
        d1 == bucket_script_view(script, vars, params, gap_policy, format),
        d2 == bucket_script_view(script, vars, params, gap_policy, format),
    ensures
        d1 == d2,
{
}

/// With both optional inputs absent, the field maps hold exactly the
/// required keys: key-set equality, not merely the absence of a null.
pub proof fn lemma_optional_fields_omitted(
    bucket_path: Seq<char>,
    script: Seq<char>,
    vars: Seq<Seq<char>>,
    params: Seq<Seq<char>>,
)
    ensures
        avg_bucket_view(bucket_path, None, None).fields.dom() == set!["bucket_path"@],
        bucket_script_view(script, vars, params, None, None).fields.dom() == set![
            "script"@,
            "bucket_path"@,
        ],
{
    assert(avg_bucket_view(bucket_path, None, None).fields.dom() =~= set!["bucket_path"@]);
    assert(bucket_script_view(script, vars, params, None, None).fields.dom() =~= set![
        "script"@,
        "bucket_path"@,
    ]);
}

} // verus!
