//! The pipeline-aggregation builders: average-bucket and bucket-script.
//!
//! Each builder validates its inputs, zips any positional lists into keyed
//! maps, drops absent optional fields entirely, and wraps the field map
//! under the operator's name.

use vstd::prelude::*;

use crate::doc::{DocView, FieldValue, FieldView, GapPolicy, OperatorDoc};
use crate::keymap::KeyMap;

verus! {

/// The one domain error: the bucket-path variable and parameter lists have
/// different lengths, so they cannot be zipped into a map.
#[derive(Clone, Copy, PartialEq, Eq, Structural, Debug)]
pub struct ArityMismatchError;

impl ArityMismatchError {
    /// A human-readable description of the failure.
    pub fn message(&self) -> (m: String)
        ensures
            m@ == "not the same number of bucket-path variables and parameters were given"@,
    {
        "not the same number of bucket-path variables and parameters were given".to_owned()
    }
}

/// The views of a sequence of strings.
pub open spec fn str_views(s: Seq<String>) -> Seq<Seq<char>> {
    s.map_values(|x: String| x@)
}

/// Zip variable names and path expressions, in order, into a map from name
/// to expression; a repeated name keeps the last paired expression.
pub open spec fn zip_path_map(vars: Seq<Seq<char>>, params: Seq<Seq<char>>) -> Map<
    Seq<char>,
    Seq<char>,
>
    decreases vars.len(),
{
    if vars.len() == 0 || params.len() == 0 {
        Map::empty()
    } else {
        zip_path_map(vars.drop_last(), params.drop_last()).insert(vars.last(), params.last())
    }
}

/// Add the optional gap-policy and format fields to a field map; an absent
/// option leaves the map untouched, so its key is absent from the document.
pub open spec fn with_optional_fields(
    base: Map<Seq<char>, FieldView>,
    gap_policy: Option<GapPolicy>,
    format: Option<i64>,
) -> Map<Seq<char>, FieldView> {
    let with_gap = match gap_policy {
        Some(g) => base.insert("gap_policy"@, FieldView::Text(g.spec_token())),
        None => base,
    };
    match format {
        Some(f) => with_gap.insert("format"@, FieldView::Integer(f as int)),
        None => with_gap,
    }
}

/// The keys of a field map: the required ones, plus each optional one
/// exactly when its input was supplied.
pub open spec fn with_optional_keys(
    base: Set<Seq<char>>,
    gap_policy: Option<GapPolicy>,
    format: Option<i64>,
) -> Set<Seq<char>> {
    let with_gap = match gap_policy {
        Some(g) => base.insert("gap_policy"@),
        None => base,
    };
    match format {
        Some(f) => with_gap.insert("format"@),
        None => with_gap,
    }
}

/// The document the average-bucket builder returns.
pub open spec fn avg_bucket_view(
    bucket_path: Seq<char>,
    gap_policy: Option<GapPolicy>,
    format: Option<i64>,
) -> DocView {
    DocView {
        name: "avg_bucket"@,
        fields: with_optional_fields(
            Map::empty().insert("bucket_path"@, FieldView::Text(bucket_path)),
            gap_policy,
            format,
        ),
    }
}

/// The document the bucket-script builder returns on success.
pub open spec fn bucket_script_view(
    script: Seq<char>,
    vars: Seq<Seq<char>>,
    params: Seq<Seq<char>>,
    gap_policy: Option<GapPolicy>,
    format: Option<i64>,
) -> DocView {
    DocView {
        name: "bucket_script"@,
        fields: with_optional_fields(
            Map::empty().insert("script"@, FieldView::Text(script)).insert(
                "bucket_path"@,
                FieldView::Paths(zip_path_map(vars, params)),
            ),
            gap_policy,
            format,
        ),
    }
}

/// Insert the optional fields shared by every pipeline aggregation.
fn push_optional_fields(
    fields: &mut KeyMap<FieldValue>,
    gap_policy: Option<GapPolicy>,
    format: Option<i64>,
)
    requires
        old(fields).wf(),
    ensures
        final(fields).wf(),
        final(fields)@ == with_optional_fields(old(fields)@, gap_policy, format),
{
    match gap_policy {
        Some(g) => fields.insert("gap_policy".to_owned(), FieldValue::Text(g.token())),
        None => (),
    }
    match format {
        Some(f) => fields.insert("format".to_owned(), FieldValue::Integer(f)),
        None => (),
    }
}

/// Build an average-bucket pipeline aggregation: a document with the single
/// top-level key `avg_bucket`, whose fields hold the bucket path always and
/// each optional input exactly when it was supplied.
pub fn avg_pipeline_agg(
    bucket_path: &str,
    gap_policy: Option<GapPolicy>,
    format: Option<i64>,
) -> (d: OperatorDoc)
    requires
        bucket_path@.len() > 0,
    ensures
        d@ == avg_bucket_view(bucket_path@, gap_policy, format),
        d.wf(),
{
    let mut fields: KeyMap<FieldValue> = KeyMap::new();
    fields.insert("bucket_path".to_owned(), FieldValue::Text(bucket_path.to_owned()));
    push_optional_fields(&mut fields, gap_policy, format);
    OperatorDoc::new("avg_bucket".to_owned(), fields)
}

/// Build a bucket-script pipeline aggregation: a document with the single
/// top-level key `bucket_script`, whose fields hold the script, the map
/// zipped from the two bucket-path lists, and each optional input exactly
/// when it was supplied. Lists of unequal length are rejected, and no
/// document is produced.
pub fn bucket_script_pipeline_agg(
    script: &str,
    bucket_path_var: Vec<String>,
    bucket_path_param: Vec<String>,
    gap_policy: Option<GapPolicy>,
    format: Option<i64>,
) -> (r: Result<OperatorDoc, ArityMismatchError>)
    requires
        script@.len() > 0,
    ensures
        r is Ok <==> bucket_path_var@.len() == bucket_path_param@.len(),
        r matches Ok(d) ==> d@ == bucket_script_view(
            script@,
            str_views(bucket_path_var@),
            str_views(bucket_path_param@),
            gap_policy,
            format,
        ) && d.wf(),
{
    if bucket_path_var.len() != bucket_path_param.len() {
        return Err(ArityMismatchError);
    }
    let ghost var_views = str_views(bucket_path_var@);
    let ghost param_views = str_views(bucket_path_param@);
    let n = bucket_path_var.len();
    let mut paths: KeyMap<String> = KeyMap::new();
    let mut i: usize = 0;
    while i < n
        invariant
            i <= n,
            n == bucket_path_var@.len(),
            n == bucket_path_param@.len(),
            var_views == str_views(bucket_path_var@),
            param_views == str_views(bucket_path_param@),
            paths.wf(),
            paths@ == zip_path_map(var_views.take(i as int), param_views.take(i as int)),
        decreases n - i,
    {
        paths.insert(bucket_path_var[i].clone(), bucket_path_param[i].clone());
        proof {
            lemma_zip_path_map_take_step(var_views, param_views, i as int);
        }
        i += 1;
    }
    proof {
        assert(var_views.take(n as int) =~= var_views);
        assert(param_views.take(n as int) =~= param_views);
    }
    let mut fields: KeyMap<FieldValue> = KeyMap::new();
    fields.insert("script".to_owned(), FieldValue::Text(script.to_owned()));
    fields.insert("bucket_path".to_owned(), FieldValue::Paths(paths));
    push_optional_fields(&mut fields, gap_policy, format);
    Ok(OperatorDoc::new("bucket_script".to_owned(), fields))
}

/// Zipping one more pair extends the zipped map by one insertion.
proof fn lemma_zip_path_map_take_step(vars: Seq<Seq<char>>, params: Seq<Seq<char>>, i: int)
    requires
        vars.len() == params.len(),
        0 <= i < vars.len(),
    ensures
        zip_path_map(vars.take(i + 1), params.take(i + 1)) == zip_path_map(
            vars.take(i),
            params.take(i),
        ).insert(vars[i], params[i]),
{
    assert(vars.take(i + 1).drop_last() =~= vars.take(i));
    assert(params.take(i + 1).drop_last() =~= params.take(i));
}

} // verus!
