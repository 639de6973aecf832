use vstd::prelude::*;

use crate::route_info::{route, route_view, route_views, Method, RouteInfo, RouteView};
use crate::text::{concat, int_decimal, is_blank, push_int, push_str, trimmed};

verus! {

/// The routes this module serves, in mounting order: method, path pattern
/// and handler name.
pub open spec fn route_table() -> Seq<RouteView> {
    seq![
        route_view(Method::Get, "/<namespace>/<project_id>/baselines"@, "show_baselines"@),
        route_view(Method::Get, "/<namespace>/<project_id>/baselines/new"@, "new_baseline_form"@),
        route_view(Method::Post, "/<namespace>/<project_id>/baselines/new"@, "post_baseline"@),
        route_view(Method::Get, "/<namespace>/<project_id>/baselines/<baseline_id>"@, "show_baseline"@),
    ]
}

/// The routes of this module, in the order they are mounted.
pub fn routes() -> (r: Vec<RouteInfo>)
    ensures
        route_views(r@) == route_table(),
{
    let mut r: Vec<RouteInfo> = Vec::new();
    r.push(route(Method::Get, "/<namespace>/<project_id>/baselines", "show_baselines"));
    r.push(route(Method::Get, "/<namespace>/<project_id>/baselines/new", "new_baseline_form"));
    r.push(route(Method::Post, "/<namespace>/<project_id>/baselines/new", "post_baseline"));
    r.push(route(Method::Get, "/<namespace>/<project_id>/baselines/<baseline_id>", "show_baseline"));
    assert(route_views(r@) =~= route_table());
    r
}

/// The form that creates a baseline.
#[derive(Debug)]
pub struct CreateBaselineForm {
    pub name: String,
    pub description: Option<String>,
}

/// A baseline as it is created.
#[derive(Debug)]
pub struct NewBaseline {
    pub name: String,
    pub description: Option<String>,
}

/// The baseline a form creates: its name, and its description unless that is
/// blank.
pub fn new_baseline_payload(form: &CreateBaselineForm) -> (r: NewBaseline)
    ensures
        r.name == form.name,
        match form.description {
            Some(d) => if trimmed(d@).len() == 0 {
                r.description is None
            } else {
                r.description == Some(d)
            },
            None => r.description is None,
        },
{
    let description = match &form.description {
        Some(d) => if is_blank(d.as_str()) {
            None
        } else {
            Some(d.clone())
        },
        None => None,
    };
    NewBaseline { name: form.name.clone(), description }
}

/// `/<slug>/baselines`.
pub fn baselines_list_url(project_slug: &str) -> (r: String)
    ensures
        r@ == "/"@ + project_slug@ + "/baselines"@,
{
    let mut r = concat("/", project_slug);
    push_str(&mut r, "/baselines");
    r
}

/// `/<slug>/baselines/new`.
pub fn new_baseline_url(project_slug: &str) -> (r: String)
    ensures
        r@ == "/"@ + project_slug@ + "/baselines/new"@,
{
    let mut r = concat("/", project_slug);
    push_str(&mut r, "/baselines/new");
    r
}

/// The title of a baseline's page.
pub fn baseline_title(name: &str) -> (r: String)
    ensures
        r@ == "Baseline: "@ + name@,
{
    concat("Baseline: ", name)
}

/// A requirement as a baseline froze it.
#[derive(Debug)]
pub struct BaselineRequirement {
    pub id: i32,
    pub reference_code: String,
    pub current_version_id: Option<i32>,
}

/// A test reference known to a baseline: the test's id and its code.
#[derive(Debug)]
pub struct TestReference {
    pub id: i32,
    pub reference_code: String,
}

/// One traceability link of a baseline, with the references shown for it.
#[derive(Debug)]
pub struct TraceabilityLink {
    pub requirement_id: i32,
    pub verification_id: i32,
    pub requirement_reference: String,
    pub test_reference: String,
    pub version_id: Option<i32>,
}

/// The reference of the last requirement with the id (as a map collected
/// from the list keeps), if any.
pub open spec fn requirement_reference(reqs: Seq<BaselineRequirement>, id: i32) -> Option<Seq<char>>
    decreases reqs.len(),
{
    if reqs.len() == 0 {
        None
    } else if reqs.last().id == id {
        Some(reqs.last().reference_code@)
    } else {
        requirement_reference(reqs.drop_last(), id)
    }
}

/// The current version of the last requirement with the id that has one.
pub open spec fn requirement_version(reqs: Seq<BaselineRequirement>, id: i32) -> Option<i32>
    decreases reqs.len(),
{
    if reqs.len() == 0 {
        None
    } else if reqs.last().id == id && reqs.last().current_version_id is Some {
        reqs.last().current_version_id
    } else {
        requirement_version(reqs.drop_last(), id)
    }
}

/// The code of the last test with the id, if any.
pub open spec fn test_reference(tests: Seq<TestReference>, id: i32) -> Option<Seq<char>>
    decreases tests.len(),
{
    if tests.len() == 0 {
        None
    } else if tests.last().id == id {
        Some(tests.last().reference_code@)
    } else {
        test_reference(tests.drop_last(), id)
    }
}

/// A known reference, or `#<id>`.
pub open spec fn reference_or_number(r: Option<Seq<char>>, id: i32) -> Seq<char> {
    match r {
        Some(t) => t,
        None => "#"@ + int_decimal(id as int),
    }
}

fn find_requirement(reqs: &Vec<BaselineRequirement>, id: i32) -> (r: Option<usize>)
    ensures
        match r {
            Some(i) => i < reqs@.len() && requirement_reference(reqs@, id) == Some(reqs@[i as int].reference_code@),
            None => requirement_reference(reqs@, id) is None,
        },
{
    let mut i = reqs.len();
    assert(reqs@.take(i as int) =~= reqs@);
    while i > 0
        invariant
            i <= reqs@.len(),
            requirement_reference(reqs@, id) == requirement_reference(reqs@.take(i as int), id),
        decreases i,
    {
        assert(reqs@.take(i as int).drop_last() =~= reqs@.take(i - 1));
        if reqs[i - 1].id == id {
            return Some(i - 1);
        }
        i = i - 1;
    }
    None
}

fn find_version(reqs: &Vec<BaselineRequirement>, id: i32) -> (r: Option<i32>)
    ensures
        r == requirement_version(reqs@, id),
{
    let mut i = reqs.len();
    assert(reqs@.take(i as int) =~= reqs@);
    while i > 0
        invariant
            i <= reqs@.len(),
            requirement_version(reqs@, id) == requirement_version(reqs@.take(i as int), id),
        decreases i,
    {
        assert(reqs@.take(i as int).drop_last() =~= reqs@.take(i - 1));
        if reqs[i - 1].id == id && reqs[i - 1].current_version_id.is_some() {
            return reqs[i - 1].current_version_id;
        }
        i = i - 1;
    }
    None
}

fn find_test(tests: &Vec<TestReference>, id: i32) -> (r: Option<usize>)
    ensures
        match r {
            Some(i) => i < tests@.len() && test_reference(tests@, id) == Some(tests@[i as int].reference_code@),
            None => test_reference(tests@, id) is None,
        },
{
    let mut i = tests.len();
    assert(tests@.take(i as int) =~= tests@);
    while i > 0
        invariant
            i <= tests@.len(),
            test_reference(tests@, id) == test_reference(tests@.take(i as int), id),
        decreases i,
    {
        assert(tests@.take(i as int).drop_last() =~= tests@.take(i - 1));
        if tests[i - 1].id == id {
            return Some(i - 1);
        }
        i = i - 1;
    }
    None
}

fn reference_text(known: Option<&String>, id: i32) -> (r: String)
    ensures
        r@ == reference_or_number(
            match known {
                Some(t) => Some(t@),
                None => None,
            },
            id,
        ),
{
    match known {
        Some(t) => t.clone(),
        None => {
            let mut r = String::from_str("#");
            push_int(&mut r, id as i64);
            r
        },
    }
}

/// The test references a baseline shows: those of its own snapshot, or,
/// for a baseline made before snapshots were kept, the project's current
/// tests.
pub fn baseline_test_references(snapshot: Vec<TestReference>, current: Vec<TestReference>) -> (r: Vec<TestReference>)
    ensures
        r@ == (if snapshot@.len() == 0 {
            current@
        } else {
            snapshot@
        }),
{
    if snapshot.len() == 0 {
        current
    } else {
        snapshot
    }
}

/// The traceability of a baseline: one entry per (requirement, test) link,
/// in order, with the requirement's reference and current version and the
/// test's reference (`#<id>` for what is not known).
pub fn baseline_traceability(
    reqs: &Vec<BaselineRequirement>,
    tests: &Vec<TestReference>,
    links: &Vec<(i32, i32)>,
) -> (r: Vec<TraceabilityLink>)
    ensures
        r@.len() == links@.len(),
        forall|i: int|
            0 <= i < links@.len() ==> {
                &&& (#[trigger] r@[i]).requirement_id == links@[i].0
                &&& r@[i].verification_id == links@[i].1
                &&& r@[i].requirement_reference@ == reference_or_number(
                    requirement_reference(reqs@, links@[i].0),
                    links@[i].0,
                )
                &&& r@[i].test_reference@ == reference_or_number(test_reference(tests@, links@[i].1), links@[i].1)
                &&& r@[i].version_id == requirement_version(reqs@, links@[i].0)
            },
{
    let mut out: Vec<TraceabilityLink> = Vec::new();
    let mut k: usize = 0;
    while k < links.len()
        invariant
            k <= links@.len(),
            out@.len() == k,
            forall|i: int|
                0 <= i < k ==> {
                    &&& (#[trigger] out@[i]).requirement_id == links@[i].0
                    &&& out@[i].verification_id == links@[i].1
                    &&& out@[i].requirement_reference@ == reference_or_number(
                        requirement_reference(reqs@, links@[i].0),
                        links@[i].0,
                    )
                    &&& out@[i].test_reference@ == reference_or_number(
                        test_reference(tests@, links@[i].1),
                        links@[i].1,
                    )
                    &&& out@[i].version_id == requirement_version(reqs@, links@[i].0)
                },
        decreases links.len() - k,
    {
        let (rid, tid) = links[k];
        let req_ref = match find_requirement(reqs, rid) {
            Some(i) => reference_text(Some(&reqs[i].reference_code), rid),
            None => reference_text(None, rid),
        };
        let test_ref = match find_test(tests, tid) {
            Some(i) => reference_text(Some(&tests[i].reference_code), tid),
            None => reference_text(None, tid),
        };
        let version_id = find_version(reqs, rid);
        out.push(
            TraceabilityLink {
                requirement_id: rid,
                verification_id: tid,
                requirement_reference: req_ref,
                test_reference: test_ref,
                version_id,
            },
        );
        k = k + 1;
    }
    out
}

/// Where the page of a baseline redirects instead of showing it: to this
/// project's baselines when it is missing, to the owning project's baselines
/// (`owner_slug`) when it belongs to another project; `None` to show it.
pub fn baseline_page_redirect(
    project_slug: &str,
    project_id: i32,
    baseline_project_id: Option<i32>,
    owner_slug: &str,
) -> (r: Option<String>)
    ensures
        baseline_project_id is None ==> (r matches Some(p) && p@ == "/"@ + project_slug@ + "/baselines"@),
        baseline_project_id matches Some(b) ==> (b == project_id <==> r is None),
        baseline_project_id matches Some(b) && b != project_id ==> (r matches Some(p) && p@ == "/"@
            + owner_slug@ + "/baselines"@),
{
    match baseline_project_id {
        None => Some(baselines_list_url(project_slug)),
        Some(b) => if b != project_id {
            Some(baselines_list_url(owner_slug))
        } else {
            None
        },
    }
}

} // verus!
