use vstd::prelude::*;

use crate::external::push_char;
use crate::route_info::{route, route_view, route_views, Method, RouteInfo, RouteView};
use crate::text::{
    concat, int_decimal, is_unicode_whitespace, join, joined, leading_ws, push_int, push_str, same_text,
    string_from_chars, trim, trimmed,
};

verus! {

/// The routes this module serves, in mounting order: method, path pattern
/// and handler name.
pub open spec fn route_table() -> Seq<RouteView> {
    seq![
        route_view(Method::Get, "/<project_id>/custom_fields?<error>&<count>"@, "show_custom_fields"@),
        route_view(Method::Get, "/<project_id>/custom_fields/new"@, "new_custom_field"@),
        route_view(Method::Post, "/<project_id>/custom_fields/new"@, "post_custom_field"@),
        route_view(Method::Get, "/<project_id>/custom_fields/edit/<field_id>"@, "get_edit_custom_field"@),
        route_view(Method::Post, "/<project_id>/custom_fields/edit/<field_id>"@, "post_edit_custom_field"@),
        route_view(Method::Delete, "/<project_id>/custom_fields/delete/<field_id>"@, "delete_custom_field_route"@),
    ]
}

/// The routes of this module, in the order they are mounted.
pub fn routes() -> (r: Vec<RouteInfo>)
    ensures
        route_views(r@) == route_table(),
{
    let mut r: Vec<RouteInfo> = Vec::new();
    r.push(route(Method::Get, "/<project_id>/custom_fields?<error>&<count>", "show_custom_fields"));
    r.push(route(Method::Get, "/<project_id>/custom_fields/new", "new_custom_field"));
    r.push(route(Method::Post, "/<project_id>/custom_fields/new", "post_custom_field"));
    r.push(route(Method::Get, "/<project_id>/custom_fields/edit/<field_id>", "get_edit_custom_field"));
    r.push(route(Method::Post, "/<project_id>/custom_fields/edit/<field_id>", "post_edit_custom_field"));
    r.push(route(Method::Delete, "/<project_id>/custom_fields/delete/<field_id>", "delete_custom_field_route"));
    assert(route_views(r@) =~= route_table());
    r
}

/// The form that creates or edits a custom field.
#[derive(Debug)]
pub struct CustomFieldForm {
    pub label: String,
    pub field_type: String,
    /// Comma- or newline-separated values for enum type.
    pub enum_values: Option<String>,
    pub sort_order: Option<i32>,
}

/// A custom field definition as it is saved.
#[derive(Debug)]
pub struct CustomFieldDefinitionPayload {
    pub label: String,
    pub field_type: String,
    pub enum_values: Option<Vec<String>>,
    pub sort_order: Option<i32>,
}

/// A separator of enum values: a comma or a line break.
pub open spec fn is_value_separator(c: char) -> bool {
    c == ',' || c == '\n'
}

/// The pieces of `s` between separators (`str::split` on both): always at
/// least one, empty pieces included.
pub open spec fn split_pieces(s: Seq<char>) -> Seq<Seq<char>>
    decreases s.len(),
{
    if s.len() == 0 {
        seq![Seq::empty()]
    } else {
        let p = split_pieces(s.drop_last());
        if is_value_separator(s.last()) {
            p.push(Seq::empty())
        } else {
            p.update(p.len() - 1, p.last().push(s.last()))
        }
    }
}

proof fn lemma_split_pieces_nonempty(s: Seq<char>)
    ensures
        split_pieces(s).len() >= 1,
    decreases s.len(),
{
    if s.len() > 0 {
        lemma_split_pieces_nonempty(s.drop_last());
    }
}

/// The trimmed pieces that are not empty, in order.
pub open spec fn kept_values(pieces: Seq<Seq<char>>) -> Seq<Seq<char>>
    decreases pieces.len(),
{
    if pieces.len() == 0 {
        Seq::empty()
    } else {
        let rest = kept_values(pieces.drop_last());
        if trimmed(pieces.last()).len() > 0 {
            rest.push(trimmed(pieces.last()))
        } else {
            rest
        }
    }
}

/// The enum values written in a form field: split at commas and line
/// breaks, trimmed, empty ones dropped.
pub open spec fn enum_value_list(s: Seq<char>) -> Seq<Seq<char>> {
    kept_values(split_pieces(s))
}

proof fn lemma_kept_values_push(pieces: Seq<Seq<char>>, last: Seq<char>)
    ensures
        kept_values(pieces.push(last)) == (if trimmed(last).len() > 0 {
            kept_values(pieces).push(trimmed(last))
        } else {
            kept_values(pieces)
        }),
{
    assert(pieces.push(last).drop_last() =~= pieces);
}

/// Splits the enum values of a form field.
pub fn parse_enum_values(s: &str) -> (r: Vec<String>)
    ensures
        r@.map_values(|x: String| x@) == enum_value_list(s@),
{
    let v = crate::text::chars_of(s);
    let mut out: Vec<String> = Vec::new();
    let mut current = String::new();
    let mut i: usize = 0;
    while i < v.len()
        invariant
            v@ == s@,
            i <= v@.len(),
            split_pieces(v@.take(i as int)).len() >= 1,
            current@ == split_pieces(v@.take(i as int)).last(),
            out@.map_values(|x: String| x@) == kept_values(split_pieces(v@.take(i as int)).drop_last()),
        decreases v.len() - i,
    {
        let c = v[i];
        let ghost prefix = v@.take(i as int);
        let ghost pieces = split_pieces(prefix);
        assert(v@.take(i + 1).drop_last() =~= prefix);
        if c == ',' || c == '\n' {
            let t = trim(current.as_str());
            let ghost before = out@;
            if !t.as_str().is_empty() {
                out.push(t);
            }
            current = String::new();
            proof {
                let np = split_pieces(v@.take(i + 1));
                assert(np == pieces.push(Seq::empty()));
                assert(np.drop_last() =~= pieces);
                assert(pieces =~= pieces.drop_last().push(pieces.last()));
                lemma_kept_values_push(pieces.drop_last(), pieces.last());
                assert(out@.map_values(|x: String| x@) =~= kept_values(np.drop_last()));
            }
        } else {
            push_char(&mut current, c);
            proof {
                let np = split_pieces(v@.take(i + 1));
                assert(np == pieces.update(pieces.len() - 1, pieces.last().push(c)));
                assert(np.drop_last() =~= pieces.drop_last());
            }
        }
        i = i + 1;
    }
    assert(v@.take(i as int) =~= v@);
    let ghost pieces_all = split_pieces(v@);
    let t = trim(current.as_str());
    let ghost before = out@;
    if !t.as_str().is_empty() {
        out.push(t);
    }
    proof {
        assert(pieces_all =~= pieces_all.drop_last().push(pieces_all.last()));
        lemma_kept_values_push(pieces_all.drop_last(), pieces_all.last());
        assert(out@.map_values(|x: String| x@) =~= kept_values(pieces_all));
    }
    out
}

/// The enum values a saved definition holds for the text of the form's
/// field: the values parsed from it, or none when there is no text or no
/// value is left.
pub open spec fn payload_enum_values(text: Option<Seq<char>>) -> Option<Seq<Seq<char>>> {
    match text {
        Some(s) => if enum_value_list(s).len() == 0 {
            None
        } else {
            Some(enum_value_list(s))
        },
        None => None,
    }
}

/// The definition a form describes: label, type and order as given, the enum
/// values parsed, and none when no value is left.
pub fn form_to_payload(form: CustomFieldForm) -> (p: CustomFieldDefinitionPayload)
    ensures
        (match p.enum_values {
            Some(v) => Some(v@.map_values(|x: String| x@)),
            None => None,
        }) == payload_enum_values(
            match form.enum_values {
                Some(s) => Some(s@),
                None => None,
            },
        ),
        p.label == form.label,
        p.field_type == form.field_type,
        p.sort_order == form.sort_order,
        match form.enum_values {
            Some(s) => if enum_value_list(s@).len() == 0 {
                p.enum_values is None
            } else {
                p.enum_values matches Some(v) && v@.map_values(|x: String| x@) == enum_value_list(s@)
            },
            None => p.enum_values is None,
        },
{
    let enum_values = match &form.enum_values {
        Some(s) => {
            let v = parse_enum_values(s.as_str());
            if v.len() == 0 {
                None
            } else {
                Some(v)
            }
        },
        None => None,
    };
    CustomFieldDefinitionPayload {
        label: form.label,
        field_type: form.field_type,
        enum_values,
        sort_order: form.sort_order,
    }
}

/// `/p/<project_id>/custom_fields`.
pub open spec fn list_url_text(project_id: i32) -> Seq<char> {
    "/p/"@ + int_decimal(project_id as int) + "/custom_fields"@
}

/// The custom field list of a project.
pub fn list_url(project_id: i32) -> (r: String)
    ensures
        r@ == list_url_text(project_id),
{
    let mut r = String::from_str("/p/");
    push_int(&mut r, project_id as i64);
    push_str(&mut r, "/custom_fields");
    r
}

/// The message shown when a field that values use is to be deleted.
pub open spec fn in_use_text(count: i64) -> Seq<char> {
    "Cannot delete: field is in use by "@ + int_decimal(count as int)
        + " requirement version(s). Remove or update those values first."@
}

/// Exec form of `in_use_text`.
pub fn in_use_message(count: i64) -> (r: String)
    ensures
        r@ == in_use_text(count),
{
    let mut r = String::from_str("Cannot delete: field is in use by ");
    push_int(&mut r, count);
    push_str(&mut r, " requirement version(s). Remove or update those values first.");
    r
}

/// The error shown on the list after a refused delete: the in-use message
/// when the error is `in_use` and a count is given.
pub fn delete_error_message(error: Option<&str>, count: Option<i64>) -> (r: Option<String>)
    ensures
        r matches Some(m) ==> count matches Some(n) && m@ == in_use_text(n),
        r is Some <==> (error matches Some(e) && e@ == "in_use"@ && count is Some),
{
    match error {
        Some(e) => {
            if same_text(e, "in_use") {
                match count {
                    Some(n) => Some(in_use_message(n)),
                    None => None,
                }
            } else {
                None
            }
        },
        None => None,
    }
}

/// What deleting a custom field comes to.
#[derive(Debug)]
pub enum DeleteCustomFieldDecision {
    /// There is no such field.
    NotFound,
    /// The field belongs to another project: to that project's list.
    Redirect(String),
    /// Values use the field: refused with this message.
    InUse(String),
    /// It is deleted.
    Delete,
}

/// A missing field is not found; then ownership, then whether any
/// requirement version uses the field (`in_use` is that count).
pub fn delete_custom_field_decision(project_id: i32, field_project_id: Option<i32>, in_use: i64) -> (r:
    DeleteCustomFieldDecision)
    ensures
        field_project_id is None ==> r is NotFound,
        field_project_id matches Some(f) ==> (f != project_id ==> (r matches DeleteCustomFieldDecision::Redirect(
            p,
        ) && p@ == list_url_text(f))),
        field_project_id == Some(project_id) && in_use > 0 ==> (r matches DeleteCustomFieldDecision::InUse(m)
            && m@ == in_use_text(in_use)),
        field_project_id == Some(project_id) && in_use <= 0 ==> r is Delete,
{
    match field_project_id {
        None => DeleteCustomFieldDecision::NotFound,
        Some(f) => if f != project_id {
            DeleteCustomFieldDecision::Redirect(list_url(f))
        } else if in_use > 0 {
            DeleteCustomFieldDecision::InUse(in_use_message(in_use))
        } else {
            DeleteCustomFieldDecision::Delete
        },
    }
}

/// Where the edit page of a field (and its form) sends the user instead of
/// the form: this project's list when the field is missing, the owning
/// project's list when it belongs to another project; `None` to go on.
pub fn custom_field_edit_redirect(project_id: i32, field_project_id: Option<i32>) -> (r: Option<String>)
    ensures
        r is None <==> field_project_id == Some(project_id),
        r matches Some(p) ==> p@ == list_url_text(
            match field_project_id {
                Some(f) => f,
                None => project_id,
            },
        ),
{
    match field_project_id {
        None => Some(list_url(project_id)),
        Some(f) => if f != project_id {
            Some(list_url(f))
        } else {
            None
        },
    }
}

/// After saving a field: the list when it was saved, otherwise the form
/// again (the creation form, or the edit form of `field_id`).
pub fn custom_field_save_redirect(project_id: i32, field_id: Option<i32>, saved: bool) -> (r: String)
    ensures
        saved ==> r@ == list_url_text(project_id),
        !saved ==> r@ == "/p/"@ + int_decimal(project_id as int) + (match field_id {
            Some(f) => "/custom_fields/edit/"@ + int_decimal(f as int),
            None => "/custom_fields/new"@,
        }),
{
    if saved {
        return list_url(project_id);
    }
    let mut r = String::from_str("/p/");
    push_int(&mut r, project_id as i64);
    match field_id {
        Some(f) => {
            push_str(&mut r, "/custom_fields/edit/");
            push_int(&mut r, f as i64);
        },
        None => {
            push_str(&mut r, "/custom_fields/new");
        },
    }
    r
}

/// The enum values shown for editing: one per line.
pub fn enum_values_text(values: &Vec<String>) -> (r: String)
    ensures
        r@ == joined(values@.map_values(|v: String| v@), "\n"@),
{
    join(values, "\n")
}

/// The title of a field's edit page.
pub fn edit_custom_field_title(label: &str) -> (r: String)
    ensures
        r@ == "Edit "@ + label@ + " - Custom Field"@,
{
    let mut r = concat("Edit ", label);
    push_str(&mut r, " - Custom Field");
    r
}

/// No enum value a form yields is empty.
pub proof fn lemma_enum_values_not_empty(s: Seq<char>)
    ensures
        forall|i: int| 0 <= i < enum_value_list(s).len() ==> (#[trigger] enum_value_list(s)[i]).len() > 0,
{
    lemma_kept_values_not_empty(split_pieces(s));
}

proof fn lemma_kept_values_not_empty(pieces: Seq<Seq<char>>)
    ensures
        forall|i: int| 0 <= i < kept_values(pieces).len() ==> (#[trigger] kept_values(pieces)[i]).len() > 0,
    decreases pieces.len(),
{
    if pieces.len() > 0 {
        lemma_kept_values_not_empty(pieces.drop_last());
        let rest = kept_values(pieces.drop_last());
        assert forall|i: int| 0 <= i < kept_values(pieces).len() implies (#[trigger] kept_values(pieces)[i]).len() > 0 by {
            if i < rest.len() {
                assert(kept_values(pieces)[i] == rest[i]);
            }
        }
    }
}

/// No character of `s` separates enum values.
pub open spec fn separator_free(s: Seq<char>) -> bool {
    forall|k: int| 0 <= k < s.len() ==> !is_value_separator(#[trigger] s[k])
}

proof fn lemma_split_append_plain(a: Seq<char>, b: Seq<char>)
    requires
        separator_free(b),
    ensures
        split_pieces(a).len() >= 1,
        split_pieces(a + b) == split_pieces(a).update(
            split_pieces(a).len() - 1,
            split_pieces(a).last() + b,
        ),
    decreases b.len(),
{
    lemma_split_pieces_nonempty(a);
    let p = split_pieces(a);
    if b.len() == 0 {
        assert(a + b =~= a);
        assert(p.last() + b =~= p.last());
        assert(p.update(p.len() - 1, p.last() + b) =~= p);
    } else {
        let b1 = b.drop_last();
        assert(separator_free(b1)) by {
            assert forall|k: int| 0 <= k < b1.len() implies !is_value_separator(#[trigger] b1[k]) by {
                assert(b1[k] == b[k]);
            }
        }
        lemma_split_append_plain(a, b1);
        let c = b.last();
        assert(!is_value_separator(b[b.len() - 1]));
        assert((a + b).drop_last() =~= a + b1);
        assert((a + b).last() == c);
        let q = split_pieces(a + b1);
        assert(q.len() == p.len());
        assert(split_pieces(a + b) == q.update(q.len() - 1, q.last().push(c)));
        assert(q.last() == p.last() + b1);
        assert((p.last() + b1).push(c) =~= p.last() + b);
        assert(split_pieces(a + b) =~= p.update(p.len() - 1, p.last() + b));
    }
}

proof fn lemma_split_joined(vs: Seq<Seq<char>>)
    requires
        vs.len() >= 1,
        forall|i: int| 0 <= i < vs.len() ==> separator_free(#[trigger] vs[i]),
    ensures
        split_pieces(joined(vs, "\n"@)) == vs,
    decreases vs.len(),
{
    reveal_strlit("\n");
    if vs.len() == 1 {
        let e = Seq::<char>::empty();
        assert(separator_free(vs[0]));
        lemma_split_append_plain(e, vs[0]);
        assert(e + vs[0] =~= vs[0]);
        assert(split_pieces(e) =~= seq![e]);
        assert(e + vs[0] =~= vs[0]);
        assert(seq![e].update(0, e + vs[0]) =~= vs);
    } else {
        let init = vs.drop_last();
        assert forall|i: int| 0 <= i < init.len() implies separator_free(#[trigger] init[i]) by {
            assert(init[i] == vs[i]);
        }
        lemma_split_joined(init);
        let a = joined(init, "\n"@) + "\n"@;
        assert(a.len() > 0 && a.last() == '\n');
        assert(a.drop_last() =~= joined(init, "\n"@));
        assert(split_pieces(a) == init.push(Seq::<char>::empty()));
        assert(separator_free(vs[vs.len() - 1]));
        lemma_split_append_plain(a, vs.last());
        assert(joined(vs, "\n"@) == a + vs.last());
        assert(Seq::<char>::empty() + vs.last() =~= vs.last());
        assert(init.push(Seq::<char>::empty()).update(init.len() as int, Seq::<char>::empty() + vs.last()) =~= vs);
    }
}

proof fn lemma_kept_all(vs: Seq<Seq<char>>)
    requires
        forall|i: int| 0 <= i < vs.len() ==> (#[trigger] vs[i]).len() > 0 && trimmed(vs[i]) == vs[i],
    ensures
        kept_values(vs) == vs,
    decreases vs.len(),
{
    if vs.len() > 0 {
        let init = vs.drop_last();
        assert forall|i: int| 0 <= i < init.len() implies (#[trigger] init[i]).len() > 0 && trimmed(init[i]) == init[i] by {
            assert(init[i] == vs[i]);
        }
        lemma_kept_all(init);
        assert(vs.last() == vs[vs.len() - 1]);
        assert(init.push(vs.last()) =~= vs);
    }
}

/// Enum values written one per line, as the edit form shows them, read back
/// as the same values: for a non-empty list of values that are not blank,
/// carry no surrounding whitespace and contain neither `,` nor a line break.
pub proof fn lemma_enum_values_round_trip(vs: Seq<Seq<char>>)
    requires
        vs.len() >= 1,
        forall|i: int|
            0 <= i < vs.len() ==> (#[trigger] vs[i]).len() > 0 && trimmed(vs[i]) == vs[i] && separator_free(vs[i]),
    ensures
        enum_value_list(joined(vs, "\n"@)) == vs,
{
    assert forall|i: int| 0 <= i < vs.len() implies separator_free(#[trigger] vs[i]) by {}
    lemma_split_joined(vs);
    lemma_kept_all(vs);
}

proof fn lemma_all_ws_leading(s: Seq<char>)
    requires
        forall|k: int| 0 <= k < s.len() ==> is_unicode_whitespace(#[trigger] s[k]),
    ensures
        leading_ws(s) == s.len(),
    decreases s.len(),
{
    if s.len() > 0 {
        let t = s.drop_first();
        assert forall|k: int| 0 <= k < t.len() implies is_unicode_whitespace(#[trigger] t[k]) by {
            assert(t[k] == s[k + 1]);
        }
        lemma_all_ws_leading(t);
        assert(is_unicode_whitespace(s[0]));
    }
}

/// The text of a piece that holds only whitespace.
pub open spec fn all_whitespace(s: Seq<char>) -> bool {
    forall|k: int| 0 <= k < s.len() ==> is_unicode_whitespace(#[trigger] s[k])
}

proof fn lemma_split_blank(s: Seq<char>)
    requires
        forall|k: int| 0 <= k < s.len() ==> is_value_separator(#[trigger] s[k]) || is_unicode_whitespace(s[k]),
    ensures
        forall|i: int| 0 <= i < split_pieces(s).len() ==> all_whitespace(#[trigger] split_pieces(s)[i]),
    decreases s.len(),
{
    if s.len() > 0 {
        let t = s.drop_last();
        assert forall|k: int| 0 <= k < t.len() implies is_value_separator(#[trigger] t[k]) || is_unicode_whitespace(t[k]) by {
            assert(t[k] == s[k]);
        }
        lemma_split_blank(t);
        lemma_split_pieces_nonempty(t);
        let p = split_pieces(t);
        let c = s.last();
        assert(is_value_separator(s[s.len() - 1]) || is_unicode_whitespace(s[s.len() - 1]));
        if is_value_separator(c) {
            assert forall|i: int| 0 <= i < split_pieces(s).len() implies all_whitespace(#[trigger] split_pieces(s)[i]) by {
                if i < p.len() {
                    assert(split_pieces(s)[i] == p[i]);
                } else {
                    assert(split_pieces(s)[i] =~= Seq::<char>::empty());
                }
            }
        } else {
            assert forall|i: int| 0 <= i < split_pieces(s).len() implies all_whitespace(#[trigger] split_pieces(s)[i]) by {
                if i < p.len() - 1 {
                    assert(split_pieces(s)[i] == p[i]);
                } else {
                    let last = p.last().push(c);
                    assert(split_pieces(s)[i] == last);
                    assert(all_whitespace(p[p.len() - 1]));
                    assert forall|k: int| 0 <= k < last.len() implies is_unicode_whitespace(#[trigger] last[k]) by {
                        if k < last.len() - 1 {
                            assert(last[k] == p.last()[k]);
                        }
                    }
                }
            }
        }
    }
}

proof fn lemma_kept_blank(pieces: Seq<Seq<char>>)
    requires
        forall|i: int| 0 <= i < pieces.len() ==> all_whitespace(#[trigger] pieces[i]),
    ensures
        kept_values(pieces).len() == 0,
    decreases pieces.len(),
{
    if pieces.len() > 0 {
        let init = pieces.drop_last();
        assert forall|i: int| 0 <= i < init.len() implies all_whitespace(#[trigger] init[i]) by {
            assert(init[i] == pieces[i]);
        }
        lemma_kept_blank(init);
        let last = pieces[pieces.len() - 1];
        assert(all_whitespace(last));
        lemma_all_ws_leading(last);
        assert(last.skip(last.len() as int) =~= Seq::<char>::empty());
    }
}

/// A field that holds nothing but separators and whitespace yields no enum
/// values (and so no list at all in the saved definition).
pub proof fn lemma_blank_enum_values(s: Seq<char>)
    requires
        forall|k: int| 0 <= k < s.len() ==> is_value_separator(#[trigger] s[k]) || is_unicode_whitespace(s[k]),
    ensures
        enum_value_list(s).len() == 0,
{
    lemma_split_blank(s);
    lemma_kept_blank(split_pieces(s));
}

/// Enum values saved by a definition and shown one per line by its edit form
/// come back unchanged when the form is saved again: for a non-empty list
/// of values that are not blank, carry no surrounding whitespace and contain
/// neither `,` nor a line break. A field holding only separators and
/// whitespace saves no values.
pub proof fn lemma_edit_form_keeps_enum_values(vs: Seq<Seq<char>>, blank: Seq<char>)
    requires
        vs.len() >= 1,
        forall|i: int|
            0 <= i < vs.len() ==> (#[trigger] vs[i]).len() > 0 && trimmed(vs[i]) == vs[i] && separator_free(vs[i]),
        forall|k: int| 0 <= k < blank.len() ==> is_value_separator(#[trigger] blank[k]) || is_unicode_whitespace(blank[k]),
    ensures
        payload_enum_values(Some(joined(vs, "\n"@))) == Some(vs),
        payload_enum_values(Some(blank)) is None,
{
    lemma_enum_values_round_trip(vs);
    lemma_blank_enum_values(blank);
}

} // verus!
