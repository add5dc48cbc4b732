use vstd::prelude::*;
use vstd::string::{StrSliceExecFns, StringExecFns};

use crate::text::{
    contains_run, escape_html, lemma_run_between, lemma_run_in_left, lemma_run_in_right,
    push_escaped,
};

verus! {

/// How an input is shown.
#[derive(Clone, Copy, Debug, PartialEq, Eq, Structural)]
pub enum InputKind {
    Text,
    Number,
    DateTimeLocal,
    TextArea,
}

/// One input of a form; an empty label shows none.
#[derive(Clone, Copy, Debug)]
pub struct FormField {
    pub name: &'static str,
    pub label: &'static str,
    pub placeholder: &'static str,
    pub kind: InputKind,
    pub required: bool,
}

pub open spec fn input_type_of(k: InputKind) -> Seq<char> {
    match k {
        InputKind::Text => "text"@,
        InputKind::Number => "number"@,
        InputKind::DateTimeLocal => "datetime-local"@,
        InputKind::TextArea => "textarea"@,
    }
}

pub open spec fn label_markup(f: FormField) -> Seq<char> {
    if f.label@.len() == 0 {
        seq![]
    } else {
        "<label class=\"uk-form-label\">"@ + f.label@ + "</label>"@
    }
}

pub open spec fn required_markup(f: FormField) -> Seq<char> {
    if f.required {
        " required"@
    } else {
        seq![]
    }
}

/// The attributes every control carries: its name, its placeholder and
/// whether it is required.
pub open spec fn attrs_markup(f: FormField) -> Seq<char> {
    " name=\""@ + f.name@ + "\" placeholder=\""@ + f.placeholder@ + "\""@ + required_markup(f)
}

/// The control of a field; a value, where there is one, is escaped.
pub open spec fn control_markup(f: FormField, value: Option<Seq<char>>) -> Seq<char> {
    if f.kind == InputKind::TextArea {
        "<textarea class=\"uk-textarea\" rows=\"5\""@ + attrs_markup(f) + ">"@ + area_content_markup(value)
            + "</textarea>"@
    } else {
        "<input class=\"uk-input\" type=\""@ + input_type_of(f.kind) + "\""@ + attrs_markup(f)
            + value_attr_markup(value) + ">"@
    }
}

pub open spec fn field_markup(f: FormField, value: Option<Seq<char>>) -> Seq<char> {
    "<div class=\"uk-margin\">"@ + label_markup(f) + control_markup(f, value) + "</div>"@
}

/// The fields in order, each with its value (none for an empty form).
pub open spec fn form_markup(fields: Seq<FormField>, values: Seq<Option<Seq<char>>>) -> Seq<char>
    decreases fields.len(),
{
    if fields.len() == 0 {
        seq![]
    } else {
        form_markup(fields.drop_last(), values.drop_last()) + field_markup(
            fields.last(),
            values[fields.len() - 1],
        )
    }
}

/// The names of a form's inputs, in order.
pub open spec fn input_names(fields: Seq<FormField>) -> Seq<Seq<char>> {
    fields.map_values(|f: FormField| f.name@)
}

pub open spec fn opt_view(o: Option<&str>) -> Option<Seq<char>> {
    match o {
        Some(s) => Some(s@),
        None => None,
    }
}

/// The value shown for an optional field: its text, or nothing at all.
pub open spec fn text_or_empty(o: Option<String>) -> Seq<char> {
    match o {
        Some(s) => s@,
        None => seq![],
    }
}

pub(crate) fn as_text(o: &Option<String>) -> (r: &str)
    ensures
        r@ == text_or_empty(*o),
{
    match o {
        Some(s) => s.as_str(),
        None => {
            proof {
                reveal_strlit("");
            }
            ""
        },
    }
}

fn push_label(out: &mut String, f: &FormField)
    ensures
        final(out)@ == old(out)@ + label_markup(*f),
{
    if f.label.unicode_len() != 0 {
        out.append("<label class=\"uk-form-label\">");
        out.append(f.label);
        out.append("</label>");
        assert(final(out)@ =~= old(out)@ + label_markup(*f));
    } else {
        assert(old(out)@ + label_markup(*f) =~= old(out)@);
    }
}

fn push_attrs(out: &mut String, f: &FormField)
    ensures
        final(out)@ == old(out)@ + attrs_markup(*f),
{
    out.append(" name=\"");
    out.append(f.name);
    out.append("\" placeholder=\"");
    out.append(f.placeholder);
    out.append("\"");
    if f.required {
        out.append(" required");
    }
    assert(final(out)@ =~= old(out)@ + attrs_markup(*f));
}

pub open spec fn value_attr_markup(value: Option<Seq<char>>) -> Seq<char> {
    match value {
        Some(v) => " value=\""@ + escape_html(v) + "\""@,
        None => seq![],
    }
}

pub open spec fn area_content_markup(value: Option<Seq<char>>) -> Seq<char> {
    match value {
        Some(v) => escape_html(v),
        None => seq![],
    }
}

fn push_value_attr(out: &mut String, value: Option<&str>)
    ensures
        final(out)@ == old(out)@ + value_attr_markup(opt_view(value)),
{
    match value {
        Some(v) => {
            out.append(" value=\"");
            push_escaped(out, v);
            out.append("\"");
            assert(final(out)@ =~= old(out)@ + value_attr_markup(opt_view(value)));
        },
        None => {
            assert(old(out)@ + value_attr_markup(opt_view(value)) =~= old(out)@);
        },
    }
}

fn push_area_content(out: &mut String, value: Option<&str>)
    ensures
        final(out)@ == old(out)@ + area_content_markup(opt_view(value)),
{
    match value {
        Some(v) => push_escaped(out, v),
        None => {
            assert(old(out)@ + area_content_markup(opt_view(value)) =~= old(out)@);
        },
    }
}

fn push_control(out: &mut String, f: &FormField, value: Option<&str>)
    ensures
        final(out)@ == old(out)@ + control_markup(*f, opt_view(value)),
{
    match f.kind {
        InputKind::TextArea => {
            out.append("<textarea class=\"uk-textarea\" rows=\"5\"");
            push_attrs(out, f);
            out.append(">");
            push_area_content(out, value);
            out.append("</textarea>");
        },
        _ => {
            out.append("<input class=\"uk-input\" type=\"");
            let t = match f.kind {
                InputKind::Text => "text",
                InputKind::Number => "number",
                InputKind::DateTimeLocal => "datetime-local",
                InputKind::TextArea => "textarea",
            };
            out.append(t);
            out.append("\"");
            push_attrs(out, f);
            push_value_attr(out, value);
            out.append(">");
        },
    }
    assert(final(out)@ =~= old(out)@ + control_markup(*f, opt_view(value)));
}

fn render_field(out: &mut String, f: &FormField, value: Option<&str>)
    ensures
        final(out)@ == old(out)@ + field_markup(*f, opt_view(value)),
{
    out.append("<div class=\"uk-margin\">");
    push_label(out, f);
    push_control(out, f, value);
    out.append("</div>");
    assert(final(out)@ =~= old(out)@ + field_markup(*f, opt_view(value)));
}

/// Markup of the fields in order, each with the value at its position.
pub fn render_form(fields: &Vec<FormField>, values: &Vec<Option<&str>>) -> (r: String)
    requires
        fields@.len() == values@.len(),
    ensures
        r@ == form_markup(fields@, values@.map_values(|o: Option<&str>| opt_view(o))),
{
    let ghost vs = values@.map_values(|o: Option<&str>| opt_view(o));
    let mut out = String::new();
    let mut i: usize = 0;
    while i < fields.len()
        invariant
            fields@.len() == values@.len(),
            vs == values@.map_values(|o: Option<&str>| opt_view(o)),
            i <= fields@.len(),
            out@ == form_markup(fields@.take(i as int), vs.take(i as int)),
        decreases fields@.len() - i,
    {
        proof {
            let fi = fields@.take(i + 1);
            assert(fi.drop_last() =~= fields@.take(i as int));
            assert(vs.take(i + 1).drop_last() =~= vs.take(i as int));
        }
        render_field(&mut out, &fields[i], values[i]);
        i = i + 1;
    }
    assert(fields@.take(i as int) =~= fields@);
    assert(vs.take(i as int) =~= vs);
    out
}

/// A form for a record kind: its inputs filled from a record, or empty.
pub trait ToForm: Sized {
    spec fn form_spec(&self) -> Seq<char>;

    spec fn empty_form_spec() -> Seq<char>;

    fn to_form(&self) -> (r: String)
        ensures
            r@ == self.form_spec(),
    ;

    fn to_empty_form() -> (r: String)
        ensures
            r@ == Self::empty_form_spec(),
    ;
}

/// A form shown again from what a caller submitted, or empty.
pub trait FromForm: Sized {
    spec fn form_spec(&self) -> Seq<char>;

    spec fn empty_form_spec() -> Seq<char>;

    fn to_form(&self) -> (r: String)
        ensures
            r@ == self.form_spec(),
    ;

    fn to_empty_form() -> (r: String)
        ensures
            r@ == Self::empty_form_spec(),
    ;
}

/// The attribute that names an input in markup.
pub open spec fn name_attr(n: Seq<char>) -> Seq<char> {
    " name=\""@ + n + "\""@
}

proof fn lemma_field_names_input(f: FormField, value: Option<Seq<char>>)
    ensures
        contains_run(field_markup(f, value), name_attr(f.name@)),
{
    let rest = " placeholder=\""@ + f.placeholder@ + "\""@ + required_markup(f);
    reveal_strlit("\" placeholder=\"");
    reveal_strlit(" placeholder=\"");
    reveal_strlit("\"");
    assert("\" placeholder=\""@ =~= "\""@ + " placeholder=\""@);
    assert(attrs_markup(f) =~= name_attr(f.name@) + rest);
    let open_div = "<div class=\"uk-margin\">"@ + label_markup(f);
    if f.kind == InputKind::TextArea {
        let before = open_div + "<textarea class=\"uk-textarea\" rows=\"5\""@;
        let after = rest + ">"@ + area_content_markup(value) + "</textarea>"@ + "</div>"@;
        assert(field_markup(f, value) =~= before + name_attr(f.name@) + after);
        lemma_run_between(before, name_attr(f.name@), after);
    } else {
        let before = open_div + "<input class=\"uk-input\" type=\""@ + input_type_of(f.kind) + "\""@;
        let after = rest + value_attr_markup(value) + ">"@ + "</div>"@;
        assert(field_markup(f, value) =~= before + name_attr(f.name@) + after);
        lemma_run_between(before, name_attr(f.name@), after);
    }
}

/// Every field of a form, filled or not, shows up as a named input of its markup.
pub proof fn lemma_form_names_inputs(fields: Seq<FormField>, values: Seq<Option<Seq<char>>>, k: int)
    requires
        0 <= k < fields.len(),
    ensures
        contains_run(form_markup(fields, values), name_attr(fields[k].name@)),
    decreases fields.len(),
{
    let n = fields.len() - 1;
    let pre = form_markup(fields.drop_last(), values.drop_last());
    let last = field_markup(fields.last(), values[n]);
    if k == n {
        lemma_field_names_input(fields.last(), values[n]);
        lemma_run_in_right(pre, last, name_attr(fields[k].name@));
    } else {
        assert(fields.drop_last()[k] == fields[k]);
        lemma_form_names_inputs(fields.drop_last(), values.drop_last(), k);
        lemma_run_in_left(pre, last, name_attr(fields[k].name@));
    }
}

pub open spec fn no_values(n: nat) -> Seq<Option<Seq<char>>> {
    Seq::new(n, |i: int| None)
}

} // verus!
