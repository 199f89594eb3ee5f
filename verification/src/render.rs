//! Rendering of the registry into the human-editable document the editing
//! client receives: one bounded range control per numeric field seeded with
//! its value, bounds and step, a toggle per boolean field, a free-text
//! control per text field, each wired to post its new value back under the
//! entry's key. Every function states the exact text it produces.

use vstd::prelude::*;
use vstd::string::StringExecFns;

use crate::field::Field;
use crate::grouping::{build_view, grouped_view_ok, Group};
use crate::registry::Registry;
use crate::sync::SyncState;
use crate::text::{
    backslash_escaped, decimal_int, decimal_of, escape_backslashes, module_identifier,
    module_identifier_text, render_i64, render_u64, render_usize,
};

verus! {

/// The script call a control posts its new value with: the key goes inside
/// a single-quoted script string, so its backslashes are doubled.
pub open spec fn spec_send(key: Seq<char>, look_for: Seq<char>, data_type: Seq<char>) -> Seq<
    char,
> {
    ("send('")@ + backslash_escaped(key) + ("', ")@ + look_for + (", '")@ + data_type + ("')")@
}

/// The script call that sends the updated value of the control for `key`:
/// `look_for` is the client-side expression for the new value and
/// `data_type` names the update endpoint for the field's kind.
pub fn send(key: &str, look_for: &str, data_type: &str) -> (r: String)
    ensures
        r@ == spec_send(key@, look_for@, data_type@),
{
    let mut r = ("send('").to_owned();
    r.append(escape_backslashes(key).as_str());
    r.append("', ");
    r.append(look_for);
    r.append(", '");
    r.append(data_type);
    r.append("')");
    r
}

/// The text of a boolean value.
pub open spec fn spec_bool_text(b: bool) -> Seq<char> {
    if b {
        ("true")@
    } else {
        ("false")@
    }
}

/// Renders a boolean value as text.
pub fn bool_text(b: bool) -> (r: &'static str)
    ensures
        r@ == spec_bool_text(b),
{
    if b {
        "true"
    } else {
        "false"
    }
}

/// The range control for a numeric field, seeded with its value, bounds and
/// step, posting updates to the endpoint named by `path`.
pub open spec fn spec_slider(
    key: Seq<char>,
    value: Seq<char>,
    min: Seq<char>,
    max: Seq<char>,
    step: Seq<char>,
    path: Seq<char>,
) -> Seq<char> {
    ("<div class=\"column\"><input type=\"range\" id=\"")@ + key + ("\" min=\"")@ + min + (
    "\" max=\"")@ + max + ("\" step=\"")@ + step + ("\" defaultValue=\"")@ + value + (
    "\" style=\"width: 100%\" oninput=\"")@ + spec_send(key, ("Number(this.value)")@, path) + (
    "\"></div><div class=\"column is-narrow\"><span id=\"")@ + key + (
    "_label\" class=\"is-small\">")@ + value + ("</span></div>")@
}

/// Renders the range control for a numeric field.
fn render_slider(
    key: &str,
    value: &str,
    min: &str,
    max: &str,
    step: &str,
    path: &str,
) -> (r: String)
    ensures
        r@ == spec_slider(key@, value@, min@, max@, step@, path@),
{
    let mut r = ("<div class=\"column\"><input type=\"range\" id=\"").to_owned();
    r.append(key);
    r.append("\" min=\"");
    r.append(min);
    r.append("\" max=\"");
    r.append(max);
    r.append("\" step=\"");
    r.append(step);
    r.append("\" defaultValue=\"");
    r.append(value);
    r.append("\" style=\"width: 100%\" oninput=\"");
    r.append(send(key, "Number(this.value)", path).as_str());
    r.append("\"></div><div class=\"column is-narrow\"><span id=\"");
    r.append(key);
    r.append("_label\" class=\"is-small\">");
    r.append(value);
    r.append("</span></div>");
    r
}

/// The toggle control for a boolean field.
pub open spec fn spec_bool_widget(key: Seq<char>, value: bool) -> Seq<char> {
    ("<div class=\"column\"><input type=\"checkbox\" id=\"")@ + key + ("\" value=\"")@
        + spec_bool_text(value) + ("\" onclick=\"")@ + spec_send(
        key,
        ("this.checked")@,
        ("bool")@,
    ) + ("\"></div><div class=\"column is-narrow\"><span id=\"")@ + key + ("_label\">")@
        + spec_bool_text(value) + ("</span></div>")@
}

/// Renders the toggle control for a boolean field.
fn render_bool(key: &str, value: bool) -> (r: String)
    ensures
        r@ == spec_bool_widget(key@, value),
{
    let mut r = ("<div class=\"column\"><input type=\"checkbox\" id=\"").to_owned();
    r.append(key);
    r.append("\" value=\"");
    r.append(bool_text(value));
    r.append("\" onclick=\"");
    r.append(send(key, "this.checked", "bool").as_str());
    r.append("\"></div><div class=\"column is-narrow\"><span id=\"");
    r.append(key);
    r.append("_label\">");
    r.append(bool_text(value));
    r.append("</span></div>");
    r
}

/// The free-text control for a text field.
pub open spec fn spec_string_widget(key: Seq<char>, value: Seq<char>) -> Seq<char> {
    ("<div class=\"column\"><input type=\"text\" id=\"")@ + key + ("\" value=\"")@ + value + (
    "\" style=\"width: 100%\" onchange=\"")@ + spec_send(key, ("this.value")@, ("string")@) + (
    "\"></div><div class=\"column is-narrow\"><span id=\"")@ + key + ("_label\">")@ + value + (
    "</span></div>")@
}

/// Renders the free-text control for a text field.
fn render_string(key: &str, value: &str) -> (r: String)
    ensures
        r@ == spec_string_widget(key@, value@),
{
    let mut r = ("<div class=\"column\"><input type=\"text\" id=\"").to_owned();
    r.append(key);
    r.append("\" value=\"");
    r.append(value);
    r.append("\" style=\"width: 100%\" onchange=\"");
    r.append(send(key, "this.value", "string").as_str());
    r.append("\"></div><div class=\"column is-narrow\"><span id=\"");
    r.append(key);
    r.append("_label\">");
    r.append(value);
    r.append("</span></div>");
    r
}

/// The control a field renders to, keyed by the entry's key: a range
/// control for every numeric kind (the float kinds display their stored
/// decimal text, the integer kinds their value rendered in decimal), a
/// toggle for a boolean, a free-text control for text.
pub open spec fn spec_widget(f: Field, key: Seq<char>) -> Seq<char> {
    match f {
        Field::F32 { value, min, max, step, .. } => spec_slider(
            key,
            value@,
            min@,
            max@,
            step@,
            ("f32")@,
        ),
        Field::F64 { value, min, max, step, .. } => spec_slider(
            key,
            value@,
            min@,
            max@,
            step@,
            ("f64")@,
        ),
        Field::I8 { value, min, max, step, .. } => spec_slider(
            key,
            decimal_int(value as int),
            decimal_int(min as int),
            decimal_int(max as int),
            decimal_int(step as int),
            ("i8")@,
        ),
        Field::U8 { value, min, max, step, .. } => spec_slider(
            key,
            decimal_of(value as int),
            decimal_of(min as int),
            decimal_of(max as int),
            decimal_of(step as int),
            ("u8")@,
        ),
        Field::I16 { value, min, max, step, .. } => spec_slider(
            key,
            decimal_int(value as int),
            decimal_int(min as int),
            decimal_int(max as int),
            decimal_int(step as int),
            ("i16")@,
        ),
        Field::U16 { value, min, max, step, .. } => spec_slider(
            key,
            decimal_of(value as int),
            decimal_of(min as int),
            decimal_of(max as int),
            decimal_of(step as int),
            ("u16")@,
        ),
        Field::I32 { value, min, max, step, .. } => spec_slider(
            key,
            decimal_int(value as int),
            decimal_int(min as int),
            decimal_int(max as int),
            decimal_int(step as int),
            ("i32")@,
        ),
        Field::U32 { value, min, max, step, .. } => spec_slider(
            key,
            decimal_of(value as int),
            decimal_of(min as int),
            decimal_of(max as int),
            decimal_of(step as int),
            ("u32")@,
        ),
        Field::I64 { value, min, max, step, .. } => spec_slider(
            key,
            decimal_int(value as int),
            decimal_int(min as int),
            decimal_int(max as int),
            decimal_int(step as int),
            ("i64")@,
        ),
        Field::U64 { value, min, max, step, .. } => spec_slider(
            key,
            decimal_of(value as int),
            decimal_of(min as int),
            decimal_of(max as int),
            decimal_of(step as int),
            ("u64")@,
        ),
        Field::Usize { value, min, max, step, .. } => spec_slider(
            key,
            decimal_of(value as int),
            decimal_of(min as int),
            decimal_of(max as int),
            decimal_of(step as int),
            ("usize")@,
        ),
        Field::Bool { value, .. } => spec_bool_widget(key, value),
        Field::Str { value, .. } => spec_string_widget(key, value@),
    }
}

impl Field {
    /// Renders this field's control, keyed by the entry's key.
    pub fn to_html_widget(&self, key: &str) -> (r: String)
        ensures
            r@ == spec_widget(*self, key@),
    {
        match self {
            Field::F32 { value, min, max, step, .. } => render_slider(
                key,
                value.as_str(),
                min.as_str(),
                max.as_str(),
                step.as_str(),
                "f32",
            ),
            Field::F64 { value, min, max, step, .. } => render_slider(
                key,
                value.as_str(),
                min.as_str(),
                max.as_str(),
                step.as_str(),
                "f64",
            ),
            Field::I8 { value, min, max, step, .. } => render_slider(
                key,
                render_i64(*value as i64).as_str(),
                render_i64(*min as i64).as_str(),
                render_i64(*max as i64).as_str(),
                render_i64(*step as i64).as_str(),
                "i8",
            ),
            Field::U8 { value, min, max, step, .. } => render_slider(
                key,
                render_u64(*value as u64).as_str(),
                render_u64(*min as u64).as_str(),
                render_u64(*max as u64).as_str(),
                render_u64(*step as u64).as_str(),
                "u8",
            ),
            Field::I16 { value, min, max, step, .. } => render_slider(
                key,
                render_i64(*value as i64).as_str(),
                render_i64(*min as i64).as_str(),
                render_i64(*max as i64).as_str(),
                render_i64(*step as i64).as_str(),
                "i16",
            ),
            Field::U16 { value, min, max, step, .. } => render_slider(
                key,
                render_u64(*value as u64).as_str(),
                render_u64(*min as u64).as_str(),
                render_u64(*max as u64).as_str(),
                render_u64(*step as u64).as_str(),
                "u16",
            ),
            Field::I32 { value, min, max, step, .. } => render_slider(
                key,
                render_i64(*value as i64).as_str(),
                render_i64(*min as i64).as_str(),
                render_i64(*max as i64).as_str(),
                render_i64(*step as i64).as_str(),
                "i32",
            ),
            Field::U32 { value, min, max, step, .. } => render_slider(
                key,
                render_u64(*value as u64).as_str(),
                render_u64(*min as u64).as_str(),
                render_u64(*max as u64).as_str(),
                render_u64(*step as u64).as_str(),
                "u32",
            ),
            Field::I64 { value, min, max, step, .. } => render_slider(
                key,
                render_i64(*value).as_str(),
                render_i64(*min).as_str(),
                render_i64(*max).as_str(),
                render_i64(*step).as_str(),
                "i64",
            ),
            Field::U64 { value, min, max, step, .. } => render_slider(
                key,
                render_u64(*value).as_str(),
                render_u64(*min).as_str(),
                render_u64(*max).as_str(),
                render_u64(*step).as_str(),
                "u64",
            ),
            Field::Usize { value, min, max, step, .. } => render_slider(
                key,
                render_usize(*value).as_str(),
                render_usize(*min).as_str(),
                render_usize(*max).as_str(),
                render_usize(*step).as_str(),
                "usize",
            ),
            Field::Bool { value, .. } => render_bool(key, *value),
            Field::Str { value, .. } => render_string(key, value.as_str()),
        }
    }
}

/// One entry's row: the key, the declaring location tag, and the field's
/// control.
pub open spec fn spec_widget_row(key: Seq<char>, f: Field) -> Seq<char> {
    ("<div class=\"columns\"><div class=\"column is-narrow\"><span class=\"is-small\">")@ + key + (
    "</span><br><span class=\"tag\">")@ + f.file_label() + ("</span></div>")@ + spec_widget(f, key)
        + ("</div>")@
}

/// Renders one entry's row.
pub fn render_widget(key: &str, field: &Field) -> (r: String)
    ensures
        r@ == spec_widget_row(key@, *field),
{
    let mut r = (
    "<div class=\"columns\"><div class=\"column is-narrow\"><span class=\"is-small\">").to_owned();
    r.append(key);
    r.append("</span><br><span class=\"tag\">");
    r.append(field.file().as_str());
    r.append("</span></div>");
    r.append(field.to_html_widget(key).as_str());
    r.append("</div>");
    r
}

/// The rows of a module's entries, in their listed order.
pub open spec fn spec_rows(es: Seq<(String, Field)>) -> Seq<char>
    decreases es.len(),
{
    if es.len() == 0 {
        Seq::empty()
    } else {
        spec_rows(es.drop_last()) + spec_widget_row(es.last().0@, es.last().1)
    }
}

/// Renders the rows of a module's entries, in their listed order.
pub fn render_module(entries: &Vec<(String, Field)>) -> (r: String)
    ensures
        r@ == spec_rows(entries@),
{
    let mut r = String::new();
    let mut i: usize = 0;
    proof {
        assert(entries@.take(0) =~= Seq::<(String, Field)>::empty());
    }
    while i < entries.len()
        invariant
            0 <= i <= entries@.len(),
            r@ == spec_rows(entries@.take(i as int)),
        decreases entries@.len() - i,
    {
        let row = render_widget(entries[i].0.as_str(), &entries[i].1);
        r.append(row.as_str());
        proof {
            let post = entries@.take(i as int + 1);
            assert(post.drop_last() =~= entries@.take(i as int));
            assert(post.last() == entries@[i as int]);
        }
        i = i + 1;
    }
    proof {
        assert(entries@.take(entries@.len() as int) =~= entries@);
    }
    r
}

/// One module's section: a titled box with the module's rows, followed by a
/// box holding the change log for that module and its copy button.
pub open spec fn spec_section(g: Group) -> Seq<char> {
    ("<section class=\"section\"><div class=\"container box\"><h3 class=\"title is-3\">Module: \"")@
        + g.module@ + ("\"</h3>")@ + spec_rows(g.entries@) + (
    "</div><div class=\"container box\"><h4 class=\"title is-4\">Changes</h4><div class=\"columns\"><div class=\"column\"><textarea class=\"textarea\" style=\"font-family: monospace\" id=\"")@
        + module_identifier(g.module@) + (
    "_output\" readonly placeholder=\"No changes\"></textarea></div><div class=\"column is-narrow control\"><button class=\"button is-link\" onclick=\"copy_text('")@
        + g.module@ + ("')\">Copy</button></div></div></div></section>")@
}

/// Renders one module's section.
pub fn render_section(g: &Group) -> (r: String)
    ensures
        r@ == spec_section(*g),
{
    let mut r = (
    "<section class=\"section\"><div class=\"container box\"><h3 class=\"title is-3\">Module: \"").to_owned();
    r.append(g.module.as_str());
    r.append("\"</h3>");
    r.append(render_module(&g.entries).as_str());
    r.append(
        "</div><div class=\"container box\"><h4 class=\"title is-4\">Changes</h4><div class=\"columns\"><div class=\"column\"><textarea class=\"textarea\" style=\"font-family: monospace\" id=\"",
    );
    r.append(module_identifier_text(g.module.as_str()).as_str());
    r.append(
        "_output\" readonly placeholder=\"No changes\"></textarea></div><div class=\"column is-narrow control\"><button class=\"button is-link\" onclick=\"copy_text('",
    );
    r.append(g.module.as_str());
    r.append("')\">Copy</button></div></div></div></section>");
    r
}

/// Every module's section, in the groups' listed order.
pub open spec fn spec_sections(gs: Seq<Group>) -> Seq<char>
    decreases gs.len(),
{
    if gs.len() == 0 {
        Seq::empty()
    } else {
        spec_sections(gs.drop_last()) + spec_section(gs.last())
    }
}

/// Renders every module's section, in the groups' listed order.
pub fn render_widgets(groups: &Vec<Group>) -> (r: String)
    ensures
        r@ == spec_sections(groups@),
{
    let mut r = String::new();
    let mut i: usize = 0;
    proof {
        assert(groups@.take(0) =~= Seq::<Group>::empty());
    }
    while i < groups.len()
        invariant
            0 <= i <= groups@.len(),
            r@ == spec_sections(groups@.take(i as int)),
        decreases groups@.len() - i,
    {
        let section = render_section(&groups[i]);
        r.append(section.as_str());
        proof {
            let post = groups@.take(i as int + 1);
            assert(post.drop_last() =~= groups@.take(i as int));
            assert(post.last() == groups@[i as int]);
        }
        i = i + 1;
    }
    proof {
        assert(groups@.take(groups@.len() as int) =~= groups@);
    }
    r
}

/// The full document body: the title banner, every module's section in
/// grouped order, and the status banner the client writes errors into.
pub open spec fn spec_page(gs: Seq<Group>) -> Seq<char> {
    (
    "<section class=\"hero is-primary\"><div class=\"hero-body\"><div class=\"container\"><h1 class=\"title is-1\">Const Tweaker Web Interface</h1></div></div></section>")@
        + spec_sections(gs) + (
    "<div class=\"container\"><div class=\"notification is-danger\"><span id=\"status\"></span></div></div>")@
}

/// Renders the full document body for the current registry state and resets
/// the change probe's watermark to the current entry count, so a probe
/// right after serving the page reports no change.
pub fn main_site(reg: &Registry, sync: &mut SyncState) -> (r: String)
    ensures
        final(sync).mark() == reg@.dom().len(),
        exists|gs: Seq<Group>| grouped_view_ok(gs, reg@) && r@ == #[trigger] spec_page(gs),
{
    let groups = build_view(reg);
    let size = reg.size();
    sync.note_full_view(size);
    let mut r = (
    "<section class=\"hero is-primary\"><div class=\"hero-body\"><div class=\"container\"><h1 class=\"title is-1\">Const Tweaker Web Interface</h1></div></div></section>").to_owned();
    r.append(render_widgets(&groups).as_str());
    r.append(
        "<div class=\"container\"><div class=\"notification is-danger\"><span id=\"status\"></span></div></div>",
    );
    proof {
        assert(grouped_view_ok(groups@, reg@) && r@ == spec_page(groups@));
    }
    r
}

} // verus!
