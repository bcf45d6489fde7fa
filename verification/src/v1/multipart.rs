//! Multipart bodies: `reqwest`'s form, and what this library puts into it.
//!
//! Verus does not look into a `Form` or a `Part`. What a form holds is named
//! by [`form_fields`], and the three functions that make and fill a form state
//! over that name what `reqwest` does. Everything else here is proved from them.
use reqwest::multipart::Form;
use reqwest::multipart::Part;
use vstd::prelude::*;

verus! {

/// Declares `reqwest::multipart::Form`. Nothing is said of what is inside.
#[verifier::external_type_specification]
#[verifier::external_body]
pub struct ExForm(Form);

/// Declares `reqwest::multipart::Part`. Nothing is said of what is inside.
#[verifier::external_type_specification]
#[verifier::external_body]
pub struct ExPart(Part);

/// The fields that a form holds, in the order in which they were added: each
/// is a name and the part that was added under it.
pub uninterp spec fn form_fields(form: Form) -> Seq<(Seq<char>, Part)>;

/// The part that `reqwest::multipart::Part::text` makes of a text value: its
/// body is the text, and it has neither a file name nor a content type.
pub uninterp spec fn text_part(value: Seq<char>) -> Part;

/// Calls `reqwest::multipart::Form::new`. Trusted: the new form holds no field.
#[verifier::external_body]
fn new_form() -> (form: Form)
    ensures
        form_fields(form) == Seq::<(Seq<char>, Part)>::empty(),
{
    Form::new()
}

/// Calls `reqwest::multipart::Form::text`, which is `Form::part` with the part
/// that `Part::text` makes of the value. Trusted: the form gains that one
/// field, after those it had.
#[verifier::external_body]
fn add_text(form: Form, name: String, value: String) -> (extended: Form)
    ensures
        form_fields(extended) == form_fields(form).push((name@, text_part(value@))),
{
    form.text(name, value)
}

/// Calls `reqwest::multipart::Form::part`. Trusted: the form gains the part
/// under the given name, after the fields it had.
#[verifier::external_body]
fn add_part(form: Form, name: String, part: Part) -> (extended: Form)
    ensures
        form_fields(extended) == form_fields(form).push((name@, part)),
{
    form.part(name, part)
}

/// A multipart request that is ready to be sent: where it goes, and its body.
pub struct MultipartRequest {
    pub path: String,
    pub form: Form,
}

/// The fields of text as parts, in the same order.
pub open spec fn text_parts(fields: Seq<(Seq<char>, Seq<char>)>) -> Seq<(Seq<char>, Part)> {
    Seq::new(fields.len(), |i: int| (fields[i].0, text_part(fields[i].1)))
}

/// The fields of an upload: the binary part under the name `file`, then the
/// fields of text.
pub open spec fn upload_fields(file: Part, fields: Seq<(Seq<char>, Seq<char>)>) -> Seq<
    (Seq<char>, Part),
> {
    seq![("file"@, file)] + text_parts(fields)
}

/// Builds the form of an upload: the binary part first, under the name `file`,
/// then one text part for each field, in the order given.
pub fn upload_form(file: Part, fields: &Vec<(String, String)>) -> (form: Form)
    ensures
        form_fields(form) == upload_fields(file, fields.deep_view()),
{
    let ghost all = fields.deep_view();
    let mut form = add_part(new_form(), "file".to_owned(), file);
    let mut i: usize = 0;
    while i < fields.len()
        invariant
            i <= fields@.len(),
            all == fields.deep_view(),
            form_fields(form) == upload_fields(file, all.take(i as int)),
        decreases fields@.len() - i,
    {
        let name = fields[i].0.clone();
        let value = fields[i].1.clone();
        form = add_text(form, name, value);
        i += 1;
    }
    form
}

} // verus!
