//! What the table and enum conversions derived for the editor's data types
//! are made of: the key each field is stored under, whether it is optional,
//! and the text each enum variant is shown as.

use vstd::prelude::*;
use convert_case::Casing;
use crate::text::{chars_of, str_eq, string_from_range};

verus! {

/// A field name without a leading raw-identifier marker `r#`.
pub open spec fn sanitized(name: Seq<char>) -> Seq<char> {
    if name.len() >= 2 && name[0] == 'r' && name[1] == '#' {
        name.skip(2)
    } else {
        name
    }
}

/// The key a field is stored under: its name without a leading `r#`.
pub fn sanitize_field_string(name: String) -> (r: String)
    ensures
        r@ == sanitized(name@),
{
    let chars = chars_of(name.as_str());
    if chars.len() >= 2 && chars[0] == 'r' && chars[1] == '#' {
        string_from_range(&chars, 2, chars.len())
    } else {
        name
    }
}

/// A casing in which enum variants can be shown.
#[derive(PartialEq, Eq, Structural, Clone, Copy)]
pub enum VariantCase {
    Camel,
    Snake,
    Upper,
    Pascal,
}

/// What `convert_case` makes of a text in a casing.
pub uninterp spec fn case_converted(text: Seq<char>, case: VariantCase) -> Seq<char>;

/// `Casing::to_case` of `convert_case`: `text` rewritten in `case`. Its
/// result is named, not described: it splits the text into words at case
/// changes, digits and separators and joins them again in the casing.
#[verifier::external_body]
fn to_case(text: &str, case: VariantCase) -> (r: String)
    ensures
        r@ == case_converted(text@, case),
{
    let case = match case {
        VariantCase::Camel => convert_case::Case::Camel,
        VariantCase::Snake => convert_case::Case::Snake,
        VariantCase::Upper => convert_case::Case::Upper,
        VariantCase::Pascal => convert_case::Case::Pascal,
    };
    text.to_case(case)
}

/// The text an enum variant is shown as: its name, rewritten in the casing
/// when one is given.
pub open spec fn variant_text(variant: Seq<char>, casing: Option<VariantCase>) -> Seq<char> {
    match casing {
        Some(case) => case_converted(variant, case),
        None => variant,
    }
}

/// The text an enum variant is shown as (see `variant_text`).
pub fn variant_display(variant: &str, casing: Option<VariantCase>) -> (r: String)
    ensures
        r@ == variant_text(variant@, casing),
{
    match casing {
        Some(case) => to_case(variant, case),
        None => variant.to_owned(),
    }
}

/// A variant of an enum to derive a conversion for: its name and whether it
/// has fields.
pub struct VariantDecl {
    pub name: String,
    pub has_fields: bool,
}

/// The texts all variants of an enum are shown as, in order. Only enums
/// whose variants have no fields can be converted.
pub fn enum_display_texts(variants: &Vec<VariantDecl>, casing: Option<VariantCase>) -> (r: Vec<String>)
    requires
        forall|i: int| 0 <= i < variants@.len() ==> !(#[trigger] variants@[i]).has_fields,
    ensures
        r@.len() == variants@.len(),
        forall|i: int|
            0 <= i < variants@.len() ==> #[trigger] r@[i]@ == variant_text(variants@[i].name@, casing),
{
    let mut out: Vec<String> = Vec::new();
    let mut i: usize = 0;
    while i < variants.len()
        invariant
            i <= variants@.len(),
            out@.len() == i,
            forall|k: int|
                0 <= k < i ==> #[trigger] out@[k]@ == variant_text(variants@[k].name@, casing),
        decreases variants.len() - i,
    {
        out.push(variant_display(variants[i].name.as_str(), casing));
        i += 1;
    }
    out
}

/// A named field of a struct to derive a conversion for: its name and the
/// identifiers of the segments of its type's path.
pub struct FieldDecl {
    pub name: String,
    pub type_segments: Vec<String>,
}

/// How one field is read or written: under which key, and whether it is
/// optional (written only when present, read as absent when missing).
pub struct FieldAccess {
    pub field: String,
    pub key: String,
    pub optional: bool,
}

/// The accesses derived for the fields of a struct: for each field, one per
/// segment of its type's path, keyed by the sanitized field name, optional
/// where the segment is `Option`.
pub open spec fn field_accesses(fields: Seq<FieldDecl>) -> Seq<(Seq<char>, Seq<char>, bool)>
    decreases fields.len(),
{
    if fields.len() == 0 {
        seq![]
    } else {
        let f = fields.last();
        field_accesses(fields.drop_last()) + f.type_segments@.map_values(
            |seg: String| (f.name@, sanitized(f.name@), seg@ == "Option"@),
        )
    }
}

/// The view of a field access.
pub open spec fn access_view(a: FieldAccess) -> (Seq<char>, Seq<char>, bool) {
    (a.field@, a.key@, a.optional)
}

/// The accesses derived for the fields of a struct (see `field_accesses`).
pub fn table_fields(fields: &Vec<FieldDecl>) -> (r: Vec<FieldAccess>)
    ensures
        r@.map_values(|a: FieldAccess| access_view(a)) == field_accesses(fields@),
{
    let mut out: Vec<FieldAccess> = Vec::new();
    let mut i: usize = 0;
    while i < fields.len()
        invariant
            i <= fields@.len(),
            out@.map_values(|a: FieldAccess| access_view(a)) == field_accesses(fields@.take(i as int)),
        decreases fields.len() - i,
    {
        let field = &fields[i];
        let key = sanitize_field_string(field.name.clone());
        let ghost start = out@.map_values(|a: FieldAccess| access_view(a));
        let mut j: usize = 0;
        while j < field.type_segments.len()
            invariant
                j <= field.type_segments@.len(),
                key@ == sanitized(field.name@),
                out@.map_values(|a: FieldAccess| access_view(a)) == start + field.type_segments@.take(
                    j as int,
                ).map_values(|seg: String| (field.name@, sanitized(field.name@), seg@ == "Option"@)),
            decreases field.type_segments.len() - j,
        {
            let optional = str_eq(field.type_segments[j].as_str(), "Option");
            let ghost before = out@;
            let access = FieldAccess { field: field.name.clone(), key: key.clone(), optional };
            assert(access_view(access) == (
                field.name@,
                sanitized(field.name@),
                field.type_segments@[j as int]@ == "Option"@,
            ));
            out.push(access);
            proof {
                assert(out@.map_values(|a: FieldAccess| access_view(a)) =~= before.map_values(
                    |a: FieldAccess| access_view(a),
                ).push(access_view(access)));
                assert(field.type_segments@.take(j + 1) =~= field.type_segments@.take(j as int).push(
                    field.type_segments@[j as int],
                ));
                assert(out@.map_values(|a: FieldAccess| access_view(a)) =~= start
                    + field.type_segments@.take(j + 1).map_values(
                    |seg: String| (field.name@, sanitized(field.name@), seg@ == "Option"@),
                ));
            }
            j += 1;
        }
        proof {
            assert(field.type_segments@.take(field.type_segments@.len() as int)
                =~= field.type_segments@);
            assert(fields@.take(i + 1).drop_last() =~= fields@.take(i as int));
        }
        i += 1;
    }
    assert(fields@.take(fields@.len() as int) =~= fields@);
    out
}

} // verus!
