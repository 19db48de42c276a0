use vstd::prelude::*;
use vstd::string::StringExecFns;

use crate::entities_helper::RetreatGalleriesModel;
use crate::serializers::validation::{set_if_present, updated};

verus! {

/// The parts of a gallery form that mean something.
#[derive(Debug, Clone, Copy, PartialEq, Eq, Structural)]
pub enum GalleryField {
    Caption,
    Image,
    GalleryCategoryId,
    /// Any other part; it is passed over.
    Other,
}

/// What a gallery form has handed in so far.
#[derive(Debug)]
pub struct GalleryForm {
    pub caption: Option<String>,
    /// Where the uploaded image was stored, relative to the upload
    /// directory.
    pub image_path: Option<String>,
    pub gallery_category_id: Option<i64>,
}

/// A decimal digit.
pub open spec fn is_digit(c: char) -> bool {
    '0' <= c && c <= '9'
}

/// The number that a row of decimal digits stands for.
pub open spec fn digits_value(digits: Seq<char>) -> int
    decreases digits.len(),
{
    if digits.len() == 0 {
        0
    } else {
        10 * digits_value(digits.drop_last()) + (digits.last() as int - '0' as int)
    }
}

/// What follows the sign of a decimal text, or the whole text where it has
/// no sign.
pub open spec fn unsigned_part(text: Seq<char>) -> Seq<char> {
    if text.len() > 0 && (text[0] == '-' || text[0] == '+') {
        text.subrange(1, text.len() as int)
    } else {
        text
    }
}

/// The whole number that a decimal text stands for: an optional sign, then
/// at least one digit and nothing but digits, and a value that a signed
/// number of 64 bits can hold.
pub open spec fn decimal_i64(text: Seq<char>) -> Option<i64> {
    let digits = unsigned_part(text);
    let value = if text.len() > 0 && text[0] == '-' {
        -digits_value(digits)
    } else {
        digits_value(digits)
    };
    if digits.len() > 0 && (forall|i: int| 0 <= i < digits.len() ==> is_digit(#[trigger] digits[i]))
        && i64::MIN <= value <= i64::MAX {
        Some(value as i64)
    } else {
        None
    }
}

/// `str::parse::<i64>` of std. The contract claims what its documentation
/// says: the text is read as an optional sign followed by decimal digits
/// only, and is refused where it is empty, holds anything else, or stands
/// for a number out of range.
#[verifier::external_body]
fn parse_i64(text: &str) -> (number: Option<i64>)
    ensures
        number == decimal_i64(text@),
{
    text.parse::<i64>().ok()
}

/// The part of the form that goes by `name`.
pub open spec fn field_named(name: Seq<char>) -> GalleryField {
    if name == "caption"@ {
        GalleryField::Caption
    } else if name == "image"@ {
        GalleryField::Image
    } else if name == "gallery_category_id"@ {
        GalleryField::GalleryCategoryId
    } else {
        GalleryField::Other
    }
}

fn is_named(name: &str, expected: &str) -> (same: bool)
    ensures
        same == (name@ == expected@),
{
    String::from_str(name) == String::from_str(expected)
}

/// Tells which part of the form goes by `name`.
pub fn gallery_field(name: &str) -> (field: GalleryField)
    ensures
        field == field_named(name@),
{
    if is_named(name, "caption") {
        GalleryField::Caption
    } else if is_named(name, "image") {
        GalleryField::Image
    } else if is_named(name, "gallery_category_id") {
        GalleryField::GalleryCategoryId
    } else {
        GalleryField::Other
    }
}

/// The identifier of a gallery category, as a form hands it in.
pub fn parse_category_id(text: &str) -> (id: Option<i64>)
    ensures
        id == decimal_i64(text@),
{
    parse_i64(text)
}

impl GalleryForm {
    /// A form that has handed in nothing yet.
    pub fn new() -> (form: GalleryForm)
        ensures
            form.caption is None,
            form.image_path is None,
            form.gallery_category_id is None,
    {
        GalleryForm { caption: None, image_path: None, gallery_category_id: None }
    }

    /// The form after its caption part was read: a caption that could be
    /// read replaces the one gathered so far, one that could not leaves the
    /// form as it is.
    pub fn caption_read(self, text: Option<String>) -> (form: GalleryForm)
        ensures
            form == (GalleryForm {
                caption: match text {
                    Some(caption) => Some(caption),
                    None => self.caption,
                },
                ..self
            }),
    {
        match text {
            Some(caption) => GalleryForm { caption: Some(caption), ..self },
            None => self,
        }
    }

    /// The form after its image part was stored at `path`.
    pub fn image_stored(self, path: String) -> (form: GalleryForm)
        ensures
            form == (GalleryForm { image_path: Some(path), ..self }),
    {
        GalleryForm { image_path: Some(path), ..self }
    }

    /// The form after the gallery category it names was found in the store.
    pub fn category_found(self, gallery_category_id: i64) -> (form: GalleryForm)
        ensures
            form == (GalleryForm { gallery_category_id: Some(gallery_category_id), ..self }),
    {
        GalleryForm { gallery_category_id: Some(gallery_category_id), ..self }
    }

    /// The record of an image after the form was handed in for it: each
    /// part that the form brought replaces the record's, every other field
    /// stays.
    pub fn apply_to(self, image: RetreatGalleriesModel) -> (changed: RetreatGalleriesModel)
        ensures
            changed == (RetreatGalleriesModel {
                caption: match self.caption {
                    Some(caption) => Some(caption),
                    None => image.caption,
                },
                image_path: updated(image.image_path, self.image_path),
                gallery_category_id: match self.gallery_category_id {
                    Some(id) => Some(id),
                    None => image.gallery_category_id,
                },
                ..image
            }),
    {
        let mut changed = image;
        if self.caption.is_some() {
            changed.caption = self.caption;
        }
        set_if_present(&mut changed.image_path, self.image_path);
        if self.gallery_category_id.is_some() {
            changed.gallery_category_id = self.gallery_category_id;
        }
        changed
    }
}

} // verus!
