use std::path::Path;
use uuid::Uuid;
use vstd::prelude::*;
use vstd::string::StringExecFns;

use crate::utils::text::text_of;

verus! {

/// The name under which an uploaded file is stored: the identifier alone,
/// or the identifier, a dot and the extension where there is one.
pub open spec fn stored_name(id: Seq<char>, extension: Seq<char>) -> Seq<char> {
    if extension.len() == 0 {
        id
    } else {
        id + "."@ + extension
    }
}

/// The extension of the path `path`, as std reads paths: what follows the
/// last dot of its file name, if the file name has one that is not its
/// first character.
pub uninterp spec fn path_extension(path: Seq<char>) -> Option<Seq<char>>;

/// The file name of the path `path`, as std reads paths: its last
/// component, if it ends in one.
pub uninterp spec fn path_file_name(path: Seq<char>) -> Option<Seq<char>>;

/// The media type that the extension of `path` suggests, and that of a
/// stream of bytes where it suggests none.
pub uninterp spec fn guessed_media_type(path: Seq<char>) -> Seq<char>;

/// The extension under which a file uploaded as `file_path` is stored:
/// its own, or none.
pub open spec fn kept_extension(file_path: Seq<char>) -> Seq<char> {
    match path_extension(file_path) {
        Some(extension) => extension,
        None => Seq::<char>::empty(),
    }
}

/// `name` is a fresh name for a file uploaded as `file_path`: an
/// identifier and, where the upload has one, a dot and its extension.
pub open spec fn is_fresh_name(name: Seq<char>, file_path: Seq<char>) -> bool {
    exists|id: Seq<char>|
        is_uuid_text(id) && name == #[trigger] stored_name(id, kept_extension(file_path))
}

/// The place of a gallery image below the upload directory.
pub open spec fn gallery_path(file_name: Seq<char>) -> Seq<char> {
    "retreat/gallery"@ + "/"@ + file_name
}

/// The header that offers a file for download under `file_name`.
pub open spec fn disposition(file_name: Seq<char>) -> Seq<char> {
    "attachment; filename=\""@ + file_name + "\""@
}

/// A lower-case hexadecimal digit.
pub open spec fn is_lower_hex(c: char) -> bool {
    ('0' <= c && c <= '9') || ('a' <= c && c <= 'f')
}

/// The hyphenated text of an identifier: thirty-two lower-case hexadecimal
/// digits in groups of eight, four, four, four and twelve.
pub open spec fn is_uuid_text(id: Seq<char>) -> bool {
    &&& id.len() == 36
    &&& forall|i: int|
        0 <= i < 36 ==> if i == 8 || i == 13 || i == 18 || i == 23 {
            id[i] == '-'
        } else {
            is_lower_hex(#[trigger] id[i])
        }
}

/// What follows the last dot of a file name holds no dot itself, and no
/// stroke, which would end the file name.
pub open spec fn is_extension(extension: Seq<char>) -> bool {
    !extension.contains('.') && !extension.contains('/')
}

/// `Uuid::new_v4().to_string()`: a fresh random identifier. The contract
/// claims the hyphenated lower-case form in which it is written.
#[verifier::external_body]
fn new_uuid() -> (id: String)
    ensures
        is_uuid_text(id@),
{
    Uuid::new_v4().to_string()
}

/// `Path::extension` of std, as text. The contract names the outcome and
/// claims that an extension holds neither a dot nor a stroke.
#[verifier::external_body]
fn extension_of(file_path: &str) -> (extension: Option<String>)
    ensures
        text_of(extension) == path_extension(file_path@),
        extension matches Some(e) ==> is_extension(e@),
{
    Path::new(file_path).extension().and_then(|e| e.to_str()).map(str::to_string)
}

/// `Path::file_name` of std, as text. The contract names the outcome.
#[verifier::external_body]
fn file_name_of(file_path: &str) -> (name: Option<String>)
    ensures
        text_of(name) == path_file_name(file_path@),
{
    Path::new(file_path).file_name().map(|n| n.to_string_lossy().into_owned())
}

/// `mime_guess::from_path(..).first_or_octet_stream()`, as text. The
/// contract names the outcome.
#[verifier::external_body]
fn media_type_of(file_path: &str) -> (media_type: String)
    ensures
        media_type@ == guessed_media_type(file_path@),
{
    mime_guess::from_path(file_path).first_or_octet_stream().as_ref().to_string()
}

/// The name of a stored file, from its identifier and the extension of the
/// name it was uploaded under.
pub fn uuid_file_name(id: String, extension: &str) -> (name: String)
    ensures
        name@ == stored_name(id@, extension@),
{
    if extension.is_empty() {
        id
    } else {
        id.concat(".").concat(extension)
    }
}

/// A fresh name for an uploaded file, which keeps the extension of the
/// name it was uploaded under.
pub fn replace_file_name_with_uuid(file_path: &str) -> (name: String)
    ensures
        is_fresh_name(name@, file_path@),
        is_extension(kept_extension(file_path@)),
        !name@.contains('/'),
{
    let id = new_uuid();
    let extension = match extension_of(file_path) {
        Some(extension) => extension,
        None => String::new(),
    };
    let ghost id_view = id@;
    let name = uuid_file_name(id, extension.as_str());
    proof {
        assert(extension@ == kept_extension(file_path@));
        assert(name@ == stored_name(id_view, kept_extension(file_path@)));
        stored_name_holds_no_stroke(id_view, extension@);
    }
    name
}

/// The place, below the upload directory, of the gallery image stored
/// under `file_name`.
pub fn gallery_relative_path(file_name: &str) -> (path: String)
    ensures
        path@ == gallery_path(file_name@),
{
    String::from_str("retreat/gallery").concat("/").concat(file_name)
}

/// A fresh place below the upload directory for a gallery image uploaded
/// as `file_name`.
pub fn new_gallery_path(file_name: &str) -> (path: String)
    ensures
        exists|name: Seq<char>|
            #[trigger] is_fresh_name(name, file_name@) && path@ == gallery_path(name),
{
    let name = replace_file_name_with_uuid(file_name);
    gallery_relative_path(name.as_str())
}

/// The header that offers a file for download under `file_name`.
pub fn content_disposition(file_name: &str) -> (header: String)
    ensures
        header@ == disposition(file_name@),
{
    String::from_str("attachment; filename=\"").concat(file_name).concat("\"")
}

/// The two headers with which the image at `image_path` is sent: its media
/// type, and its offer for download under the last component of the path.
/// `None` where the path has no last component.
pub fn gallery_headers(image_path: &str) -> (headers: Option<(String, String)>)
    ensures
        match headers {
            Some(pair) => headers_of(
                path_file_name(image_path@),
                guessed_media_type(image_path@),
            ) == Some((pair.0@, pair.1@)),
            None => path_file_name(image_path@) is None,
        },
{
    headers_for(file_name_of(image_path), media_type_of(image_path))
}

/// The two headers that go with a media type and the last component of a
/// path, where the path has one.
pub open spec fn headers_of(file_name: Option<Seq<char>>, media_type: Seq<char>) -> Option<
    (Seq<char>, Seq<char>),
> {
    match file_name {
        Some(name) => Some((media_type, disposition(name))),
        None => None,
    }
}

/// The two headers with which an image is sent, from what its path was
/// found to end in and the media type that it was found to suggest: none
/// without a file name, else the media type as it is and the offer for
/// download under the file name.
pub fn headers_for(file_name: Option<String>, media_type: String) -> (headers: Option<
    (String, String),
>)
    ensures
        match headers {
            Some(pair) => headers_of(text_of(file_name), media_type@) == Some((pair.0@, pair.1@)),
            None => headers_of(text_of(file_name), media_type@) is None,
        },
{
    match file_name {
        None => None,
        Some(name) => {
            let header = content_disposition(name.as_str());
            Some((media_type, header))
        },
    }
}

/// The name of a stored file holds no stroke: it names a file and no
/// directory.
pub proof fn stored_name_holds_no_stroke(id: Seq<char>, extension: Seq<char>)
    requires
        is_uuid_text(id),
        is_extension(extension),
    ensures
        !stored_name(id, extension).contains('/'),
{
    reveal_strlit(".");
    let name = stored_name(id, extension);
    if name.contains('/') {
        let i = choose|i: int| 0 <= i < name.len() && name[i] == '/';
        if i < 36 {
            assert(name[i] == id[i]);
            assert(is_lower_hex(id[i]) || id[i] == '-');
        } else {
            assert(extension.len() > 0);
            assert(i > 36 ==> name[i] == extension[i - 37]);
            assert(i > 36 ==> extension.contains(extension[i - 37]));
            assert(i == 36 ==> name[i] == '.');
        }
    }
}

} // verus!
