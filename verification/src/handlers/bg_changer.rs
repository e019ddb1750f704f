//! The background-changer module: it only acts (switching wallpaper) and
//! renders nothing; the library owns the choice of which files qualify.

use vstd::prelude::*;

use crate::fields::FieldMap;
use crate::random::random_below_eq;
use crate::strutil::spec_ends_with;
use crate::strutil::str_ends_with;

verus! {

/// Whether a file name is one of the accepted wallpaper image formats.
pub open spec fn spec_is_image_name(name: Seq<char>) -> bool {
    ||| spec_ends_with(name, ".jpg"@)
    ||| spec_ends_with(name, ".jpeg"@)
    ||| spec_ends_with(name, ".png"@)
}

pub fn is_image_name(name: &str) -> (r: bool)
    ensures
        r == spec_is_image_name(name@),
{
    str_ends_with(name, ".jpg") || str_ends_with(name, ".jpeg") || str_ends_with(name, ".png")
}

/// Whether some of the first `n` listed names is an image file.
pub open spec fn has_image(names: Seq<String>, n: int) -> bool {
    exists|k: int| 0 <= k < n && spec_is_image_name((#[trigger] names[k])@)
}

/// Chooses a wallpaper among the image files of a directory listing;
/// every image listed can be chosen, and nothing else.  Yields nothing
/// exactly when no listed name is an image.
pub fn pick_wallpaper(names: &Vec<String>) -> (r: Option<String>)
    ensures
        r is Some <==> has_image(names@, names@.len() as int),
        match r {
            Some(chosen) => exists|k: int|
                0 <= k < names@.len() && (#[trigger] names@[k])@ == chosen@
                    && spec_is_image_name(chosen@),
            None => true,
        },
{
    let mut files: Vec<String> = Vec::new();
    let mut i: usize = 0;
    while i < names.len()
        invariant
            i <= names@.len(),
            forall|j: int|
                0 <= j < files@.len() ==> exists|k: int|
                    0 <= k < i && (#[trigger] names@[k])@ == (#[trigger] files@[j])@
                        && spec_is_image_name(files@[j]@),
            files@.len() > 0 <==> has_image(names@, i as int),
        decreases names@.len() - i,
    {
        if is_image_name(names[i].as_str()) {
            files.push(names[i].clone());
        }
        i += 1;
    }
    if files.len() == 0 {
        return None;
    }
    let idx = random_below_eq(files.len() - 1);
    Some(files[idx].clone())
}

/// The exact text of the background-changer module: nothing.
pub open spec fn render_spec(m: Map<Seq<char>, Seq<char>>) -> Seq<char> {
    Seq::empty()
}

pub fn render(_i: &FieldMap) -> (r: String)
    ensures
        r@ == render_spec(_i@),
{
    String::new()
}

} // verus!
