//! Where the icons of this extension are kept.

use vstd::prelude::*;

verus! {

/// The path of the icon `name`, from the directory of the extension down.
pub open spec fn icon_path(name: Seq<char>) -> Seq<char> {
    "src/icons/"@ + name + ".svg"@
}

/// The path of the icon `name` below the directory in which the extension is
/// installed. Finding that directory is left to the caller, who joins it
/// with this path.
pub fn get_icon(name: &str) -> (path: String)
    ensures
        path@ == icon_path(name@),
{
    String::from_str("src/icons/").concat(name).concat(".svg")
}

} // verus!
