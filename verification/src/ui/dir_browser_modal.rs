//! Texts of the folder browser.
use vstd::prelude::*;
use vstd::string::*;
use crate::browser::DirEntryItem;
use crate::text::{concat2, concat3, decimal, u64_to_decimal};

verus! {

/// A bookmark's button: its number (from 1) and name.
pub fn root_label(index: usize, name: &str) -> (r: String)
    requires
        index < usize::MAX,
    ensures
        r@ == " ["@ + decimal(index as nat + 1) + "] "@ + name@ + " "@,
{
    let n = u64_to_decimal((index + 1) as u64);
    let mut t = concat3(" [", n.as_str(), "] ");
    t.append(name);
    t.append(" ");
    t
}

/// A row of the folder list: an arrow for the parent directory, a folder otherwise, and the
/// name.
pub fn entry_label(item: &DirEntryItem) -> (r: String)
    ensures
        r@ == if item.is_parent {
            "⤴️ "@
        } else {
            "📁 "@
        } + item.name@,
{
    if item.is_parent {
        concat2("⤴️ ", item.name.as_str())
    } else {
        concat2("📁 ", item.name.as_str())
    }
}

/// The title of the folder list, which says how to go on.
pub fn list_title(empty: bool) -> (r: &'static str)
    ensures
        r@ == if empty {
            " Subdirectories (Empty / Press 'n' to create one) "@
        } else {
            " Subdirectories (Enter to open, Space to select as destination) "@
        },
{
    if empty {
        " Subdirectories (Empty / Press 'n' to create one) "
    } else {
        " Subdirectories (Enter to open, Space to select as destination) "
    }
}

/// The new-folder prompt's input line, with a block cursor.
pub fn prompt_input_text(input: &str) -> (r: String)
    ensures
        r@ == " "@ + input@ + "█"@,
{
    concat3(" ", input, "█")
}

/// The new-folder prompt's description: the directory the folder goes into.
pub fn prompt_parent_text(path: &str) -> (r: String)
    ensures
        r@ == "Parent: "@ + path@,
{
    concat2("Parent: ", path)
}

} // verus!
