//! The data behind the assistant dialogs and the utility page.
use vstd::prelude::*;

verus! {

/// The assistant dialogs that the application offers.
pub enum AssistantDialogue {
    Donation,
    UserAdministration,
    ItemAdministration,
}

/// What an assistant dialog hands back when it is applied.
pub struct AssistantOutput {
    pub multiselection: Vec<(String, u64)>,
    pub singleselection: Option<(String, u64)>,
    pub combobox: String,
    pub normaltextfield: String,
    pub autocomplete: String,
    pub numberoutput: u64,
}

/// The rows of the utility page's list: (number, name, checked).
pub open spec fn util_page_rows() -> Seq<(u32, Seq<char>, bool)> {
    seq![
        (1u32, "Michel"@, false),
        (2u32, "Sara"@, true),
        (3u32, "Liam"@, true),
        (4u32, "Zelda"@, false),
        (5u32, "Neo"@, false),
        (6u32, "Octopus master"@, true),
    ]
}

/// The rows with which the utility page's list is filled, numbered from 1.
pub fn util_page_entries() -> (r: Vec<(u32, String, bool)>)
    ensures
        r@.len() == util_page_rows().len(),
        forall|i: int| 0 <= i < r@.len() ==> (#[trigger] r@[i]).0 == util_page_rows()[i].0
            && r@[i].1@ == util_page_rows()[i].1 && r@[i].2 == util_page_rows()[i].2,
{
    let mut rows: Vec<(u32, String, bool)> = Vec::new();
    rows.push((1, String::from_str("Michel"), false));
    rows.push((2, String::from_str("Sara"), true));
    rows.push((3, String::from_str("Liam"), true));
    rows.push((4, String::from_str("Zelda"), false));
    rows.push((5, String::from_str("Neo"), false));
    rows.push((6, String::from_str("Octopus master"), true));
    rows
}

/// The new state of a check box in the utility page's list when it is toggled.
pub fn toggled(active: bool) -> (r: bool)
    ensures
        r == !active,
{
    !active
}

} // verus!
