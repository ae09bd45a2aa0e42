use vstd::prelude::*;

use crate::demon::Demon;

verus! {

/// The account page tab on which list helpers manage records.
#[derive(Debug, Clone, Copy)]
pub struct RecordsPage;

impl RecordsPage {
    /// The script that sets the tab up in the browser.
    pub fn initialization_script(&self) -> (script: String)
        ensures
            script@ == "/static/demonlist/js/account/records.js"@,
    {
        "/static/demonlist/js/account/records.js".to_owned()
    }

    /// The tab's number among the account page tabs.
    pub fn tab_id(&self) -> (id: u8)
        ensures
            id == 3,
    {
        3
    }
}

/// Where the sections of the demon list end: the main list is
/// `0..main_end`, the extended list `main_end..extended_end` and the legacy
/// list the rest.
#[derive(Debug, Clone, Copy, PartialEq, Eq, Structural)]
pub struct ListSections {
    pub main_end: usize,
    pub extended_end: usize,
}

/// The sections of a list of `len` demons, where the main list holds the
/// first `list_size` demons and main and extended list together the first
/// `extended_list_size`.
pub open spec fn spec_list_sections(len: usize, list_size: usize, extended_list_size: usize) -> ListSections {
    if len < list_size {
        ListSections { main_end: len, extended_end: len }
    } else if len < extended_list_size {
        ListSections { main_end: list_size, extended_end: len }
    } else {
        ListSections { main_end: list_size, extended_end: extended_list_size }
    }
}

/// The sizes can be used to cut a list of `len` demons: the extended list
/// cannot end before the main list where the list is long enough for both.
pub open spec fn sections_fit(len: usize, list_size: usize, extended_list_size: usize) -> bool {
    len < list_size || len < extended_list_size || list_size <= extended_list_size
}

/// Cuts a list of `len` demons into main, extended and legacy list.
pub fn list_sections(len: usize, list_size: usize, extended_list_size: usize) -> (r: ListSections)
    requires
        sections_fit(len, list_size, extended_list_size),
    ensures
        r == spec_list_sections(len, list_size, extended_list_size),
        r.main_end <= r.extended_end <= len,
{
    if len < list_size {
        ListSections { main_end: len, extended_end: len }
    } else if len < extended_list_size {
        ListSections { main_end: list_size, extended_end: len }
    } else {
        ListSections { main_end: list_size, extended_end: extended_list_size }
    }
}

/// Every demon of the list lies in exactly one section, and the sections
/// keep the list's order.
pub proof fn lemma_sections_partition<T>(
    demons: Seq<T>,
    list_size: usize,
    extended_list_size: usize,
)
    requires
        demons.len() <= usize::MAX,
        sections_fit(demons.len() as usize, list_size, extended_list_size),
    ensures
        ({
            let r = spec_list_sections(demons.len() as usize, list_size, extended_list_size);
            &&& r.main_end <= r.extended_end <= demons.len()
            &&& demons.subrange(0, r.main_end as int) + demons.subrange(
                r.main_end as int,
                r.extended_end as int,
            ) + demons.subrange(r.extended_end as int, demons.len() as int) == demons
        }),
{
    let r = spec_list_sections(demons.len() as usize, list_size, extended_list_size);
    assert(demons.subrange(0, r.main_end as int) + demons.subrange(
        r.main_end as int,
        r.extended_end as int,
    ) + demons.subrange(r.extended_end as int, demons.len() as int) =~= demons);
}

/// The main list holds the first `min(len, list_size)` demons, and main and
/// extended list together the first `min(len, max(list_size,
/// extended_list_size))`: the extended list runs up to the extended size and
/// the legacy list holds the rest.
pub proof fn lemma_section_sizes(len: usize, list_size: usize, extended_list_size: usize)
    requires
        sections_fit(len, list_size, extended_list_size),
    ensures
        ({
            let r = spec_list_sections(len, list_size, extended_list_size);
            let larger = if list_size >= extended_list_size {
                list_size
            } else {
                extended_list_size
            };
            &&& r.main_end == (if len <= list_size { len } else { list_size })
            &&& r.extended_end == (if len <= larger { len } else { larger })
        }),
{
}

/// Whether `demon` is the demon that the page currently shows, going by
/// list position.
pub fn is_current(current: Option<&Demon>, demon: &Demon) -> (r: bool)
    ensures
        r == (current is Some && current.unwrap().base.position == demon.base.position),
{
    match current {
        Some(current) => current.base.position == demon.base.position,
        None => false,
    }
}

} // verus!
