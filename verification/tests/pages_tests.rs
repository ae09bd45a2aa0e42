use pointercrate::demon::{DatabasePlayer, Demon, MinimalDemon};
use pointercrate::pages::{is_current, list_sections, ListSections, RecordsPage};

fn demon(position: i16) -> Demon {
    let player = DatabasePlayer { id: 1, name: "p".to_string(), banned: false };
    Demon {
        base: MinimalDemon { id: position as i32, position, name: format!("demon {}", position) },
        requirement: 100,
        video: None,
        thumbnail: String::new(),
        publisher: player.clone(),
        verifier: player,
        level_id: None,
    }
}

#[test]
fn records_page_tab() {
    let page = RecordsPage;
    assert_eq!(page.tab_id(), 3);
    assert_eq!(page.initialization_script(), "/static/demonlist/js/account/records.js");
}

#[test]
fn short_list_is_all_main_list() {
    assert_eq!(list_sections(30, 75, 150), ListSections { main_end: 30, extended_end: 30 });
}

#[test]
fn list_between_sizes_has_no_legacy_list() {
    assert_eq!(list_sections(100, 75, 150), ListSections { main_end: 75, extended_end: 100 });
    assert_eq!(list_sections(75, 75, 150), ListSections { main_end: 75, extended_end: 75 });
}

#[test]
fn long_list_has_all_three_sections() {
    assert_eq!(list_sections(200, 75, 150), ListSections { main_end: 75, extended_end: 150 });
    assert_eq!(list_sections(150, 75, 150), ListSections { main_end: 75, extended_end: 150 });
}

#[test]
fn sections_partition_the_list() {
    let demons: Vec<i32> = (0..200).collect();
    let s = list_sections(demons.len(), 75, 150);
    let mut joined = demons[..s.main_end].to_vec();
    joined.extend_from_slice(&demons[s.main_end..s.extended_end]);
    joined.extend_from_slice(&demons[s.extended_end..]);
    assert_eq!(joined, demons);
}

#[test]
fn current_demon_is_found_by_position() {
    let a = demon(1);
    let b = demon(2);
    assert!(is_current(Some(&a), &a));
    assert!(!is_current(Some(&a), &b));
    assert!(!is_current(None, &a));
}
