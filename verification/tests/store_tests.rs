use todo_store::store::{Store, StoreError};
use todo_store::{Category, EditedEntry, Entry, Flag, NewEntry, Status};

fn new_entry(title: &str, description: &str, category: Category) -> NewEntry {
    NewEntry {
        title: String::from(title),
        description: String::from(description),
        status: Status::Active,
        category,
    }
}

fn seeded_store() -> Store {
    let mut store = Store::new();
    store.create_entry(new_entry("groceries", "milk and eggs", Category::Personal)).unwrap();
    store.create_entry(new_entry("report", "quarterly numbers", Category::Work)).unwrap();
    store.create_entry(new_entry("kite", "fly the kite", Category::Fun)).unwrap();
    store.update_entry(String::from("report"), Status::Done).unwrap();
    store
}

#[test]
fn create_then_read_adds_exactly_one_entry() {
    let mut store = seeded_store();
    let before = store.get_entries().unwrap();
    let created = store
        .create_entry(new_entry("calls", "return the calls", Category::Work))
        .unwrap();
    let after = store.get_entries().unwrap();
    assert_eq!(after.len(), before.len() + 1);
    assert_eq!(&after[..before.len()], &before[..]);
    let last = after.last().unwrap();
    assert_eq!(last, &created);
    assert_eq!(last.title, "calls");
    assert_eq!(last.description, "return the calls");
    assert_eq!(last.category, Category::Work);
    assert_eq!(last.status, Status::Active);
}

#[test]
fn create_forces_status_to_active() {
    let mut store = Store::new();
    let created = store
        .create_entry(NewEntry {
            title: String::from("nap"),
            description: String::from("half an hour"),
            status: Status::Done,
            category: Category::Fun,
        })
        .unwrap();
    assert_eq!(created.status, Status::Active);
}

#[test]
fn create_trims_title_and_description() {
    let mut store = Store::new();
    let created = store
        .create_entry(new_entry("  dishes \n", "\tafter dinner ", Category::Personal))
        .unwrap();
    assert_eq!(created.title, "dishes");
    assert_eq!(created.description, "after dinner");
}

#[test]
fn create_assigns_fresh_increasing_ids() {
    let mut store = Store::new();
    let a = store.create_entry(new_entry("a", "first", Category::Other)).unwrap();
    let b = store.create_entry(new_entry("b", "second", Category::Other)).unwrap();
    assert_eq!(a.id, 1);
    assert_eq!(b.id, 2);
}

#[test]
fn create_fails_only_when_id_space_is_exhausted() {
    let mut store = Store { entries: Vec::new(), next_id: i32::MAX };
    let r = store.create_entry(new_entry("late", "one too many", Category::Other));
    assert_eq!(r, Err(StoreError::Full));
    assert!(store.get_entries().unwrap().is_empty());
}

#[test]
fn read_without_filter_returns_everything_in_order() {
    let store = seeded_store();
    let all = store.get_entries().unwrap();
    let titles: Vec<&str> = all.iter().map(|e| e.title.as_str()).collect();
    assert_eq!(titles, ["groceries", "report", "kite"]);
}

#[test]
fn read_filtered_by_status_returns_exactly_that_subset() {
    let store = seeded_store();
    let flag = Flag { category: None, status: Some(String::from("Active")) };
    let active = store.get_entries_with_flag(flag).unwrap();
    let titles: Vec<&str> = active.iter().map(|e| e.title.as_str()).collect();
    assert_eq!(titles, ["groceries", "kite"]);
    for e in &active {
        assert_eq!(e.status, Status::Active);
    }
}

#[test]
fn read_filtered_on_empty_store_is_empty() {
    let store = Store::new();
    let flag = Flag { category: None, status: Some(String::from("Active")) };
    assert!(store.get_entries_with_flag(flag).unwrap().is_empty());
}

#[test]
fn read_filtered_by_category_returns_exactly_that_subset() {
    let store = seeded_store();
    let flag = Flag { category: Some(String::from("Work")), status: None };
    let work = store.get_entries_with_flag(flag).unwrap();
    let titles: Vec<&str> = work.iter().map(|e| e.title.as_str()).collect();
    assert_eq!(titles, ["report"]);
}

#[test]
fn read_filter_parts_are_conjunctive() {
    let store = seeded_store();
    let both = Flag {
        category: Some(String::from("Work")),
        status: Some(String::from("Active")),
    };
    assert!(store.get_entries_with_flag(both).unwrap().is_empty());
    let both = Flag {
        category: Some(String::from("Work")),
        status: Some(String::from("Done")),
    };
    let hits = store.get_entries_with_flag(both).unwrap();
    assert_eq!(hits.len(), 1);
    assert_eq!(hits[0].title, "report");
}

#[test]
fn read_with_empty_flag_returns_everything() {
    let store = seeded_store();
    let flag = Flag { category: None, status: None };
    let all = store.get_entries_with_flag(flag).unwrap();
    assert_eq!(all, store.get_entries().unwrap());
}

#[test]
fn read_filter_matching_no_vocabulary_text_is_empty() {
    let store = seeded_store();
    let flag = Flag { category: None, status: Some(String::from("Paused")) };
    assert!(store.get_entries_with_flag(flag).unwrap().is_empty());
}

#[test]
fn delete_removes_every_match_and_repeats_as_success() {
    let mut store = seeded_store();
    store.create_entry(new_entry("report", "a second one", Category::Other)).unwrap();
    store.delete_entry(String::from("report")).unwrap();
    let rest = store.get_entries().unwrap();
    assert!(rest.iter().all(|e| e.title != "report"));
    assert_eq!(rest.len(), 2);
    store.delete_entry(String::from("report")).unwrap();
    assert_eq!(store.get_entries().unwrap(), rest);
}

#[test]
fn delete_of_absent_title_is_a_successful_noop() {
    let mut store = seeded_store();
    let before = store.get_entries().unwrap();
    store.delete_entry(String::from("no such title")).unwrap();
    assert_eq!(store.get_entries().unwrap(), before);
}

#[test]
fn edit_renames_and_old_title_finds_nothing() {
    let mut store = seeded_store();
    store
        .edit_entry(
            String::from("groceries"),
            EditedEntry {
                title: String::from("errands"),
                description: String::from("milk and eggs"),
                category: Category::Personal,
            },
        )
        .unwrap();
    let all = store.get_entries().unwrap();
    assert!(all.iter().all(|e| e.title != "groceries"));
    let hits: Vec<&Entry> = all.iter().filter(|e| e.title == "errands").collect();
    assert_eq!(hits.len(), 1);
    assert_eq!(hits[0].description, "milk and eggs");
    assert_eq!(hits[0].category, Category::Personal);
    assert_eq!(hits[0].status, Status::Active);
    assert_eq!(hits[0].id, 1);
}

#[test]
fn edit_overwrites_all_three_fields() {
    let mut store = seeded_store();
    store
        .edit_entry(
            String::from("kite"),
            EditedEntry {
                title: String::from("picnic"),
                description: String::from("pack a basket"),
                category: Category::Personal,
            },
        )
        .unwrap();
    let all = store.get_entries().unwrap();
    let hit = all.iter().find(|e| e.title == "picnic").unwrap();
    assert_eq!(hit.description, "pack a basket");
    assert_eq!(hit.category, Category::Personal);
}

#[test]
fn edit_of_absent_title_is_a_successful_noop() {
    let mut store = seeded_store();
    let before = store.get_entries().unwrap();
    store
        .edit_entry(
            String::from("no such title"),
            EditedEntry {
                title: String::from("whatever"),
                description: String::from("whatever"),
                category: Category::Other,
            },
        )
        .unwrap();
    assert_eq!(store.get_entries().unwrap(), before);
}

#[test]
fn update_status_rewrites_every_match() {
    let mut store = seeded_store();
    store.create_entry(new_entry("kite", "a second kite", Category::Fun)).unwrap();
    store.update_entry(String::from("kite"), Status::Abandoned).unwrap();
    let all = store.get_entries().unwrap();
    let kites: Vec<&Entry> = all.iter().filter(|e| e.title == "kite").collect();
    assert_eq!(kites.len(), 2);
    for e in kites {
        assert_eq!(e.status, Status::Abandoned);
    }
    assert_eq!(all.iter().find(|e| e.title == "groceries").unwrap().status, Status::Active);
}

#[test]
fn update_status_of_absent_title_succeeds_and_changes_nothing() {
    let mut store = seeded_store();
    let before = store.get_entries().unwrap();
    store.update_entry(String::from("X"), Status::Done).unwrap();
    assert_eq!(store.get_entries().unwrap(), before);
}

#[test]
fn update_status_keeps_ids_and_titles() {
    let mut store = seeded_store();
    store.update_entry(String::from("groceries"), Status::Done).unwrap();
    let all = store.get_entries().unwrap();
    let hit = all.iter().find(|e| e.title == "groceries").unwrap();
    assert_eq!(hit.id, 1);
    assert_eq!(hit.status, Status::Done);
    assert_eq!(hit.description, "milk and eggs");
}

#[test]
fn duplicate_copies_every_field() {
    let mut store = seeded_store();
    let created = store.create_entry(new_entry("copy me", "fields", Category::Fun)).unwrap();
    let copy = created.duplicate();
    assert_eq!(copy, created);
}

#[test]
fn flag_admits_matches_status_and_category_text() {
    let store = seeded_store();
    let all = store.get_entries().unwrap();
    let report = all.iter().find(|e| e.title == "report").unwrap();
    let done = Flag { category: None, status: Some(String::from("Done")) };
    assert!(done.admits(report));
    let wrong = Flag { category: Some(String::from("Fun")), status: Some(String::from("Done")) };
    assert!(!wrong.admits(report));
    let open = Flag { category: None, status: None };
    assert!(open.admits(report));
}
