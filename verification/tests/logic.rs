use cleanx::collections::StringSet;
use cleanx::plugin::{CategoryScanResult, ScanReport, ScanResult, ScannerCategory};
use cleanx::tui::logic::selection::selected_of;
use cleanx::tui::logic::sorting::{chars_less, sort_items};
use cleanx::tui::logic::{
    apply_sort, deselect_all, navigate_category_next, navigate_category_prev, navigate_down,
    navigate_up, select_all_in_category, toggle_selection,
};
use cleanx::tui::service::disk::ActiveThreads;
use cleanx::tui::state::{AppsModeState, ListState, SortMode};
use cleanx::tui::view::{thread_info, ConfirmModalData};

fn finding(id: &str, path: &str, size: u64) -> ScanResult {
    ScanResult::new(id.to_string(), id.to_string(), path.to_string()).with_size(size)
}

fn at(row: Option<usize>) -> ListState {
    let mut l = ListState::new();
    l.select(row);
    l
}

#[test]
fn cursor_moves_within_the_list() {
    let mut l = at(Some(2));
    navigate_up(&mut l);
    assert_eq!(l.selected(), Some(1));
    navigate_up(&mut l);
    navigate_up(&mut l);
    assert_eq!(l.selected(), Some(0));
    navigate_down(&mut l, 3);
    navigate_down(&mut l, 3);
    assert_eq!(l.selected(), Some(2));
    navigate_down(&mut l, 3);
    assert_eq!(l.selected(), Some(2));
    navigate_down(&mut l, 0);
    assert_eq!(l.selected(), Some(2));
    let mut none = ListState::default();
    navigate_up(&mut none);
    navigate_down(&mut none, 5);
    assert_eq!(none.selected(), None);
    let mut top = at(Some(usize::MAX));
    navigate_down(&mut top, usize::MAX);
    assert_eq!(top.selected(), Some(usize::MAX));
}

#[test]
fn moving_between_groups() {
    let group = |id: &str| CategoryScanResult {
        scanner_id: id.to_string(),
        name: id.to_string(),
        category: ScannerCategory::System,
        icon: String::new(),
        items: Vec::new(),
    };
    let report = ScanReport::from_categories(vec![group("a"), group("b"), group("c")], 0);
    let mut selected = 0usize;
    let mut l = at(Some(4));
    navigate_category_prev(&mut selected, &mut l);
    assert_eq!((selected, l.selected()), (0, Some(4)));
    navigate_category_next(&mut selected, &mut l, Some(&report));
    assert_eq!((selected, l.selected()), (1, Some(0)));
    navigate_category_next(&mut selected, &mut l, Some(&report));
    l.select(Some(3));
    navigate_category_next(&mut selected, &mut l, Some(&report));
    assert_eq!((selected, l.selected()), (2, Some(3)));
    navigate_category_next(&mut selected, &mut l, None);
    assert_eq!(selected, 2);
    navigate_category_prev(&mut selected, &mut l);
    assert_eq!((selected, l.selected()), (1, Some(0)));
    let empty = ScanReport::new();
    let mut zero = 0usize;
    navigate_category_next(&mut zero, &mut l, Some(&empty));
    assert_eq!(zero, 0);
}

#[test]
fn selecting_findings() {
    let items = vec![finding("a", "/a", 1), finding("b", "/b", 2), finding("c", "/c", 4)];
    let mut selected = StringSet::new();
    toggle_selection(&mut selected, Some(&items[1]));
    assert!(selected.contains("b"));
    toggle_selection(&mut selected, None);
    assert_eq!(selected.len(), 1);
    toggle_selection(&mut selected, Some(&items[1]));
    assert!(selected.is_empty());
    selected.insert("zzz".to_string());
    select_all_in_category(&mut selected, &items);
    assert_eq!(selected.len(), 4);
    select_all_in_category(&mut selected, &items);
    assert_eq!(selected.len(), 4);
    toggle_selection(&mut selected, Some(&items[0]));
    let chosen = selected_of(&items, &selected);
    let ids: Vec<&str> = chosen.iter().map(|i| i.id.as_str()).collect();
    assert_eq!(ids, vec!["b", "c"]);
    let modal = ConfirmModalData::of(&chosen);
    assert_eq!((modal.selected_count, modal.total_size), (2, 6));
    deselect_all(&mut selected);
    assert!(selected.is_empty());
    assert!(selected_of(&items, &selected).is_empty());
    assert_eq!(ConfirmModalData::of(&Vec::new()).total_size, 0);
}

#[test]
fn the_four_orders() {
    assert_eq!(SortMode::default(), SortMode::SizeDesc);
    assert_eq!(SortMode::SizeDesc.next(), SortMode::SizeAsc);
    assert_eq!(SortMode::SizeAsc.next(), SortMode::NameAsc);
    assert_eq!(SortMode::NameAsc.next(), SortMode::NameDesc);
    assert_eq!(SortMode::NameDesc.next(), SortMode::SizeDesc);
    assert_eq!(SortMode::SizeDesc.label(), "Size ↓");
    assert_eq!(SortMode::SizeAsc.label(), "Size ↑");
    assert_eq!(SortMode::NameAsc.label(), "Name A-Z");
    assert_eq!(SortMode::NameDesc.label(), "Name Z-A");
}

#[test]
fn findings_in_each_order() {
    let make = || {
        vec![
            finding("1", "/x/beta", 5),
            finding("2", "/y/Alpha", 9),
            finding("3", "/z/alpha", 5),
            finding("4", "/", 7),
            finding("5", "/w/Gamma.txt", 9),
        ]
    };
    let order = |mode: SortMode| -> Vec<String> {
        let mut items = make();
        sort_items(&mut items, mode);
        items.into_iter().map(|i| i.id).collect()
    };
    assert_eq!(order(SortMode::SizeDesc), vec!["2", "5", "4", "1", "3"]);
    assert_eq!(order(SortMode::SizeAsc), vec!["1", "3", "4", "2", "5"]);
    // without a file name a finding is ordered as the empty name
    assert_eq!(order(SortMode::NameAsc), vec!["4", "2", "3", "1", "5"]);
    assert_eq!(order(SortMode::NameDesc), vec!["5", "1", "2", "3", "4"]);
}

#[test]
fn sorting_a_report_keeps_groups_and_totals() {
    let group = |id: &str, sizes: &[u64]| CategoryScanResult {
        scanner_id: id.to_string(),
        name: id.to_string(),
        category: ScannerCategory::System,
        icon: String::new(),
        items: sizes.iter().map(|s| finding(&format!("{}{}", id, s), "/p", *s)).collect(),
    };
    let mut report = ScanReport::from_categories(vec![group("a", &[3, 1, 2]), group("b", &[]), group("c", &[9, 10])], 4);
    apply_sort(&mut report, SortMode::SizeAsc);
    let sizes = |r: &ScanReport, g: usize| -> Vec<u64> {
        r.categories()[g].items.iter().map(|i| i.size).collect()
    };
    assert_eq!(sizes(&report, 0), vec![1, 2, 3]);
    assert_eq!(sizes(&report, 2), vec![9, 10]);
    apply_sort(&mut report, SortMode::SizeDesc);
    assert_eq!(sizes(&report, 0), vec![3, 2, 1]);
    assert_eq!(sizes(&report, 2), vec![10, 9]);
    assert_eq!(report.categories()[1].scanner_id, "b");
    assert_eq!((report.total_size(), report.total_items(), report.duration_ms()), (25, 5, 4));
}

#[test]
fn dictionary_order() {
    let less = |a: &str, b: &str| chars_less(&a.chars().collect(), &b.chars().collect());
    for (a, b) in [("", "a"), ("a", "b"), ("a", "aa"), ("Z", "a"), ("ab", "b"), ("a", "ä"), ("z", "語")] {
        assert!(less(a, b), "{} {}", a, b);
        assert!(!less(b, a), "{} {}", b, a);
        assert_eq!(less(a, b), a < b);
    }
    assert!(!less("", ""));
    assert!(!less("same", "same"));
}

#[test]
fn thread_information() {
    let active = ActiveThreads { small: 1, medium: 5, large: 9 };
    let info = thread_info(3, &active);
    assert_eq!((info.threads, info.active), (4, 1));
    let info = thread_info(6, &active);
    assert_eq!((info.threads, info.active), (8, 5));
    let info = thread_info(32, &active);
    assert_eq!((info.threads, info.active), (16, 9));
}

#[test]
fn application_sizes_as_they_arrive() {
    let mut apps = AppsModeState::default();
    apps.poll_app_sizes(&vec![(0, 10), (2, 30), (0, 11)]);
    assert_eq!(apps.app_sizes.get(&0), Some(&11));
    assert_eq!(apps.app_sizes.get(&2), Some(&30));
    assert_eq!(apps.app_sizes.get(&1), None);
    apps.poll_app_sizes(&Vec::new());
    assert_eq!(apps.app_sizes.len(), 2);
}
