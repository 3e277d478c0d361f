use diskg::cli::{parse_args, usage_text, help_text, Action};
use diskg::disks::{disk_detail_in, disk_names, get_partions, DiskInfo};
use diskg::error::QueryError;
use diskg::files::{entry_panel_text, get_size, no_selection_text, EntryMeta};
use diskg::selection::{App, Key, Mode};

fn sample_items(n: usize) -> Vec<String> {
    (0..n).map(|i| format!("item{}", i)).collect()
}

#[test]
fn new_selects_first_of_nonempty() {
    let app = App::new(sample_items(3), Mode::Files);
    assert_eq!(app.index, Some(0));
    assert!(app.check());
}

#[test]
fn new_leaves_index_unset_on_empty() {
    let app = App::new(Vec::new(), Mode::Files);
    assert_eq!(app.index, None);
    assert!(app.check());
}

#[test]
fn next_wraps_past_last() {
    let mut app = App::new(sample_items(3), Mode::Files);
    app.next();
    assert_eq!(app.index, Some(1));
    app.next();
    assert_eq!(app.index, Some(2));
    app.next();
    assert_eq!(app.index, Some(0));
}

#[test]
fn previous_wraps_at_first() {
    let mut app = App::new(sample_items(3), Mode::Files);
    app.previous();
    assert_eq!(app.index, Some(2));
    app.previous();
    assert_eq!(app.index, Some(1));
}

#[test]
fn full_cycle_returns_to_start() {
    for n in 1..6 {
        let mut app = App::new(sample_items(n), Mode::Files);
        app.next();
        app.next();
        let start = app.index;
        for _ in 0..n {
            app.next();
        }
        assert_eq!(app.index, start);
    }
}

#[test]
fn previous_undoes_next_and_back() {
    for n in 1..6 {
        for steps in 0..n {
            let mut app = App::new(sample_items(n), Mode::Files);
            for _ in 0..steps {
                app.next();
            }
            let start = app.index;
            app.next();
            app.previous();
            assert_eq!(app.index, start);
            app.previous();
            app.next();
            assert_eq!(app.index, start);
        }
    }
}

#[test]
fn navigation_on_empty_list_is_a_no_op() {
    let mut app = App::new(Vec::new(), Mode::Partitions);
    app.next();
    assert_eq!(app.index, None);
    app.previous();
    assert_eq!(app.index, None);
    assert_eq!(app.selected(), None);
}

#[test]
fn handle_key_dispatches() {
    let mut app = App::new(sample_items(2), Mode::Files);
    assert!(!app.handle_key(Key::Down));
    assert_eq!(app.index, Some(1));
    assert!(!app.handle_key(Key::Up));
    assert_eq!(app.index, Some(0));
    assert!(!app.handle_key(Key::Other));
    assert_eq!(app.index, Some(0));
    assert!(app.handle_key(Key::Quit));
    assert_eq!(app.index, Some(0));
}

#[test]
fn selected_returns_highlighted_label() {
    let mut app = App::new(sample_items(3), Mode::Files);
    assert_eq!(app.selected(), Some(&"item0".to_string()));
    app.next();
    assert_eq!(app.selected(), Some(&"item1".to_string()));
}

fn sample_disk() -> DiskInfo {
    DiskInfo {
        name: "data".to_string(),
        mount_point: "/mnt/data".to_string(),
        file_system: "ext4".to_string(),
        total_space: 10_737_418_240,
        available_space: 5_368_709_120,
    }
}

#[test]
fn disk_detail_renders_gibibytes_with_two_decimals() {
    let disks = vec![sample_disk()];
    let text = disk_detail_in(&disks, "data").unwrap();
    assert!(text.contains("10.00 GiB"));
    assert!(text.contains("5.00 GiB"));
    assert_eq!(
        text,
        "Disk name: data\nMount point: /mnt/data\nFile system: ext4\n\
         Total space: 10.00 GiB\nAvailable space: 5.00 GiB"
    );
}

#[test]
fn disk_detail_rounds_to_hundredths() {
    let mut d = sample_disk();
    // 1.5 GiB exactly, and one byte under a quarter gibibyte.
    d.total_space = 1_610_612_736;
    d.available_space = 268_435_455;
    let disks = vec![d];
    let text = disk_detail_in(&disks, "data").unwrap();
    assert!(text.contains("Total space: 1.50 GiB"));
    assert!(text.contains("Available space: 0.25 GiB"));
}

#[test]
fn disk_detail_takes_first_match() {
    let mut second = sample_disk();
    second.mount_point = "/mnt/other".to_string();
    let disks = vec![sample_disk(), second];
    let text = disk_detail_in(&disks, "data").unwrap();
    assert!(text.contains("/mnt/data"));
    assert!(!text.contains("/mnt/other"));
}

#[test]
fn missing_disk_reports_not_found() {
    let disks = vec![sample_disk()];
    let err = disk_detail_in(&disks, "gone").unwrap_err();
    match &err {
        QueryError::NotFound(name) => assert_eq!(name, "gone"),
        QueryError::Io(_) => panic!("expected a not-found error"),
    }
    assert_eq!(err.message(), "disk 'gone' was not found");
}

#[test]
fn disk_check_on_absent_name_reports_not_found() {
    let err = diskg::disks::disk_check("no-such-disk-label-zzz").unwrap_err();
    assert!(matches!(err, QueryError::NotFound(_)));
    assert_eq!(err.message(), "disk 'no-such-disk-label-zzz' was not found");
}

#[test]
fn disk_panel_text_on_absent_name_shows_error_message() {
    let text = diskg::disks::disk_panel_text("no-such-disk-label-zzz");
    assert_eq!(text, "Disk error: disk 'no-such-disk-label-zzz' was not found");
}

#[test]
fn partitions_listing_succeeds() {
    let names = get_partions().unwrap();
    for name in &names {
        let detail = diskg::disks::disk_check(name).unwrap();
        assert!(detail.contains("GiB"));
    }
}

#[test]
fn disk_names_keep_order() {
    let mut second = sample_disk();
    second.name = "backup".to_string();
    let disks = vec![sample_disk(), second];
    let names = disk_names(&disks);
    assert_eq!(names, vec!["data".to_string(), "backup".to_string()]);
}

#[test]
fn zero_byte_file_renders_a_size_string() {
    let text = get_size("empty.txt", EntryMeta::File { len: 0 }).unwrap();
    assert_eq!(text, "Type: File\nName: empty.txt\nSize: 0 bytes");
}

#[test]
fn small_file_sizes_render_exactly() {
    let a = get_size("a.txt", EntryMeta::File { len: 3 }).unwrap();
    assert_eq!(a, "Type: File\nName: a.txt\nSize: 3 bytes");
    let b = get_size("b.txt", EntryMeta::File { len: 0 }).unwrap();
    assert_eq!(b, "Type: File\nName: b.txt\nSize: 0 bytes");
}

#[test]
fn larger_file_sizes_use_binary_units() {
    let text = get_size("big.bin", EntryMeta::File { len: 2 * 1024 * 1024 }).unwrap();
    assert_eq!(text, "Type: File\nName: big.bin\nSize: 2.00 MiB");
}

#[test]
fn other_entries_show_zero_size() {
    let text = get_size("pipe", EntryMeta::Other).unwrap();
    assert_eq!(text, "Type: Other\nName: pipe\nSize: 0 bytes");
}

#[test]
fn entry_panel_text_passes_metadata_errors_through() {
    let text = entry_panel_text("a.txt", Err("permission denied".to_string()));
    assert_eq!(text, "File or folder error: permission denied");
}

#[test]
fn entry_panel_text_formats_files() {
    let text = entry_panel_text("a.txt", Ok(EntryMeta::File { len: 3 }));
    assert_eq!(text, "Type: File\nName: a.txt\nSize: 3 bytes");
}

#[test]
fn placeholder_text_for_empty_list() {
    assert_eq!(no_selection_text(), "No item selected.");
}

fn args(list: &[&str]) -> Vec<String> {
    list.iter().map(|s| s.to_string()).collect()
}

#[test]
fn parse_args_recognizes_the_three_flags() {
    assert_eq!(parse_args(&args(&["prog", "-d"])), Action::Run(Mode::Partitions));
    assert_eq!(parse_args(&args(&["prog", "-f"])), Action::Run(Mode::Files));
    assert_eq!(parse_args(&args(&["prog", "-h"])), Action::Help);
}

#[test]
fn parse_args_falls_back_to_usage() {
    assert_eq!(parse_args(&args(&["prog"])), Action::Usage);
    assert_eq!(parse_args(&args(&["prog", "-x"])), Action::Usage);
    assert_eq!(parse_args(&args(&["prog", "-d", "-f"])), Action::Usage);
    assert_eq!(parse_args(&args(&[])), Action::Usage);
}

#[test]
fn usage_and_help_texts() {
    assert_eq!(usage_text(), "Help: ./diskg -h");
    assert!(help_text().starts_with("Usage: ./diskg [option]"));
    assert!(help_text().contains("-d"));
    assert!(help_text().contains("-f"));
    assert!(help_text().contains("Q"));
}

// Files mode over a directory holding exactly "a.txt" (3 bytes) and
// "b.txt" (0 bytes): the selection walks the two labels and the detail
// panel shows each file's type and rendered size.
#[test]
fn files_mode_scenario_two_files() {
    let items = vec!["a.txt".to_string(), "b.txt".to_string()];
    let mut app = App::new(items, Mode::Files);

    let name = app.selected().unwrap().clone();
    assert_eq!(name, "a.txt");
    let text = entry_panel_text(&name, Ok(EntryMeta::File { len: 3 }));
    assert_eq!(text, "Type: File\nName: a.txt\nSize: 3 bytes");

    app.next();
    let name = app.selected().unwrap().clone();
    assert_eq!(name, "b.txt");
    let text = entry_panel_text(&name, Ok(EntryMeta::File { len: 0 }));
    assert_eq!(text, "Type: File\nName: b.txt\nSize: 0 bytes");
}

// The Name field shows the final path component, as the detail panel
// names an entry by its file name, not by the path it was reached under.
#[test]
fn detail_names_the_final_path_component() {
    let text = get_size("sub/dir/a.txt", EntryMeta::File { len: 3 }).unwrap();
    assert_eq!(text, "Type: File\nName: a.txt\nSize: 3 bytes");
    let text = get_size("sub/dir/", EntryMeta::Other).unwrap();
    assert_eq!(text, "Type: Other\nName: dir\nSize: 0 bytes");
}

// When no component can be taken, the argument itself is shown, as with
// a bare separator or a trailing parent-directory segment.
#[test]
fn detail_name_falls_back_to_the_whole_path() {
    let text = get_size("/", EntryMeta::Other).unwrap();
    assert_eq!(text, "Type: Other\nName: /\nSize: 0 bytes");
    let text = get_size("sub/..", EntryMeta::Other).unwrap();
    assert_eq!(text, "Type: Other\nName: sub/..\nSize: 0 bytes");
}
