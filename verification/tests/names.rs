use broot::{
    Color, DisplayableTree, DrawOp, LineType, OptionBool, Permissions, Skin, Style, Tree,
    TreeLine, TreeOptions,
};

fn skin() -> Skin {
    Skin {
        default: Style::plain(),
        tree: Style::with_fg(Color::DarkGrey),
        file: Style::with_fg(Color::White),
        directory: Style::with_fg(Color::Blue),
        exe: Style::with_fg(Color::Cyan),
        link: Style::with_fg(Color::Magenta),
        pruning: Style::with_fg(Color::Grey),
        permissions: Style::with_fg(Color::AnsiValue(94)),
        dates: Style::with_fg(Color::AnsiValue(66)),
        selected_line: Style::with_bg(Color::AnsiValue(240)),
        char_match: Style::with_fgbg(Color::Green, Color::Black),
        file_error: Style::with_fg(Color::Red),
        scrollbar_track: Style::with_fg(Color::Black),
        scrollbar_thumb: Style::with_fg(Color::Grey),
    }
}

fn line(name: &str, line_type: LineType) -> TreeLine {
    TreeLine {
        left_branchs: vec![true],
        depth: 1,
        name: name.to_string(),
        path: format!("/data/{}", name),
        line_type,
        has_error: false,
        unlisted: 0,
        size: None,
        permissions: None,
        modified: None,
        name_match: Vec::new(),
    }
}

fn tree_with(line: TreeLine) -> Tree {
    let mut root = self::line("root", LineType::Dir);
    root.depth = 0;
    root.left_branchs = Vec::new();
    root.path = "/data".to_string();
    Tree {
        lines: vec![root, line],
        selection: 0,
        options: TreeOptions {
            show_hidden: false,
            only_folders: false,
            show_sizes: false,
            show_dates: false,
            show_permissions: false,
            respect_git_ignore: OptionBool::Auto,
            pattern: None,
        },
        scroll: 0,
    }
}

fn name_ops(line: TreeLine, idx: usize, selected: bool) -> Vec<DrawOp> {
    let tree = tree_with(line);
    let skin = skin();
    let dt = DisplayableTree::out_of_app(&tree, &skin, 80);
    let mut ops = Vec::new();
    dt.write_line_name(&mut ops, &tree.lines[1], idx, selected);
    ops
}

fn print(style: Style, text: &str) -> DrawOp {
    DrawOp::Print { style, text: text.to_string() }
}

#[test]
fn name_without_match_is_one_run() {
    let skin = skin();
    assert_eq!(name_ops(line("notes.txt", LineType::File), 1, false), vec![print(skin.file, "notes.txt")]);
}

#[test]
fn matched_characters_are_highlighted_in_runs() {
    let skin = skin();
    let mut l = line("abcdef", LineType::File);
    l.name_match = vec![1, 2, 5];
    assert_eq!(
        name_ops(l, 1, false),
        vec![
            print(skin.file, "a"),
            print(skin.char_match, "bc"),
            print(skin.file, "de"),
            print(skin.char_match, "f"),
        ]
    );
}

#[test]
fn match_positions_count_characters_and_need_no_order() {
    let skin = skin();
    let mut l = line("éàü.rs", LineType::File);
    l.name_match = vec![2, 0, 40];
    assert_eq!(
        name_ops(l, 1, false),
        vec![
            print(skin.char_match, "é"),
            print(skin.file, "à"),
            print(skin.char_match, "ü"),
            print(skin.file, ".rs"),
        ]
    );
}

#[test]
fn wholly_matched_name_is_one_highlighted_run() {
    let skin = skin();
    let mut l = line("ab", LineType::File);
    l.name_match = vec![0, 1];
    assert_eq!(name_ops(l, 1, false), vec![print(skin.char_match, "ab")]);
}

#[test]
fn empty_name_prints_nothing() {
    assert_eq!(name_ops(line("", LineType::File), 1, false), Vec::new());
}

#[test]
fn root_shows_its_path_without_highlighting() {
    let skin = skin();
    let mut l = line("data", LineType::Dir);
    l.path = "/home/me/data".to_string();
    l.name_match = vec![0, 1];
    assert_eq!(name_ops(l, 0, false), vec![print(skin.directory, "/home/me/data")]);
}

#[test]
fn root_row_has_neither_branches_nor_columns() {
    let skin = skin();
    let mut tree = tree_with(line("a", LineType::File));
    tree.options.show_sizes = true;
    tree.options.show_permissions = true;
    tree.options.show_dates = true;
    tree.lines[0].depth = 2;
    tree.lines[0].left_branchs = vec![true, true];
    tree.lines[0].name_match = vec![0];
    let dt = DisplayableTree { tree: &tree, skin: &skin, area: broot::Area { left: 0, top: 0, width: 80, height: 1 }, in_app: false };
    let mut ops = Vec::new();
    dt.write_on(&mut ops);
    assert_eq!(ops, vec![print(skin.directory, "/data"), DrawOp::NewLine]);
}

#[test]
fn directory_with_unlisted_children_is_marked() {
    let skin = skin();
    let mut l = line("big", LineType::Dir);
    l.unlisted = 3;
    assert_eq!(name_ops(l, 1, false), vec![print(skin.directory, "big"), print(skin.directory, " …")]);
}

#[test]
fn directory_without_unlisted_children_is_not_marked() {
    let skin = skin();
    assert_eq!(name_ops(line("small", LineType::Dir), 1, false), vec![print(skin.directory, "small")]);
}

#[test]
fn file_with_unlisted_count_is_not_marked() {
    let skin = skin();
    let mut l = line("f", LineType::File);
    l.unlisted = 3;
    assert_eq!(name_ops(l, 1, false), vec![print(skin.file, "f")]);
}

#[test]
fn link_to_file_shows_its_target_as_a_file() {
    let skin = skin();
    let l = line("ln", LineType::SymLinkToFile("target.txt".to_string()));
    assert_eq!(
        name_ops(l, 1, false),
        vec![print(skin.link, "ln"), print(skin.link, " -> "), print(skin.file, "target.txt")]
    );
}

#[test]
fn link_to_directory_shows_its_target_as_a_directory() {
    let skin = skin();
    let l = line("ln", LineType::SymLinkToDir("/usr/lib".to_string()));
    assert_eq!(
        name_ops(l, 1, false),
        vec![print(skin.link, "ln"), print(skin.link, " -> "), print(skin.directory, "/usr/lib")]
    );
}

#[test]
fn unresolved_link_shows_its_target_as_an_error() {
    let skin = skin();
    let mut l = line("ln", LineType::SymLinkToDir("/gone".to_string()));
    l.has_error = true;
    assert_eq!(
        name_ops(l, 1, false),
        vec![print(skin.link, "ln"), print(skin.link, " -> "), print(skin.file_error, "/gone")]
    );
}

#[test]
fn executable_file_has_its_own_style() {
    let skin = skin();
    let mut l = line("run.sh", LineType::File);
    l.permissions = Some(Permissions { mode: 0o100754, user: "me".to_string(), group: "me".to_string() });
    let tree = tree_with(l);
    let dt = DisplayableTree::out_of_app(&tree, &skin, 80);
    assert_eq!(dt.name_style(&tree.lines[1]), skin.exe);
    assert!(tree.lines[1].is_exe());
    let mut plain = line("notes", LineType::File);
    plain.permissions = Some(Permissions { mode: 0o100644, user: "me".to_string(), group: "me".to_string() });
    assert!(!plain.is_exe());
    assert_eq!(dt.name_style(&plain), skin.file);
    assert_eq!(dt.name_style(&line("d", LineType::Dir)), skin.directory);
    assert_eq!(dt.name_style(&line("p", LineType::Pruning)), skin.pruning);
    assert_eq!(dt.name_style(&line("l", LineType::SymLinkToFile("t".to_string()))), skin.link);
    assert_eq!(dt.name_style(&line("l", LineType::SymLinkToDir("t".to_string()))), skin.link);
}

#[test]
fn selected_name_is_on_the_background_of_the_selection() {
    let skin = skin();
    let mut l = line("abc", LineType::SymLinkToFile("t".to_string()));
    l.name_match = vec![0];
    let on = |style: Style| Style { fg: style.fg, bg: Some(Color::AnsiValue(240)) };
    assert_eq!(
        name_ops(l, 1, true),
        vec![
            print(on(skin.char_match), "a"),
            print(on(skin.link), "bc"),
            print(on(skin.link), " -> "),
            print(on(skin.file), "t"),
        ]
    );
}

#[test]
fn line_kinds() {
    assert!(line("d", LineType::Dir).is_dir());
    assert!(line("l", LineType::SymLinkToDir("t".to_string())).is_dir());
    assert!(!line("l", LineType::SymLinkToFile("t".to_string())).is_dir());
    assert!(!line("f", LineType::File).is_dir());
    assert!(!line("p", LineType::Pruning).is_selectable());
    assert!(line("f", LineType::File).is_selectable());
    let mut l = line("abc", LineType::File);
    l.name_match = vec![2];
    assert!(l.is_matched(2));
    assert!(!l.is_matched(1));
}
