use broot::{
    Area, Color, DisplayableTree, DrawOp, LineType, OptionBool, Skin, Style, Tree, TreeLine,
    TreeOptions,
};

fn skin() -> Skin {
    Skin {
        default: Style::with_bg(Color::Black),
        tree: Style::with_fg(Color::DarkGrey),
        file: Style::with_fgbg(Color::White, Color::DarkBlue),
        directory: Style::with_fg(Color::Blue),
        exe: Style::with_fg(Color::Cyan),
        link: Style::with_fg(Color::Magenta),
        pruning: Style::with_fg(Color::Grey),
        permissions: Style::with_fg(Color::AnsiValue(94)),
        dates: Style::with_fg(Color::AnsiValue(66)),
        selected_line: Style::with_bg(Color::AnsiValue(240)),
        char_match: Style::with_fg(Color::Green),
        file_error: Style::with_fg(Color::Red),
        scrollbar_track: Style::with_fg(Color::Black),
        scrollbar_thumb: Style::with_fg(Color::Grey),
    }
}

fn line(name: &str, depth: u16) -> TreeLine {
    TreeLine {
        left_branchs: vec![true; depth as usize],
        depth,
        name: name.to_string(),
        path: format!("/data/{}", name),
        line_type: if depth == 0 { LineType::Dir } else { LineType::File },
        has_error: false,
        unlisted: 0,
        size: None,
        permissions: None,
        modified: None,
        name_match: Vec::new(),
    }
}

fn tree(count: usize) -> Tree {
    let mut lines = vec![line("root", 0)];
    for i in 1..count {
        lines.push(line(&format!("f{}", i), 1));
    }
    Tree {
        lines,
        selection: 0,
        options: TreeOptions {
            show_hidden: false,
            only_folders: false,
            show_sizes: false,
            show_dates: false,
            show_permissions: false,
            respect_git_ignore: OptionBool::Auto,
            pattern: None,
        },
        scroll: 0,
    }
}

fn in_app(tree: &Tree, skin: &Skin, height: u16) -> Vec<DrawOp> {
    let dt = DisplayableTree {
        tree,
        skin,
        area: Area { left: 0, top: 0, width: 40, height },
        in_app: true,
    };
    let mut ops = Vec::new();
    dt.write_on(&mut ops);
    ops
}

fn rows(ops: &[DrawOp]) -> Vec<Vec<DrawOp>> {
    let mut rows = Vec::new();
    let mut row = Vec::new();
    for op in ops {
        row.push(op.clone());
        if *op == DrawOp::NewLine {
            rows.push(row);
            row = Vec::new();
        }
    }
    assert!(row.is_empty());
    rows
}

fn print(style: Style, text: &str) -> DrawOp {
    DrawOp::Print { style, text: text.to_string() }
}

#[test]
fn every_row_of_the_viewport_is_drawn() {
    let skin = skin();
    let t = tree(2);
    let ops = in_app(&t, &skin, 4);
    let rows = rows(&ops);
    assert_eq!(rows.len(), 4);
    let selection = Color::AnsiValue(240);
    assert_eq!(
        rows[0],
        vec![
            DrawOp::MoveTo { x: 0, y: 0 },
            print(Style { fg: Some(Color::Blue), bg: Some(selection) }, "/data/root"),
            DrawOp::SetBackground { color: selection },
            DrawOp::ClearUntilNewLine,
            DrawOp::ResetBackground,
            DrawOp::NewLine,
        ]
    );
    assert_eq!(
        rows[1],
        vec![
            DrawOp::MoveTo { x: 0, y: 1 },
            print(skin.tree, "└──"),
            print(skin.file, "f1"),
            DrawOp::SetBackground { color: Color::Black },
            DrawOp::ClearUntilNewLine,
            DrawOp::ResetBackground,
            DrawOp::NewLine,
        ]
    );
    for y in 2..4 {
        assert_eq!(
            rows[y],
            vec![
                DrawOp::MoveTo { x: 0, y: y as u16 },
                DrawOp::SetBackground { color: Color::Black },
                DrawOp::ClearUntilNewLine,
                DrawOp::ResetBackground,
                DrawOp::NewLine,
            ]
        );
    }
}

#[test]
fn selection_covers_the_whole_row() {
    let skin = skin();
    let mut t = tree(3);
    t.selection = 1;
    t.lines[1].name = "x".to_string();
    let ops = in_app(&t, &skin, 3);
    let rows = rows(&ops);
    let selection = Color::AnsiValue(240);
    assert_eq!(
        rows[1],
        vec![
            DrawOp::MoveTo { x: 0, y: 1 },
            print(Style { fg: Some(Color::DarkGrey), bg: Some(selection) }, "├──"),
            print(Style { fg: Some(Color::White), bg: Some(selection) }, "x"),
            DrawOp::SetBackground { color: selection },
            DrawOp::ClearUntilNewLine,
            DrawOp::ResetBackground,
            DrawOp::NewLine,
        ]
    );
    for y in [0, 2] {
        for op in &rows[y] {
            match op {
                DrawOp::Print { style, .. } => assert_ne!(style.bg, Some(selection)),
                DrawOp::SetBackground { color } => assert_eq!(*color, Color::Black),
                _ => {}
            }
        }
    }
}

#[test]
fn selection_without_background_changes_no_style() {
    let mut skin = skin();
    skin.selected_line = Style::with_fg(Color::Yellow);
    let mut t = tree(2);
    t.selection = 1;
    let rows = rows(&in_app(&t, &skin, 2));
    assert_eq!(
        rows[1],
        vec![
            DrawOp::MoveTo { x: 0, y: 1 },
            print(skin.tree, "└──"),
            print(skin.file, "f1"),
            DrawOp::ClearUntilNewLine,
            DrawOp::ResetBackground,
            DrawOp::NewLine,
        ]
    );
}

#[test]
fn selection_is_not_drawn_in_an_export() {
    let skin = skin();
    let mut t = tree(2);
    t.selection = 1;
    let dt = DisplayableTree::out_of_app(&t, &skin, 40);
    let mut ops = Vec::new();
    dt.write_on(&mut ops);
    assert_eq!(
        ops,
        vec![
            print(skin.directory, "/data/root"),
            DrawOp::SetBackground { color: Color::Black },
            DrawOp::NewLine,
            print(skin.tree, "└──"),
            print(skin.file, "f1"),
            DrawOp::SetBackground { color: Color::Black },
            DrawOp::NewLine,
        ]
    );
}

#[test]
fn selection_beyond_the_tree_selects_nothing() {
    let skin = skin();
    let mut t = tree(2);
    t.selection = 2;
    let rows = rows(&in_app(&t, &skin, 3));
    assert_eq!(
        rows[2],
        vec![
            DrawOp::MoveTo { x: 0, y: 2 },
            DrawOp::SetBackground { color: Color::Black },
            DrawOp::ClearUntilNewLine,
            DrawOp::ResetBackground,
            DrawOp::NewLine,
        ]
    );
}

#[test]
fn root_stays_on_the_first_row_when_scrolled() {
    let skin = skin();
    let mut t = tree(10);
    t.scroll = 5;
    t.selection = 7;
    let rows = rows(&in_app(&t, &skin, 4));
    let names: Vec<String> = rows
        .iter()
        .map(|row| match &row[row.len() - 7] {
            DrawOp::Print { text, .. } => text.clone(),
            _ => panic!("a name is printed"),
        })
        .collect();
    assert_eq!(names, vec!["/data/root", "f6", "f7", "f8"]);
    assert_eq!(rows[2][2], print(Style { fg: Some(Color::White), bg: Some(Color::AnsiValue(240)) }, "f7"));
}

#[test]
fn scrollbar_is_drawn_right_of_the_viewport() {
    let skin = skin();
    let t = tree(100);
    let rows = rows(&in_app(&t, &skin, 10));
    assert_eq!(rows.len(), 10);
    for (y, row) in rows.iter().enumerate() {
        let n = row.len();
        assert_eq!(row[n - 3], DrawOp::MoveTo { x: 40, y: y as u16 });
        let style = if y <= 1 { skin.scrollbar_thumb } else { skin.scrollbar_track };
        assert_eq!(row[n - 2], print(style, "▐"));
        assert_eq!(row[n - 4], DrawOp::ResetBackground);
        assert_eq!(row[n - 5], DrawOp::ClearUntilNewLine);
    }
}

#[test]
fn scrollbar_thumb_reaches_the_bottom_when_scrolled_to_the_end() {
    let skin = skin();
    let mut t = tree(100);
    t.scroll = 90;
    let rows = rows(&in_app(&t, &skin, 10));
    for (y, row) in rows.iter().enumerate() {
        let style = if y >= 9 { skin.scrollbar_thumb } else { skin.scrollbar_track };
        assert_eq!(row[row.len() - 2], print(style, "▐"));
    }
}

#[test]
fn no_scrollbar_when_the_tree_fits() {
    let skin = skin();
    let t = tree(10);
    let ops = in_app(&t, &skin, 10);
    assert!(!ops.iter().any(|op| matches!(op, DrawOp::Print { text, .. } if text == "▐")));
    let t = tree(11);
    let ops = in_app(&t, &skin, 10);
    assert_eq!(ops.iter().filter(|op| matches!(op, DrawOp::Print { text, .. } if text == "▐")).count(), 10);
}

#[test]
fn no_scrollbar_in_an_export() {
    let skin = skin();
    let t = tree(100);
    let dt = DisplayableTree {
        tree: &t,
        skin: &skin,
        area: Area { left: 0, top: 0, width: 40, height: 10 },
        in_app: false,
    };
    let mut ops = Vec::new();
    dt.write_on(&mut ops);
    assert!(!ops.iter().any(|op| matches!(op, DrawOp::Print { text, .. } if text == "▐")));
    assert!(!ops.iter().any(|op| matches!(op, DrawOp::MoveTo { .. } | DrawOp::ClearUntilNewLine | DrawOp::ResetBackground)));
}

#[test]
fn negative_scroll_scrolls_nothing() {
    let skin = skin();
    let mut t = tree(100);
    let at_rest = in_app(&t, &skin, 10);
    t.scroll = -5;
    assert_eq!(t.scrolled(), 0);
    assert_eq!(in_app(&t, &skin, 10), at_rest);
    t.scroll = i32::MIN;
    assert_eq!(in_app(&t, &skin, 10), at_rest);
    t.scroll = 7;
    assert_eq!(t.scrolled(), 7);
}

#[test]
fn scrollbar_of_a_long_tree() {
    let skin = skin();
    let mut t = tree(40_000);
    t.scroll = 20_000;
    let dt = DisplayableTree {
        tree: &t,
        skin: &skin,
        area: Area { left: 0, top: 0, width: 40, height: 50 },
        in_app: true,
    };
    assert_eq!(dt.scrollbar(), Some((25, 26)));
    let rows = rows(&in_app(&t, &skin, 50));
    for (y, row) in rows.iter().enumerate() {
        let style = if y == 25 || y == 26 { skin.scrollbar_thumb } else { skin.scrollbar_track };
        assert_eq!(row[row.len() - 2], print(style, "▐"));
    }
}

#[test]
fn scrollbar_that_cannot_be_computed_is_not_drawn() {
    let skin = skin();
    let mut t = tree(20);
    t.scroll = 21;
    let dt = DisplayableTree {
        tree: &t,
        skin: &skin,
        area: Area { left: 0, top: 0, width: 40, height: 10 },
        in_app: true,
    };
    assert_eq!(dt.scrollbar(), None);
    t.scroll = 20;
    let dt = DisplayableTree {
        tree: &t,
        skin: &skin,
        area: Area { left: 0, top: 0, width: 40, height: 10 },
        in_app: true,
    };
    assert_eq!(dt.scrollbar(), Some((10, 15)));
    let t = tree(40_000);
    let dt = DisplayableTree {
        tree: &t,
        skin: &skin,
        area: Area { left: 0, top: 0, width: 40, height: 32_768 },
        in_app: true,
    };
    assert_eq!(dt.scrollbar(), None);
    let dt = DisplayableTree {
        tree: &t,
        skin: &skin,
        area: Area { left: 0, top: 0, width: 40, height: 32_767 },
        in_app: true,
    };
    assert_eq!(dt.scrollbar(), Some((0, 26_841)));
    let dt = DisplayableTree {
        tree: &t,
        skin: &skin,
        area: Area { left: 0, top: 0, width: 40, height: 10 },
        in_app: false,
    };
    assert_eq!(dt.scrollbar(), None);
}
