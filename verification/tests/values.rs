use broot::cli::{authorization, choose_root, launch_args, parse_height};
use broot::dates::date_text;
use broot::text::same_text;
use broot::{
    AppLaunchArgs, Area, ArgParseError, Branch, LaunchFlags, LineType, LocalTime, OptionBool,
    Ratio, RootChoice, Size, Tree, TreeLine, TreeOptions,
};
use std::path::PathBuf;

#[test]
fn share_of_nothing_is_zero() {
    assert_eq!(Size(0).part_of(Size(0)), Ratio { num: 0, den: 1 });
    assert_eq!(Size(500).part_of(Size(0)), Ratio { num: 0, den: 1 });
    assert_eq!(Size(500).part_of(Size(0)).cells(10), 0);
}

#[test]
fn share_is_the_exact_fraction() {
    assert_eq!(Size(1).part_of(Size(3)), Ratio { num: 1, den: 3 });
    assert_eq!(Size(0).part_of(Size(3)), Ratio { num: 0, den: 3 });
    assert_eq!(Size(3).part_of(Size(3)), Ratio { num: 3, den: 3 });
    assert_eq!(Size(u64::MAX).part_of(Size(u64::MAX)).cells(10), 10);
}

#[test]
fn filled_cells_round_down() {
    assert_eq!(Ratio { num: 1, den: 3 }.cells(10), 3);
    assert_eq!(Ratio { num: 2, den: 3 }.cells(10), 6);
    assert_eq!(Ratio { num: 99, den: 100 }.cells(10), 9);
    assert_eq!(Ratio { num: 100, den: 100 }.cells(10), 10);
    assert_eq!(Ratio { num: 9, den: 100 }.cells(10), 0);
    assert_eq!(Ratio { num: 10, den: 100 }.cells(10), 1);
    assert_eq!(Ratio { num: 0, den: 100 }.cells(10), 0);
    assert_eq!(Ratio { num: 1, den: 2 }.cells(255), 127);
    assert_eq!(Ratio { num: 1, den: 2 }.cells(0), 0);
}

#[test]
fn filled_cells_never_exceed_the_width() {
    assert_eq!(Ratio { num: 500, den: 100 }.cells(10), 10);
    assert_eq!(Ratio { num: u64::MAX, den: 1 }.cells(255), 255);
}

#[test]
fn size_text_has_unit() {
    assert_eq!(Size(0).to_text(), "0");
    assert_eq!(Size(9).to_text(), "9");
    assert_eq!(Size(10).to_text(), "10");
    assert_eq!(Size(8999).to_text(), "8999");
    assert_eq!(Size(9000).to_text(), "8K");
    assert_eq!(Size(1024 * 1024).to_text(), "1024K");
    assert_eq!(Size(9000 * 1024).to_text(), "8M");
    assert_eq!(Size(9000 * 1024 - 1).to_text(), "8999K");
    assert_eq!(Size(20_000_000).to_text(), "19M");
    assert_eq!(Size(5 * 1024 * 1024 * 1024 * 1024).to_text(), "5120G");
    assert_eq!(Size(1 << 50).to_text(), "1024T");
    assert_eq!(Size(1 << 60).to_text(), "1024P");
    assert_eq!(Size(u64::MAX).to_text(), "15E");
}

#[test]
fn scrollbar_thumb_at_the_top() {
    let area = Area { left: 0, top: 0, width: 40, height: 10 };
    assert_eq!(area.scrollbar(0, 100), Some((0, 1)));
}

#[test]
fn scrollbar_thumb_at_the_bottom() {
    let area = Area { left: 0, top: 0, width: 40, height: 10 };
    assert_eq!(area.scrollbar(90, 100), Some((9, 10)));
}

#[test]
fn scrollbar_thumb_in_the_middle() {
    let area = Area { left: 3, top: 7, width: 40, height: 10 };
    assert_eq!(area.scrollbar(45, 100), Some((5, 5 + 1)));
    assert_eq!(area.scrollbar(1, 100), Some((1, 2)));
    assert_eq!(area.scrollbar(10, 20), Some((5, 10)));
    assert_eq!(area.scrollbar(5, 20), Some((3, 7)));
    assert_eq!(area.scrollbar(20, 20), Some((10, 15)));
}

#[test]
fn scrollbar_is_absent_when_the_content_fits() {
    let area = Area { left: 0, top: 0, width: 40, height: 10 };
    assert_eq!(area.scrollbar(0, 10), None);
    assert_eq!(area.scrollbar(0, 3), None);
    assert_eq!(area.scrollbar(0, 0), None);
    assert_eq!(area.scrollbar(0, 11), Some((0, 9)));
    let empty = Area { left: 0, top: 0, width: 40, height: 0 };
    assert_eq!(empty.scrollbar(0, 0), None);
    assert_eq!(empty.scrollbar(3, 5), Some((0, 1)));
}

#[test]
fn scrollbar_of_the_largest_content() {
    let area = Area { left: 0, top: 0, width: 40, height: 32766 };
    assert_eq!(area.scrollbar(32767, 32767), Some((32766, 65530)));
    assert_eq!(area.scrollbar(0, 32767), Some((0, 32765)));
}

#[test]
fn glyphs_of_branches() {
    assert_eq!(Branch::Blank.glyph(), "   ");
    assert_eq!(Branch::Turn.glyph(), "└──");
    assert_eq!(Branch::Continue.glyph(), "├──");
    assert_eq!(Branch::PassThrough.glyph(), "│  ");
}

fn line(depth: u16, branches: &[bool]) -> TreeLine {
    TreeLine {
        left_branchs: branches.to_vec(),
        depth,
        name: "n".to_string(),
        path: "/n".to_string(),
        line_type: LineType::File,
        has_error: false,
        unlisted: 0,
        size: None,
        permissions: None,
        modified: None,
        name_match: Vec::new(),
    }
}

fn tree(lines: Vec<TreeLine>) -> Tree {
    Tree { lines, selection: 0, options: TreeOptions::new(), scroll: 0 }
}

#[test]
fn branch_of_each_kind() {
    let t = tree(vec![
        line(0, &[]),
        line(1, &[true]),
        line(2, &[true, true]),
        line(2, &[true, true]),
        line(3, &[false, true, true]),
        line(2, &[true, false, true]),
    ]);
    assert_eq!(t.branch_at(1, 0), Branch::Continue);
    assert_eq!(t.branch_at(2, 0), Branch::PassThrough);
    assert_eq!(t.branch_at(2, 1), Branch::Continue);
    assert_eq!(t.branch_at(3, 0), Branch::Blank);
    assert_eq!(t.branch_at(3, 1), Branch::Continue);
    assert_eq!(t.branch_at(4, 0), Branch::Blank);
    assert_eq!(t.branch_at(4, 1), Branch::Blank);
    assert_eq!(t.branch_at(4, 2), Branch::Turn);
    assert_eq!(t.branch_at(5, 0), Branch::Blank);
    assert_eq!(t.branch_at(5, 1), Branch::Blank);
}

#[test]
fn branch_is_open_on_a_line_that_claims_it() {
    let t = tree(vec![line(0, &[]), line(1, &[true]), line(2, &[false, true, true])]);
    assert!(t.has_branch(1, 0));
    assert!(!t.has_branch(1, 1));
    assert!(!t.has_branch(0, 0));
    assert!(!t.has_branch(2, 0));
    assert!(t.has_branch(2, 1));
    assert!(!t.has_branch(2, 2));
    assert!(!t.has_branch(3, 0));
    assert!(!t.has_branch(usize::MAX, 0));
}

fn flags() -> LaunchFlags {
    LaunchFlags {
        sizes: false,
        only_folders: false,
        hidden: false,
        dates: false,
        permissions: false,
        install: false,
        no_style: false,
        gitignore: None,
        file_export_path: None,
        cmd_export_path: None,
        commands: None,
        height: None,
    }
}

fn launched(flags: LaunchFlags) -> AppLaunchArgs {
    match launch_args(PathBuf::from("/data"), flags) {
        Ok(args) => args,
        Err(e) => panic!("refused: {:?}", e),
    }
}

#[test]
fn launch_without_flags_has_the_default_options() {
    let args = launched(flags());
    assert_eq!(args.root, PathBuf::from("/data"));
    assert_eq!(args.tree_options, TreeOptions::new());
    assert_eq!(args.tree_options.respect_git_ignore, OptionBool::Auto);
    assert_eq!(args.file_export_path, None);
    assert_eq!(args.cmd_export_path, None);
    assert_eq!(args.commands, None);
    assert_eq!(args.height, None);
    assert!(!args.install);
    assert!(!args.no_style);
}

#[test]
fn launch_with_sizes_leaves_ignore_rules_aside() {
    let mut f = flags();
    f.sizes = true;
    let args = launched(f);
    assert!(args.tree_options.show_sizes);
    assert!(!args.tree_options.show_hidden);
    assert_eq!(args.tree_options.respect_git_ignore, OptionBool::No);
}

#[test]
fn launch_with_an_answer_about_ignore_rules_follows_it() {
    for (text, choice) in [("yes", OptionBool::Yes), ("no", OptionBool::No), ("auto", OptionBool::Auto)] {
        let mut f = flags();
        f.sizes = true;
        f.gitignore = Some(text.to_string());
        assert_eq!(launched(f).tree_options.respect_git_ignore, choice);
    }
}

#[test]
fn launch_carries_every_flag() {
    let f = LaunchFlags {
        sizes: false,
        only_folders: true,
        hidden: true,
        dates: true,
        permissions: true,
        install: true,
        no_style: true,
        gitignore: None,
        file_export_path: Some("out.txt".to_string()),
        cmd_export_path: Some("cmd.txt".to_string()),
        commands: Some(":q".to_string()),
        height: Some("25".to_string()),
    };
    let args = launched(f);
    assert_eq!(
        args.tree_options,
        TreeOptions {
            show_hidden: true,
            only_folders: true,
            show_sizes: false,
            show_dates: true,
            show_permissions: true,
            respect_git_ignore: OptionBool::Auto,
            pattern: None,
        }
    );
    assert_eq!(args.file_export_path, Some("out.txt".to_string()));
    assert_eq!(args.cmd_export_path, Some("cmd.txt".to_string()));
    assert_eq!(args.commands, Some(":q".to_string()));
    assert_eq!(args.height, Some(25));
    assert!(args.install);
    assert!(args.no_style);
}

#[test]
fn launch_with_an_unknown_answer_is_refused() {
    let mut f = flags();
    f.gitignore = Some("maybe".to_string());
    match launch_args(PathBuf::from("/data"), f) {
        Ok(_) => panic!("an unknown answer was accepted"),
        Err(e) => assert_eq!(
            e,
            ArgParseError { bad: "maybe".to_string(), valid: "auto, yes, no".to_string() }
        ),
    }
}

#[test]
fn choices_are_parsed_exactly() {
    assert_eq!(OptionBool::parse("auto"), Ok(OptionBool::Auto));
    assert_eq!(OptionBool::parse("yes"), Ok(OptionBool::Yes));
    assert_eq!(OptionBool::parse("no"), Ok(OptionBool::No));
    for bad in ["", "Yes", "no ", "y", "auto, yes, no"] {
        assert_eq!(
            OptionBool::parse(bad),
            Err(ArgParseError { bad: bad.to_string(), valid: "auto, yes, no".to_string() })
        );
    }
}

#[test]
fn any_answer_but_n_authorizes() {
    assert!(!authorization("n"));
    assert!(!authorization("N"));
    assert!(authorization("y"));
    assert!(authorization(""));
    assert!(authorization("no"));
    assert!(authorization(" n"));
    assert!(authorization("ñ"));
}

#[test]
fn launch_with_an_unreadable_height_has_none() {
    let mut f = flags();
    f.height = Some("tall".to_string());
    assert_eq!(launched(f).height, None);
}

#[test]
fn heights_are_read_as_decimal_numbers() {
    assert_eq!(parse_height("0"), Some(0));
    assert_eq!(parse_height("7"), Some(7));
    assert_eq!(parse_height("25"), Some(25));
    assert_eq!(parse_height("+25"), Some(25));
    assert_eq!(parse_height("007"), Some(7));
    assert_eq!(parse_height("65535"), Some(65535));
    assert_eq!(parse_height("0000065535"), Some(65535));
}

#[test]
fn heights_that_are_no_number_are_not_read() {
    for bad in ["", "+", "-1", "65536", "99999999999999999999", "12a", "a12", " 12", "12 ", "1+2", "++1", "٣"] {
        assert_eq!(parse_height(bad), None);
        assert_eq!(parse_height(bad), bad.parse::<u16>().ok());
    }
    for good in ["1", "+0", "40000"] {
        assert_eq!(parse_height(good), good.parse::<u16>().ok());
    }
}

#[test]
fn texts_are_compared_by_their_characters() {
    assert!(same_text("", ""));
    assert!(same_text("abc", "abc"));
    assert!(same_text("é", "é"));
    assert!(!same_text("abc", "abd"));
    assert!(!same_text("abc", "ab"));
    assert!(!same_text("", "a"));
}

fn rounded_up(a: i64, b: i64) -> i64 {
    if a >= 0 {
        a.div_euclid(b) + if a.rem_euclid(b) != 0 { 1 } else { 0 }
    } else {
        -((-a).div_euclid(b)) + if (-a).rem_euclid(b) != 0 { 1 } else { 0 }
    }
}

fn expected_span(scroll: i64, content: i64, height: i64) -> Option<(u16, u16)> {
    if content <= height {
        return None;
    }
    let top = rounded_up(scroll * height, content);
    let tail = rounded_up((content - scroll - height) * height, content);
    let bottom = if height > top + tail { height - tail } else { top + 1 };
    assert!(0 <= top && top < bottom && bottom <= 65535);
    Some((top as u16, bottom as u16))
}

#[test]
fn scrollbar_follows_its_formula() {
    for height in [0u16, 1, 2, 3, 5, 10, 37, 100] {
        let area = Area { left: 0, top: 0, width: 40, height };
        for content in 0..=(i32::from(height) + 70) {
            for scroll in 0..=content {
                assert_eq!(
                    area.scrollbar(scroll, content),
                    expected_span(scroll.into(), content.into(), height.into())
                );
            }
        }
    }
    for height in [0u16, 1, 1000, 16383, 16384, 32765, 32766] {
        let area = Area { left: 0, top: 0, width: 40, height };
        for content in [i32::from(height) + 1, 20000, 32766, 32767] {
            if content <= i32::from(height) {
                continue;
            }
            for scroll in [0, 1, 2, content / 3, content / 2, content - i32::from(height), content - 1, content] {
                assert_eq!(
                    area.scrollbar(scroll, content),
                    expected_span(scroll.into(), content.into(), height.into())
                );
            }
        }
    }
}

#[test]
fn scrollbar_of_a_long_content_in_a_low_area() {
    let area = Area { left: 0, top: 0, width: 40, height: 50 };
    assert_eq!(area.scrollbar(0, 40_000), Some((0, 1)));
    assert_eq!(area.scrollbar(20_000, 40_000), Some((25, 26)));
    assert_eq!(area.scrollbar(40_000, 40_000), Some((50, 51)));
    for content in [40_000, 1_000_000, 42_949_672] {
        for scroll in [0, 1, content / 7, content / 2, content - 50, content - 1, content] {
            assert_eq!(
                area.scrollbar(scroll, content),
                expected_span(scroll.into(), content.into(), 50)
            );
        }
    }
    let one = Area { left: 0, top: 0, width: 40, height: 1 };
    assert_eq!(one.scrollbar(0, i32::MAX), Some((0, 1)));
    assert_eq!(one.scrollbar(i32::MAX, i32::MAX), Some((1, 2)));
}

#[test]
fn scrollbar_thumb_is_never_empty() {
    let area = Area { left: 0, top: 0, width: 40, height: 10 };
    for content in 11..200 {
        for scroll in 0..=content {
            let (top, bottom) = area.scrollbar(scroll, content).expect("the content does not fit");
            assert!(top < bottom);
            assert!(top <= 10);
        }
    }
}

fn is_leap_year(year: i64) -> bool {
    year % 4 == 0 && (year % 100 != 0 || year % 400 == 0)
}

fn days_in_month(year: i64, month: i64) -> i64 {
    match month {
        2 => {
            if is_leap_year(year) {
                29
            } else {
                28
            }
        }
        4 | 6 | 9 | 11 => 30,
        _ => 31,
    }
}

fn leap_years_before(year: i64) -> i64 {
    (year - 1).div_euclid(4) - (year - 1).div_euclid(100) + (year - 1).div_euclid(400)
}

/// The first second of the minute that a written date names, by the
/// definition of the calendar; the fields are checked to be those of a date.
fn first_second(text: &str) -> i64 {
    let chars: Vec<char> = text.chars().collect();
    assert_eq!(chars.len(), 17);
    for (i, c) in chars.iter().enumerate() {
        match i {
            4 | 7 => assert_eq!(*c, '/'),
            10 | 16 => assert_eq!(*c, ' '),
            13 => assert_eq!(*c, ':'),
            _ => assert!(c.is_ascii_digit()),
        }
    }
    let number = |from: usize, to: usize| -> i64 {
        chars[from..to].iter().fold(0, |n, c| n * 10 + i64::from(c.to_digit(10).unwrap()))
    };
    let (year, month, day) = (number(0, 4), number(5, 7), number(8, 10));
    let (hour, minute) = (number(11, 13), number(14, 16));
    assert!((1..=12).contains(&month));
    assert!(1 <= day && day <= days_in_month(year, month));
    assert!((0..24).contains(&hour));
    assert!((0..60).contains(&minute));
    let days_before_year = 365 * (year - 1970) + leap_years_before(year) - leap_years_before(1970);
    let days_before_month: i64 = (1..month).map(|m| days_in_month(year, m)).sum();
    (days_before_year + days_before_month + day - 1) * 86_400 + hour * 3_600 + minute * 60
}

#[test]
fn written_dates_name_the_minute_of_their_second() {
    let mut secs: i64 = -62_167_219_200;
    let mut step: i64 = 1;
    while secs < 253_402_300_800 {
        for offset in [0, 1, -1, 3_600, -18_000, 45_000, 86_399, -86_399] {
            let local = secs + i64::from(offset);
            let text = date_text(Some(LocalTime { secs, offset }));
            if (-62_167_219_200..253_402_300_800).contains(&local) {
                let first = first_second(&text.expect("a time that can be written"));
                assert!(first <= local && local < first + 60);
            } else {
                assert_eq!(text, None);
            }
        }
        secs += step;
        step = step * 3 / 2 + 7;
        if step > 40_000_000 {
            step = 39_916_801;
        }
    }
}

#[test]
fn dates_are_written_for_the_times_that_can_be() {
    assert_eq!(date_text(None), None);
    assert_eq!(date_text(Some(LocalTime { secs: i64::MAX, offset: 0 })), None);
    assert_eq!(date_text(Some(LocalTime { secs: i64::MIN, offset: 0 })), None);
    assert_eq!(date_text(Some(LocalTime { secs: 0, offset: 86_400 })), None);
    assert_eq!(
        date_text(Some(LocalTime { secs: 1_576_405_800, offset: 3_600 })),
        Some("2019/12/15 11:30 ".to_string())
    );
    assert!(LocalTime { secs: 0, offset: 0 }.can_be_written());
    assert!(!LocalTime { secs: 253_402_300_800, offset: 0 }.can_be_written());
    assert!(LocalTime { secs: 253_402_300_800, offset: -1 }.can_be_written());
    assert!(!LocalTime { secs: -62_167_219_200, offset: -1 }.can_be_written());
}

#[test]
fn root_is_chosen_by_what_is_at_the_path() {
    assert_eq!(choose_root(true, true, true), RootChoice::Given);
    assert_eq!(choose_root(true, true, false), RootChoice::Given);
    assert_eq!(choose_root(true, false, true), RootChoice::Parent);
    assert_eq!(choose_root(true, false, false), RootChoice::NotADirectory);
    assert_eq!(choose_root(false, false, true), RootChoice::FileNotFound);
    assert_eq!(choose_root(false, true, true), RootChoice::FileNotFound);
    assert_eq!(choose_root(false, true, false), RootChoice::FileNotFound);
    assert_eq!(choose_root(false, false, false), RootChoice::FileNotFound);
}
