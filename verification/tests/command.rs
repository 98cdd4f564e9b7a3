use noita_save_manager::command::{
    find_command, get_indexes_by_parameter, has_hyphen, optional_text, parse_number,
    places_within, push_spans, split_command, split_line, to_index, words, CommandKind,
};
use noita_save_manager::file_layout::{
    get_noita_save_path, names_game, needs_first_document, save_path_below, EMPTY_DOCUMENT,
    NOITA_EXE_NAME, NOITA_SAVE_PATH_POSTFIX, SAVE_FOLDER_PATH, SAVE_INFO_PATH,
};
use noita_save_manager::locale::{choose_language, detect_language, map_language};

fn strings(items: &[&str]) -> Vec<String> {
    items.iter().map(|s| s.to_string()).collect()
}

#[test]
fn lines_fall_into_words() {
    assert_eq!(split_line("save run1 note").unwrap(), strings(&["save", "run1", "note"]));
    assert_eq!(
        split_line("save \"my run\" \"a long note\"").unwrap(),
        strings(&["save", "my run", "a long note"])
    );
    assert_eq!(split_line("  d   1-3\t5 ").unwrap(), strings(&["d", "1-3", "5"]));
    assert_eq!(split_line("").unwrap(), Vec::<String>::new());
    assert_eq!(split_line("   ").unwrap(), Vec::<String>::new());
    assert_eq!(split_line("mo 1 \"\" x").unwrap(), strings(&["mo", "1", "", "x"]));
    assert_eq!(split_line("say \"open").unwrap(), strings(&["say", "\"open"]));
}

#[test]
fn words_come_from_first_or_second_group() {
    let found = vec![
        vec![Some("\"a b\"".to_string()), Some("a b".to_string()), None],
        vec![Some("c".to_string()), None, Some("c".to_string())],
        vec![Some("d".to_string()), None, None],
        vec![Some("e".to_string())],
    ];
    assert_eq!(words(&found), strings(&["a b", "c"]));
}

#[test]
fn command_and_rest() {
    let (name, rest) = split_command(strings(&["save", "a", "b"])).unwrap();
    assert_eq!(name, "save");
    assert_eq!(rest, strings(&["a", "b"]));
    let (name, rest) = split_command(strings(&["q"])).unwrap();
    assert_eq!(name, "q");
    assert!(rest.is_empty());
    assert!(split_command(Vec::new()).is_none());
}

#[test]
fn commands_by_name_and_short_form() {
    let table: Vec<(CommandKind, Vec<&str>)> = vec![
        (CommandKind::Help, vec!["help", "h"]),
        (CommandKind::Clear, vec!["clear", "cls"]),
        (CommandKind::Quit, vec!["quit", "q", "exit"]),
        (CommandKind::StartGame, vec!["startgame", "sg"]),
        (CommandKind::SetPath, vec!["setpath", "sp"]),
        (CommandKind::Save, vec!["save", "s"]),
        (CommandKind::QuickSave, vec!["qsave", "qs"]),
        (CommandKind::Overwrite, vec!["overwrite", "ow", "rsave", "rs"]),
        (CommandKind::AutoSave, vec!["asave", "as"]),
        (CommandKind::Load, vec!["load", "l"]),
        (CommandKind::QuickLoad, vec!["qload", "ql"]),
        (CommandKind::Log, vec!["list", "ls", "log", "lg"]),
        (CommandKind::ShortLog, vec!["slist", "sl", "slog"]),
        (CommandKind::Modify, vec!["modify", "mo"]),
        (CommandKind::Delete, vec!["delete", "d", "del"]),
        (CommandKind::QuickDelete, vec!["qdelete", "qd", "qdel"]),
        (CommandKind::Lock, vec!["lock", "lc", "f"]),
        (CommandKind::Unlock, vec!["unlock", "ul", "uf"]),
        (CommandKind::Usage, vec!["usage", "use"]),
    ];
    for (kind, names) in table {
        for name in names {
            assert_eq!(find_command(name), Some(kind), "{}", name);
        }
    }
    assert_eq!(find_command("Save"), None);
    assert_eq!(find_command(""), None);
    assert_eq!(find_command("saves"), None);
}

#[test]
fn numbers() {
    assert_eq!(parse_number("0"), Some(0));
    assert_eq!(parse_number("007"), Some(7));
    assert_eq!(parse_number("+12"), Some(12));
    assert_eq!(parse_number("12345"), Some(12345));
    assert_eq!(parse_number(&usize::MAX.to_string()), Some(usize::MAX));
    assert_eq!(parse_number("18446744073709551616"), None);
    assert_eq!(parse_number("99999999999999999999999"), None);
    assert_eq!(parse_number(""), None);
    assert_eq!(parse_number("+"), None);
    assert_eq!(parse_number("-1"), None);
    assert_eq!(parse_number("1 "), None);
    assert_eq!(parse_number("1a"), None);
    assert_eq!(parse_number("++1"), None);
    assert_eq!(parse_number("１"), None);
}

#[test]
fn places_and_texts() {
    assert_eq!(to_index(0), None);
    assert_eq!(to_index(1), Some(0));
    assert_eq!(to_index(usize::MAX), Some(usize::MAX - 1));
    assert_eq!(optional_text(String::new()), None);
    assert_eq!(optional_text(" ".to_string()), Some(" ".to_string()));
    assert!(has_hyphen("3-7"));
    assert!(!has_hyphen("37"));
}

#[test]
fn index_lists() {
    assert_eq!(get_indexes_by_parameter(strings(&["1-3", "5"]), 10).unwrap(), vec![0, 1, 2, 4]);
    assert_eq!(get_indexes_by_parameter(strings(&["5", "2", "5", "1-2"]), 10).unwrap(), vec![0, 1, 4]);
    assert_eq!(get_indexes_by_parameter(strings(&["3,1;2"]), 10).unwrap(), vec![0, 1, 2]);
    assert_eq!(get_indexes_by_parameter(strings(&["2-4,7-8"]), 10).unwrap(), vec![1, 2, 3, 6, 7]);
    assert_eq!(get_indexes_by_parameter(strings(&["7-3"]), 10).unwrap(), Vec::<usize>::new());
    assert_eq!(get_indexes_by_parameter(strings(&["0", "0-2"]), 10).unwrap(), Vec::<usize>::new());
    assert_eq!(get_indexes_by_parameter(strings(&["2-99999999999999999999999"]), 10).unwrap(), Vec::<usize>::new());
    assert_eq!(get_indexes_by_parameter(strings(&["1-18446744073709551615"]), 3).unwrap(), vec![0, 1, 2]);
    assert_eq!(get_indexes_by_parameter(strings(&["8", "9", "10", "11"]), 10).unwrap(), vec![7, 8, 9]);
    assert_eq!(get_indexes_by_parameter(strings(&["abc", ""]), 10).unwrap(), Vec::<usize>::new());
    assert_eq!(get_indexes_by_parameter(Vec::new(), 10).unwrap(), Vec::<usize>::new());
    assert_eq!(get_indexes_by_parameter(strings(&["1-3"]), 0).unwrap(), Vec::<usize>::new());
    assert_eq!(get_indexes_by_parameter(strings(&["4-", "-4"]), 10).unwrap(), Vec::<usize>::new());
}

#[test]
fn spans_and_places() {
    let found = vec![
        vec![Some("2-4".to_string()), Some("2".to_string()), Some("4".to_string())],
        vec![Some("0-4".to_string()), Some("0".to_string()), Some("4".to_string())],
        vec![Some("x".to_string()), None, Some("4".to_string())],
    ];
    let mut spans = vec![(9, 9)];
    push_spans(&found, true, &mut spans);
    assert_eq!(spans, vec![(9, 9), (1, 3)]);
    let singles = vec![vec![Some("6".to_string())], vec![Some("0".to_string())], vec![None]];
    push_spans(&singles, false, &mut spans);
    assert_eq!(spans, vec![(9, 9), (1, 3), (5, 5)]);
    assert_eq!(places_within(&spans, 20), vec![1, 2, 3, 5, 9]);
    assert_eq!(places_within(&spans, 3), vec![1, 2]);
    assert_eq!(places_within(&Vec::new(), 3), Vec::<usize>::new());
}

#[test]
fn languages() {
    assert_eq!(map_language("zh-CN"), "zh-CN");
    assert_eq!(map_language("zh-SG"), "zh-CN");
    assert_eq!(map_language("zh-Hans"), "zh-CN");
    assert_eq!(map_language("zh-TW"), "zh-TW");
    assert_eq!(map_language("zh-HK"), "zh-TW");
    assert_eq!(map_language("zh-MO"), "zh-TW");
    assert_eq!(map_language("zh-Hant"), "zh-TW");
    for local in ["en-GB", "en-AU", "en-NZ", "en-IN", "en-ZA", "en-HK", "en-SG", "en-IE", "en-PK", "en-MT", "en-MY", "en-NG"] {
        assert_eq!(map_language(local), "en-GB");
    }
    assert_eq!(map_language("ja-JP"), "ja-JP");
    assert_eq!(map_language("en-US"), "en-US");
    assert_eq!(map_language("fr-FR"), "en-US");
    assert_eq!(map_language(""), "en-US");
    assert_eq!(choose_language(&None), "en-US");
    assert_eq!(choose_language(&Some("zh-HK".to_string())), "zh-TW");
    assert!(["zh-CN", "zh-TW", "en-GB", "ja-JP", "en-US"].contains(&detect_language()));
}

#[test]
fn layout() {
    assert_eq!(SAVE_FOLDER_PATH, r".\Saves\");
    assert_eq!(SAVE_INFO_PATH, r".\Saves\infos.json");
    assert_eq!(NOITA_SAVE_PATH_POSTFIX, r"Appdata\LocalLow\Nolla_Games_Noita\save00");
    assert_eq!(NOITA_EXE_NAME, "noita.exe");
    assert_eq!(EMPTY_DOCUMENT, r#"{ "noita_exe_path":"", "saves":[]}"#);
    assert!(needs_first_document(0));
    assert!(!needs_first_document(1));
}

#[test]
fn save_path() {
    let e = save_path_below(None, "no home").unwrap_err();
    assert!(e.is_fatal());
    assert_eq!(e.get_explanation(), &vec!["no home".to_string()]);
    let home = std::path::PathBuf::from("home");
    let path = save_path_below(Some(home.clone()), "no home").unwrap();
    assert_eq!(path, home.join(NOITA_SAVE_PATH_POSTFIX));
    match get_noita_save_path("no home") {
        Ok(path) => assert!(path.ends_with(NOITA_SAVE_PATH_POSTFIX)),
        Err(e) => assert!(e.is_fatal()),
    }
}

#[test]
fn game_by_name() {
    assert!(names_game("games/noita.exe"));
    assert!(names_game("noita.exe"));
    assert!(!names_game("games/noita.exe.bak"));
    assert!(!names_game("games/mynoita.exe"));
    assert!(!names_game(""));
}
