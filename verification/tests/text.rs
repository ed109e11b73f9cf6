use fumo::blacklist::{build_blacklist_pages, build_entry_description, build_entry_lines};
use fumo::blacklist::{build_entry_lines_with, list_entry, write_place};
use fumo::mention::{join_list, write_hint, write_sentence};
use fumo::blacklist::{check_add, may_use_commands, reason_text, AddError, BlacklistEntryModel};
use fumo::constants::{colors, icon, links, CustomEmoji};
use fumo::mention::{format_help_hint, format_prefix_list, format_prefix_sentence, is_bare_mention};
use fumo::text::{chars_eq, digit_to_char, join_lines, join_range, magnitude, parse_index_from};
use fumo::text::{parse_prefixed_index, push_decimal, push_repeated, push_signed_decimal};
use fumo::text::{starts_with, str_eq, to_chars};

fn chars(text: &str) -> Vec<char> {
    text.chars().collect()
}

fn strings(items: &[&str]) -> Vec<String> {
    items.iter().map(|item| String::from(*item)).collect()
}

#[test]
fn text_is_split_into_characters() {
    assert_eq!(to_chars("a🐢b"), vec!['a', '🐢', 'b']);
    assert_eq!(to_chars(""), Vec::<char>::new());
    assert!(str_eq("ação", "ação"));
    assert!(!str_eq("acao", "ação"));
    assert!(!str_eq("a", "ab"));
    assert!(str_eq("", ""));
    assert!(chars_eq(&chars("xy"), &chars("xy")));
    assert!(!chars_eq(&chars("xy"), &chars("xz")));
    assert!(starts_with(&chars("prefix_1"), &chars("prefix_")));
    assert!(starts_with(&chars("abc"), &chars("")));
    assert!(starts_with(&chars("abc"), &chars("abc")));
    assert!(!starts_with(&chars("abc"), &chars("abcd")));
    assert!(!starts_with(&chars("abc"), &chars("b")));
}

#[test]
fn numbers_are_written_in_decimal() {
    let mut out = String::from(">");
    push_decimal(&mut out, 0);
    push_decimal(&mut out, 10);
    push_decimal(&mut out, 907);
    push_decimal(&mut out, u64::MAX);
    assert_eq!(out, ">01090718446744073709551615");
    let mut signed = String::new();
    push_signed_decimal(&mut signed, -45);
    push_signed_decimal(&mut signed, 45);
    push_signed_decimal(&mut signed, 0);
    push_signed_decimal(&mut signed, i64::MIN);
    assert_eq!(signed, "-45450-9223372036854775808");
    assert_eq!(magnitude(i64::MIN), 9_223_372_036_854_775_808);
    assert_eq!(magnitude(-1), 1);
    assert_eq!(magnitude(i64::MAX), i64::MAX as u64);
    for digit in 0..10u8 {
        assert_eq!(digit_to_char(digit), (b'0' + digit) as char);
    }
}

#[test]
fn indexes_are_read_as_the_standard_parser_reads_them() {
    for text in ["0", "7", "007", "+7", "+0", "", "+", "-7", "++7", "7+", " 7", "7 ", "٧", "1_0", "12a"] {
        assert_eq!(parse_index_from(&chars(text), 0), text.parse::<usize>().ok(), "{:?}", text);
    }
    assert_eq!(parse_index_from(&chars("ab12"), 2), Some(12));
    assert_eq!(parse_index_from(&chars("ab12"), 4), None);
    assert_eq!(parse_prefixed_index("id:42", "id:"), Some(42));
    assert_eq!(parse_prefixed_index("id:42", "ID:"), None);
}

#[test]
fn characters_are_repeated_and_lines_joined() {
    let mut out = String::from("[");
    push_repeated(&mut out, '-', 3);
    push_repeated(&mut out, '.', 0);
    push_repeated(&mut out, '🏁', 2);
    assert_eq!(out, "[---🏁🏁");
    let lines = strings(&["a", "b", "c", "d"]);
    assert_eq!(join_lines(&lines, "\n"), "a\nb\nc\nd");
    assert_eq!(join_lines(&lines, ""), "abcd");
    assert_eq!(join_lines(&vec![], ", "), "");
    assert_eq!(join_lines(&strings(&["only"]), ", "), "only");
    assert_eq!(join_range(&lines, 1, 3, "+"), "b+c");
    assert_eq!(join_range(&lines, 2, 2, "+"), "");
    assert_eq!(join_lines(&strings(&["", ""]), "-"), "-");
}

#[test]
fn emoji_are_written_with_their_id() {
    let emoji = CustomEmoji::new(1434940349326954647);
    assert_eq!(emoji.id, icon::CHECK);
    assert_eq!(emoji.as_str(), "<:_:1434940349326954647>");
    assert_eq!(CustomEmoji::new(0).as_str(), "<:_:0>");
    assert_eq!(CustomEmoji::new(icon::HOUSE).as_str(), "<:_:1437055578047516722>");
    assert_eq!(colors::MINT, 0x4ECCA3);
    assert_eq!(colors::MOON, 0xA6B1E1);
    assert_eq!(links::GITHUB_REPO, "https://github.com/lealtt/fumo");
}

fn entry(reason: Option<&str>, created_at: &str) -> BlacklistEntryModel {
    BlacklistEntryModel {
        id: 1,
        discord_id: 111,
        moderator_id: 222,
        reason: reason.map(String::from),
        created_at: String::from(created_at),
    }
}

#[test]
fn blacklist_entry_is_written_out() {
    let barred = entry(Some("spam"), "2024-03-11T00:00:00Z");
    assert_eq!(reason_text(&barred), "spam");
    assert_eq!(reason_text(&entry(None, "")), "Sem motivo informado");
    assert_eq!(
        build_entry_lines(&barred),
        vec![
            "<:_:1434941392651550824> | Usuário: <@111>",
            "<:_:1434940827263832096> | Motivo: spam",
            "<:_:1434953088409534544> | Responsável: <@222>",
            "<:_:1436442461022195753> | Registrado <t:1710115200:R>",
        ]
    );
    assert_eq!(build_entry_description(&barred), build_entry_lines(&barred).join("\n"));
    let undated = entry(None, "some day");
    assert_eq!(
        build_entry_lines(&undated)[3],
        "<:_:1436442461022195753> | Registrado some day"
    );
    assert_eq!(
        build_entry_lines(&undated)[1],
        "<:_:1434940827263832096> | Motivo: Sem motivo informado"
    );
}

#[test]
fn blacklist_is_paged_by_ten_with_places() {
    let entries: Vec<BlacklistEntryModel> = (0..23).map(|_| entry(None, "x")).collect();
    let pages = build_blacklist_pages(&entries);
    assert_eq!(pages.len(), 3);
    let description = build_entry_description(&entries[0]);
    let expected: Vec<String> =
        (11..=20).map(|place| format!("**{}º**\n{}", place, description)).collect();
    assert_eq!(pages[1], expected.join("\n\n"));
    assert!(pages[0].starts_with("**1º**\n"));
    assert!(pages[2].starts_with("**21º**\n"));
    assert_eq!(pages[2].matches("Usuário").count(), 3);
    assert!(build_blacklist_pages(&vec![]).is_empty());
}

#[test]
fn blacklist_rules_are_kept() {
    assert_eq!(check_add(1, 1, false), Err(AddError::IsSelf));
    assert_eq!(check_add(1, 1, true), Err(AddError::IsSelf));
    assert_eq!(check_add(1, 2, true), Err(AddError::IsOwner));
    assert_eq!(check_add(1, 2, false), Ok(()));
    let barred = entry(None, "");
    assert!(may_use_commands(false, None));
    assert!(!may_use_commands(false, Some(&barred)));
    assert!(may_use_commands(true, Some(&barred)));
    assert!(may_use_commands(true, None));
}

#[test]
fn bare_mentions_are_recognised() {
    assert!(is_bare_mention("<@99>", 99));
    assert!(is_bare_mention("<@!99>", 99));
    assert!(!is_bare_mention("<@98>", 99));
    assert!(!is_bare_mention("<@99> hi", 99));
    assert!(!is_bare_mention(" <@99>", 99));
    assert!(!is_bare_mention("<@&99>", 99));
    assert!(!is_bare_mention("", 99));
}

#[test]
fn prefixes_are_named_in_a_sentence() {
    assert_eq!(format_prefix_sentence(&vec![]), "ainda não tenho prefixos configurados.");
    assert_eq!(format_prefix_sentence(&strings(&["?"])), "meu prefixo atual é `?`.");
    assert_eq!(format_prefix_sentence(&strings(&["?", "-"])), "meus prefixos atuais são `?` e `-`.");
    assert_eq!(
        format_prefix_sentence(&strings(&["?", "-", "f!", "."])),
        "meus prefixos atuais são `?`, `-`, `f!`, e `.`."
    );
    assert_eq!(format_prefix_list(&vec![]), "");
    assert_eq!(format_prefix_list(&strings(&["a"])), "`a`");
    assert_eq!(format_prefix_list(&strings(&["a", "b", "c"])), "`a`, `b`, e `c`");
    assert_eq!(format_prefix_list(&strings(&["`"])), "`'`");
}

#[test]
fn help_is_hinted_at() {
    assert_eq!(
        format_help_hint(&strings(&["?", "-"])),
        "Use `?help` ou `/help` para ver os comandos."
    );
    assert_eq!(format_help_hint(&vec![]), "Use `/help` para ver os comandos.");
}

#[test]
fn entry_lines_take_the_date_as_given() {
    let barred = entry(Some("spam"), "whenever");
    assert_eq!(
        build_entry_lines_with(&barred, "ontem")[3],
        "<:_:1436442461022195753> | Registrado ontem"
    );
    assert_eq!(build_entry_lines_with(&barred, "")[3], "<:_:1436442461022195753> | Registrado ");
    assert_eq!(write_place(0), "1º");
    assert_eq!(write_place(41), "42º");
    assert_eq!(
        list_entry("#1", &barred),
        format!("#1\n{}", build_entry_description(&barred))
    );
}

#[test]
fn lists_and_sentences_take_their_items_as_given() {
    assert_eq!(join_list(&vec![]), "");
    assert_eq!(join_list(&strings(&["a"])), "a");
    assert_eq!(join_list(&strings(&["a", "b"])), "a e b");
    assert_eq!(join_list(&strings(&["a", "b", "c", "d"])), "a, b, c, e d");
    assert_eq!(write_sentence(&vec![]), "ainda não tenho prefixos configurados.");
    assert_eq!(write_sentence(&strings(&["x"])), "meu prefixo atual é x.");
    assert_eq!(write_sentence(&strings(&["x", "y", "z"])), "meus prefixos atuais são x, y, e z.");
    assert_eq!(write_hint(Some("!h"), "/h"), "Use !h ou /h para ver os comandos.");
    assert_eq!(write_hint(None, "/h"), "Use /h para ver os comandos.");
}
