use guild_quest::commands::{
    is_admin_key, parse_commands, parse_i32, split_lines, AdminCommand, UserCommand,
};
use guild_quest::text::{bytes_equal, contains_bytes, starts_with_bytes};
use guild_quest::util::{extract_mention, get_npub1, has_contact_tag};

#[test]
fn member_commands_are_recognized() {
    assert_eq!(
        parse_commands(b".guild join please", false),
        (Some(UserCommand::JoinGuild), None)
    );
    assert_eq!(parse_commands(b"show me my .status", false), (Some(UserCommand::Status), None));
    assert_eq!(parse_commands(b"go .leveling now", false), (Some(UserCommand::Leveling), None));
    assert_eq!(parse_commands(b"nothing here", false), (None, None));
    // the join command is a prefix, not a mention
    assert_eq!(parse_commands(b"please .guild join", false), (None, None));
}

#[test]
fn admin_commands_need_the_admin_flag() {
    assert_eq!(
        parse_commands(b".add monster\n1\nSlime", true),
        (None, Some(AdminCommand::AddMonster))
    );
    assert_eq!(parse_commands(b".spawn\n1\n2", true), (None, Some(AdminCommand::Spawn)));
    assert_eq!(parse_commands(b".spawn\n1\n2", false), (None, None));
    // one message can carry a member and an admin command at once
    assert_eq!(
        parse_commands(b".status and .spawn\n1\n2", true),
        (Some(UserCommand::Status), Some(AdminCommand::Spawn))
    );
}

#[test]
fn admin_keys_are_matched_exactly() {
    let admins = vec![String::from("aa"), String::from("bb")];
    assert!(is_admin_key(&admins, &String::from("bb")));
    assert!(!is_admin_key(&admins, &String::from("cc")));
    assert!(!is_admin_key(&vec![], &String::from("aa")));
}

#[test]
fn lines_split_like_a_command_payload() {
    let lines = split_lines(b".add monster\n1\nSlime\npic\n3\n2\n1\n4\n5");
    assert_eq!(lines.len(), 9);
    assert_eq!(lines[0], b".add monster");
    assert_eq!(lines[2], b"Slime");
    assert_eq!(lines[8], b"5");
}

#[test]
fn line_splitting_handles_returns_and_ends() {
    assert_eq!(split_lines(b""), Vec::<Vec<u8>>::new());
    assert_eq!(split_lines(b"a\r\nb"), vec![b"a".to_vec(), b"b".to_vec()]);
    assert_eq!(split_lines(b"a\nb\n"), vec![b"a".to_vec(), b"b".to_vec()]);
    assert_eq!(split_lines(b"\n"), vec![b"".to_vec()]);
}

#[test]
fn integers_parse_exactly_or_not_at_all() {
    assert_eq!(parse_i32(b"123"), Some(123));
    assert_eq!(parse_i32(b"-45"), Some(-45));
    assert_eq!(parse_i32(b"+7"), Some(7));
    assert_eq!(parse_i32(b"0"), Some(0));
    assert_eq!(parse_i32(b"2147483647"), Some(i32::MAX));
    assert_eq!(parse_i32(b"-2147483648"), Some(i32::MIN));
    assert_eq!(parse_i32(b""), None);
    assert_eq!(parse_i32(b"-"), None);
    assert_eq!(parse_i32(b"12a"), None);
    assert_eq!(parse_i32(b" 12"), None);
    assert_eq!(parse_i32(b"2147483648"), None);
    assert_eq!(parse_i32(b"-2147483649"), None);
    assert_eq!(parse_i32(b"99999999999999999999"), None);
}

#[test]
fn byte_search_finds_substrings() {
    assert!(contains_bytes(b"hello world", b"o wo"));
    assert!(contains_bytes(b"hello", b""));
    assert!(!contains_bytes(b"hello", b"world"));
    assert!(starts_with_bytes(b"hello", b"he"));
    assert!(!starts_with_bytes(b"hello", b"el"));
    assert!(bytes_equal(b"abc", b"abc"));
    assert!(!bytes_equal(b"abc", b"abd"));
}

#[test]
fn mentions_are_found_in_the_body() {
    let names = vec![String::from("guildbot")];
    assert!(extract_mention(&names, b"hey guildbot, fight!", &vec![]));
    assert!(!extract_mention(&names, b"hey there", &vec![]));
    assert!(!extract_mention(&vec![], b"hey guildbot", &vec![]));
}

#[test]
fn mentions_are_found_in_p_tags_for_key_names() {
    let key = "a".repeat(64);
    let names = vec![key.clone()];
    let tags = vec![vec![String::from("p"), key.clone()]];
    assert!(extract_mention(&names, b"unrelated text", &tags));
    // a different tag kind does not count
    let tags = vec![vec![String::from("e"), key.clone()]];
    assert!(!extract_mention(&names, b"unrelated text", &tags));
    // a short name is never matched through tags
    let names = vec![String::from("bot")];
    let tags = vec![vec![String::from("p"), String::from("bot")]];
    assert!(!extract_mention(&names, b"unrelated text", &tags));
}

#[test]
fn the_contact_list_check_looks_for_a_p_tag() {
    let key = String::from("f".repeat(64));
    let tags = vec![
        vec![String::from("e"), String::from("x")],
        vec![String::from("p"), key.clone()],
    ];
    assert!(has_contact_tag(&tags, &key));
    assert!(!has_contact_tag(&vec![], &key));
    assert!(!has_contact_tag(&tags, &String::from("other")));
}

#[test]
fn a_public_key_gains_its_bech32_form() {
    let hex = String::from(
        "7e7e9c42a91bfef19fa929e5fda1b72e0ebc1a4c1141673e2794234d86addf4e",
    );
    let npub = get_npub1(hex.clone());
    let npub = npub.expect("a valid hex key encodes");
    assert!(npub.starts_with("npub1"));
    assert_eq!(npub.len(), 63);
    assert_ne!(npub, hex);
    assert!(get_npub1(String::from("not a key")).is_none());
}
