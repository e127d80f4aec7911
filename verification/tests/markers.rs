use tuplabot::util::{
    extract_urls, has_command_prefix_or_postfix, noppa, remove_command_prefix_and_postfix,
    resolve_config_value, select_platform, EnvVariable, Platform,
};

fn marked_by_hand(msg: &str) -> bool {
    let lowercase = msg.to_lowercase();
    msg.ends_with(" dl") || ["!", "/"].iter().any(|&s| lowercase.starts_with(s))
}

fn unmarked_by_hand(msg: &str) -> String {
    let msg = msg.trim();
    let msg = ["!", "/"]
        .iter()
        .fold(msg.to_string(), |acc, &s| acc.trim_start_matches(s).trim().to_string());
    let msg = msg.trim_end_matches(" dl").trim();
    msg.to_string()
}

const SAMPLES: [&str; 24] = [
    "",
    "!",
    "/",
    "!ping",
    "/ping",
    "ping",
    " !ping",
    "https://example.com/x dl",
    "https://example.com/x dl ",
    "https://example.com/x DL",
    " dl",
    "dl",
    "!! // tuplilla kissa dl dl",
    "/!ping",
    "!/ping",
    "! / ! ping",
    "/tuplilla@bot kissa",
    "a dl  dl",
    "İstanbul",
    "ǅ!",
    "\u{a0}!ping",
    "!\u{3000}ping\u{3000}dl",
    "x  dl dl dl",
    "/ dl",
];

#[test]
fn markers_are_found_as_by_the_plain_definition() {
    for msg in SAMPLES {
        assert_eq!(has_command_prefix_or_postfix(msg), marked_by_hand(msg), "{:?}", msg);
    }
}

#[test]
fn marker_examples() {
    assert!(has_command_prefix_or_postfix("!ping"));
    assert!(has_command_prefix_or_postfix("/ping"));
    assert!(has_command_prefix_or_postfix("https://example.com/x dl"));
    assert!(!has_command_prefix_or_postfix("ping"));
    assert!(!has_command_prefix_or_postfix(" !ping"));
    assert!(!has_command_prefix_or_postfix("https://example.com/x dl "));
    assert!(!has_command_prefix_or_postfix("dl"));
    assert!(!has_command_prefix_or_postfix(""));
}

#[test]
fn markers_are_removed_as_by_the_plain_definition() {
    for msg in SAMPLES {
        assert_eq!(remove_command_prefix_and_postfix(msg), unmarked_by_hand(msg), "{:?}", msg);
    }
}

#[test]
fn marker_removal_examples() {
    assert_eq!(remove_command_prefix_and_postfix("!ping"), "ping");
    assert_eq!(remove_command_prefix_and_postfix("  /tuplilla kissa  "), "tuplilla kissa");
    assert_eq!(remove_command_prefix_and_postfix("https://example.com/x dl"), "https://example.com/x");
    assert_eq!(remove_command_prefix_and_postfix("!! // a dl dl"), "a");
    assert_eq!(remove_command_prefix_and_postfix("/!ping"), "!ping");
    assert_eq!(remove_command_prefix_and_postfix("a dl  dl"), "a dl");
    assert_eq!(remove_command_prefix_and_postfix(""), "");
}

#[test]
fn text_without_links_has_none() {
    assert!(extract_urls("").is_empty());
    assert!(extract_urls("no links in here, just words.").is_empty());
    assert_eq!(extract_urls("still none"), extract_urls("still none"));
}

#[test]
fn links_come_in_the_order_of_the_text() {
    let found = extract_urls("first https://a.example/1, then www.b.example/2 and c.org/33.");
    assert_eq!(found, vec!["https://a.example/1", "www.b.example/2", "c.org/33"]);
}

#[test]
fn link_is_a_piece_of_the_text_not_the_text() {
    let text = "see (https://example.com/a_(b)) now!";
    let found = extract_urls(text);
    assert_eq!(found, vec!["https://example.com/a_(b)"]);
    assert_ne!(found[0], text);
}

#[test]
fn link_scheme_is_matched_without_regard_to_case() {
    assert_eq!(extract_urls("HTTP://EXAMPLE.COM/X"), vec!["HTTP://EXAMPLE.COM/X"]);
}

#[test]
fn trailing_punctuation_is_no_part_of_a_link() {
    assert_eq!(extract_urls("go to https://example.com/x."), vec!["https://example.com/x"]);
    assert_eq!(extract_urls("https://example.com/x?"), vec!["https://example.com/x"]);
}

#[test]
fn die_shows_one_to_six() {
    let mut seen = [false; 6];
    for _ in 0..2000 {
        let n = noppa();
        assert!((1..=6).contains(&n));
        seen[(n - 1) as usize] = true;
    }
    assert!(seen.iter().all(|&s| s));
}

#[test]
fn variables_have_names_and_defaults() {
    assert_eq!(EnvVariable::TelegramToken.get(), ("TELEGRAM_TOKEN", None));
    assert_eq!(EnvVariable::OpenAiToken.get(), ("OPENAI_TOKEN", Some("")));
    assert_eq!(EnvVariable::OpenAiChats.get(), ("OPENAI_CHATS", Some("")));
    assert_eq!(EnvVariable::DiscordToken.get(), ("DISCORD_TOKEN", None));
    assert_eq!(EnvVariable::SocksURLS.get(), ("SOCKS_URLS", Some("")));
    assert_eq!(EnvVariable::TelegramToken.file_variable(), "TELEGRAM_TOKEN_FILE");
    assert_eq!(EnvVariable::SocksURLS.file_variable(), "SOCKS_URLS_FILE");
}

#[test]
fn environment_goes_before_file_goes_before_default() {
    let env = Some("from env ".to_string());
    let file = Some("  from file\n".to_string());
    assert_eq!(
        resolve_config_value(EnvVariable::OpenAiToken, env.clone(), file.clone()),
        Some("from env ".to_string())
    );
    assert_eq!(
        resolve_config_value(EnvVariable::OpenAiToken, None, file.clone()),
        Some("from file".to_string())
    );
    assert_eq!(resolve_config_value(EnvVariable::OpenAiToken, None, None), Some(String::new()));
    assert_eq!(resolve_config_value(EnvVariable::SocksURLS, None, None), Some(String::new()));
}

#[test]
fn required_value_has_no_default() {
    assert_eq!(resolve_config_value(EnvVariable::TelegramToken, None, None), None);
    assert_eq!(resolve_config_value(EnvVariable::DiscordToken, None, None), None);
    assert_eq!(
        resolve_config_value(EnvVariable::TelegramToken, None, Some(" t0ken \n".to_string())),
        Some("t0ken".to_string())
    );
}

#[test]
fn platform_is_named_exactly() {
    assert_eq!(select_platform("telegram"), Some(Platform::Telegram));
    assert_eq!(select_platform("discord"), Some(Platform::Discord));
    assert_eq!(select_platform("Telegram"), None);
    assert_eq!(select_platform(""), None);
    assert_eq!(select_platform("discord "), None);
}
