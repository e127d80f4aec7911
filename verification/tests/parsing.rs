use tuplabot::bot_commands::{get_arg, parse_command, parse_command_with_urls, BotCommand};

fn owned(items: &[&str]) -> Vec<String> {
    items.iter().map(|s| s.to_string()).collect()
}

#[test]
fn ping_is_recognised() {
    let (command, args) = parse_command("ping");
    assert_eq!(command, BotCommand::Ping);
    assert!(args.is_empty());
}

#[test]
fn ping_wins_over_everything_that_follows() {
    let (command, args) = parse_command("  pingpong https://example.com/x  ");
    assert_eq!(command, BotCommand::Ping);
    assert!(args.is_empty());
}

#[test]
fn bare_roll_keyword_is_not_a_roll() {
    let (command, args) = parse_command("tuplilla");
    assert_eq!(command, BotCommand::Noop);
    assert!(args.is_empty());
}

#[test]
fn bare_roll_keyword_with_spaces_is_not_a_roll() {
    let (command, _) = parse_command("   tuplilla \t ");
    assert_eq!(command, BotCommand::Noop);
}

#[test]
fn roll_takes_the_rest_as_its_argument() {
    let (command, args) = parse_command("tuplilla kissa");
    assert_eq!(command, BotCommand::Roll);
    assert_eq!(args, owned(&["kissa"]));
}

#[test]
fn roll_argument_is_joined_by_single_spaces() {
    let (command, args) = parse_command("tuplilla   mennään \t uimaan\n tänään ");
    assert_eq!(command, BotCommand::Roll);
    assert_eq!(args, owned(&["mennään uimaan tänään"]));
}

#[test]
fn roll_keyword_may_carry_a_mention() {
    let (command, args) = parse_command("tuplilla@mybot kissa koira");
    assert_eq!(command, BotCommand::Roll);
    assert_eq!(args, owned(&["kissa koira"]));
}

#[test]
fn keywords_are_case_sensitive() {
    let (command, _) = parse_command("Tuplilla kissa");
    assert_eq!(command, BotCommand::Noop);
    let (command, _) = parse_command("PING");
    assert_eq!(command, BotCommand::Noop);
}

#[test]
fn search_takes_the_rest_as_its_query() {
    let (command, args) = parse_command("s funny cats");
    assert_eq!(command, BotCommand::Search);
    assert_eq!(args, owned(&["funny cats"]));
}

#[test]
fn bare_search_keyword_falls_through() {
    let (command, args) = parse_command("s");
    assert_eq!(command, BotCommand::Noop);
    assert!(args.is_empty());
}

#[test]
fn search_goes_before_a_link() {
    let (command, args) = parse_command("see https://example.com/x");
    assert_eq!(command, BotCommand::Search);
    assert_eq!(args, owned(&["https://example.com/x"]));
}

#[test]
fn link_in_a_sentence_is_a_download() {
    let (command, args) = parse_command("check this https://example.com/x out");
    assert_eq!(command, BotCommand::Download);
    assert_eq!(args.len(), 2);
    assert_eq!(args[0], "https://example.com/x");
    assert_eq!(args[1], "check this  out");
}

#[test]
fn link_at_the_end_leaves_trimmed_text() {
    let (command, args) = parse_command("  check this out https://example.com/x ");
    assert_eq!(command, BotCommand::Download);
    assert_eq!(args, owned(&["https://example.com/x", "check this out"]));
}

#[test]
fn link_alone_leaves_nothing_over() {
    let (command, args) = parse_command("https://example.com/watch?v=abc");
    assert_eq!(command, BotCommand::Download);
    assert_eq!(args, owned(&["https://example.com/watch?v=abc", ""]));
}

#[test]
fn first_of_two_links_is_downloaded() {
    let (command, args) = parse_command("https://a.example/1 and https://b.example/2");
    assert_eq!(command, BotCommand::Download);
    assert_eq!(args, owned(&["https://a.example/1", "and https://b.example/2"]));
}

#[test]
fn repeated_link_is_removed_everywhere() {
    let (command, args) = parse_command("https://a.example/1 x https://a.example/1");
    assert_eq!(command, BotCommand::Download);
    assert_eq!(args, owned(&["https://a.example/1", "x"]));
}

#[test]
fn plain_text_is_no_command() {
    let (command, args) = parse_command("hello there");
    assert_eq!(command, BotCommand::Noop);
    assert!(args.is_empty());
}

#[test]
fn empty_text_is_no_command() {
    for input in ["", " ", "\n\t "] {
        let (command, args) = parse_command(input);
        assert_eq!(command, BotCommand::Noop);
        assert!(args.is_empty());
    }
}

#[test]
fn every_command_carries_its_number_of_arguments() {
    let inputs = [
        "ping",
        "tuplilla",
        "tuplilla a",
        "s",
        "s a b",
        "x https://example.com/x",
        "nothing",
        "",
        "pingtuplilla s",
    ];
    for input in inputs {
        let (command, args) = parse_command(input);
        let expected = match command {
            BotCommand::Ping | BotCommand::Noop => 0,
            BotCommand::Roll | BotCommand::Search => 1,
            BotCommand::Download => 2,
        };
        assert_eq!(args.len(), expected, "{:?}", input);
    }
}

#[test]
fn given_links_decide_between_download_and_noop() {
    let none: Vec<String> = Vec::new();
    let (command, args) = parse_command_with_urls("look at X now", &none);
    assert_eq!(command, BotCommand::Noop);
    assert!(args.is_empty());
    let (command, args) = parse_command_with_urls(" look at X now ", &owned(&["X", "now"]));
    assert_eq!(command, BotCommand::Download);
    assert_eq!(args, owned(&["X", "look at  now"]));
}

#[test]
fn given_links_do_not_override_keywords() {
    let links = owned(&["kissa"]);
    let (command, args) = parse_command_with_urls("tuplilla kissa", &links);
    assert_eq!(command, BotCommand::Roll);
    assert_eq!(args, owned(&["kissa"]));
    let (command, _) = parse_command_with_urls("ping kissa", &links);
    assert_eq!(command, BotCommand::Ping);
    let (command, args) = parse_command_with_urls("tuplilla", &owned(&["tuplilla"]));
    assert_eq!(command, BotCommand::Download);
    assert_eq!(args, owned(&["tuplilla", ""]));
}

#[test]
fn argument_drops_the_command_word_only() {
    assert_eq!(get_arg("tuplilla kissa", &BotCommand::Roll), "kissa");
    assert_eq!(get_arg("  tuplilla@bot   a  b ", &BotCommand::Roll), "a b");
    assert_eq!(get_arg("kissa tuplilla", &BotCommand::Roll), "kissa tuplilla");
    assert_eq!(get_arg("tuplilla", &BotCommand::Roll), "");
    assert_eq!(get_arg("s", &BotCommand::Search), "");
    assert_eq!(get_arg("so it goes", &BotCommand::Search), "it goes");
    assert_eq!(get_arg("", &BotCommand::Roll), "");
    assert_eq!(get_arg(" \t\n", &BotCommand::Roll), "");
}

#[test]
fn commands_have_their_keywords() {
    assert_eq!(BotCommand::Ping.to_string(), "ping");
    assert_eq!(BotCommand::Roll.to_string(), "tuplilla");
    assert_eq!(BotCommand::Search.to_string(), "s");
    assert_eq!(BotCommand::Download.to_string(), "dl");
    assert_eq!(BotCommand::Noop.to_string(), "noop");
}

#[test]
fn commands_have_their_descriptions() {
    assert_eq!(BotCommand::Roll.to_description(), "Dubz");
    assert_eq!(BotCommand::Search.to_description(), "Search for a video from youtube");
    assert_eq!(BotCommand::Download.to_description(), "Download a video from a link");
    assert_eq!(BotCommand::Ping.to_description(), "");
    assert_eq!(BotCommand::Noop.to_description(), "");
}
