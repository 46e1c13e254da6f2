use minecrust::block_suggester::BlockSuggester;
use minecrust::command_prompt::CommandPrompt;
use minecrust::command_suggester::{match_kind, CommandSuggester, MatchKind, SuggestionRequest};

#[test]
fn typing_and_erasing() {
    let mut p = CommandPrompt::new();
    assert_eq!(p.input, "");
    assert!(p.show_cursor);
    p.add_char('u');
    p.add_char('s');
    p.add_char('é');
    assert_eq!(p.input, "usé");
    p.backspace();
    assert_eq!(p.input, "us");
    p.backspace();
    p.backspace();
    p.backspace();
    assert_eq!(p.input, "");
}

#[test]
fn display_text_shows_slash_and_cursor() {
    let mut p = CommandPrompt::new();
    p.add_char('t');
    assert_eq!(p.get_display_text(), "/t_");
    p.blink();
    assert_eq!(p.get_display_text(), "/t");
    p.blink();
    assert_eq!(p.get_display_text(), "/t_");
}

#[test]
fn reset_and_toggle_start_afresh() {
    let mut p = CommandPrompt::new();
    p.add_char('x');
    p.blink();
    p.set_message("hello".to_string());
    p.toggle();
    assert_eq!(p.input, "");
    assert!(p.show_cursor);
    assert_eq!(p.message, "hello");
    p.add_char('y');
    p.clear();
    assert_eq!(p.input, "");
}

#[test]
fn offered_commands_and_arguments() {
    assert_eq!(CommandSuggester::get_available_commands(), vec!["use", "time", "rorate"]);
    assert_eq!(
        CommandSuggester::get_available_arguments("time"),
        vec!["night", "noon", "dawn", "dusk", "toggle"]
    );
    assert!(CommandSuggester::get_available_arguments("use").is_empty());
    assert!(CommandSuggester::get_available_arguments("rotate").is_empty());
}

fn request(input: &str) -> String {
    match CommandSuggester::request(input) {
        SuggestionRequest::Commands(t) => format!("commands[{}]", t),
        SuggestionRequest::Arguments(c, t) => format!("arguments[{}|{}]", c, t),
        SuggestionRequest::Blocks(t) => format!("blocks[{}]", t),
        SuggestionRequest::Nothing => "nothing".to_string(),
    }
}

#[test]
fn requests_by_word_count() {
    assert_eq!(request(""), "commands[]");
    assert_eq!(request("   "), "commands[]");
    assert_eq!(request("ti"), "commands[ti]");
    assert_eq!(request("use"), "blocks[]");
    assert_eq!(request(" time "), "arguments[time|]");
    assert_eq!(request("rorate"), "arguments[rorate|]");
    assert_eq!(request("use Oak  Log"), "blocks[Oak Log]");
    assert_eq!(request("time  no"), "arguments[time|no]");
    assert_eq!(request("fly away"), "nothing");
    assert_eq!(request("rotate 90"), "nothing");
}

#[test]
fn match_kinds() {
    assert_eq!(match_kind("time", "time"), MatchKind::Exact);
    assert_eq!(match_kind("time", "ti"), MatchKind::Prefix);
    assert_eq!(match_kind("time", ""), MatchKind::Prefix);
    assert_eq!(match_kind("time", "tim3"), MatchKind::Fuzzy);
    assert_eq!(match_kind("ti", "time"), MatchKind::Fuzzy);
}

#[test]
fn block_names_in_declaration_order() {
    let names = BlockSuggester::block_names();
    assert_eq!(names.len(), 95);
    assert_eq!(names[0], "GrassBlock");
    assert_eq!(names[94], "Air");
}

#[test]
fn empty_or_command_word_lists_every_block() {
    assert!(BlockSuggester::lists_everything(""));
    assert!(BlockSuggester::lists_everything("use"));
    assert!(!BlockSuggester::lists_everything("us"));
    assert!(!BlockSuggester::lists_everything("stone"));
}

#[test]
fn erasing_undoes_typing() {
    let mut p = CommandPrompt::new();
    for c in "time noon".chars() {
        p.add_char(c);
    }
    let before = p.input.clone();
    p.add_char(';');
    p.backspace();
    assert_eq!(p.input, before);
    assert!(p.get_display_text().starts_with('/'));
}
