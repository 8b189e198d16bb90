use chat_bridge::model::{Message, Role};
use chat_bridge::decoder::StreamDecoder;
use chat_bridge::store::{
    append_conversation, create_conversation, from_entries, get_conversations, get_history,
    record_file_name, recover, sanitize_char, sanitize_filename, title_action, to_entries,
    History, RecordEntry, StoreAction, StoredRecord,
};

const HEADER: &str = "Use this conversation history to add context to your response. If there is no history, just respond to the prompt: ";

fn message(role: Role, content: &str) -> Message {
    Message { role, content: content.to_string() }
}

fn entry(role: &str, content: &str) -> RecordEntry {
    RecordEntry { role: role.to_string(), content: content.to_string() }
}

fn carry_out(before: StoredRecord, action: StoreAction) -> StoredRecord {
    match action {
        StoreAction::Keep => before,
        StoreAction::Write(history) => StoredRecord::Messages(history.messages),
    }
}

#[test]
fn sanitize_replaces_what_is_not_safe() {
    assert_eq!(sanitize_filename("Hello, World!"), "Hello__World_");
    assert_eq!(sanitize_filename("a-b_c.d"), "a-b_c_d");
    assert_eq!(sanitize_filename("../../etc/passwd"), "______etc_passwd");
    assert_eq!(sanitize_filename("C:\\Users\\x"), "C__Users_x");
    assert_eq!(sanitize_filename("plain-Title-42"), "plain-Title-42");
    assert_eq!(sanitize_filename(""), "");
    assert_eq!(sanitize_filename(" \t\n"), "___");
}

#[test]
fn sanitize_keeps_letters_and_digits_of_any_script() {
    assert_eq!(sanitize_filename("caf\u{e9} \u{4e2d}\u{6587} \u{662}"), "caf\u{e9}_\u{4e2d}\u{6587}_\u{662}");
    assert_eq!(sanitize_filename("a\u{1f600}b"), "a_b");
    assert_eq!(sanitize_filename("\u{2014}"), "_");
}

#[test]
fn sanitize_is_total_and_repeatable() {
    let titles = ["", "My chat", "a/b\\c:d*e?f\"g<h>i|j", "\u{0}\u{7f}", "x-y", "\u{10ffff}"];
    for title in titles {
        let once = sanitize_filename(title);
        assert_eq!(sanitize_filename(title), once);
        assert_eq!(sanitize_filename(&once), once);
        assert_eq!(once.chars().count(), title.chars().count());
        assert!(once.chars().all(|c| c.is_alphanumeric() || c == '-' || c == '_'));
    }
}

#[test]
fn distinct_titles_may_share_an_identifier() {
    assert_eq!(sanitize_filename("a b"), sanitize_filename("a_b"));
    assert_eq!(sanitize_filename("a?b"), sanitize_filename("a!b"));
}

#[test]
fn record_file_name_is_identifier_and_ending() {
    assert_eq!(record_file_name("My chat"), "My_chat.json");
    assert_eq!(record_file_name(""), ".json");
    assert_eq!(record_file_name("notes.json"), "notes_json.json");
}

#[test]
fn creating_writes_an_empty_record_only_where_there_is_none() {
    assert_eq!(
        create_conversation(false),
        StoreAction::Write(History { messages: vec![], replaced_unreadable: false })
    );
    assert_eq!(create_conversation(true), StoreAction::Keep);
}

#[test]
fn creating_twice_keeps_the_record() {
    let first = carry_out(StoredRecord::Missing, create_conversation(false));
    assert_eq!(first, StoredRecord::Messages(vec![]));
    let second = carry_out(first.clone(), create_conversation(true));
    assert_eq!(second, first);
    let full = StoredRecord::Messages(vec![message(Role::User, "keep me")]);
    assert_eq!(carry_out(full.clone(), create_conversation(true)), full);
    assert_eq!(
        carry_out(StoredRecord::Unreadable, create_conversation(true)),
        StoredRecord::Unreadable
    );
}

#[test]
fn append_adds_at_the_end() {
    let stored = StoredRecord::Messages(vec![message(Role::User, "one"), message(Role::Assistant, "two")]);
    assert_eq!(
        append_conversation(message(Role::User, "three"), stored),
        History {
            messages: vec![
                message(Role::User, "one"),
                message(Role::Assistant, "two"),
                message(Role::User, "three"),
            ],
            replaced_unreadable: false,
        }
    );
}

#[test]
fn append_starts_a_record_where_there_is_none() {
    let expected = History { messages: vec![message(Role::User, "first")], replaced_unreadable: false };
    assert_eq!(append_conversation(message(Role::User, "first"), StoredRecord::Missing), expected);
    assert_eq!(append_conversation(message(Role::User, "first"), StoredRecord::Empty), expected);
    assert_eq!(
        append_conversation(message(Role::User, "first"), StoredRecord::Messages(vec![])),
        expected
    );
}

#[test]
fn append_to_an_unreadable_record_keeps_only_the_new_message() {
    assert_eq!(
        append_conversation(message(Role::Assistant, "only"), StoredRecord::Unreadable),
        History { messages: vec![message(Role::Assistant, "only")], replaced_unreadable: true }
    );
}

#[test]
fn recover_names_the_fallback() {
    assert_eq!(recover(StoredRecord::Unreadable), History { messages: vec![], replaced_unreadable: true });
    assert_eq!(recover(StoredRecord::Missing), History { messages: vec![], replaced_unreadable: false });
    assert_eq!(recover(StoredRecord::Empty), History { messages: vec![], replaced_unreadable: false });
    assert_eq!(
        recover(StoredRecord::Messages(vec![message(Role::System, "s")])),
        History { messages: vec![message(Role::System, "s")], replaced_unreadable: false }
    );
}

#[test]
fn history_lists_messages_in_order() {
    let stored = StoredRecord::Messages(vec![
        message(Role::User, "Hi"),
        message(Role::Assistant, "Hello"),
        message(Role::System, "be brief"),
    ]);
    assert_eq!(
        get_history(&stored),
        format!("{}\nuser: Hi\nassistant: Hello\nsystem: be brief", HEADER)
    );
}

#[test]
fn history_of_nothing_is_the_header() {
    assert_eq!(get_history(&StoredRecord::Missing), HEADER);
    assert_eq!(get_history(&StoredRecord::Empty), HEADER);
    assert_eq!(get_history(&StoredRecord::Unreadable), HEADER);
    assert_eq!(get_history(&StoredRecord::Messages(vec![])), HEADER);
}

#[test]
fn appended_messages_are_read_back_in_order() {
    let said = [
        message(Role::User, "one"),
        message(Role::Assistant, "two: with colon"),
        message(Role::User, "three\nthird"),
        message(Role::Assistant, ""),
    ];
    let mut stored = StoredRecord::Missing;
    for m in &said {
        stored = StoredRecord::Messages(append_conversation(m.clone(), stored).messages);
    }
    assert_eq!(stored, StoredRecord::Messages(said.to_vec()));
    assert_eq!(
        get_history(&stored),
        format!("{}\nuser: one\nassistant: two: with colon\nuser: three\nthird\nassistant: ", HEADER)
    );
}

#[test]
fn history_does_not_change_the_record() {
    let stored = StoredRecord::Messages(vec![message(Role::User, "Hi")]);
    let before = stored.clone();
    let first = get_history(&stored);
    assert_eq!(get_history(&stored), first);
    assert_eq!(stored, before);
}

#[test]
fn conversations_are_listed_by_identifier() {
    let names = vec!["chat-1.json".to_string(), "b_2.json".to_string(), "notes.txt".to_string()];
    assert_eq!(get_conversations(names), vec!["chat-1".to_string(), "b_2".to_string()]);
}

#[test]
fn only_names_with_the_record_ending_are_listed() {
    let names = vec![
        "b.json".to_string(),
        "notes.txt".to_string(),
        "a.json".to_string(),
        ".json".to_string(),
        "json".to_string(),
        "x.JSON".to_string(),
        "c.json.bak".to_string(),
        "d.json".to_string(),
        "e.json.json".to_string(),
        "".to_string(),
    ];
    assert_eq!(
        get_conversations(names),
        vec![
            "b".to_string(),
            "a".to_string(),
            "".to_string(),
            "d".to_string(),
            "e.json".to_string(),
        ]
    );
    assert_eq!(get_conversations(vec![]), Vec::<String>::new());
}

#[test]
fn identifiers_beyond_ascii_are_listed_whole() {
    let names = vec!["caf\u{e9}_\u{4e2d}\u{6587}.json".to_string(), "\u{e9}.json".to_string()];
    assert_eq!(
        get_conversations(names),
        vec!["caf\u{e9}_\u{4e2d}\u{6587}".to_string(), "\u{e9}".to_string()]
    );
}

#[test]
fn every_record_is_listed_by_its_identifier() {
    let titles = ["My chat", "", "x.y", "notes.json", "caf\u{e9} au lait"];
    let names: Vec<String> = titles.iter().map(|title| record_file_name(title)).collect();
    let identifiers: Vec<String> = titles.iter().map(|title| sanitize_filename(title)).collect();
    assert_eq!(get_conversations(names), identifiers);
    for identifier in identifiers {
        assert_eq!(record_file_name(&identifier), format!("{}.json", identifier));
    }
}

#[test]
fn sanitize_char_follows_the_class_it_is_given() {
    assert_eq!(sanitize_char('a', true), 'a');
    assert_eq!(sanitize_char('7', true), '7');
    assert_eq!(sanitize_char('-', false), '-');
    assert_eq!(sanitize_char('-', true), '-');
    assert_eq!(sanitize_char('_', false), '_');
    assert_eq!(sanitize_char(' ', false), '_');
    assert_eq!(sanitize_char('!', false), '_');
    assert_eq!(sanitize_char(':', false), '_');
    assert_eq!(sanitize_char('.', false), '_');
    assert_eq!(sanitize_char('\u{e9}', true), '\u{e9}');
    assert_eq!(sanitize_char('a', false), '_');
}

#[test]
fn sanitize_of_a_mixed_title() {
    assert_eq!(sanitize_filename("My Chat-2: v2!"), "My_Chat-2__v2_");
}

#[test]
fn finished_title_creates_the_conversation_once() {
    let mut decoder = StreamDecoder::new();
    decoder.decode(br#"{"message":{"content":"Trip plans"},"done":true}"#).unwrap();
    assert_eq!(
        title_action(&decoder, false),
        StoreAction::Write(History { messages: vec![], replaced_unreadable: false })
    );
    assert_eq!(title_action(&decoder, true), StoreAction::Keep);
}

#[test]
fn unfinished_title_writes_nothing() {
    let mut ended = StreamDecoder::new();
    assert_eq!(title_action(&ended, false), StoreAction::Keep);
    ended.decode(br#"{"message":{"content":"Trip "},"done":false}"#).unwrap();
    assert_eq!(title_action(&ended, false), StoreAction::Keep);
    assert_eq!(title_action(&ended, true), StoreAction::Keep);
    ended.interrupt();
    assert_eq!(title_action(&ended, false), StoreAction::Keep);
    let mut failed = StreamDecoder::new();
    failed.decode(br#"{"message":{"content":"Trip "},"done":false}"#).unwrap();
    assert!(failed.decode(b"oops").is_err());
    assert_eq!(title_action(&failed, false), StoreAction::Keep);
    assert_eq!(title_action(&failed, true), StoreAction::Keep);
}

#[test]
fn role_names() {
    assert_eq!(Role::User.name(), "user");
    assert_eq!(Role::Assistant.name(), "assistant");
    assert_eq!(Role::System.name(), "system");
    assert_eq!(Role::from_name("user"), Some(Role::User));
    assert_eq!(Role::from_name("assistant"), Some(Role::Assistant));
    assert_eq!(Role::from_name("system"), Some(Role::System));
    assert_eq!(Role::from_name("ai"), None);
    assert_eq!(Role::from_name("User"), None);
    assert_eq!(Role::from_name(""), None);
    assert_eq!(Role::from_name("user "), None);
}

#[test]
fn entries_are_read_as_messages() {
    assert_eq!(
        from_entries(vec![entry("user", "Hi"), entry("assistant", "Hello"), entry("system", "")]),
        StoredRecord::Messages(vec![
            message(Role::User, "Hi"),
            message(Role::Assistant, "Hello"),
            message(Role::System, ""),
        ])
    );
    assert_eq!(from_entries(vec![]), StoredRecord::Messages(vec![]));
}

#[test]
fn entry_with_an_unknown_role_makes_the_record_unreadable() {
    assert_eq!(
        from_entries(vec![entry("user", "Hi"), entry("ai", "Hello")]),
        StoredRecord::Unreadable
    );
    assert_eq!(from_entries(vec![entry("", "x")]), StoredRecord::Unreadable);
}

#[test]
fn messages_written_as_entries_read_back() {
    let messages = vec![
        message(Role::User, "Hi"),
        message(Role::Assistant, "Hello"),
        message(Role::System, "be brief"),
    ];
    let entries = to_entries(&messages);
    assert_eq!(
        entries,
        vec![entry("user", "Hi"), entry("assistant", "Hello"), entry("system", "be brief")]
    );
    assert_eq!(from_entries(entries), StoredRecord::Messages(messages));
    assert_eq!(to_entries(&vec![]), Vec::<RecordEntry>::new());
}
