use telegram_id::anchors::AnchorTable;
use telegram_id::format::{
    choose_reply, escape_markdown_v2, format_chat_info, format_reply, format_user_info,
    has_prefix, help_reply, start_reply,
};
use telegram_id::message::{ChatInfo, ChatType, ForwardInfo, ForwardOrigin, UserInfo};

fn minimal_user() -> UserInfo {
    UserInfo {
        id: 2768409,
        is_bot: false,
        first_name: String::from("Alice"),
        last_name: None,
        username: None,
        language_code: None,
    }
}

fn full_user() -> UserInfo {
    UserInfo {
        id: 1000,
        is_bot: false,
        first_name: String::from("Bob"),
        last_name: Some(String::from("Stone")),
        username: Some(String::from("bobstone")),
        language_code: Some(String::from("en")),
    }
}

fn private_chat() -> ChatInfo {
    ChatInfo {
        id: 2768409,
        kind: ChatType::Private,
        title: None,
        username: None,
    }
}

#[test]
fn minimal_user_block_connectors() {
    // With no optional field set, first_name keeps the continuation
    // connector and created is the terminal last line.
    let t = AnchorTable::new();
    let block = format_user_info(&t, &minimal_user(), "You");
    assert_eq!(
        block,
        "👤 You\n ├ id: 2768409\n ├ is_bot: false\n ├ first_name: Alice\n └ created: approx 11/2013 (?)\n"
    );
}

#[test]
fn full_user_block_lists_every_field_in_order() {
    let t = AnchorTable::new();
    let block = format_user_info(&t, &full_user(), "You");
    assert_eq!(
        block,
        "👤 You\n ├ id: 1000\n ├ is_bot: false\n ├ first_name: Bob\n ├ last_name: Stone\n ├ username: bobstone\n ├ language_code: en (-)\n └ created: older_than 11/2013 (?)\n"
    );
}

#[test]
fn bare_chat_block_has_single_terminal_type_line() {
    let chat = ChatInfo {
        id: -100123,
        kind: ChatType::Supergroup,
        title: None,
        username: None,
    };
    assert_eq!(
        format_chat_info(&chat),
        "💬 Chat\n ├ id: -100123\n └ type: supergroup\n"
    );
}

#[test]
fn chat_block_terminal_connector_tracks_last_present_field() {
    let both = ChatInfo {
        id: -1,
        kind: ChatType::Group,
        title: Some(String::from("Team")),
        username: Some(String::from("team_chat")),
    };
    assert_eq!(
        format_chat_info(&both),
        "💬 Chat\n ├ id: -1\n ├ type: group\n ├ title: Team\n └ username: team_chat\n"
    );
    let title_only = ChatInfo {
        id: -1,
        kind: ChatType::Group,
        title: Some(String::from("Team")),
        username: None,
    };
    assert_eq!(
        format_chat_info(&title_only),
        "💬 Chat\n ├ id: -1\n ├ type: group\n └ title: Team\n"
    );
    let username_only = ChatInfo {
        id: -1,
        kind: ChatType::Channel,
        title: None,
        username: Some(String::from("newsfeed")),
    };
    assert_eq!(
        format_chat_info(&username_only),
        "💬 Chat\n ├ id: -1\n ├ type: channel\n └ username: newsfeed\n"
    );
}

#[test]
fn reply_without_forward_has_no_forward_block() {
    let t = AnchorTable::new();
    let reply = format_reply(&t, &minimal_user(), &private_chat(), &None);
    assert_eq!(
        reply,
        "👤 You\n ├ id: 2768409\n ├ is_bot: false\n ├ first_name: Alice\n └ created: approx 11/2013 (?)\n\n💬 Chat\n ├ id: 2768409\n └ type: private\n"
    );
    assert!(!reply.contains("Forwarded from"));
    assert!(!reply.contains("📃"));
}

#[test]
fn reply_renders_identically_on_repeated_calls() {
    let t = AnchorTable::new();
    let fwd = Some(ForwardInfo {
        origin: ForwardOrigin::SenderName(String::from("Hidden Sender")),
        date_secs: Some(1420070400),
    });
    let a = format_reply(&t, &full_user(), &private_chat(), &fwd);
    let b = format_reply(&t, &full_user(), &private_chat(), &fwd);
    assert_eq!(a, b);
}

#[test]
fn forwarded_sender_name_block_and_timestamp() {
    let t = AnchorTable::new();
    let fwd = Some(ForwardInfo {
        origin: ForwardOrigin::SenderName(String::from("Hidden Sender")),
        date_secs: Some(1420070400),
    });
    let reply = format_reply(&t, &minimal_user(), &private_chat(), &fwd);
    assert!(reply.ends_with(
        "\n👤 Forwarded from\n └ sender_name: Hidden Sender\n\n📃 Message\n └ forward_date: Thu, 01 Jan 2015 00:00:00 GMT\n"
    ));
}

#[test]
fn forwarded_user_block_estimates_that_users_age() {
    let t = AnchorTable::new();
    let fwd = Some(ForwardInfo {
        origin: ForwardOrigin::User(UserInfo {
            id: 3000000000,
            is_bot: true,
            first_name: String::from("Relay"),
            last_name: None,
            username: None,
            language_code: None,
        }),
        date_secs: None,
    });
    let reply = format_reply(&t, &minimal_user(), &private_chat(), &fwd);
    assert!(reply.contains(
        "\n👤 Forwarded from\n ├ id: 3000000000\n ├ is_bot: true\n ├ first_name: Relay\n └ created: newer_than 10/2021 (?)\n"
    ));
    assert!(reply.ends_with("\n📃 Message\n"));
}

#[test]
fn forwarded_chat_block_fields_in_order() {
    let t = AnchorTable::new();
    let fwd = Some(ForwardInfo {
        origin: ForwardOrigin::Chat(ChatInfo {
            id: -1001234,
            kind: ChatType::Channel,
            title: Some(String::from("Daily News")),
            username: None,
        }),
        date_secs: None,
    });
    let reply = format_reply(&t, &minimal_user(), &private_chat(), &fwd);
    assert!(reply.contains(
        "\n👤 Forwarded from\n ├ chat: Daily News\n ├ type: channel\n └ id: -1001234\n"
    ));
}

#[test]
fn forwarded_chat_without_title_shows_unknown() {
    let t = AnchorTable::new();
    let fwd = Some(ForwardInfo {
        origin: ForwardOrigin::Chat(ChatInfo {
            id: -5,
            kind: ChatType::Channel,
            title: None,
            username: None,
        }),
        date_secs: None,
    });
    let reply = format_reply(&t, &minimal_user(), &private_chat(), &fwd);
    assert!(reply.contains("\n👤 Forwarded from\n ├ chat: Unknown\n ├ type: channel\n └ id: -5\n"));
}

#[test]
fn markdown_escape_backslashes_reserved_characters() {
    assert_eq!(escape_markdown_v2("a_b*c!"), "a\\_b\\*c\\!");
    assert_eq!(escape_markdown_v2("plain text"), "plain text");
    assert_eq!(escape_markdown_v2("(x-y)=z"), "\\(x\\-y\\)\\=z");
    assert_eq!(escape_markdown_v2(""), "");
}

#[test]
fn start_reply_greets_by_first_name() {
    let text = start_reply("Alice");
    assert!(text.starts_with("Hi Alice!\n\n🤖 Telegram ID Bot\n\n"));
    assert!(text.ends_with("Try sending me a message or forwarding one to see it in action!"));
}

#[test]
fn help_reply_lists_commands() {
    assert_eq!(
        help_reply(),
        "Available commands:\n/start - Start the bot\n/help - Show this help message"
    );
}

#[test]
fn prefix_check_matches_str_starts_with() {
    assert!(has_prefix("/start", "/start"));
    assert!(has_prefix("/start@idbot now", "/start"));
    assert!(!has_prefix("/star", "/start"));
    assert!(!has_prefix("hello /start", "/start"));
    assert!(has_prefix("anything", ""));
}

#[test]
fn commands_bypass_the_formatter() {
    let t = AnchorTable::new();
    let user = minimal_user();
    let chat = private_chat();
    let start = choose_reply(&t, &Some(String::from("/start")), &user, &chat, &None);
    assert!(start.starts_with("Hi Alice!\n\n"));
    let help = choose_reply(&t, &Some(String::from("/help")), &user, &chat, &None);
    assert_eq!(
        help,
        "Available commands:\n/start - Start the bot\n/help - Show this help message"
    );
    let plain = choose_reply(&t, &Some(String::from("hello")), &user, &chat, &None);
    assert_eq!(plain, format_reply(&t, &user, &chat, &None));
    let no_text = choose_reply(&t, &None, &user, &chat, &None);
    assert_eq!(no_text, plain);
}
