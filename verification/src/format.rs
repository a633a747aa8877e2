//! The message formatter: renders sender, chat and forward metadata as the
//! tree-drawn plain-text reply, with the age estimate on every user block.

use vstd::prelude::*;
use crate::anchors::AnchorTable;
use crate::dates::{rfc1123_utc_of, format_rfc1123};
use crate::estimator::{AgeEstimate, age_estimate_spec};
use crate::message::{UserInfo, ChatInfo, ChatType, ForwardOrigin, ForwardInfo};
use crate::numfmt::{spec_dec, spec_dec_signed, u64_to_dec, i64_to_dec};

verus! {

/// A present optional field's rendering: label, value, line end. An absent
/// field contributes nothing.
pub open spec fn opt_chunk(o: Option<String>, pre: Seq<char>, post: Seq<char>) -> Seq<char> {
    match o {
        Option::Some(v) => pre + v@ + post,
        Option::None => Seq::empty(),
    }
}

fn chunk3(pre: &str, mid: &str, post: &str) -> (r: String)
    ensures
        r@ == pre@ + mid@ + post@,
{
    let mut s = String::from_str(pre);
    s.append(mid);
    s.append(post);
    s
}

fn append_opt(s: &mut String, o: &Option<String>, pre: &str, post: &str)
    ensures
        final(s)@ == old(s)@ + opt_chunk(*o, pre@, post@),
{
    match o {
        Option::Some(v) => {
            s.append(pre);
            s.append(v.as_str());
            s.append(post);
            proof {
                assert(s@ =~= old(s)@ + opt_chunk(*o, pre@, post@));
            }
        },
        Option::None => {
            proof {
                assert(s@ =~= old(s)@ + opt_chunk(*o, pre@, post@));
            }
        },
    }
}

/// The text of the `created` line's value: the classification word, the
/// month/year estimate, and the fixed marker. The marker is one and the
/// same placeholder literal for every classification.
pub open spec fn spec_age_line(e: AgeEstimate) -> Seq<char> {
    match e {
        AgeEstimate::OlderThan(d) => "older_than "@ + spec_dec(d.month as int) + "/"@
            + spec_dec_signed(d.year as int) + " (?)"@,
        AgeEstimate::NewerThan(d) => "newer_than "@ + spec_dec(d.month as int) + "/"@
            + spec_dec_signed(d.year as int) + " (?)"@,
        AgeEstimate::Approx(d) => "approx "@ + spec_dec(d.month as int) + "/"@
            + spec_dec_signed(d.year as int) + " (?)"@,
        AgeEstimate::Unknown => "unknown unknown (?)"@,
    }
}

/// Renders an age estimate as the `created` line's value.
pub fn format_age_line(e: &AgeEstimate) -> (r: String)
    ensures
        r@ == spec_age_line(*e),
{
    match e {
        AgeEstimate::OlderThan(d) => {
            let mut s = String::from_str("older_than ");
            s.append(u64_to_dec(d.month as u64).as_str());
            s.append("/");
            s.append(i64_to_dec(d.year as i64).as_str());
            s.append(" (?)");
            s
        },
        AgeEstimate::NewerThan(d) => {
            let mut s = String::from_str("newer_than ");
            s.append(u64_to_dec(d.month as u64).as_str());
            s.append("/");
            s.append(i64_to_dec(d.year as i64).as_str());
            s.append(" (?)");
            s
        },
        AgeEstimate::Approx(d) => {
            let mut s = String::from_str("approx ");
            s.append(u64_to_dec(d.month as u64).as_str());
            s.append("/");
            s.append(i64_to_dec(d.year as i64).as_str());
            s.append(" (?)");
            s
        },
        AgeEstimate::Unknown => String::from_str("unknown unknown (?)"),
    }
}

/// A user block: header, the always-present id, is_bot and first_name lines
/// with continuation connectors, each optional field only when present, and
/// the created line, always last and always with the terminal connector.
pub open spec fn spec_user_block(u: UserInfo, title: Seq<char>, est: AgeEstimate) -> Seq<char> {
    ("👤 "@ + title + "\n"@)
    + (" ├ id: "@ + spec_dec(u.id as int) + "\n"@)
    + (" ├ is_bot: "@ + (if u.is_bot { "true"@ } else { "false"@ }) + "\n"@)
    + (" ├ first_name: "@ + u.first_name@ + "\n"@)
    + opt_chunk(u.last_name, " ├ last_name: "@, "\n"@)
    + opt_chunk(u.username, " ├ username: "@, "\n"@)
    + opt_chunk(u.language_code, " ├ language_code: "@, " (-)\n"@)
    + (" └ created: "@ + spec_age_line(est) + "\n"@)
}

/// Renders a user block under the given header title, estimating the
/// account age from the user's id.
pub fn format_user_info(table: &AnchorTable, user: &UserInfo, title: &str) -> (r: String)
    requires
        table.wf(),
    ensures
        r@ == spec_user_block(*user, title@, age_estimate_spec(table@, user.id)),
{
    let est = table.estimate(user.id);
    let mut s = chunk3("👤 ", title, "\n");
    s.append(chunk3(" ├ id: ", u64_to_dec(user.id).as_str(), "\n").as_str());
    let flag = if user.is_bot {
        "true"
    } else {
        "false"
    };
    s.append(chunk3(" ├ is_bot: ", flag, "\n").as_str());
    s.append(chunk3(" ├ first_name: ", user.first_name.as_str(), "\n").as_str());
    append_opt(&mut s, &user.last_name, " ├ last_name: ", "\n");
    append_opt(&mut s, &user.username, " ├ username: ", "\n");
    append_opt(&mut s, &user.language_code, " ├ language_code: ", " (-)\n");
    s.append(chunk3(" └ created: ", format_age_line(&est).as_str(), "\n").as_str());
    s
}

/// The lowercase name of a chat kind.
pub open spec fn spec_chat_type(k: ChatType) -> Seq<char> {
    match k {
        ChatType::Private => "private"@,
        ChatType::Group => "group"@,
        ChatType::Supergroup => "supergroup"@,
        ChatType::Channel => "channel"@,
    }
}

fn chat_type_str(k: &ChatType) -> (r: &'static str)
    ensures
        r@ == spec_chat_type(*k),
{
    match k {
        ChatType::Private => "private",
        ChatType::Group => "group",
        ChatType::Supergroup => "supergroup",
        ChatType::Channel => "channel",
    }
}

/// The lines of a chat block after the id line: type, then title and
/// username as far as present, the terminal connector going to the last
/// present line.
pub open spec fn spec_chat_tail(c: ChatInfo) -> Seq<char> {
    match (c.title, c.username) {
        (Option::Some(t), Option::Some(u)) => (" ├ type: "@ + spec_chat_type(c.kind) + "\n"@)
            + (" ├ title: "@ + t@ + "\n"@) + (" └ username: "@ + u@ + "\n"@),
        (Option::Some(t), Option::None) => (" ├ type: "@ + spec_chat_type(c.kind) + "\n"@)
            + (" └ title: "@ + t@ + "\n"@),
        (Option::None, Option::Some(u)) => (" ├ type: "@ + spec_chat_type(c.kind) + "\n"@)
            + (" └ username: "@ + u@ + "\n"@),
        (Option::None, Option::None) => " └ type: "@ + spec_chat_type(c.kind) + "\n"@,
    }
}

fn format_chat_tail(c: &ChatInfo) -> (r: String)
    ensures
        r@ == spec_chat_tail(*c),
{
    match (&c.title, &c.username) {
        (Option::Some(t), Option::Some(u)) => {
            let mut s = chunk3(" ├ type: ", chat_type_str(&c.kind), "\n");
            s.append(chunk3(" ├ title: ", t.as_str(), "\n").as_str());
            s.append(chunk3(" └ username: ", u.as_str(), "\n").as_str());
            s
        },
        (Option::Some(t), Option::None) => {
            let mut s = chunk3(" ├ type: ", chat_type_str(&c.kind), "\n");
            s.append(chunk3(" └ title: ", t.as_str(), "\n").as_str());
            s
        },
        (Option::None, Option::Some(u)) => {
            let mut s = chunk3(" ├ type: ", chat_type_str(&c.kind), "\n");
            s.append(chunk3(" └ username: ", u.as_str(), "\n").as_str());
            s
        },
        (Option::None, Option::None) => chunk3(" └ type: ", chat_type_str(&c.kind), "\n"),
    }
}

/// A chat block: header, the always-present id line, then the tail.
pub open spec fn spec_chat_block(c: ChatInfo) -> Seq<char> {
    "💬 Chat\n"@ + " ├ id: "@ + spec_dec_signed(c.id as int) + "\n"@ + spec_chat_tail(c)
}

/// Renders a chat block.
pub fn format_chat_info(c: &ChatInfo) -> (r: String)
    ensures
        r@ == spec_chat_block(*c),
{
    let mut s = String::from_str("💬 Chat\n");
    s.append(" ├ id: ");
    s.append(i64_to_dec(c.id).as_str());
    s.append("\n");
    s.append(format_chat_tail(c).as_str());
    s
}

/// A forwarded-from block: a full user block for a visible user, a single
/// sender-name line for a hidden one, or the chat-identity lines for a
/// channel forward (title, type, id, in that order, id terminal).
pub open spec fn spec_forward_block(t: Seq<(u64, u64)>, o: ForwardOrigin) -> Seq<char> {
    match o {
        ForwardOrigin::User(u) => spec_user_block(u, "Forwarded from"@, age_estimate_spec(t, u.id)),
        ForwardOrigin::SenderName(n) => "👤 Forwarded from\n └ sender_name: "@ + n@ + "\n"@,
        ForwardOrigin::Chat(c) => "👤 Forwarded from\n ├ chat: "@ + (match c.title {
            Option::Some(ti) => ti@,
            Option::None => "Unknown"@,
        }) + "\n"@ + (" ├ type: "@ + spec_chat_type(c.kind) + "\n"@) + (" └ id: "@
            + spec_dec_signed(c.id as int) + "\n"@),
    }
}

/// Renders a forwarded-from block.
pub fn format_forwarded_from_info(table: &AnchorTable, o: &ForwardOrigin) -> (r: String)
    requires
        table.wf(),
    ensures
        r@ == spec_forward_block(table@, *o),
{
    match o {
        ForwardOrigin::User(u) => format_user_info(table, u, "Forwarded from"),
        ForwardOrigin::SenderName(n) => {
            let mut s = String::from_str("👤 Forwarded from\n └ sender_name: ");
            s.append(n.as_str());
            s.append("\n");
            s
        },
        ForwardOrigin::Chat(c) => {
            let mut s = String::from_str("👤 Forwarded from\n ├ chat: ");
            let ti = match &c.title {
                Option::Some(ti) => ti.as_str(),
                Option::None => "Unknown",
            };
            s.append(ti);
            s.append("\n");
            s.append(chunk3(" ├ type: ", chat_type_str(&c.kind), "\n").as_str());
            s.append(chunk3(" └ id: ", i64_to_dec(c.id).as_str(), "\n").as_str());
            s
        },
    }
}

/// The forward timestamp line, when Telegram supplied the timestamp.
pub open spec fn spec_fwd_date_chunk(d: Option<i64>) -> Seq<char> {
    match d {
        Option::Some(secs) => " └ forward_date: "@ + rfc1123_utc_of(secs as int) + "\n"@,
        Option::None => Seq::empty(),
    }
}

/// Everything a forwarded message adds to the reply: nothing when the
/// message was not forwarded; otherwise a blank line, the forwarded-from
/// block, the message header, and the forward timestamp line when present.
pub open spec fn spec_forward_section(t: Seq<(u64, u64)>, f: Option<ForwardInfo>) -> Seq<char> {
    match f {
        Option::None => Seq::empty(),
        Option::Some(fi) => "\n"@ + spec_forward_block(t, fi.origin) + "\n📃 Message\n"@
            + spec_fwd_date_chunk(fi.date_secs),
    }
}

fn format_forward_section(table: &AnchorTable, f: &Option<ForwardInfo>) -> (r: String)
    requires
        table.wf(),
    ensures
        r@ == spec_forward_section(table@, *f),
{
    match f {
        Option::None => String::new(),
        Option::Some(fi) => {
            let mut s = String::from_str("\n");
            s.append(format_forwarded_from_info(table, &fi.origin).as_str());
            s.append("\n📃 Message\n");
            match &fi.date_secs {
                Option::Some(d) => {
                    s.append(chunk3(" └ forward_date: ", format_rfc1123(*d).as_str(),
                        "\n").as_str());
                },
                Option::None => {},
            }
            proof {
                assert(s@ =~= spec_forward_section(table@, *f));
            }
            s
        },
    }
}

/// The whole reply: the sender's block, a blank line, the chat block, and
/// the forward section only when the message was forwarded.
pub open spec fn spec_format_reply(
    t: Seq<(u64, u64)>,
    u: UserInfo,
    c: ChatInfo,
    f: Option<ForwardInfo>,
) -> Seq<char> {
    spec_user_block(u, "You"@, age_estimate_spec(t, u.id)) + "\n"@ + spec_chat_block(c)
        + spec_forward_section(t, f)
}

/// Builds the full reply text for a message.
pub fn format_reply(
    table: &AnchorTable,
    user: &UserInfo,
    chat: &ChatInfo,
    forward: &Option<ForwardInfo>,
) -> (r: String)
    requires
        table.wf(),
    ensures
        r@ == spec_format_reply(table@, *user, *chat, *forward),
{
    let mut s = format_user_info(table, user, "You");
    s.append("\n");
    s.append(format_chat_info(chat).as_str());
    s.append(format_forward_section(table, forward).as_str());
    s
}

/// The reply is a function of its inputs alone: two renderings of the same
/// user, chat and forward metadata are byte-identical.
pub proof fn lemma_format_reply_deterministic(
    t: Seq<(u64, u64)>,
    u: UserInfo,
    c: ChatInfo,
    f: Option<ForwardInfo>,
    r1: Seq<char>,
    r2: Seq<char>,
)
    requires
        r1 == spec_format_reply(t, u, c, f),
        r2 == spec_format_reply(t, u, c, f),
    ensures
        r1 == r2,
{
}

/// With no optional field present, a user block is exactly the header, the
/// id, is_bot and first_name lines with continuation connectors, and the
/// created line, terminal and last.
pub proof fn lemma_user_block_minimal_fields(u: UserInfo, title: Seq<char>, est: AgeEstimate)
    requires
        u.last_name is None,
        u.username is None,
        u.language_code is None,
    ensures
        spec_user_block(u, title, est) == ("👤 "@ + title + "\n"@)
            + (" ├ id: "@ + spec_dec(u.id as int) + "\n"@)
            + (" ├ is_bot: "@ + (if u.is_bot { "true"@ } else { "false"@ }) + "\n"@)
            + (" ├ first_name: "@ + u.first_name@ + "\n"@)
            + (" └ created: "@ + spec_age_line(est) + "\n"@),
{
    assert(spec_user_block(u, title, est) =~= ("👤 "@ + title + "\n"@)
        + (" ├ id: "@ + spec_dec(u.id as int) + "\n"@)
        + (" ├ is_bot: "@ + (if u.is_bot { "true"@ } else { "false"@ }) + "\n"@)
        + (" ├ first_name: "@ + u.first_name@ + "\n"@)
        + (" └ created: "@ + spec_age_line(est) + "\n"@));
}

/// A reply to a message that was not forwarded is exactly the sender block,
/// one blank line, and the chat block: no forward block, no stray blank
/// lines.
pub proof fn lemma_no_forward_no_block(t: Seq<(u64, u64)>, u: UserInfo, c: ChatInfo)
    ensures
        spec_format_reply(t, u, c, Option::None) == spec_user_block(u, "You"@,
            age_estimate_spec(t, u.id)) + "\n"@ + spec_chat_block(c),
{
    assert(spec_format_reply(t, u, c, Option::None) =~= spec_user_block(u, "You"@,
        age_estimate_spec(t, u.id)) + "\n"@ + spec_chat_block(c));
}

/// A reply to a forwarded message carries the forward section: a blank
/// line, the forwarded-from block, the message header, and the timestamp
/// line when the timestamp is present.
pub proof fn lemma_forward_present(t: Seq<(u64, u64)>, u: UserInfo, c: ChatInfo, fi: ForwardInfo)
    ensures
        spec_format_reply(t, u, c, Option::Some(fi)) == spec_user_block(u, "You"@,
            age_estimate_spec(t, u.id)) + "\n"@ + spec_chat_block(c) + ("\n"@
            + spec_forward_block(t, fi.origin) + "\n📃 Message\n"@
            + spec_fwd_date_chunk(fi.date_secs)),
{
}

/// A chat with neither title nor username renders as the header, the id
/// line, and a single terminal type line.
pub proof fn lemma_chat_block_bare(c: ChatInfo)
    requires
        c.title is None,
        c.username is None,
    ensures
        spec_chat_block(c) == "💬 Chat\n"@ + " ├ id: "@ + spec_dec_signed(c.id as int) + "\n"@
            + " └ type: "@ + spec_chat_type(c.kind) + "\n"@,
{
    assert(spec_chat_block(c) =~= "💬 Chat\n"@ + " ├ id: "@ + spec_dec_signed(c.id as int)
        + "\n"@ + " └ type: "@ + spec_chat_type(c.kind) + "\n"@);
}

/// A character Telegram's MarkdownV2 syntax reserves.
pub open spec fn is_md_special(c: char) -> bool {
    c == '_' || c == '*' || c == '[' || c == ']' || c == '(' || c == ')' || c == '~' || c == '`'
        || c == '>' || c == '#' || c == '+' || c == '-' || c == '=' || c == '|' || c == '{'
        || c == '}' || c == '.' || c == '!'
}

/// A character's escaped form: a backslash before it when it is reserved,
/// the character alone otherwise.
pub open spec fn esc_char(c: char) -> Seq<char> {
    if is_md_special(c) {
        seq!['\\', c]
    } else {
        seq![c]
    }
}

/// A text with every reserved character escaped, in order.
pub open spec fn spec_escape(s: Seq<char>) -> Seq<char>
    decreases s.len(),
{
    if s.len() == 0 {
        Seq::empty()
    } else {
        spec_escape(s.drop_last()) + esc_char(s.last())
    }
}

/// Relies on std's `String::push`: appends one character.
#[verifier::external_body]
fn push_char(s: &mut String, c: char)
    ensures
        final(s)@ == old(s)@.push(c),
{
    s.push(c);
}

/// Escapes a text for Telegram's MarkdownV2 parse mode.
pub fn escape_markdown_v2(text: &str) -> (r: String)
    ensures
        r@ == spec_escape(text@),
{
    let n: usize = text.unicode_len();
    let mut out = String::new();
    let mut i: usize = 0;
    while i < n
        invariant
            n == text@.len(),
            i <= n,
            out@ == spec_escape(text@.take(i as int)),
        decreases n - i,
    {
        let c = text.get_char(i);
        if c == '_' || c == '*' || c == '[' || c == ']' || c == '(' || c == ')' || c == '~'
            || c == '`' || c == '>' || c == '#' || c == '+' || c == '-' || c == '=' || c == '|'
            || c == '{' || c == '}' || c == '.' || c == '!' {
            push_char(&mut out, '\\');
            push_char(&mut out, c);
        } else {
            push_char(&mut out, c);
        }
        proof {
            assert(text@.take(i + 1).drop_last() =~= text@.take(i as int));
            assert(text@.take(i + 1).last() == text@[i as int]);
            assert(out@ =~= spec_escape(text@.take(i + 1)));
        }
        i = i + 1;
    }
    proof {
        assert(text@.take(n as int) =~= text@);
    }
    out
}

/// The onboarding text a `/start` command is answered with, greeting the
/// sender by first name.
pub open spec fn spec_start_reply(first_name: Seq<char>) -> Seq<char> {
    "Hi "@ + first_name
        + "!\n\n🤖 Telegram ID Bot\n\nHow this bot works:\n• Send me any message to see your detailed user information\n• Forward any message to me to see both your info and the original sender's details\n• I can estimate account creation dates based on user IDs\n• All information is displayed in a clean tree format\n\nTry sending me a message or forwarding one to see it in action!"@
}

/// Builds the `/start` reply.
pub fn start_reply(first_name: &str) -> (r: String)
    ensures
        r@ == spec_start_reply(first_name@),
{
    let mut s = String::from_str("Hi ");
    s.append(first_name);
    s.append(
        "!\n\n🤖 Telegram ID Bot\n\nHow this bot works:\n• Send me any message to see your detailed user information\n• Forward any message to me to see both your info and the original sender's details\n• I can estimate account creation dates based on user IDs\n• All information is displayed in a clean tree format\n\nTry sending me a message or forwarding one to see it in action!",
    );
    s
}

/// The fixed text a `/help` command is answered with.
pub open spec fn spec_help_reply() -> Seq<char> {
    "Available commands:\n/start - Start the bot\n/help - Show this help message"@
}

/// Builds the `/help` reply.
pub fn help_reply() -> (r: String)
    ensures
        r@ == spec_help_reply(),
{
    String::from_str("Available commands:\n/start - Start the bot\n/help - Show this help message")
}

/// `p` is a prefix of `s`.
pub open spec fn spec_has_prefix(s: Seq<char>, p: Seq<char>) -> bool {
    p.len() <= s.len() && s.take(p.len() as int) == p
}

/// Decides whether `text` begins with `prefix`.
pub fn has_prefix(text: &str, prefix: &str) -> (b: bool)
    ensures
        b == spec_has_prefix(text@, prefix@),
{
    let pn: usize = prefix.unicode_len();
    let sn: usize = text.unicode_len();
    if pn > sn {
        return false;
    }
    let mut i: usize = 0;
    while i < pn
        invariant
            pn == prefix@.len(),
            sn == text@.len(),
            pn <= sn,
            i <= pn,
            forall|j: int| 0 <= j < i ==> text@[j] == prefix@[j],
        decreases pn - i,
    {
        let tc = text.get_char(i);
        let pc = prefix.get_char(i);
        if tc != pc {
            proof {
                assert(text@.take(pn as int)[i as int] != prefix@[i as int]);
            }
            return false;
        }
        i = i + 1;
    }
    proof {
        assert(text@.take(pn as int) =~= prefix@);
    }
    true
}

/// What the bot answers a message with: the onboarding text for a message
/// whose text starts with `/start`, the command list for one starting with
/// `/help`, and the metadata dump for everything else, text-free messages
/// included.
pub open spec fn spec_choose_reply(
    t: Seq<(u64, u64)>,
    text: Option<String>,
    u: UserInfo,
    c: ChatInfo,
    f: Option<ForwardInfo>,
) -> Seq<char> {
    match text {
        Option::Some(s) => if spec_has_prefix(s@, "/start"@) {
            spec_start_reply(u.first_name@)
        } else if spec_has_prefix(s@, "/help"@) {
            spec_help_reply()
        } else {
            spec_format_reply(t, u, c, f)
        },
        Option::None => spec_format_reply(t, u, c, f),
    }
}

/// Answers one message: recognizes the two commands by prefix, as the
/// transport does, and falls back to the metadata dump.
pub fn choose_reply(
    table: &AnchorTable,
    text: &Option<String>,
    user: &UserInfo,
    chat: &ChatInfo,
    forward: &Option<ForwardInfo>,
) -> (r: String)
    requires
        table.wf(),
    ensures
        r@ == spec_choose_reply(table@, *text, *user, *chat, *forward),
{
    match text {
        Option::Some(s) => {
            if has_prefix(s.as_str(), "/start") {
                start_reply(user.first_name.as_str())
            } else if has_prefix(s.as_str(), "/help") {
                help_reply()
            } else {
                format_reply(table, user, chat, forward)
            }
        },
        Option::None => format_reply(table, user, chat, forward),
    }
}

} // verus!
