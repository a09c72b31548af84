//! Messages to a Teams channel: the card that carries one, and what the
//! channel's answer means.

use crate::json::{
    array_of, item_views, member_pairs, no_members, object_of, push_member, Json, JsonValue,
};
use crate::text::{
    byte_len, decimal_text, is_blank, is_blank_text, owned, push_decimal, push_text,
};
use vstd::prelude::*;
use vstd::utf8::{decode_utf8, encode_utf8, encode_utf8_decode_utf8, is_char_boundary};

verus! {

/// The bytes of a message's text that are sent at most.
pub const TEAMS_TEXT_LIMIT: usize = 24000;

/// Whether the text `content` can be cut to the limit: it is short enough, or
/// the limit falls between two of its characters.
pub open spec fn can_cut(content: Seq<char>) -> bool {
    byte_len(content) <= 24000 || is_char_boundary(encode_utf8(content), 24000)
}

/// The text that is sent for `content`: all of it, or, where it is longer
/// than the limit, its first bytes up to the limit and a note of its length.
pub open spec fn teams_text(content: Seq<char>) -> Seq<char> {
    if byte_len(content) > 24000 {
        decode_utf8(encode_utf8(content).subrange(0, 24000)) + "...\n\n(truncated — original length: "@
            + decimal_text(byte_len(content) as nat) + " chars)"@
    } else {
        content
    }
}

/// The text that is sent for `content`.
pub fn truncate_for_teams(content: &str) -> (r: String)
    requires
        can_cut(content@),
    ensures
        r@ == teams_text(content@),
{
    let length = content.len();
    if length > 24000 {
        let (head, _) = content.split_at(24000);
        proof {
            encode_utf8_decode_utf8(head@);
        }
        let mut r = owned(head);
        push_text(&mut r, "...\n\n(truncated — original length: ");
        push_decimal(&mut r, length as u128);
        push_text(&mut r, " chars)");
        r
    } else {
        owned(content)
    }
}

/// The text that is sent for `content`, or nothing where the limit falls
/// inside one of its characters.
pub fn teams_message_text(content: &str) -> (r: Option<String>)
    ensures
        r is Some <==> can_cut(content@),
        r matches Some(text) ==> text@ == teams_text(content@),
{
    if content.len() <= 24000 || content.is_char_boundary(24000) {
        Some(truncate_for_teams(content))
    } else {
        None
    }
}

/// A block of text of a card, with the settings `settings` after its type and
/// text.
pub open spec fn text_block(text: Seq<char>, settings: Seq<(Seq<char>, JsonValue)>) -> JsonValue {
    JsonValue::Object(
        seq![("type"@, JsonValue::Text("TextBlock"@)), ("text"@, JsonValue::Text(text))]
            + settings,
    )
}

/// The body of the card: the title in bold, the text, and a footer.
pub open spec fn card_body(title: Seq<char>, text: Seq<char>) -> JsonValue {
    JsonValue::Array(
        seq![
            text_block(
                title,
                seq![
                    ("weight"@, JsonValue::Text("Bolder"@)),
                    ("size"@, JsonValue::Text("Medium"@)),
                    ("wrap"@, JsonValue::Bool(true)),
                ],
            ),
            text_block(
                text,
                seq![("wrap"@, JsonValue::Bool(true)), ("fontType"@, JsonValue::Text("Default"@))],
            ),
            text_block(
                "— Sent from Codex WUI"@,
                seq![
                    ("isSubtle"@, JsonValue::Bool(true)),
                    ("size"@, JsonValue::Text("Small"@)),
                    ("horizontalAlignment"@, JsonValue::Text("Right"@)),
                ],
            ),
        ],
    )
}

/// The message that carries a card with the title `title` and the text
/// `text`.
pub open spec fn teams_payload(title: Seq<char>, text: Seq<char>) -> JsonValue {
    JsonValue::Object(
        seq![
            ("type"@, JsonValue::Text("message"@)),
            (
                "attachments"@,
                JsonValue::Array(
                    seq![
                        JsonValue::Object(
                            seq![
                                (
                                    "contentType"@,
                                    JsonValue::Text("application/vnd.microsoft.card.adaptive"@),
                                ),
                                ("contentUrl"@, JsonValue::Null),
                                (
                                    "content"@,
                                    JsonValue::Object(
                                        seq![
                                            (
                                                "$schema"@,
                                                JsonValue::Text(
                                                    "http://adaptivecards.io/schemas/adaptive-card.json"@,
                                                ),
                                            ),
                                            ("type"@, JsonValue::Text("AdaptiveCard"@)),
                                            ("version"@, JsonValue::Text("1.4"@)),
                                            ("body"@, card_body(title, text)),
                                        ],
                                    ),
                                ),
                            ],
                        ),
                    ],
                ),
            ),
        ],
    )
}

/// The first two members of a block of text.
fn block_start(text: &str) -> (r: Vec<crate::json::JsonMember>)
    ensures
        member_pairs(r@) == seq![
            ("type"@, JsonValue::Text("TextBlock"@)),
            ("text"@, JsonValue::Text(text@)),
        ],
{
    let mut members = no_members();
    push_member(&mut members, "type", Json::text("TextBlock"));
    push_member(&mut members, "text", Json::text(text));
    assert(member_pairs(members@) =~= seq![
        ("type"@, JsonValue::Text("TextBlock"@)),
        ("text"@, JsonValue::Text(text@)),
    ]);
    members
}

/// The body of the card.
fn card_body_of(title: &str, text: &str) -> (r: Json)
    ensures
        r@ == card_body(title@, text@),
{
    let mut first = block_start(title);
    let ghost start = member_pairs(first@);
    push_member(&mut first, "weight", Json::text("Bolder"));
    push_member(&mut first, "size", Json::text("Medium"));
    push_member(&mut first, "wrap", Json::Bool(true));
    assert(member_pairs(first@) =~= start + seq![
        ("weight"@, JsonValue::Text("Bolder"@)),
        ("size"@, JsonValue::Text("Medium"@)),
        ("wrap"@, JsonValue::Bool(true)),
    ]);
    let mut second = block_start(text);
    let ghost start = member_pairs(second@);
    push_member(&mut second, "wrap", Json::Bool(true));
    push_member(&mut second, "fontType", Json::text("Default"));
    assert(member_pairs(second@) =~= start + seq![
        ("wrap"@, JsonValue::Bool(true)),
        ("fontType"@, JsonValue::Text("Default"@)),
    ]);
    let mut third = block_start("— Sent from Codex WUI");
    let ghost start = member_pairs(third@);
    push_member(&mut third, "isSubtle", Json::Bool(true));
    push_member(&mut third, "size", Json::text("Small"));
    push_member(&mut third, "horizontalAlignment", Json::text("Right"));
    assert(member_pairs(third@) =~= start + seq![
        ("isSubtle"@, JsonValue::Bool(true)),
        ("size"@, JsonValue::Text("Small"@)),
        ("horizontalAlignment"@, JsonValue::Text("Right"@)),
    ]);
    let mut blocks: Vec<Json> = Vec::new();
    let a = object_of(first);
    let b = object_of(second);
    let c = object_of(third);
    let ghost views = seq![a@, b@, c@];
    blocks.push(a);
    blocks.push(b);
    blocks.push(c);
    assert(item_views(blocks@) =~= views);
    array_of(blocks)
}

/// The message that carries a card with the title `title` and the text
/// `text`.
pub fn build_teams_payload(title: &str, text: &str) -> (r: Json)
    ensures
        r@ == teams_payload(title@, text@),
{
    let mut card = no_members();
    push_member(
        &mut card,
        "$schema",
        Json::text("http://adaptivecards.io/schemas/adaptive-card.json"),
    );
    push_member(&mut card, "type", Json::text("AdaptiveCard"));
    push_member(&mut card, "version", Json::text("1.4"));
    push_member(&mut card, "body", card_body_of(title, text));
    assert(member_pairs(card@) =~= seq![
        ("$schema"@, JsonValue::Text("http://adaptivecards.io/schemas/adaptive-card.json"@)),
        ("type"@, JsonValue::Text("AdaptiveCard"@)),
        ("version"@, JsonValue::Text("1.4"@)),
        ("body"@, card_body(title@, text@)),
    ]);
    let card = object_of(card);
    let mut attachment = no_members();
    push_member(
        &mut attachment,
        "contentType",
        Json::text("application/vnd.microsoft.card.adaptive"),
    );
    push_member(&mut attachment, "contentUrl", Json::Null);
    let ghost card_view = card@;
    push_member(&mut attachment, "content", card);
    assert(member_pairs(attachment@) =~= seq![
        ("contentType"@, JsonValue::Text("application/vnd.microsoft.card.adaptive"@)),
        ("contentUrl"@, JsonValue::Null),
        ("content"@, card_view),
    ]);
    let attachment = object_of(attachment);
    let ghost attachment_view = attachment@;
    let mut attachments: Vec<Json> = Vec::new();
    attachments.push(attachment);
    assert(item_views(attachments@) =~= seq![attachment_view]);
    let mut message = no_members();
    push_member(&mut message, "type", Json::text("message"));
    push_member(&mut message, "attachments", array_of(attachments));
    assert(member_pairs(message@) =~= seq![
        ("type"@, JsonValue::Text("message"@)),
        ("attachments"@, JsonValue::Array(seq![attachment_view])),
    ]);
    object_of(message)
}

/// What came of sending a message.
#[derive(Debug, Clone, PartialEq, Eq)]
pub enum TeamsReply {
    /// The channel took it, with this status.
    Sent { status: u16 },
    /// It was not sent, or the channel refused it.
    Failed { error: String },
}

/// Whether a status says that the channel took the message.
pub open spec fn status_ok(status: u16) -> bool {
    200 <= status < 300
}

/// What the channel's answer means: the message is sent where the status is
/// one of success; else the status and the answer's text are the error.
pub fn teams_reply(status: u16, body: &str) -> (r: TeamsReply)
    ensures
        status_ok(status) ==> r == (TeamsReply::Sent { status }),
        !status_ok(status) ==> r is Failed && r->error@ == "HTTP "@ + decimal_text(status as nat)
            + ": "@ + body@,
{
    if status >= 200 && status < 300 {
        TeamsReply::Sent { status }
    } else {
        let mut error = owned("HTTP ");
        push_decimal(&mut error, status as u128);
        push_text(&mut error, ": ");
        push_text(&mut error, body);
        TeamsReply::Failed { error }
    }
}

/// What to tell of a message whose request failed with `detail`.
pub fn teams_request_failed(detail: &str) -> (r: TeamsReply)
    ensures
        r is Failed,
        r->error@ == "Request failed: "@ + detail@,
{
    let mut error = owned("Request failed: ");
    push_text(&mut error, detail);
    TeamsReply::Failed { error }
}

/// What to tell of a message for which no address is set, if none is:
/// the address `webhook_url` is blank.
pub fn teams_address_missing(webhook_url: &str) -> (r: Option<TeamsReply>)
    ensures
        r is Some <==> is_blank(webhook_url@),
        r matches Some(reply) ==> reply is Failed && reply->error@ == "Webhook URL is empty"@,
{
    if is_blank_text(webhook_url) {
        Some(TeamsReply::Failed { error: owned("Webhook URL is empty") })
    } else {
        None
    }
}

} // verus!
