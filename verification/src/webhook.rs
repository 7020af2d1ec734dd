use crate::text::{
    decimal, decimal_text, hex_u32, join, joined, parse_hex_u32, strip_prefix_char, without_prefix,
};
use vstd::prelude::*;
use vstd::string::StringExecFns;

verus! {

/// A change of the ban or mute state of a user.
pub struct BanMuteStateChange {
    pub mod_name: String,
    pub target_name: String,
    pub target_id: i32,
    pub new_state: bool,
    pub expiry: Option<i64>,
    pub reason: Option<String>,
}

/// An event that is reported to the messaging sink.
pub enum WebhookMessage {
    /// The user name.
    AuthFail(String),
    /// The user name, the number of players, the message.
    NoticeToEveryone(String, usize, String),
    /// The user name, the number of players, the message.
    NoticeToSelection(String, usize, String),
    /// The author, the target's user name, the message.
    NoticeToPerson(String, String, String),
    /// The moderator's user name, the reason.
    KickEveryone(String, String),
    /// The moderator's user name, the target's user name and account, the
    /// reason.
    KickPerson(String, String, i32, String),
    UserBanChanged(BanMuteStateChange),
    UserMuteChanged(BanMuteStateChange),
    /// The moderator's user name, the user name, whether banned, whether
    /// muted, the expiry, the reason.
    UserViolationMetaChanged(String, String, bool, bool, Option<i64>, Option<String>),
    /// The moderator's user name, the user name, the old roles, the new roles.
    UserRolesChanged(String, String, Vec<String>, Vec<String>),
    /// The moderator's user name, the user name, the old colour, the new
    /// colour.
    UserNameColorChanged(String, String, Option<String>, Option<String>),
}

pub struct WebhookAuthor {
    pub name: String,
    pub icon_url: Option<String>,
}

pub struct WebhookFooter<'a> {
    pub text: &'a str,
    pub icon_url: Option<&'a str>,
}

pub struct WebhookField<'a> {
    pub name: &'a str,
    pub value: String,
    pub inline: Option<bool>,
}

pub struct WebhookEmbed<'a> {
    pub title: String,
    pub color: Option<u32>,
    pub author: Option<WebhookAuthor>,
    pub description: Option<String>,
    pub footer: Option<WebhookFooter<'a>>,
    pub fields: Vec<WebhookField<'a>>,
}

pub struct WebhookOpts<'a> {
    pub username: Option<&'a str>,
    pub content: Option<&'a str>,
    pub embeds: Vec<WebhookEmbed<'a>>,
}

/// What a [`WebhookAuthor`] says.
pub struct AuthorModel {
    pub name: Seq<char>,
    pub icon_url: Option<Seq<char>>,
}

/// What a [`WebhookFooter`] says.
pub struct FooterModel {
    pub text: Seq<char>,
    pub icon_url: Option<Seq<char>>,
}

/// What a [`WebhookField`] says.
pub struct FieldModel {
    pub name: Seq<char>,
    pub value: Seq<char>,
    pub inline: Option<bool>,
}

/// What a [`WebhookEmbed`] says.
pub struct EmbedModel {
    pub title: Seq<char>,
    pub color: Option<u32>,
    pub author: Option<AuthorModel>,
    pub description: Option<Seq<char>>,
    pub footer: Option<FooterModel>,
    pub fields: Seq<FieldModel>,
}

impl View for WebhookAuthor {
    type V = AuthorModel;

    open spec fn view(&self) -> AuthorModel {
        AuthorModel {
            name: self.name@,
            icon_url: match self.icon_url {
                Some(url) => Some(url@),
                None => None,
            },
        }
    }
}

impl<'a> View for WebhookFooter<'a> {
    type V = FooterModel;

    open spec fn view(&self) -> FooterModel {
        FooterModel {
            text: self.text@,
            icon_url: match self.icon_url {
                Some(url) => Some(url@),
                None => None,
            },
        }
    }
}

impl<'a> View for WebhookField<'a> {
    type V = FieldModel;

    open spec fn view(&self) -> FieldModel {
        FieldModel { name: self.name@, value: self.value@, inline: self.inline }
    }
}

impl<'a> View for WebhookEmbed<'a> {
    type V = EmbedModel;

    open spec fn view(&self) -> EmbedModel {
        EmbedModel {
            title: self.title@,
            color: self.color,
            author: match self.author {
                Some(author) => Some(author@),
                None => None,
            },
            description: match self.description {
                Some(text) => Some(text@),
                None => None,
            },
            footer: match self.footer {
                Some(footer) => Some(footer@),
                None => None,
            },
            fields: Seq::new(self.fields@.len(), |i: int| self.fields@[i]@),
        }
    }
}

/// The colour that `color` names: a hexadecimal number, with or without a
/// leading `#`.
pub open spec fn hex_color(color: Seq<char>) -> Option<u32> {
    match without_prefix(color, '#') {
        Some(digits) => hex_u32(digits),
        None => hex_u32(color),
    }
}

/// The field that names who acted.
pub open spec fn performed_by(name: Seq<char>, inline: bool) -> FieldModel {
    FieldModel { name: "Performed by"@, value: name, inline: Some(inline) }
}

/// A field with the given name and value, shown inline or on a line of its
/// own.
pub open spec fn inline_field(name: Seq<char>, value: Seq<char>, inline: bool) -> FieldModel {
    FieldModel { name, value, inline: Some(inline) }
}

/// The author entry with the given name and no icon.
pub open spec fn author_named(name: Seq<char>) -> Option<AuthorModel> {
    Some(AuthorModel { name, icon_url: None })
}

/// When a state ends: a time stamp of the sink's notation, or never.
pub open spec fn expiry_text(expiry: Option<i64>) -> Seq<char> {
    match expiry {
        Some(seconds) => "<t:"@ + decimal_text(seconds as int) + ":f>"@,
        None => "Permanent."@,
    }
}

/// The reason, or the words that stand for a missing one.
pub open spec fn reason_text(reason: Option<String>) -> Seq<char> {
    match reason {
        Some(text) => text@,
        None => "No reason given."@,
    }
}

/// The colour's name, or the word that stands for a missing one.
pub open spec fn color_text(color: Option<String>) -> Seq<char> {
    match color {
        Some(text) => text@,
        None => "none"@,
    }
}

/// A user's name followed by the account number in brackets.
pub open spec fn name_with_id(name: Seq<char>, id: i32) -> Seq<char> {
    name + " ("@ + decimal_text(id as int) + ")"@
}

/// The texts of a list of strings.
pub open spec fn texts(items: Vec<String>) -> Seq<Seq<char>> {
    Seq::new(items@.len(), |i: int| items@[i]@)
}

/// The embed for a change of a ban or a mute. Where the state is switched on,
/// the reason and the expiry are shown; where it is switched off, only who did
/// it.
pub open spec fn state_change_embed(
    change: BanMuteStateChange,
    on_title: Seq<char>,
    off_title: Seq<char>,
    on_color: Seq<char>,
    off_color: Seq<char>,
) -> EmbedModel {
    EmbedModel {
        title: if change.new_state {
            on_title
        } else {
            off_title
        },
        color: hex_color(
            if change.new_state {
                on_color
            } else {
                off_color
            },
        ),
        author: author_named(name_with_id(change.target_name@, change.target_id)),
        description: if change.new_state {
            Some(reason_text(change.reason))
        } else {
            None
        },
        footer: None,
        fields: if change.new_state {
            seq![
                performed_by(change.mod_name@, true),
                inline_field("Expires"@, expiry_text(change.expiry), true),
            ]
        } else {
            seq![performed_by(change.mod_name@, true)]
        },
    }
}

/// The embed that reports `message`, or nothing for a message that is not
/// reported.
pub open spec fn embed_of(message: WebhookMessage) -> Option<EmbedModel> {
    match message {
        WebhookMessage::AuthFail(_) => None,
        WebhookMessage::NoticeToEveryone(username, player_count, text) => Some(
            EmbedModel {
                title: "Global notice (for "@ + decimal_text(player_count as int) + " people)"@,
                color: hex_color("#4dace8"@),
                author: None,
                description: Some(text@),
                footer: None,
                fields: seq![performed_by(username@, true)],
            },
        ),
        WebhookMessage::NoticeToSelection(username, player_count, text) => Some(
            EmbedModel {
                title: "Notice"@,
                color: hex_color("#4dace8"@),
                author: None,
                description: Some(text@),
                footer: None,
                fields: seq![
                    performed_by(username@, true),
                    inline_field(
                        "Sent to"@,
                        decimal_text(player_count as int) + " people"@,
                        true,
                    ),
                ],
            },
        ),
        WebhookMessage::NoticeToPerson(author, target, text) => Some(
            EmbedModel {
                title: "Notice for "@ + target@,
                color: hex_color("#4dace8"@),
                author: author_named(target@),
                description: Some(text@),
                footer: None,
                fields: seq![performed_by(author@, true)],
            },
        ),
        WebhookMessage::KickEveryone(username, reason) => Some(
            EmbedModel {
                title: "Kick everyone"@,
                color: hex_color("#e8d34d"@),
                author: None,
                description: Some(reason@),
                footer: None,
                fields: seq![performed_by(username@, true)],
            },
        ),
        WebhookMessage::KickPerson(mod_name, user_name, target_id, reason) => Some(
            EmbedModel {
                title: "Kick user"@,
                color: hex_color("#e8d34d"@),
                author: author_named(name_with_id(user_name@, target_id)),
                description: Some(reason@),
                footer: None,
                fields: seq![performed_by(mod_name@, true)],
            },
        ),
        WebhookMessage::UserBanChanged(change) => Some(
            state_change_embed(
                change,
                "User banned"@,
                "User unbanned"@,
                "#de3023"@,
                "31bd31"@,
            ),
        ),
        WebhookMessage::UserMuteChanged(change) => Some(
            state_change_embed(
                change,
                "User muted"@,
                "User unmuted"@,
                "#ded823"@,
                "#79bd31"@,
            ),
        ),
        WebhookMessage::UserViolationMetaChanged(
            mod_name,
            user_name,
            is_banned,
            _is_muted,
            expiry,
            reason,
        ) => Some(
            EmbedModel {
                title: (if is_banned {
                    "Ban"@
                } else {
                    "Mute"@
                }) + " state changed"@,
                color: hex_color("#de7a23"@),
                author: author_named(user_name@),
                description: None,
                footer: None,
                fields: seq![
                    performed_by(mod_name@, false),
                    inline_field("Reason"@, reason_text(reason), false),
                    inline_field("Expiration"@, expiry_text(expiry), false),
                ],
            },
        ),
        WebhookMessage::UserRolesChanged(mod_name, user_name, old_roles, new_roles) => Some(
            EmbedModel {
                title: "Role change"@,
                color: hex_color("#8b4de8"@),
                author: author_named(user_name@),
                description: None,
                footer: None,
                fields: seq![
                    performed_by(mod_name@, true),
                    inline_field("Old roles"@, joined(texts(old_roles), ", "@), true),
                    inline_field("New roles"@, joined(texts(new_roles), ", "@), true),
                ],
            },
        ),
        WebhookMessage::UserNameColorChanged(mod_name, user_name, old_color, new_color) => Some(
            EmbedModel {
                title: "Name color change"@,
                color: hex_color(
                    match new_color {
                        Some(color) => color@,
                        None => ""@,
                    },
                ),
                author: author_named(user_name@),
                description: None,
                footer: None,
                fields: seq![
                    performed_by(mod_name@, true),
                    inline_field("Old color"@, color_text(old_color), true),
                    inline_field("New color"@, color_text(new_color), true),
                ],
            },
        ),
    }
}

/// The number of a colour that is written in hexadecimal, with or without a
/// leading `#`; nothing where the rest is no such number.
pub fn hex_color_to_decimal(color: &str) -> (res: Option<u32>)
    ensures
        res == hex_color(color@),
{
    let digits = match strip_prefix_char(color, '#') {
        Some(rest) => rest,
        None => color,
    };
    parse_hex_u32(digits)
}

fn field<'a>(name: &'a str, value: String, inline: bool) -> (res: WebhookField<'a>)
    ensures
        res@ == inline_field(name@, value@, inline),
{
    WebhookField { name, value, inline: Some(inline) }
}

fn author(name: String) -> (res: Option<WebhookAuthor>)
    ensures
        res is Some,
        res->Some_0@ == author_named(name@)->Some_0,
{
    Some(WebhookAuthor { name, icon_url: None })
}

fn expiry_string(expiry: &Option<i64>) -> (res: String)
    ensures
        res@ == expiry_text(*expiry),
{
    match expiry {
        Some(seconds) => {
            let mut text = "<t:".to_owned();
            text.append(decimal(*seconds as i128).as_str());
            text.append(":f>");
            text
        },
        None => "Permanent.".to_owned(),
    }
}

fn or_words(value: &Option<String>, words: &str) -> (res: String)
    ensures
        res@ == match *value {
            Some(text) => text@,
            None => words@,
        },
{
    match value {
        Some(text) => text.clone(),
        None => words.to_owned(),
    }
}

fn name_and_id(name: &String, id: i32) -> (res: String)
    ensures
        res@ == name_with_id(name@, id),
{
    let mut text = name.clone();
    text.append(" (");
    text.append(decimal(id as i128).as_str());
    text.append(")");
    text
}

fn embed<'a>(
    title: String,
    color: Option<u32>,
    author: Option<WebhookAuthor>,
    description: Option<String>,
    fields: Vec<WebhookField<'a>>,
) -> (res: Option<WebhookEmbed<'a>>)
    ensures
        res is Some,
        res->Some_0.title == title,
        res->Some_0.color == color,
        res->Some_0.author == author,
        res->Some_0.description == description,
        res->Some_0.footer is None,
        res->Some_0.fields == fields,
{
    Some(WebhookEmbed { title, color, author, description, footer: None, fields })
}

fn state_change<'a>(
    change: &BanMuteStateChange,
    on_title: &str,
    off_title: &str,
    on_color: &str,
    off_color: &str,
) -> (res: Option<WebhookEmbed<'a>>)
    ensures
        res is Some,
        res->Some_0@ == state_change_embed(
            *change,
            on_title@,
            off_title@,
            on_color@,
            off_color@,
        ),
{
    let who = field("Performed by", change.mod_name.clone(), true);
    let res = if change.new_state {
        embed(
            on_title.to_owned(),
            hex_color_to_decimal(on_color),
            author(name_and_id(&change.target_name, change.target_id)),
            Some(or_words(&change.reason, "No reason given.")),
            vec![who, field("Expires", expiry_string(&change.expiry), true)],
        )
    } else {
        embed(
            off_title.to_owned(),
            hex_color_to_decimal(off_color),
            author(name_and_id(&change.target_name, change.target_id)),
            None,
            vec![who],
        )
    };
    assert(res->Some_0@.fields =~= state_change_embed(
        *change,
        on_title@,
        off_title@,
        on_color@,
        off_color@,
    ).fields);
    res
}

/// The embed that reports `message` to the messaging sink. A failed
/// authentication is not reported.
pub fn embed_for_message<'a>(message: &'a WebhookMessage) -> (res: Option<WebhookEmbed<'a>>)
    ensures
        res is Some <==> embed_of(*message) is Some,
        res is Some ==> res->Some_0@ == embed_of(*message)->Some_0,
{
    let res = match message {
        WebhookMessage::AuthFail(_user_name) => None,
        WebhookMessage::NoticeToEveryone(username, player_count, text) => {
            let mut title = "Global notice (for ".to_owned();
            title.append(decimal(*player_count as i128).as_str());
            title.append(" people)");
            embed(
                title,
                hex_color_to_decimal("#4dace8"),
                None,
                Some(text.clone()),
                vec![field("Performed by", username.clone(), true)],
            )
        },
        WebhookMessage::NoticeToSelection(username, player_count, text) => {
            let mut sent_to = decimal(*player_count as i128);
            sent_to.append(" people");
            embed(
                "Notice".to_owned(),
                hex_color_to_decimal("#4dace8"),
                None,
                Some(text.clone()),
                vec![
                    field("Performed by", username.clone(), true),
                    field("Sent to", sent_to, true),
                ],
            )
        },
        WebhookMessage::NoticeToPerson(sender, target, text) => {
            let mut title = "Notice for ".to_owned();
            title.append(target.as_str());
            embed(
                title,
                hex_color_to_decimal("#4dace8"),
                author(target.clone()),
                Some(text.clone()),
                vec![field("Performed by", sender.clone(), true)],
            )
        },
        WebhookMessage::KickEveryone(username, reason) => embed(
            "Kick everyone".to_owned(),
            hex_color_to_decimal("#e8d34d"),
            None,
            Some(reason.clone()),
            vec![field("Performed by", username.clone(), true)],
        ),
        WebhookMessage::KickPerson(mod_name, user_name, target_id, reason) => embed(
            "Kick user".to_owned(),
            hex_color_to_decimal("#e8d34d"),
            author(name_and_id(user_name, *target_id)),
            Some(reason.clone()),
            vec![field("Performed by", mod_name.clone(), true)],
        ),
        WebhookMessage::UserBanChanged(change) => state_change(
            change,
            "User banned",
            "User unbanned",
            "#de3023",
            "31bd31",
        ),
        WebhookMessage::UserMuteChanged(change) => state_change(
            change,
            "User muted",
            "User unmuted",
            "#ded823",
            "#79bd31",
        ),
        WebhookMessage::UserViolationMetaChanged(
            mod_name,
            user_name,
            is_banned,
            _is_muted,
            expiry,
            reason,
        ) => {
            let mut title = if *is_banned {
                "Ban".to_owned()
            } else {
                "Mute".to_owned()
            };
            title.append(" state changed");
            embed(
                title,
                hex_color_to_decimal("#de7a23"),
                author(user_name.clone()),
                None,
                vec![
                    field("Performed by", mod_name.clone(), false),
                    field("Reason", or_words(reason, "No reason given."), false),
                    field("Expiration", expiry_string(expiry), false),
                ],
            )
        },
        WebhookMessage::UserRolesChanged(mod_name, user_name, old_roles, new_roles) => embed(
            "Role change".to_owned(),
            hex_color_to_decimal("#8b4de8"),
            author(user_name.clone()),
            None,
            vec![
                field("Performed by", mod_name.clone(), true),
                field("Old roles", join(old_roles, ", "), true),
                field("New roles", join(new_roles, ", "), true),
            ],
        ),
        WebhookMessage::UserNameColorChanged(mod_name, user_name, old_color, new_color) => {
            let color = match new_color {
                Some(name) => hex_color_to_decimal(name.as_str()),
                None => hex_color_to_decimal(""),
            };
            embed(
                "Name color change".to_owned(),
                color,
                author(user_name.clone()),
                None,
                vec![
                    field("Performed by", mod_name.clone(), true),
                    field("Old color", or_words(old_color, "none"), true),
                    field("New color", or_words(new_color, "none"), true),
                ],
            )
        },
    };
    proof {
        if res is Some {
            assert(res->Some_0@.fields =~= embed_of(*message)->Some_0.fields);
        }
    }
    res
}

} // verus!
