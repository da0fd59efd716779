//! The messages that the bot posts, before they are sent.
use vstd::prelude::*;
use vstd::string::*;

use crate::number::{decimal, decimal_is_unique, decimal_text};
use crate::pattern::opt_text;

verus! {

/// The bot's plain colour.
pub const EMBED_COLOR: u32 = 0x000000;

/// The colour of refusals and alarms.
pub const RED: u32 = 0xFF0000;

/// The colour of things that worked.
pub const GREEN: u32 = 0x00FF00;

/// The colour of penalties.
pub const VERMILION: u32 = 0xFF4500;

/// The colour of remarks.
pub const ORANGE: u32 = 0xFFA500;

/// A named value in a message.
#[derive(Debug, Clone, PartialEq, Eq)]
pub struct Field {
    pub name: String,
    pub value: String,
    pub inline: bool,
}

/// A message with a frame.
#[derive(Debug, Clone, PartialEq, Eq)]
pub struct Embed {
    pub title: Option<String>,
    pub description: Option<String>,
    pub color: u32,
    /// Whether the message shows when it was sent.
    pub stamped: bool,
    pub fields: Vec<Field>,
    pub thumbnail: Option<String>,
    pub image: Option<String>,
    pub footer: Option<String>,
    pub footer_icon: Option<String>,
}

/// What a message with a frame shows.
pub ghost struct EmbedView {
    pub title: Option<Seq<char>>,
    pub description: Option<Seq<char>>,
    pub color: u32,
    pub stamped: bool,
    pub fields: Seq<(Seq<char>, Seq<char>, bool)>,
    pub thumbnail: Option<Seq<char>>,
    pub image: Option<Seq<char>>,
    pub footer: Option<Seq<char>>,
    pub footer_icon: Option<Seq<char>>,
}

impl View for Field {
    type V = (Seq<char>, Seq<char>, bool);

    open spec fn view(&self) -> (Seq<char>, Seq<char>, bool) {
        (self.name@, self.value@, self.inline)
    }
}

impl View for Embed {
    type V = EmbedView;

    open spec fn view(&self) -> EmbedView {
        EmbedView {
            title: opt_text(self.title),
            description: opt_text(self.description),
            color: self.color,
            stamped: self.stamped,
            fields: self.fields@.map_values(|f: Field| f@),
            thumbnail: opt_text(self.thumbnail),
            image: opt_text(self.image),
            footer: opt_text(self.footer),
            footer_icon: opt_text(self.footer_icon),
        }
    }
}

/// A message that shows nothing but its colour.
pub open spec fn blank(color: u32) -> EmbedView {
    EmbedView {
        title: None,
        description: None,
        color,
        stamped: false,
        fields: Seq::empty(),
        thumbnail: None,
        image: None,
        footer: None,
        footer_icon: None,
    }
}

/// A message with a title and the time.
pub open spec fn titled(title: Seq<char>, color: u32) -> EmbedView {
    EmbedView { title: Some(title), stamped: true, ..blank(color) }
}

/// A message with a title, a text and the time.
pub open spec fn note(title: Seq<char>, text: Seq<char>, color: u32) -> EmbedView {
    titled(title, color).describe(text)
}

impl EmbedView {
    pub open spec fn describe(self, text: Seq<char>) -> EmbedView {
        EmbedView { description: Some(text), ..self }
    }

    pub open spec fn field(self, name: Seq<char>, value: Seq<char>, inline: bool) -> EmbedView {
        EmbedView { fields: self.fields.push((name, value, inline)), ..self }
    }

    pub open spec fn thumbnail(self, url: Seq<char>) -> EmbedView {
        EmbedView { thumbnail: Some(url), ..self }
    }

    pub open spec fn image(self, url: Seq<char>) -> EmbedView {
        EmbedView { image: Some(url), ..self }
    }

    pub open spec fn footer(self, text: Seq<char>) -> EmbedView {
        EmbedView { footer: Some(text), ..self }
    }

    pub open spec fn footer_icon(self, url: Seq<char>) -> EmbedView {
        EmbedView { footer_icon: Some(url), ..self }
    }

    pub open spec fn unstamped(self) -> EmbedView {
        EmbedView { stamped: false, ..self }
    }

    pub open spec fn signed(self) -> EmbedView {
        self.footer("Coded by ransxmware.xyz"@)
    }
}

impl Embed {
    /// A message that shows nothing but its colour.
    pub fn blank(color: u32) -> (e: Embed)
        ensures
            e@ == blank(color),
            e.title is None && e.description is None,
            e.color == color,
            !e.stamped,
            e.fields@.len() == 0,
            e.thumbnail is None && e.image is None && e.footer is None && e.footer_icon is None,
    {
        let e = Embed {
            title: None,
            description: None,
            color,
            stamped: false,
            fields: Vec::new(),
            thumbnail: None,
            image: None,
            footer: None,
            footer_icon: None,
        };
        assert(e@.fields =~= Seq::empty());
        e
    }

    /// A message with a title and the time.
    pub fn titled(title: &str, color: u32) -> (e: Embed)
        ensures
            e@ == titled(title@, color),
            e.title matches Some(t) && t@ == title@,
            e.description is None,
            e.color == color,
            e.stamped,
            e.fields@.len() == 0,
            e.thumbnail is None && e.image is None && e.footer is None && e.footer_icon is None,
    {
        let mut e = Embed::blank(color);
        e.title = Some(title.to_string());
        e.stamped = true;
        e
    }

    /// A message with a title, a text and the time.
    pub fn note(title: &str, text: &str, color: u32) -> (e: Embed)
        ensures
            e@ == note(title@, text@, color),
            e.title matches Some(t) && t@ == title@,
            e.description matches Some(t) && t@ == text@,
            e.color == color,
            e.stamped,
            e.fields@.len() == 0,
            e.thumbnail is None && e.image is None && e.footer is None && e.footer_icon is None,
    {
        Embed::titled(title, color).describe(text)
    }

    /// Gives the message a text.
    pub fn describe(self, text: &str) -> (e: Embed)
        ensures
            e@ == self@.describe(text@),
            e.description matches Some(t) && t@ == text@,
            e.title == self.title,
            e.color == self.color,
            e.stamped == self.stamped,
            e.fields == self.fields,
            e.thumbnail == self.thumbnail,
            e.image == self.image,
            e.footer == self.footer,
            e.footer_icon == self.footer_icon,
    {
        let mut e = self;
        e.description = Some(text.to_string());
        e
    }

    /// Adds a named value.
    pub fn field(self, name: &str, value: &str, inline: bool) -> (e: Embed)
        ensures
            e@ == self@.field(name@, value@, inline),
            e.fields@.len() == self.fields@.len() + 1,
            e.fields@.drop_last() == self.fields@,
            e.fields@.last().name@ == name@,
            e.fields@.last().value@ == value@,
            e.fields@.last().inline == inline,
            e.title == self.title,
            e.description == self.description,
            e.color == self.color,
            e.stamped == self.stamped,
            e.thumbnail == self.thumbnail,
            e.image == self.image,
            e.footer == self.footer,
            e.footer_icon == self.footer_icon,
    {
        let mut e = self;
        e.fields.push(Field { name: name.to_string(), value: value.to_string(), inline });
        assert(e@.fields =~= self@.fields.push((name@, value@, inline)));
        e
    }

    /// Adds a small picture.
    pub fn thumbnail(self, url: &str) -> (e: Embed)
        ensures
            e@ == self@.thumbnail(url@),
            e.thumbnail matches Some(t) && t@ == url@,
            e.title == self.title,
            e.description == self.description,
            e.color == self.color,
            e.stamped == self.stamped,
            e.fields == self.fields,
            e.image == self.image,
            e.footer == self.footer,
            e.footer_icon == self.footer_icon,
    {
        let mut e = self;
        e.thumbnail = Some(url.to_string());
        e
    }

    /// Adds a picture.
    pub fn image(self, url: &str) -> (e: Embed)
        ensures
            e@ == self@.image(url@),
            e.image matches Some(t) && t@ == url@,
            e.title == self.title,
            e.description == self.description,
            e.color == self.color,
            e.stamped == self.stamped,
            e.fields == self.fields,
            e.thumbnail == self.thumbnail,
            e.footer == self.footer,
            e.footer_icon == self.footer_icon,
    {
        let mut e = self;
        e.image = Some(url.to_string());
        e
    }

    /// Adds a last line.
    pub fn footer(self, text: &str) -> (e: Embed)
        ensures
            e@ == self@.footer(text@),
            e.footer matches Some(t) && t@ == text@,
            e.title == self.title,
            e.description == self.description,
            e.color == self.color,
            e.stamped == self.stamped,
            e.fields == self.fields,
            e.thumbnail == self.thumbnail,
            e.image == self.image,
            e.footer_icon == self.footer_icon,
    {
        let mut e = self;
        e.footer = Some(text.to_string());
        e
    }

    /// Adds a picture to the last line.
    pub fn footer_icon(self, url: &str) -> (e: Embed)
        ensures
            e@ == self@.footer_icon(url@),
            e.footer_icon matches Some(t) && t@ == url@,
            e.title == self.title,
            e.description == self.description,
            e.color == self.color,
            e.stamped == self.stamped,
            e.fields == self.fields,
            e.thumbnail == self.thumbnail,
            e.image == self.image,
            e.footer == self.footer,
    {
        let mut e = self;
        e.footer_icon = Some(url.to_string());
        e
    }

    /// Takes the time away.
    pub fn unstamped(self) -> (e: Embed)
        ensures
            e@ == self@.unstamped(),
            !e.stamped,
            e.title == self.title,
            e.description == self.description,
            e.color == self.color,
            e.fields == self.fields,
            e.thumbnail == self.thumbnail,
            e.image == self.image,
            e.footer == self.footer,
            e.footer_icon == self.footer_icon,
    {
        let mut e = self;
        e.stamped = false;
        e
    }

    /// Adds the bot's signature.
    pub fn signed(self) -> (e: Embed)
        ensures
            e@ == self@.signed(),
            e.footer matches Some(t) && t@ == "Coded by ransxmware.xyz"@,
            e.title == self.title,
            e.description == self.description,
            e.color == self.color,
            e.stamped == self.stamped,
            e.fields == self.fields,
            e.thumbnail == self.thumbnail,
            e.image == self.image,
            e.footer_icon == self.footer_icon,
    {
        self.footer("Coded by ransxmware.xyz")
    }
}

/// How a message mentions a user.
pub open spec fn user_mention(id: u64) -> Seq<char> {
    "<@"@ + decimal(id as nat) + ">"@
}

/// How a message mentions a role.
pub open spec fn role_mention(id: u64) -> Seq<char> {
    "<@&"@ + decimal(id as nat) + ">"@
}

/// How a message mentions a channel.
pub open spec fn channel_mention(id: u64) -> Seq<char> {
    "<#"@ + decimal(id as nat) + ">"@
}

/// Mentions a user.
pub fn mention_user(id: u64) -> (s: String)
    ensures
        s@ == user_mention(id),
{
    "<@".to_string().concat(decimal_text(id as u128).as_str()).concat(">")
}

/// Mentions a role.
pub fn mention_role(id: u64) -> (s: String)
    ensures
        s@ == role_mention(id),
{
    "<@&".to_string().concat(decimal_text(id as u128).as_str()).concat(">")
}

/// Mentions a channel.
pub fn mention_channel(id: u64) -> (s: String)
    ensures
        s@ == channel_mention(id),
{
    "<#".to_string().concat(decimal_text(id as u128).as_str()).concat(">")
}

/// A text between grave accents.
pub open spec fn code(s: Seq<char>) -> Seq<char> {
    "`"@ + s + "`"@
}

/// Puts a text between grave accents.
pub fn code_text(s: &str) -> (res: String)
    ensures
        res@ == code(s@),
{
    "`".to_string().concat(s).concat("`")
}

/// A note shows its title, its text and the time, in its colour, and nothing else.
pub proof fn note_shows_title_and_text(title: Seq<char>, text: Seq<char>, color: u32)
    ensures
        ({
            let view = note(title, text, color);
            &&& view.title == Some(title)
            &&& view.description == Some(text)
            &&& view.color == color
            &&& view.stamped
            &&& view.fields.len() == 0
            &&& view.thumbnail is None && view.image is None
            &&& view.footer is None && view.footer_icon is None
            &&& titled(title, color) == (EmbedView { description: None, ..view })
        }),
{
}

/// Each piece that is added to a message is shown by it, and takes nothing away from what it showed
/// but a piece of the same sort; named values all stay, in the order in which they are added.
pub proof fn pieces_add_up(
    view: EmbedView,
    name: Seq<char>,
    value: Seq<char>,
    inline: bool,
    text: Seq<char>,
)
    ensures
        view.field(name, value, inline).fields.len() == view.fields.len() + 1,
        view.field(name, value, inline).fields.last() == (name, value, inline),
        view.field(name, value, inline).fields.drop_last() == view.fields,
        (EmbedView { fields: view.fields, ..view.field(name, value, inline) }) == view,
        view.describe(text).description == Some(text),
        (EmbedView { description: view.description, ..view.describe(text) }) == view,
        view.thumbnail(text).thumbnail == Some(text),
        (EmbedView { thumbnail: view.thumbnail, ..view.thumbnail(text) }) == view,
        view.image(text).image == Some(text),
        (EmbedView { image: view.image, ..view.image(text) }) == view,
        view.footer(text).footer == Some(text),
        (EmbedView { footer: view.footer, ..view.footer(text) }) == view,
        view.footer_icon(text).footer_icon == Some(text),
        (EmbedView { footer_icon: view.footer_icon, ..view.footer_icon(text) }) == view,
        !view.unstamped().stamped,
        (EmbedView { stamped: view.stamped, ..view.unstamped() }) == view,
{
    assert(view.fields.push((name, value, inline)).drop_last() =~= view.fields);
}

/// No two users, roles or channels are mentioned alike.
pub proof fn mentions_tell_apart(a: u64, b: u64)
    ensures
        user_mention(a) == user_mention(b) ==> a == b,
        role_mention(a) == role_mention(b) ==> a == b,
        channel_mention(a) == channel_mention(b) ==> a == b,
{
    reveal_strlit("<@");
    reveal_strlit("<@&");
    reveal_strlit("<#");
    reveal_strlit(">");
    let (x, y) = (decimal(a as nat), decimal(b as nat));
    assert(user_mention(a).subrange(2, user_mention(a).len() - 1) =~= x);
    assert(user_mention(b).subrange(2, user_mention(b).len() - 1) =~= y);
    assert(role_mention(a).subrange(3, role_mention(a).len() - 1) =~= x);
    assert(role_mention(b).subrange(3, role_mention(b).len() - 1) =~= y);
    assert(channel_mention(a).subrange(2, channel_mention(a).len() - 1) =~= x);
    assert(channel_mention(b).subrange(2, channel_mention(b).len() - 1) =~= y);
    if x == y {
        decimal_is_unique(a as nat, b as nat);
    }
}

} // verus!
