//! The messages the bot sends, as plain values: rich embeds and text replies.
use vstd::prelude::*;

verus! {

/// The colour strip of an embed.
#[derive(Clone, Copy, PartialEq, Eq, Structural, Debug)]
pub enum Colour {
    Positive,
    Danger,
    Warning,
}

/// A titled field of an embed.
pub struct Field {
    pub name: String,
    pub value: String,
    pub inline: bool,
}

/// The footer of an embed: a text and an icon.
pub struct Footer {
    pub text: String,
    pub icon_url: String,
}

/// A rich embed.
pub struct Embed {
    pub title: String,
    pub description: Option<String>,
    pub colour: Colour,
    pub fields: Vec<Field>,
    pub footer: Option<Footer>,
    pub thumbnail: Option<String>,
    /// Whether the embed carries the time it was sent.
    pub timestamp: bool,
}

/// What the bot answers to a message.
pub enum Reply {
    /// A message with one embed.
    Embed(Embed),
    /// A text message.
    Text(String),
    /// A text message that mentions nobody.
    Quiet(String),
}

#[verifier::ext_equal]
pub struct FieldView {
    pub name: Seq<char>,
    pub value: Seq<char>,
    pub inline: bool,
}

#[verifier::ext_equal]
pub struct EmbedView {
    pub title: Seq<char>,
    pub description: Option<Seq<char>>,
    pub colour: Colour,
    pub fields: Seq<FieldView>,
    pub footer: Option<(Seq<char>, Seq<char>)>,
    pub thumbnail: Option<Seq<char>>,
    pub timestamp: bool,
}

pub enum ReplyView {
    Embed(EmbedView),
    Text(Seq<char>),
    Quiet(Seq<char>),
}

pub open spec fn opt_view(s: Option<String>) -> Option<Seq<char>> {
    match s {
        Some(t) => Some(t@),
        None => None,
    }
}

impl View for Field {
    type V = FieldView;

    open spec fn view(&self) -> FieldView {
        FieldView { name: self.name@, value: self.value@, inline: self.inline }
    }
}

impl View for Embed {
    type V = EmbedView;

    open spec fn view(&self) -> EmbedView {
        EmbedView {
            title: self.title@,
            description: opt_view(self.description),
            colour: self.colour,
            fields: self.fields@.map_values(|f: Field| f@),
            footer: match self.footer {
                Some(f) => Some((f.text@, f.icon_url@)),
                None => None,
            },
            thumbnail: opt_view(self.thumbnail),
            timestamp: self.timestamp,
        }
    }
}

impl View for Reply {
    type V = ReplyView;

    open spec fn view(&self) -> ReplyView {
        match self {
            Reply::Embed(e) => ReplyView::Embed(e@),
            Reply::Text(t) => ReplyView::Text(t@),
            Reply::Quiet(t) => ReplyView::Quiet(t@),
        }
    }
}

/// An embed with a title and a colour and nothing else.
pub open spec fn titled(title: Seq<char>, colour: Colour) -> EmbedView {
    EmbedView {
        title,
        description: None,
        colour,
        fields: Seq::empty(),
        footer: None,
        thumbnail: None,
        timestamp: false,
    }
}

pub open spec fn described(e: EmbedView, d: Seq<char>) -> EmbedView {
    EmbedView { description: Some(d), ..e }
}

pub open spec fn with_field(e: EmbedView, name: Seq<char>, value: Seq<char>, inline: bool) -> EmbedView {
    EmbedView { fields: e.fields.push(FieldView { name, value, inline }), ..e }
}

pub open spec fn with_footer(e: EmbedView, text: Seq<char>, icon_url: Seq<char>) -> EmbedView {
    EmbedView { footer: Some((text, icon_url)), ..e }
}

pub open spec fn with_thumbnail(e: EmbedView, url: Seq<char>) -> EmbedView {
    EmbedView { thumbnail: Some(url), ..e }
}

pub open spec fn with_timestamp(e: EmbedView) -> EmbedView {
    EmbedView { timestamp: true, ..e }
}

/// An embed of the given title and colour, with text `d`: the shape of most replies.
pub open spec fn notice(title: Seq<char>, d: Seq<char>, colour: Colour) -> EmbedView {
    described(titled(title, colour), d)
}

impl Embed {
    /// An embed with a title and a colour.
    pub fn new(title: String, colour: Colour) -> (r: Embed)
        ensures
            r@ == titled(title@, colour),
    {
        let r = Embed {
            title,
            description: None,
            colour,
            fields: Vec::new(),
            footer: None,
            thumbnail: None,
            timestamp: false,
        };
        assert(r@.fields =~= Seq::<FieldView>::empty());
        r
    }

    /// The embed with its text set to `d`.
    pub fn description(self, d: String) -> (r: Embed)
        ensures
            r@ == described(self@, d@),
    {
        let mut r = self;
        r.description = Some(d);
        r
    }

    /// The embed with one more field.
    pub fn field(self, name: String, value: String, inline: bool) -> (r: Embed)
        ensures
            r@ == with_field(self@, name@, value@, inline),
    {
        let mut r = self;
        let ghost before = r.fields@;
        r.fields.push(Field { name, value, inline });
        assert(r.fields@.map_values(|f: Field| f@) =~= before.map_values(|f: Field| f@).push(
            FieldView { name: name@, value: value@, inline },
        ));
        r
    }

    /// The embed with a footer.
    pub fn footer(self, text: String, icon_url: String) -> (r: Embed)
        ensures
            r@ == with_footer(self@, text@, icon_url@),
    {
        let mut r = self;
        r.footer = Some(Footer { text, icon_url });
        r
    }

    /// The embed with a thumbnail.
    pub fn thumbnail(self, url: String) -> (r: Embed)
        ensures
            r@ == with_thumbnail(self@, url@),
    {
        let mut r = self;
        r.thumbnail = Some(url);
        r
    }

    /// The embed stamped with the time it is sent.
    pub fn timestamp_now(self) -> (r: Embed)
        ensures
            r@ == with_timestamp(self@),
    {
        let mut r = self;
        r.timestamp = true;
        r
    }
}

/// An embed of the given title, text and colour.
pub fn notice_embed(title: String, d: String, colour: Colour) -> (r: Embed)
    ensures
        r@ == notice(title@, d@, colour),
{
    Embed::new(title, colour).description(d)
}

/// A string holding `s`.
pub fn owned(s: &str) -> (r: String)
    ensures
        r@ == s@,
{
    s.to_owned()
}

} // verus!
