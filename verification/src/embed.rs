//! A plain model of a Discord message embed: what the bot's commands show.
//! The Discord client renders it; everything in it is decided here.

use vstd::prelude::*;

verus! {

/// Red, used for error and ownership notices.
pub const COLOUR_RED: u32 = 0xE74C3C;

/// Blitz blue, used for leaderboard, team and hero cards.
pub const COLOUR_BLITZ_BLUE: u32 = 0x6FC6E2;

/// Magenta, used for the bot information card.
pub const COLOUR_MAGENTA: u32 = 0xE91E63;

/// One titled block of text inside an embed.
#[derive(Clone, Debug)]
pub struct EmbedField {
    pub name: String,
    pub value: String,
    pub inline: bool,
}

/// The content of one embed.
#[derive(Clone, Debug)]
pub struct Embed {
    pub title: Option<String>,
    pub url: Option<String>,
    pub description: Option<String>,
    pub color: Option<u32>,
    pub thumbnail: Option<String>,
    pub image: Option<String>,
    pub fields: Vec<EmbedField>,
    pub footer_text: Option<String>,
    pub footer_icon: Option<String>,
    /// Whether the embed carries the time at which it is sent.
    pub stamped: bool,
}

/// The abstract content of a field: name, value and whether it is inline.
pub type FieldModel = (Seq<char>, Seq<char>, bool);

/// The abstract content of an embed.
pub struct EmbedModel {
    pub title: Option<Seq<char>>,
    pub url: Option<Seq<char>>,
    pub description: Option<Seq<char>>,
    pub color: Option<u32>,
    pub thumbnail: Option<Seq<char>>,
    pub image: Option<Seq<char>>,
    pub fields: Seq<FieldModel>,
    pub footer_text: Option<Seq<char>>,
    pub footer_icon: Option<Seq<char>>,
    pub stamped: bool,
}

/// The characters of an optional string.
pub open spec fn opt_text(o: Option<String>) -> Option<Seq<char>> {
    match o {
        Some(s) => Some(s@),
        None => None,
    }
}

impl View for EmbedField {
    type V = FieldModel;

    open spec fn view(&self) -> FieldModel {
        (self.name@, self.value@, self.inline)
    }
}

impl View for Embed {
    type V = EmbedModel;

    open spec fn view(&self) -> EmbedModel {
        EmbedModel {
            title: opt_text(self.title),
            url: opt_text(self.url),
            description: opt_text(self.description),
            color: self.color,
            thumbnail: opt_text(self.thumbnail),
            image: opt_text(self.image),
            fields: self.fields@.map_values(|f: EmbedField| f@),
            footer_text: opt_text(self.footer_text),
            footer_icon: opt_text(self.footer_icon),
            stamped: self.stamped,
        }
    }
}

/// An embed with nothing set.
pub open spec fn blank_model() -> EmbedModel {
    EmbedModel {
        title: None,
        url: None,
        description: None,
        color: None,
        thumbnail: None,
        image: None,
        fields: Seq::empty(),
        footer_text: None,
        footer_icon: None,
        stamped: false,
    }
}

/// A copy of an optional string.
pub fn copy_opt(o: &Option<String>) -> (r: Option<String>)
    ensures
        opt_text(r) == opt_text(*o),
{
    match o {
        Some(s) => Some(s.clone()),
        None => None,
    }
}

impl EmbedField {
    /// A field with the given name, value and inline flag.
    pub fn new(name: String, value: String, inline: bool) -> (f: EmbedField)
        ensures
            f@ == (name@, value@, inline),
    {
        EmbedField { name, value, inline }
    }

    /// A copy of this field.
    pub fn duplicate(&self) -> (f: EmbedField)
        ensures
            f@ == self@,
    {
        EmbedField { name: self.name.clone(), value: self.value.clone(), inline: self.inline }
    }
}

impl Embed {
    /// An embed with nothing set.
    pub fn blank() -> (e: Embed)
        ensures
            e@ == blank_model(),
    {
        let e = Embed {
            title: None,
            url: None,
            description: None,
            color: None,
            thumbnail: None,
            image: None,
            fields: Vec::new(),
            footer_text: None,
            footer_icon: None,
            stamped: false,
        };
        assert(e@.fields =~= Seq::<FieldModel>::empty());
        e
    }

    /// A copy of this embed.
    pub fn duplicate(&self) -> (e: Embed)
        ensures
            e@ == self@,
    {
        let mut fields: Vec<EmbedField> = Vec::new();
        let n = self.fields.len();
        for i in 0..n
            invariant
                n == self.fields@.len(),
                fields@.len() == i,
                forall|j: int| 0 <= j < i ==> #[trigger] fields@[j]@ == self.fields@[j]@,
        {
            fields.push(self.fields[i].duplicate());
        }
        let e = Embed {
            title: copy_opt(&self.title),
            url: copy_opt(&self.url),
            description: copy_opt(&self.description),
            color: self.color,
            thumbnail: copy_opt(&self.thumbnail),
            image: copy_opt(&self.image),
            fields,
            footer_text: copy_opt(&self.footer_text),
            footer_icon: copy_opt(&self.footer_icon),
            stamped: self.stamped,
        };
        assert(e@.fields =~= self@.fields);
        e
    }
}

} // verus!
