//! A rich embed, as the bot composes it before handing it to Discord.

use vstd::prelude::*;

verus! {

/// One field of an embed.
pub struct EmbedField {
    pub name: String,
    pub value: String,
    pub inline: bool,
}

/// The contents of an embed field.
#[verifier::ext_equal]
pub struct FieldView {
    pub name: Seq<char>,
    pub value: Seq<char>,
    pub inline: bool,
}

/// A rich embed: each part is absent until it is set, and fields are kept in
/// the order in which they were added.
pub struct Embed {
    pub color: Option<u32>,
    pub title: Option<String>,
    pub description: Option<String>,
    pub thumbnail: Option<String>,
    pub footer: Option<String>,
    pub fields: Vec<EmbedField>,
}

/// The contents of an embed.
#[verifier::ext_equal]
pub struct EmbedView {
    pub color: Option<u32>,
    pub title: Option<Seq<char>>,
    pub description: Option<Seq<char>>,
    pub thumbnail: Option<Seq<char>>,
    pub footer: Option<Seq<char>>,
    pub fields: Seq<FieldView>,
}

impl View for EmbedField {
    type V = FieldView;

    open spec fn view(&self) -> FieldView {
        FieldView { name: self.name@, value: self.value@, inline: self.inline }
    }
}

impl View for Embed {
    type V = EmbedView;

    open spec fn view(&self) -> EmbedView {
        EmbedView {
            color: self.color,
            title: self.title.deep_view(),
            description: self.description.deep_view(),
            thumbnail: self.thumbnail.deep_view(),
            footer: self.footer.deep_view(),
            fields: self.fields@.map_values(|f: EmbedField| f@),
        }
    }
}

/// The contents of a field.
pub open spec fn field_view(name: Seq<char>, value: Seq<char>, inline: bool) -> FieldView {
    FieldView { name, value, inline }
}

/// The contents of an embed that has nothing set.
pub open spec fn empty_embed() -> EmbedView {
    EmbedView {
        color: None,
        title: None,
        description: None,
        thumbnail: None,
        footer: None,
        fields: Seq::empty(),
    }
}

impl Embed {
    /// An embed with nothing set.
    pub fn new() -> (e: Embed)
        ensures
            e@ == empty_embed(),
    {
        let e = Embed {
            color: None,
            title: None,
            description: None,
            thumbnail: None,
            footer: None,
            fields: Vec::new(),
        };
        e
    }

    /// Sets the colour of the embed's left edge.
    pub fn color(&mut self, color: u32)
        ensures
            final(self)@ == (EmbedView { color: Some(color), ..old(self)@ }),
    {
        self.color = Some(color);
    }

    /// Sets the title.
    pub fn title(&mut self, title: String)
        ensures
            final(self)@ == (EmbedView { title: Some(title@), ..old(self)@ }),
    {
        self.title = Some(title);
    }

    /// Sets the description.
    pub fn description(&mut self, description: String)
        ensures
            final(self)@ == (EmbedView { description: Some(description@), ..old(self)@ }),
    {
        self.description = Some(description);
    }

    /// Sets the URL of the thumbnail picture.
    pub fn thumbnail(&mut self, url: String)
        ensures
            final(self)@ == (EmbedView { thumbnail: Some(url@), ..old(self)@ }),
    {
        self.thumbnail = Some(url);
    }

    /// Sets the footer text.
    pub fn footer(&mut self, text: String)
        ensures
            final(self)@ == (EmbedView { footer: Some(text@), ..old(self)@ }),
    {
        self.footer = Some(text);
    }

    /// Adds a field after those already there.
    pub fn field(&mut self, name: String, value: String, inline: bool)
        ensures
            final(self)@ == (EmbedView {
                fields: old(self)@.fields.push(field_view(name@, value@, inline)),
                ..old(self)@
            }),
    {
        let ghost old_fields = self.fields@;
        let f = EmbedField { name, value, inline };
        self.fields.push(f);
        assert(self.fields@.map_values(|f: EmbedField| f@) =~= old_fields.map_values(
            |f: EmbedField| f@,
        ).push(f@));
    }
}

} // verus!
