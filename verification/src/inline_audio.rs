//! Inline audio results.
//!
//! A search answer is a list of inline audio results; each one carries
//! a playable URL, display metadata and the opaque id under which a
//! later selection refers back to it.  The builder collects the
//! optional pieces; `resolve` settles every default exactly as the
//! answer sent to the transport does.

use vstd::prelude::*;

verus! {

/// Builder for one inline audio result.
pub struct InlineAudio {
    id: Option<String>,
    url: String,
    text: Option<String>,
    thumbnail: Option<String>,
    mime: Option<String>,
    title: Option<String>,
    performer: Option<String>,
    duration: Option<i32>,
    button_text: Option<String>,
}

/// Mathematical model of the builder.
pub ghost struct InlineAudioModel {
    pub id: Option<Seq<char>>,
    pub url: Seq<char>,
    pub text: Option<Seq<char>>,
    pub thumbnail: Option<Seq<char>>,
    pub mime: Option<Seq<char>>,
    pub title: Option<Seq<char>>,
    pub performer: Option<Seq<char>>,
    pub duration: Option<i32>,
    pub button_text: Option<Seq<char>>,
}

/// The view of an optional string.
pub open spec fn opt_view(s: Option<String>) -> Option<Seq<char>> {
    match s {
        Some(v) => Some(v@),
        None => None,
    }
}

impl View for InlineAudio {
    type V = InlineAudioModel;

    closed spec fn view(&self) -> InlineAudioModel {
        InlineAudioModel {
            id: opt_view(self.id),
            url: self.url@,
            text: opt_view(self.text),
            thumbnail: opt_view(self.thumbnail),
            mime: opt_view(self.mime),
            title: opt_view(self.title),
            performer: opt_view(self.performer),
            duration: self.duration,
            button_text: opt_view(self.button_text),
        }
    }
}

impl InlineAudio {
    /// A result playing `url`, with nothing else set yet.
    pub fn new(url: String) -> (r: Self)
        ensures
            r@ == (InlineAudioModel {
                id: None,
                url: url@,
                text: None,
                thumbnail: None,
                mime: None,
                title: None,
                performer: None,
                duration: None,
                button_text: None,
            }),
    {
        InlineAudio {
            id: None,
            url,
            text: None,
            thumbnail: None,
            mime: None,
            title: None,
            performer: None,
            duration: None,
            button_text: None,
        }
    }

    /// Sets the opaque id a selection event will carry back.
    pub fn id(self, id: String) -> (r: Self)
        ensures
            r@ == (InlineAudioModel { id: Some(id@), ..self@ }),
    {
        InlineAudio { id: Some(id), ..self }
    }

    /// Sets the message text sent along with the media.
    pub fn text(self, text: String) -> (r: Self)
        ensures
            r@ == (InlineAudioModel { text: Some(text@), ..self@ }),
    {
        InlineAudio { text: Some(text), ..self }
    }

    /// Sets the thumbnail URL.
    pub fn thumbnail(self, thumbnail: String) -> (r: Self)
        ensures
            r@ == (InlineAudioModel { thumbnail: Some(thumbnail@), ..self@ }),
    {
        InlineAudio { thumbnail: Some(thumbnail), ..self }
    }

    /// Sets or clears the thumbnail URL.
    pub fn thumbnail_option(self, thumbnail: Option<String>) -> (r: Self)
        ensures
            r@ == (InlineAudioModel { thumbnail: opt_view(thumbnail), ..self@ }),
    {
        InlineAudio { thumbnail, ..self }
    }

    /// Sets the content type of the playable URL.
    pub fn mime(self, mime: String) -> (r: Self)
        ensures
            r@ == (InlineAudioModel { mime: Some(mime@), ..self@ }),
    {
        InlineAudio { mime: Some(mime), ..self }
    }

    /// Sets the display title.
    pub fn title(self, title: String) -> (r: Self)
        ensures
            r@ == (InlineAudioModel { title: Some(title@), ..self@ }),
    {
        InlineAudio { title: Some(title), ..self }
    }

    /// Sets the display performer.
    pub fn performer(self, performer: String) -> (r: Self)
        ensures
            r@ == (InlineAudioModel { performer: Some(performer@), ..self@ }),
    {
        InlineAudio { performer: Some(performer), ..self }
    }

    /// Sets the duration in seconds.
    pub fn duration(self, duration: i32) -> (r: Self)
        ensures
            r@ == (InlineAudioModel { duration: Some(duration), ..self@ }),
    {
        InlineAudio { duration: Some(duration), ..self }
    }

    /// Sets the label of the single inline button shown under the
    /// in-progress message.
    pub fn reply_markup(self, button_text: String) -> (r: Self)
        ensures
            r@ == (InlineAudioModel { button_text: Some(button_text@), ..self@ }),
    {
        InlineAudio { button_text: Some(button_text), ..self }
    }

    /// Settles every default: a missing id falls back to `fallback_id`
    /// (the caller draws it from the id generator), a missing content
    /// type to `"audio/mpeg"`, a missing duration to zero, a missing
    /// message text to the empty string.
    pub fn resolve(self, fallback_id: String) -> (r: ResolvedInlineAudio)
        ensures
            r@ == (ResolvedInlineAudioModel {
                id: match self@.id {
                    Some(given) => given,
                    None => fallback_id@,
                },
                url: self@.url,
                text: match self@.text {
                    Some(t) => t,
                    None => Seq::<char>::empty(),
                },
                thumbnail: self@.thumbnail,
                mime: match self@.mime {
                    Some(m) => m,
                    None => "audio/mpeg"@,
                },
                title: self@.title,
                performer: self@.performer,
                duration: match self@.duration {
                    Some(d) => d,
                    None => 0,
                },
                button_text: self@.button_text,
            }),
    {
        ResolvedInlineAudio {
            id: match self.id {
                Some(given) => given,
                None => fallback_id,
            },
            url: self.url,
            text: match self.text {
                Some(t) => t,
                None => String::new(),
            },
            thumbnail: self.thumbnail,
            mime: match self.mime {
                Some(m) => m,
                None => "audio/mpeg".to_owned(),
            },
            title: self.title,
            performer: self.performer,
            duration: match self.duration {
                Some(d) => d,
                None => 0,
            },
            button_text: self.button_text,
        }
    }
}

/// One inline audio result with every default settled, ready to be
/// turned into the transport's wire form.
pub struct ResolvedInlineAudio {
    pub id: String,
    pub url: String,
    pub text: String,
    pub thumbnail: Option<String>,
    pub mime: String,
    pub title: Option<String>,
    pub performer: Option<String>,
    pub duration: i32,
    pub button_text: Option<String>,
}

/// Mathematical model of a resolved result.
pub ghost struct ResolvedInlineAudioModel {
    pub id: Seq<char>,
    pub url: Seq<char>,
    pub text: Seq<char>,
    pub thumbnail: Option<Seq<char>>,
    pub mime: Seq<char>,
    pub title: Option<Seq<char>>,
    pub performer: Option<Seq<char>>,
    pub duration: i32,
    pub button_text: Option<Seq<char>>,
}

impl View for ResolvedInlineAudio {
    type V = ResolvedInlineAudioModel;

    open spec fn view(&self) -> ResolvedInlineAudioModel {
        ResolvedInlineAudioModel {
            id: self.id@,
            url: self.url@,
            text: self.text@,
            thumbnail: opt_view(self.thumbnail),
            mime: self.mime@,
            title: opt_view(self.title),
            performer: opt_view(self.performer),
            duration: self.duration,
            button_text: opt_view(self.button_text),
        }
    }
}

} // verus!
