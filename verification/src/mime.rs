//! The MIME types of clipboard content.
use vstd::prelude::*;

use crate::text::same_text;

verus! {

/// MIME types we handle.
#[derive(Debug)]
pub enum MimeType {
    TextPlain,
    TextPlainUtf8,
    ImagePng,
    Custom(String),
}

/// A [`MimeType`] with its text as a sequence of characters.
pub enum MimeView {
    TextPlain,
    TextPlainUtf8,
    ImagePng,
    Custom(Seq<char>),
}

impl View for MimeType {
    type V = MimeView;

    open spec fn view(&self) -> MimeView {
        match *self {
            MimeType::TextPlain => MimeView::TextPlain,
            MimeType::TextPlainUtf8 => MimeView::TextPlainUtf8,
            MimeType::ImagePng => MimeView::ImagePng,
            MimeType::Custom(s) => MimeView::Custom(s@),
        }
    }
}

impl MimeView {
    /// The name under which the type is offered and requested.
    pub open spec fn name(self) -> Seq<char> {
        match self {
            MimeView::TextPlain => "text/plain"@,
            MimeView::TextPlainUtf8 => "text/plain;charset=utf-8"@,
            MimeView::ImagePng => "image/png"@,
            MimeView::Custom(s) => s,
        }
    }

    /// The type that a name stands for.
    pub open spec fn of_name(name: Seq<char>) -> MimeView {
        if name == "text/plain"@ {
            MimeView::TextPlain
        } else if name == "text/plain;charset=utf-8"@ || name == "text/plain; charset=utf-8"@ {
            MimeView::TextPlainUtf8
        } else if name == "image/png"@ {
            MimeView::ImagePng
        } else {
            MimeView::Custom(name)
        }
    }

    /// Whether `name` is one of the three names by which X11 clients ask for text.
    pub open spec fn is_x11_text_name(name: Seq<char>) -> bool {
        name == "UTF8_STRING"@ || name == "STRING"@ || name == "TEXT"@
    }

    /// The type that a name reported by the polled Wayland clipboard stands for.
    pub open spec fn of_wayland_name(name: Seq<char>) -> MimeView {
        if MimeView::is_x11_text_name(name) || name == "text/plain;charset=utf-8"@ {
            MimeView::TextPlainUtf8
        } else if name == "text/plain"@ {
            MimeView::TextPlain
        } else if name == "image/png"@ {
            MimeView::ImagePng
        } else {
            MimeView::Custom(name)
        }
    }

    /// Whether the type is not a custom type under a name that already has a meaning.
    pub open spec fn canonical(self) -> bool {
        self matches MimeView::Custom(s) ==> {
            &&& s != "text/plain"@
            &&& s != "text/plain;charset=utf-8"@
            &&& s != "text/plain; charset=utf-8"@
            &&& s != "image/png"@
        }
    }
}

impl MimeType {
    /// The name under which the type is offered and requested.
    pub fn as_str(&self) -> (name: &str)
        ensures
            name@ == self@.name(),
    {
        match self {
            MimeType::TextPlain => "text/plain",
            MimeType::TextPlainUtf8 => "text/plain;charset=utf-8",
            MimeType::ImagePng => "image/png",
            MimeType::Custom(s) => s.as_str(),
        }
    }

    /// The type that a name stands for.
    pub fn from_mime(s: &str) -> (mime: Self)
        ensures
            mime@ == MimeView::of_name(s@),
    {
        if same_text(s, "text/plain") {
            MimeType::TextPlain
        } else if same_text(s, "text/plain;charset=utf-8") || same_text(
            s,
            "text/plain; charset=utf-8",
        ) {
            MimeType::TextPlainUtf8
        } else if same_text(s, "image/png") {
            MimeType::ImagePng
        } else {
            MimeType::Custom(s.to_string())
        }
    }
}

/// The type that a name reported by the polled Wayland clipboard stands for.
pub fn normalize_wayland_mime(mime: &str) -> (mime_type: MimeType)
    ensures
        mime_type@ == MimeView::of_wayland_name(mime@),
{
    if same_text(mime, "UTF8_STRING") || same_text(mime, "STRING") || same_text(mime, "TEXT")
        || same_text(mime, "text/plain;charset=utf-8") {
        MimeType::TextPlainUtf8
    } else if same_text(mime, "text/plain") {
        MimeType::TextPlain
    } else if same_text(mime, "image/png") {
        MimeType::ImagePng
    } else {
        MimeType::Custom(mime.to_string())
    }
}

impl Clone for MimeType {
    fn clone(&self) -> (copy: Self)
        ensures
            copy@ == self@,
    {
        match self {
            MimeType::TextPlain => MimeType::TextPlain,
            MimeType::TextPlainUtf8 => MimeType::TextPlainUtf8,
            MimeType::ImagePng => MimeType::ImagePng,
            MimeType::Custom(s) => MimeType::Custom(s.clone()),
        }
    }
}

impl PartialEq for MimeType {
    fn eq(&self, other: &Self) -> (same: bool) {
        match (self, other) {
            (MimeType::TextPlain, MimeType::TextPlain) => true,
            (MimeType::TextPlainUtf8, MimeType::TextPlainUtf8) => true,
            (MimeType::ImagePng, MimeType::ImagePng) => true,
            (MimeType::Custom(s), MimeType::Custom(t)) => same_text(s.as_str(), t.as_str()),
            _ => false,
        }
    }
}

impl vstd::std_specs::cmp::PartialEqSpecImpl for MimeType {
    open spec fn obeys_eq_spec() -> bool {
        true
    }

    open spec fn eq_spec(&self, other: &Self) -> bool {
        self@ == other@
    }
}

impl Eq for MimeType {

}

/// The names that have a meaning differ from one another, since their lengths do.
pub(crate) proof fn lemma_name_lengths()
    ensures
        "TEXT"@.len() == 4,
        "STRING"@.len() == 6,
        "image/png"@.len() == 9,
        "text/plain"@.len() == 10,
        "UTF8_STRING"@.len() == 11,
        "text/plain;charset=utf-8"@.len() == 24,
        "text/plain; charset=utf-8"@.len() == 25,
{
    reveal_strlit("TEXT");
    reveal_strlit("STRING");
    reveal_strlit("image/png");
    reveal_strlit("text/plain");
    reveal_strlit("UTF8_STRING");
    reveal_strlit("text/plain;charset=utf-8");
    reveal_strlit("text/plain; charset=utf-8");
}

/// A name that is turned into a type and back is unchanged, but for the spelling of UTF-8 text
/// with a space, which comes back without it.
pub proof fn law_name_survives(name: Seq<char>)
    requires
        name != "text/plain; charset=utf-8"@,
    ensures
        MimeView::of_name(name).name() == name,
{
}

/// The spelling of UTF-8 text with a space comes back as the one without it.
pub proof fn law_spaced_name_is_normalized()
    ensures
        MimeView::of_name("text/plain; charset=utf-8"@).name() == "text/plain;charset=utf-8"@,
{
    lemma_name_lengths();
}

/// What a name stands for is never a custom type under a name that has a meaning.
pub proof fn law_parsed_types_are_canonical(name: Seq<char>)
    ensures
        MimeView::of_name(name).canonical(),
{
}

/// A type that is turned into its name and back is unchanged, unless it is a custom type under a
/// name that already has a meaning.
pub proof fn law_type_survives(mime: MimeView)
    requires
        mime.canonical(),
    ensures
        MimeView::of_name(mime.name()) == mime,
{
    lemma_name_lengths();
}

/// Reading a name a second time, by way of its type, changes nothing more.
pub proof fn law_parsing_settles(name: Seq<char>)
    ensures
        MimeView::of_name(MimeView::of_name(name).name()) == MimeView::of_name(name),
{
    law_parsed_types_are_canonical(name);
    law_type_survives(MimeView::of_name(name));
}

/// The same holds of the names of the polled Wayland clipboard.
pub proof fn law_wayland_parsing_settles(name: Seq<char>)
    ensures
        MimeView::of_wayland_name(MimeView::of_wayland_name(name).name())
            == MimeView::of_wayland_name(name),
{
    lemma_name_lengths();
}

/// The polled Wayland clipboard's names mean what they mean elsewhere, but for the X11 names of
/// text, which are UTF-8 text only there, and the spelling with a space, which is a custom type
/// there.
pub proof fn law_wayland_names_agree(name: Seq<char>)
    ensures
        MimeView::is_x11_text_name(name) ==> MimeView::of_wayland_name(name)
            == MimeView::TextPlainUtf8 && MimeView::of_name(name) == MimeView::Custom(name),
        name == "text/plain; charset=utf-8"@ ==> MimeView::of_wayland_name(name)
            == MimeView::Custom(name) && MimeView::of_name(name) == MimeView::TextPlainUtf8,
        !MimeView::is_x11_text_name(name) && name != "text/plain; charset=utf-8"@
            ==> MimeView::of_wayland_name(name) == MimeView::of_name(name),
{
    lemma_name_lengths();
}

/// Three spellings of text and one name of images have a meaning, and every other name stands for
/// itself.
pub proof fn law_names_have_their_meaning(name: Seq<char>)
    ensures
        MimeView::of_name(name) is TextPlain <==> name == "text/plain"@,
        MimeView::of_name(name) is TextPlainUtf8 <==> name == "text/plain;charset=utf-8"@ || name
            == "text/plain; charset=utf-8"@,
        MimeView::of_name(name) is ImagePng <==> name == "image/png"@,
        MimeView::of_name(name) matches MimeView::Custom(s) ==> s == name,
{
    lemma_name_lengths();
}

/// On the polled Wayland clipboard UTF-8 text has four names, other text and images have one each,
/// and every other name stands for itself.
pub proof fn law_wayland_names_have_their_meaning(name: Seq<char>)
    ensures
        MimeView::of_wayland_name(name) is TextPlainUtf8 <==> name == "UTF8_STRING"@ || name
            == "STRING"@ || name == "TEXT"@ || name == "text/plain;charset=utf-8"@,
        MimeView::of_wayland_name(name) is TextPlain <==> name == "text/plain"@,
        MimeView::of_wayland_name(name) is ImagePng <==> name == "image/png"@,
        MimeView::of_wayland_name(name) matches MimeView::Custom(s) ==> s == name,
{
    lemma_name_lengths();
}

/// A type that is not custom has a fixed name, and a custom one the name that it was made with.
pub proof fn law_types_have_their_names(s: Seq<char>)
    ensures
        MimeView::TextPlain.name() == "text/plain"@,
        MimeView::TextPlainUtf8.name() == "text/plain;charset=utf-8"@,
        MimeView::ImagePng.name() == "image/png"@,
        MimeView::Custom(s).name() == s,
{
}

/// Two types are equal exactly if they are the same type and, where they are custom ones, have the
/// same name.  The mathematical value holds which type it is.
pub proof fn law_type_views(left: MimeType, right: MimeType, s: String)
    ensures
        MimeType::TextPlain@ == MimeView::TextPlain,
        MimeType::TextPlainUtf8@ == MimeView::TextPlainUtf8,
        MimeType::ImagePng@ == MimeView::ImagePng,
        MimeType::Custom(s)@ == MimeView::Custom(s@),
        vstd::std_specs::cmp::PartialEqSpec::eq_spec(&left, &right) <==> left@ == right@,
{
}

} // verus!
