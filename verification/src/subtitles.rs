//! Subtitle fonts and subtitle tracks.

use vstd::prelude::*;
use vstd::string::*;

verus! {

#[derive(Debug, Clone, Copy, PartialEq, Eq, Structural)]
/// A font family.
pub enum Family {
    Normal,
    Sans,
    Serif,
    Monospace,
}

impl Family {
    /// The name of the family as the backend spells it.
    pub open spec fn text(self) -> Seq<char> {
        match self {
            Family::Normal => "Normal"@,
            Family::Sans => "Sans"@,
            Family::Serif => "Serif"@,
            Family::Monospace => "Monospace"@,
        }
    }

    /// Returns a str representation of the [`Family`].
    pub fn to_str<'a>(self) -> (s: &'a str)
        ensures
            s@ == self.text(),
    {
        match self {
            Self::Normal => "Normal",
            Self::Sans => "Sans",
            Self::Serif => "Serif",
            Self::Monospace => "Monospace",
        }
    }
}

impl Default for Family {
    fn default() -> (r: Family)
        ensures
            r == Family::Sans,
    {
        Family::Sans
    }
}

#[derive(Debug, Clone, Copy, PartialEq, Eq, Structural)]
/// The style of the subtitle text.
pub enum Style {
    Normal,
    Oblique,
    Italic,
}

impl Style {
    /// The name of the style as the backend spells it.
    pub open spec fn text(self) -> Seq<char> {
        match self {
            Style::Normal => "Normal"@,
            Style::Oblique => "Oblique"@,
            Style::Italic => "Italic"@,
        }
    }

    /// Returns a str representation of the [`Style`].
    pub fn to_str<'a>(self) -> (s: &'a str)
        ensures
            s@ == self.text(),
    {
        match self {
            Self::Normal => "Normal",
            Self::Italic => "Italic",
            Self::Oblique => "Oblique",
        }
    }
}

impl Default for Style {
    fn default() -> (r: Style)
        ensures
            r == Style::Normal,
    {
        Style::Normal
    }
}

#[derive(Debug, Clone, Copy, PartialEq, Eq, Structural)]
/// The weight of the subtitle text.
pub enum Weight {
    Thin,
    Light,
    Regular,
    Medium,
    SemiBold,
    Bold,
    Black,
    Heavy,
}

impl Weight {
    /// The name of the weight as the backend spells it.
    pub open spec fn text(self) -> Seq<char> {
        match self {
            Weight::Thin => "Thin"@,
            Weight::Light => "Light"@,
            Weight::Regular => "Regular"@,
            Weight::Medium => "Medium"@,
            Weight::SemiBold => "SemiBold"@,
            Weight::Bold => "Bold"@,
            Weight::Black => "Black"@,
            Weight::Heavy => "Heavy"@,
        }
    }

    /// Returns a str representation of the [`Weight`].
    pub fn to_str<'a>(self) -> (s: &'a str)
        ensures
            s@ == self.text(),
    {
        match self {
            Self::Thin => "Thin",
            Self::Light => "Light",
            Self::Regular => "Regular",
            Self::Medium => "Medium",
            Self::SemiBold => "SemiBold",
            Self::Bold => "Bold",
            Self::Black => "Black",
            Self::Heavy => "Heavy",
        }
    }
}

impl Default for Weight {
    fn default() -> (r: Weight)
        ensures
            r == Weight::Medium,
    {
        Weight::Medium
    }
}

/// The character of a decimal digit.
pub open spec fn digit(d: int) -> char {
    if d == 0 {
        '0'
    } else if d == 1 {
        '1'
    } else if d == 2 {
        '2'
    } else if d == 3 {
        '3'
    } else if d == 4 {
        '4'
    } else if d == 5 {
        '5'
    } else if d == 6 {
        '6'
    } else if d == 7 {
        '7'
    } else if d == 8 {
        '8'
    } else {
        '9'
    }
}

/// A number in decimal, without leading zeros.
pub open spec fn decimal(n: nat) -> Seq<char>
    decreases n,
{
    if n < 10 {
        seq![digit(n as int)]
    } else {
        decimal(n / 10).push(digit((n % 10) as int))
    }
}

/// The one-character string of a decimal digit.
fn digit_str(d: u8) -> (s: &'static str)
    requires
        d < 10,
    ensures
        s@ == seq![digit(d as int)],
{
    proof {
        reveal_strlit("0");
        reveal_strlit("1");
        reveal_strlit("2");
        reveal_strlit("3");
        reveal_strlit("4");
        reveal_strlit("5");
        reveal_strlit("6");
        reveal_strlit("7");
        reveal_strlit("8");
        reveal_strlit("9");
    }
    let s = match d {
        0 => "0",
        1 => "1",
        2 => "2",
        3 => "3",
        4 => "4",
        5 => "5",
        6 => "6",
        7 => "7",
        8 => "8",
        _ => "9",
    };
    assert(s@ =~= seq![digit(d as int)]);
    s
}

/// Appends `n` in decimal to `out`.
fn push_decimal(out: &mut String, n: u8)
    ensures
        final(out)@ == old(out)@ + decimal(n as nat),
{
    let ghost start = out@;
    if n >= 100 {
        out.append(digit_str(n / 100));
    }
    if n >= 10 {
        out.append(digit_str((n / 10) % 10));
    }
    out.append(digit_str(n % 10));
    proof {
        reveal_with_fuel(decimal, 3);
        assert(out@ =~= start + decimal(n as nat));
    }
}

#[derive(Debug, Clone, Copy, PartialEq, Eq, Structural)]
/// Font rendering options for subtitles.
pub struct SubtitleFontDescription {
    pub family: Family,
    pub style: Style,
    pub weight: Weight,
    pub size: u8,
}

impl Default for SubtitleFontDescription {
    fn default() -> (r: SubtitleFontDescription)
        ensures
            r == SubtitleFontDescription::standard(),
    {
        Self {
            size: 12,
            family: Family::default(),
            style: Style::default(),
            weight: Weight::default(),
        }
    }
}

impl SubtitleFontDescription {
    /// The description that subtitles have unless another is set: the
    /// default family, style and weight at size 12.
    pub open spec fn standard() -> SubtitleFontDescription {
        SubtitleFontDescription {
            family: Family::Sans,
            style: Style::Normal,
            weight: Weight::Medium,
            size: 12,
        }
    }

    /// The description as the backend reads it: family, style, weight and
    /// size, with one space between each two.
    pub open spec fn text(self) -> Seq<char> {
        self.family.text() + seq![' '] + self.style.text() + seq![' '] + self.weight.text()
            + seq![' '] + decimal(self.size as nat)
    }

    /// Renders the description as the backend reads it.
    pub fn to_string(&self) -> (s: String)
        ensures
            s@ == self.text(),
    {
        proof {
            reveal_strlit(" ");
        }
        let mut s = String::from_str(self.family.to_str());
        s.append(" ");
        s.append(self.style.to_str());
        s.append(" ");
        s.append(self.weight.to_str());
        s.append(" ");
        push_decimal(&mut s, self.size);
        assert(s@ =~= self.text());
        s
    }
}

/// What a [`TextTag`] stands for.
pub struct TextTagView {
    pub id: int,
    pub language_code: Seq<char>,
}

#[derive(Debug, Clone)]
/// Subtitle meta data.
pub struct TextTag {
    id: i32,
    /// The language of the subtitle.
    pub language_code: String,
}

impl View for TextTag {
    type V = TextTagView;

    closed spec fn view(&self) -> TextTagView {
        TextTagView { id: self.id as int, language_code: self.language_code@ }
    }
}

impl TextTag {
    /// The tag of track `id` in the language `language_code`.
    pub fn new(id: i32, language_code: String) -> (tag: TextTag)
        ensures
            tag@ == (TextTagView { id: id as int, language_code: language_code@ }),
    {
        TextTag { id, language_code }
    }

    /// The number of the track among the text tracks of the media.
    pub fn id(&self) -> (id: i32)
        ensures
            id == self@.id,
    {
        self.id
    }

    /// The language of the track.
    pub fn language(&self) -> (code: &String)
        ensures
            code@ == self@.language_code,
    {
        &self.language_code
    }
}

/// The tags of the tracks whose language is known, in the order of the
/// tracks. `languages[i]` is the language of track `i`.
pub open spec fn tagged_tracks(languages: Seq<Option<String>>) -> Seq<TextTagView>
    decreases languages.len(),
{
    if languages.len() == 0 {
        seq![]
    } else {
        let earlier = tagged_tracks(languages.drop_last());
        match languages.last() {
            Some(code) => earlier.push(
                TextTagView { id: languages.len() - 1, language_code: code@ },
            ),
            None => earlier,
        }
    }
}

/// The views of a list of tags.
pub open spec fn tag_views(tags: Seq<TextTag>) -> Seq<TextTagView> {
    tags.map_values(|t: TextTag| t@)
}

/// Every tagged track has a known language, and the tags are in the order of
/// the tracks.
pub proof fn lemma_tagged_tracks(languages: Seq<Option<String>>)
    ensures
        tagged_tracks(languages).len() <= languages.len(),
        forall|k: int|
            0 <= k < tagged_tracks(languages).len() ==> {
                let id = (#[trigger] tagged_tracks(languages)[k]).id;
                &&& 0 <= id < languages.len()
                &&& languages[id] matches Some(code)
                &&& code@ == tagged_tracks(languages)[k].language_code
            },
        forall|j: int, k: int|
            0 <= j < k < tagged_tracks(languages).len() ==> (#[trigger] tagged_tracks(
                languages,
            )[j]).id < (#[trigger] tagged_tracks(languages)[k]).id,
        forall|i: int|
            0 <= i < languages.len() && languages[i] is Some ==> exists|k: int|
                0 <= k < tagged_tracks(languages).len() && (#[trigger] tagged_tracks(
                    languages,
                )[k]).id == i,
    decreases languages.len(),
{
    if languages.len() > 0 {
        let init = languages.drop_last();
        lemma_tagged_tracks(init);
        let earlier = tagged_tracks(init);
        let all = tagged_tracks(languages);
        assert forall|i: int| 0 <= i < languages.len() && languages[i] is Some implies exists|
            k: int,
        |
            0 <= k < all.len() && (#[trigger] all[k]).id == i by {
            if i < init.len() {
                assert(init[i] == languages[i]);
                let k = choose|k: int| 0 <= k < earlier.len() && (#[trigger] earlier[k]).id == i;
                assert(all[k] == earlier[k]);
            } else {
                assert(all[all.len() - 1].id == i);
            }
        }
    }
}

/// Lists the subtitle tracks whose language is known. `languages[i]` is the
/// language that the media reports for its text track `i`, if any.
pub fn text_tracks(languages: &Vec<Option<String>>) -> (tags: Vec<TextTag>)
    requires
        languages@.len() <= i32::MAX,
    ensures
        tag_views(tags@) == tagged_tracks(languages@),
{
    let mut tags: Vec<TextTag> = Vec::new();
    let mut i: usize = 0;
    assert(languages@.take(0) =~= Seq::empty());
    assert(tag_views(tags@) =~= tagged_tracks(languages@.take(0)));
    while i < languages.len()
        invariant
            i <= languages@.len() <= i32::MAX,
            tag_views(tags@) == tagged_tracks(languages@.take(i as int)),
        decreases languages@.len() - i,
    {
        let ghost before = tags@;
        assert(languages@.take(i + 1).drop_last() =~= languages@.take(i as int));
        match &languages[i] {
            Some(code) => {
                let tag = TextTag::new(i as i32, code.clone());
                tags.push(tag);
                assert(tag_views(tags@) =~= tag_views(before).push(tag@));
            },
            None => {},
        }
        i = i + 1;
    }
    assert(languages@.take(i as int) =~= languages@);
    tags
}

/// The tag of the selected track, if its language is known.
pub fn selected_track(id: i32, language: Option<String>) -> (tag: Option<TextTag>)
    ensures
        match language {
            Some(code) => tag matches Some(t) && t@ == (TextTagView {
                id: id as int,
                language_code: code@,
            }),
            None => tag is None,
        },
{
    match language {
        Some(code) => Some(TextTag::new(id, code)),
        None => None,
    }
}

} // verus!
