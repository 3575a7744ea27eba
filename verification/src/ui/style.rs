//! Style sheets: reusable bundles of colors and text attributes.

use vstd::prelude::*;
use crate::ui::color::Color;

verus! {

/// A single text attribute. Each one is either on or off for a piece of text.
#[derive(Copy, Clone, Debug, PartialEq, Eq, Hash, Structural)]
pub enum Attribute {
    /// Increased text intensity.
    Bold,
    /// Slanted text.
    Italic,
    /// A line under the text.
    Underlined,
}

/// A set of [`Attribute`]s.
///
/// The model of a value is the mathematical set of the attributes it holds;
/// two values are equal exactly when they hold the same attributes.
#[derive(Copy, Clone, Debug, PartialEq, Eq, Hash, Structural)]
pub struct Attributes {
    bold: bool,
    italic: bool,
    underlined: bool,
}

impl View for Attributes {
    type V = Set<Attribute>;

    closed spec fn view(&self) -> Set<Attribute> {
        Set::new(
            |a: Attribute|
                match a {
                    Attribute::Bold => self.bold,
                    Attribute::Italic => self.italic,
                    Attribute::Underlined => self.underlined,
                },
        )
    }
}

impl Attributes {
    /// The set that holds no attribute.
    pub closed spec fn spec_empty() -> Attributes {
        Attributes { bold: false, italic: false, underlined: false }
    }

    /// `self` with `attribute` switched on.
    pub closed spec fn spec_with(self, attribute: Attribute) -> Attributes {
        match attribute {
            Attribute::Bold => Attributes { bold: true, ..self },
            Attribute::Italic => Attributes { italic: true, ..self },
            Attribute::Underlined => Attributes { underlined: true, ..self },
        }
    }

    /// The attributes held by `self` or by `other`.
    pub closed spec fn union(self, other: Attributes) -> Attributes {
        Attributes {
            bold: self.bold || other.bold,
            italic: self.italic || other.italic,
            underlined: self.underlined || other.underlined,
        }
    }

    /// The set that holds no attribute.
    #[verifier::when_used_as_spec(spec_empty)]
    pub fn empty() -> (out: Attributes)
        ensures
            out == Attributes::spec_empty(),
            out@ == Set::<Attribute>::empty(),
    {
        let out = Attributes { bold: false, italic: false, underlined: false };
        assert(out@ =~= Set::<Attribute>::empty());
        out
    }

    /// Whether no attribute is held.
    pub fn is_empty(&self) -> (r: bool)
        ensures
            r <==> self@ == Set::<Attribute>::empty(),
            r <==> *self == Attributes::spec_empty(),
    {
        proof {
            Attributes::lemma_empty_view();
            Attributes::lemma_equal_views(*self, Attributes::spec_empty());
        }
        !self.bold && !self.italic && !self.underlined
    }

    /// Whether `attribute` is held.
    pub fn contains(&self, attribute: Attribute) -> (r: bool)
        ensures
            r == self@.contains(attribute),
    {
        match attribute {
            Attribute::Bold => self.bold,
            Attribute::Italic => self.italic,
            Attribute::Underlined => self.underlined,
        }
    }

    /// Adds `attribute` to the set. Adding one that is already held changes
    /// nothing.
    #[verifier::when_used_as_spec(spec_with)]
    pub fn with(self, attribute: Attribute) -> (out: Attributes)
        ensures
            out == self.spec_with(attribute),
            out@ == self@.insert(attribute),
    {
        proof {
            Attributes::lemma_with_view(self, attribute);
        }
        match attribute {
            Attribute::Bold => Attributes { bold: true, ..self },
            Attribute::Italic => Attributes { italic: true, ..self },
            Attribute::Underlined => Attributes { underlined: true, ..self },
        }
    }

    /// The empty set of attributes is modelled by the empty set.
    pub proof fn lemma_empty_view()
        ensures
            Attributes::spec_empty()@ == Set::<Attribute>::empty(),
    {
        assert(Attributes::spec_empty()@ =~= Set::<Attribute>::empty());
    }

    /// Adding an attribute inserts it into the model.
    pub proof fn lemma_with_view(s: Attributes, attribute: Attribute)
        ensures
            s.spec_with(attribute)@ == s@.insert(attribute),
    {
        assert(s.spec_with(attribute)@ =~= s@.insert(attribute));
    }

    /// The union of two values is modelled by the union of their models.
    pub proof fn lemma_union_view(s: Attributes, t: Attributes)
        ensures
            s.union(t)@ == s@.union(t@),
    {
        assert(s.union(t)@ =~= s@.union(t@));
    }

    /// Two values are equal exactly when they hold the same attributes.
    pub proof fn lemma_equal_views(s: Attributes, t: Attributes)
        ensures
            s@ == t@ <==> s == t,
    {
        if s@ == t@ {
            assert(s@.contains(Attribute::Bold) == t@.contains(Attribute::Bold));
            assert(s@.contains(Attribute::Italic) == t@.contains(Attribute::Italic));
            assert(s@.contains(Attribute::Underlined) == t@.contains(Attribute::Underlined));
        }
    }

    /// Attributes are idempotent: switching one on twice is the same as
    /// switching it on once.
    pub proof fn lemma_with_idempotent(s: Attributes, attribute: Attribute)
        ensures
            s.with(attribute).with(attribute) == s.with(attribute),
    {
    }
}

/// Style definitions that can be applied to rendered content, independent of
/// any particular text.
///
/// An unset color means "inherit what the terminal draws with", not "no
/// color".
#[derive(Copy, Clone, Debug, PartialEq, Eq)]
pub struct StyleSheet {
    /// Foreground color of the text.
    pub fg: Option<Color>,
    /// Background color of the text.
    pub bg: Option<Color>,
    /// Attributes applied to the text.
    pub att: Attributes,
}

impl StyleSheet {
    /// The style sheet with no color set and no attribute held.
    pub open spec fn spec_empty() -> StyleSheet {
        StyleSheet { fg: None, bg: None, att: Attributes::empty() }
    }

    /// `self` with the foreground color replaced by `fg`.
    pub open spec fn spec_with_fg(self, fg: Color) -> StyleSheet {
        StyleSheet { fg: Some(fg), ..self }
    }

    /// `self` with the background color replaced by `bg`.
    pub open spec fn spec_with_bg(self, bg: Color) -> StyleSheet {
        StyleSheet { bg: Some(bg), ..self }
    }

    /// `self` with `attribute` added to its attributes.
    pub open spec fn spec_with_attribute(self, attribute: Attribute) -> StyleSheet {
        StyleSheet { att: self.att.with(attribute), ..self }
    }

    /// The style that text is drawn with when `self` is applied on top of a
    /// surrounding style `base`: a color that `self` sets replaces that of
    /// `base`, a color that it leaves unset is inherited from `base`, and the
    /// attributes of both are in force.
    pub open spec fn over(self, base: StyleSheet) -> StyleSheet {
        StyleSheet {
            fg: if self.fg is Some { self.fg } else { base.fg },
            bg: if self.bg is Some { self.bg } else { base.bg },
            att: base.att.union(self.att),
        }
    }

    /// A style sheet with no colors and no attributes.
    #[verifier::when_used_as_spec(spec_empty)]
    pub fn empty() -> (out: StyleSheet)
        ensures
            out == StyleSheet::spec_empty(),
            out.fg is None,
            out.bg is None,
            out.att@ == Set::<Attribute>::empty(),
    {
        StyleSheet { fg: None, bg: None, att: Attributes::empty() }
    }

    /// Whether the style sheet sets no color and holds no attribute.
    pub fn is_empty(&self) -> (r: bool)
        ensures
            r <==> *self == StyleSheet::empty(),
    {
        self.att.is_empty() && self.bg.is_none() && self.fg.is_none()
    }

    /// Copies the style sheet to a new one set with the defined foreground
    /// color. Everything else is kept.
    #[verifier::when_used_as_spec(spec_with_fg)]
    pub fn with_fg(self, fg: Color) -> (out: StyleSheet)
        ensures
            out == (StyleSheet { fg: Some(fg), ..self }),
    {
        StyleSheet { fg: Some(fg), ..self }
    }

    /// Copies the style sheet to a new one set with the defined background
    /// color. Everything else is kept.
    #[verifier::when_used_as_spec(spec_with_bg)]
    pub fn with_bg(self, bg: Color) -> (out: StyleSheet)
        ensures
            out == (StyleSheet { bg: Some(bg), ..self }),
    {
        StyleSheet { bg: Some(bg), ..self }
    }

    /// Copies the style sheet to a new one that also holds `attribute`.
    /// Colors and the attributes already held are kept.
    #[verifier::when_used_as_spec(spec_with_attribute)]
    pub fn with_attribute(self, attribute: Attribute) -> (out: StyleSheet)
        ensures
            out.fg == self.fg,
            out.bg == self.bg,
            out.att@ == self.att@.insert(attribute),
            out == self.spec_with_attribute(attribute),
    {
        StyleSheet { att: self.att.with(attribute), ..self }
    }

    /// The empty style sheet is the identity: applied on top of any style it
    /// changes nothing, and any style applied on top of it is that style.
    pub proof fn lemma_empty_is_identity(base: StyleSheet)
        ensures
            StyleSheet::empty().over(base) == base,
            base.over(StyleSheet::empty()) == base,
    {
    }

    /// The empty style sheet is the only identity: a style sheet that leaves
    /// every surrounding style unchanged is the empty one.
    pub proof fn lemma_identity_is_empty(s: StyleSheet)
        requires
            forall|base: StyleSheet| #[trigger] s.over(base) == base,
        ensures
            s == StyleSheet::empty(),
    {
        assert(s.over(StyleSheet::empty()) == StyleSheet::empty());
    }

    /// Applying style sheets on top of one another is associative, so a
    /// nesting of styles has one meaning however it is grouped.
    pub proof fn lemma_over_associative(a: StyleSheet, b: StyleSheet, c: StyleSheet)
        ensures
            a.over(b).over(c) == a.over(b.over(c)),
    {
    }

    /// Each builder is the application of a one-field style sheet on top of
    /// the value it is called on.
    pub proof fn lemma_builders_are_overrides(s: StyleSheet, color: Color, attribute: Attribute)
        ensures
            s.with_fg(color) == StyleSheet::empty().with_fg(color).over(s),
            s.with_bg(color) == StyleSheet::empty().with_bg(color).over(s),
            s.with_attribute(attribute) == StyleSheet::empty().with_attribute(attribute).over(s),
    {
    }

    /// Setting the same color twice is the same as setting it once, and so is
    /// adding the same attribute twice.
    pub proof fn lemma_builders_idempotent(s: StyleSheet, color: Color, attribute: Attribute)
        ensures
            s.with_fg(color).with_fg(color) == s.with_fg(color),
            s.with_bg(color).with_bg(color) == s.with_bg(color),
            s.with_attribute(attribute).with_attribute(attribute) == s.with_attribute(attribute),
    {
    }

    /// The last color set wins, and setting a color leaves the other color
    /// and the attributes untouched.
    pub proof fn lemma_last_color_wins(s: StyleSheet, first: Color, second: Color)
        ensures
            s.with_fg(first).with_fg(second) == s.with_fg(second),
            s.with_fg(first).with_fg(second).fg == Some(second),
            s.with_fg(first).with_fg(second).bg == s.bg,
            s.with_fg(first).with_fg(second).att == s.att,
            s.with_bg(first).with_bg(second) == s.with_bg(second),
            s.with_bg(first).with_bg(second).bg == Some(second),
            s.with_bg(first).with_bg(second).fg == s.fg,
            s.with_bg(first).with_bg(second).att == s.att,
    {
    }

    /// Builders that touch different fields can be called in either order.
    pub proof fn lemma_builders_commute(s: StyleSheet, fg: Color, bg: Color, attribute: Attribute)
        ensures
            s.with_fg(fg).with_bg(bg) == s.with_bg(bg).with_fg(fg),
            s.with_fg(fg).with_attribute(attribute) == s.with_attribute(attribute).with_fg(fg),
            s.with_bg(bg).with_attribute(attribute) == s.with_attribute(attribute).with_bg(bg),
    {
    }
}

impl Default for StyleSheet {
    /// The empty style sheet.
    fn default() -> (out: StyleSheet)
        ensures
            out == StyleSheet::empty(),
    {
        StyleSheet::empty()
    }
}

/// A content that, when rendered, must have its own style applied to it.
///
/// Used for the short fixed labels of a prompt, which are styled
/// independently of the text around them.
#[derive(Debug, PartialEq, Eq)]
pub struct Styled<T> {
    /// Content to be rendered.
    pub content: T,
    /// Style sheet to be applied to the content when rendered.
    pub style: StyleSheet,
}

impl<T: Clone> Clone for Styled<T> {
    /// A copy with a clone of the content and the same style.
    fn clone(&self) -> (out: Styled<T>)
        ensures
            cloned(self.content, out.content),
            out.style == self.style,
    {
        Styled { content: self.content.clone(), style: self.style }
    }
}

impl<T> Styled<T> {
    /// `content` with the empty style sheet.
    pub open spec fn spec_new(content: T) -> Styled<T> {
        Styled { content, style: StyleSheet::empty() }
    }

    /// `self` with the foreground color of its style replaced by `fg`.
    pub open spec fn spec_with_fg(self, fg: Color) -> Styled<T> {
        Styled { content: self.content, style: self.style.with_fg(fg) }
    }

    /// `self` with the background color of its style replaced by `bg`.
    pub open spec fn spec_with_bg(self, bg: Color) -> Styled<T> {
        Styled { content: self.content, style: self.style.with_bg(bg) }
    }

    /// Whether no style is applied to the content.
    pub open spec fn is_unstyled(self) -> bool {
        self.style == StyleSheet::empty()
    }

    /// Creates an instance holding `content`, with no colors and no
    /// attributes.
    #[verifier::when_used_as_spec(spec_new)]
    pub fn new(content: T) -> (out: Styled<T>)
        ensures
            out.content == content,
            out.style == StyleSheet::empty(),
            out == Styled::spec_new(content),
    {
        Styled { content, style: StyleSheet::empty() }
    }

    /// Sets the foreground color of the content's style. The content, the
    /// background color and the attributes are kept.
    #[verifier::when_used_as_spec(spec_with_fg)]
    pub fn with_fg(self, fg: Color) -> (out: Styled<T>)
        ensures
            out.content == self.content,
            out.style == self.style.with_fg(fg),
            out == self.spec_with_fg(fg),
    {
        Styled { content: self.content, style: self.style.with_fg(fg) }
    }

    /// Sets the background color of the content's style. The content, the
    /// foreground color and the attributes are kept.
    #[verifier::when_used_as_spec(spec_with_bg)]
    pub fn with_bg(self, bg: Color) -> (out: Styled<T>)
        ensures
            out.content == self.content,
            out.style == self.style.with_bg(bg),
            out == self.spec_with_bg(bg),
    {
        Styled { content: self.content, style: self.style.with_bg(bg) }
    }
}

} // verus!
