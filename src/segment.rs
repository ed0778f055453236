//! What a module hands to the renderer: named, styled text fragments.
use ansi_term::Style;
use vstd::prelude::*;

verus! {

#[verifier::external_type_specification]
#[verifier::external_body]
pub struct ExStyle(ansi_term::Style);

#[verifier::external_type_specification]
pub struct ExColour(ansi_term::Colour);

/// Relies on `ansi_term::Colour::bold`: a bold style in the colour. Styles
/// are only carried to the renderer, so nothing is stated of it.
pub assume_specification[ ansi_term::Colour::bold ](colour: ansi_term::Colour) -> Style;

/// A configured segment: its text and an optional style of its own.
pub struct SegmentConfig {
    pub value: String,
    pub style: Option<Style>,
}

impl SegmentConfig {
    pub fn new(value: &str) -> (r: SegmentConfig)
        ensures
            r.value@ == value@,
            r.style is None,
    {
        SegmentConfig { value: value.to_string(), style: None }
    }

    pub fn with_value(&self, value: &str) -> (r: SegmentConfig)
        ensures
            r.value@ == value@,
            r.style == self.style,
    {
        SegmentConfig { value: value.to_string(), style: self.style }
    }

    pub fn with_style(&self, style: Option<Style>) -> (r: SegmentConfig)
        ensures
            r.value@ == self.value@,
            r.style == style,
    {
        SegmentConfig { value: self.value.clone(), style }
    }
}

/// One emitted fragment: a name unique within its module, a text and a style.
pub struct Segment {
    pub name: String,
    pub value: String,
    pub style: Option<Style>,
}

impl View for Segment {
    type V = (Seq<char>, Seq<char>, Option<Style>);

    open spec fn view(&self) -> Self::V {
        (self.name@, self.value@, self.style)
    }
}

/// A prefix or suffix around a module's segments.
pub struct Affix {
    pub value: String,
    pub style: Option<Style>,
}

/// The output of one module: its segments in order, wrapped by a prefix and a
/// suffix.
pub struct Module {
    pub name: String,
    pub style: Style,
    pub prefix: Affix,
    pub suffix: Affix,
    pub segments: Vec<Segment>,
}

impl Module {
    pub open spec fn segments_view(&self) -> Seq<(Seq<char>, Seq<char>, Option<Style>)> {
        self.segments@.map_values(|s: Segment| s@)
    }

    pub fn new(name: &str, style: Style) -> (r: Module)
        ensures
            r.name@ == name@,
            r.style == style,
            r.prefix.value@.len() == 0,
            r.prefix.style is None,
            r.suffix.value@.len() == 0,
            r.suffix.style is None,
            r.segments@.len() == 0,
    {
        Module {
            name: name.to_string(),
            style,
            prefix: Affix { value: String::new(), style: None },
            suffix: Affix { value: String::new(), style: None },
            segments: Vec::new(),
        }
    }

    /// Appends a segment named `name` with the text and style of `config`.
    pub fn create_segment(&mut self, name: &str, config: &SegmentConfig)
        ensures
            final(self).segments_view() == old(self).segments_view().push(
                (name@, config.value@, config.style),
            ),
            final(self).name == old(self).name,
            final(self).style == old(self).style,
            final(self).prefix == old(self).prefix,
            final(self).suffix == old(self).suffix,
    {
        let seg = Segment { name: name.to_string(), value: config.value.clone(), style: config.style };
        self.segments.push(seg);
        proof {
            assert(self.segments_view() =~= old(self).segments_view().push(
                (name@, config.value@, config.style),
            ));
        }
    }

    pub fn is_empty(&self) -> (r: bool)
        ensures
            r == (self.segments@.len() == 0),
    {
        self.segments.len() == 0
    }
}

} // verus!
