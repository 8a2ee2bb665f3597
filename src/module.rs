use vstd::prelude::*;
use crate::config::Style;

verus! {

/// A named piece of text within a module, such as its symbol or its version.
pub struct Segment {
    name: String,
    text: String,
}

impl View for Segment {
    type V = (Seq<char>, Seq<char>);

    closed spec fn view(&self) -> (Seq<char>, Seq<char>) {
        (self.name@, self.text@)
    }
}

impl Segment {
    pub fn name(&self) -> (r: &String)
        ensures
            r@ == self@.0,
    {
        &self.name
    }

    pub fn text(&self) -> (r: &String)
        ensures
            r@ == self@.1,
    {
        &self.text
    }
}

/// What a module is: its name, its style, and its segments as (name, text)
/// pairs in the order they were appended.
pub struct ModuleView {
    pub name: Seq<char>,
    pub style: Style,
    pub segments: Seq<(Seq<char>, Seq<char>)>,
}

/// One unit of the prompt line: a style and the segments shown in it, in the
/// order they were appended.
pub struct Module {
    name: String,
    style: Style,
    segments: Vec<Segment>,
}

impl View for Module {
    type V = ModuleView;

    closed spec fn view(&self) -> ModuleView {
        ModuleView {
            name: self.name@,
            style: self.style,
            segments: self.segments@.map_values(|s: Segment| s@),
        }
    }
}

/// The text of a module: its segments' texts, joined in order.
pub open spec fn joined_text(segments: Seq<(Seq<char>, Seq<char>)>) -> Seq<char>
    decreases segments.len(),
{
    if segments.len() == 0 {
        Seq::empty()
    } else {
        joined_text(segments.drop_last()) + segments.last().1
    }
}

impl Module {
    /// An empty module with the given name and no style.
    pub fn new(name: &str) -> (r: Module)
        ensures
            r@.name == name@,
            r@.style == (Style { foreground: None, bold: false }),
            r@.segments == Seq::<(Seq<char>, Seq<char>)>::empty(),
    {
        let r = Module {
            name: String::from_str(name),
            style: Style { foreground: None, bold: false },
            segments: Vec::new(),
        };
        assert(r@.segments =~= Seq::<(Seq<char>, Seq<char>)>::empty());
        r
    }

    pub fn set_style(&mut self, style: Style)
        ensures
            final(self)@.name == old(self)@.name,
            final(self)@.style == style,
            final(self)@.segments == old(self)@.segments,
    {
        self.style = style;
    }

    /// Appends a segment after those already there.
    pub fn create_segment(&mut self, name: &str, text: &str)
        ensures
            final(self)@.name == old(self)@.name,
            final(self)@.style == old(self)@.style,
            final(self)@.segments == old(self)@.segments.push((name@, text@)),
    {
        let ghost before = self.segments@;
        self.segments.push(Segment { name: String::from_str(name), text: String::from_str(text) });
        assert(self.segments@.map_values(|s: Segment| s@) =~= before.map_values(
            |s: Segment| s@,
        ).push((name@, text@)));
    }

    pub fn name(&self) -> (r: &String)
        ensures
            r@ == self@.name,
    {
        &self.name
    }

    pub fn style(&self) -> (r: Style)
        ensures
            r == self@.style,
    {
        self.style
    }

    pub fn segments(&self) -> (r: &Vec<Segment>)
        ensures
            r@.map_values(|s: Segment| s@) == self@.segments,
    {
        &self.segments
    }

    /// The module's text, as the renderer shows it: the segments' texts in
    /// the order they were appended.
    pub fn text(&self) -> (r: String)
        ensures
            r@ == joined_text(self@.segments),
    {
        let ghost segs = self@.segments;
        let mut r = String::new();
        let mut i: usize = 0;
        while i < self.segments.len()
            invariant
                i <= self.segments@.len(),
                segs == self.segments@.map_values(|s: Segment| s@),
                r@ == joined_text(segs.subrange(0, i as int)),
            decreases self.segments@.len() - i,
        {
            r.append(self.segments[i].text.as_str());
            assert(segs.subrange(0, i + 1).drop_last() =~= segs.subrange(0, i as int));
            i = i + 1;
        }
        assert(segs.subrange(0, i as int) =~= segs);
        r
    }
}

} // verus!
