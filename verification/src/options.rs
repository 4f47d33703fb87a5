//! What a call site may configure, and the defaults for what it leaves unset.

use vstd::prelude::*;
use std::ops::Range;
use crate::value::PlotType;

verus! {

/// The width and height of a chart whose call site sets no size.
pub const DEFAULT_SIZE: (u32, u32) = (640, 480);

/// The configuration of one call site. Every field may be left unset.
pub struct Options {
    /// The caption of the chart.
    pub caption: Option<String>,
    /// The width and height of the image, in pixels.
    pub size: Option<(u32, u32)>,
    /// The description of the x axis.
    pub x_desc: Option<String>,
    /// The description of the y axis.
    pub y_desc: Option<String>,
    /// Where the image is saved.
    pub path: Option<String>,
    /// Start and end of the x axis.
    pub x_range: Option<Range<PlotType>>,
    /// Start and end of the y axis.
    pub y_range: Option<Range<PlotType>>,
    /// The window: how many samples a series keeps at most.
    pub values: Option<usize>,
    /// Whether the chart is redrawn in a window after every insertion.
    pub live: Option<bool>,
}

/// The configuration of a call site with its texts as character sequences.
pub struct OptionsView {
    pub caption: Option<Seq<char>>,
    pub size: Option<(u32, u32)>,
    pub x_desc: Option<Seq<char>>,
    pub y_desc: Option<Seq<char>>,
    pub path: Option<Seq<char>>,
    pub x_range: Option<Range<PlotType>>,
    pub y_range: Option<Range<PlotType>>,
    pub values: Option<usize>,
    pub live: Option<bool>,
}

/// The characters of an optional text.
pub open spec fn text_of(text: Option<String>) -> Option<Seq<char>> {
    match text {
        Some(s) => Some(s@),
        None => None,
    }
}

impl View for Options {
    type V = OptionsView;

    open spec fn view(&self) -> OptionsView {
        OptionsView {
            caption: text_of(self.caption),
            size: self.size,
            x_desc: text_of(self.x_desc),
            y_desc: text_of(self.y_desc),
            path: text_of(self.path),
            x_range: self.x_range,
            y_range: self.y_range,
            values: self.values,
            live: self.live,
        }
    }
}

/// A character of a caption as it appears in a file name: the path separator
/// becomes a hyphen and the space an underscore.
pub open spec fn sanitized_char(c: char) -> char {
    if c == '/' {
        '-'
    } else if c == ' ' {
        '_'
    } else {
        c
    }
}

/// A caption as it appears in a file name.
pub open spec fn sanitized(caption: Seq<char>) -> Seq<char> {
    Seq::new(caption.len(), |i: int| sanitized_char(caption[i]))
}

/// Where a chart with the given caption is saved when no path is set.
pub open spec fn default_path(caption: Seq<char>) -> Seq<char> {
    "plots/"@ + sanitized(caption) + ".png"@
}

impl OptionsView {
    /// The configuration in which nothing is set.
    pub open spec fn unset() -> OptionsView {
        OptionsView {
            caption: None,
            size: None,
            x_desc: None,
            y_desc: None,
            path: None,
            x_range: None,
            y_range: None,
            values: None,
            live: None,
        }
    }

    /// The caption of the chart: the one that was set, else the text of the
    /// location.
    pub open spec fn caption_or(self, location_text: Seq<char>) -> Seq<char> {
        match self.caption {
            Some(caption) => caption,
            None => location_text,
        }
    }

    /// The configuration as a record keeps it: caption and path are settled
    /// when the record is made, all else stays as it was given.
    pub open spec fn resolved(self, location_text: Seq<char>) -> OptionsView {
        let caption = self.caption_or(location_text);
        OptionsView {
            caption: Some(caption),
            path: Some(
                match self.path {
                    Some(path) => path,
                    None => default_path(caption),
                },
            ),
            ..self
        }
    }

    /// Whether the chart is drawn live.
    pub open spec fn is_live(self) -> bool {
        self.live == Some(true)
    }

    /// The size of the image.
    pub open spec fn size_or_default(self) -> (u32, u32) {
        match self.size {
            Some(size) => size,
            None => DEFAULT_SIZE,
        }
    }
}

impl Default for Options {
    fn default() -> (r: Options)
        ensures
            r@ == OptionsView::unset(),
    {
        Options {
            caption: None,
            size: None,
            x_desc: None,
            y_desc: None,
            path: None,
            x_range: None,
            y_range: None,
            values: None,
            live: None,
        }
    }
}

/// Writes a caption as it appears in a file name.
pub fn sanitize(caption: &str) -> (r: String)
    ensures
        r@ == sanitized(caption@),
{
    let mut out = String::new();
    for c in it: caption.chars()
        invariant
            it.seq() == caption@,
            out@ == sanitized(caption@.take(it.index())),
    {
        let replaced: char = if c == '/' {
            '-'
        } else if c == ' ' {
            '_'
        } else {
            c
        };
        out.push(replaced);
        assert(out@ == sanitized(caption@.take(it.index() + 1)));
    }
    assert(caption@.take(caption@.len() as int) == caption@);
    out
}

/// The path under which a chart with the given caption is saved when its call
/// site sets none: `plots/`, the sanitized caption, `.png`.
pub fn default_path_for(caption: &str) -> (r: String)
    ensures
        r@ == default_path(caption@),
{
    let mut out = String::from_str("plots/");
    let name = sanitize(caption);
    out.append(name.as_str());
    out.append(".png");
    out
}

impl Options {
    /// Settles caption and path: the caption falls back on the text of the
    /// location, the path on the default path for the caption.
    pub fn resolve(self, location_text: String) -> (r: Options)
        ensures
            r@ == self@.resolved(location_text@),
    {
        let caption = match self.caption {
            Some(caption) => caption,
            None => location_text,
        };
        let path = match self.path {
            Some(path) => path,
            None => default_path_for(caption.as_str()),
        };
        Options {
            caption: Some(caption),
            size: self.size,
            x_desc: self.x_desc,
            y_desc: self.y_desc,
            path: Some(path),
            x_range: self.x_range,
            y_range: self.y_range,
            values: self.values,
            live: self.live,
        }
    }
}

} // verus!
