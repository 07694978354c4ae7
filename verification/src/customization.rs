//! Small enumerations naming Bokeh markers, time scales and histogram modes.

use vstd::prelude::*;

verus! {

/// Controls which statistic is rendered from a pre-computed histogram table.
#[derive(Clone, Copy, Debug, PartialEq, Eq, Structural)]
pub enum HistogramDisplay {
    /// Raw count of values in each bin (default).
    Count,
    /// Probability density.
    Pdf,
    /// Cumulative distribution.
    Cdf,
}

impl HistogramDisplay {
    /// The identifier used by the renderer for this statistic.
    pub fn as_str(&self) -> (s: &'static str)
        ensures
            *self == HistogramDisplay::Count ==> s@ == "count"@,
            *self == HistogramDisplay::Pdf ==> s@ == "pdf"@,
            *self == HistogramDisplay::Cdf ==> s@ == "cdf"@,
    {
        match self {
            HistogramDisplay::Count => "count",
            HistogramDisplay::Pdf => "pdf",
            HistogramDisplay::Cdf => "cdf",
        }
    }
}


/// Bokeh scatter marker shape, drawn at each data point of a scatter (or
/// line) chart. The default is [`MarkerType::Circle`].
#[derive(Clone, Copy, Debug, PartialEq, Eq, Structural)]
pub enum MarkerType {
    /// Filled circle (default).
    Circle,
    /// Filled square.
    Square,
    /// Filled diamond.
    Diamond,
    /// Filled upward-pointing triangle.
    Triangle,
    /// Filled downward-pointing triangle.
    InvertedTriangle,
    /// Filled hexagon.
    Hex,
    /// Filled star.
    Star,
    /// Asterisk (six-spoke star, no fill).
    Asterisk,
    /// Plus sign (no fill).
    Plus,
    /// X mark (no fill).
    X,
    /// Y mark (no fill).
    Y,
    /// Horizontal dash (no fill).
    Dash,
    /// Small dot.
    Dot,
    /// Cross (no fill).
    Cross,
    /// Circle with a cross inscribed.
    CircleCross,
    /// Circle with a dot at the centre.
    CircleDot,
    /// Circle with an X inscribed.
    CircleX,
    /// Circle with a Y inscribed.
    CircleY,
    /// Hexagon with a dot at the centre.
    HexDot,
    /// Square with a cross inscribed.
    SquareCross,
    /// Square with a dot at the centre.
    SquareDot,
    /// Square with a pin/anchor shape.
    SquarePin,
    /// Square with an X inscribed.
    SquareX,
    /// Star with a dot at the centre.
    StarDot,
    /// Triangle with a dot at the centre.
    TriangleDot,
    /// Triangle with a pin/anchor shape.
    TrianglePin,
}

/// The Bokeh name of a marker shape.
pub open spec fn marker_name(m: MarkerType) -> Seq<char> {
    match m {
        MarkerType::Circle => "circle"@,
        MarkerType::Square => "square"@,
        MarkerType::Diamond => "diamond"@,
        MarkerType::Triangle => "triangle"@,
        MarkerType::InvertedTriangle => "inverted_triangle"@,
        MarkerType::Hex => "hex"@,
        MarkerType::Star => "star"@,
        MarkerType::Asterisk => "asterisk"@,
        MarkerType::Plus => "plus"@,
        MarkerType::X => "x"@,
        MarkerType::Y => "y"@,
        MarkerType::Dash => "dash"@,
        MarkerType::Dot => "dot"@,
        MarkerType::Cross => "cross"@,
        MarkerType::CircleCross => "circle_cross"@,
        MarkerType::CircleDot => "circle_dot"@,
        MarkerType::CircleX => "circle_x"@,
        MarkerType::CircleY => "circle_y"@,
        MarkerType::HexDot => "hex_dot"@,
        MarkerType::SquareCross => "square_cross"@,
        MarkerType::SquareDot => "square_dot"@,
        MarkerType::SquarePin => "square_pin"@,
        MarkerType::SquareX => "square_x"@,
        MarkerType::StarDot => "star_dot"@,
        MarkerType::TriangleDot => "triangle_dot"@,
        MarkerType::TrianglePin => "triangle_pin"@,
    }
}

impl MarkerType {
    /// The Bokeh marker string for this shape.
    pub fn as_str(&self) -> (s: &'static str)
        ensures
            s@ == marker_name(*self),
    {
        match self {
            MarkerType::Circle => "circle",
            MarkerType::Square => "square",
            MarkerType::Diamond => "diamond",
            MarkerType::Triangle => "triangle",
            MarkerType::InvertedTriangle => "inverted_triangle",
            MarkerType::Hex => "hex",
            MarkerType::Star => "star",
            MarkerType::Asterisk => "asterisk",
            MarkerType::Plus => "plus",
            MarkerType::X => "x",
            MarkerType::Y => "y",
            MarkerType::Dash => "dash",
            MarkerType::Dot => "dot",
            MarkerType::Cross => "cross",
            MarkerType::CircleCross => "circle_cross",
            MarkerType::CircleDot => "circle_dot",
            MarkerType::CircleX => "circle_x",
            MarkerType::CircleY => "circle_y",
            MarkerType::HexDot => "hex_dot",
            MarkerType::SquareCross => "square_cross",
            MarkerType::SquareDot => "square_dot",
            MarkerType::SquarePin => "square_pin",
            MarkerType::SquareX => "square_x",
            MarkerType::StarDot => "star_dot",
            MarkerType::TriangleDot => "triangle_dot",
            MarkerType::TrianglePin => "triangle_pin",
        }
    }
}

/// Time unit used to format datetime values on axes and in tooltips.
#[derive(Clone, Copy, Debug, PartialEq, Eq, Structural)]
pub enum TimeScale {
    /// Sub-second resolution: `%H:%M:%S.%3N`
    Milliseconds,
    /// Second resolution: `%H:%M:%S`
    Seconds,
    /// Minute resolution: `%H:%M`
    Minutes,
    /// Hour resolution: `%m/%d %H:%M`
    Hours,
    /// Day resolution: `%Y-%m-%d`
    Days,
    /// Month resolution: `%b %Y`
    Months,
    /// Year resolution: `%Y`
    Years,
}

/// The strftime pattern of a time scale.
pub open spec fn time_scale_format(t: TimeScale) -> Seq<char> {
    match t {
        TimeScale::Milliseconds => "%H:%M:%S.%3N"@,
        TimeScale::Seconds => "%H:%M:%S"@,
        TimeScale::Minutes => "%H:%M"@,
        TimeScale::Hours => "%m/%d %H:%M"@,
        TimeScale::Days => "%Y-%m-%d"@,
        TimeScale::Months => "%b %Y"@,
        TimeScale::Years => "%Y"@,
    }
}

/// The identifier of a time scale.
pub open spec fn time_scale_name(t: TimeScale) -> Seq<char> {
    match t {
        TimeScale::Milliseconds => "milliseconds"@,
        TimeScale::Seconds => "seconds"@,
        TimeScale::Minutes => "minutes"@,
        TimeScale::Hours => "hours"@,
        TimeScale::Days => "days"@,
        TimeScale::Months => "months"@,
        TimeScale::Years => "years"@,
    }
}

impl TimeScale {
    /// The strftime format string used for this scale.
    pub fn format_str(&self) -> (s: &'static str)
        ensures
            s@ == time_scale_format(*self),
    {
        match self {
            TimeScale::Milliseconds => "%H:%M:%S.%3N",
            TimeScale::Seconds => "%H:%M:%S",
            TimeScale::Minutes => "%H:%M",
            TimeScale::Hours => "%m/%d %H:%M",
            TimeScale::Days => "%Y-%m-%d",
            TimeScale::Months => "%b %Y",
            TimeScale::Years => "%Y",
        }
    }

    /// The string identifier of this scale.
    pub fn as_str(&self) -> (s: &'static str)
        ensures
            s@ == time_scale_name(*self),
    {
        match self {
            TimeScale::Milliseconds => "milliseconds",
            TimeScale::Seconds => "seconds",
            TimeScale::Minutes => "minutes",
            TimeScale::Hours => "hours",
            TimeScale::Days => "days",
            TimeScale::Months => "months",
            TimeScale::Years => "years",
        }
    }
}

} // verus!
