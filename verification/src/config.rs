//! Configuration data consumed once at startup.
//!
//! The loader that reads these values from a file, and the animation
//! parameters that only the rendering layer interprets, live outside the
//! core; the core keeps the plain options its logic reads.

use vstd::prelude::*;
use vstd::string::StrSliceExecFns;

use crate::color::SerializableColor;

verus! {

/// Sidebar layout options.
#[derive(Clone, Copy, Debug, PartialEq, Eq, Structural)]
pub struct LayoutConfig {
    /// Width of the sidebar in terminal columns.
    pub sidebar_width: u16,
    /// Maximum number of lines shown for the command text.
    pub max_command_lines: usize,
}

impl Default for LayoutConfig {
    /// The default layout: a 30-column sidebar and three command lines.
    fn default() -> (c: LayoutConfig)
        ensures
            c.sidebar_width == 30,
            c.max_command_lines == 3,
    {
        LayoutConfig { sidebar_width: 30, max_command_lines: 3 }
    }
}

/// Output buffer options.
#[derive(Clone, Copy, Debug, PartialEq, Eq, Structural)]
pub struct OutputConfig {
    /// Maximum number of output lines kept in memory.
    pub max_output_lines: usize,
}

impl Default for OutputConfig {
    /// The default output bound of a thousand lines.
    fn default() -> (c: OutputConfig)
        ensures
            c.max_output_lines == 1000,
    {
        OutputConfig { max_output_lines: 1000 }
    }
}

/// Animation switches read by the core; the numeric shine parameters are
/// interpreted only by the rendering layer outside it.
#[derive(Clone, Copy, Debug, PartialEq, Eq, Structural)]
pub struct AnimationConfig {
    /// Whether the header animation runs.
    pub animation_enabled: bool,
    /// A configured request to disable the animation.
    pub no_animate: bool,
}

impl Default for AnimationConfig {
    /// Animation on by default, with no disable request.
    fn default() -> (c: AnimationConfig)
        ensures
            c.animation_enabled,
            !c.no_animate,
    {
        AnimationConfig { animation_enabled: true, no_animate: false }
    }
}

/// All application options together.
#[derive(Clone, Copy, Debug, PartialEq, Eq, Structural)]
pub struct AppConfig {
    /// Sidebar layout options.
    pub layout: LayoutConfig,
    /// Output buffer options.
    pub output: OutputConfig,
    /// Animation switches.
    pub animation: AnimationConfig,
}

impl Default for AppConfig {
    /// The defaults of every section.
    fn default() -> (c: AppConfig)
        ensures
            c.layout.sidebar_width == 30,
            c.layout.max_command_lines == 3,
            c.output.max_output_lines == 1000,
            c.animation.animation_enabled,
            !c.animation.no_animate,
    {
        AppConfig {
            layout: LayoutConfig::default(),
            output: OutputConfig::default(),
            animation: AnimationConfig::default(),
        }
    }
}

impl AppConfig {
    /// The configured sidebar width.
    pub fn sidebar_width(&self) -> (w: u16)
        ensures
            w == self.layout.sidebar_width,
    {
        self.layout.sidebar_width
    }

    /// The configured output line bound.
    pub fn max_output_lines(&self) -> (n: usize)
        ensures
            n == self.output.max_output_lines,
    {
        self.output.max_output_lines
    }

    /// Whether the animation runs.
    pub fn animation_enabled(&self) -> (e: bool)
        ensures
            e == self.animation.animation_enabled,
    {
        self.animation.animation_enabled
    }

    /// Whether the configuration asks to disable the animation.
    pub fn no_animate(&self) -> (n: bool)
        ensures
            n == self.animation.no_animate,
    {
        self.animation.no_animate
    }

    /// The configured bound on command display lines.
    pub fn max_command_lines(&self) -> (n: usize)
        ensures
            n == self.layout.max_command_lines,
    {
        self.layout.max_command_lines
    }
}

/// The dashboard's colors, as plain byte triples.
#[derive(Clone, Debug)]
pub struct Theme {
    /// Main accent color of the sidebar.
    pub primary: SerializableColor,
    /// Secondary text color.
    pub secondary: SerializableColor,
    /// Color of metric values.
    pub accent: SerializableColor,
    /// Border color.
    pub border: SerializableColor,
    /// Main text color.
    pub text: SerializableColor,
    /// Background color.
    pub background: SerializableColor,
    /// Shades used for sparkline intensity, brightest first.
    pub shades: Vec<SerializableColor>,
}

impl Default for Theme {
    /// The built-in blue theme.
    fn default() -> (t: Theme)
        ensures
            t.primary == (SerializableColor { r: 59, g: 130, b: 246 }),
            t.background == (SerializableColor { r: 0, g: 0, b: 0 }),
            t.shades@.len() == 8,
    {
        let mut shades: Vec<SerializableColor> = Vec::new();
        shades.push(SerializableColor { r: 120, g: 180, b: 255 });
        shades.push(SerializableColor { r: 100, g: 160, b: 255 });
        shades.push(SerializableColor { r: 80, g: 140, b: 255 });
        shades.push(SerializableColor { r: 60, g: 120, b: 255 });
        shades.push(SerializableColor { r: 40, g: 100, b: 255 });
        shades.push(SerializableColor { r: 20, g: 80, b: 255 });
        shades.push(SerializableColor { r: 59, g: 130, b: 246 });
        shades.push(SerializableColor { r: 30, g: 64, b: 175 });
        Theme {
            primary: SerializableColor { r: 59, g: 130, b: 246 },
            secondary: SerializableColor { r: 30, g: 64, b: 175 },
            accent: SerializableColor { r: 96, g: 165, b: 250 },
            border: SerializableColor { r: 17, g: 24, b: 39 },
            text: SerializableColor { r: 255, g: 255, b: 255 },
            background: SerializableColor { r: 0, g: 0, b: 0 },
            shades,
        }
    }
}

/// The whole configuration: application options and theme.
#[derive(Clone, Debug)]
pub struct Config {
    /// Application options.
    pub app: AppConfig,
    /// Color theme.
    pub theme: Theme,
}

impl Default for Config {
    /// The default options and the built-in theme.
    fn default() -> (c: Config)
        ensures
            c.app == AppConfig::default_spec(),
    {
        Config { app: AppConfig::default(), theme: Theme::default() }
    }
}

impl AppConfig {
    /// The default application options, at the spec level.
    pub open spec fn default_spec() -> AppConfig {
        AppConfig {
            layout: LayoutConfig { sidebar_width: 30, max_command_lines: 3 },
            output: OutputConfig { max_output_lines: 1000 },
            animation: AnimationConfig { animation_enabled: true, no_animate: false },
        }
    }
}

impl Config {
    /// The default configuration.
    pub fn with_defaults() -> (c: Config)
        ensures
            c.app == AppConfig::default_spec(),
    {
        Config::default()
    }
}

/// The sidebar must fit the widest header line, its padding and its
/// border.
pub open spec fn min_sidebar_width(header_max_chars: usize) -> int {
    header_max_chars + 4
}

/// Settle the effective configuration at startup: a configured disable
/// request turns the animation off, and the command-line options override
/// the file's layout, output and animation settings, with the sidebar
/// never narrower than the header needs.
pub fn resolve_config(config: Config, args: &crate::cli::Args, header_max_chars: usize) -> (r: Config)
    requires
        header_max_chars + 4 <= u16::MAX,
    ensures
        r.app.layout.sidebar_width == if args.sidebar_width >= min_sidebar_width(header_max_chars) {
            args.sidebar_width as int
        } else {
            min_sidebar_width(header_max_chars)
        },
        r.app.layout.max_command_lines == args.max_command_lines,
        r.app.output.max_output_lines == args.max_output_lines,
        r.app.animation.animation_enabled == (!args.no_animate && args.animation),
        r.app.animation.no_animate == config.app.animation.no_animate,
        r.theme == config.theme,
{
    let mut config = config;
    if config.app.animation.no_animate {
        config.app.animation.animation_enabled = false;
    }

    let min_width = (header_max_chars + 4) as u16;
    let effective_sidebar_width = if args.sidebar_width >= min_width {
        args.sidebar_width
    } else {
        min_width
    };

    config.app.layout.sidebar_width = effective_sidebar_width;
    config.app.layout.max_command_lines = args.max_command_lines;
    config.app.output.max_output_lines = args.max_output_lines;
    if args.no_animate {
        config.app.animation.animation_enabled = false;
    } else {
        config.app.animation.animation_enabled = args.animation;
    }
    config
}

/// Settle the animation switch alone: a command-line disable request wins,
/// else the command-line animation option decides.
pub fn resolve_animation(args: &crate::cli::Args) -> (enabled: bool)
    ensures
        enabled == (!args.no_animate && args.animation),
{
    if args.no_animate {
        false
    } else {
        args.animation
    }
}

/// The length in characters of the longest of the given lines; zero when
/// there are none.
pub open spec fn max_chars(lines: Seq<Seq<char>>) -> int
    decreases lines.len(),
{
    if lines.len() == 0 {
        0
    } else {
        let rest = max_chars(lines.drop_last());
        if lines.last().len() > rest {
            lines.last().len() as int
        } else {
            rest
        }
    }
}

/// The length in characters of the longest of the given lines; zero when
/// there are none.
pub fn max_line_chars(lines: &[String]) -> (longest: usize)
    ensures
        longest == max_chars(lines.deep_view()),
{
    let mut longest: usize = 0;
    let mut i: usize = 0;
    while i < lines.len()
        invariant
            i <= lines.deep_view().len(),
            longest == max_chars(lines.deep_view().take(i as int)),
        decreases lines.deep_view().len() - i,
    {
        let len = lines[i].as_str().unicode_len();
        if len > longest {
            longest = len;
        }
        proof {
            let taken = lines.deep_view().take(i + 1);
            assert(taken.drop_last() =~= lines.deep_view().take(i as int));
            assert(taken.last() == lines.deep_view()[i as int]);
        }
        i = i + 1;
    }
    proof {
        assert(lines.deep_view().take(lines.deep_view().len() as int) =~= lines.deep_view());
    }
    longest
}

} // verus!
