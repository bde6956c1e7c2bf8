//! Progress-bar styling options for the downloader, and their conversion
//! into `indicatif`'s style and bar values.
//!
//! The options themselves are plain data and fully verified; only the
//! construction of the rendering library's opaque values goes through
//! trusted wrappers.

use vstd::prelude::*;

verus! {

#[verifier::external_type_specification]
#[verifier::external_body]
pub struct ExProgressStyle(indicatif::ProgressStyle);

#[verifier::external_type_specification]
#[verifier::external_body]
pub struct ExProgressBar(indicatif::ProgressBar);

/// Relies on `indicatif::ProgressStyle::default_bar`: the library's
/// default bar style, an opaque value carried through.
#[verifier::external_body]
fn style_default_bar() -> indicatif::ProgressStyle {
    indicatif::ProgressStyle::default_bar()
}

/// Relies on `indicatif::ProgressStyle::template`: returns the restyled
/// value when the template text parses, and an error otherwise, mapped
/// to `None` here.
#[verifier::external_body]
fn style_template(
    style: indicatif::ProgressStyle,
    template: &str,
) -> Option<indicatif::ProgressStyle> {
    style.template(template).ok()
}

/// A character set the bar renderer can take: at least two characters,
/// all printable ASCII.  The renderer splits the set into one segment
/// per character, demands at least two segments, and demands that all
/// segments have equal display width; printable ASCII characters are
/// one column each, so this condition rules out every rejected set.
pub open spec fn spec_progress_chars_ok(s: Seq<char>) -> bool {
    s.len() >= 2 && (forall|i: int| 0 <= i < s.len() ==> 32 <= #[trigger] s[i] as u32 <= 126)
}

/// Whether the bar renderer can take this character set.
pub fn progress_chars_ok(s: &str) -> (r: bool)
    ensures
        r == spec_progress_chars_ok(s@),
{
    let n = s.unicode_len();
    if n < 2 {
        return false;
    }
    let mut k: usize = 0;
    while k < n
        invariant
            n == s@.len(),
            k <= n,
            forall|i: int| 0 <= i < k ==> 32 <= #[trigger] s@[i] as u32 <= 126,
        decreases n - k,
    {
        let u = s.get_char(k) as u32;
        if !(32 <= u && u <= 126) {
            return false;
        }
        k = k + 1;
    }
    true
}

/// Relies on `indicatif::ProgressStyle::progress_chars`: sets the
/// characters used to draw the bar.  The renderer panics on a set it
/// cannot take — fewer than two segments, or segments of unequal
/// display width — so only sets of two or more printable ASCII
/// characters, each one column wide, are admitted here.
#[verifier::external_body]
fn style_progress_chars(
    style: indicatif::ProgressStyle,
    chars: &str,
) -> indicatif::ProgressStyle
    requires
        spec_progress_chars_ok(chars@),
{
    style.progress_chars(chars)
}

/// Relies on `indicatif::ProgressBar::hidden`: a bar that never draws.
#[verifier::external_body]
fn bar_hidden() -> indicatif::ProgressBar {
    indicatif::ProgressBar::hidden()
}

/// Relies on `indicatif::ProgressBar::new` and `with_style`: a bar of
/// the given length drawn with the given style.
#[verifier::external_body]
fn bar_new_with_style(len: u64, style: indicatif::ProgressStyle) -> indicatif::ProgressBar {
    indicatif::ProgressBar::new(len).with_style(style)
}

/// Styling options for one progress bar.
#[derive(Debug)]
pub struct ProgressBarOpts {
    /// Progress bar template string; the library default when `None`.
    pub template: Option<String>,
    /// Progression character set: at least three characters, for
    /// "filled", "current" and "to do".
    pub progress_chars: Option<String>,
    /// Whether the bar is shown at all.
    pub enabled: bool,
    /// Whether the bar is cleared from the terminal once complete.
    pub clear: bool,
}

/// Styling options for the whole downloader: one main bar counting the
/// batch, and one child bar per transfer counting its bytes.
#[derive(Debug)]
pub struct StyleOptions {
    /// Style options for the main progress bar.
    pub main: ProgressBarOpts,
    /// Style options for the child progress bar(s).
    pub child: ProgressBarOpts,
}

impl Clone for ProgressBarOpts {
    /// A clone is equal to the original.
    fn clone(&self) -> (r: Self)
        ensures
            r == *self,
    {
        ProgressBarOpts {
            template: match &self.template {
                Some(t) => Some(t.clone()),
                None => None,
            },
            progress_chars: match &self.progress_chars {
                Some(c) => Some(c.clone()),
                None => None,
            },
            enabled: self.enabled,
            clear: self.clear,
        }
    }
}

impl Clone for StyleOptions {
    /// A clone is equal to the original.
    fn clone(&self) -> (r: Self)
        ensures
            r == *self,
    {
        StyleOptions { main: self.main.clone(), child: self.child.clone() }
    }
}

impl ProgressBarOpts {
    /// Template representing the bar and its position, like
    /// `[#####----] 11/12 (99%) eta 00:00:02`.
    pub const TEMPLATE_BAR_WITH_POSITION: &'static str =
        "[{bar:69}] {pos:>}/{len} ({percent}%) eta {eta_precise:.blue}";

    /// Template that looks like the pacman package manager's bar.
    pub const TEMPLATE_PACMAN: &'static str =
        "{wide_msg} {binary_bytes:<12} {binary_bytes_per_sec:10} {eta_precise:.blue} [{bar:69}] {percent}%";

    /// Hashtag progress characters: `"#--"`.
    pub const CHARS_HASHTAG: &'static str = "#--";

    /// Create options from a template, a character set and the two
    /// flags.
    pub fn new(
        template: Option<String>,
        progress_chars: Option<String>,
        enabled: bool,
        clear: bool,
    ) -> (r: Self)
        ensures
            r == (ProgressBarOpts { template, progress_chars, enabled, clear }),
    {
        Self { template, progress_chars, enabled, clear }
    }

    /// Build the rendering library's style value from these options.  A
    /// template that does not parse leaves the default style in place,
    /// and a character set the renderer cannot take — fewer than two
    /// characters, or characters outside printable ASCII — leaves the
    /// default characters in place.
    pub fn to_progress_style(self) -> indicatif::ProgressStyle {
        let mut style = style_default_bar();
        if let Some(template) = &self.template {
            style = match style_template(style, template.as_str()) {
                Some(s) => s,
                None => style_default_bar(),
            };
        }
        if let Some(progress_chars) = &self.progress_chars {
            if progress_chars_ok(progress_chars.as_str()) {
                style = style_progress_chars(style, progress_chars.as_str());
            }
        }
        style
    }

    /// Build a progress bar of length `len` from these options; a
    /// disabled bar is hidden and never draws.
    pub fn to_progress_bar(self, len: u64) -> indicatif::ProgressBar {
        if !self.enabled {
            return bar_hidden();
        }
        let style = self.to_progress_style();
        bar_new_with_style(len, style)
    }

    /// Options that look like the pacman package manager's bar: its
    /// template, hashtag characters, enabled, and cleared when complete.
    pub fn with_pacman_style() -> (r: Self)
        ensures
            (r.template matches Some(t) && t@ == Self::TEMPLATE_PACMAN@),
            (r.progress_chars matches Some(c) && c@ == Self::CHARS_HASHTAG@),
            r.enabled,
            r.clear,
    {
        Self {
            template: Some(Self::TEMPLATE_PACMAN.to_owned()),
            progress_chars: Some(Self::CHARS_HASHTAG.to_owned()),
            enabled: true,
            clear: true,
        }
    }

    /// Set whether the bar is cleared from the terminal once complete.
    pub fn set_clear(&mut self, clear: bool)
        ensures
            *final(self) == (ProgressBarOpts { clear, ..*old(self) }),
    {
        self.clear = clear;
    }

    /// Options that hide the bar: the defaults with `enabled` off.
    pub fn hidden() -> (r: Self)
        ensures
            r == (ProgressBarOpts { enabled: false, ..ProgressBarOpts::spec_default() }),
    {
        Self { enabled: false, ..ProgressBarOpts::default() }
    }

    /// The default options: no template, no characters, enabled, and
    /// cleared when complete.
    pub open spec fn spec_default() -> Self {
        ProgressBarOpts { template: None, progress_chars: None, enabled: true, clear: true }
    }
}

impl Default for ProgressBarOpts {
    /// The default options: no template, no characters, enabled, and
    /// cleared when complete.
    fn default() -> (r: Self)
        ensures
            r == ProgressBarOpts::spec_default(),
    {
        Self { template: None, progress_chars: None, enabled: true, clear: true }
    }
}

impl StyleOptions {
    /// Create style options for the main and the child bars.
    pub fn new(main: ProgressBarOpts, child: ProgressBarOpts) -> (r: Self)
        ensures
            r == (StyleOptions { main, child }),
    {
        Self { main, child }
    }

    /// Set the options for the main progress bar.
    pub fn set_main(&mut self, main: ProgressBarOpts)
        ensures
            *final(self) == (StyleOptions { main, ..*old(self) }),
    {
        self.main = main;
    }

    /// Set the options for the child progress bar.
    pub fn set_child(&mut self, child: ProgressBarOpts)
        ensures
            *final(self) == (StyleOptions { child, ..*old(self) }),
    {
        self.child = child;
    }

    /// Return `false` only when neither the main nor the child bar is
    /// enabled.
    pub fn is_enabled(self) -> (r: bool)
        ensures
            r == (self.main.enabled || self.child.enabled),
    {
        self.main.enabled || self.child.enabled
    }
}

impl Default for StyleOptions {
    /// The default style: a positional main bar that stays on screen,
    /// and pacman-styled child bars that are cleared once complete.
    fn default() -> (r: Self)
        ensures
            (r.main.template matches Some(t) && t@ == ProgressBarOpts::TEMPLATE_BAR_WITH_POSITION@),
            (r.main.progress_chars matches Some(c) && c@ == ProgressBarOpts::CHARS_HASHTAG@),
            r.main.enabled,
            !r.main.clear,
            (r.child.template matches Some(t) && t@ == ProgressBarOpts::TEMPLATE_PACMAN@),
            r.child.enabled,
            r.child.clear,
    {
        Self {
            main: ProgressBarOpts {
                template: Some(ProgressBarOpts::TEMPLATE_BAR_WITH_POSITION.to_owned()),
                progress_chars: Some(ProgressBarOpts::CHARS_HASHTAG.to_owned()),
                enabled: true,
                clear: false,
            },
            child: ProgressBarOpts::with_pacman_style(),
        }
    }
}

} // verus!
