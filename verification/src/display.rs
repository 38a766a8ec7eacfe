//! Display settings and their stored forms: blend modes, how long titles are
//! shown, the theme choice, and the star rating's icons.
use vstd::prelude::*;
use vstd::string::*;
use crate::text::str_eq;

verus! {

/// How the blurred background is blended, as stored in the settings.
#[derive(Debug, Clone, Copy, PartialEq, Eq, Structural)]
pub enum BlendMode {
    Default,
    Multiply,
    Screen,
    Overlay,
    Darken,
    Lighten,
    Dodge,
    Burn,
    HardLight,
    SoftLight,
    Difference,
    Exclusion,
    Color,
    Hue,
    Saturation,
    Luminosity,
}

/// The stored number of a blend mode, in declaration order.
pub open spec fn blend_code(m: BlendMode) -> u32 {
    match m {
        BlendMode::Default => 0,
        BlendMode::Multiply => 1,
        BlendMode::Screen => 2,
        BlendMode::Overlay => 3,
        BlendMode::Darken => 4,
        BlendMode::Lighten => 5,
        BlendMode::Dodge => 6,
        BlendMode::Burn => 7,
        BlendMode::HardLight => 8,
        BlendMode::SoftLight => 9,
        BlendMode::Difference => 10,
        BlendMode::Exclusion => 11,
        BlendMode::Color => 12,
        BlendMode::Hue => 13,
        BlendMode::Saturation => 14,
        BlendMode::Luminosity => 15,
    }
}

impl BlendMode {
    /// The default blend mode.
    pub fn default() -> (res: Self)
        ensures
            res == BlendMode::Default,
    {
        BlendMode::Default
    }

    /// Reads a stored number; numbers past 15 are refused.
    pub fn try_from_u32(value: u32) -> (res: Result<Self, ()>)
        ensures
            value <= 15 ==> res is Ok && blend_code(res->Ok_0) == value,
            value > 15 ==> res is Err,
    {
        match value {
            0 => Ok(BlendMode::Default),
            1 => Ok(BlendMode::Multiply),
            2 => Ok(BlendMode::Screen),
            3 => Ok(BlendMode::Overlay),
            4 => Ok(BlendMode::Darken),
            5 => Ok(BlendMode::Lighten),
            6 => Ok(BlendMode::Dodge),
            7 => Ok(BlendMode::Burn),
            8 => Ok(BlendMode::HardLight),
            9 => Ok(BlendMode::SoftLight),
            10 => Ok(BlendMode::Difference),
            11 => Ok(BlendMode::Exclusion),
            12 => Ok(BlendMode::Color),
            13 => Ok(BlendMode::Hue),
            14 => Ok(BlendMode::Saturation),
            15 => Ok(BlendMode::Luminosity),
            _ => Err(()),
        }
    }

    /// The number to store.
    pub fn to_u32(self) -> (res: u32)
        ensures
            res == blend_code(self),
    {
        match self {
            BlendMode::Default => 0,
            BlendMode::Multiply => 1,
            BlendMode::Screen => 2,
            BlendMode::Overlay => 3,
            BlendMode::Darken => 4,
            BlendMode::Lighten => 5,
            BlendMode::Dodge => 6,
            BlendMode::Burn => 7,
            BlendMode::HardLight => 8,
            BlendMode::SoftLight => 9,
            BlendMode::Difference => 10,
            BlendMode::Exclusion => 11,
            BlendMode::Color => 12,
            BlendMode::Hue => 13,
            BlendMode::Saturation => 14,
            BlendMode::Luminosity => 15,
        }
    }
}

/// Storing a blend mode and reading it back gives the same mode, and no two
/// modes share a number.
pub proof fn lemma_blend_code_roundtrip(m: BlendMode, n: BlendMode)
    ensures
        blend_code(m) <= 15,
        blend_code(m) == blend_code(n) ==> m == n,
{
}

/// The renderer's blend modes.
#[derive(Debug, Clone, Copy, PartialEq, Eq, Structural)]
pub enum RenderBlendMode {
    Default,
    Multiply,
    Screen,
    Overlay,
    Darken,
    Lighten,
    ColorDodge,
    ColorBurn,
    HardLight,
    SoftLight,
    Difference,
    Exclusion,
    Color,
    Hue,
    Saturation,
    Luminosity,
}

/// The renderer's mode for a stored mode.
pub open spec fn render_of(m: BlendMode) -> RenderBlendMode {
    match m {
        BlendMode::Default => RenderBlendMode::Default,
        BlendMode::Multiply => RenderBlendMode::Multiply,
        BlendMode::Screen => RenderBlendMode::Screen,
        BlendMode::Overlay => RenderBlendMode::Overlay,
        BlendMode::Darken => RenderBlendMode::Darken,
        BlendMode::Lighten => RenderBlendMode::Lighten,
        BlendMode::Dodge => RenderBlendMode::ColorDodge,
        BlendMode::Burn => RenderBlendMode::ColorBurn,
        BlendMode::HardLight => RenderBlendMode::HardLight,
        BlendMode::SoftLight => RenderBlendMode::SoftLight,
        BlendMode::Difference => RenderBlendMode::Difference,
        BlendMode::Exclusion => RenderBlendMode::Exclusion,
        BlendMode::Color => RenderBlendMode::Color,
        BlendMode::Hue => RenderBlendMode::Hue,
        BlendMode::Saturation => RenderBlendMode::Saturation,
        BlendMode::Luminosity => RenderBlendMode::Luminosity,
    }
}

/// The renderer's mode to use.
pub fn to_render_blend_mode(m: BlendMode) -> (res: RenderBlendMode)
    ensures
        res == render_of(m),
{
    match m {
        BlendMode::Default => RenderBlendMode::Default,
        BlendMode::Multiply => RenderBlendMode::Multiply,
        BlendMode::Screen => RenderBlendMode::Screen,
        BlendMode::Overlay => RenderBlendMode::Overlay,
        BlendMode::Darken => RenderBlendMode::Darken,
        BlendMode::Lighten => RenderBlendMode::Lighten,
        BlendMode::Dodge => RenderBlendMode::ColorDodge,
        BlendMode::Burn => RenderBlendMode::ColorBurn,
        BlendMode::HardLight => RenderBlendMode::HardLight,
        BlendMode::SoftLight => RenderBlendMode::SoftLight,
        BlendMode::Difference => RenderBlendMode::Difference,
        BlendMode::Exclusion => RenderBlendMode::Exclusion,
        BlendMode::Color => RenderBlendMode::Color,
        BlendMode::Hue => RenderBlendMode::Hue,
        BlendMode::Saturation => RenderBlendMode::Saturation,
        BlendMode::Luminosity => RenderBlendMode::Luminosity,
    }
}

/// The stored mode for a renderer's mode. The renderer's `Hue` has no
/// counterpart on this side.
pub fn from_render_blend_mode(r: RenderBlendMode) -> (res: BlendMode)
    requires
        r != RenderBlendMode::Hue,
    ensures
        render_of(res) == r,
{
    match r {
        RenderBlendMode::Default => BlendMode::Default,
        RenderBlendMode::Multiply => BlendMode::Multiply,
        RenderBlendMode::Screen => BlendMode::Screen,
        RenderBlendMode::Overlay => BlendMode::Overlay,
        RenderBlendMode::Darken => BlendMode::Darken,
        RenderBlendMode::Lighten => BlendMode::Lighten,
        RenderBlendMode::ColorDodge => BlendMode::Dodge,
        RenderBlendMode::ColorBurn => BlendMode::Burn,
        RenderBlendMode::HardLight => BlendMode::HardLight,
        RenderBlendMode::SoftLight => BlendMode::SoftLight,
        RenderBlendMode::Difference => BlendMode::Difference,
        RenderBlendMode::Exclusion => BlendMode::Exclusion,
        RenderBlendMode::Color => BlendMode::Color,
        RenderBlendMode::Saturation => BlendMode::Saturation,
        RenderBlendMode::Luminosity => BlendMode::Luminosity,
        RenderBlendMode::Hue => BlendMode::Hue,
    }
}

/// Converting to the renderer's mode and back is the identity, except for
/// `Hue`, which the way back does not take.
pub proof fn lemma_render_roundtrip(m: BlendMode)
    requires
        m != BlendMode::Hue,
    ensures
        render_of(m) != RenderBlendMode::Hue,
        forall|b: BlendMode| render_of(b) == render_of(m) ==> b == m,
{
}

/// How a title that does not fit is shown.
#[derive(Debug, Clone, Copy, PartialEq, Eq, Structural)]
pub enum MarqueeWrapMode {
    Scroll,
    Ellipsis,
    Wrap,
}

/// The settings' name of a mode.
pub open spec fn wrap_mode_name(m: MarqueeWrapMode) -> Seq<char> {
    match m {
        MarqueeWrapMode::Ellipsis => "ellipsis"@,
        MarqueeWrapMode::Scroll => "scroll"@,
        MarqueeWrapMode::Wrap => "wrap"@,
    }
}

/// The menu position of a mode.
pub open spec fn wrap_mode_idx(m: MarqueeWrapMode) -> u32 {
    match m {
        MarqueeWrapMode::Ellipsis => 0,
        MarqueeWrapMode::Scroll => 1,
        MarqueeWrapMode::Wrap => 2,
    }
}

impl MarqueeWrapMode {
    /// Scrolling is the default.
    pub fn default() -> (res: Self)
        ensures
            res == MarqueeWrapMode::Scroll,
    {
        MarqueeWrapMode::Scroll
    }

    /// Reads a settings name; unknown names are refused.
    pub fn try_from_str(s: &str) -> (res: Result<Self, ()>)
        ensures
            match res {
                Ok(m) => wrap_mode_name(m) == s@,
                Err(_) => s@ != "ellipsis"@ && s@ != "scroll"@ && s@ != "wrap"@,
            },
    {
        if str_eq(s, "ellipsis") {
            Ok(MarqueeWrapMode::Ellipsis)
        } else if str_eq(s, "scroll") {
            Ok(MarqueeWrapMode::Scroll)
        } else if str_eq(s, "wrap") {
            Ok(MarqueeWrapMode::Wrap)
        } else {
            Err(())
        }
    }

    /// Reads a menu position; positions past 2 are refused.
    pub fn try_from_u32(value: u32) -> (res: Result<Self, ()>)
        ensures
            value <= 2 ==> res is Ok && wrap_mode_idx(res->Ok_0) == value,
            value > 2 ==> res is Err,
    {
        match value {
            0 => Ok(MarqueeWrapMode::Ellipsis),
            1 => Ok(MarqueeWrapMode::Scroll),
            2 => Ok(MarqueeWrapMode::Wrap),
            _ => Err(()),
        }
    }

    /// The settings' name.
    pub fn as_str(&self) -> (res: &'static str)
        ensures
            res@ == wrap_mode_name(*self),
    {
        match self {
            MarqueeWrapMode::Ellipsis => "ellipsis",
            MarqueeWrapMode::Scroll => "scroll",
            MarqueeWrapMode::Wrap => "wrap",
        }
    }

    /// The menu position.
    pub fn as_idx(&self) -> (res: u32)
        ensures
            res == wrap_mode_idx(*self),
    {
        match self {
            MarqueeWrapMode::Ellipsis => 0,
            MarqueeWrapMode::Scroll => 1,
            MarqueeWrapMode::Wrap => 2,
        }
    }
}

/// Names and positions identify the modes: storing one and reading it back
/// gives it back.
pub proof fn lemma_wrap_mode_roundtrip(m: MarqueeWrapMode, n: MarqueeWrapMode)
    ensures
        wrap_mode_idx(m) <= 2,
        wrap_mode_idx(m) == wrap_mode_idx(n) ==> m == n,
        wrap_mode_name(m) == wrap_mode_name(n) ==> m == n,
{
    reveal_strlit("ellipsis");
    reveal_strlit("scroll");
    reveal_strlit("wrap");
    if wrap_mode_name(m) == wrap_mode_name(n) && m != n {
        assert(wrap_mode_name(m).len() != wrap_mode_name(n).len() || wrap_mode_name(m)[0]
            != wrap_mode_name(n)[0]);
    }
}

/// How a label is laid out for a mode: (wraps, at most this many lines,
/// ellipsized at the end).
pub fn wrap_mode_layout(mode: MarqueeWrapMode) -> (res: (bool, i32, bool))
    ensures
        mode == MarqueeWrapMode::Ellipsis ==> res == (false, 1i32, true),
        mode == MarqueeWrapMode::Wrap ==> res == (true, 3i32, true),
        mode == MarqueeWrapMode::Scroll ==> res == (false, 1i32, false),
{
    match mode {
        MarqueeWrapMode::Ellipsis => (false, 1, true),
        MarqueeWrapMode::Wrap => (true, 3, true),
        MarqueeWrapMode::Scroll => (false, 1, false),
    }
}

/// What the scrolling animation does.
#[derive(Debug, Clone, Copy, PartialEq, Eq, Structural)]
pub enum MarqueeAction {
    /// Start from the beginning.
    Start,
    /// Leave it playing.
    Keep,
    /// Stop and go back to the beginning.
    Reset,
}

/// The text scrolls only when asked to and wider than its space; a
/// scroll that is not already playing starts over.
pub fn check_animation(should_run: bool, child_width: i32, width: i32, playing: bool) -> (res:
    MarqueeAction)
    ensures
        should_run && child_width > width && !playing ==> res == MarqueeAction::Start,
        should_run && child_width > width && playing ==> res == MarqueeAction::Keep,
        !(should_run && child_width > width) ==> res == MarqueeAction::Reset,
{
    if should_run && child_width > width {
        if !playing {
            MarqueeAction::Start
        } else {
            MarqueeAction::Keep
        }
    } else {
        MarqueeAction::Reset
    }
}

/// Whether hovering starts the scroll: only in scrolling mode.
pub fn runs_on_hover(mode: MarqueeWrapMode) -> (res: bool)
    ensures
        res == (mode == MarqueeWrapMode::Scroll),
{
    mode == MarqueeWrapMode::Scroll
}

/// The size a marquee asks for: a wrapping one asks what its label asks;
/// otherwise its requested width is both the horizontal minimum and a floor
/// on the natural size. Sizes are (minimum, natural, minimum baseline,
/// natural baseline).
pub fn marquee_measure(
    wrap: bool,
    horizontal: bool,
    width_request: i32,
    child: (i32, i32, i32, i32),
) -> (res: (i32, i32, i32, i32))
    ensures
        wrap ==> res == child,
        !wrap ==> res.1 == (if child.1 > width_request {
            child.1
        } else {
            width_request
        }) && res.2 == child.2 && res.3 == child.3 && res.0 == (if horizontal {
            width_request
        } else {
            child.0
        }),
{
    if wrap {
        child
    } else {
        let natural = if child.1 > width_request {
            child.1
        } else {
            width_request
        };
        if horizontal {
            (width_request, natural, child.2, child.3)
        } else {
            (child.0, natural, child.2, child.3)
        }
    }
}

/// The application's colour scheme settings.
#[derive(Debug, Clone, Copy, PartialEq, Eq, Structural)]
pub enum ColorScheme {
    Default,
    ForceLight,
    PreferLight,
    PreferDark,
    ForceDark,
}

/// The theme selector's three buttons.
#[derive(Debug, Clone, Copy, PartialEq, Eq, Structural)]
pub enum ThemeChoice {
    Follow,
    Light,
    Dark,
}

/// The button that shows a scheme: dark ones, light ones, else following the
/// system.
pub open spec fn choice_for(scheme: ColorScheme) -> ThemeChoice {
    match scheme {
        ColorScheme::ForceDark | ColorScheme::PreferDark => ThemeChoice::Dark,
        ColorScheme::ForceLight | ColorScheme::PreferLight => ThemeChoice::Light,
        ColorScheme::Default => ThemeChoice::Follow,
    }
}

/// The scheme a button asks for.
pub open spec fn scheme_for(choice: ThemeChoice) -> ColorScheme {
    match choice {
        ThemeChoice::Follow => ColorScheme::Default,
        ThemeChoice::Light => ColorScheme::ForceLight,
        ThemeChoice::Dark => ColorScheme::ForceDark,
    }
}

/// The button to mark active for the current scheme.
pub fn update_selection(scheme: ColorScheme) -> (res: ThemeChoice)
    ensures
        res == choice_for(scheme),
{
    match scheme {
        ColorScheme::ForceDark | ColorScheme::PreferDark => ThemeChoice::Dark,
        ColorScheme::ForceLight | ColorScheme::PreferLight => ThemeChoice::Light,
        _ => ThemeChoice::Follow,
    }
}

/// The scheme to apply when a button is turned on.
pub fn scheme_on_toggle(choice: ThemeChoice) -> (res: ColorScheme)
    ensures
        res == scheme_for(choice),
{
    match choice {
        ThemeChoice::Follow => ColorScheme::Default,
        ThemeChoice::Light => ColorScheme::ForceLight,
        ThemeChoice::Dark => ColorScheme::ForceDark,
    }
}

/// Picking a button applies a scheme that shows that same button.
pub proof fn lemma_theme_choice_stable(choice: ThemeChoice)
    ensures
        choice_for(scheme_for(choice)) == choice,
{
}

/// The look of one star.
#[derive(Debug, Clone, Copy, PartialEq, Eq, Structural)]
pub enum StarFill {
    Full,
    Half,
    Empty,
}

/// The look of star `k` (1 to 5) for a rating in half stars: full from
/// `2k`, half at `2k - 1`. The last star is full only at exactly 10.
pub open spec fn star_fill(k: int, value: int) -> StarFill {
    if (k < 5 && value >= 2 * k) || (k == 5 && value == 10) {
        StarFill::Full
    } else if value == 2 * k - 1 {
        StarFill::Half
    } else {
        StarFill::Empty
    }
}

/// The icon name of a star's look.
pub open spec fn star_icon(f: StarFill) -> Seq<char> {
    match f {
        StarFill::Full => "star-large-symbolic"@,
        StarFill::Half => "star-outline-half-left-symbolic"@,
        StarFill::Empty => "star-outline-rounded-symbolic"@,
    }
}

/// The icon name for a look.
pub fn star_icon_name(f: StarFill) -> (res: &'static str)
    ensures
        res@ == star_icon(f),
{
    match f {
        StarFill::Full => "star-large-symbolic",
        StarFill::Half => "star-outline-half-left-symbolic",
        StarFill::Empty => "star-outline-rounded-symbolic",
    }
}

/// The looks of the five stars for a rating (a true value or a preview).
pub fn update_stars(to_value: i8) -> (res: [StarFill; 5])
    ensures
        forall|k: int| 0 <= k < 5 ==> #[trigger] res[k] == star_fill(k + 1, to_value as int),
{
    let mut stars = [StarFill::Empty;5];
    let mut k: i8 = 1;
    while k <= 5
        invariant
            1 <= k <= 6,
            forall|j: int| 0 <= j < k - 1 ==> #[trigger] stars[j] == star_fill(j + 1, to_value as int),
        decreases 6 - k,
    {
        let full = if k < 5 {
            to_value >= 2 * k
        } else {
            to_value == 10
        };
        let fill = if full {
            StarFill::Full
        } else if to_value == 2 * k - 1 {
            StarFill::Half
        } else {
            StarFill::Empty
        };
        stars[(k - 1) as usize] = fill;
        k = k + 1;
    }
    stars
}

/// The star rating widget's values: the rating (in half stars) and the value
/// previewed under the pointer.
#[derive(Debug, Clone, Copy, PartialEq, Eq, Structural)]
pub struct Rating {
    pub value: i8,
    pub preview_value: i8,
    pub editable: bool,
}

impl Rating {
    /// Sets the rating; when it changes, the stars to draw are returned.
    pub fn set_value(&mut self, new: i8) -> (res: Option<[StarFill; 5]>)
        ensures
            final(self).value == new,
            final(self).preview_value == old(self).preview_value,
            final(self).editable == old(self).editable,
            old(self).value == new ==> res is None,
            old(self).value != new ==> res is Some && forall|k: int|
                0 <= k < 5 ==> #[trigger] res->0[k] == star_fill(k + 1, new as int),
    {
        let old = self.value;
        self.value = new;
        if old != new {
            Some(update_stars(new))
        } else {
            None
        }
    }

    /// A click ends a preview: an editable rating takes the previewed value.
    /// The result says whether the change is announced as the user's.
    pub fn on_release(&mut self) -> (res: bool)
        ensures
            res == old(self).editable,
            old(self).editable ==> final(self).value == old(self).preview_value,
            !old(self).editable ==> final(self).value == old(self).value,
            final(self).preview_value == old(self).preview_value,
            final(self).editable == old(self).editable,
    {
        if self.editable {
            let v = self.preview_value;
            self.set_value(v);
            true
        } else {
            false
        }
    }

    /// The value shown when the pointer leaves: the rating itself.
    pub fn on_leave(&self) -> (res: [StarFill; 5])
        ensures
            forall|k: int| 0 <= k < 5 ==> #[trigger] res[k] == star_fill(k + 1, self.value as int),
    {
        update_stars(self.value)
    }
}

/// Icon sizes a rating can be drawn at.
#[derive(Debug, Clone, Copy, PartialEq, Eq, Structural)]
pub enum IconSize {
    Inherit,
    Normal,
    Large,
}

/// The icon size for a stored code; unknown codes leave it unset.
pub fn icon_size_for_code(code: u8) -> (res: Option<IconSize>)
    ensures
        code == 0 ==> res == Some(IconSize::Inherit),
        code == 1 ==> res == Some(IconSize::Normal),
        code == 2 ==> res == Some(IconSize::Large),
        code > 2 ==> res is None,
{
    match code {
        0 => Some(IconSize::Inherit),
        1 => Some(IconSize::Normal),
        2 => Some(IconSize::Large),
        _ => None,
    }
}

} // verus!
