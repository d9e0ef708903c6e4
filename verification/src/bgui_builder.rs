use vstd::prelude::*;

verus! {

/// How the window is to be shown.
#[derive(PartialEq, Eq, Structural, Clone, Copy, Debug)]
pub enum WinMode {
    FULL,
    WINDOW,
}

/// Collects the settings of a window before it is opened.
pub struct BGuiBuilder {
    x: Option<u32>,
    y: Option<u32>,
    title: Option<String>,
    mode: Option<WinMode>,
    resizable: bool,
}

/// What a builder holds, as mathematical values.
pub struct BuilderView {
    pub width: Option<u32>,
    pub height: Option<u32>,
    pub title: Option<Seq<char>>,
    pub mode: Option<WinMode>,
    pub resizable: bool,
}

/// The settings with which the window is created.
pub struct WindowSettings {
    pub title: String,
    pub resizable: bool,
    pub width: u32,
    pub height: u32,
}

/// The settings of a window, as mathematical values.
pub struct SettingsView {
    pub title: Seq<char>,
    pub resizable: bool,
    pub width: u32,
    pub height: u32,
}

impl View for WindowSettings {
    type V = SettingsView;

    open spec fn view(&self) -> SettingsView {
        SettingsView {
            title: self.title@,
            resizable: self.resizable,
            width: self.width,
            height: self.height,
        }
    }
}

impl View for BGuiBuilder {
    type V = BuilderView;

    closed spec fn view(&self) -> BuilderView {
        BuilderView {
            width: self.x,
            height: self.y,
            title: match self.title {
                Some(t) => Some(t@),
                None => None,
            },
            mode: self.mode,
            resizable: self.resizable,
        }
    }
}

/// The title a window gets when the builder was given none.
pub open spec fn default_title() -> Seq<char> {
    seq!['N', 'o', ' ', 'T', 'i', 't', 'l', 'e']
}

impl BuilderView {
    /// The builder on which nothing has been set yet.
    pub open spec fn empty() -> BuilderView {
        BuilderView { width: None, height: None, title: None, mode: None, resizable: false }
    }

    /// A window can be opened once both of its dimensions are known.
    pub open spec fn is_complete(self) -> bool {
        self.width is Some && self.height is Some
    }

    /// The title the window will carry.
    pub open spec fn effective_title(self) -> Seq<char> {
        match self.title {
            Some(t) => t,
            None => default_title(),
        }
    }

    /// The settings of the window, once both dimensions are known.
    pub open spec fn settings(self) -> SettingsView
        recommends
            self.is_complete(),
    {
        SettingsView {
            title: self.effective_title(),
            resizable: self.resizable,
            width: self.width.unwrap(),
            height: self.height.unwrap(),
        }
    }

    /// The builder with the width set to `x`.
    pub open spec fn with_width(self, x: u32) -> BuilderView {
        BuilderView { width: Some(x), ..self }
    }

    /// The builder with the height set to `y`.
    pub open spec fn with_height(self, y: u32) -> BuilderView {
        BuilderView { height: Some(y), ..self }
    }

    /// The builder with the display mode set to `mode`.
    pub open spec fn with_mode(self, mode: WinMode) -> BuilderView {
        BuilderView { mode: Some(mode), ..self }
    }

    /// The builder with the title set to `title`.
    pub open spec fn with_title(self, title: Seq<char>) -> BuilderView {
        BuilderView { title: Some(title), ..self }
    }

    /// The builder of a resizable window.
    pub open spec fn with_resizable(self) -> BuilderView {
        BuilderView { resizable: true, ..self }
    }
}

impl BGuiBuilder {
    /// A builder with no dimension, title or mode, and not resizable.
    pub fn new() -> (b: Self)
        ensures
            b@ == BuilderView::empty(),
    {
        Self { x: None, y: None, title: None, mode: None, resizable: false }
    }

    /// Sets the width of the window; the rest is kept.
    pub fn width(self, x: u32) -> (b: Self)
        ensures
            b@ == self@.with_width(x),
    {
        Self { x: Some(x), ..self }
    }

    /// Sets the height of the window; the rest is kept.
    pub fn height(self, y: u32) -> (b: Self)
        ensures
            b@ == self@.with_height(y),
    {
        Self { y: Some(y), ..self }
    }

    /// Sets the display mode of the window; the rest is kept.
    pub fn mode(self, mode: WinMode) -> (b: Self)
        ensures
            b@ == self@.with_mode(mode),
    {
        Self { mode: Some(mode), ..self }
    }

    /// Sets the title of the window (a copy of `title`); the rest is kept.
    pub fn title(self, title: &str) -> (b: Self)
        ensures
            b@ == self@.with_title(title@),
    {
        let t = title.to_string();
        Self { title: Some(t), ..self }
    }

    /// Makes the window resizable; the rest is kept.
    pub fn resizable(self) -> (b: Self)
        ensures
            b@ == self@.with_resizable(),
    {
        Self { resizable: true, ..self }
    }

    /// The width set so far, if any.
    pub fn get_width(&self) -> (r: Option<u32>)
        ensures
            r == self@.width,
    {
        self.x
    }

    /// The height set so far, if any.
    pub fn get_height(&self) -> (r: Option<u32>)
        ensures
            r == self@.height,
    {
        self.y
    }

    /// The settings of the window the builder describes: its title (or
    /// "No Title"), whether it is resizable, and its size. The display mode
    /// does not take part in them. Both dimensions must have been set.
    pub fn window_settings(self) -> (s: WindowSettings)
        requires
            self@.is_complete(),
        ensures
            s@ == self@.settings(),
            s.resizable == self@.resizable,
            Some(s.width) == self@.width,
            Some(s.height) == self@.height,
            self@.title matches Some(t) ==> s.title@ == t,
            self@.title is None ==> s.title@ == default_title(),
    {
        let title = match self.title {
            Some(t) => t,
            None => {
                let t = "No Title".to_string();
                proof {
                    reveal_strlit("No Title");
                    assert(t@ =~= default_title());
                }
                t
            },
        };
        WindowSettings {
            title,
            resizable: self.resizable,
            width: self.x.unwrap(),
            height: self.y.unwrap(),
        }
    }
}

/// Setting the same thing twice keeps the second value: the width, the
/// height, the mode and the title are overwritten, and making a window
/// resizable twice is the same as doing it once.
pub proof fn law_last_setting_wins(
    b: BuilderView,
    x1: u32,
    x2: u32,
    y1: u32,
    y2: u32,
    m1: WinMode,
    m2: WinMode,
    t1: Seq<char>,
    t2: Seq<char>,
)
    ensures
        b.with_width(x1).with_width(x2) == b.with_width(x2),
        b.with_height(y1).with_height(y2) == b.with_height(y2),
        b.with_mode(m1).with_mode(m2) == b.with_mode(m2),
        b.with_title(t1).with_title(t2) == b.with_title(t2),
        b.with_resizable().with_resizable() == b.with_resizable(),
{
}

/// Setters of different settings can be called in either order.
pub proof fn law_setters_commute(b: BuilderView, x: u32, y: u32, m: WinMode, t: Seq<char>)
    ensures
        b.with_width(x).with_height(y) == b.with_height(y).with_width(x),
        b.with_width(x).with_mode(m) == b.with_mode(m).with_width(x),
        b.with_width(x).with_title(t) == b.with_title(t).with_width(x),
        b.with_width(x).with_resizable() == b.with_resizable().with_width(x),
        b.with_height(y).with_mode(m) == b.with_mode(m).with_height(y),
        b.with_height(y).with_title(t) == b.with_title(t).with_height(y),
        b.with_height(y).with_resizable() == b.with_resizable().with_height(y),
        b.with_mode(m).with_title(t) == b.with_title(t).with_mode(m),
        b.with_mode(m).with_resizable() == b.with_resizable().with_mode(m),
        b.with_title(t).with_resizable() == b.with_resizable().with_title(t),
{
}

/// The display mode has no effect on the settings a window is created with.
pub proof fn law_mode_does_not_change_settings(b: BuilderView, m: WinMode)
    requires
        b.is_complete(),
    ensures
        b.with_mode(m).is_complete(),
        b.with_mode(m).settings() == b.settings(),
{
}

/// A builder can be opened exactly once both dimensions are given, whatever
/// else was set; the window then has the last size given.
pub proof fn law_complete_after_size(b: BuilderView, x: u32, y: u32)
    ensures
        b.with_width(x).with_height(y).is_complete(),
        b.with_width(x).with_height(y).settings().width == x,
        b.with_width(x).with_height(y).settings().height == y,
        BuilderView::empty().with_width(x).is_complete() == false,
        BuilderView::empty().with_height(y).is_complete() == false,
{
}

/// A new builder holds nothing: no size, no title, no mode, not resizable.
pub proof fn law_new_builder_is_empty()
    ensures
        BuilderView::empty().width is None,
        BuilderView::empty().height is None,
        BuilderView::empty().title is None,
        BuilderView::empty().mode is None,
        !BuilderView::empty().resizable,
        !BuilderView::empty().is_complete(),
{
}

/// Each setter stores exactly the value it is given, whole, and leaves
/// every other setting as it was.
pub proof fn law_setters_store_their_value(b: BuilderView, x: u32, y: u32, m: WinMode, t: Seq<char>)
    ensures
        b.with_width(x).width == Some(x),
        b.with_width(x).height == b.height,
        b.with_width(x).title == b.title,
        b.with_width(x).mode == b.mode,
        b.with_width(x).resizable == b.resizable,
        b.with_height(y).height == Some(y),
        b.with_height(y).width == b.width,
        b.with_height(y).title == b.title,
        b.with_height(y).mode == b.mode,
        b.with_height(y).resizable == b.resizable,
        b.with_mode(m).mode == Some(m),
        b.with_mode(m).width == b.width,
        b.with_mode(m).height == b.height,
        b.with_mode(m).title == b.title,
        b.with_mode(m).resizable == b.resizable,
        b.with_title(t).title == Some(t),
        b.with_title(t).width == b.width,
        b.with_title(t).height == b.height,
        b.with_title(t).mode == b.mode,
        b.with_title(t).resizable == b.resizable,
        b.with_resizable().resizable,
        b.with_resizable().width == b.width,
        b.with_resizable().height == b.height,
        b.with_resizable().title == b.title,
        b.with_resizable().mode == b.mode,
{
}

/// The default title is the text "No Title".
pub proof fn law_default_title_is_no_title()
    ensures
        default_title() == "No Title"@,
{
    reveal_strlit("No Title");
    assert(default_title() =~= "No Title"@);
}

/// A window carries the title it was given, whole and whatever its length;
/// only a builder given no title gets the default one.
pub proof fn law_title_is_kept(b: BuilderView, t: Seq<char>, x: u32, y: u32)
    ensures
        b.title matches Some(u) ==> b.effective_title() == u,
        b.title is None ==> b.effective_title() == default_title(),
        b.with_title(t).effective_title() == t,
        b.with_title(t).with_width(x).with_height(y).settings().title == t,
        b.with_width(x).with_height(y).with_title(t).settings().title == t,
{
}

/// The settings of a complete builder carry its flags and size unchanged:
/// the resizable flag is the builder's, whatever the size, and the size is
/// the one last set.
pub proof fn law_settings_carry_the_builder(b: BuilderView)
    requires
        b.is_complete(),
    ensures
        b.settings().resizable == b.resizable,
        Some(b.settings().width) == b.width,
        Some(b.settings().height) == b.height,
        b.title matches Some(t) ==> b.settings().title == t,
        b.title is None ==> b.settings().title == default_title(),
        b.with_resizable().settings().resizable,
{
}

} // verus!
