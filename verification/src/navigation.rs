//! The side menu that switches between the four screens.
use vstd::prelude::*;

verus! {

/// The four screens of the application.
#[derive(Clone, Copy, Debug, PartialEq, Eq, Structural)]
pub enum MainTab {
    Chat,
    FileChat,
    FineTune,
    Dashboard,
}

/// Which screen is shown.
pub struct App {
    pub active_tab: MainTab,
}

/// The menu colour of the entry for `tab` while `active` is shown: blue for
/// the shown screen, no colour for the others.
pub open spec fn nav_background(active: MainTab, tab: MainTab) -> Seq<char> {
    if active == tab {
        "#3182ce"@
    } else {
        "transparent"@
    }
}

impl App {
    /// The application opens on the chat screen.
    pub fn new() -> (r: App)
        ensures
            r.active_tab == MainTab::Chat,
    {
        App { active_tab: MainTab::Chat }
    }

    /// Shows the screen `tab`.
    pub fn select_tab(&mut self, tab: MainTab)
        ensures
            final(self).active_tab == tab,
    {
        self.active_tab = tab;
    }

    /// The menu colour of the entry for `tab`.
    pub fn tab_background(&self, tab: MainTab) -> (r: &'static str)
        ensures
            r@ == nav_background(self.active_tab, tab),
    {
        if self.active_tab == tab {
            "#3182ce"
        } else {
            "transparent"
        }
    }
}

/// After choosing a screen, its menu entry is the one and only highlighted
/// entry.
pub proof fn lemma_selected_tab_alone_highlighted(app: App, chosen: MainTab, other: MainTab)
    requires
        app.active_tab == chosen,
    ensures
        nav_background(app.active_tab, chosen) == "#3182ce"@,
        other != chosen ==> nav_background(app.active_tab, other) == "transparent"@,
{
}

} // verus!
