//! Footer bar with key binding hints and status.
use vstd::prelude::*;

use crate::state::{Notification, Page};
use crate::text::{decimal, decimal_string};
use crate::theme::ThemeColors;

verus! {

broadcast use vstd::string::group_string_axioms;

/// Footer bar: the page whose hints it shows, the sample rate of the playing
/// stream, the notification that replaces the hints, and its colours.
pub struct Footer<'a> {
    pub page: Page,
    pub sample_rate: Option<u32>,
    pub notification: Option<&'a Notification>,
    pub colors: ThemeColors,
}

/// Hints shown on every page.
pub open spec fn global_hints() -> Seq<(&'static str, &'static str)> {
    seq![
        ("q", "Quit"),
        ("p/Space", "Pause"),
        ("h", "Prev"),
        ("l", "Next"),
        ("-/+", "Volume"),
        ("?", "Help"),
    ]
}

/// Hints of one page.
pub open spec fn page_hints(page: Page) -> Seq<(&'static str, &'static str)> {
    match page {
        Page::Browse => seq![
            ("Enter", "Play"),
            ("e", "Add"),
            ("n", "Add next"),
            ("←/→", "Songs/Albums"),
            ("/", "Search"),
            ("Tab", "Focus"),
            ("f", "Star/Un-star"),
        ],
        Page::Artists => seq![
            ("Enter", "Play"),
            ("←/→", "Focus"),
            ("/", "Search"),
            ("e", "Add"),
            ("n", "Add next"),
            ("s", "Shuffle"),
            ("f", "Star/Un-star"),
        ],
        Page::Queue => seq![
            ("Enter", "Play"),
            ("d", "Remove"),
            ("J/K", "Move"),
            ("s", "Shuffle"),
            ("c", "Clear history"),
            ("f", "Star/Un-star"),
        ],
        Page::Playlists => seq![
            ("Enter", "Play"),
            ("←/→", "Focus"),
            ("e", "Add"),
            ("n", "Add next"),
            ("s", "Shuffle play"),
        ],
        Page::Radio => seq![("Enter", "Play"), ("Space", "Play/Pause"), ("Ctrl+R", "Refresh")],
        Page::Server => seq![("Tab", "Next field"), ("Enter", "Test/Save"), ("Ctrl+R", "Refresh")],
        Page::Settings => seq![("←/→/Enter", "Change theme")],
    }
}

fn push_all(v: &mut Vec<(&'static str, &'static str)>, items: &[(&'static str, &'static str)])
    ensures
        final(v)@ == old(v)@ + items@,
{
    let mut i: usize = 0;
    while i < items.len()
        invariant
            i <= items@.len(),
            v@ == old(v)@ + items@.take(i as int),
        decreases items@.len() - i,
    {
        v.push(items[i]);
        assert(items@.take(i + 1) =~= items@.take(i as int).push(items@[i as int]));
        i = i + 1;
    }
    assert(items@.take(items@.len() as int) =~= items@);
}

/// The text of a sample rate in whole kilohertz, such as "44kHz".
pub open spec fn sample_rate_text(rate: u32) -> Seq<char> {
    decimal((rate / 1000) as nat) + "kHz"@
}

impl<'a> Footer<'a> {
    pub fn new(page: Page, colors: ThemeColors) -> (r: Self)
        ensures
            r.page == page,
            r.sample_rate is None,
            r.notification is None,
            r.colors == colors,
    {
        Footer { page, sample_rate: None, notification: None, colors }
    }

    pub fn sample_rate(self, rate: Option<u32>) -> (r: Self)
        ensures
            r == (Footer { sample_rate: rate, ..self }),
    {
        let mut s = self;
        s.sample_rate = rate;
        s
    }

    pub fn notification(self, notification: Option<&'a Notification>) -> (r: Self)
        ensures
            r == (Footer { notification, ..self }),
    {
        let mut s = self;
        s.notification = notification;
        s
    }

    /// Key binding hints: the global ones, then those of the page.
    pub fn keybinds(&self) -> (r: Vec<(&'static str, &'static str)>)
        ensures
            r@ == global_hints() + page_hints(self.page),
    {
        let mut binds: Vec<(&'static str, &'static str)> = Vec::new();
        let global = [
            ("q", "Quit"),
            ("p/Space", "Pause"),
            ("h", "Prev"),
            ("l", "Next"),
            ("-/+", "Volume"),
            ("?", "Help"),
        ];
        push_all(&mut binds, &global);
        match self.page {
            Page::Browse => {
                let page = [
                    ("Enter", "Play"),
                    ("e", "Add"),
                    ("n", "Add next"),
                    ("←/→", "Songs/Albums"),
                    ("/", "Search"),
                    ("Tab", "Focus"),
                    ("f", "Star/Un-star"),
                ];
                push_all(&mut binds, &page);
            },
            Page::Artists => {
                let page = [
                    ("Enter", "Play"),
                    ("←/→", "Focus"),
                    ("/", "Search"),
                    ("e", "Add"),
                    ("n", "Add next"),
                    ("s", "Shuffle"),
                    ("f", "Star/Un-star"),
                ];
                push_all(&mut binds, &page);
            },
            Page::Queue => {
                let page = [
                    ("Enter", "Play"),
                    ("d", "Remove"),
                    ("J/K", "Move"),
                    ("s", "Shuffle"),
                    ("c", "Clear history"),
                    ("f", "Star/Un-star"),
                ];
                push_all(&mut binds, &page);
            },
            Page::Playlists => {
                let page = [
                    ("Enter", "Play"),
                    ("←/→", "Focus"),
                    ("e", "Add"),
                    ("n", "Add next"),
                    ("s", "Shuffle play"),
                ];
                push_all(&mut binds, &page);
            },
            Page::Radio => {
                let page = [("Enter", "Play"), ("Space", "Play/Pause"), ("Ctrl+R", "Refresh")];
                push_all(&mut binds, &page);
            },
            Page::Server => {
                let page = [("Tab", "Next field"), ("Enter", "Test/Save"), ("Ctrl+R", "Refresh")];
                push_all(&mut binds, &page);
            },
            Page::Settings => {
                let page = [("←/→/Enter", "Change theme")];
                push_all(&mut binds, &page);
            },
        }
        binds
    }
}

/// The sample rate shown at the right of the footer, in whole kilohertz.
pub fn sample_rate_label(rate: u32) -> (r: String)
    ensures
        r@ == sample_rate_text(rate),
{
    let mut s = decimal_string((rate / 1000) as u64);
    s.append("kHz");
    s
}

} // verus!
