//! Icon-locator hints: the identifying strings of a window that a renderer
//! can use to look up an application icon. The core only carries these hints
//! through and orders them; icon lookup itself is a GUI concern outside this
//! crate.

use vstd::prelude::*;

verus! {

/// The view of an `IconLocator`: each hint as a sequence of characters.
#[verifier::ext_equal]
pub struct IconLocatorView {
    pub app_id: Option<Seq<char>>,
    pub x_window_class: Option<Seq<char>>,
    pub x_window_instance: Option<Seq<char>>,
    pub window_title: Option<Seq<char>>,
}

/// Identifying strings for one window, owned and passed through wholesale;
/// the core never interprets them.
#[derive(Debug)]
pub struct IconLocator {
    /// Only Wayland windows have an app ID.
    pub app_id: Option<String>,
    /// Only Xwayland windows have a window class.
    pub x_window_class: Option<String>,
    /// Only Xwayland windows have a window instance.
    pub x_window_instance: Option<String>,
    /// Worst case, a renderer can fall back to the window title.
    pub window_title: Option<String>,
}

impl View for IconLocator {
    type V = IconLocatorView;

    open spec fn view(&self) -> IconLocatorView {
        IconLocatorView {
            app_id: self.app_id.deep_view(),
            x_window_class: self.x_window_class.deep_view(),
            x_window_instance: self.x_window_instance.deep_view(),
            window_title: self.window_title.deep_view(),
        }
    }
}

impl DeepView for IconLocator {
    type V = IconLocatorView;

    open spec fn deep_view(&self) -> IconLocatorView {
        self.view()
    }
}

impl Clone for IconLocator {
    fn clone(&self) -> (res: Self)
        ensures
            res@ == self@,
    {
        let res = IconLocator {
            app_id: self.app_id.clone(),
            x_window_class: self.x_window_class.clone(),
            x_window_instance: self.x_window_instance.clone(),
            window_title: self.window_title.clone(),
        };
        proof {
            assert(res@ =~= self@);
        }
        res
    }
}

/// The zero-or-one-element sequence an optional hint contributes to the
/// locator list.
pub open spec fn opt_hint(o: Option<Seq<char>>) -> Seq<Seq<char>> {
    match o {
        Some(s) => seq![s],
        None => Seq::empty(),
    }
}

/// The strings to try when locating the app icon, most promising first.
pub open spec fn locators_spec(v: IconLocatorView) -> Seq<Seq<char>> {
    opt_hint(v.app_id) + opt_hint(v.x_window_instance) + opt_hint(v.x_window_class) + opt_hint(
        v.window_title,
    )
}

impl IconLocator {
    /// The list of strings to use to try and locate the app icon, sorted by
    /// how likely they are to work.
    pub fn locators(&self) -> (r: Vec<&String>)
        ensures
            r.deep_view() == locators_spec(self@),
    {
        let mut r: Vec<&String> = Vec::new();
        if let Some(s) = &self.app_id {
            r.push(s);
        }
        if let Some(s) = &self.x_window_instance {
            r.push(s);
        }
        if let Some(s) = &self.x_window_class {
            r.push(s);
        }
        if let Some(s) = &self.window_title {
            r.push(s);
        }
        proof {
            assert(r.deep_view() =~= locators_spec(self@));
        }
        r
    }
}

} // verus!
