//! Titled, ordered groups of menu items and the builder that accumulates
//! them.
//!
//! A `SubmenuBuilder` starts empty under a title, grows by one catalog
//! primitive per append call (call order is display order), and is finished
//! by `build`, which consumes it. The resulting `Submenu` is immutable.

use vstd::prelude::*;
use vstd::string::StrSliceExecFns;

use crate::catalog;
use crate::catalog::MenuItem;
use crate::catalog::StandardAction;
use crate::error::PlatformMenuError;

verus! {

/// The mathematical model of a submenu: its title and its items, in
/// display order.
pub struct SubmenuView {
    pub title: Seq<char>,
    pub items: Seq<MenuItem>,
}

/// A named, ordered group of menu items, one level under the menu bar.
/// The sequence preserves insertion order; order is significant (it defines
/// the on-screen layout).
#[derive(Debug)]
pub struct Submenu {
    title: String,
    items: Vec<MenuItem>,
}

impl View for Submenu {
    type V = SubmenuView;

    closed spec fn view(&self) -> SubmenuView {
        SubmenuView { title: self.title@, items: self.items@ }
    }
}

impl DeepView for Submenu {
    type V = SubmenuView;

    closed spec fn deep_view(&self) -> SubmenuView {
        self.view()
    }
}

/// The deep view of a submenu is its view; sequences of submenus can be
/// read element by element through either.
pub broadcast proof fn lemma_submenu_deep_is_view(sm: Submenu)
    ensures
        #[trigger] sm.deep_view() == sm@,
{
}

impl Submenu {
    /// The visible label of the group.
    pub fn title(&self) -> (r: &str)
        ensures
            r@ == self@.title,
    {
        self.title.as_str()
    }

    /// How many entries the group holds, separators included.
    pub fn len(&self) -> (r: usize)
        ensures
            r == self@.items.len(),
    {
        self.items.len()
    }

    /// The entry at position `i` of the display order.
    pub fn item_at(&self, i: usize) -> (r: MenuItem)
        requires
            i < self@.items.len(),
        ensures
            r == self@.items[i as int],
    {
        self.items[i]
    }
}

/// The mathematical model of a builder: the title, the entries appended so
/// far in call order, and whether `build` has already consumed it.
pub struct SubmenuBuilderView {
    pub title: Seq<char>,
    pub entries: Seq<MenuItem>,
    pub built: bool,
}

/// Accumulates an ordered sequence of catalog primitives under a title.
///
/// State machine: empty, then accumulating (appends), then built (terminal,
/// once `build` runs). Appending after `build` is a precondition violation;
/// a second `build` is rejected with `PlatformMenuError::BuilderConsumed`.
pub struct SubmenuBuilder {
    title: String,
    entries: Vec<MenuItem>,
    built: bool,
}

impl View for SubmenuBuilder {
    type V = SubmenuBuilderView;

    closed spec fn view(&self) -> SubmenuBuilderView {
        SubmenuBuilderView { title: self.title@, entries: self.entries@, built: self.built }
    }
}

impl SubmenuBuilder {
    /// Starts an empty builder under `title`. Any title is accepted here;
    /// an empty one is rejected by `build`, where the platform would refuse
    /// construction. Duplicate titles across sibling submenus are legal.
    pub fn new(title: &str) -> (r: Self)
        ensures
            r@ == (SubmenuBuilderView {
                title: title@,
                entries: Seq::<MenuItem>::empty(),
                built: false,
            }),
    {
        SubmenuBuilder { title: title.to_owned(), entries: Vec::new(), built: false }
    }

    /// Whether `build` has already consumed this builder. Appending to, or
    /// building from, a consumed builder is the state-machine violation the
    /// contracts of the other methods rule out.
    pub fn is_built(&self) -> (r: bool)
        ensures
            r == self@.built,
    {
        self.built
    }

    /// Appends one entry; call order is preserved as display order.
    pub fn item(self, entry: MenuItem) -> (r: Self)
        requires
            !self@.built,
        ensures
            r@ == (SubmenuBuilderView {
                title: self@.title,
                entries: self@.entries.push(entry),
                built: false,
            }),
    {
        let mut b = self;
        b.entries.push(entry);
        b
    }

    /// Appends the close-window action.
    pub fn close_window(self) -> (r: Self)
        requires
            !self@.built,
        ensures
            r@ == (SubmenuBuilderView {
                title: self@.title,
                entries: self@.entries.push(MenuItem::Standard(StandardAction::CloseWindow)),
                built: false,
            }),
    {
        self.item(catalog::close_window())
    }

    /// Appends the undo action.
    pub fn undo(self) -> (r: Self)
        requires
            !self@.built,
        ensures
            r@ == (SubmenuBuilderView {
                title: self@.title,
                entries: self@.entries.push(MenuItem::Standard(StandardAction::Undo)),
                built: false,
            }),
    {
        self.item(catalog::undo())
    }

    /// Appends the redo action.
    pub fn redo(self) -> (r: Self)
        requires
            !self@.built,
        ensures
            r@ == (SubmenuBuilderView {
                title: self@.title,
                entries: self@.entries.push(MenuItem::Standard(StandardAction::Redo)),
                built: false,
            }),
    {
        self.item(catalog::redo())
    }

    /// Appends the cut action.
    pub fn cut(self) -> (r: Self)
        requires
            !self@.built,
        ensures
            r@ == (SubmenuBuilderView {
                title: self@.title,
                entries: self@.entries.push(MenuItem::Standard(StandardAction::Cut)),
                built: false,
            }),
    {
        self.item(catalog::cut())
    }

    /// Appends the copy action.
    pub fn copy(self) -> (r: Self)
        requires
            !self@.built,
        ensures
            r@ == (SubmenuBuilderView {
                title: self@.title,
                entries: self@.entries.push(MenuItem::Standard(StandardAction::Copy)),
                built: false,
            }),
    {
        self.item(catalog::copy())
    }

    /// Appends the paste action.
    pub fn paste(self) -> (r: Self)
        requires
            !self@.built,
        ensures
            r@ == (SubmenuBuilderView {
                title: self@.title,
                entries: self@.entries.push(MenuItem::Standard(StandardAction::Paste)),
                built: false,
            }),
    {
        self.item(catalog::paste())
    }

    /// Appends the select-all action.
    pub fn select_all(self) -> (r: Self)
        requires
            !self@.built,
        ensures
            r@ == (SubmenuBuilderView {
                title: self@.title,
                entries: self@.entries.push(MenuItem::Standard(StandardAction::SelectAll)),
                built: false,
            }),
    {
        self.item(catalog::select_all())
    }

    /// Appends the fullscreen action.
    pub fn fullscreen(self) -> (r: Self)
        requires
            !self@.built,
        ensures
            r@ == (SubmenuBuilderView {
                title: self@.title,
                entries: self@.entries.push(MenuItem::Standard(StandardAction::Fullscreen)),
                built: false,
            }),
    {
        self.item(catalog::fullscreen())
    }

    /// Appends the about action.
    pub fn about(self) -> (r: Self)
        requires
            !self@.built,
        ensures
            r@ == (SubmenuBuilderView {
                title: self@.title,
                entries: self@.entries.push(MenuItem::Standard(StandardAction::About)),
                built: false,
            }),
    {
        self.item(catalog::about())
    }

    /// Appends the services action.
    pub fn services(self) -> (r: Self)
        requires
            !self@.built,
        ensures
            r@ == (SubmenuBuilderView {
                title: self@.title,
                entries: self@.entries.push(MenuItem::Standard(StandardAction::Services)),
                built: false,
            }),
    {
        self.item(catalog::services())
    }

    /// Appends the hide-application action.
    pub fn hide_app(self) -> (r: Self)
        requires
            !self@.built,
        ensures
            r@ == (SubmenuBuilderView {
                title: self@.title,
                entries: self@.entries.push(MenuItem::Standard(StandardAction::Hide)),
                built: false,
            }),
    {
        self.item(catalog::hide_app())
    }

    /// Appends the hide-others action.
    pub fn hide_others(self) -> (r: Self)
        requires
            !self@.built,
        ensures
            r@ == (SubmenuBuilderView {
                title: self@.title,
                entries: self@.entries.push(MenuItem::Standard(StandardAction::HideOthers)),
                built: false,
            }),
    {
        self.item(catalog::hide_others())
    }

    /// Appends the show-all action.
    pub fn show_all(self) -> (r: Self)
        requires
            !self@.built,
        ensures
            r@ == (SubmenuBuilderView {
                title: self@.title,
                entries: self@.entries.push(MenuItem::Standard(StandardAction::ShowAll)),
                built: false,
            }),
    {
        self.item(catalog::show_all())
    }

    /// Appends the quit action.
    pub fn quit(self) -> (r: Self)
        requires
            !self@.built,
        ensures
            r@ == (SubmenuBuilderView {
                title: self@.title,
                entries: self@.entries.push(MenuItem::Standard(StandardAction::Quit)),
                built: false,
            }),
    {
        self.item(catalog::quit())
    }

    /// Appends a separator line.
    pub fn separator(self) -> (r: Self)
        requires
            !self@.built,
        ensures
            r@ == (SubmenuBuilderView {
                title: self@.title,
                entries: self@.entries.push(MenuItem::Separator),
                built: false,
            }),
    {
        self.item(catalog::separator())
    }

    /// Finalizes the accumulated entries into an immutable `Submenu`,
    /// consuming the builder. Succeeds exactly when the builder was not
    /// consumed before and its title is non-empty; the resulting submenu
    /// holds the title and the entries in call order. A consumed builder
    /// yields `BuilderConsumed` and is left unchanged; an empty title
    /// yields `InvalidTitle`.
    pub fn build(&mut self) -> (r: Result<Submenu, PlatformMenuError>)
        ensures
            old(self)@.built ==> r == Err::<Submenu, PlatformMenuError>(
                PlatformMenuError::BuilderConsumed,
            ) && final(self)@ == old(self)@,
            !old(self)@.built ==> final(self)@.built,
            (!old(self)@.built && old(self)@.title.len() == 0) ==> r == Err::<
                Submenu,
                PlatformMenuError,
            >(PlatformMenuError::InvalidTitle) && final(self)@.title == old(self)@.title
                && final(self)@.entries == old(self)@.entries,
            (!old(self)@.built && old(self)@.title.len() > 0) ==> (r matches Ok(sm) && sm@ == (
            SubmenuView { title: old(self)@.title, items: old(self)@.entries })),
    {
        if self.built {
            return Err(PlatformMenuError::BuilderConsumed);
        }
        self.built = true;
        if self.title.as_str().unicode_len() == 0 {
            return Err(PlatformMenuError::InvalidTitle);
        }
        let mut title = String::new();
        core::mem::swap(&mut title, &mut self.title);
        let mut items: Vec<MenuItem> = Vec::new();
        core::mem::swap(&mut items, &mut self.entries);
        Ok(Submenu { title, items })
    }
}

/// The model of a run of append calls: starting from the builder state `b`,
/// each element of `ops` is pushed in turn, exactly as one call of `item`
/// (or of a named append) does by its contract.
pub open spec fn after_appends(b: SubmenuBuilderView, ops: Seq<MenuItem>) -> SubmenuBuilderView
    decreases ops.len(),
{
    if ops.len() == 0 {
        b
    } else {
        after_appends(
            SubmenuBuilderView {
                title: b.title,
                entries: b.entries.push(ops[0]),
                built: b.built,
            },
            ops.drop_first(),
        )
    }
}

/// Order preservation: for every sequence of append operations, the builder
/// ends with exactly its previous entries followed by the appended items,
/// in call order — and with title and state untouched. Together with the
/// contract of `build`, which hands the entries to the `Submenu` unchanged,
/// the finished submenu's item order equals the call order.
pub proof fn lemma_append_order(b: SubmenuBuilderView, ops: Seq<MenuItem>)
    ensures
        after_appends(b, ops).entries == b.entries + ops,
        after_appends(b, ops).title == b.title,
        after_appends(b, ops).built == b.built,
    decreases ops.len(),
{
    if ops.len() == 0 {
        assert(b.entries + ops =~= b.entries);
    } else {
        let b1 = SubmenuBuilderView {
            title: b.title,
            entries: b.entries.push(ops[0]),
            built: b.built,
        };
        lemma_append_order(b1, ops.drop_first());
        assert(b.entries.push(ops[0]) + ops.drop_first() =~= b.entries + ops);
    }
}

} // verus!
