//! The root menu and the builder that assembles it from submenus.
//!
//! A `MenuBuilder` is scoped to one application handle, accumulates submenus
//! in the order the `items` calls supply them (menu-bar order, left to
//! right), and is finished by `build`, which consumes it. Whether a platform
//! pins an application-identity submenu first is a platform policy; the
//! builder only supplies the declared ordering and never reorders.

use vstd::prelude::*;

use crate::app::AppHandle;
use crate::error::PlatformMenuError;
use crate::submenu::Submenu;
use crate::submenu::SubmenuView;

verus! {

broadcast use crate::submenu::lemma_submenu_deep_is_view;

/// The mathematical model of a root menu: the handle it was built for and
/// its submenus in menu-bar order.
pub struct MenuView {
    pub handle_id: u64,
    pub submenus: Seq<SubmenuView>,
}

/// An immutable, ordered sequence of submenus, ready to be attached to the
/// application handle it was built for.
#[derive(Debug)]
pub struct Menu {
    handle_id: u64,
    submenus: Vec<Submenu>,
}

impl View for Menu {
    type V = MenuView;

    closed spec fn view(&self) -> MenuView {
        MenuView { handle_id: self.handle_id, submenus: self.submenus.deep_view() }
    }
}

impl DeepView for Menu {
    type V = MenuView;

    closed spec fn deep_view(&self) -> MenuView {
        self.view()
    }
}

/// The deep view of a menu is its view.
pub broadcast proof fn lemma_menu_deep_is_view(m: Menu)
    ensures
        #[trigger] m.deep_view() == m@,
{
}

/// The total number of items across a sequence of submenus, separators
/// included.
pub open spec fn flat_count(subs: Seq<SubmenuView>) -> nat
    decreases subs.len(),
{
    if subs.len() == 0 {
        0
    } else {
        subs[0].items.len() + flat_count(subs.drop_first())
    }
}

/// Associativity of incremental appends: the flattened item count of a
/// concatenation is the sum of the flattened item counts of its parts. So a
/// menu assembled by repeated `items` calls — whose contract concatenates
/// each batch onto the accumulated sequence, in call order — holds exactly
/// the sum of the items passed across all calls.
pub proof fn lemma_flat_count_append(s1: Seq<SubmenuView>, s2: Seq<SubmenuView>)
    ensures
        flat_count(s1 + s2) == flat_count(s1) + flat_count(s2),
    decreases s1.len(),
{
    if s1.len() == 0 {
        assert(s1 + s2 =~= s2);
    } else {
        lemma_flat_count_append(s1.drop_first(), s2);
        assert((s1 + s2).drop_first() =~= s1.drop_first() + s2);
    }
}

/// A prefix never counts more than the whole sequence.
pub proof fn lemma_flat_count_prefix(subs: Seq<SubmenuView>, i: int)
    requires
        0 <= i <= subs.len(),
    ensures
        flat_count(subs.take(i)) <= flat_count(subs),
{
    lemma_flat_count_append(subs.take(i), subs.skip(i));
    assert(subs.take(i) + subs.skip(i) =~= subs);
}

impl Menu {
    /// The application handle this menu was built for.
    pub fn handle_id(&self) -> (r: u64)
        ensures
            r == self@.handle_id,
    {
        self.handle_id
    }

    /// How many top-level submenus the menu bar holds.
    pub fn submenu_count(&self) -> (r: usize)
        ensures
            r == self@.submenus.len(),
    {
        self.submenus.len()
    }

    /// The submenu at position `i` of the menu-bar order.
    pub fn submenu_at(&self, i: usize) -> (r: &Submenu)
        requires
            i < self@.submenus.len(),
        ensures
            r@ == self@.submenus[i as int],
    {
        &self.submenus[i]
    }

    /// The total number of items across all submenus.
    pub fn flattened_len(&self) -> (r: usize)
        requires
            flat_count(self@.submenus) <= usize::MAX,
        ensures
            r == flat_count(self@.submenus),
    {
        let ghost subs = self@.submenus;
        let mut total: usize = 0;
        let mut i: usize = 0;
        let n: usize = self.submenus.len();
        while i < n
            invariant
                0 <= i <= n,
                n == subs.len(),
                subs == self@.submenus,
                flat_count(subs) <= usize::MAX,
                total == flat_count(subs.take(i as int)),
            decreases n - i,
        {
            proof {
                assert(subs.take(i as int + 1) =~= subs.take(i as int) + seq![subs[i as int]]);
                lemma_flat_count_append(subs.take(i as int), seq![subs[i as int]]);
                assert(seq![subs[i as int]].drop_first() =~= Seq::<SubmenuView>::empty());
                assert(flat_count(Seq::<SubmenuView>::empty()) == 0);
                assert(flat_count(seq![subs[i as int]]) == subs[i as int].items.len());
                lemma_flat_count_prefix(subs, i as int + 1);
            }
            total = total + self.submenus[i].len();
            i = i + 1;
        }
        proof {
            assert(subs.take(n as int) =~= subs);
        }
        total
    }
}

/// The mathematical model of a root-menu builder: the handle it is scoped
/// to, the submenus accumulated so far in call order, and whether `build`
/// has already consumed it.
pub struct MenuBuilderView {
    pub handle_id: u64,
    pub entries: Seq<SubmenuView>,
    pub built: bool,
}

/// Accumulates an ordered sequence of submenus into a root menu, scoped to
/// a specific application handle. Submenus appended through one builder must
/// be attached to the handle that builder was created for; `AppHandle::set_menu`
/// states that as its precondition.
///
/// State machine: empty, then accumulating (`items`), then built (terminal,
/// once `build` runs). Appending after `build` is a precondition violation;
/// a second `build` is rejected with `PlatformMenuError::BuilderConsumed`.
pub struct MenuBuilder {
    handle_id: u64,
    entries: Vec<Submenu>,
    built: bool,
}

impl View for MenuBuilder {
    type V = MenuBuilderView;

    closed spec fn view(&self) -> MenuBuilderView {
        MenuBuilderView {
            handle_id: self.handle_id,
            entries: self.entries.deep_view(),
            built: self.built,
        }
    }
}

impl MenuBuilder {
    /// Starts an empty builder scoped to `app`.
    pub fn new(app: &AppHandle) -> (r: Self)
        ensures
            r@ == (MenuBuilderView {
                handle_id: app@.id,
                entries: Seq::<SubmenuView>::empty(),
                built: false,
            }),
    {
        let b = MenuBuilder { handle_id: app.id(), entries: Vec::new(), built: false };
        proof {
            assert(b.entries.deep_view() =~= Seq::<SubmenuView>::empty());
        }
        b
    }

    /// Whether `build` has already consumed this builder.
    pub fn is_built(&self) -> (r: bool)
        ensures
            r == self@.built,
    {
        self.built
    }

    /// Appends the given submenus, in the given order, after those already
    /// accumulated. May be called any number of times; each call appends.
    /// The submenus are owned by the builder from here on (and by the root
    /// menu once `build` runs).
    pub fn items(self, subs: Vec<Submenu>) -> (r: Self)
        requires
            !self@.built,
        ensures
            r@ == (MenuBuilderView {
                handle_id: self@.handle_id,
                entries: self@.entries + subs.deep_view(),
                built: false,
            }),
    {
        let ghost e0 = self.entries.deep_view();
        let ghost s0 = subs.deep_view();
        let mut b = self;
        let mut s = subs;
        b.entries.append(&mut s);
        proof {
            assert(b.entries.deep_view() =~= e0 + s0);
        }
        b
    }

    /// Finalizes the accumulated submenus into an immutable `Menu`,
    /// consuming the builder. Succeeds exactly when the builder was not
    /// consumed before; the resulting menu is scoped to the same handle and
    /// holds the submenus in the order the `items` calls supplied them. A
    /// consumed builder yields `BuilderConsumed` and is left unchanged.
    pub fn build(&mut self) -> (r: Result<Menu, PlatformMenuError>)
        ensures
            old(self)@.built ==> r == Err::<Menu, PlatformMenuError>(
                PlatformMenuError::BuilderConsumed,
            ) && final(self)@ == old(self)@,
            !old(self)@.built ==> final(self)@.built && (r matches Ok(m) && m@ == (MenuView {
                handle_id: old(self)@.handle_id,
                submenus: old(self)@.entries,
            })),
    {
        if self.built {
            return Err(PlatformMenuError::BuilderConsumed);
        }
        self.built = true;
        let mut submenus: Vec<Submenu> = Vec::new();
        core::mem::swap(&mut submenus, &mut self.entries);
        Ok(Menu { handle_id: self.handle_id, submenus })
    }
}

} // verus!
