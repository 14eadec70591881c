//! Tray menus and notifications.
//!
//! A menu is described once and planned for the native toolkit: which entries it gets, in which
//! order, and which of them report clicks.  The native ids of the entries are known only to the
//! toolkit; clicks find their way back through a table of routes.
use vstd::prelude::*;
use crate::calls::CallLog;
use crate::named_table::NamedTable;
use crate::text::{copy_opt, joined, opt_view};
use crate::window_manager::{Hook, NoHook, TextSignal};

verus! {

/// Errors of trays and notifications.
#[derive(Debug, Clone, PartialEq, Eq)]
pub enum ApiError {
    Unsupported(&'static str),
    Backend(String),
}

impl ApiError {
    /// The message text of an error.
    pub open spec fn message(self) -> Seq<char> {
        match self {
            ApiError::Unsupported(s) => "unsupported: "@ + s@,
            ApiError::Backend(s) => "backend error: "@ + s@,
        }
    }

    /// Writes the message text.
    pub fn to_text(&self) -> (s: String)
        ensures
            s@ == self.message(),
    {
        match self {
            ApiError::Unsupported(m) => joined("unsupported: ", m),
            ApiError::Backend(m) => joined("backend error: ", m.as_str()),
        }
    }
}

/// An entry of a menu.
#[derive(Debug, PartialEq, Eq)]
pub struct MenuItem {
    /// What a click on the entry reports.
    pub id: String,
    pub title: String,
    pub enabled: bool,
    pub checked: bool,
    pub shortcut: Option<String>,
    /// A line between entries; everything else of the entry is ignored.
    pub separator: bool,
    pub submenu: Option<Vec<MenuItem>>,
}

impl Default for MenuItem {
    /// An enabled entry without an id and without a title.
    fn default() -> (m: Self)
        ensures
            m.id@ == Seq::<char>::empty(),
            m.title@ == Seq::<char>::empty(),
            m.enabled,
            !m.checked,
            m.shortcut is None,
            !m.separator,
            m.submenu is None,
    {
        MenuItem {
            id: String::new(),
            title: String::new(),
            enabled: true,
            checked: false,
            shortcut: None,
            separator: false,
            submenu: None,
        }
    }
}

/// A menu.
#[derive(Debug, PartialEq, Eq)]
pub struct MenuSpec {
    pub items: Vec<MenuItem>,
}

impl Default for MenuSpec {
    /// A menu without entries.
    fn default() -> (m: Self)
        ensures
            m.items@ == Seq::<MenuItem>::empty(),
    {
        MenuSpec { items: Vec::new() }
    }
}

/// View of a [`MenuItem`].
pub struct MenuView {
    pub id: Seq<char>,
    pub title: Seq<char>,
    pub enabled: bool,
    pub checked: bool,
    pub shortcut: Option<Seq<char>>,
    pub separator: bool,
    pub submenu: Option<Seq<MenuView>>,
}

/// The view of an entry.
pub open spec fn menu_view(item: MenuItem) -> MenuView
    decreases item,
{
    MenuView {
        id: item.id@,
        title: item.title@,
        enabled: item.enabled,
        checked: item.checked,
        shortcut: opt_view(item.shortcut),
        separator: item.separator,
        submenu: match item.submenu {
            Some(children) => Some(menu_views(children@)),
            None => None,
        },
    }
}

/// The views of entries.
pub open spec fn menu_views(items: Seq<MenuItem>) -> Seq<MenuView>
    decreases items,
{
    if items.len() == 0 {
        Seq::empty()
    } else {
        menu_views(items.subrange(0, items.len() - 1)).push(menu_view(items[items.len() - 1]))
    }
}

fn copy_item(item: &MenuItem) -> (r: MenuItem)
    ensures
        menu_view(r) == menu_view(*item),
    decreases *item,
{
    let submenu = match &item.submenu {
        Some(children) => Some(copy_items(children)),
        None => None,
    };
    MenuItem {
        id: item.id.clone(),
        title: item.title.clone(),
        enabled: item.enabled,
        checked: item.checked,
        shortcut: copy_opt(&item.shortcut),
        separator: item.separator,
        submenu,
    }
}

fn copy_items(items: &Vec<MenuItem>) -> (r: Vec<MenuItem>)
    ensures
        menu_views(r@) == menu_views(items@),
    decreases *items,
{
    let mut out: Vec<MenuItem> = Vec::new();
    let mut i: usize = 0;
    proof {
        assert(items@.subrange(0, 0) =~= Seq::empty());
    }
    while i < items.len()
        invariant
            i <= items.len(),
            menu_views(out@) == menu_views(items@.subrange(0, i as int)),
        decreases items.len() - i,
    {
        let ghost before = out@;
        proof {
            assert(decreases_to!(*items => items[i as int]));
            let now = items@.subrange(0, i + 1);
            assert(now.subrange(0, now.len() - 1) =~= items@.subrange(0, i as int));
        }
        out.push(copy_item(&items[i]));
        proof {
            assert(out@.subrange(0, out@.len() - 1) =~= before);
        }
        i += 1;
    }
    proof {
        assert(items@.subrange(0, i as int) =~= items@);
    }
    out
}

impl Clone for MenuItem {
    fn clone(&self) -> (r: Self)
        ensures
            menu_view(r) == menu_view(*self),
    {
        copy_item(self)
    }
}

impl Clone for MenuSpec {
    fn clone(&self) -> (r: Self)
        ensures
            menu_views(r.items@) == menu_views(self.items@),
    {
        MenuSpec { items: copy_items(&self.items) }
    }
}

/// An entry as the native toolkit gets it.
#[derive(Debug, PartialEq, Eq)]
pub enum NativeItem {
    Separator,
    /// A submenu; it reports no clicks itself.
    Submenu { title: String, enabled: bool, items: Vec<NativeItem> },
    /// An entry whose clicks report `id`.
    Entry { title: String, enabled: bool, id: String },
}

/// View of a [`NativeItem`].
pub enum NativeView {
    Separator,
    Submenu { title: Seq<char>, enabled: bool, items: Seq<NativeView> },
    Entry { title: Seq<char>, enabled: bool, id: Seq<char> },
}

/// The views of native entries.
pub open spec fn native_views(items: Seq<NativeItem>) -> Seq<NativeView>
    decreases items,
{
    if items.len() == 0 {
        Seq::empty()
    } else {
        let last = items[items.len() - 1];
        native_views(items.subrange(0, items.len() - 1)).push(
            match last {
                NativeItem::Separator => NativeView::Separator,
                NativeItem::Submenu { title, enabled, items: inner } => NativeView::Submenu {
                    title: title@,
                    enabled,
                    items: native_views(inner@),
                },
                NativeItem::Entry { title, enabled, id } => NativeView::Entry {
                    title: title@,
                    enabled,
                    id: id@,
                },
            },
        )
    }
}

/// The native entries of a menu: separators stay separators, an entry with a submenu opens it,
/// and all others can be clicked; both are enabled as the menu says.
pub open spec fn planned(items: Seq<MenuItem>) -> Seq<NativeView>
    decreases items,
{
    if items.len() == 0 {
        Seq::empty()
    } else {
        let last = items[items.len() - 1];
        planned(items.subrange(0, items.len() - 1)).push(
            if last.separator {
                NativeView::Separator
            } else {
                match last.submenu {
                    Some(children) => NativeView::Submenu {
                        title: last.title@,
                        enabled: last.enabled,
                        items: planned(children@),
                    },
                    None => NativeView::Entry {
                        title: last.title@,
                        enabled: last.enabled,
                        id: last.id@,
                    },
                }
            },
        )
    }
}

/// The ids that clicks can report, in the order of the entries.
pub open spec fn clickable(items: Seq<MenuItem>) -> Seq<Seq<char>>
    decreases items,
{
    if items.len() == 0 {
        Seq::empty()
    } else {
        let last = items[items.len() - 1];
        let before = clickable(items.subrange(0, items.len() - 1));
        if last.separator {
            before
        } else {
            match last.submenu {
                Some(children) => before + clickable(children@),
                None => before.push(last.id@),
            }
        }
    }
}

/// The ids of native entries, in order.
pub open spec fn entry_ids(items: Seq<NativeView>) -> Seq<Seq<char>>
    decreases items,
{
    if items.len() == 0 {
        Seq::empty()
    } else {
        let before = entry_ids(items.subrange(0, items.len() - 1));
        match items[items.len() - 1] {
            NativeView::Separator => before,
            NativeView::Submenu { title, enabled, items: inner } => before + entry_ids(inner),
            NativeView::Entry { title, enabled, id } => before.push(id),
        }
    }
}

/// The native menu has an entry for every id that a click can report, in order, and no other.
pub proof fn plan_keeps_clickable_ids(items: Seq<MenuItem>)
    ensures
        entry_ids(planned(items)) == clickable(items),
    decreases items,
{
    if items.len() > 0 {
        let front = items.subrange(0, items.len() - 1);
        let last = items[items.len() - 1];
        plan_keeps_clickable_ids(front);
        let p = planned(items);
        assert(p.subrange(0, p.len() - 1) =~= planned(front));
        if !last.separator {
            match last.submenu {
                Some(children) => {
                    plan_keeps_clickable_ids(children@);
                },
                None => {},
            }
        }
    }
}

/// Plans a menu for the native toolkit.
pub fn build_menu_recursive(items: &Vec<MenuItem>) -> (r: Vec<NativeItem>)
    ensures
        native_views(r@) == planned(items@),
    decreases *items,
{
    let mut out: Vec<NativeItem> = Vec::new();
    let mut i: usize = 0;
    proof {
        assert(items@.subrange(0, 0) =~= Seq::empty());
    }
    while i < items.len()
        invariant
            i <= items.len(),
            native_views(out@) == planned(items@.subrange(0, i as int)),
        decreases items.len() - i,
    {
        let it = &items[i];
        let ghost before = out@;
        proof {
            let now = items@.subrange(0, i + 1);
            assert(now.subrange(0, now.len() - 1) =~= items@.subrange(0, i as int));
            assert(now[now.len() - 1] == items@[i as int]);
        }
        if it.separator {
            out.push(NativeItem::Separator);
        } else {
            match &it.submenu {
                Some(children) => {
                    proof {
                        assert(decreases_to!(*items => items[i as int]));
                        assert(decreases_to!(items[i as int] => items[i as int].submenu->0));
                    }
                    let inner = build_menu_recursive(children);
                    out.push(
                        NativeItem::Submenu {
                            title: it.title.clone(),
                            enabled: it.enabled,
                            items: inner,
                        },
                    );
                },
                None => {
                    out.push(
                        NativeItem::Entry {
                            title: it.title.clone(),
                            enabled: it.enabled,
                            id: it.id.clone(),
                        },
                    );
                },
            }
        }
        proof {
            assert(out@.subrange(0, out@.len() - 1) =~= before);
        }
        i += 1;
    }
    proof {
        assert(items@.subrange(0, i as int) =~= items@);
    }
    out
}

/// A tray icon with its menu; `C` is told the id of a clicked entry.
pub struct Tray<C> {
    pub icon_path: Option<String>,
    pub menu: Option<MenuSpec>,
    pub on_click: C,
    /// The ids of entries by the ids that the native toolkit gave them.
    pub routes: NamedTable<String>,
    /// The ids that the receiver of clicks was told.
    pub clicks: CallLog<Seq<char>>,
}

/// The ids of entries by native id.
pub open spec fn route_views(routes: Map<Seq<char>, String>) -> Map<Seq<char>, Seq<char>> {
    routes.map_values(|s: String| s@)
}

/// The routes after pairs of a native id and the id of an entry were recorded in order.
pub open spec fn routed(
    routes: Map<Seq<char>, Seq<char>>,
    added: Seq<(Seq<char>, Seq<char>)>,
) -> Map<Seq<char>, Seq<char>>
    decreases added.len(),
{
    if added.len() == 0 {
        routes
    } else {
        routed(routes, added.drop_last()).insert(added.last().0, added.last().1)
    }
}

/// The views of pairs of a native id and the id of an entry.
pub open spec fn pair_views(pairs: Seq<(String, String)>) -> Seq<(Seq<char>, Seq<char>)> {
    Seq::new(pairs.len(), |i: int| (pairs[i].0@, pairs[i].1@))
}

/// The routes of a menu: the native id of every entry that can be clicked, with the id of that
/// entry.
pub open spec fn menu_routes(
    items: Seq<MenuItem>,
    natives: Seq<Seq<char>>,
) -> Map<Seq<char>, Seq<char>> {
    let ids = entry_ids(planned(items));
    routed(Map::empty(), Seq::new(ids.len(), |i: int| (natives[i], ids[i])))
}

/// Once a menu is set and the native ids of its entries are recorded, a click on the native entry
/// of an item reports the id of that item, for every item at any depth that is no separator and
/// has no submenu.  No other native id is known: separators, submenus and the entries of an
/// earlier menu report nothing.
pub proof fn clicks_report_their_entries(items: Seq<MenuItem>, natives: Seq<Seq<char>>)
    requires
        natives.len() == clickable(items).len(),
        natives.no_duplicates(),
    ensures
        forall|i: int|
            0 <= i < natives.len() ==> menu_routes(items, natives).contains_key(
                #[trigger] natives[i],
            ) && menu_routes(items, natives)[natives[i]] == clickable(items)[i],
        forall|n: Seq<char>|
            menu_routes(items, natives).contains_key(n) <==> #[trigger] natives.contains(n),
{
    plan_keeps_clickable_ids(items);
    let ids = clickable(items);
    let pairs = Seq::new(ids.len(), |i: int| (natives[i], ids[i]));
    routes_of_pairs(pairs);
    assert forall|i: int| 0 <= i < natives.len() implies menu_routes(items, natives).contains_key(
        #[trigger] natives[i],
    ) && menu_routes(items, natives)[natives[i]] == clickable(items)[i] by {
        assert(pairs[i] == (natives[i], ids[i]));
    }
    assert forall|n: Seq<char>|
        menu_routes(items, natives).contains_key(n) <==> #[trigger] natives.contains(n) by {
        if natives.contains(n) {
            let i = choose|i: int| 0 <= i < natives.len() && natives[i] == n;
            assert(pairs[i].0 == n);
        }
        if menu_routes(items, natives).contains_key(n) {
            let i = choose|i: int| 0 <= i < pairs.len() && (#[trigger] pairs[i]).0 == n;
            assert(natives[i] == n);
        }
    }
}

proof fn routes_of_pairs(pairs: Seq<(Seq<char>, Seq<char>)>)
    requires
        forall|i: int, j: int|
            0 <= i < j < pairs.len() ==> (#[trigger] pairs[i]).0 != (#[trigger] pairs[j]).0,
    ensures
        forall|i: int|
            0 <= i < pairs.len() ==> routed(Map::empty(), pairs).contains_key(
                (#[trigger] pairs[i]).0,
            ) && routed(Map::empty(), pairs)[pairs[i].0] == pairs[i].1,
        forall|n: Seq<char>| #[trigger]
            routed(Map::empty(), pairs).contains_key(n) <==> exists|i: int|
                0 <= i < pairs.len() && (#[trigger] pairs[i]).0 == n,
    decreases pairs.len(),
{
    if pairs.len() > 0 {
        let front = pairs.drop_last();
        assert forall|i: int, j: int| 0 <= i < j < front.len() implies (#[trigger] front[i]).0 != (
        #[trigger] front[j]).0 by {
            assert(front[i] == pairs[i] && front[j] == pairs[j]);
        }
        routes_of_pairs(front);
        let last = pairs.last();
        assert forall|i: int| 0 <= i < pairs.len() implies routed(
            Map::empty(),
            pairs,
        ).contains_key((#[trigger] pairs[i]).0) && routed(Map::empty(), pairs)[pairs[i].0]
            == pairs[i].1 by {
            if i < front.len() {
                assert(front[i] == pairs[i]);
                assert(pairs[pairs.len() - 1] == last);
            }
        }
        assert forall|n: Seq<char>| #[trigger]
            routed(Map::empty(), pairs).contains_key(n) <==> exists|i: int|
                0 <= i < pairs.len() && (#[trigger] pairs[i]).0 == n by {
            if routed(Map::empty(), pairs).contains_key(n) {
                if n == last.0 {
                    assert(pairs[pairs.len() - 1].0 == n);
                } else {
                    assert(routed(Map::empty(), front).contains_key(n));
                    let i = choose|i: int| 0 <= i < front.len() && (#[trigger] front[i]).0 == n;
                    assert(pairs[i].0 == n);
                }
            }
        }
    }
}

impl Tray<NoHook> {
    /// A tray without a menu and without a receiver of clicks.
    pub fn new(icon_path: Option<String>) -> (r: Result<Self, ApiError>)
        ensures
            r is Ok,
            r->Ok_0.wf(),
            r->Ok_0.icon_path == icon_path,
            r->Ok_0.menu is None,
            r->Ok_0.targets() == Map::<Seq<char>, Seq<char>>::empty(),
            r->Ok_0.clicks@ == Seq::<Seq<char>>::empty(),
    {
        let t = Tray {
            icon_path,
            menu: None,
            on_click: NoHook,
            routes: NamedTable::new(),
            clicks: CallLog::new(),
        };
        proof {
            assert(t.targets() =~= Map::empty());
        }
        Ok(t)
    }
}

impl<C: TextSignal> Tray<C> {
    /// Every native id has one route.
    pub open spec fn wf(&self) -> bool {
        self.routes.wf()
    }

    /// The ids of entries by native id.
    pub open spec fn targets(&self) -> Map<Seq<char>, Seq<char>> {
        route_views(self.routes@)
    }

    /// Sets the menu; the routes of the menu before are forgotten.
    pub fn set_menu(&mut self, menu: MenuSpec) -> (r: Result<(), ApiError>)
        requires
            old(self).wf(),
        ensures
            r is Ok,
            final(self).wf(),
            final(self).menu == Some(menu),
            final(self).icon_path == old(self).icon_path,
            final(self).on_click == old(self).on_click,
            final(self).clicks == old(self).clicks,
            final(self).targets() == Map::<Seq<char>, Seq<char>>::empty(),
    {
        self.menu = Some(menu);
        self.routes = NamedTable::new();
        proof {
            assert(self.targets() =~= Map::empty());
        }
        Ok(())
    }

    /// The menu as the native toolkit gets it.
    pub fn native_menu(&self) -> (r: Vec<NativeItem>)
        ensures
            native_views(r@) == (match self.menu {
                Some(m) => planned(m.items@),
                None => Seq::empty(),
            }),
    {
        match &self.menu {
            Some(m) => build_menu_recursive(&m.items),
            None => Vec::new(),
        }
    }

    /// Records the native id of an entry.
    pub fn add_route(&mut self, native_id: &str, id: &str)
        requires
            old(self).wf(),
        ensures
            final(self).wf(),
            final(self).menu == old(self).menu,
            final(self).icon_path == old(self).icon_path,
            final(self).on_click == old(self).on_click,
            final(self).clicks == old(self).clicks,
            final(self).targets() == old(self).targets().insert(native_id@, id@),
    {
        let _ = self.routes.insert(native_id.to_owned(), id.to_owned());
        proof {
            assert(self.targets() =~= old(self).targets().insert(native_id@, id@));
        }
    }

    /// Records the native ids of entries, in order.
    pub fn add_routes(&mut self, pairs: &Vec<(String, String)>)
        requires
            old(self).wf(),
        ensures
            final(self).wf(),
            final(self).menu == old(self).menu,
            final(self).icon_path == old(self).icon_path,
            final(self).on_click == old(self).on_click,
            final(self).clicks == old(self).clicks,
            final(self).targets() == routed(old(self).targets(), pair_views(pairs@)),
    {
        let mut i: usize = 0;
        while i < pairs.len()
            invariant
                i <= pairs.len(),
                self.wf(),
                self.menu == old(self).menu,
                self.icon_path == old(self).icon_path,
                self.on_click == old(self).on_click,
                self.clicks == old(self).clicks,
                self.targets() == routed(old(self).targets(), pair_views(pairs@.take(i as int))),
            decreases pairs.len() - i,
        {
            self.add_route(pairs[i].0.as_str(), pairs[i].1.as_str());
            proof {
                let now = pair_views(pairs@.take(i + 1));
                assert(now.drop_last() =~= pair_views(pairs@.take(i as int)));
                assert(now.last() == (pairs@[i as int].0@, pairs@[i as int].1@));
            }
            i += 1;
        }
        proof {
            assert(pairs@.take(i as int) =~= pairs@);
        }
    }

    /// Sets who is told of clicks.
    pub fn on_click<G: Fn(&str)>(self, cb: G) -> (r: Result<Tray<Hook<G>>, ApiError>)
        ensures
            r is Ok,
            r->Ok_0.on_click == Hook(cb),
            r->Ok_0.menu == self.menu,
            r->Ok_0.icon_path == self.icon_path,
            r->Ok_0.routes == self.routes,
            r->Ok_0.clicks@ == Seq::<Seq<char>>::empty(),
    {
        Ok(
            Tray {
                icon_path: self.icon_path,
                menu: self.menu,
                on_click: Hook(cb),
                routes: self.routes,
                clicks: CallLog::new(),
            },
        )
    }

    /// Nothing but the clicks differs.
    pub open spec fn unchanged(&self, other: Self) -> bool {
        &&& self.icon_path == other.icon_path
        &&& self.menu == other.menu
        &&& self.on_click == other.on_click
        &&& self.routes == other.routes
    }

    /// What the receiver is told of a native click: the id of the entry, once; of a click on
    /// anything else, nothing.
    pub open spec fn due(&self, native_id: Seq<char>) -> Seq<Seq<char>> {
        if self.targets().contains_key(native_id) {
            seq![self.targets()[native_id]]
        } else {
            Seq::empty()
        }
    }

    /// Passes a click on: the receiver is told the id of the entry, once; a click on anything else
    /// is dropped.
    pub fn native_click(&mut self, native_id: &str) -> (told: bool)
        requires
            old(self).wf(),
            old(self).targets().contains_key(native_id@) ==> old(self).on_click.ready(
                old(self).targets()[native_id@],
            ),
        ensures
            final(self).unchanged(*old(self)),
            told == old(self).targets().contains_key(native_id@),
            told ==> old(self).on_click.told(old(self).targets()[native_id@]),
            final(self).clicks@ == old(self).clicks@ + old(self).due(native_id@),
    {
        match self.routes.get(native_id) {
            Some(id) => {
                self.on_click.tell(id.as_str(), &mut self.clicks, Ghost(id@));
                true
            },
            None => false,
        }
    }

    /// Tells the receiver of a click on an entry, once.
    pub fn simulate_click(&mut self, id: &str)
        requires
            old(self).on_click.ready(id@),
        ensures
            final(self).unchanged(*old(self)),
            old(self).on_click.told(id@),
            final(self).clicks@ == old(self).clicks@.push(id@),
    {
        self.on_click.tell(id, &mut self.clicks, Ghost(id@));
    }

    /// Takes the tray away.
    pub fn close(self) -> (r: Result<(), ApiError>)
        ensures
            r is Ok,
    {
        Ok(())
    }
}

/// What a notification service is asked to show.
pub struct NotificationView {
    pub title: Seq<char>,
    pub body: Seq<char>,
    pub icon_path: Option<Seq<char>>,
}

/// Something that shows notifications.
pub trait NotificationService: Sized {
    /// Whether it can be asked to show a notification.
    spec fn ready(&self, n: NotificationView) -> bool;

    /// Being asked in state `pre` to show a notification, once, it went to state `post` and
    /// answered `r`.
    spec fn step(pre: Self, n: NotificationView, post: Self, r: Result<(), String>) -> bool;

    /// Asks it.
    fn ask(&mut self, title: &str, body: &str, icon_path: &Option<String>) -> (r: Result<
        (),
        String,
    >)
        requires
            old(self).ready(notification_of(title, body, *icon_path)),
        ensures
            Self::step(
                *old(self),
                notification_of(title, body, *icon_path),
                *final(self),
                r,
            ),
    ;
}

/// The view of the parts of a notification.
pub open spec fn notification_of(
    title: &str,
    body: &str,
    icon_path: Option<String>,
) -> NotificationView {
    NotificationView { title: title@, body: body@, icon_path: opt_view(icon_path) }
}

/// Where no notification service is connected, nothing is shown, and that is no error.
impl NotificationService for NoHook {
    open spec fn ready(&self, n: NotificationView) -> bool {
        true
    }

    open spec fn step(pre: Self, n: NotificationView, post: Self, r: Result<(), String>) -> bool {
        r is Ok
    }

    fn ask(&mut self, title: &str, body: &str, icon_path: &Option<String>) -> (r: Result<
        (),
        String,
    >) {
        Ok(())
    }
}

/// A notification service that is reached by a function.
pub struct Service<F> {
    pub show: F,
    /// What the service was asked to show.
    pub asked: CallLog<NotificationView>,
}

impl<F> Service<F> {
    /// A service that was not asked yet.
    pub fn new(show: F) -> (s: Self)
        ensures
            s.show == show,
            s.asked@ == Seq::<NotificationView>::empty(),
    {
        Service { show, asked: CallLog::new() }
    }
}

impl<F: Fn(&str, &str, &Option<String>) -> Result<(), String>> NotificationService for Service<F> {
    open spec fn ready(&self, n: NotificationView) -> bool {
        forall|t: &str, b: &str, i: &Option<String>|
            notification_of(t, b, *i) == n ==> #[trigger] call_requires(self.show, (t, b, i))
    }

    open spec fn step(pre: Self, n: NotificationView, post: Self, r: Result<(), String>) -> bool {
        &&& post.show == pre.show
        &&& post.asked@ == pre.asked@.push(n)
        &&& exists|t: &str, b: &str, i: &Option<String>|
            notification_of(t, b, *i) == n && #[trigger] call_ensures(pre.show, (t, b, i), r)
    }

    fn ask(&mut self, title: &str, body: &str, icon_path: &Option<String>) -> (r: Result<
        (),
        String,
    >) {
        let entry = Ghost(notification_of(title, body, *icon_path));
        self.asked.call3(&self.show, title, body, icon_path, entry)
    }
}

/// `r` reports the answer of a notification service.
pub open spec fn reports(answer: Result<(), String>, r: Result<(), ApiError>) -> bool {
    match answer {
        Ok(()) => r is Ok,
        Err(e) => r is Err && r->Err_0 is Backend && r->Err_0->Backend_0@ == "notify-rust error: "@
            + e@,
    }
}

/// A service went from `pre` to `post` by being asked to show a notification, once, and `r` reports
/// its answer.
pub open spec fn shown<V: NotificationService>(
    pre: V,
    n: NotificationView,
    post: V,
    r: Result<(), ApiError>,
) -> bool {
    exists|answer: Result<(), String>| #[trigger] V::step(pre, n, post, answer) && reports(
        answer,
        r,
    )
}

/// A notification; `A` is told of an action that the user takes.
pub struct Notification<A> {
    pub title: String,
    pub body: String,
    pub icon_path: Option<String>,
    pub on_action: A,
}

impl Notification<NoHook> {
    /// A notification without an icon.
    pub fn new(title: &str, body: &str) -> (n: Self)
        ensures
            n.title@ == title@,
            n.body@ == body@,
            n.icon_path is None,
    {
        Notification {
            title: title.to_owned(),
            body: body.to_owned(),
            icon_path: None,
            on_action: NoHook,
        }
    }

    /// Shows a notification through a service in one call; see [`Notification::show`].
    pub fn show_simple<V: NotificationService>(
        title: &str,
        body: &str,
        icon_path: Option<String>,
        service: &mut V,
    ) -> (r: Result<(), ApiError>)
        requires
            old(service).ready(notification_of(title, body, icon_path)),
        ensures
            shown(*old(service), notification_of(title, body, icon_path), *final(service), r),
    {
        let n = Notification::new(title, body);
        match icon_path {
            Some(p) => n.icon_path(p.as_str()).show(service),
            None => n.show(service),
        }
    }
}

impl<A> Notification<A> {
    /// Sets the icon.
    pub fn icon_path(self, path: &str) -> (n: Self)
        ensures
            n.title == self.title,
            n.body == self.body,
            n.icon_path is Some,
            n.icon_path->0@ == path@,
            n.on_action == self.on_action,
    {
        let mut n = self;
        n.icon_path = Some(path.to_owned());
        n
    }

    /// Sets who is told of an action.
    pub fn on_action<G: Fn(&str)>(self, cb: G) -> (n: Notification<Hook<G>>)
        ensures
            n.title == self.title,
            n.body == self.body,
            n.icon_path == self.icon_path,
            n.on_action == Hook(cb),
    {
        Notification {
            title: self.title,
            body: self.body,
            icon_path: self.icon_path,
            on_action: Hook(cb),
        }
    }

    /// What a service is asked to show.
    pub open spec fn shape(&self) -> NotificationView {
        NotificationView {
            title: self.title@,
            body: self.body@,
            icon_path: opt_view(self.icon_path),
        }
    }

    /// Shows the notification through a service: the service is asked once, and what it answers is
    /// reported.
    pub fn show<V: NotificationService>(&self, service: &mut V) -> (r: Result<(), ApiError>)
        requires
            old(service).ready(self.shape()),
        ensures
            shown(*old(service), self.shape(), *final(service), r),
    {
        let answer = service.ask(self.title.as_str(), self.body.as_str(), &self.icon_path);
        proof {
            assert(V::step(*old(service), self.shape(), *service, answer));
        }
        match answer {
            Ok(()) => Ok(()),
            Err(e) => Err(notify_error(e.as_str())),
        }
    }
}

/// What an error of the notification service becomes.
pub fn notify_error(error: &str) -> (e: ApiError)
    ensures
        e is Backend,
        e->Backend_0@ == "notify-rust error: "@ + error@,
{
    ApiError::Backend(joined("notify-rust error: ", error))
}

} // verus!
