//! What menus, trays and notifications do.
use vstd::prelude::*;
use crate::laws::hosting::ends_with;
use crate::laws::same_option;
use crate::tray_and_notify::{
    build_menu_recursive, menu_view, menu_views, native_views, notify_error, planned, ApiError,
    MenuItem, MenuSpec, NativeItem, Notification, Service, Tray,
};
use crate::window_manager::{Hook, NoHook, TextSignal};

verus! {

/// A native menu shows a menu: entry by entry in the same order, a line as a line and nothing else
/// as one, a submenu as a submenu that shows it, and all else as an entry that reports its id; a
/// title is the one that was given, and what is enabled stays enabled.
pub open spec fn shows(native: Seq<NativeItem>, items: Seq<MenuItem>) -> bool
    decreases items,
{
    &&& native.len() == items.len()
    &&& forall|i: int|
        #![trigger native[i]]
        #![trigger items[i]]
        0 <= i < items.len() ==> {
            &&& native[i] is Separator <==> items[i].separator
            &&& native[i] is Submenu <==> !items[i].separator && items[i].submenu is Some
            &&& native[i] is Entry <==> !items[i].separator && items[i].submenu is None
            &&& native[i] is Submenu ==> native[i]->Submenu_title@ == items[i].title@
                && native[i]->Submenu_enabled == items[i].enabled && shows(
                native[i]->items@,
                items[i].submenu->0@,
            )
            &&& native[i] is Entry ==> native[i]->Entry_title@ == items[i].title@
                && native[i]->Entry_enabled == items[i].enabled && native[i]->id@ == items[i].id@
        }
}

proof fn plan_shows(native: Seq<NativeItem>, items: Seq<MenuItem>)
    requires
        native_views(native) == planned(items),
    ensures
        shows(native, items),
    decreases items,
{
    if items.len() == 0 {
        assert(native.len() == 0) by {
            if native.len() > 0 {
                assert(native_views(native).len() > 0);
            }
        }
    } else {
        assert(planned(items).len() > 0);
        assert(native.len() > 0);
        let front = items.subrange(0, items.len() - 1);
        let shown = native.subrange(0, native.len() - 1);
        let (n, p) = (native_views(native), planned(items));
        assert(n.drop_last() =~= native_views(shown));
        assert(p.drop_last() =~= planned(front));
        plan_shows(shown, front);
        let last = items[items.len() - 1];
        assert(n.last() == p.last());
        if !last.separator && last.submenu is Some {
            plan_shows(native[native.len() - 1]->items@, last.submenu->0@);
        }
        assert forall|i: int|
            #![trigger native[i]]
            #![trigger items[i]]
            0 <= i < items.len() implies {
            &&& native[i] is Separator <==> items[i].separator
            &&& native[i] is Submenu <==> !items[i].separator && items[i].submenu is Some
            &&& native[i] is Entry <==> !items[i].separator && items[i].submenu is None
            &&& native[i] is Submenu ==> native[i]->Submenu_title@ == items[i].title@
                && native[i]->Submenu_enabled == items[i].enabled && shows(
                native[i]->items@,
                items[i].submenu->0@,
            )
            &&& native[i] is Entry ==> native[i]->Entry_title@ == items[i].title@
                && native[i]->Entry_enabled == items[i].enabled && native[i]->id@ == items[i].id@
        } by {
            if i < front.len() {
                assert(shown[i] == native[i] && front[i] == items[i]);
            }
        }
    }
}

/// A menu that is planned for the native toolkit shows what was described, at every depth.
pub proof fn native_menu_shows_the_menu<C: TextSignal>(
    items: &Vec<MenuItem>,
    r: Vec<NativeItem>,
    t: &Tray<C>,
    s: Vec<NativeItem>,
)
    requires
        call_ensures(build_menu_recursive, (items,), r),
        call_ensures(Tray::<C>::native_menu, (t,), s),
    ensures
        shows(r@, items@),
        t.menu is Some ==> shows(s@, t.menu->0.items@),
        t.menu is None ==> s@.len() == 0,
{
    plan_shows(r@, items@);
    if t.menu is Some {
        plan_shows(s@, t.menu->0.items@);
    } else if s@.len() > 0 {
        assert(native_views(s@).len() > 0);
    }
}

/// Two menus hold the same entries, at every depth.
pub open spec fn same_entries(a: Seq<MenuItem>, b: Seq<MenuItem>) -> bool
    decreases a,
{
    &&& a.len() == b.len()
    &&& forall|i: int|
        #![trigger a[i]]
        #![trigger b[i]]
        0 <= i < a.len() ==> {
            &&& a[i].id@ == b[i].id@ && a[i].title@ == b[i].title@
            &&& a[i].enabled == b[i].enabled && a[i].checked == b[i].checked
            &&& same_option(a[i].shortcut, b[i].shortcut)
            &&& a[i].separator == b[i].separator
            &&& a[i].submenu is Some <==> b[i].submenu is Some
            &&& a[i].submenu is Some ==> same_entries(a[i].submenu->0@, b[i].submenu->0@)
        }
}

proof fn views_agree(a: Seq<MenuItem>, b: Seq<MenuItem>)
    requires
        menu_views(a) == menu_views(b),
    ensures
        same_entries(a, b),
    decreases a,
{
    if a.len() == 0 {
        if b.len() > 0 {
            assert(menu_views(b).len() > 0);
        }
    } else {
        assert(menu_views(a).len() > 0);
        assert(b.len() > 0);
        let (c, d) = (a.subrange(0, a.len() - 1), b.subrange(0, b.len() - 1));
        let (x, y) = (a[a.len() - 1], b[b.len() - 1]);
        assert(menu_views(a).drop_last() =~= menu_views(c));
        assert(menu_views(b).drop_last() =~= menu_views(d));
        assert(menu_views(a).last() == menu_view(x));
        assert(menu_views(b).last() == menu_view(y));
        views_agree(c, d);
        if x.submenu is Some {
            views_agree(x.submenu->0@, y.submenu->0@);
        }
        assert forall|i: int|
            #![trigger a[i]]
            #![trigger b[i]]
            0 <= i < a.len() implies {
            &&& a[i].id@ == b[i].id@ && a[i].title@ == b[i].title@
            &&& a[i].enabled == b[i].enabled && a[i].checked == b[i].checked
            &&& same_option(a[i].shortcut, b[i].shortcut)
            &&& a[i].separator == b[i].separator
            &&& a[i].submenu is Some <==> b[i].submenu is Some
            &&& a[i].submenu is Some ==> same_entries(a[i].submenu->0@, b[i].submenu->0@)
        } by {
            if i < c.len() {
                assert(c[i] == a[i] && d[i] == b[i]);
            }
        }
    }
}

/// A copy of a menu holds the same entries, and so does a copy of an entry.
pub proof fn copied_menu_is_the_same(
    m: &MenuSpec,
    r: MenuSpec,
    x: &MenuItem,
    y: MenuItem,
)
    requires
        call_ensures(MenuSpec::clone, (m,), r),
        call_ensures(MenuItem::clone, (x,), y),
    ensures
        same_entries(r.items@, m.items@),
        same_entries(seq![y], seq![*x]),
{
    views_agree(r.items@, m.items@);
    let (a, b) = (seq![y], seq![*x]);
    assert(a.subrange(0, 0) =~= Seq::empty() && b.subrange(0, 0) =~= Seq::empty());
    assert(menu_views(a) =~= menu_views(b));
    views_agree(a, b);
}

/// An entry of which nothing was said can be clicked, and is neither checked nor a line.
pub proof fn plain_entry_can_be_clicked(x: MenuItem, m: MenuSpec)
    requires
        call_ensures(MenuItem::default, (), x),
        call_ensures(MenuSpec::default, (), m),
    ensures
        x.enabled && !x.checked && !x.separator,
        x.id@.len() == 0 && x.title@.len() == 0 && x.shortcut is None && x.submenu is None,
        m.items@.len() == 0,
{
}

/// A new tray has the icon that it was given and no menu.  Setting a menu sets that menu, and
/// setting the receiver of clicks sets that receiver; nothing else changes.
pub proof fn tray_holds_what_was_set<C: TextSignal, G: Fn(&str)>(
    icon: Option<String>,
    n: Result<Tray<NoHook>, ApiError>,
    a: &mut Tray<C>,
    menu: MenuSpec,
    r: Result<(), ApiError>,
    b: Tray<C>,
    cb: G,
    s: Result<Tray<Hook<G>>, ApiError>,
    c: Tray<C>,
    q: Result<(), ApiError>,
)
    requires
        call_ensures(Tray::<NoHook>::new, (icon,), n),
        call_ensures(Tray::<C>::set_menu, (a, menu), r),
        call_ensures(Tray::<C>::on_click::<G>, (b, cb), s),
        call_ensures(Tray::<C>::close, (c,), q),
    ensures
        n is Ok && same_option(n->Ok_0.icon_path, icon) && n->Ok_0.menu is None,
        r is Ok && final(a).menu == Some(menu),
        same_option(final(a).icon_path, old(a).icon_path),
        final(a).on_click == old(a).on_click,
        s is Ok && s->Ok_0.on_click == Hook(cb) && s->Ok_0.menu == b.menu,
        same_option(s->Ok_0.icon_path, b.icon_path),
        q is Ok,
{
}

/// A click on a native entry that was recorded tells the receiver the id of its entry, once.
pub proof fn recorded_click_is_told<C: TextSignal>(
    a: &mut Tray<C>,
    native: &str,
    id: &str,
    done: (),
    b: &mut Tray<C>,
    told: bool,
)
    requires
        call_ensures(Tray::<C>::add_route, (a, native, id), done),
        *old(b) == *final(a),
        call_ensures(Tray::<C>::native_click, (b, native), told),
    ensures
        told,
        final(b).clicks@.len() == old(a).clicks@.len() + 1,
        final(b).clicks@.last() == id@,
        old(a).on_click.told(id@),
        final(b).menu == old(a).menu && final(b).on_click == old(a).on_click,
        same_option(final(b).icon_path, old(a).icon_path),
{
    assert(old(b).targets().contains_key(native@));
}

/// Of entries that are recorded together, each under a native id of its own, every one is told as
/// it was recorded.
pub proof fn recorded_clicks_are_told<C: TextSignal>(
    a: &mut Tray<C>,
    pairs: &Vec<(String, String)>,
    done: (),
    i: int,
    native: &str,
    b: &mut Tray<C>,
    told: bool,
)
    requires
        call_ensures(Tray::<C>::add_routes, (a, pairs), done),
        forall|j: int, k: int|
            0 <= j < k < pairs@.len() ==> (#[trigger] pairs@[j]).0@ != (#[trigger] pairs@[k]).0@,
        0 <= i < pairs@.len(),
        native@ == pairs@[i].0@,
        *old(b) == *final(a),
        call_ensures(Tray::<C>::native_click, (b, native), told),
    ensures
        told,
        final(b).clicks@.len() == old(a).clicks@.len() + 1,
        final(b).clicks@.last() == pairs@[i].1@,
        old(a).on_click.told(pairs@[i].1@),
{
    let views = crate::tray_and_notify::pair_views(pairs@);
    assert(views[i].0 == pairs@[i].0@ && views[i].1 == pairs@[i].1@);
    assert forall|j: int, k: int| 0 <= j < k < views.len() implies (#[trigger] views[j]).0 != (
    #[trigger] views[k]).0 by {
        assert(views[j].0 == pairs@[j].0@ && views[k].0 == pairs@[k].0@);
    }
    pair_is_routed(old(a).targets(), views, i);
}

proof fn pair_is_routed(
    routes: Map<Seq<char>, Seq<char>>,
    pairs: Seq<(Seq<char>, Seq<char>)>,
    i: int,
)
    requires
        0 <= i < pairs.len(),
        forall|j: int, k: int|
            0 <= j < k < pairs.len() ==> (#[trigger] pairs[j]).0 != (#[trigger] pairs[k]).0,
    ensures
        crate::tray_and_notify::routed(routes, pairs).contains_key(pairs[i].0),
        crate::tray_and_notify::routed(routes, pairs)[pairs[i].0] == pairs[i].1,
    decreases pairs.len(),
{
    if i < pairs.len() - 1 {
        let front = pairs.drop_last();
        assert forall|j: int, k: int| 0 <= j < k < front.len() implies (#[trigger] front[j]).0 != (
        #[trigger] front[k]).0 by {
            assert(front[j] == pairs[j] && front[k] == pairs[k]);
        }
        pair_is_routed(routes, front, i);
        assert(front[i] == pairs[i]);
        assert(pairs[pairs.len() - 1] == pairs.last());
    }
}

/// A click on any other native entry is answered as if nothing had been recorded.
pub proof fn other_clicks_stay_as_they_were<C: TextSignal>(
    a: &mut Tray<C>,
    native: &str,
    id: &str,
    done: (),
    other: &str,
    b: &mut Tray<C>,
    after: bool,
    c: &mut Tray<C>,
    before: bool,
)
    requires
        call_ensures(Tray::<C>::add_route, (a, native, id), done),
        other@ != native@,
        *old(b) == *final(a),
        call_ensures(Tray::<C>::native_click, (b, other), after),
        *old(c) == *old(a),
        call_ensures(Tray::<C>::native_click, (c, other), before),
    ensures
        after == before,
        final(b).clicks@ == final(c).clicks@,
        !after ==> final(b).clicks@ == old(a).clicks@,
{
    assert(old(b).targets().contains_key(other@) == old(c).targets().contains_key(other@));
}

/// After a menu was set, no click is passed on until native entries are recorded.
pub proof fn earlier_menu_is_forgotten<C: TextSignal>(
    a: &mut Tray<C>,
    menu: MenuSpec,
    r: Result<(), ApiError>,
    native: &str,
    b: &mut Tray<C>,
    told: bool,
)
    requires
        call_ensures(Tray::<C>::set_menu, (a, menu), r),
        *old(b) == *final(a),
        call_ensures(Tray::<C>::native_click, (b, native), told),
    ensures
        !told,
        final(b).clicks@ == old(a).clicks@,
{
    assert(!old(b).targets().contains_key(native@));
}

/// A simulated click is told with the id that was given, once, and changes nothing.
pub proof fn simulated_click_is_told<C: TextSignal>(a: &mut Tray<C>, id: &str, done: ())
    requires
        call_ensures(Tray::<C>::simulate_click, (a, id), done),
    ensures
        final(a).clicks@.len() == old(a).clicks@.len() + 1,
        final(a).clicks@.last() == id@,
        old(a).on_click.told(id@),
        final(a).menu == old(a).menu && final(a).on_click == old(a).on_click,
        same_option(final(a).icon_path, old(a).icon_path),
{
}

/// A notification has the title, the body, the icon and the receiver that it was given.
pub proof fn notification_holds_what_was_given<A, G: Fn(&str)>(
    title: &str,
    body: &str,
    n: Notification<NoHook>,
    a: Notification<A>,
    path: &str,
    m: Notification<A>,
    b: Notification<A>,
    cb: G,
    o: Notification<Hook<G>>,
)
    requires
        call_ensures(Notification::<NoHook>::new, (title, body), n),
        call_ensures(Notification::<A>::icon_path, (a, path), m),
        call_ensures(Notification::<A>::on_action::<G>, (b, cb), o),
    ensures
        n.title@ == title@ && n.body@ == body@ && n.icon_path is None,
        m.title@ == a.title@ && m.body@ == a.body@ && m.on_action == a.on_action,
        m.icon_path is Some && m.icon_path->0@ == path@,
        o.title@ == b.title@ && o.body@ == b.body@ && o.on_action == Hook(cb),
        same_option(o.icon_path, b.icon_path),
{
}

/// A service that a function stands for answered `answer` when it was asked for a notification.
pub open spec fn answered<F: Fn(&str, &str, &Option<String>) -> Result<(), String>>(
    show: F,
    title: Seq<char>,
    body: Seq<char>,
    icon: Option<String>,
    answer: Result<(), String>,
) -> bool {
    exists|t: &str, b: &str, i: &Option<String>|
        t@ == title && b@ == body && same_option(*i, icon) && #[trigger] call_ensures(
            show,
            (t, b, i),
            answer,
        )
}

/// What a service answered is what the caller is told: success for success, and the text of the
/// failure at the end of the text of the error.
pub open spec fn passed_on(answer: Result<(), String>, r: Result<(), ApiError>) -> bool {
    &&& answer is Ok <==> r is Ok
    &&& answer is Err ==> r->Err_0 is Backend && ends_with(r->Err_0->Backend_0@, answer->Err_0@)
}

/// A notification is shown once, as it is, and the answer of the service is passed on.
pub proof fn notification_is_shown_as_it_is<
    A,
    F: Fn(&str, &str, &Option<String>) -> Result<(), String>,
>(n: &Notification<A>, s: &mut Service<F>, r: Result<(), ApiError>)
    requires
        call_ensures(Notification::<A>::show::<Service<F>>, (n, s), r),
    ensures
        final(s).asked@.len() == old(s).asked@.len() + 1,
        final(s).asked@.last().title == n.title@,
        final(s).asked@.last().body == n.body@,
        final(s).show == old(s).show,
        exists|a: Result<(), String>| #[trigger]
            answered(old(s).show, n.title@, n.body@, n.icon_path, a) && passed_on(a, r),
{
    let shape = n.shape();
    let a = choose|a: Result<(), String>| #[trigger]
        <Service<F> as crate::tray_and_notify::NotificationService>::step(
            *old(s),
            shape,
            *final(s),
            a,
        ) && crate::tray_and_notify::reports(a, r);
    let (t, b, i) = choose|t: &str, b: &str, i: &Option<String>|
        crate::tray_and_notify::notification_of(t, b, *i) == shape && #[trigger] call_ensures(
            old(s).show,
            (t, b, i),
            a,
        );
    assert(t@ == n.title@ && b@ == n.body@);
    assert(answered(old(s).show, n.title@, n.body@, n.icon_path, a));
    if a is Err {
        let e = a->Err_0@;
        let text = r->Err_0->Backend_0@;
        assert(text.skip(text.len() - e.len()) =~= e);
    }
}

/// A notification that is shown in one call is shown once, with what was given.
pub proof fn simple_notification_is_shown_as_given<
    F: Fn(&str, &str, &Option<String>) -> Result<(), String>,
>(
    title: &str,
    body: &str,
    icon: Option<String>,
    s: &mut Service<F>,
    r: Result<(), ApiError>,
)
    requires
        call_ensures(
            Notification::<NoHook>::show_simple::<Service<F>>,
            (title, body, icon, s),
            r,
        ),
    ensures
        final(s).asked@.len() == old(s).asked@.len() + 1,
        final(s).asked@.last().title == title@,
        final(s).asked@.last().body == body@,
        final(s).show == old(s).show,
        exists|a: Result<(), String>| #[trigger]
            answered(old(s).show, title@, body@, icon, a) && passed_on(a, r),
{
    let shape = crate::tray_and_notify::notification_of(title, body, icon);
    let a = choose|a: Result<(), String>| #[trigger]
        <Service<F> as crate::tray_and_notify::NotificationService>::step(
            *old(s),
            shape,
            *final(s),
            a,
        ) && crate::tray_and_notify::reports(a, r);
    let (t, b, i) = choose|t: &str, b: &str, i: &Option<String>|
        crate::tray_and_notify::notification_of(t, b, *i) == shape && #[trigger] call_ensures(
            old(s).show,
            (t, b, i),
            a,
        );
    assert(t@ == title@ && b@ == body@);
    assert(answered(old(s).show, title@, body@, icon, a));
    if a is Err {
        let e = a->Err_0@;
        let text = r->Err_0->Backend_0@;
        assert(text.skip(text.len() - e.len()) =~= e);
    }
}

/// The texts of errors end with what went wrong and tell the errors apart.
pub proof fn errors_say_what_went_wrong(e: &ApiError, s: String, error: &str, f: ApiError)
    requires
        call_ensures(ApiError::to_text, (e,), s),
        call_ensures(notify_error, (error,), f),
    ensures
        e is Unsupported ==> s@[0] == 'u' && ends_with(s@, e->Unsupported_0@),
        e is Backend ==> s@[0] == 'b' && ends_with(s@, e->Backend_0@),
        f is Backend && ends_with(f->Backend_0@, error@),
{
    reveal_strlit("unsupported: ");
    reveal_strlit("backend error: ");
    let end = match *e {
        ApiError::Unsupported(t) => t@,
        ApiError::Backend(t) => t@,
    };
    assert(s@.skip(s@.len() - end.len()) =~= end);
    let text = f->Backend_0@;
    assert(text.skip(text.len() - error@.len()) =~= error@);
}

} // verus!
