use vstd::prelude::*;

use super::stack::{lemma_without, without};
use super::{
    is_stacked, screen_wf, stacked_in, Client, ClientsModel, ScreenModel,
};
use crate::backends::structs::WindowType;
use crate::maps::{has_key, key_index, keys_unique, lemma_key_index, lemma_swap_remove, swap_remove, upsert, value_of};

verus! {

/// On every virtual screen of a sound state, the master stack holds a window whenever
/// the screen holds any.
pub proof fn lemma_master_populated(m: ClientsModel, i: int)
    requires
        m.wf(),
        0 <= i < m.screens.len(),
    ensures
        m.screens[i].aux.len() > 0 ==> m.screens[i].master.len() > 0,
{
    assert(screen_wf(m.screens[i]));
}

/// Every tiled client is on exactly one virtual screen, and every window on a virtual
/// screen is a tiled client.
pub proof fn lemma_tiled_on_one_screen(m: ClientsModel, k: u64)
    requires
        m.wf(),
    ensures
        m.is_tiled(k) <==> m.is_stacked(k),
        m.is_stacked(k) ==> forall|j: int| 0 <= j < m.screens.len() && j != m.screen_of(k) ==> !#[trigger] m.screens[j].contains(k),
{
    if m.is_stacked(k) {
        let i = m.screen_of(k);
        assert(stacked_in(m.screens, i, k));
        assert forall|j: int| 0 <= j < m.screens.len() && j != i implies !#[trigger] m.screens[j].contains(k) by {
            assert(!stacked_in(m.screens, j, k));
        }
    }
}

/// Tiling twice is tiling once.
pub proof fn lemma_arranged_idempotent(m: ClientsModel)
    requires
        m.wf(),
    ensures
        m.arranged().arranged() == m.arranged(),
{
    let a = m.arranged();
    assert(a.arranged().tiled =~= a.tiled);
}

/// Inserting a window on the empty slot of one side of a screen and removing it again
/// gives the screen back.
proof fn lemma_screen_insert_remove(s: ScreenModel, k: u64)
    requires
        screen_wf(s),
        !s.contains(k),
    ensures
        s.inserted(k).removed(k) == s,
{
    lemma_without(s.master, k);
    lemma_without(s.aux, k);
    if s.master.len() == 0 {
        assert(s.aux.len() == 0);
        let i = s.inserted(k);
        assert(i.master =~= seq![k]);
        assert(i.aux =~= Seq::<u64>::empty());
        lemma_without(i.master, k);
        lemma_without(i.aux, k);
        assert(without(i.master, k).len() == 0) by {
            if without(i.master, k).len() > 0 {
                assert(without(i.master, k).contains(without(i.master, k)[0]));
            }
        }
        assert(without(i.aux, k) =~= Seq::<u64>::empty());
        assert(without(i.master, k) =~= s.master);
        assert(s.aux =~= Seq::<u64>::empty());
    } else {
        let a = s.aux.push(k);
        reveal(Seq::filter);
        assert(a.drop_last() =~= s.aux);
        assert(without(a, k) == without(s.aux, k));
    }
}

/// Adding a new client and removing it again gives the (tiled) state back.
pub proof fn lemma_insert_then_remove(m: ClientsModel, c: Client)
    requires
        m.wf(),
        !m.contains(c.window),
    ensures
        m.inserted(c).removed(c.window) == m.arranged(),
{
    let k = c.window;
    let a = m.inserted(c);
    let r = a.removed(k);
    assert(!m.is_tiled(k));
    assert(!is_stacked(m.screens, k));
    if c.window_type == WindowType::Normal {
        let m1 = ClientsModel {
            tiled: m.tiled.push((k, c)),
            screens: m.screens.update(m.current, m.current_screen().inserted(k)),
            ..m
        };
        assert(a == m1.arranged());
        assert(screen_wf(m.screens[m.current]));
        assert(!m.current_screen().contains(k)) by {
            if m.current_screen().contains(k) {
                assert(stacked_in(m.screens, m.current, k));
            }
        }
        super::proofs::lemma_inserted(m.current_screen(), k);
        assert(m1.current_screen().contains(k));
        assert(stacked_in(m1.screens, m.current, k));
        assert(a.is_stacked(k));
        assert(a.screen_of(k) == m.current) by {
            let j = a.screen_of(k);
            assert(stacked_in(a.screens, j, k));
            if j != m.current {
                assert(m.screens[j].contains(k));
                assert(stacked_in(m.screens, j, k));
            }
        }
        lemma_screen_insert_remove(m.current_screen(), k);
        assert(a.screens.update(m.current, a.screens[m.current].removed(k)) =~= m.screens);
        // the tiled table: the new entry was last, so swap-removing it drops it
        let n = m.tiled.len();
        assert(a.tiled[n as int].0 == k);
        assert(keys_unique(a.tiled)) by {
            super::lemma_insert_tiled_wf_pub(m, c);
            assert(super::same_keys(a.tiled, m1.tiled));
            super::lemma_same_keys(a.tiled, m1.tiled);
        }
        lemma_key_index(a.tiled, n as int);
        assert(swap_remove(a.tiled, k) =~= a.tiled.drop_last());
        assert(a.focused == m.focused);
        if m.focused == Some(k) {
            assert(m.contains(k));
        }
        let b = ClientsModel {
            focused: m.focused,
            tiled: a.tiled.drop_last(),
            floating: swap_remove(a.floating, k),
            screens: m.screens,
            ..a
        };
        assert(!has_key(a.floating, k));
        assert(swap_remove(a.floating, k) == m.floating);
        assert(r == b.arranged());
        assert forall|j: int| 0 <= j < n implies #[trigger] b.arranged().tiled[j] == m.arranged().tiled[j] by {
            let kj = m.tiled[j].0;
            assert(kj != k) by {
                assert(has_key(m.tiled, kj));
            }
            if !m.current_screen().contains(kj) {
                assert(!m1.current_screen().contains(kj));
            }
        }
        assert(b.arranged().tiled =~= m.arranged().tiled);
        assert(b.arranged() == m.arranged());
    } else {
        let m1 = ClientsModel { floating: m.floating.push((k, m.placed_floating(c))), ..m };
        assert(a == m1.arranged());
        assert(!a.is_stacked(k));
        let n = m.floating.len();
        assert(a.floating[n as int].0 == k);
        assert(keys_unique(a.floating)) by {
            super::lemma_insert_floating_wf_pub(m, m.placed_floating(c));
        }
        lemma_key_index(a.floating, n as int);
        assert(swap_remove(a.floating, k) =~= m.floating);
        assert(!has_key(a.tiled, k)) by {
            super::lemma_insert_floating_wf_pub(m, m.placed_floating(c));
            assert(super::same_keys(a.tiled, m1.tiled));
            super::lemma_same_keys(a.tiled, m1.tiled);
        }
        assert(swap_remove(a.tiled, k) == a.tiled);
        if m.focused == Some(k) {
            assert(m.contains(k));
        }
        assert(r.tiled =~= m.arranged().tiled);
        assert(r == m.arranged());
    }
}

/// Rotating right and then left by the same amount returns to the same virtual screen.
pub proof fn lemma_rotate_round_trip(m: ClientsModel, n: int)
    requires
        m.wf(),
        n >= 0,
    ensures
        m.rotated_right(n).rotated_left(n).current == m.current,
        m.rotated_right(n).went_back().current == m.current,
{
    let l = m.screens.len() as int;
    let a = n % l;
    let c1 = (m.current + a) % l;
    vstd::arithmetic::div_mod::lemma_mod_bound(m.current + a, l);
    assert(m.rotated_right(n).current == c1);
    assert((c1 + l - a) % l == m.current) by {
        vstd::arithmetic::div_mod::lemma_mod_bound(n, l);
        vstd::arithmetic::div_mod::lemma_fundamental_div_mod(m.current + a, l);
        let q = (m.current + a) / l;
        assert(m.current + a == l * q + c1);
        assert(0 <= m.current + a < 2 * l);
        assert(q == 0 || q == 1) by (nonlinear_arith)
            requires
                m.current + a == l * q + c1,
                0 <= m.current + a < 2 * l,
                0 <= c1 < l,
                l >= 1,
        ;
        if q == 0 {
            assert(l * q == 0) by (nonlinear_arith)
                requires
                    q == 0,
            ;
            assert(c1 + l - a == m.current + l);
            vstd::arithmetic::div_mod::lemma_mod_add_multiples_vanish(m.current, l);
            vstd::arithmetic::div_mod::lemma_small_mod(m.current as nat, l as nat);
        } else {
            assert(l * q == l) by (nonlinear_arith)
                requires
                    q == 1,
            ;
            assert(c1 + l - a == m.current);
            vstd::arithmetic::div_mod::lemma_small_mod(m.current as nat, l as nat);
        }
    }
}

/// Making a tiled client float keeps it managed, with its geometry, and keeps the state
/// sound.
pub proof fn lemma_float_keeps_client(m: ClientsModel, k: u64)
    requires
        m.wf(),
        m.is_tiled(k),
    ensures
        m.floated(k).wf(),
        m.floated(k).contains(k),
        m.floated(k).client_of(k) == m.client_of(k),
        m.floating_toggled(k).wf(),
        m.floating_toggled(k).contains(k),
        m.floating_toggled(k).client_of(k) == m.client_of(k),
{
    let c = value_of(m.tiled, k);
    super::lemma_toggle_to_floating_wf(m, k);
    let m1 = ClientsModel {
        tiled: swap_remove(m.tiled, k),
        floating: m.floating.push((k, c)),
        screens: m.screens.update(m.screen_of(k), m.screens[m.screen_of(k)].removed(k)),
        ..m
    };
    super::lemma_arranged(m1);
    super::lemma_same_keys(m1.arranged().tiled, m1.tiled);
    lemma_swap_remove(m.tiled, k);
    lemma_swap_remove(m.floating, k);
    crate::maps::lemma_upsert(swap_remove(m.floating, k), k, c);
    assert(m.floated(k) == m1.arranged());
    assert(!has_key(m1.arranged().tiled, k));
    assert(m1.arranged().floating == m.floating.push((k, c)));
}

/// A new client is managed after it is added, and the state stays sound.
pub proof fn lemma_inserted_manages(m: ClientsModel, c: Client)
    requires
        m.wf(),
        !m.contains(c.window),
        m.tiled.len() + m.floating.len() < super::MAX_CLIENTS,
    ensures
        m.inserted(c).wf(),
        m.inserted(c).contains(c.window),
{
    let k = c.window;
    if c.window_type == WindowType::Normal {
        super::lemma_insert_tiled_wf(m, c);
        let m1 = ClientsModel {
            tiled: m.tiled.push((k, c)),
            screens: m.screens.update(m.current, m.current_screen().inserted(k)),
            ..m
        };
        super::lemma_arranged(m1);
        super::lemma_same_keys(m1.arranged().tiled, m1.tiled);
        assert(m1.tiled[m1.tiled.len() - 1].0 == k);
        assert(has_key(m1.tiled, k));
    } else {
        let p = m.placed_floating(c);
        assert(p.window == k);
        super::lemma_insert_floating_wf(m, p);
        let m1 = ClientsModel { floating: m.floating.push((k, p)), ..m };
        super::lemma_arranged(m1);
        assert(m1.floating[m1.floating.len() - 1].0 == k);
        assert(has_key(m1.floating, k));
    }
}

/// A removed client is no longer managed, and the state stays sound.
pub proof fn lemma_removed_forgets(m: ClientsModel, k: u64)
    requires
        m.wf(),
    ensures
        m.removed(k).wf(),
        !m.removed(k).contains(k),
{
    super::lemma_removed_wf(m, k);
    let m1 = ClientsModel {
        focused: if m.focused == Some(k) { None } else { m.focused },
        tiled: swap_remove(m.tiled, k),
        floating: swap_remove(m.floating, k),
        screens: if m.is_stacked(k) {
            m.screens.update(m.screen_of(k), m.screens[m.screen_of(k)].removed(k))
        } else {
            m.screens
        },
        ..m
    };
    super::lemma_arranged(m1);
    super::lemma_same_keys(m1.arranged().tiled, m1.tiled);
    lemma_swap_remove(m.tiled, k);
    lemma_swap_remove(m.floating, k);
}

/// Switching the stack of a stacked window moves it from the aux stack to the master
/// stack, and from the master stack to the aux stack unless it is the master stack's only
/// window (which stays there, since the master stack is never left empty while the screen
/// holds a window). The window stays on its screen, and the other screens are unchanged.
pub proof fn lemma_switch_moves(m: ClientsModel, k: u64)
    requires
        m.wf(),
        m.is_stacked(k),
    ensures
        ({
            let i = m.screen_of(k);
            let s = m.screens[i];
            let t = m.stack_switched(k).screens;
            &&& t.len() == m.screens.len()
            &&& forall|j: int| 0 <= j < t.len() && j != i ==> t[j] == m.screens[j]
            &&& t[i].contains(k)
            &&& s.aux.contains(k) ==> t[i].master.contains(k) && !t[i].aux.contains(k)
            &&& s.master.contains(k) && s.master.len() > 1 ==> t[i].aux.contains(k) && !t[i].master.contains(k)
        }),
{
    let i = m.screen_of(k);
    let s = m.screens[i];
    assert(stacked_in(m.screens, i, k));
    assert(screen_wf(s));
    let sw = s.switched(k);
    if s.master.contains(k) {
        let f = super::stack::first_index(s.master, k);
        super::stack::lemma_first_contains(s.master, k);
        let rest = s.master.remove(f);
        assert forall|x: u64| rest.contains(x) implies x != k by {
            let j = choose|j: int| 0 <= j < rest.len() && rest[j] == x;
            if j < f {
                assert(rest[j] == s.master[j]);
            } else {
                assert(rest[j] == s.master[j + 1]);
            }
        }
        assert(s.aux.push(k)[s.aux.len() as int] == k);
        if s.master.len() > 1 {
            assert(rest.len() > 0);
            assert(sw.master == rest);
            assert(sw.aux == s.aux.push(k));
        }
        if s.master.len() <= 1 {
            assert(rest.len() == 0);
            assert(s.aux.len() == 0 || sw.aux.len() >= 0);
            assert(sw.contains(k)) by {
                if s.aux.len() == 0 {
                    assert(sw.master == seq![k]);
                    assert(sw.master[0] == k);
                } else {
                    assert(sw.master == seq![s.aux.push(k)[0]]);
                    assert(sw.aux == s.aux.push(k).drop_first());
                    assert(sw.aux[s.aux.len() - 1] == k);
                }
            }
        }
    } else {
        assert(s.aux.contains(k));
        let f = super::stack::first_index(s.aux, k);
        super::stack::lemma_first_contains(s.aux, k);
        let rest = s.aux.remove(f);
        assert forall|x: u64| rest.contains(x) implies x != k by {
            let j = choose|j: int| 0 <= j < rest.len() && rest[j] == x;
            if j < f {
                assert(rest[j] == s.aux[j]);
            } else {
                assert(rest[j] == s.aux[j + 1]);
            }
        }
        assert(s.master.len() > 0);
        assert(sw.master == s.master.push(k));
        assert(sw.master[s.master.len() as int] == k);
        assert(sw.aux == rest);
    }
}

/// On any number `l` of virtual screens, moving the current index `c` right by `n` and
/// then left by `n` (the arithmetic of `VirtualScreenStore::rotate_right` and
/// `rotate_left`) gives `c` back.
pub proof fn lemma_store_rotate_round_trip(c: int, l: int, n: int)
    requires
        l >= 1,
        0 <= c < l,
        n >= 0,
    ensures
        (((c + n % l) % l) + l - n % l) % l == c,
{
    let a = n % l;
    vstd::arithmetic::div_mod::lemma_mod_bound(n, l);
    super::layout::lemma_mod_small_sum(c + a, l);
    let r = (c + a) % l;
    super::layout::lemma_mod_small_sum(r + l - a, l);
}

/// A new window that is not a normal one floats, centred over its parent window whenever
/// the parent is managed, tiled or floating: at the parent's position plus half (rounded
/// toward zero) of how much larger the parent is; and it is no larger than the screen
/// less its borders.
pub proof fn lemma_new_dialog_centred(m: ClientsModel, c: Client, parent: u64)
    requires
        m.wf(),
        !m.contains(c.window),
        m.tiled.len() + m.floating.len() < super::MAX_CLIENTS,
        c.window_type != WindowType::Normal,
        c.parent_window == Some(parent),
        m.contains(parent),
        m.insert_fits(c),
    ensures
        ({
            let n = m.inserted(c).client_of(c.window);
            let pc = m.client_of(parent);
            &&& m.inserted(c).is_floating(c.window)
            &&& !m.inserted(c).is_tiled(c.window)
            &&& n.position.x == pc.position.x + super::tdiv(pc.size.width - c.size.width, 2)
            &&& n.position.y == pc.position.y + super::tdiv(pc.size.height - c.size.height, 2)
            &&& n.size.width == if c.size.width <= m.screen_size.width - m.border * 2 {
                c.size.width as int
            } else {
                m.screen_size.width - m.border * 2
            }
            &&& n.size.height == if c.size.height <= m.screen_size.height - m.border * 2 {
                c.size.height as int
            } else {
                m.screen_size.height - m.border * 2
            }
        }),
{
    let k = c.window;
    let pl = m.placed_floating(c);
    assert(pl.window == k);
    super::lemma_insert_floating_wf(m, pl);
    let m1 = ClientsModel { floating: m.floating.push((k, pl)), ..m };
    super::lemma_arranged(m1);
    super::lemma_same_keys(m1.arranged().tiled, m1.tiled);
    crate::maps::lemma_upsert(m.floating, k, pl);
    assert(m1.floating[m1.floating.len() - 1].0 == k);
    assert(has_key(m1.floating, k));
    assert(!has_key(m1.tiled, k));
    assert(m.inserted(c) == m1.arranged());
    assert(m.inserted(c).client_of(k) == pl);
}

} // verus!
