use vstd::prelude::*;

use crate::backends::structs::WindowType;
use crate::maps::{
    client_entries, client_map_contains_key, client_map_get, client_map_get_index,
    client_map_insert, client_map_len, client_map_new, client_map_swap_remove, has_key,
    key_index, keys_of, keys_unique, lemma_key_index, lemma_swap_remove, lemma_upsert,
    swap_remove, upsert, value_of,
};
use crate::util::{BuildIdentityHasher, Point, Size, COORD_LIMIT};

pub mod client;
pub mod laws;
pub mod layout;
pub mod proofs;
pub mod stack;

pub use client::{default_client, Client, ClientKey, Window};
use layout::{lemma_cell_offset_bound, lemma_share_bound, lemma_tdiv_bound, magnitude};
use stack::{first_index, is_first, lemma_first_contains, lemma_first_index, lemma_first_unique, lemma_without, without};

verus! {

/// Used to wrap a `&` or `&mut` to a Client type.
#[derive(Debug)]
pub enum ClientEntry<T> {
    /// Entry of a tiled client
    Tiled(T),
    /// Entry of a floating client
    Floating(T),
    /// `None` variant equivalent
    Vacant,
}

impl<T> ClientEntry<T> {
    pub open spec fn option(self) -> Option<T> {
        match self {
            ClientEntry::Tiled(c) => Some(c),
            ClientEntry::Floating(c) => Some(c),
            ClientEntry::Vacant => None,
        }
    }

    pub fn into_option(self) -> (r: Option<T>)
        ensures
            r == self.option(),
    {
        match self {
            ClientEntry::Tiled(c) => Some(c),
            ClientEntry::Floating(c) => Some(c),
            ClientEntry::Vacant => None,
        }
    }

    pub fn unwrap(self) -> (r: T)
        requires
            !(self is Vacant),
        ensures
            Some(r) == self.option(),
    {
        match self {
            ClientEntry::Tiled(c) => c,
            ClientEntry::Floating(c) => c,
            ClientEntry::Vacant => { proof { assert(false); } unreached() },
        }
    }

    pub fn is_vacant(&self) -> (r: bool)
        ensures
            r == (*self is Vacant),
    {
        match self {
            ClientEntry::Vacant => true,
            _ => false,
        }
    }

    pub fn is_floating(&self) -> (r: bool)
        ensures
            r == (*self is Floating),
    {
        match self {
            ClientEntry::Floating(_) => true,
            _ => false,
        }
    }

    pub fn is_tiled(&self) -> (r: bool)
        ensures
            r == (*self is Tiled),
    {
        match self {
            ClientEntry::Tiled(_) => true,
            _ => false,
        }
    }

    pub fn is_occupied(&self) -> (r: bool)
        ensures
            r == !(*self is Vacant),
    {
        !self.is_vacant()
    }
}

impl<'a> ClientEntry<&'a Client> {
    /// The entry with the reference replaced by the client it points to.
    pub open spec fn value(self) -> ClientEntry<Client> {
        match self {
            ClientEntry::Tiled(c) => ClientEntry::Tiled(*c),
            ClientEntry::Floating(c) => ClientEntry::Floating(*c),
            ClientEntry::Vacant => ClientEntry::Vacant,
        }
    }

    pub fn is_fullscreen(&self) -> (r: bool)
        ensures
            r == match *self {
                ClientEntry::Tiled(c) => c.fullscreen,
                ClientEntry::Floating(c) => c.fullscreen,
                ClientEntry::Vacant => false,
            },
    {
        match self {
            ClientEntry::Tiled(c) => c.is_fullscreen(),
            ClientEntry::Floating(c) => c.is_fullscreen(),
            ClientEntry::Vacant => false,
        }
    }
}

// ---------------------------------------------------------------------------
// The abstract state of a `ClientState`.
// ---------------------------------------------------------------------------

/// A virtual screen: its master stack and its aux stack, in order.
pub struct ScreenModel {
    pub master: Seq<u64>,
    pub aux: Seq<u64>,
}

/// What a `ClientState` holds.
pub struct ClientsModel {
    /// The tiled clients, in table order.
    pub tiled: Seq<(u64, Client)>,
    /// The floating clients, in table order.
    pub floating: Seq<(u64, Client)>,
    pub focused: Option<u64>,
    pub screens: Seq<ScreenModel>,
    pub current: int,
    pub last: Option<int>,
    pub gap: int,
    pub screen_size: Size,
    /// Width share of the master stack, in thousandths (1000 = one half of the screen).
    pub master_ratio: int,
    pub border: int,
}

/// A stack pair is sound: no window twice, no window on both stacks, and the master
/// stack is populated whenever the screen has a window.
pub open spec fn screen_wf(s: ScreenModel) -> bool {
    &&& s.master.no_duplicates()
    &&& s.aux.no_duplicates()
    &&& forall|k: u64| !(#[trigger] s.master.contains(k) && s.aux.contains(k))
    &&& (s.master.len() == 0 ==> s.aux.len() == 0)
}

/// After a change to the stacks: if the master stack is empty, the first aux window moves
/// to it.
pub open spec fn refreshed(s: ScreenModel) -> ScreenModel {
    if s.master.len() == 0 && s.aux.len() > 0 {
        ScreenModel { master: seq![s.aux[0]], aux: s.aux.drop_first() }
    } else {
        s
    }
}

impl ScreenModel {
    pub open spec fn contains(self, k: u64) -> bool {
        self.master.contains(k) || self.aux.contains(k)
    }

    /// The screen after `k` was appended to the aux stack.
    pub open spec fn inserted(self, k: u64) -> ScreenModel {
        refreshed(ScreenModel { master: self.master, aux: self.aux.push(k) })
    }

    /// The screen after every occurrence of `k` was removed.
    pub open spec fn removed(self, k: u64) -> ScreenModel {
        refreshed(ScreenModel { master: without(self.master, k), aux: without(self.aux, k) })
    }

    /// The screen after `k` moved to the end of the other stack.
    pub open spec fn switched(self, k: u64) -> ScreenModel {
        if self.master.contains(k) {
            refreshed(ScreenModel {
                master: self.master.remove(first_index(self.master, k)),
                aux: self.aux.push(k),
            })
        } else {
            refreshed(ScreenModel {
                master: self.master.push(k),
                aux: self.aux.remove(first_index(self.aux, k)),
            })
        }
    }
}

/// Rust's `/` on integers (rounds toward zero), for a positive divisor.
pub open spec fn tdiv(a: int, b: int) -> int {
    if a >= 0 {
        a / b
    } else {
        -((-a) / b)
    }
}

/// The geometry of one window slot of a stack: `stack_w` by `stack_h` cells stacked at
/// `stack_x`, the `nth` cell, with gaps and borders removed; a fullscreen client takes the
/// whole screen.
pub open spec fn slot(
    m: ClientsModel,
    stack_w: int,
    stack_h: int,
    stack_x: int,
    fullscreen: bool,
    nth: int,
) -> (Size, Point) {
    slot_geometry(m.screen_size, m.gap, m.border, stack_w, stack_h, stack_x, fullscreen, nth)
}

/// `slot` for a screen of `screen_size` with the given gap and border.
pub open spec fn slot_geometry(
    screen_size: Size,
    gap: int,
    border: int,
    stack_w: int,
    stack_h: int,
    stack_x: int,
    fullscreen: bool,
    nth: int,
) -> (Size, Point) {
    if fullscreen {
        (screen_size, Point { x: 0, y: 0 })
    } else {
        (
            Size {
                width: (stack_w - gap * 2 - border * 2) as i32,
                height: (stack_h - gap * 2 - border * 2) as i32,
            },
            Point { x: (stack_x + gap * 2) as i32, y: (stack_h * nth + gap * 2) as i32 },
        )
    }
}

impl ClientsModel {
    pub open spec fn is_tiled(self, k: u64) -> bool {
        has_key(self.tiled, k)
    }

    pub open spec fn is_floating(self, k: u64) -> bool {
        has_key(self.floating, k)
    }

    pub open spec fn contains(self, k: u64) -> bool {
        self.is_tiled(k) || self.is_floating(k)
    }

    /// The client of `k`, looked up among the tiled clients first.
    pub open spec fn entry(self, k: u64) -> ClientEntry<Client> {
        if self.is_tiled(k) {
            ClientEntry::Tiled(value_of(self.tiled, k))
        } else if self.is_floating(k) {
            ClientEntry::Floating(value_of(self.floating, k))
        } else {
            ClientEntry::Vacant
        }
    }

    pub open spec fn current_screen(self) -> ScreenModel {
        self.screens[self.current]
    }

    pub open spec fn stacked_in(self, i: int, k: u64) -> bool {
        stacked_in(self.screens, i, k)
    }

    /// Some virtual screen holds `k`.
    pub open spec fn is_stacked(self, k: u64) -> bool {
        is_stacked(self.screens, k)
    }

    /// The virtual screen that holds `k` (meaningful when `is_stacked(k)`).
    pub open spec fn screen_of(self, k: u64) -> int {
        choose|i: int| 0 <= i < self.screens.len() && stacked_in(self.screens, i, k)
    }

    /// Width of the vertical area left between the screen's side gaps.
    pub open spec fn area_width(self) -> int {
        self.screen_size.width - self.gap * 2
    }

    /// Height of the area left between the screen's top and bottom gaps.
    pub open spec fn area_height(self) -> int {
        self.screen_size.height - self.gap * 2
    }

    /// Width of the master stack on the current screen: all of it if the aux stack is
    /// empty, else its share.
    pub open spec fn master_width(self) -> int {
        if self.current_screen().aux.len() == 0 {
            self.area_width()
        } else {
            tdiv(self.area_width() * self.master_ratio, 2000)
        }
    }

    /// Height of one cell of a stack holding `n` windows.
    pub open spec fn cell_height(self, n: int) -> int {
        if n == 0 {
            1
        } else {
            tdiv(self.area_height(), n)
        }
    }

    /// The tiled client `c` of window `k` with the geometry the current screen's layout
    /// gives it (unchanged if `k` is not on the current screen).
    pub open spec fn relayout(self, k: u64, c: Client) -> Client {
        let s = self.current_screen();
        if s.master.contains(k) {
            let g = slot(
                self,
                self.master_width(),
                self.cell_height(s.master.len() as int),
                0,
                c.fullscreen,
                first_index(s.master, k),
            );
            Client { size: g.0, position: g.1, ..c }
        } else if s.aux.contains(k) {
            let g = slot(
                self,
                self.area_width() - self.master_width(),
                self.cell_height(s.aux.len() as int),
                self.master_width(),
                c.fullscreen,
                first_index(s.aux, k),
            );
            Client { size: g.0, position: g.1, ..c }
        } else {
            c
        }
    }

    /// The state after the current screen was tiled.
    pub open spec fn arranged(self) -> ClientsModel {
        ClientsModel {
            tiled: Seq::new(
                self.tiled.len(),
                |j: int| (self.tiled[j].0, self.relayout(self.tiled[j].0, self.tiled[j].1)),
            ),
            ..self
        }
    }

    /// The client of `k`, tiled or floating (meaningful when `contains(k)`).
    pub open spec fn client_of(self, k: u64) -> Client {
        if self.is_tiled(k) {
            value_of(self.tiled, k)
        } else {
            value_of(self.floating, k)
        }
    }

    /// A new floating client `c`: centred over its parent window if that is managed, then
    /// shrunk to fit the screen inside the borders.
    pub open spec fn placed_floating(self, c: Client) -> Client {
        let c1 = match c.parent_window {
            Some(p) => if self.contains(p) {
                let pc = self.client_of(p);
                Client {
                    position: Point {
                        x: (pc.position.x + tdiv(pc.size.width - c.size.width, 2)) as i32,
                        y: (pc.position.y + tdiv(pc.size.height - c.size.height, 2)) as i32,
                    },
                    ..c
                }
            } else {
                c
            },
            None => c,
        };
        Client {
            size: Size {
                width: crate::util::min_i32(c1.size.width, (self.screen_size.width - self.border * 2) as i32),
                height: crate::util::min_i32(c1.size.height, (self.screen_size.height - self.border * 2) as i32),
            },
            ..c1
        }
    }

    /// Centring a new floating client `c` over its parent stays within `i32`.
    pub open spec fn insert_fits(self, c: Client) -> bool {
        c.window_type != WindowType::Normal ==> match c.parent_window {
            Some(p) => self.contains(p) ==> {
                let pc = self.client_of(p);
                &&& crate::util::fits_i32(pc.size.width - c.size.width)
                &&& crate::util::fits_i32(pc.size.height - c.size.height)
                &&& crate::util::fits_i32(pc.position.x + tdiv(pc.size.width - c.size.width, 2))
                &&& crate::util::fits_i32(pc.position.y + tdiv(pc.size.height - c.size.height, 2))
            },
            None => true,
        }
    }

    /// The state after the new client `c` was added: a normal window is tiled at the end
    /// of the current screen's aux stack, any other window floats.
    pub open spec fn inserted(self, c: Client) -> ClientsModel {
        let k = c.window;
        if c.window_type == WindowType::Normal {
            ClientsModel {
                tiled: self.tiled.push((k, c)),
                screens: self.screens.update(self.current, self.current_screen().inserted(k)),
                ..self
            }.arranged()
        } else {
            ClientsModel { floating: self.floating.push((k, self.placed_floating(c))), ..self }.arranged()
        }
    }

    /// The state after client `k` was removed.
    pub open spec fn removed(self, k: u64) -> ClientsModel {
        ClientsModel {
            focused: if self.focused == Some(k) { None } else { self.focused },
            tiled: swap_remove(self.tiled, k),
            floating: swap_remove(self.floating, k),
            screens: if self.is_stacked(k) {
                self.screens.update(self.screen_of(k), self.screens[self.screen_of(k)].removed(k))
            } else {
                self.screens
            },
            ..self
        }.arranged()
    }

    /// The state after client `k` switched between tiled and floating. Nothing happens to
    /// an unknown or a fullscreen client; a floating client that is not a normal window
    /// stays floating (and moves to the end of the floating table).
    pub open spec fn floating_toggled(self, k: u64) -> ClientsModel {
        if !self.contains(k) || self.client_of(k).fullscreen {
            self
        } else if self.is_tiled(k) {
            self.floated(k)
        } else {
            let c = value_of(self.floating, k);
            if c.window_type == WindowType::Normal {
                self.made_tiled(k)
            } else {
                ClientsModel { floating: swap_remove(self.floating, k).push((k, c)), ..self }.arranged()
            }
        }
    }

    /// The state after tiled client `k` left its virtual screen and went to the end of the
    /// floating table (the state itself when `k` is not tiled).
    pub open spec fn floated(self, k: u64) -> ClientsModel {
        if self.is_tiled(k) {
            let c = value_of(self.tiled, k);
            let i = self.screen_of(k);
            ClientsModel {
                tiled: swap_remove(self.tiled, k),
                floating: self.floating.push((k, c)),
                screens: self.screens.update(i, self.screens[i].removed(k)),
                ..self
            }.arranged()
        } else {
            self
        }
    }

    /// The state after floating client `k` went to the end of the tiled table and of the
    /// current screen's aux stack (the state itself when `k` is not floating).
    pub open spec fn made_tiled(self, k: u64) -> ClientsModel {
        if !self.is_tiled(k) && self.is_floating(k) {
            let c = value_of(self.floating, k);
            ClientsModel {
                tiled: self.tiled.push((k, c)),
                floating: swap_remove(self.floating, k),
                screens: self.screens.update(self.current, self.current_screen().inserted(k)),
                ..self
            }.arranged()
        } else {
            self
        }
    }

    /// The client `k` replaced by `c` in its table.
    pub open spec fn with_client(self, k: u64, c: Client) -> ClientsModel {
        if self.is_tiled(k) {
            ClientsModel { tiled: upsert(self.tiled, k, c), ..self }
        } else {
            ClientsModel { floating: upsert(self.floating, k, c), ..self }
        }
    }

    /// The state after client `k`'s window type became `window_type`: a window that became
    /// normal is made floating if it was tiled; any other is made tiled if it was floating.
    pub open spec fn window_type_updated(self, k: u64, window_type: WindowType) -> ClientsModel {
        if !self.contains(k) {
            self
        } else {
            let m1 = self.with_client(k, Client { window_type, ..self.client_of(k) });
            if window_type == WindowType::Normal {
                m1.floated(k)
            } else {
                m1.made_tiled(k)
            }
        }
    }

    /// The state after client `k`'s fullscreen flag was flipped; a client that became
    /// fullscreen covers the screen.
    pub open spec fn fullscreen_toggled(self, k: u64) -> ClientsModel {
        if !self.contains(k) {
            self
        } else {
            let c = self.client_of(k);
            let c2 = if !c.fullscreen {
                Client { fullscreen: true, size: self.screen_size, position: Point { x: 0, y: 0 }, ..c }
            } else {
                Client { fullscreen: false, ..c }
            };
            self.with_client(k, c2).arranged()
        }
    }

    /// The state after `k` moved to the other stack of its screen.
    pub open spec fn stack_switched(self, k: u64) -> ClientsModel {
        if self.is_stacked(k) {
            let i = self.screen_of(k);
            ClientsModel { screens: self.screens.update(i, self.screens[i].switched(k)), ..self }.arranged()
        } else {
            self
        }
    }

    /// The state after screen `n` (or the last one) became current.
    pub open spec fn went_to(self, n: int) -> ClientsModel {
        ClientsModel {
            current: if n < self.screens.len() { n } else { self.screens.len() - 1 },
            last: Some(self.current),
            ..self
        }.arranged()
    }

    /// The state after the current screen moved `n` places to the right, wrapping around.
    pub open spec fn rotated_right(self, n: int) -> ClientsModel {
        ClientsModel {
            current: (self.current + n % (self.screens.len() as int)) % (self.screens.len() as int),
            last: Some(self.current),
            ..self
        }.arranged()
    }

    /// The state after the current screen moved `n` places to the left, wrapping around.
    pub open spec fn rotated_left(self, n: int) -> ClientsModel {
        ClientsModel {
            current: (self.current + self.screens.len() - n % (self.screens.len() as int)) % (self.screens.len() as int),
            last: Some(self.current),
            ..self
        }.arranged()
    }

    /// The state after returning to the previously current screen, if there was one.
    pub open spec fn went_back(self) -> ClientsModel {
        match self.last {
            Some(l) => self.went_to(l),
            None => self.arranged(),
        }
    }

    /// The state after the master share changed by `delta` thousandths, kept within
    /// 200..=1800.
    pub open spec fn master_resized(self, delta: int) -> ClientsModel {
        let t = self.master_ratio + delta;
        ClientsModel {
            master_ratio: if t < 200 { 200 } else if t > 1800 { 1800 } else { t },
            ..self
        }.arranged()
    }

    /// Whether `k` is shown, following transient parents at most `fuel` times: a tiled
    /// client is shown when it is on the current screen, a floating client when it has no
    /// parent or its parent is shown.
    pub open spec fn visible_within(self, k: u64, fuel: nat) -> bool
        decreases fuel,
    {
        if self.is_tiled(k) {
            self.current_screen().contains(k)
        } else if self.is_floating(k) {
            match value_of(self.floating, k).parent_window {
                Some(p) => fuel > 0 && self.visible_within(p, (fuel - 1) as nat),
                None => true,
            }
        } else {
            false
        }
    }

    /// Whether `k` is shown; a chain of transient parents is followed through at most as
    /// many steps as there are floating clients, which suffices for every chain without a
    /// cycle.
    pub open spec fn visible(self, k: u64) -> bool {
        self.visible_within(k, self.floating.len())
    }

    /// The configuration values stay within the limits of the tiling arithmetic.
    pub open spec fn config_wf(self) -> bool {
        config_wf(self.gap, self.border, self.screen_size, self.master_ratio)
    }

    /// The invariant of a `ClientState`.
    pub open spec fn wf(self) -> bool {
        &&& tables_wf(self.tiled, self.floating)
        &&& screens_wf(self.screens, self.current)
        &&& partition_wf(self.tiled, self.screens)
        &&& focus_wf(self.focused, self.tiled, self.floating)
        &&& config_wf(self.gap, self.border, self.screen_size, self.master_ratio)
    }
}

/// Screen `i` holds `k`.
pub open spec fn stacked_in(screens: Seq<ScreenModel>, i: int, k: u64) -> bool {
    screens[i].contains(k)
}

/// Some screen holds `k`.
pub open spec fn is_stacked(screens: Seq<ScreenModel>, k: u64) -> bool {
    exists|i: int| 0 <= i < screens.len() && #[trigger] stacked_in(screens, i, k)
}

/// The configuration values stay within the limits of the tiling arithmetic.
pub open spec fn config_wf(gap: int, border: int, screen_size: Size, master_ratio: int) -> bool {
    &&& -COORD_LIMIT <= gap <= COORD_LIMIT
    &&& -COORD_LIMIT <= border <= COORD_LIMIT
    &&& -COORD_LIMIT <= screen_size.width <= COORD_LIMIT
    &&& -COORD_LIMIT <= screen_size.height <= COORD_LIMIT
    &&& 200 <= master_ratio <= 1800
}

/// Each table has unique keys and each entry is keyed by its own window; no window is both
/// tiled and floating.
pub open spec fn tables_wf(tiled: Seq<(u64, Client)>, floating: Seq<(u64, Client)>) -> bool {
    &&& keys_unique(tiled)
    &&& keys_unique(floating)
    &&& tiled.len() + floating.len() <= MAX_CLIENTS
    &&& forall|k: u64| !(#[trigger] has_key(tiled, k) && has_key(floating, k))
    &&& forall|i: int| 0 <= i < tiled.len() ==> #[trigger] tiled[i].1.window == tiled[i].0
    &&& forall|i: int| 0 <= i < floating.len() ==> #[trigger] floating[i].1.window == floating[i].0
}

/// There is at least one screen, the current one exists, and each screen's stacks are
/// sound.
pub open spec fn screens_wf(screens: Seq<ScreenModel>, current: int) -> bool {
    &&& 1 <= screens.len() <= MAX_SCREENS
    &&& 0 <= current < screens.len()
    &&& forall|i: int| 0 <= i < screens.len() ==> screen_wf(#[trigger] screens[i])
}

/// Every tiled window is on exactly one screen, and the screens hold nothing else.
pub open spec fn partition_wf(tiled: Seq<(u64, Client)>, screens: Seq<ScreenModel>) -> bool {
    &&& screens_disjoint(screens)
    &&& forall|k: u64| #[trigger] is_stacked(screens, k) == has_key(tiled, k)
}

/// No window is on two screens.
pub open spec fn screens_disjoint(screens: Seq<ScreenModel>) -> bool {
    forall|i: int, j: int, k: u64|
        0 <= i < screens.len() && 0 <= j < screens.len() && i != j && #[trigger] stacked_in(screens, i, k)
            ==> !#[trigger] stacked_in(screens, j, k)
}

/// The focus, if any, is on a managed client.
pub open spec fn focus_wf(focused: Option<u64>, tiled: Seq<(u64, Client)>, floating: Seq<(u64, Client)>) -> bool {
    focused matches Some(f) ==> (has_key(tiled, f) || has_key(floating, f))
}

// ---------------------------------------------------------------------------
// Virtual screens.
// ---------------------------------------------------------------------------

#[derive(Debug, Clone)]
pub struct VirtualScreen {
    master: Vec<u64>,
    aux: Vec<u64>,
}

impl View for VirtualScreen {
    type V = ScreenModel;

    closed spec fn view(&self) -> ScreenModel {
        ScreenModel { master: self.master@, aux: self.aux@ }
    }
}

/// The first position of `k` in `v`, if any.
fn position_of(v: &Vec<u64>, k: u64) -> (r: Option<usize>)
    ensures
        match r {
            Some(i) => is_first(v@, k, i as int),
            None => !v@.contains(k),
        },
{
    let mut i: usize = 0;
    while i < v.len()
        invariant
            i <= v@.len(),
            forall|j: int| 0 <= j < i ==> v@[j] != k,
        decreases v@.len() - i,
    {
        if v[i] == k {
            return Some(i);
        }
        i = i + 1;
    }
    None
}

/// `v` without the occurrences of `k`, order kept.
fn retain_other(v: &Vec<u64>, k: u64) -> (r: Vec<u64>)
    ensures
        r@ == without(v@, k),
{
    let mut r: Vec<u64> = Vec::new();
    let mut i: usize = 0;
    while i < v.len()
        invariant
            i <= v@.len(),
            r@ == without(v@.subrange(0, i as int), k),
        decreases v@.len() - i,
    {
        proof {
            let s = v@.subrange(0, i as int + 1);
            assert(s.drop_last() =~= v@.subrange(0, i as int));
            assert(s.last() == v@[i as int]);
            reveal(Seq::filter);
        }
        if v[i] != k {
            r.push(v[i]);
        }
        i = i + 1;
    }
    proof {
        assert(v@.subrange(0, i as int) =~= v@);
    }
    r
}

impl Default for VirtualScreen {
    fn default() -> (r: Self)
        ensures
            r@.master.len() == 0,
            r@.aux.len() == 0,
    {
        VirtualScreen { master: Vec::new(), aux: Vec::new() }
    }
}

impl VirtualScreen {
    pub fn contains<K: ClientKey>(&self, key: &K) -> (r: bool)
        ensures
            r == self@.contains(key.client_key()),
    {
        let k = key.key();
        position_of(&self.master, k).is_some() || position_of(&self.aux, k).is_some()
    }

    pub fn is_in_master<K: ClientKey>(&self, key: &K) -> (r: bool)
        ensures
            r == self@.master.contains(key.client_key()),
    {
        position_of(&self.master, key.key()).is_some()
    }

    pub fn is_in_aux<K: ClientKey>(&self, key: &K) -> (r: bool)
        ensures
            r == self@.aux.contains(key.client_key()),
    {
        position_of(&self.aux, key.key()).is_some()
    }

    /// Appends `key` to the aux stack.
    pub fn insert<K: ClientKey>(&mut self, key: &K)
        ensures
            final(self)@ == old(self)@.inserted(key.client_key()),
    {
        self.aux.push(key.key());
        self.refresh();
    }

    /// Removes every occurrence of `key` from both stacks.
    pub fn remove<K: ClientKey>(&mut self, key: &K)
        ensures
            final(self)@ == old(self)@.removed(key.client_key()),
    {
        let k = key.key();
        self.master = retain_other(&self.master, k);
        self.aux = retain_other(&self.aux, k);
        self.refresh();
    }

    /// Moves `key` to the end of the other stack.
    pub fn switch_stack_for_client<K: ClientKey>(&mut self, key: &K)
        requires
            old(self)@.contains(key.client_key()),
        ensures
            final(self)@ == old(self)@.switched(key.client_key()),
    {
        let k = key.key();
        match position_of(&self.master, k) {
            Some(index) => {
                proof { lemma_first_index(self.master@, k, index as int); }
                let x = self.master.remove(index);
                self.aux.push(x);
            },
            None => {
                let index = match position_of(&self.aux, k) {
                    Some(i) => i,
                    None => { proof { assert(false); } unreached() },
                };
                proof { lemma_first_index(self.aux@, k, index as int); }
                let x = self.aux.remove(index);
                self.master.push(x);
            },
        }
        self.refresh();
    }

    /// If the master stack is empty but the aux stack is not, the first aux window moves
    /// to the master stack.
    pub fn refresh(&mut self)
        ensures
            final(self)@ == refreshed(old(self)@),
    {
        if self.master.len() == 0 && self.aux.len() > 0 {
            let x = self.aux.remove(0);
            self.master.push(x);
            proof {
                assert(self.master@ =~= seq![x]);
            }
        }
    }
}

/// Largest number of managed clients.
pub const MAX_CLIENTS: usize = 2147483647;

/// Largest number of virtual screens.
pub const MAX_SCREENS: usize = 1073741824;

#[derive(Debug)]
pub struct VirtualScreenStore {
    screens: Vec<VirtualScreen>,
    current_idx: usize,
    last_idx: Option<usize>,
}

/// The store's screens, as stack pairs.
pub open spec fn screens_view(s: Seq<VirtualScreen>) -> Seq<ScreenModel> {
    s.map_values(|v: VirtualScreen| v@)
}

impl VirtualScreenStore {
    pub closed spec fn screens_model(&self) -> Seq<ScreenModel> {
        screens_view(self.screens@)
    }

    pub closed spec fn current(&self) -> int {
        self.current_idx as int
    }

    pub closed spec fn last(&self) -> Option<usize> {
        self.last_idx
    }

    /// `n` empty screens, the first one current.
    pub fn new(n: usize) -> (r: Self)
        ensures
            r.screens_model().len() == n,
            forall|i: int| 0 <= i < n ==> (#[trigger] r.screens_model()[i]).master.len() == 0
                && r.screens_model()[i].aux.len() == 0,
            r.current() == 0,
            r.last() is None,
    {
        let mut screens: Vec<VirtualScreen> = Vec::with_capacity(n);
        let mut i: usize = 0;
        while i < n
            invariant
                i <= n,
                screens@.len() == i,
                forall|j: int| 0 <= j < i ==> (#[trigger] screens@[j])@.master.len() == 0
                    && screens@[j]@.aux.len() == 0,
            decreases n - i,
        {
            screens.push(VirtualScreen::default());
            i = i + 1;
        }
        VirtualScreenStore { screens, current_idx: 0, last_idx: None }
    }

    pub fn get_current(&self) -> (r: &VirtualScreen)
        requires
            self.current() < self.screens_model().len(),
        ensures
            r@ == self.screens_model()[self.current()],
    {
        &self.screens[self.current_idx]
    }

    pub fn len(&self) -> (r: usize)
        ensures
            r == self.screens_model().len(),
    {
        self.screens.len()
    }

    /// The screens, in order.
    pub fn iter(&self) -> (r: &[VirtualScreen])
        ensures
            screens_view(r@) == self.screens_model(),
    {
        self.screens.as_slice()
    }

    /// Returns to the previously current screen, if there was one, and returns the index
    /// of the current screen.
    pub fn go_back(&mut self) -> (r: usize)
        requires
            old(self).screens_model().len() >= 1,
        ensures
            final(self).screens_model() == old(self).screens_model(),
            match old(self).last() {
                Some(n) => {
                    &&& final(self).current() == if n < old(self).screens_model().len() { n as int } else { old(self).screens_model().len() - 1 }
                    &&& final(self).last() == Some(old(self).current() as usize)
                },
                None => final(self).current() == old(self).current() && final(self).last() is None,
            },
            r == final(self).current(),
    {
        match self.last_idx {
            Some(n) => self.go_to_nth(n),
            None => self.current_idx,
        }
    }

    /// Moves the current screen `n` places to the left, wrapping around.
    pub fn rotate_left(&mut self, n: usize) -> (r: usize)
        requires
            old(self).screens_model().len() >= 1,
            old(self).current() < old(self).screens_model().len(),
        ensures
            final(self).screens_model() == old(self).screens_model(),
            final(self).current() == (old(self).current() + old(self).screens_model().len()
                - (n as int) % (old(self).screens_model().len() as int)) % (old(self).screens_model().len() as int),
            final(self).last() == Some(old(self).current() as usize),
            r == final(self).current(),
    {
        self.last_idx = Some(self.current_idx);
        let l = self.screens.len();
        assert(l == self.screens_model().len());
        let a = n % l;
        let b = self.current_idx % l;
        assert(b == self.current_idx) by {
            vstd::arithmetic::div_mod::lemma_small_mod(self.current_idx as nat, l as nat);
        }
        self.current_idx = if b >= a { b - a } else { b + (l - a) };
        proof {
            layout::lemma_mod_small_sum((b + l - a) as int, l as int);
        }
        self.current_idx
    }

    /// Moves the current screen `n` places to the right, wrapping around.
    pub fn rotate_right(&mut self, n: usize) -> (r: usize)
        requires
            old(self).screens_model().len() >= 1,
            old(self).current() < old(self).screens_model().len(),
        ensures
            final(self).screens_model() == old(self).screens_model(),
            final(self).current() == (old(self).current() + (n as int) % (old(self).screens_model().len() as int))
                % (old(self).screens_model().len() as int),
            final(self).last() == Some(old(self).current() as usize),
            r == final(self).current(),
    {
        self.last_idx = Some(self.current_idx);
        let l = self.screens.len();
        assert(l == self.screens_model().len());
        let a = n % l;
        let b = self.current_idx % l;
        assert(b == self.current_idx) by {
            vstd::arithmetic::div_mod::lemma_small_mod(self.current_idx as nat, l as nat);
        }
        self.current_idx = if a < l - b { b + a } else { b - (l - a) };
        proof {
            vstd::arithmetic::div_mod::lemma_mod_bound(n as int, l as int);
            layout::lemma_mod_small_sum((b + a) as int, l as int);
        }
        self.current_idx
    }

    /// Makes screen `n` current (the last screen if `n` is out of range).
    pub fn go_to_nth(&mut self, n: usize) -> (r: usize)
        requires
            old(self).screens_model().len() >= 1,
        ensures
            final(self).screens_model() == old(self).screens_model(),
            final(self).current() == if n < old(self).screens_model().len() { n as int } else { old(self).screens_model().len() - 1 },
            final(self).last() == Some(old(self).current() as usize),
            r == final(self).current(),
    {
        self.last_idx = Some(self.current_idx);
        let l = self.screens.len() - 1;
        self.current_idx = if n <= l { n } else { l };
        self.current_idx
    }
}


// ---------------------------------------------------------------------------
// The client state.
// ---------------------------------------------------------------------------

/// The window manager's clients: tiled and floating tables, focus, virtual screens and
/// the tiling configuration.
#[derive(Debug)]
pub struct ClientState {
    clients: indexmap::IndexMap<u64, Client, BuildIdentityHasher>,
    floating_clients: indexmap::IndexMap<u64, Client, BuildIdentityHasher>,
    focused: Option<u64>,
    virtual_screens: VirtualScreenStore,
    gap: i32,
    screen_size: Size,
    /// Width share of the master stack, in thousandths.
    master_size: u32,
    border_size: i32,
}

impl View for ClientState {
    type V = ClientsModel;

    closed spec fn view(&self) -> ClientsModel {
        ClientsModel {
            tiled: client_entries(self.clients),
            floating: client_entries(self.floating_clients),
            focused: self.focused,
            screens: self.virtual_screens.screens_model(),
            current: self.virtual_screens.current(),
            last: match self.virtual_screens.last() {
                Some(l) => Some(l as int),
                None => None,
            },
            gap: self.gap as int,
            screen_size: self.screen_size,
            master_ratio: self.master_size as int,
            border: self.border_size as int,
        }
    }
}

/// Two entry sequences with the same keys in the same order.
pub open spec fn same_keys(s1: Seq<(u64, Client)>, s2: Seq<(u64, Client)>) -> bool {
    &&& s1.len() == s2.len()
    &&& forall|j: int| 0 <= j < s1.len() ==> #[trigger] s1[j].0 == s2[j].0
}

pub proof fn lemma_same_keys(s1: Seq<(u64, Client)>, s2: Seq<(u64, Client)>)
    requires
        same_keys(s1, s2),
    ensures
        forall|k: u64| #[trigger] has_key(s1, k) == has_key(s2, k),
        keys_unique(s1) == keys_unique(s2),
{
    assert forall|k: u64| #[trigger] has_key(s1, k) == has_key(s2, k) by {
        if has_key(s1, k) {
            let j = key_index(s1, k);
            assert(s2[j].0 == k);
        }
        if has_key(s2, k) {
            let j = key_index(s2, k);
            assert(s1[j].0 == k);
        }
    }
    if keys_unique(s1) {
        assert forall|i: int, j: int|
            0 <= i < s2.len() && 0 <= j < s2.len() && #[trigger] s2[i].0 == #[trigger] s2[j].0 implies i == j by {
            assert(s1[i].0 == s1[j].0);
        }
    }
    if keys_unique(s2) {
        assert forall|i: int, j: int|
            0 <= i < s1.len() && 0 <= j < s1.len() && #[trigger] s1[i].0 == #[trigger] s1[j].0 implies i == j by {
            assert(s2[i].0 == s2[j].0);
        }
    }
}

/// The tiled entries after the first `im` master windows and the first `ia` aux windows of
/// the current screen were placed.
pub open spec fn partially_arranged(m: ClientsModel, im: int, ia: int) -> Seq<(u64, Client)> {
    Seq::new(
        m.tiled.len(),
        |j: int|
            (
                m.tiled[j].0,
                if m.current_screen().master.subrange(0, im).contains(m.tiled[j].0)
                    || m.current_screen().aux.subrange(0, ia).contains(m.tiled[j].0) {
                    m.relayout(m.tiled[j].0, m.tiled[j].1)
                } else {
                    m.tiled[j].1
                },
            ),
    )
}

impl ClientState {
    pub open spec fn wf(&self) -> bool {
        self@.wf()
    }

    /// The screens are sound and share no window.
    pub open spec fn screens_ok(&self) -> bool {
        screens_wf(self@.screens, self@.current) && screens_disjoint(self@.screens)
    }

    proof fn lemma_view_screens(&self)
        ensures
            self@.screens.len() == self.virtual_screens.screens@.len(),
            forall|i: int|
                0 <= i < self@.screens.len() ==> #[trigger] self@.screens[i] == self.virtual_screens.screens@[i]@,
    {
    }

    /// A state with one virtual screen, no clients, no gap or border, a 1x1 screen and
    /// equal stack widths.
    pub fn new() -> (r: Self)
        ensures
            r.wf(),
            r@.tiled.len() == 0,
            r@.floating.len() == 0,
            r@.focused is None,
            r@.screens.len() == 1,
            r@.current == 0,
            r@.last is None,
            r@.gap == 0,
            r@.border == 0,
            r@.screen_size == (Size { width: 1, height: 1 }),
            r@.master_ratio == 1000,
    {
        let r = ClientState {
            clients: client_map_new(),
            floating_clients: client_map_new(),
            focused: None,
            virtual_screens: VirtualScreenStore::new(1),
            gap: 0,
            screen_size: Size::new(1, 1),
            master_size: 1000,
            border_size: 0,
        };
        proof {
            r.lemma_view_screens();
            assert forall|i: int| 0 <= i < r@.screens.len() implies screen_wf(#[trigger] r@.screens[i]) by {
                assert(r@.screens[i].master =~= Seq::<u64>::empty());
                assert(r@.screens[i].aux =~= Seq::<u64>::empty());
            }
            assert forall|k: u64| #[trigger] r@.is_stacked(k) == r@.is_tiled(k) by {
                if r@.is_stacked(k) {
                    let i = choose|i: int| 0 <= i < r@.screens.len() && #[trigger] stacked_in(r@.screens, i, k);
                    assert(r@.screens[i].master =~= Seq::<u64>::empty());
                    assert(r@.screens[i].aux =~= Seq::<u64>::empty());
                }
            }
        }
        r
    }

    pub fn with_gap(self, gap: i32) -> (r: Self)
        requires
            self.wf(),
            -COORD_LIMIT <= gap <= COORD_LIMIT,
        ensures
            r.wf(),
            r@ == (ClientsModel { gap: gap as int, ..self@ }),
    {
        Self { gap, ..self }
    }

    pub fn with_border(self, border: i32) -> (r: Self)
        requires
            self.wf(),
            -COORD_LIMIT <= border <= COORD_LIMIT,
        ensures
            r.wf(),
            r@ == (ClientsModel { border: border as int, ..self@ }),
    {
        Self { border_size: border, ..self }
    }

    pub fn with_screen_size(self, screen_size: Size) -> (r: Self)
        requires
            self.wf(),
            -COORD_LIMIT <= screen_size.width <= COORD_LIMIT,
            -COORD_LIMIT <= screen_size.height <= COORD_LIMIT,
        ensures
            r.wf(),
            r@ == (ClientsModel { screen_size, ..self@ }),
    {
        Self { screen_size, ..self }
    }

    /// Replaces the virtual screens by `num` empty ones, the first one current.
    pub fn with_virtualscreens(self, num: usize) -> (r: Self)
        requires
            self.wf(),
            self@.tiled.len() == 0,
            1 <= num <= MAX_SCREENS,
        ensures
            r.wf(),
            r@.screens.len() == num,
            forall|i: int| 0 <= i < num ==> (#[trigger] r@.screens[i]).master.len() == 0 && r@.screens[i].aux.len() == 0,
            r@.current == 0,
            r@.last is None,
            r@ == (ClientsModel { screens: r@.screens, current: 0, last: None, ..self@ }),
    {
        let r = Self { virtual_screens: VirtualScreenStore::new(num), ..self };
        proof {
            assert forall|i: int| 0 <= i < r@.screens.len() implies screen_wf(#[trigger] r@.screens[i]) by {
                assert(r@.screens[i].master =~= Seq::<u64>::empty());
                assert(r@.screens[i].aux =~= Seq::<u64>::empty());
            }
            assert forall|k: u64| #[trigger] r@.is_stacked(k) == r@.is_tiled(k) by {
                if r@.is_stacked(k) {
                    let i = choose|i: int| 0 <= i < r@.screens.len() && #[trigger] stacked_in(r@.screens, i, k);
                    assert(r@.screens[i].master =~= Seq::<u64>::empty());
                    assert(r@.screens[i].aux =~= Seq::<u64>::empty());
                }
                if r@.is_tiled(k) {
                    let j = key_index(r@.tiled, k);
                }
            }
        }
        r
    }

    pub fn get_border(&self) -> (r: i32)
        ensures
            r == self@.border,
    {
        self.border_size
    }

    pub fn set_border_mut(&mut self, new: i32)
        requires
            old(self).wf(),
            -COORD_LIMIT <= new <= COORD_LIMIT,
        ensures
            final(self).wf(),
            final(self)@ == (ClientsModel { border: new as int, ..old(self)@ }),
    {
        self.border_size = new;
    }

    /// `key` names a tiled or a floating client.
    pub fn contains<K: ClientKey>(&self, key: &K) -> (r: bool)
        ensures
            r == self@.contains(key.client_key()),
    {
        let key = key.key();
        client_map_contains_key(&self.clients, &key) || client_map_contains_key(&self.floating_clients, &key)
    }

    /// The client of `key`: tiled, floating, or vacant.
    pub fn get<K: ClientKey>(&self, key: &K) -> (r: ClientEntry<&Client>)
        requires
            self.wf(),
        ensures
            r.value() == self@.entry(key.client_key()),
    {
        let k = key.key();
        match client_map_get(&self.clients, &k) {
            Some(client) => ClientEntry::Tiled(client),
            None => match client_map_get(&self.floating_clients, &k) {
                Some(client) => ClientEntry::Floating(client),
                None => ClientEntry::Vacant,
            },
        }
    }

    /// The focused client, if any.
    pub fn get_focused(&self) -> (r: ClientEntry<&Client>)
        requires
            self.wf(),
        ensures
            r.value() == match self@.focused {
                Some(f) => self@.entry(f),
                None => ClientEntry::Vacant,
            },
    {
        match self.focused {
            Some(focused) => self.get(&focused),
            None => ClientEntry::Vacant,
        }
    }

    /// Sets the focus to nothing and returns the previously focused client, if any.
    pub fn unfocus(&mut self) -> (r: ClientEntry<&Client>)
        requires
            old(self).wf(),
        ensures
            final(self).wf(),
            final(self)@ == (ClientsModel { focused: None, ..old(self)@ }),
            r.value() == match old(self)@.focused {
                Some(f) => old(self)@.entry(f),
                None => ClientEntry::Vacant,
            },
    {
        match self.focused {
            Some(focused) => {
                self.focused = None;
                self.get(&focused)
            },
            None => ClientEntry::Vacant,
        }
    }

    pub fn is_focused<K: ClientKey>(&self, key: &K) -> (r: bool)
        ensures
            r == (self@.focused == Some(key.client_key())),
    {
        match self.focused {
            Some(focused) => focused == key.key(),
            None => false,
        }
    }

    /// Focuses the client of `key` if there is one. Returns the newly focused client and the
    /// previously focused one; both are vacant if nothing changed.
    pub fn focus_client<K: ClientKey>(&mut self, key: &K) -> (r: (ClientEntry<&Client>, ClientEntry<&Client>))
        requires
            old(self).wf(),
        ensures
            final(self).wf(),
            ({
                let k = key.client_key();
                let m = old(self)@;
                if m.contains(k) && m.focused != Some(k) {
                    &&& final(self)@ == (ClientsModel { focused: Some(k), ..m })
                    &&& r.0.value() == m.entry(k)
                    &&& r.1.value() == match m.focused {
                        Some(f) => m.entry(f),
                        None => ClientEntry::Vacant,
                    }
                } else {
                    &&& final(self)@ == m
                    &&& r.0 is Vacant
                    &&& r.1 is Vacant
                }
            }),
    {
        if self.contains(key) {
            match self.focused {
                Some(focused) => {
                    if focused == key.key() {
                        (ClientEntry::Vacant, ClientEntry::Vacant)
                    } else {
                        self.focused = Some(key.key());
                        (self.get(key), self.get(&focused))
                    }
                },
                None => {
                    self.focused = Some(key.key());
                    (self.get(key), ClientEntry::Vacant)
                },
            }
        } else {
            (ClientEntry::Vacant, ClientEntry::Vacant)
        }
    }

    /// Places the tiled client of `key`, if there is one, in cell `nth` of a stack
    /// `stack_w` by `stack_h` at `stack_x`.
    fn place(&mut self, key: u64, stack_w: i64, stack_h: i64, stack_x: i64, nth: i64)
        requires
            old(self)@.config_wf(),
            keys_unique(client_entries(old(self).clients)),
            magnitude(stack_w as int) <= 6 * COORD_LIMIT,
            magnitude(stack_h as int) <= 3 * COORD_LIMIT,
            magnitude(stack_x as int) <= 3 * COORD_LIMIT,
            magnitude(stack_h * nth) <= 3 * COORD_LIMIT,
        ensures
            ({
                let m = old(self)@;
                let t = client_entries(old(self).clients);
                client_entries(final(self).clients) == if has_key(t, key) {
                    let c = value_of(t, key);
                    let g = slot_geometry(
                        old(self).screen_size,
                        old(self).gap as int,
                        old(self).border_size as int,
                        stack_w as int,
                        stack_h as int,
                        stack_x as int,
                        c.fullscreen,
                        nth as int,
                    );
                    upsert(t, key, Client { size: g.0, position: g.1, ..c })
                } else {
                    t
                }
            }),
            final(self).floating_clients == old(self).floating_clients,
            final(self).focused == old(self).focused,
            final(self).virtual_screens == old(self).virtual_screens,
            final(self).gap == old(self).gap,
            final(self).screen_size == old(self).screen_size,
            final(self).master_size == old(self).master_size,
            final(self).border_size == old(self).border_size,
    {
        match client_map_get(&self.clients, &key) {
            Some(client) => {
                let c = *client;
                let gap = self.gap as i64;
                let border = self.border_size as i64;
                let (size, position) = if c.fullscreen {
                    (self.screen_size, Point::new(0, 0))
                } else {
                    (
                        Size::new((stack_w - gap * 2 - border * 2) as i32, (stack_h - gap * 2 - border * 2) as i32),
                        Point::new((stack_x + gap * 2) as i32, (stack_h * nth + gap * 2) as i32),
                    )
                };
                let _ = client_map_insert(&mut self.clients, key, Client { size, position, ..c });
            },
            None => {},
        }
    }
    /// Gives every tiled client of the current virtual screen its place in the layout:
    /// the master stack on the left (all of the width if the aux stack is empty, else
    /// `master_ratio` thousandths of half of it), the aux stack on the right, each stack
    /// divided into equal cells from top to bottom, with gaps and borders taken off;
    /// fullscreen clients take the whole screen.
    pub fn arrange_virtual_screen(&mut self)
        requires
            old(self).wf(),
        ensures
            final(self).wf(),
            final(self)@ == old(self)@.arranged(),
    {
        let ghost m = self@;
        let ghost s0 = *self;
        let cur = self.virtual_screens.current_idx;
        proof {
            self.lemma_view_screens();
        }
        let gap = self.gap as i64;
        let width = self.screen_size.width as i64;
        let height = self.screen_size.height as i64;
        let master_len = self.virtual_screens.screens[cur].master.len();
        let aux_len = self.virtual_screens.screens[cur].aux.len();
        proof {
            lemma_stacks_len(m, cur as int);
        }
        let vs_width = width - gap * 2;
        let area_h = height - gap * 2;
        proof {
            lemma_share_bound(vs_width as int, self.master_size as int);
            if master_len > 0 {
                lemma_tdiv_bound(area_h as int, master_len as int);
            }
            if aux_len > 0 {
                lemma_tdiv_bound(area_h as int, aux_len as int);
            }
        }
        let mw: i64 = if aux_len == 0 { vs_width } else { vs_width * (self.master_size as i64) / 2000 };
        let mh: i64 = if master_len == 0 { 1 } else { area_h / (master_len as i64) };
        let aw: i64 = vs_width - mw;
        let ah: i64 = if aux_len == 0 { 1 } else { area_h / (aux_len as i64) };
        assert(mw == m.master_width());
        assert(mh == m.cell_height(master_len as int));
        assert(ah == m.cell_height(aux_len as int));
        let mut i: usize = 0;
        proof {
            assert(partially_arranged(m, 0, 0) =~= m.tiled);
        }
        while i < master_len
            invariant
                m.wf(),
                0 <= cur < m.screens.len(),
                cur == m.current,
                i <= master_len,
                master_len == m.current_screen().master.len(),
                aux_len == m.current_screen().aux.len(),
                master_len <= MAX_CLIENTS,
                aux_len <= MAX_CLIENTS,
                mw == m.master_width(),
                mh == m.cell_height(master_len as int),
                magnitude(mw as int) <= 3 * COORD_LIMIT,
                magnitude(mh as int) <= 3 * COORD_LIMIT,
                magnitude(area_h as int) <= 3 * COORD_LIMIT,
                area_h == m.area_height(),
                self.virtual_screens == s0.virtual_screens,
                self.floating_clients == s0.floating_clients,
                self.focused == s0.focused,
                self.gap == s0.gap,
                self.screen_size == s0.screen_size,
                self.master_size == s0.master_size,
                self.border_size == s0.border_size,
                m == s0@,
                client_entries(self.clients) == partially_arranged(m, i as int, 0),
            decreases master_len - i,
        {
            let key = self.virtual_screens.screens[cur].master[i];
            proof {
                s0.lemma_view_screens();
                assert(key == m.current_screen().master[i as int]);
                lemma_cell_offset_bound(area_h as int, master_len as int, i as int);
                lemma_arrange_step_master(m, i as int);
            }
            self.place(key, mw, mh, 0, i as i64);
            i = i + 1;
        }
        let mut i: usize = 0;
        while i < aux_len
            invariant
                m.wf(),
                0 <= cur < m.screens.len(),
                cur == m.current,
                i <= aux_len,
                master_len == m.current_screen().master.len(),
                aux_len == m.current_screen().aux.len(),
                master_len <= MAX_CLIENTS,
                aux_len <= MAX_CLIENTS,
                mw == m.master_width(),
                aw == m.area_width() - m.master_width(),
                ah == m.cell_height(aux_len as int),
                magnitude(mw as int) <= 3 * COORD_LIMIT,
                magnitude(aw as int) <= 6 * COORD_LIMIT,
                magnitude(ah as int) <= 3 * COORD_LIMIT,
                magnitude(area_h as int) <= 3 * COORD_LIMIT,
                area_h == m.area_height(),
                self.virtual_screens == s0.virtual_screens,
                self.floating_clients == s0.floating_clients,
                self.focused == s0.focused,
                self.gap == s0.gap,
                self.screen_size == s0.screen_size,
                self.master_size == s0.master_size,
                self.border_size == s0.border_size,
                m == s0@,
                client_entries(self.clients) == partially_arranged(m, master_len as int, i as int),
            decreases aux_len - i,
        {
            let key = self.virtual_screens.screens[cur].aux[i];
            proof {
                s0.lemma_view_screens();
                assert(key == m.current_screen().aux[i as int]);
                lemma_cell_offset_bound(area_h as int, aux_len as int, i as int);
                lemma_arrange_step_aux(m, i as int);
            }
            self.place(key, aw, ah, mw, i as i64);
            i = i + 1;
        }
        proof {
            lemma_arranged(m);
            assert(self@ == m.arranged());
        }
    }

}



impl ClientState {
    /// The first virtual screen that holds `key`, if any.
    fn screen_index_for_client<K: ClientKey>(&self, key: &K) -> (r: Option<usize>)
        requires
            self.screens_ok(),
        ensures
            match r {
                Some(i) => 0 <= i < self@.screens.len() && self@.is_stacked(key.client_key())
                    && i == self@.screen_of(key.client_key()),
                None => !self@.is_stacked(key.client_key()),
            },
    {
        let mut i: usize = 0;
        proof {
            self.lemma_view_screens();
        }
        while i < self.virtual_screens.screens.len()
            invariant
                self.screens_ok(),
                i <= self@.screens.len(),
                self@.screens.len() == self.virtual_screens.screens@.len(),
                forall|j: int| 0 <= j < self@.screens.len() ==> #[trigger] self@.screens[j] == self.virtual_screens.screens@[j]@,
                forall|j: int| 0 <= j < i ==> !#[trigger] stacked_in(self@.screens, j, key.client_key()),
            decreases self@.screens.len() - i,
        {
            if self.virtual_screens.screens[i].contains(key) {
                proof {
                    lemma_screen_of(self@, i as int, key.client_key());
                }
                return Some(i);
            }
            i = i + 1;
        }
        None
    }

    /// The first virtual screen that holds `key`, if any.
    pub fn get_virtualscreen_for_client<K: ClientKey>(&self, key: &K) -> (r: Option<&VirtualScreen>)
        requires
            self.wf(),
        ensures
            match r {
                Some(vs) => self@.is_stacked(key.client_key()) && vs@ == self@.screens[self@.screen_of(key.client_key())],
                None => !self@.is_stacked(key.client_key()),
            },
    {
        match self.screen_index_for_client(key) {
            Some(i) => {
                proof { self.lemma_view_screens(); }
                Some(&self.virtual_screens.screens[i])
            },
            None => None,
        }
    }

    /// The stack that holds `key`: its screen's aux stack or master stack.
    pub fn get_stack_for_client<K: ClientKey>(&self, key: &K) -> (r: Option<&Vec<u64>>)
        requires
            self.wf(),
        ensures
            ({
                let k = key.client_key();
                let m = self@;
                match r {
                    Some(v) => m.is_stacked(k) && v@ == if m.screens[m.screen_of(k)].aux.contains(k) {
                        m.screens[m.screen_of(k)].aux
                    } else {
                        m.screens[m.screen_of(k)].master
                    },
                    None => !m.is_stacked(k),
                }
            }),
    {
        match self.screen_index_for_client(key) {
            Some(i) => {
                proof { self.lemma_view_screens(); }
                let vs = &self.virtual_screens.screens[i];
                if vs.is_in_aux(key) {
                    Some(&vs.aux)
                } else if vs.is_in_master(key) {
                    Some(&vs.master)
                } else {
                    None
                }
            },
            None => None,
        }
    }

    /// Takes `key` off the virtual screen that holds it. The layout is left to the caller.
    fn remove_from_virtual_screens<K: ClientKey>(&mut self, key: &K)
        requires
            old(self).screens_ok(),
        ensures
            ({
                let k = key.client_key();
                let m = old(self)@;
                final(self)@ == if m.contains(k) && m.is_stacked(k) {
                    ClientsModel {
                        screens: m.screens.update(m.screen_of(k), m.screens[m.screen_of(k)].removed(k)),
                        ..m
                    }
                } else {
                    m
                }
            }),
    {
        if self.contains(key) {
            match self.screen_index_for_client(key) {
                Some(i) => {
                    self.virtual_screens.screens[i].remove(key);
                    proof {
                        assert(self@.screens =~= old(self)@.screens.update(i as int, old(self)@.screens[i as int].removed(key.client_key())));
                    }
                },
                None => {},
            }
        }
    }
}

impl ClientState {
    /// Adds a new client and re-tiles. A normal window is tiled at the end of the current
    /// screen's aux stack; any other window floats, centred over its parent window if that
    /// is managed and shrunk to fit the screen. Returns the stored client.
    pub fn insert(&mut self, client: Client) -> (r: Option<&Client>)
        requires
            old(self).wf(),
            !old(self)@.contains(client.window),
            old(self)@.tiled.len() + old(self)@.floating.len() < MAX_CLIENTS,
            old(self)@.insert_fits(client),
        ensures
            final(self).wf(),
            final(self)@ == old(self)@.inserted(client),
            final(self)@.contains(client.window),
            match r {
                Some(c) => *c == final(self)@.client_of(client.window),
                None => false,
            },
    {
        let ghost m = self@;
        let ghost c0 = client;
        let mut client = client;
        let key = client.key();
        match client.window_type {
            WindowType::Normal => {
                let _ = client_map_insert(&mut self.clients, key, client);
                let cur = self.virtual_screens.current_idx;
                proof {
                    self.lemma_view_screens();
                    lemma_insert_tiled_wf(m, client);
                }
                self.virtual_screens.screens[cur].insert(&key);
                proof {
                    assert(self@.screens =~= m.screens.update(m.current, m.current_screen().inserted(key)));
                    assert(self@ == (ClientsModel {
                        tiled: m.tiled.push((key, client)),
                        screens: m.screens.update(m.current, m.current_screen().inserted(key)),
                        ..m
                    }));
                }
            },
            _ => {
                match client.parent_window {
                    Some(parent_window) => {
                        match self.get(&parent_window).into_option() {
                            Some(parent) => {
                                client.position = Point::new(
                                    parent.position.x + (parent.size.width - client.size.width) / 2,
                                    parent.position.y + (parent.size.height - client.size.height) / 2,
                                );
                            },
                            None => {},
                        }
                    },
                    None => {},
                }
                let b2 = self.border_size * 2;
                client.size = client.size.clamp(self.screen_size.sub(Size::new(b2, b2)));
                proof {
                    assert(client == m.placed_floating(c0));
                }
                let _ = client_map_insert(&mut self.floating_clients, key, client);
                proof {
                    lemma_insert_floating_wf(m, client);
                }
            },
        }
        let ghost m1 = self@;
        proof {
            if client.window_type == WindowType::Normal {
                assert(m1.tiled[m1.tiled.len() - 1].0 == key);
                assert(has_key(m1.tiled, key));
            } else {
                assert(m1.floating[m1.floating.len() - 1].0 == key);
                assert(has_key(m1.floating, key));
            }
        }
        self.arrange_virtual_screen();
        proof {
            lemma_arranged_wf(m1);
        }
        let r = self.get(&key).into_option();
        r
    }

    /// Whether `client` can be added: its window is not managed yet, there is room for one
    /// more client, and centring it over its parent stays within `i32`.
    pub fn can_insert(&self, client: &Client) -> (r: bool)
        requires
            self.wf(),
        ensures
            r == (!self@.contains(client.window) && self@.tiled.len() + self@.floating.len() < MAX_CLIENTS
                && self@.insert_fits(*client)),
    {
        if self.contains(&client.window) {
            return false;
        }
        let n = client_map_len(&self.clients);
        let f = client_map_len(&self.floating_clients);
        if n >= MAX_CLIENTS || f >= MAX_CLIENTS - n {
            return false;
        }
        match client.window_type {
            WindowType::Normal => true,
            _ => match client.parent_window {
                Some(p) => match self.get(&p).into_option() {
                    Some(pc) => {
                        let dw = pc.size.width as i64 - client.size.width as i64;
                        let dh = pc.size.height as i64 - client.size.height as i64;
                        let x = pc.position.x as i64 + dw / 2;
                        let y = pc.position.y as i64 + dh / 2;
                        let lo = i32::MIN as i64;
                        let hi = i32::MAX as i64;
                        lo <= dw && dw <= hi && lo <= dh && dh <= hi && lo <= x && x <= hi && lo <= y && y <= hi
                    },
                    None => true,
                },
                None => true,
            },
        }
    }

    /// Moves client `key` to `position`; returns whether the client exists.
    pub fn set_position<K: ClientKey>(&mut self, key: &K, position: Point) -> (r: bool)
        requires
            old(self).wf(),
        ensures
            final(self).wf(),
            r == old(self)@.contains(key.client_key()),
            final(self)@ == if r {
                old(self)@.with_client(key.client_key(), Client { position, ..old(self)@.client_of(key.client_key()) })
            } else {
                old(self)@
            },
    {
        let ghost m = self@;
        let k = key.key();
        let found = match self.get(key) {
            ClientEntry::Tiled(c) => Some((true, *c)),
            ClientEntry::Floating(c) => Some((false, *c)),
            ClientEntry::Vacant => None,
        };
        match found {
            Some((tiled, client)) => {
                let client = Client { position, ..client };
                proof {
                    lemma_with_client_wf(m, k, client);
                }
                if tiled {
                    let _ = client_map_insert(&mut self.clients, k, client);
                } else {
                    let _ = client_map_insert(&mut self.floating_clients, k, client);
                }
                true
            },
            None => false,
        }
    }

    /// Resizes client `key` to `size`; returns whether the client exists.
    pub fn set_size<K: ClientKey>(&mut self, key: &K, size: Size) -> (r: bool)
        requires
            old(self).wf(),
        ensures
            final(self).wf(),
            r == old(self)@.contains(key.client_key()),
            final(self)@ == if r {
                old(self)@.with_client(key.client_key(), Client { size, ..old(self)@.client_of(key.client_key()) })
            } else {
                old(self)@
            },
    {
        let ghost m = self@;
        let k = key.key();
        let found = match self.get(key) {
            ClientEntry::Tiled(c) => Some((true, *c)),
            ClientEntry::Floating(c) => Some((false, *c)),
            ClientEntry::Vacant => None,
        };
        match found {
            Some((tiled, client)) => {
                let client = Client { size, ..client };
                proof {
                    lemma_with_client_wf(m, k, client);
                }
                if tiled {
                    let _ = client_map_insert(&mut self.clients, k, client);
                } else {
                    let _ = client_map_insert(&mut self.floating_clients, k, client);
                }
                true
            },
            None => false,
        }
    }

    /// Removes the client of `key` from the tables, the virtual screens and the focus, and
    /// re-tiles.
    pub fn remove<K: ClientKey>(&mut self, key: &K)
        requires
            old(self).wf(),
        ensures
            final(self).wf(),
            final(self)@ == old(self)@.removed(key.client_key()),
            !final(self)@.contains(key.client_key()),
    {
        let ghost m = self@;
        let k = key.key();
        match self.focused {
            Some(focused_client) => {
                if focused_client == k {
                    self.focused = None;
                }
            },
            None => {},
        }
        self.remove_from_virtual_screens(key);
        let _ = client_map_swap_remove(&mut self.clients, &k);
        let _ = client_map_swap_remove(&mut self.floating_clients, &k);
        proof {
            lemma_removed_wf(m, k);
        }
        let ghost m1 = self@;
        self.arrange_virtual_screen();
        proof {
            lemma_arranged_wf(m1);
            lemma_swap_remove(m.tiled, k);
            lemma_swap_remove(m.floating, k);
        }
    }
}

impl ClientState {
    /// Switches a client that is not fullscreen between tiled and floating and re-tiles:
    /// a tiled client leaves its virtual screen and floats; a floating normal window is
    /// tiled at the end of the current screen's aux stack; other floating windows stay
    /// floating (and go to the end of the floating table).
    pub fn toggle_floating<K: ClientKey>(&mut self, key: &K)
        requires
            old(self).wf(),
        ensures
            final(self).wf(),
            final(self)@ == old(self)@.floating_toggled(key.client_key()),
    {
        let ghost m = self@;
        let found = match self.get(key) {
            ClientEntry::Tiled(c) => Some((true, *c)),
            ClientEntry::Floating(c) => Some((false, *c)),
            ClientEntry::Vacant => None,
        };
        match found {
            Some((tiled, c)) => {
                if c.is_fullscreen() {
                } else if tiled {
                    self.float_tiled(key);
                } else if c.window_type == WindowType::Normal {
                    self.tile_floating(key);
                } else {
                    let k = key.key();
                    let floating_client = client_map_swap_remove(&mut self.floating_clients, &k);
                    proof {
                        lemma_swap_remove(m.floating, k);
                        lemma_toggle_floating_stays_wf(m, k);
                    }
                    match floating_client {
                        Some(fc) => {
                            let _ = client_map_insert(&mut self.floating_clients, k, fc);
                        },
                        None => {
                            proof {
                                assert(false);
                            }
                        },
                    }
                    self.arrange_virtual_screen();
                }
            },
            None => {},
        }
    }

    /// Moves tiled client `key` off its virtual screen to the end of the floating table,
    /// and re-tiles.
    fn float_tiled<K: ClientKey>(&mut self, key: &K)
        requires
            old(self).wf(),
            old(self)@.is_tiled(key.client_key()),
        ensures
            final(self).wf(),
            final(self)@ == old(self)@.floated(key.client_key()),
    {
        let ghost m = self@;
        let k = key.key();
        let client = client_map_swap_remove(&mut self.clients, &k);
        let floating_client = client_map_swap_remove(&mut self.floating_clients, &k);
        proof {
            lemma_swap_remove(m.tiled, k);
            lemma_swap_remove(m.floating, k);
        }
        match (client, floating_client) {
            (Some(client), None) => {
                proof {
                    lemma_toggle_to_floating_wf(m, k);
                }
                let _ = client_map_insert(&mut self.floating_clients, k, client);
                proof {
                    let f1 = client_entries(self.floating_clients);
                    assert(f1[f1.len() - 1].0 == k);
                    assert(self@.contains(k));
                    assert(self@.screens == m.screens);
                    assert(self@.is_stacked(k));
                    assert(self@.screen_of(k) == m.screen_of(k));
                }
                self.remove_from_virtual_screens(&k);
                proof {
                    assert(self@ == (ClientsModel {
                        tiled: swap_remove(m.tiled, k),
                        floating: m.floating.push((k, client)),
                        screens: m.screens.update(m.screen_of(k), m.screens[m.screen_of(k)].removed(k)),
                        ..m
                    }));
                }
            },
            _ => {
                proof {
                    assert(false);
                }
            },
        }
        self.arrange_virtual_screen();
    }

    /// Moves floating client `key` to the end of the tiled table and of the current
    /// screen's aux stack, and re-tiles.
    fn tile_floating<K: ClientKey>(&mut self, key: &K)
        requires
            old(self).wf(),
            !old(self)@.is_tiled(key.client_key()),
            old(self)@.is_floating(key.client_key()),
        ensures
            final(self).wf(),
            final(self)@ == old(self)@.made_tiled(key.client_key()),
    {
        let ghost m = self@;
        let k = key.key();
        let client = client_map_swap_remove(&mut self.clients, &k);
        let floating_client = client_map_swap_remove(&mut self.floating_clients, &k);
        proof {
            lemma_swap_remove(m.tiled, k);
            lemma_swap_remove(m.floating, k);
        }
        match (client, floating_client) {
            (None, Some(floating_client)) => {
                proof {
                    lemma_toggle_to_tiled_wf(m, k);
                }
                let _ = client_map_insert(&mut self.clients, k, floating_client);
                let cur = self.virtual_screens.current_idx;
                proof {
                    self.lemma_view_screens();
                }
                self.virtual_screens.screens[cur].insert(&k);
                proof {
                    assert(self@.screens =~= m.screens.update(m.current, m.current_screen().inserted(k)));
                }
            },
            _ => {
                proof {
                    assert(false);
                }
            },
        }
        self.arrange_virtual_screen();
    }

    /// Makes a tiled client floating (see `float_tiled`) and returns `true`; returns
    /// `false` and does nothing for a client that is not tiled.
    pub fn set_floating<K: ClientKey>(&mut self, key: &K) -> (r: bool)
        requires
            old(self).wf(),
        ensures
            final(self).wf(),
            r == old(self)@.is_tiled(key.client_key()),
            final(self)@ == old(self)@.floated(key.client_key()),
            r ==> final(self)@.is_floating(key.client_key()) && !final(self)@.is_tiled(key.client_key()),
    {
        if self.get(key).is_tiled() {
            proof {
                lemma_floated_floats(self@, key.client_key());
            }
            self.float_tiled(key);
            true
        } else {
            false
        }
    }

    /// Makes a floating client tiled (see `tile_floating`) and returns `true`; returns
    /// `false` and does nothing for a client that is not floating.
    pub fn set_tiled<K: ClientKey>(&mut self, key: &K) -> (r: bool)
        requires
            old(self).wf(),
        ensures
            final(self).wf(),
            r == (!old(self)@.is_tiled(key.client_key()) && old(self)@.is_floating(key.client_key())),
            final(self)@ == old(self)@.made_tiled(key.client_key()),
            r ==> final(self)@.is_tiled(key.client_key()) && !final(self)@.is_floating(key.client_key()),
    {
        if self.get(key).is_floating() {
            proof {
                lemma_made_tiled_tiles(self@, key.client_key());
            }
            self.tile_floating(key);
            true
        } else {
            false
        }
    }

    /// Records a new window type for client `key` and moves it between the tables as
    /// `window_type_updated` says.
    pub fn update_window_type<K: ClientKey>(&mut self, key: &K, window_type: WindowType)
        requires
            old(self).wf(),
        ensures
            final(self).wf(),
            final(self)@ == old(self)@.window_type_updated(key.client_key(), window_type),
    {
        let ghost m = self@;
        let k = key.key();
        let entry = self.get(key);
        let found = match entry {
            ClientEntry::Tiled(c) => Some((true, *c)),
            ClientEntry::Floating(c) => Some((false, *c)),
            ClientEntry::Vacant => None,
        };
        match found {
            Some((tiled, client)) => {
                let c2 = Client { window_type, ..client };
                proof {
                    lemma_with_client_wf(m, k, c2);
                }
                if tiled {
                    let _ = client_map_insert(&mut self.clients, k, c2);
                } else {
                    let _ = client_map_insert(&mut self.floating_clients, k, c2);
                }
                proof {
                    assert(self@ == m.with_client(k, c2));
                }
                match window_type {
                    WindowType::Normal => {
                        self.set_floating(key);
                    },
                    _ => {
                        self.set_tiled(key);
                    },
                }
            },
            None => {},
        }
    }

    /// Flips the fullscreen flag of client `key`; a client that becomes fullscreen covers
    /// the screen. Returns `true` (after re-tiling) if there was such a client.
    pub fn toggle_fullscreen<K: ClientKey>(&mut self, key: &K) -> (r: bool)
        requires
            old(self).wf(),
        ensures
            final(self).wf(),
            r == old(self)@.contains(key.client_key()),
            final(self)@ == old(self)@.fullscreen_toggled(key.client_key()),
    {
        match self.inner_toggle_fullscreen(key) {
            Some(_new_fullscreen_state) => {
                self.arrange_virtual_screen();
                true
            },
            None => false,
        }
    }

    /// Flips the fullscreen flag of client `key` without re-tiling; returns the new flag.
    fn inner_toggle_fullscreen<K: ClientKey>(&mut self, key: &K) -> (r: Option<bool>)
        requires
            old(self).wf(),
        ensures
            final(self).wf(),
            ({
                let k = key.client_key();
                let m = old(self)@;
                if m.contains(k) {
                    let c = m.client_of(k);
                    let c2 = if !c.fullscreen {
                        Client { fullscreen: true, size: m.screen_size, position: Point { x: 0, y: 0 }, ..c }
                    } else {
                        Client { fullscreen: false, ..c }
                    };
                    final(self)@ == m.with_client(k, c2) && r == Some(!c.fullscreen)
                } else {
                    final(self)@ == m && r is None
                }
            }),
    {
        let ghost m = self@;
        let k = key.key();
        let fullscreen_size = self.screen_size;
        let found = match self.get(key) {
            ClientEntry::Tiled(c) => Some((true, *c)),
            ClientEntry::Floating(c) => Some((false, *c)),
            ClientEntry::Vacant => None,
        };
        match found {
            Some((tiled, client)) => {
                let mut client = client;
                let now = if client.toggle_fullscreen() {
                    client.size = fullscreen_size;
                    client.position = Point::zero();
                    true
                } else {
                    false
                };
                proof {
                    lemma_with_client_wf(m, k, client);
                }
                if tiled {
                    let _ = client_map_insert(&mut self.clients, k, client);
                } else {
                    let _ = client_map_insert(&mut self.floating_clients, k, client);
                }
                Some(now)
            },
            None => None,
        }
    }

    /// Sets the fullscreen flag of client `key`; returns `true` if it changed (and then
    /// re-tiles).
    pub fn set_fullscreen<K: ClientKey>(&mut self, key: &K, fullscreen: bool) -> (r: bool)
        requires
            old(self).wf(),
        ensures
            final(self).wf(),
            r == (old(self)@.contains(key.client_key()) && old(self)@.client_of(key.client_key()).fullscreen != fullscreen),
            final(self)@ == if r { old(self)@.fullscreen_toggled(key.client_key()) } else { old(self)@ },
    {
        let differs = match self.get(key).into_option() {
            Some(client) => client.is_fullscreen() != fullscreen,
            None => false,
        };
        if differs {
            self.toggle_fullscreen(key)
        } else {
            false
        }
    }

    /// Moves `key` to the other stack of its virtual screen and re-tiles; does nothing for
    /// a window on no screen.
    pub fn switch_stack_for_client<K: ClientKey>(&mut self, key: &K)
        requires
            old(self).wf(),
        ensures
            final(self).wf(),
            final(self)@ == old(self)@.stack_switched(key.client_key()),
    {
        let ghost m = self@;
        match self.screen_index_for_client(key) {
            Some(i) => {
                proof {
                    self.lemma_view_screens();
                    lemma_switch_wf(m, key.client_key());
                }
                self.virtual_screens.screens[i].switch_stack_for_client(key);
                proof {
                    assert(self@.screens =~= m.screens.update(i as int, m.screens[i as int].switched(key.client_key())));
                }
                self.arrange_virtual_screen();
            },
            None => {},
        }
    }

    /// Makes virtual screen `n` (or the last one) current and re-tiles.
    pub fn go_to_nth_virtualscreen(&mut self, n: usize)
        requires
            old(self).wf(),
        ensures
            final(self).wf(),
            final(self)@ == old(self)@.went_to(n as int),
    {
        proof { self.lemma_view_screens(); }
        self.virtual_screens.go_to_nth(n);
        self.arrange_virtual_screen();
    }

    /// Moves to the virtual screen `n` places to the right, wrapping around, and re-tiles.
    pub fn rotate_right(&mut self, n: usize)
        requires
            old(self).wf(),
        ensures
            final(self).wf(),
            final(self)@ == old(self)@.rotated_right(n as int),
    {
        proof { self.lemma_view_screens(); }
        let l = self.virtual_screens.len();
        self.virtual_screens.rotate_right(n % l);
        proof {
            vstd::arithmetic::div_mod::lemma_mod_twice(n as int, l as int);
        }
        self.arrange_virtual_screen();
    }

    /// Moves to the virtual screen `n` places to the left, wrapping around, and re-tiles.
    pub fn rotate_left(&mut self, n: usize)
        requires
            old(self).wf(),
        ensures
            final(self).wf(),
            final(self)@ == old(self)@.rotated_left(n as int),
    {
        proof { self.lemma_view_screens(); }
        let l = self.virtual_screens.len();
        self.virtual_screens.rotate_left(n % l);
        proof {
            vstd::arithmetic::div_mod::lemma_mod_twice(n as int, l as int);
        }
        self.arrange_virtual_screen();
    }

    /// Returns to the previously current virtual screen, if any, and re-tiles.
    pub fn rotate_back(&mut self)
        requires
            old(self).wf(),
        ensures
            final(self).wf(),
            final(self)@ == old(self)@.went_back(),
    {
        proof { self.lemma_view_screens(); }
        self.virtual_screens.go_back();
        self.arrange_virtual_screen();
    }

    /// Changes the master stack's share by `delta` thousandths, keeping it within
    /// 200..=1800, and re-tiles.
    pub fn change_master_size(&mut self, delta: i32)
        requires
            old(self).wf(),
        ensures
            final(self).wf(),
            final(self)@ == old(self)@.master_resized(delta as int),
    {
        let tmp = self.master_size as i64 + delta as i64;
        self.master_size = if tmp < 200 { 200 } else if tmp > 1800 { 1800 } else { tmp as u32 };
        self.arrange_virtual_screen();
    }
}

/// The entries of a client table, in order.
fn entries_vec(m: &indexmap::IndexMap<u64, Client, BuildIdentityHasher>) -> (r: Vec<(u64, Client)>)
    ensures
        r@ == client_entries(*m),
{
    let n = client_map_len(m);
    let mut r: Vec<(u64, Client)> = Vec::new();
    let mut i: usize = 0;
    while i < n
        invariant
            i <= n,
            n == client_entries(*m).len(),
            r@ == client_entries(*m).subrange(0, i as int),
        decreases n - i,
    {
        match client_map_get_index(m, i) {
            Some((k, c)) => {
                r.push((*k, *c));
            },
            None => {
                proof { assert(false); }
            },
        }
        proof {
            assert(r@ =~= client_entries(*m).subrange(0, i as int + 1));
        }
        i = i + 1;
    }
    proof {
        assert(client_entries(*m).subrange(0, n as int) =~= client_entries(*m));
    }
    r
}

/// Extending a filter by one more element.
proof fn lemma_filter_step(s: Seq<(u64, Client)>, i: int, p: spec_fn((u64, Client)) -> bool)
    requires
        0 <= i < s.len(),
    ensures
        s.subrange(0, i + 1).filter(p) == if p(s[i]) {
            s.subrange(0, i).filter(p).push(s[i])
        } else {
            s.subrange(0, i).filter(p)
        },
{
    let t = s.subrange(0, i + 1);
    assert(t.drop_last() =~= s.subrange(0, i));
    reveal(Seq::filter);
}

proof fn lemma_filter_all(s: Seq<(u64, Client)>, p: spec_fn((u64, Client)) -> bool)
    ensures
        s.subrange(0, s.len() as int).filter(p) == s.filter(p),
{
    assert(s.subrange(0, s.len() as int) =~= s);
}

/// A filtered table has transient clients.
pub open spec fn is_transient(e: (u64, Client)) -> bool {
    e.1.parent_window is Some
}

impl ClientState {
    /// Whether client `key` is shown (see `ClientsModel::visible`).
    fn is_client_visible<K: ClientKey>(&self, key: &K) -> (r: bool)
        requires
            self.wf(),
        ensures
            r == self@.visible(key.client_key()),
    {
        let mut cur = key.key();
        let mut fuel = client_map_len(&self.floating_clients);
        loop
            invariant
                self.wf(),
                self@.visible(key.client_key()) == self@.visible_within(cur, fuel as nat),
            decreases fuel,
        {
            match self.get(&cur) {
                ClientEntry::Floating(c) => {
                    match c.parent_window {
                        Some(p) => {
                            if fuel == 0 {
                                return false;
                            }
                            fuel = fuel - 1;
                            cur = p;
                        },
                        None => {
                            return true;
                        },
                    }
                },
                ClientEntry::Tiled(_) => {
                    proof { self.lemma_view_screens(); }
                    return self.virtual_screens.get_current().contains(&cur);
                },
                ClientEntry::Vacant => {
                    return false;
                },
            }
        }
    }

    /// The floating clients, in table order.
    pub fn iter_floating(&self) -> (r: Vec<(u64, Client)>)
        ensures
            r@ == self@.floating,
    {
        entries_vec(&self.floating_clients)
    }

    /// All clients: the floating ones, then the tiled ones.
    pub fn iter_all_clients(&self) -> (r: Vec<(u64, Client)>)
        ensures
            r@ == self@.floating + self@.tiled,
    {
        let mut r = entries_vec(&self.floating_clients);
        let mut t = entries_vec(&self.clients);
        r.append(&mut t);
        r
    }

    /// The floating clients that are shown.
    pub fn iter_floating_visible(&self) -> (r: Vec<(u64, Client)>)
        requires
            self.wf(),
        ensures
            r@ == self@.floating.filter(|e: (u64, Client)| self@.visible(e.0)),
    {
        let all = entries_vec(&self.floating_clients);
        self.filter_visible(&all, true)
    }

    /// All clients (floating first) that are shown.
    pub fn iter_visible(&self) -> (r: Vec<(u64, Client)>)
        requires
            self.wf(),
        ensures
            r@ == (self@.floating + self@.tiled).filter(|e: (u64, Client)| self@.visible(e.0)),
    {
        let all = self.iter_all_clients();
        self.filter_visible(&all, true)
    }

    /// All clients (floating first) that are not shown.
    pub fn iter_hidden(&self) -> (r: Vec<(u64, Client)>)
        requires
            self.wf(),
        ensures
            r@ == (self@.floating + self@.tiled).filter(|e: (u64, Client)| !self@.visible(e.0)),
    {
        let all = self.iter_all_clients();
        self.filter_visible(&all, false)
    }

    /// The entries of `v` whose visibility is `shown`.
    fn filter_visible(&self, v: &Vec<(u64, Client)>, shown: bool) -> (r: Vec<(u64, Client)>)
        requires
            self.wf(),
        ensures
            shown ==> r@ == v@.filter(|e: (u64, Client)| self@.visible(e.0)),
            !shown ==> r@ == v@.filter(|e: (u64, Client)| !self@.visible(e.0)),
    {
        let ghost p = |e: (u64, Client)| self@.visible(e.0) == shown;
        let mut r: Vec<(u64, Client)> = Vec::new();
        let mut i: usize = 0;
        while i < v.len()
            invariant
                self.wf(),
                i <= v@.len(),
                r@ == v@.subrange(0, i as int).filter(p),
                p == (|e: (u64, Client)| self@.visible(e.0) == shown),
            decreases v@.len() - i,
        {
            proof { lemma_filter_step(v@, i as int, p); }
            let vis = self.is_client_visible(&v[i].0);
            if vis == shown {
                r.push(v[i]);
            }
            i = i + 1;
        }
        proof {
            lemma_filter_all(v@, p);
            if shown {
                assert(p =~= (|e: (u64, Client)| self@.visible(e.0)));
            } else {
                assert(p =~= (|e: (u64, Client)| !self@.visible(e.0)));
            }
        }
        r
    }

    /// The floating clients that are transient for another window.
    pub fn iter_transient(&self) -> (r: Vec<(u64, Client)>)
        ensures
            r@ == self@.floating.filter(|e: (u64, Client)| e.1.parent_window is Some),
    {
        let v = entries_vec(&self.floating_clients);
        let ghost p = |e: (u64, Client)| e.1.parent_window is Some;
        let mut r: Vec<(u64, Client)> = Vec::new();
        let mut i: usize = 0;
        while i < v.len()
            invariant
                i <= v@.len(),
                r@ == v@.subrange(0, i as int).filter(p),
                p == (|e: (u64, Client)| e.1.parent_window is Some),
            decreases v@.len() - i,
        {
            proof { lemma_filter_step(v@, i as int, p); }
            if v[i].1.has_parent_window() {
                r.push(v[i]);
            }
            i = i + 1;
        }
        proof { lemma_filter_all(v@, p); }
        r
    }

    /// The floating clients of the given window type.
    pub fn iter_by_window_type(&self, window_type: WindowType) -> (r: Vec<(u64, Client)>)
        ensures
            r@ == self@.floating.filter(|e: (u64, Client)| e.1.window_type == window_type),
    {
        let v = entries_vec(&self.floating_clients);
        let ghost p = |e: (u64, Client)| e.1.window_type == window_type;
        let mut r: Vec<(u64, Client)> = Vec::new();
        let mut i: usize = 0;
        while i < v.len()
            invariant
                i <= v@.len(),
                r@ == v@.subrange(0, i as int).filter(p),
                p == (|e: (u64, Client)| e.1.window_type == window_type),
            decreases v@.len() - i,
        {
            proof { lemma_filter_step(v@, i as int, p); }
            if v[i].1.window_type == window_type {
                r.push(v[i]);
            }
            i = i + 1;
        }
        proof { lemma_filter_all(v@, p); }
        r
    }

    /// The tiled clients on the current virtual screen, in table order.
    pub fn iter_current_screen(&self) -> (r: Vec<(u64, Client)>)
        requires
            self.wf(),
        ensures
            r@ == self@.tiled.filter(|e: (u64, Client)| self@.current_screen().contains(e.0)),
    {
        let v = entries_vec(&self.clients);
        let ghost p = |e: (u64, Client)| self@.current_screen().contains(e.0);
        let mut r: Vec<(u64, Client)> = Vec::new();
        let mut i: usize = 0;
        proof { self.lemma_view_screens(); }
        while i < v.len()
            invariant
                self.wf(),
                i <= v@.len(),
                r@ == v@.subrange(0, i as int).filter(p),
                p == (|e: (u64, Client)| self@.current_screen().contains(e.0)),
                self.virtual_screens.screens@[self@.current]@ == self@.current_screen(),
                self.virtual_screens.current() == self@.current,
                self@.current < self.virtual_screens.screens_model().len(),
            decreases v@.len() - i,
        {
            proof { lemma_filter_step(v@, i as int, p); }
            if self.virtual_screens.get_current().contains(&v[i].0) {
                r.push(v[i]);
            }
            i = i + 1;
        }
        proof { lemma_filter_all(v@, p); }
        r
    }

    /// The clients of the current master stack, in stack order.
    pub fn iter_master_stack(&self) -> (r: Vec<(u64, Client)>)
        requires
            self.wf(),
        ensures
            r@ == self@.current_screen().master.map_values(|k: u64| (k, self@.client_of(k))),
    {
        proof { self.lemma_view_screens(); }
        let stack = &self.virtual_screens.get_current().master;
        self.stack_clients(stack)
    }

    /// The clients of the current aux stack, in stack order.
    pub fn iter_aux_stack(&self) -> (r: Vec<(u64, Client)>)
        requires
            self.wf(),
        ensures
            r@ == self@.current_screen().aux.map_values(|k: u64| (k, self@.client_of(k))),
    {
        proof { self.lemma_view_screens(); }
        let stack = &self.virtual_screens.get_current().aux;
        self.stack_clients(stack)
    }

    /// The clients of a stack of the current screen, in stack order.
    fn stack_clients(&self, stack: &Vec<u64>) -> (r: Vec<(u64, Client)>)
        requires
            self.wf(),
            forall|x: u64| #[trigger] stack@.contains(x) ==> self@.current_screen().contains(x),
        ensures
            r@ == stack@.map_values(|k: u64| (k, self@.client_of(k))),
    {
        let mut r: Vec<(u64, Client)> = Vec::new();
        let mut i: usize = 0;
        while i < stack.len()
            invariant
                self.wf(),
                i <= stack@.len(),
                forall|x: u64| #[trigger] stack@.contains(x) ==> self@.current_screen().contains(x),
                r@ == stack@.subrange(0, i as int).map_values(|k: u64| (k, self@.client_of(k))),
            decreases stack@.len() - i,
        {
            let k = stack[i];
            proof {
                assert(stack@.contains(k));
                assert(stacked_in(self@.screens, self@.current, k));
                assert(is_stacked(self@.screens, k));
            }
            let c = self.get(&k).unwrap();
            r.push((k, *c));
            proof {
                assert(r@ =~= stack@.subrange(0, i as int + 1).map_values(|k: u64| (k, self@.client_of(k))));
            }
            i = i + 1;
        }
        proof {
            assert(stack@.subrange(0, i as int) =~= stack@);
        }
        r
    }
}

/// Replacing a client by one with the same window keeps the state sound.
pub proof fn lemma_with_client_wf(m: ClientsModel, k: u64, c: Client)
    requires
        m.wf(),
        m.contains(k),
        c.window == k,
    ensures
        m.with_client(k, c).wf(),
        forall|x: u64| #[trigger] m.with_client(k, c).is_tiled(x) == m.is_tiled(x),
        forall|x: u64| #[trigger] m.with_client(k, c).is_floating(x) == m.is_floating(x),
        m.with_client(k, c).client_of(k) == c,
{
    assert(windows_match(m.tiled));
    assert(windows_match(m.floating));
    if m.is_tiled(k) {
        lemma_upsert(m.tiled, k, c);
        lemma_windows_upsert(m.tiled, k, c);
        assert(keys_of(upsert(m.tiled, k, c)) == keys_of(m.tiled));
    } else {
        lemma_upsert(m.floating, k, c);
        lemma_windows_upsert(m.floating, k, c);
    }
    let m1 = m.with_client(k, c);
    assert forall|x: u64| #[trigger] m1.is_tiled(x) == m.is_tiled(x) by {
        if x == k && m.is_tiled(k) {
            assert(has_key(m1.tiled, k));
        }
    }
    assert forall|x: u64| #[trigger] m1.is_floating(x) == m.is_floating(x) by {
        if x == k && !m.is_tiled(k) {
            assert(has_key(m1.floating, k));
        }
    }
    assert(forall|x: u64| #[trigger] is_stacked(m1.screens, x) == has_key(m1.tiled, x));
    assert(keys_unique(m1.tiled));
    assert(keys_unique(m1.floating));
    assert(m1.tiled.len() == m.tiled.len());
    assert(m1.floating.len() == m.floating.len());
    assert forall|x: u64| !(#[trigger] has_key(m1.tiled, x) && has_key(m1.floating, x)) by {
        assert(m1.is_tiled(x) == m.is_tiled(x));
        assert(m1.is_floating(x) == m.is_floating(x));
        assert(!(has_key(m.tiled, x) && has_key(m.floating, x)));
    }
    assert(windows_match(m1.tiled));
    assert(windows_match(m1.floating));
    assert(tables_wf(m1.tiled, m1.floating));
    assert(partition_wf(m1.tiled, m1.screens));
    assert(focus_wf(m1.focused, m1.tiled, m1.floating));
}

/// A tiled client is floating, and no longer tiled, once floated.
proof fn lemma_floated_floats(m: ClientsModel, k: u64)
    requires
        m.wf(),
        m.is_tiled(k),
    ensures
        m.floated(k).is_floating(k),
        !m.floated(k).is_tiled(k),
{
    let c = value_of(m.tiled, k);
    lemma_toggle_to_floating_wf(m, k);
    let m1 = ClientsModel {
        tiled: swap_remove(m.tiled, k),
        floating: m.floating.push((k, c)),
        screens: m.screens.update(m.screen_of(k), m.screens[m.screen_of(k)].removed(k)),
        ..m
    };
    lemma_arranged(m1);
    lemma_same_keys(m1.arranged().tiled, m1.tiled);
    lemma_swap_remove(m.tiled, k);
    assert(m1.floating[m1.floating.len() - 1].0 == k);
    assert(m.floated(k) == m1.arranged());
}

/// A floating client is tiled, and no longer floating, once made tiled.
proof fn lemma_made_tiled_tiles(m: ClientsModel, k: u64)
    requires
        m.wf(),
        !m.is_tiled(k),
        m.is_floating(k),
    ensures
        m.made_tiled(k).is_tiled(k),
        !m.made_tiled(k).is_floating(k),
{
    let c = value_of(m.floating, k);
    lemma_toggle_to_tiled_wf(m, k);
    let m1 = ClientsModel {
        tiled: m.tiled.push((k, c)),
        floating: swap_remove(m.floating, k),
        screens: m.screens.update(m.current, m.current_screen().inserted(k)),
        ..m
    };
    lemma_arranged(m1);
    lemma_same_keys(m1.arranged().tiled, m1.tiled);
    lemma_swap_remove(m.floating, k);
    assert(m1.tiled[m1.tiled.len() - 1].0 == k);
    assert(m.made_tiled(k) == m1.arranged());
}

/// The state of `toggle_floating` for a tiled client, before re-tiling, is sound.
proof fn lemma_toggle_to_floating_wf(m: ClientsModel, k: u64)
    requires
        m.wf(),
        m.is_tiled(k),
    ensures
        m.is_stacked(k),
        upsert(swap_remove(m.floating, k), k, value_of(m.tiled, k)) == m.floating.push((k, value_of(m.tiled, k))),
        (ClientsModel {
            tiled: swap_remove(m.tiled, k),
            floating: m.floating.push((k, value_of(m.tiled, k))),
            screens: m.screens.update(m.screen_of(k), m.screens[m.screen_of(k)].removed(k)),
            ..m
        }).wf(),
{
    let c = value_of(m.tiled, k);
    let t = swap_remove(m.tiled, k);
    let f = m.floating.push((k, c));
    assert(!has_key(m.floating, k));
    assert(swap_remove(m.floating, k) == m.floating);
    lemma_swap_remove(m.tiled, k);
    lemma_upsert(m.floating, k, c);
    assert(windows_match(m.tiled));
    assert(windows_match(m.floating));
    lemma_windows_swap_remove(m.tiled, k);
    let j = key_index(m.tiled, k);
    assert(m.tiled[j].1.window == m.tiled[j].0);
    lemma_windows_upsert(m.floating, k, c);
    assert(is_stacked(m.screens, k));
    let i = m.screen_of(k);
    assert(stacked_in(m.screens, i, k));
    assert(screen_wf(m.screens[i]));
    proofs::lemma_removed(m.screens[i], k);
    proofs::lemma_screens_sub(m.screens, i, m.screens[i].removed(k), k);
    let screens1 = m.screens.update(i, m.screens[i].removed(k));
    assert forall|a: int| 0 <= a < screens1.len() implies screen_wf(#[trigger] screens1[a]) by {
        if a != i {
            assert(screens1[a] == m.screens[a]);
        }
    }
    assert forall|x: u64| !(#[trigger] has_key(t, x) && has_key(f, x)) by {
        if x != k {
            assert(has_key(t, x) == has_key(m.tiled, x));
            assert(has_key(f, x) == has_key(m.floating, x));
            assert(!(has_key(m.tiled, x) && has_key(m.floating, x)));
        }
    }
    assert(forall|x: u64| #[trigger] is_stacked(screens1, x) == has_key(t, x));
    assert(focus_wf(m.focused, t, f)) by {
        match m.focused {
            Some(g) => {
                if g != k {
                    assert(has_key(t, g) == has_key(m.tiled, g));
                    assert(has_key(f, g) == has_key(m.floating, g));
                } else {
                    assert(has_key(f, k));
                }
            },
            None => {},
        }
    }
    assert(tables_wf(t, f));
}

/// The state of `toggle_floating` for a floating normal window, before re-tiling, is
/// sound.
proof fn lemma_toggle_to_tiled_wf(m: ClientsModel, k: u64)
    requires
        m.wf(),
        m.is_floating(k),
    ensures
        upsert(swap_remove(m.tiled, k), k, value_of(m.floating, k)) == m.tiled.push((k, value_of(m.floating, k))),
        (ClientsModel {
            tiled: m.tiled.push((k, value_of(m.floating, k))),
            floating: swap_remove(m.floating, k),
            screens: m.screens.update(m.current, m.current_screen().inserted(k)),
            ..m
        }).wf(),
{
    let c = value_of(m.floating, k);
    assert(!has_key(m.tiled, k));
    assert(swap_remove(m.tiled, k) == m.tiled);
    let t = m.tiled.push((k, c));
    let f = swap_remove(m.floating, k);
    lemma_swap_remove(m.floating, k);
    lemma_upsert(m.tiled, k, c);
    assert(windows_match(m.tiled));
    assert(windows_match(m.floating));
    lemma_windows_swap_remove(m.floating, k);
    let j = key_index(m.floating, k);
    assert(m.floating[j].1.window == m.floating[j].0);
    lemma_windows_upsert(m.tiled, k, c);
    assert(!is_stacked(m.screens, k));
    assert(!m.current_screen().contains(k)) by {
        if m.current_screen().contains(k) {
            assert(stacked_in(m.screens, m.current, k));
        }
    }
    assert(screen_wf(m.screens[m.current]));
    proofs::lemma_inserted(m.current_screen(), k);
    proofs::lemma_screens_add(m.screens, m.current, m.current_screen().inserted(k), k);
    let screens1 = m.screens.update(m.current, m.current_screen().inserted(k));
    assert forall|a: int| 0 <= a < screens1.len() implies screen_wf(#[trigger] screens1[a]) by {
        if a != m.current {
            assert(screens1[a] == m.screens[a]);
        }
    }
    assert forall|x: u64| !(#[trigger] has_key(t, x) && has_key(f, x)) by {
        if x != k {
            assert(has_key(t, x) == has_key(m.tiled, x));
            assert(has_key(f, x) == has_key(m.floating, x));
            assert(!(has_key(m.tiled, x) && has_key(m.floating, x)));
        }
    }
    assert(forall|x: u64| #[trigger] is_stacked(screens1, x) == has_key(t, x));
    assert(focus_wf(m.focused, t, f)) by {
        match m.focused {
            Some(g) => {
                if g != k {
                    assert(has_key(t, g) == has_key(m.tiled, g));
                    assert(has_key(f, g) == has_key(m.floating, g));
                } else {
                    assert(has_key(t, k));
                }
            },
            None => {},
        }
    }
    assert(tables_wf(t, f));
}

/// The state of `toggle_floating` for a floating window that stays floating, before
/// re-tiling, is sound.
proof fn lemma_toggle_floating_stays_wf(m: ClientsModel, k: u64)
    requires
        m.wf(),
        m.is_floating(k),
    ensures
        (ClientsModel { floating: swap_remove(m.floating, k).push((k, value_of(m.floating, k))), ..m }).wf(),
        upsert(swap_remove(m.floating, k), k, value_of(m.floating, k)) == swap_remove(m.floating, k).push((k, value_of(m.floating, k))),
{
    let c = value_of(m.floating, k);
    let f0 = swap_remove(m.floating, k);
    lemma_swap_remove(m.floating, k);
    lemma_upsert(f0, k, c);
    assert(windows_match(m.floating));
    lemma_windows_swap_remove(m.floating, k);
    let j = key_index(m.floating, k);
    assert(m.floating[j].1.window == m.floating[j].0);
    lemma_windows_upsert(f0, k, c);
    let f = f0.push((k, c));
    assert forall|x: u64| !(#[trigger] has_key(m.tiled, x) && has_key(f, x)) by {
        if x != k {
            assert(has_key(f, x) == has_key(m.floating, x));
        }
    }
    assert(focus_wf(m.focused, m.tiled, f)) by {
        match m.focused {
            Some(g) => {
                if g != k {
                    assert(has_key(f, g) == has_key(m.floating, g));
                } else {
                    assert(has_key(f, k));
                }
            },
            None => {},
        }
    }
    assert(tables_wf(m.tiled, f));
}

/// Switching the stack of a window on a screen keeps the state sound.
proof fn lemma_switch_wf(m: ClientsModel, k: u64)
    requires
        m.wf(),
        m.is_stacked(k),
    ensures
        (ClientsModel { screens: m.screens.update(m.screen_of(k), m.screens[m.screen_of(k)].switched(k)), ..m }).wf(),
        m.screens[m.screen_of(k)].contains(k),
{
    let i = m.screen_of(k);
    assert(stacked_in(m.screens, i, k));
    assert(screen_wf(m.screens[i]));
    proofs::lemma_switched(m.screens[i], k);
    proofs::lemma_screens_same(m.screens, i, m.screens[i].switched(k));
    let screens1 = m.screens.update(i, m.screens[i].switched(k));
    assert forall|a: int| 0 <= a < screens1.len() implies screen_wf(#[trigger] screens1[a]) by {
        if a != i {
            assert(screens1[a] == m.screens[a]);
        }
    }
    assert(forall|x: u64| #[trigger] is_stacked(screens1, x) == has_key(m.tiled, x));
}

/// Each entry is keyed by its own window.
pub open spec fn windows_match(s: Seq<(u64, Client)>) -> bool {
    forall|i: int| 0 <= i < s.len() ==> #[trigger] s[i].1.window == s[i].0
}

pub proof fn lemma_windows_swap_remove(s: Seq<(u64, Client)>, k: u64)
    requires
        windows_match(s),
    ensures
        windows_match(swap_remove(s, k)),
{
    let t = swap_remove(s, k);
    if has_key(s, k) {
        let i = key_index(s, k);
        let n = s.len() - 1;
        assert forall|j: int| 0 <= j < t.len() implies #[trigger] t[j].1.window == t[j].0 by {
            if j == i {
                assert(t[j] == s[n]);
            } else {
                assert(t[j] == s[j]);
            }
        }
    }
}

pub proof fn lemma_windows_upsert(s: Seq<(u64, Client)>, k: u64, c: Client)
    requires
        windows_match(s),
        c.window == k,
    ensures
        windows_match(upsert(s, k, c)),
{
}

/// The state before re-tiling in `remove` is sound.
proof fn lemma_removed_wf(m: ClientsModel, k: u64)
    requires
        m.wf(),
    ensures
        ({
            let m1 = ClientsModel {
                focused: if m.focused == Some(k) { None } else { m.focused },
                tiled: swap_remove(m.tiled, k),
                floating: swap_remove(m.floating, k),
                screens: if m.is_stacked(k) {
                    m.screens.update(m.screen_of(k), m.screens[m.screen_of(k)].removed(k))
                } else {
                    m.screens
                },
                ..m
            };
            &&& m1.wf()
            &&& m1.arranged() == m.removed(k)
        }),
{
    let t = swap_remove(m.tiled, k);
    let f = swap_remove(m.floating, k);
    lemma_swap_remove(m.tiled, k);
    lemma_swap_remove(m.floating, k);
    lemma_windows_swap_remove(m.tiled, k);
    lemma_windows_swap_remove(m.floating, k);
    assert(windows_match(m.tiled));
    assert(windows_match(m.floating));
    let screens1 = if m.is_stacked(k) {
        m.screens.update(m.screen_of(k), m.screens[m.screen_of(k)].removed(k))
    } else {
        m.screens
    };
    if m.is_stacked(k) {
        let i = m.screen_of(k);
        assert(stacked_in(m.screens, i, k));
        assert(screen_wf(m.screens[i]));
        proofs::lemma_removed(m.screens[i], k);
        proofs::lemma_screens_sub(m.screens, i, m.screens[i].removed(k), k);
        assert forall|j: int| 0 <= j < screens1.len() implies screen_wf(#[trigger] screens1[j]) by {
            if j != i {
                assert(screens1[j] == m.screens[j]);
            }
        }
    } else {
        assert(!has_key(m.tiled, k));
    }
    assert(forall|x: u64| #[trigger] is_stacked(screens1, x) == has_key(t, x));
    let focused1 = if m.focused == Some(k) { None } else { m.focused };
    assert(keys_unique(t));
    assert(keys_unique(f));
    assert(t.len() + f.len() <= MAX_CLIENTS);
    assert forall|x: u64| !(#[trigger] has_key(t, x) && has_key(f, x)) by {
        if x != k {
            assert(has_key(t, x) == has_key(m.tiled, x));
            assert(has_key(f, x) == has_key(m.floating, x));
            assert(!(has_key(m.tiled, x) && has_key(m.floating, x)));
        }
    }
    assert(windows_match(t));
    assert(windows_match(f));
    assert(tables_wf(t, f));
    assert(screens_wf(screens1, m.current));
    assert(partition_wf(t, screens1));
    assert(focus_wf(focused1, t, f));
}

/// The state after a tiled insertion (before re-tiling) is sound.
proof fn lemma_insert_tiled_wf(m: ClientsModel, c: Client)
    requires
        m.wf(),
        !m.contains(c.window),
        m.tiled.len() + m.floating.len() < MAX_CLIENTS,
    ensures
        upsert(m.tiled, c.window, c) == m.tiled.push((c.window, c)),
        ({
            let k = c.window;
            let m1 = ClientsModel {
                tiled: m.tiled.push((k, c)),
                screens: m.screens.update(m.current, m.current_screen().inserted(k)),
                ..m
            };
            m1.wf()
        }),
{
    let k = c.window;
    lemma_upsert(m.tiled, k, c);
    lemma_windows_upsert(m.tiled, k, c);
    assert(windows_match(m.tiled));
    let t = m.tiled.push((k, c));
    assert(!is_stacked(m.screens, k));
    assert(!m.current_screen().contains(k)) by {
        if m.current_screen().contains(k) {
            assert(stacked_in(m.screens, m.current, k));
        }
    }
    assert(screen_wf(m.screens[m.current]));
    proofs::lemma_inserted(m.current_screen(), k);
    proofs::lemma_screens_add(m.screens, m.current, m.current_screen().inserted(k), k);
    let screens1 = m.screens.update(m.current, m.current_screen().inserted(k));
    assert forall|j: int| 0 <= j < screens1.len() implies screen_wf(#[trigger] screens1[j]) by {
        if j != m.current {
            assert(screens1[j] == m.screens[j]);
        }
    }
    assert(keys_unique(t));
    assert(t.len() + m.floating.len() <= MAX_CLIENTS);
    assert(upsert(m.tiled, k, c) == t);
    assert forall|x: u64| !(#[trigger] has_key(t, x) && has_key(m.floating, x)) by {
        if x != k {
            assert(has_key(t, x) == has_key(m.tiled, x));
            assert(!(has_key(m.tiled, x) && has_key(m.floating, x)));
        }
    }
    assert(windows_match(t));
    assert(tables_wf(t, m.floating));
    assert(screens_wf(screens1, m.current));
    assert(partition_wf(t, screens1));
    assert(focus_wf(m.focused, t, m.floating));
}

/// The state after a floating insertion (before re-tiling) is sound.
proof fn lemma_insert_floating_wf(m: ClientsModel, c: Client)
    requires
        m.wf(),
        !m.contains(c.window),
        m.tiled.len() + m.floating.len() < MAX_CLIENTS,
    ensures
        upsert(m.floating, c.window, c) == m.floating.push((c.window, c)),
        (ClientsModel { floating: m.floating.push((c.window, c)), ..m }).wf(),
{
    let k = c.window;
    lemma_upsert(m.floating, k, c);
    lemma_windows_upsert(m.floating, k, c);
    assert(windows_match(m.floating));
}

/// The screen that holds `k` is the one at `i`.
pub proof fn lemma_screen_of(m: ClientsModel, i: int, k: u64)
    requires
        screens_disjoint(m.screens),
        0 <= i < m.screens.len(),
        stacked_in(m.screens, i, k),
    ensures
        m.is_stacked(k),
        m.screen_of(k) == i,
{
    assert(is_stacked(m.screens, k));
    let j = m.screen_of(k);
    assert(stacked_in(m.screens, j, k));
}

proof fn lemma_partial_keys(m: ClientsModel, im: int, ia: int)
    ensures
        same_keys(partially_arranged(m, im, ia), m.tiled),
{
}

/// Placing master window `i` extends the partial layout by that window.
proof fn lemma_arrange_step_master(m: ClientsModel, i: int)
    requires
        m.wf(),
        0 <= i < m.current_screen().master.len(),
    ensures
        ({
            let key = m.current_screen().master[i];
            let t = partially_arranged(m, i, 0);
            &&& keys_unique(t)
            &&& has_key(t, key)
            &&& ({
                let c = value_of(t, key);
                let g = slot(m, m.master_width(), m.cell_height(m.current_screen().master.len() as int), 0, c.fullscreen, i);
                upsert(t, key, Client { size: g.0, position: g.1, ..c }) == partially_arranged(m, i + 1, 0)
            })
        }),
{
    let s = m.current_screen();
    let key = s.master[i];
    let t = partially_arranged(m, i, 0);
    lemma_partial_keys(m, i, 0);
    lemma_same_keys(t, m.tiled);
    assert(screen_wf(m.screens[m.current]));
    assert(stacked_in(m.screens, m.current, key));
    assert(is_stacked(m.screens, key));
    assert(has_key(m.tiled, key));
    let j0 = key_index(m.tiled, key);
    lemma_key_index(t, j0);
    lemma_first_unique(s.master, i);
    assert(!s.master.subrange(0, i).contains(key));
    assert(s.aux.subrange(0, 0) =~= Seq::<u64>::empty());
    let c = value_of(t, key);
    assert(c == m.tiled[j0].1);
    let g = slot(m, m.master_width(), m.cell_height(s.master.len() as int), 0, c.fullscreen, i);
    let u = upsert(t, key, Client { size: g.0, position: g.1, ..c });
    let p = partially_arranged(m, i + 1, 0);
    assert forall|j: int| 0 <= j < u.len() implies #[trigger] u[j] == p[j] by {
        if j == j0 {
            assert(s.master.subrange(0, i + 1)[i] == key);
        } else {
            let k = m.tiled[j].0;
            assert(k != key);
            assert(s.master.subrange(0, i + 1).contains(k) == s.master.subrange(0, i).contains(k)) by {
                if s.master.subrange(0, i + 1).contains(k) {
                    let x = choose|x: int| 0 <= x < i + 1 && #[trigger] s.master.subrange(0, i + 1)[x] == k;
                    assert(s.master.subrange(0, i)[x] == k);
                }
                if s.master.subrange(0, i).contains(k) {
                    let x = choose|x: int| 0 <= x < i && #[trigger] s.master.subrange(0, i)[x] == k;
                    assert(s.master.subrange(0, i + 1)[x] == k);
                }
            }
        }
    }
    assert(u =~= p);
}

/// Placing aux window `i` extends the partial layout by that window.
proof fn lemma_arrange_step_aux(m: ClientsModel, i: int)
    requires
        m.wf(),
        0 <= i < m.current_screen().aux.len(),
    ensures
        ({
            let key = m.current_screen().aux[i];
            let ml = m.current_screen().master.len() as int;
            let t = partially_arranged(m, ml, i);
            &&& keys_unique(t)
            &&& has_key(t, key)
            &&& ({
                let c = value_of(t, key);
                let g = slot(
                    m,
                    m.area_width() - m.master_width(),
                    m.cell_height(m.current_screen().aux.len() as int),
                    m.master_width(),
                    c.fullscreen,
                    i,
                );
                upsert(t, key, Client { size: g.0, position: g.1, ..c }) == partially_arranged(m, ml, i + 1)
            })
        }),
{
    let s = m.current_screen();
    let key = s.aux[i];
    let ml = s.master.len() as int;
    let t = partially_arranged(m, ml, i);
    lemma_partial_keys(m, ml, i);
    lemma_same_keys(t, m.tiled);
    assert(screen_wf(m.screens[m.current]));
    assert(stacked_in(m.screens, m.current, key));
    assert(is_stacked(m.screens, key));
    assert(has_key(m.tiled, key));
    let j0 = key_index(m.tiled, key);
    lemma_key_index(t, j0);
    lemma_first_unique(s.aux, i);
    assert(s.master.subrange(0, ml) =~= s.master);
    assert(!s.master.contains(key));
    assert(!s.aux.subrange(0, i).contains(key));
    let c = value_of(t, key);
    assert(c == m.tiled[j0].1);
    let g = slot(m, m.area_width() - m.master_width(), m.cell_height(s.aux.len() as int), m.master_width(), c.fullscreen, i);
    let u = upsert(t, key, Client { size: g.0, position: g.1, ..c });
    let p = partially_arranged(m, ml, i + 1);
    assert forall|j: int| 0 <= j < u.len() implies #[trigger] u[j] == p[j] by {
        if j == j0 {
            assert(s.aux.subrange(0, i + 1)[i] == key);
        } else {
            let k = m.tiled[j].0;
            assert(k != key);
            assert(s.aux.subrange(0, i + 1).contains(k) == s.aux.subrange(0, i).contains(k)) by {
                if s.aux.subrange(0, i + 1).contains(k) {
                    let x = choose|x: int| 0 <= x < i + 1 && #[trigger] s.aux.subrange(0, i + 1)[x] == k;
                    assert(s.aux.subrange(0, i)[x] == k);
                }
                if s.aux.subrange(0, i).contains(k) {
                    let x = choose|x: int| 0 <= x < i && #[trigger] s.aux.subrange(0, i)[x] == k;
                    assert(s.aux.subrange(0, i + 1)[x] == k);
                }
            }
        }
    }
    assert(u =~= p);
}

/// With every window of the current screen placed, the partial layout is the layout; the
/// layout keeps the invariant.
proof fn lemma_arranged(m: ClientsModel)
    requires
        m.wf(),
    ensures
        partially_arranged(m, m.current_screen().master.len() as int, m.current_screen().aux.len() as int)
            == m.arranged().tiled,
        m.arranged().wf(),
        same_keys(m.arranged().tiled, m.tiled),
{
    let s = m.current_screen();
    assert(s.master.subrange(0, s.master.len() as int) =~= s.master);
    assert(s.aux.subrange(0, s.aux.len() as int) =~= s.aux);
    assert(partially_arranged(m, s.master.len() as int, s.aux.len() as int) =~= m.arranged().tiled);
    lemma_arranged_wf(m);
}

pub proof fn lemma_arranged_wf(m: ClientsModel)
    requires
        m.wf(),
    ensures
        m.arranged().wf(),
        same_keys(m.arranged().tiled, m.tiled),
        forall|k: u64| #[trigger] has_key(m.arranged().tiled, k) == has_key(m.tiled, k),
{
    let a = m.arranged();
    assert(same_keys(a.tiled, m.tiled));
    lemma_same_keys(a.tiled, m.tiled);
    assert forall|i: int| 0 <= i < a.tiled.len() implies #[trigger] a.tiled[i].1.window == a.tiled[i].0 by {
        assert(m.tiled[i].1.window == m.tiled[i].0);
    }
}

} // verus!

verus! {

/// A stack of distinct tiled windows is no longer than the tiled table.
pub proof fn lemma_stack_len(s: Seq<u64>, t: Seq<(u64, Client)>)
    requires
        s.no_duplicates(),
        forall|x: u64| #[trigger] s.contains(x) ==> has_key(t, x),
    ensures
        s.len() <= t.len(),
{
    broadcast use vstd::seq_lib::seq_to_set_is_finite;
    s.unique_seq_to_set();
    let ks = keys_of(t);
    ks.lemma_cardinality_of_set();
    assert forall|x: u64| #[trigger] s.to_set().contains(x) implies ks.to_set().contains(x) by {
        assert(s.contains(x));
        let j = key_index(t, x);
        assert(ks[j] == x);
    }
    vstd::set_lib::lemma_len_subset(s.to_set(), ks.to_set());
}

/// The stacks of a sound state are no longer than the tiled table.
pub proof fn lemma_stacks_len(m: ClientsModel, i: int)
    requires
        m.wf(),
        0 <= i < m.screens.len(),
    ensures
        m.screens[i].master.len() <= m.tiled.len(),
        m.screens[i].aux.len() <= m.tiled.len(),
        m.tiled.len() <= MAX_CLIENTS,
{
    assert(screen_wf(m.screens[i]));
    assert forall|x: u64| #[trigger] m.screens[i].master.contains(x) implies has_key(m.tiled, x) by {
        assert(stacked_in(m.screens, i, x));
        assert(is_stacked(m.screens, x));
    }
    assert forall|x: u64| #[trigger] m.screens[i].aux.contains(x) implies has_key(m.tiled, x) by {
        assert(stacked_in(m.screens, i, x));
        assert(is_stacked(m.screens, x));
    }
    lemma_stack_len(m.screens[i].master, m.tiled);
    lemma_stack_len(m.screens[i].aux, m.tiled);
}


/// The state after a tiled insertion (before re-tiling) is sound.
pub proof fn lemma_insert_tiled_wf_pub(m: ClientsModel, c: Client)
    requires
        m.wf(),
        !m.contains(c.window),
    ensures
        keys_unique(m.tiled.push((c.window, c))),
{
    lemma_upsert(m.tiled, c.window, c);
}

/// A floating insertion keeps keys unique and leaves the tiled table alone.
pub proof fn lemma_insert_floating_wf_pub(m: ClientsModel, c: Client)
    requires
        m.wf(),
        !m.contains(c.window),
    ensures
        keys_unique(m.floating.push((c.window, c))),
        !has_key(m.tiled, c.window),
{
    lemma_upsert(m.floating, c.window, c);
}

} // verus!
