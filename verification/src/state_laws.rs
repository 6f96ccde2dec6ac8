use vstd::prelude::*;

use crate::backends::window_event::{ConfigureEvent, MotionEvent, WindowEvent};
use crate::clients::{lemma_screen_of, stacked_in, ClientsModel};
use crate::maps::{has_key, key_index, lemma_key_index, lemma_upsert, value_of};
use crate::state::{after_first, before_last, ActionModel, CommandModel, MoveInfoInner, MoveResizeInfo, WmModel};
use crate::util::{fits_i32, Point};

verus! {

/// In a list without repeats, the entry before the last occurrence of `s[i]` is `s[i - 1]`.
proof fn lemma_before_last_index(s: Seq<u64>, i: int)
    requires
        s.no_duplicates(),
        0 <= i < s.len(),
    ensures
        before_last(s, s[i]) == if i > 0 { Some(s[i - 1]) } else { None::<u64> },
    decreases s.len(),
{
    if i != s.len() - 1 {
        let d = s.drop_last();
        assert(s.last() != s[i]);
        assert(d.no_duplicates()) by {
            assert forall|a: int, b: int| 0 <= a < d.len() && 0 <= b < d.len() && a != b implies d[a] != d[b] by {
                assert(d[a] == s[a] && d[b] == s[b]);
            }
        }
        assert(d[i] == s[i]);
        lemma_before_last_index(d, i);
        if i > 0 {
            assert(d[i - 1] == s[i - 1]);
        }
    }
}

/// In a list without repeats, the entry after the first occurrence of `s[i]` is `s[i + 1]`.
proof fn lemma_after_first_index(s: Seq<u64>, i: int)
    requires
        s.no_duplicates(),
        0 <= i < s.len(),
    ensures
        after_first(s, s[i]) == if i + 1 < s.len() { Some(s[i + 1]) } else { None::<u64> },
    decreases s.len(),
{
    if i != 0 {
        let d = s.drop_first();
        assert(s[0] != s[i]);
        assert(d.no_duplicates()) by {
            assert forall|a: int, b: int| 0 <= a < d.len() && 0 <= b < d.len() && a != b implies d[a] != d[b] by {
                assert(d[a] == s[a + 1] && d[b] == s[b + 1]);
            }
        }
        assert(d[i - 1] == s[i]);
        lemma_after_first_index(d, i - 1);
        if i + 1 < s.len() {
            assert(d[i] == s[i + 1]);
        }
    }
}

/// Stack `master` (or aux) of screen `j`.
pub open spec fn stack_at(c: ClientsModel, j: int, master: bool) -> Seq<u64> {
    if master {
        c.screens[j].master
    } else {
        c.screens[j].aux
    }
}

/// Facts on a window `s[i]` of stack `s` of screen `j` of a sound state: it is tiled, its
/// client names it, its stack is the one `focus_up` and `focus_down` walk, and the stack
/// has no repeats.
proof fn lemma_stacked_window(c: ClientsModel, j: int, master: bool, i: int)
    requires
        c.wf(),
        0 <= j < c.screens.len(),
        0 <= i < stack_at(c, j, master).len(),
    ensures
        ({
            let s = stack_at(c, j, master);
            &&& s.no_duplicates()
            &&& c.is_tiled(s[i])
            &&& c.entry(s[i]) == crate::clients::ClientEntry::Tiled(value_of(c.tiled, s[i]))
            &&& value_of(c.tiled, s[i]).window == s[i]
            &&& crate::state::stack_of(c, s[i]) == Some(s)
        }),
{
    let s = stack_at(c, j, master);
    let k = s[i];
    let sc = c.screens[j];
    assert(crate::clients::screen_wf(sc));
    assert(sc.contains(k));
    assert(stacked_in(c.screens, j, k));
    lemma_screen_of(c, j, k);
    assert(has_key(c.tiled, k));
    let x = key_index(c.tiled, k);
    lemma_key_index(c.tiled, x);
    assert(c.tiled[x].1.window == c.tiled[x].0);
    if master {
        assert(!sc.aux.contains(k));
    }
}

/// Moving the focus up gives it to the window just above the focused one in its stack
/// (index one less), with the old window unfocused and the new one focused; when the
/// focused window is the first of its stack, nothing changes.
pub proof fn lemma_focus_up_moves_up(w: WmModel, j: int, master: bool, i: int)
    requires
        w.wf(),
        0 <= j < w.clients.screens.len(),
        0 <= i < stack_at(w.clients, j, master).len(),
        w.clients.focused == Some(stack_at(w.clients, j, master)[i]),
    ensures
        ({
            let s = stack_at(w.clients, j, master);
            &&& i > 0 ==> w.focus_up().clients == (ClientsModel { focused: Some(s[i - 1]), ..w.clients })
                && w.focus_up().actions == w.actions + seq![ActionModel::UnfocusWindow(s[i]), ActionModel::FocusWindow(s[i - 1])]
            &&& i == 0 ==> w.focus_up() == w
        }),
{
    reveal(WmModel::focus_up);
    reveal(WmModel::focus_client);
    let c = w.clients;
    let s = stack_at(c, j, master);
    lemma_stacked_window(c, j, master, i);
    lemma_before_last_index(s, i);
    if i > 0 {
        lemma_stacked_window(c, j, master, i - 1);
        assert(s[i - 1] != s[i]);
    }
}

/// Moving the focus down gives it to the window just below the focused one in its stack
/// (index one more); when the focused window is the last of its stack, nothing changes.
pub proof fn lemma_focus_down_moves_down(w: WmModel, j: int, master: bool, i: int)
    requires
        w.wf(),
        0 <= j < w.clients.screens.len(),
        0 <= i < stack_at(w.clients, j, master).len(),
        w.clients.focused == Some(stack_at(w.clients, j, master)[i]),
    ensures
        ({
            let s = stack_at(w.clients, j, master);
            &&& i + 1 < s.len() ==> w.focus_down().clients == (ClientsModel { focused: Some(s[i + 1]), ..w.clients })
                && w.focus_down().actions == w.actions + seq![ActionModel::UnfocusWindow(s[i]), ActionModel::FocusWindow(s[i + 1])]
            &&& i + 1 == s.len() ==> w.focus_down() == w
        }),
{
    reveal(WmModel::focus_down);
    reveal(WmModel::focus_client);
    let c = w.clients;
    let s = stack_at(c, j, master);
    lemma_stacked_window(c, j, master, i);
    lemma_after_first_index(s, i);
    if i + 1 < s.len() {
        lemma_stacked_window(c, j, master, i + 1);
        assert(s[i + 1] != s[i]);
    }
}

/// In a sound state the client of a managed window names that window.
proof fn lemma_client_window(c: ClientsModel, k: u64)
    requires
        c.wf(),
        c.contains(k),
    ensures
        c.client_of(k).window == k,
{
    if c.is_tiled(k) {
        let x = key_index(c.tiled, k);
        lemma_key_index(c.tiled, x);
        assert(c.tiled[x].1.window == c.tiled[x].0);
    } else {
        let x = key_index(c.floating, k);
        lemma_key_index(c.floating, x);
        assert(c.floating[x].1.window == c.floating[x].0);
    }
}

/// Going to virtual screen `n` (counted from one) makes screen `n - 1` current, or the
/// last screen when there are fewer than `n`; the screen that was current becomes the one
/// to go back to.
pub proof fn lemma_go_to_nth_counts_from_one(w: WmModel, n: usize)
    requires
        w.wf(),
        n >= 1,
    ensures
        w.run_command(CommandModel::GoToNthVirtualScreen(n)).clients.current == if n <= w.clients.screens.len() {
            n - 1
        } else {
            w.clients.screens.len() - 1
        },
        w.run_command(CommandModel::GoToNthVirtualScreen(n)).clients.last == Some(w.clients.current),
        w.run_command(CommandModel::GoToNthVirtualScreen(n)).clients.screens == w.clients.screens,
{
    reveal(WmModel::run_command);
    let c = w.clients;
    crate::state::lemma_arrange_keeps_clients(w.with_clients(c.went_to(n - 1)));
}

/// A configure request for a managed window is answered with exactly one request: the
/// window keeps the size and position the manager holds for it, and its border is left
/// alone; only a request for a window that is not managed is passed on. No client
/// changes.
pub proof fn lemma_configure_request(w: WmModel, e: ConfigureEvent<u64>)
    requires
        w.wf(),
    ensures
        ({
            let w1 = w.handle_event(WindowEvent::ConfigureEvent(e));
            &&& w1.clients == w.clients
            &&& w.clients.contains(e.window) ==> w1.actions == w.actions.push(
                ActionModel::ConfigureWindow {
                    window: e.window,
                    size: Some(w.clients.client_of(e.window).size),
                    position: Some(w.clients.client_of(e.window).position),
                    border: None,
                },
            )
            &&& !w.clients.contains(e.window) ==> w1.actions == w.actions.push(
                ActionModel::ForwardEvent(WindowEvent::ConfigureEvent(e)),
            )
        }),
{
    let w1 = w.handle_event(WindowEvent::ConfigureEvent(e));
    if w.clients.contains(e.window) {
        assert(w1.actions =~= w.actions.push(
            ActionModel::ConfigureWindow {
                window: e.window,
                size: Some(w.clients.client_of(e.window).size),
                position: Some(w.clients.client_of(e.window).position),
                border: None,
            },
        ));
    } else {
        assert(w1.actions =~= w.actions.push(ActionModel::ForwardEvent(WindowEvent::ConfigureEvent(e))));
    }
}

/// The position a move drag gives for pointer position `cursor`: where the window was when
/// the drag started, plus how far the pointer has gone since.
pub open spec fn start_plus_offset(info: MoveInfoInner, cursor: Point) -> (int, int) {
    (
        info.starting_window_pos.x + cursor.x - info.starting_cursor_pos.x,
        info.starting_window_pos.y + cursor.y - info.starting_cursor_pos.y,
    )
}

/// During a move drag, a pointer motion puts the dragged window at its position when the
/// drag started plus the pointer's offset from where the drag started, tells the window
/// server so, keeps the drag going and changes nothing else of the client.
pub proof fn lemma_drag_follows_pointer(w: WmModel, info: MoveInfoInner, ev: MotionEvent<u64>)
    requires
        w.clients.wf(),
        w.move_resize == MoveResizeInfo::Move(info),
        w.clients.contains(info.window),
        fits_i32(start_plus_offset(info, ev.position).0),
        fits_i32(start_plus_offset(info, ev.position).1),
    ensures
        ({
            let w1 = w.do_move_resize(ev);
            let k = info.window;
            let (x, y) = start_plus_offset(info, ev.position);
            &&& w1.clients.wf()
            &&& w1.clients.contains(k)
            &&& w1.clients.client_of(k).position.x == x
            &&& w1.clients.client_of(k).position.y == y
            &&& w1.clients.client_of(k) == (crate::clients::client::Client {
                position: w1.clients.client_of(k).position,
                ..w.clients.client_of(k)
            })
            &&& w1.move_resize == w.move_resize
            &&& w1.actions == w.actions.push(ActionModel::MoveWindow(k, w1.clients.client_of(k).position))
        }),
{
    let c = w.clients;
    let k = info.window;
    lemma_client_window(c, k);
    let p = crate::state::dragged_position(info, ev.position);
    let cl = c.client_of(k);
    crate::clients::lemma_with_client_wf(c, k, crate::clients::client::Client { position: p, ..cl });
    let w1 = w.do_move_resize(ev);
    assert(w1.actions =~= w.actions.push(ActionModel::MoveWindow(k, p)));
}

/// Where a move drag puts the window does not depend on earlier pointer motions: after any
/// motion, the next one puts it where that motion alone would have.
pub proof fn lemma_drag_ignores_earlier_motion(
    w: WmModel,
    info: MoveInfoInner,
    e1: MotionEvent<u64>,
    e2: MotionEvent<u64>,
)
    requires
        w.clients.wf(),
        w.move_resize == MoveResizeInfo::Move(info),
        w.clients.contains(info.window),
        fits_i32(start_plus_offset(info, e1.position).0),
        fits_i32(start_plus_offset(info, e1.position).1),
        fits_i32(start_plus_offset(info, e2.position).0),
        fits_i32(start_plus_offset(info, e2.position).1),
    ensures
        w.do_move_resize(e1).do_move_resize(e2).clients.client_of(info.window) == w.do_move_resize(e2).clients.client_of(
            info.window,
        ),
{
    lemma_drag_follows_pointer(w, info, e1);
    lemma_drag_follows_pointer(w.do_move_resize(e1), info, e2);
    lemma_drag_follows_pointer(w, info, e2);
}

} // verus!
