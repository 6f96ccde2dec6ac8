use vstd::prelude::*;

use crate::clients::layout::{lemma_cell_offset_bound, lemma_mod_small_sum, lemma_tdiv_bound, magnitude};
use crate::clients::stack::{lemma_without, without};
use crate::clients::tdiv;
use crate::clients::{MAX_CLIENTS, MAX_SCREENS};
use crate::clients2::{Client, ClientStore, Entry, StoreModel};
use crate::maps::{has_key, keys_of, keys_unique, lemma_key_index, lemma_swap_remove, lemma_upsert, upsert, value_of};
use crate::util::COORD_LIMIT;

verus! {

/// A width and a height.
pub struct Size<T> {
    width: T,
    height: T,
}

impl<T> Size<T> {
    pub closed spec fn w(&self) -> T {
        self.width
    }

    pub closed spec fn h(&self) -> T {
        self.height
    }

    pub fn new(width: T, height: T) -> (r: Self)
        ensures
            r.w() == width,
            r.h() == height,
    {
        Self { width, height }
    }

    /// Get a reference to the size's width.
    pub fn width(&self) -> (r: &T)
        ensures
            *r == self.w(),
    {
        &self.width
    }

    /// Get a reference to the size's height.
    pub fn height(&self) -> (r: &T)
        ensures
            *r == self.h(),
    {
        &self.height
    }

    /// Get a mutable reference to the size's width.
    pub fn width_mut(&mut self) -> (r: &mut T)
        ensures
            *r == old(self).w(),
            final(self).w() == *final(r),
            final(self).h() == old(self).h(),
    {
        &mut self.width
    }

    /// Get a mutable reference to the size's height.
    pub fn height_mut(&mut self) -> (r: &mut T)
        ensures
            *r == old(self).h(),
            final(self).h() == *final(r),
            final(self).w() == old(self).w(),
    {
        &mut self.height
    }
}

impl<T: Copy> Size<T> {
    pub fn dimensions(&self) -> (r: (T, T))
        ensures
            r == (self.w(), self.h()),
    {
        (self.width, self.height)
    }
}


// ---------------------------------------------------------------------------
// Workspaces.
// ---------------------------------------------------------------------------

/// A workspace: its master stack and its aux stack.
pub struct WorkspaceModel {
    pub master: Seq<u64>,
    pub aux: Seq<u64>,
}

pub struct Workspace {
    master: Vec<u64>,
    aux: Vec<u64>,
}

impl View for Workspace {
    type V = WorkspaceModel;

    closed spec fn view(&self) -> WorkspaceModel {
        WorkspaceModel { master: self.master@, aux: self.aux@ }
    }
}

/// `v` contains `key`.
fn vec_contains(v: &Vec<u64>, key: &u64) -> (r: bool)
    ensures
        r == v@.contains(*key),
{
    let mut i: usize = 0;
    while i < v.len()
        invariant
            i <= v@.len(),
            forall|j: int| 0 <= j < i ==> v@[j] != *key,
        decreases v@.len() - i,
    {
        if v[i] == *key {
            return true;
        }
        i = i + 1;
    }
    false
}

/// `v` without the occurrences of `key`, order kept.
fn vec_without(v: &Vec<u64>, key: u64) -> (r: Vec<u64>)
    ensures
        r@ == without(v@, key),
{
    let mut r: Vec<u64> = Vec::new();
    let mut i: usize = 0;
    while i < v.len()
        invariant
            i <= v@.len(),
            r@ == without(v@.subrange(0, i as int), key),
        decreases v@.len() - i,
    {
        proof {
            let s = v@.subrange(0, i as int + 1);
            assert(s.drop_last() =~= v@.subrange(0, i as int));
            reveal(Seq::filter);
        }
        if v[i] != key {
            r.push(v[i]);
        }
        i = i + 1;
    }
    proof {
        assert(v@.subrange(0, i as int) =~= v@);
    }
    r
}

impl Default for Workspace {
    fn default() -> (r: Self)
        ensures
            r@.master.len() == 0,
            r@.aux.len() == 0,
    {
        Workspace { master: Vec::new(), aux: Vec::new() }
    }
}

impl Workspace {
    pub fn contains(&self, key: &u64) -> (r: bool)
        ensures
            r == (self@.aux.contains(*key) || self@.master.contains(*key)),
    {
        vec_contains(&self.aux, key) || vec_contains(&self.master, key)
    }

    pub fn is_master(&self, key: &u64) -> (r: bool)
        ensures
            r == self@.master.contains(*key),
    {
        vec_contains(&self.master, key)
    }

    pub fn is_aux(&self, key: &u64) -> (r: bool)
        ensures
            r == self@.aux.contains(*key),
    {
        vec_contains(&self.aux, key)
    }

    /// Appends `key` to the aux stack.
    pub fn push(&mut self, key: u64)
        ensures
            final(self)@ == (WorkspaceModel { master: old(self)@.master, aux: old(self)@.aux.push(key) }),
    {
        self.aux.push(key);
    }

    /// Removes every occurrence of `key` from both stacks.
    pub fn remove(&mut self, key: &u64)
        ensures
            final(self)@ == (WorkspaceModel { master: without(old(self)@.master, *key), aux: without(old(self)@.aux, *key) }),
    {
        self.master = vec_without(&self.master, *key);
        self.aux = vec_without(&self.aux, *key);
    }
}

/// What a `WorkspaceStore` holds.
pub struct WorkspacesModel {
    pub workspaces: Seq<WorkspaceModel>,
    pub current: Seq<usize>,
    pub previous: Option<Seq<usize>>,
}

impl WorkspacesModel {
    /// The workspaces with `indices` selected, the current selection kept as the previous
    /// one.
    pub open spec fn selected(self, indices: Seq<usize>) -> WorkspacesModel {
        WorkspacesModel { current: indices, previous: Some(self.current), ..self }
    }

    /// The workspaces with the previous selection swapped back in, if there is one.
    pub open spec fn back(self) -> WorkspacesModel {
        match self.previous {
            Some(p) => WorkspacesModel { current: p, previous: Some(self.current), ..self },
            None => self,
        }
    }

    /// Workspace `i` is the lowest-numbered selected one.
    pub open spec fn is_first_selected(self, i: int) -> bool {
        &&& 0 <= i < self.workspaces.len()
        &&& self.current.contains(i as usize)
        &&& forall|j: int| 0 <= j < i ==> !(#[trigger] self.current.contains(j as usize))
    }

    /// The lowest-numbered selected workspace.
    pub open spec fn first_selected(self) -> int {
        choose|i: int| self.is_first_selected(i)
    }

    /// The workspaces after `key` was appended to the aux stack of the lowest-numbered
    /// selected one, whose master stack then takes the first aux window if it was empty.
    pub open spec fn pushed(self, key: u64) -> WorkspacesModel {
        let i = self.first_selected();
        WorkspacesModel {
            workspaces: self.workspaces.update(
                i,
                refreshed_workspace(WorkspaceModel { master: self.workspaces[i].master, aux: self.workspaces[i].aux.push(key) }),
            ),
            ..self
        }
    }

    /// The workspaces after every occurrence of `key` was taken out.
    pub open spec fn without_key(self, key: u64) -> WorkspacesModel {
        WorkspacesModel {
            workspaces: Seq::new(
                self.workspaces.len(),
                |i: int| WorkspaceModel { master: without(self.workspaces[i].master, key), aux: without(self.workspaces[i].aux, key) },
            ),
            ..self
        }
    }
}

/// A workspace whose master stack is empty gets the first window of its aux stack there.
pub open spec fn refreshed_workspace(w: WorkspaceModel) -> WorkspaceModel {
    if w.master.len() == 0 && w.aux.len() > 0 {
        WorkspaceModel { master: seq![w.aux[0]], aux: w.aux.drop_first() }
    } else {
        w
    }
}

/// Some existing workspace is selected.
pub open spec fn has_selected(w: WorkspacesModel) -> bool {
    exists|k: int| 0 <= k < w.workspaces.len() && #[trigger] w.current.contains(k as usize)
}

/// The lowest-numbered selected workspace is the one `first_selected` names.
pub proof fn lemma_first_selected_unique(w: WorkspacesModel, i: int)
    requires
        w.is_first_selected(i),
    ensures
        w.first_selected() == i,
{
    let k = w.first_selected();
    assert(w.is_first_selected(k));
    if k < i {
        assert(!w.current.contains(k as usize));
    } else if i < k {
        assert(!w.current.contains(i as usize));
    }
}

/// The stacks (`master` or aux) of the selected workspaces among the first `n`,
/// concatenated in workspace order.
pub open spec fn selected_stacks(ws: Seq<WorkspaceModel>, current: Seq<usize>, n: int, master: bool) -> Seq<u64>
    decreases n,
{
    if n <= 0 {
        Seq::empty()
    } else {
        selected_stacks(ws, current, n - 1, master) + if current.contains((n - 1) as usize) {
            if master { ws[n - 1].master } else { ws[n - 1].aux }
        } else {
            Seq::empty()
        }
    }
}

/// Index `i` (taken modulo `len`) moved `n` places to the left among `len` workspaces.
pub open spec fn rotated_index_left(i: usize, len: usize, n: usize) -> usize {
    (((i % len) + len - n % len) % (len as int)) as usize
}

/// Index `i` (taken modulo `len`) moved `n` places to the right among `len` workspaces.
pub open spec fn rotated_index_right(i: usize, len: usize, n: usize) -> usize {
    (((i % len) + n % len) % (len as int)) as usize
}

/// Workspaces, some of which are selected.
pub struct WorkspaceStore {
    workspaces: Vec<Workspace>,
    current_indices: Vec<usize>,
    previous_indices: Option<Vec<usize>>,
}

impl View for WorkspaceStore {
    type V = WorkspacesModel;

    closed spec fn view(&self) -> WorkspacesModel {
        WorkspacesModel {
            workspaces: self.workspaces@.map_values(|w: Workspace| w@),
            current: self.current_indices@,
            previous: match self.previous_indices {
                Some(p) => Some(p@),
                None => None,
            },
        }
    }
}

impl Default for WorkspaceStore {
    fn default() -> (r: Self)
        ensures
            r@.workspaces.len() == 1,
            r@.workspaces[0].master.len() == 0,
            r@.workspaces[0].aux.len() == 0,
            r@.current == seq![0usize],
            r@.previous is None,
    {
        let mut workspaces: Vec<Workspace> = Vec::new();
        workspaces.push(Workspace::default());
        let mut current_indices: Vec<usize> = Vec::new();
        current_indices.push(0);
        let r = Self { workspaces, current_indices, previous_indices: None };
        proof {
            assert(r@.current =~= seq![0usize]);
        }
        r
    }
}

impl WorkspaceStore {
    /// `num` empty workspaces, the first one selected.
    pub fn new(num: usize) -> (r: Self)
        ensures
            r@.workspaces.len() == num,
            forall|i: int| 0 <= i < num ==> (#[trigger] r@.workspaces[i]).master.len() == 0 && r@.workspaces[i].aux.len() == 0,
            r@.current == seq![0usize],
            r@.previous is None,
    {
        let mut workspaces: Vec<Workspace> = Vec::new();
        let mut i: usize = 0;
        while i < num
            invariant
                i <= num,
                workspaces@.len() == i,
                forall|j: int| 0 <= j < i ==> (#[trigger] workspaces@[j])@.master.len() == 0 && workspaces@[j]@.aux.len() == 0,
            decreases num - i,
        {
            workspaces.push(Workspace::default());
            i = i + 1;
        }
        let mut current_indices: Vec<usize> = Vec::new();
        current_indices.push(0);
        let r = Self { workspaces, current_indices, previous_indices: None };
        proof {
            assert(r@.current =~= seq![0usize]);
        }
        r
    }

    /// Removes every occurrence of `key` from all workspaces.
    pub fn remove(&mut self, key: &u64)
        ensures
            final(self)@.current == old(self)@.current,
            final(self)@.previous == old(self)@.previous,
            final(self)@.workspaces.len() == old(self)@.workspaces.len(),
            forall|i: int| 0 <= i < old(self)@.workspaces.len() ==> #[trigger] final(self)@.workspaces[i] == (WorkspaceModel {
                master: without(old(self)@.workspaces[i].master, *key),
                aux: without(old(self)@.workspaces[i].aux, *key),
            }),
    {
        let ghost w0 = self@.workspaces;
        let mut i: usize = 0;
        while i < self.workspaces.len()
            invariant
                i <= self@.workspaces.len(),
                self@.workspaces.len() == w0.len(),
                self@.current == old(self)@.current,
                self@.previous == old(self)@.previous,
                w0 == old(self)@.workspaces,
                forall|j: int| 0 <= j < i ==> #[trigger] self@.workspaces[j] == (WorkspaceModel {
                    master: without(w0[j].master, *key),
                    aux: without(w0[j].aux, *key),
                }),
                forall|j: int| i <= j < w0.len() ==> #[trigger] self@.workspaces[j] == w0[j],
            decreases w0.len() - i,
        {
            let master = vec_without(&self.workspaces[i].master, *key);
            let aux = vec_without(&self.workspaces[i].aux, *key);
            let ghost before = self.workspaces@;
            let ghost prev = self@.workspaces;
            assert forall|j: int| 0 <= j < w0.len() implies #[trigger] prev[j] == before[j]@ by {}
            self.workspaces.set(i, Workspace { master, aux });
            proof {
                assert forall|j: int| 0 <= j < w0.len() implies #[trigger] self@.workspaces[j] == (if j == i {
                    WorkspaceModel { master: without(w0[j].master, *key), aux: without(w0[j].aux, *key) }
                } else {
                    prev[j]
                }) by {
                    assert(self@.workspaces[j] == self.workspaces@[j]@);
                    assert(before.map_values(|w: Workspace| w@)[j] == before[j]@);
                }
            }
            i = i + 1;
        }
    }

    pub fn len(&self) -> (r: usize)
        ensures
            r == self@.workspaces.len(),
    {
        self.workspaces.len()
    }

    /// The selected workspaces, in the order of the selection.
    pub fn get_current(&self) -> (r: Vec<&Workspace>)
        requires
            forall|j: int| 0 <= j < self@.current.len() ==> #[trigger] self@.current[j] < self@.workspaces.len(),
        ensures
            r@.len() == self@.current.len(),
            forall|j: int| 0 <= j < r@.len() ==> (#[trigger] r@[j])@ == self@.workspaces[self@.current[j] as int],
    {
        let mut r: Vec<&Workspace> = Vec::new();
        let mut j: usize = 0;
        while j < self.current_indices.len()
            invariant
                j <= self@.current.len(),
                r@.len() == j,
                forall|x: int| 0 <= x < self@.current.len() ==> #[trigger] self@.current[x] < self@.workspaces.len(),
                forall|x: int| 0 <= x < j ==> (#[trigger] r@[x])@ == self@.workspaces[self@.current[x] as int],
            decreases self@.current.len() - j,
        {
            let i = self.current_indices[j];
            r.push(&self.workspaces[i]);
            j = j + 1;
        }
        r
    }

    /// The lowest-numbered selected workspace, if any.
    pub fn first_current_index(&self) -> (r: Option<usize>)
        ensures
            match r {
                Some(i) => i < self@.workspaces.len() && self@.current.contains(i)
                    && forall|j: usize| j < i ==> !self@.current.contains(j),
                None => forall|j: usize| j < self@.workspaces.len() ==> !self@.current.contains(j),
            },
    {
        let mut i: usize = 0;
        while i < self.workspaces.len()
            invariant
                i <= self@.workspaces.len(),
                forall|j: usize| j < i ==> !self@.current.contains(j),
            decreases self@.workspaces.len() - i,
        {
            if self.index_selected(i) {
                return Some(i);
            }
            i = i + 1;
        }
        None
    }

    /// Workspace `i` is selected.
    fn index_selected(&self, i: usize) -> (r: bool)
        ensures
            r == self@.current.contains(i),
    {
        let mut j: usize = 0;
        while j < self.current_indices.len()
            invariant
                j <= self@.current.len(),
                forall|x: int| 0 <= x < j ==> self@.current[x] != i,
            decreases self@.current.len() - j,
        {
            if self.current_indices[j] == i {
                return true;
            }
            j = j + 1;
        }
        false
    }

    /// Appends `key` to the aux stack of the lowest-numbered selected workspace; if that
    /// workspace's master stack is empty, the first aux window moves to it.
    pub fn push_current(&mut self, key: u64)
        requires
            has_selected(old(self)@),
        ensures
            final(self)@ == old(self)@.pushed(key),
    {
        let first = self.first_current_index();
        match first {
            Some(i) => {
                proof {
                    lemma_first_selected_unique(self@, i as int);
                }
                let mut master = self.workspaces[i].master.clone();
                let mut aux = self.workspaces[i].aux.clone();
                proof {
                    assert(master@ =~= self.workspaces@[i as int].master@);
                    assert(aux@ =~= self.workspaces@[i as int].aux@);
                }
                aux.push(key);
                let ghost pushed = WorkspaceModel { master: master@, aux: aux@ };
                if master.len() == 0 {
                    let first = aux.remove(0);
                    master.push(first);
                    proof {
                        assert(master@ =~= seq![pushed.aux[0]]);
                        assert(aux@ =~= pushed.aux.drop_first());
                    }
                }
                assert((WorkspaceModel { master: master@, aux: aux@ }) == refreshed_workspace(pushed));
                let ghost prev = self@.workspaces;
                let ghost before = self.workspaces@;
                assert forall|j: int| 0 <= j < prev.len() implies #[trigger] prev[j] == before[j]@ by {}
                self.workspaces.set(i, Workspace { master, aux });
                proof {
                    assert forall|j: int| 0 <= j < prev.len() implies #[trigger] self@.workspaces[j] == old(self)@.pushed(key).workspaces[j] by {
                        assert(self@.workspaces[j] == self.workspaces@[j]@);
                    }
                    assert(self@.workspaces =~= old(self)@.pushed(key).workspaces);
                }
            },
            None => {
                proof {
                    let k = choose|k: int| 0 <= k < self@.workspaces.len() && #[trigger] self@.current.contains(k as usize);
                    assert(!self@.current.contains(k as usize));
                }
            },
        }
    }

    /// The master stacks of the selected workspaces, in workspace order.
    pub fn iter_current_master(&self) -> (r: Vec<u64>)
        ensures
            r@ == selected_stacks(self@.workspaces, self@.current, self@.workspaces.len() as int, true),
    {
        self.selected(true)
    }

    /// The aux stacks of the selected workspaces, in workspace order.
    pub fn iter_current_aux(&self) -> (r: Vec<u64>)
        ensures
            r@ == selected_stacks(self@.workspaces, self@.current, self@.workspaces.len() as int, false),
    {
        self.selected(false)
    }

    fn selected(&self, master: bool) -> (r: Vec<u64>)
        ensures
            r@ == selected_stacks(self@.workspaces, self@.current, self@.workspaces.len() as int, master),
    {
        let mut r: Vec<u64> = Vec::new();
        let mut i: usize = 0;
        while i < self.workspaces.len()
            invariant
                i <= self@.workspaces.len(),
                r@ == selected_stacks(self@.workspaces, self@.current, i as int, master),
            decreases self@.workspaces.len() - i,
        {
            if self.index_selected(i) {
                let stack = if master { &self.workspaces[i].master } else { &self.workspaces[i].aux };
                let mut j: usize = 0;
                let ghost r0 = r@;
                while j < stack.len()
                    invariant
                        j <= stack@.len(),
                        r@ == r0 + stack@.subrange(0, j as int),
                    decreases stack@.len() - j,
                {
                    r.push(stack[j]);
                    proof {
                        assert(r@ =~= r0 + stack@.subrange(0, j as int + 1));
                    }
                    j = j + 1;
                }
                proof {
                    assert(stack@.subrange(0, j as int) =~= stack@);
                }
            } else {
                proof {
                    assert(r@ =~= r@ + Seq::<u64>::empty());
                }
            }
            i = i + 1;
        }
        r
    }

    /// The workspaces, in order.
    pub fn iter(&self) -> (r: &[Workspace])
        ensures
            r@.map_values(|w: Workspace| w@) == self@.workspaces,
    {
        self.workspaces.as_slice()
    }

    /// Selects workspace `idx` (modulo the number of workspaces) alone; the previous
    /// selection is kept.
    pub fn select_workspace(&mut self, idx: usize)
        requires
            old(self)@.workspaces.len() > 0,
        ensures
            final(self)@ == old(self)@.selected(seq![idx % (old(self)@.workspaces.len() as usize)]),
    {
        let len = self.len();
        let mut v: Vec<usize> = Vec::new();
        v.push(idx % len);
        std::mem::swap(&mut self.current_indices, &mut v);
        self.previous_indices = Some(v);
        proof {
            assert(self@.current =~= seq![idx % len]);
        }
    }

    /// Adds workspace `idx` (modulo the number of workspaces) to the selection, or takes
    /// it out if it is selected.
    pub fn toggle_additional_workspace(&mut self, idx: usize)
        requires
            old(self)@.workspaces.len() > 0,
        ensures
            ({
                let i = (idx % (old(self)@.workspaces.len() as usize)) as usize;
                final(self)@ == (WorkspacesModel {
                    current: if old(self)@.current.contains(i) {
                        old(self)@.current.filter(|x: usize| x != i)
                    } else {
                        old(self)@.current.push(i)
                    },
                    ..old(self)@
                })
            }),
    {
        let idx = idx % self.len();
        if self.index_selected(idx) {
            let mut r: Vec<usize> = Vec::new();
            let mut j: usize = 0;
            let ghost p = |x: usize| x != idx;
            while j < self.current_indices.len()
                invariant
                    j <= self@.current.len(),
                    r@ == self@.current.subrange(0, j as int).filter(p),
                    p == (|x: usize| x != idx),
                decreases self@.current.len() - j,
            {
                proof {
                    let s = self@.current.subrange(0, j as int + 1);
                    assert(s.drop_last() =~= self@.current.subrange(0, j as int));
                    reveal(Seq::filter);
                }
                if self.current_indices[j] != idx {
                    r.push(self.current_indices[j]);
                }
                j = j + 1;
            }
            proof {
                assert(self@.current.subrange(0, j as int) =~= self@.current);
            }
            self.current_indices = r;
        } else {
            self.current_indices.push(idx);
        }
    }

    /// Selects the listed workspaces; the previous selection is kept.
    pub fn select_workspaces(&mut self, idx: Vec<usize>)
        ensures
            final(self)@ == old(self)@.selected(idx@),
    {
        let mut v = idx;
        std::mem::swap(&mut self.current_indices, &mut v);
        self.previous_indices = Some(v);
    }

    /// Swaps the selection with the previous one, if there is one.
    pub fn select_previous_workspaces(&mut self)
        ensures
            final(self)@ == old(self)@.back(),
    {
        match self.previous_indices.take() {
            Some(previous) => {
                let mut v = previous;
                std::mem::swap(&mut self.current_indices, &mut v);
                self.previous_indices = Some(v);
            },
            None => {},
        }
    }

    /// Moves every selected index `n` places to the left.
    pub fn rotate_left(&mut self, n: usize)
        requires
            0 < old(self)@.workspaces.len(),
        ensures
            final(self)@ == (WorkspacesModel {
                current: old(self)@.current.map_values(|i: usize| rotated_index_left(i, old(self)@.workspaces.len() as usize, n)),
                previous: Some(old(self)@.current),
                ..old(self)@
            }),
    {
        let len = self.len();
        let mut v: Vec<usize> = Vec::new();
        let mut j: usize = 0;
        while j < self.current_indices.len()
            invariant
                j <= self@.current.len(),
                len == self@.workspaces.len(),
                0 < len,
                v@ == self@.current.subrange(0, j as int).map_values(|i: usize| rotated_index_left(i, len, n)),
            decreases self@.current.len() - j,
        {
            let i = self.current_indices[j];
            let a = n % len;
            let b = i % len;
            let k = if b >= a { b - a } else { b + (len - a) };
            proof {
                lemma_mod_small_sum((b + len - a) as int, len as int);
                assert(k == rotated_index_left(i, len, n));
            }
            v.push(k);
            proof {
                assert(v@ =~= self@.current.subrange(0, j as int + 1).map_values(|i: usize| rotated_index_left(i, len, n)));
            }
            j = j + 1;
        }
        proof {
            assert(self@.current.subrange(0, j as int) =~= self@.current);
        }
        self.select_workspaces(v);
    }

    /// Moves every selected index `n` places to the right.
    pub fn rotate_right(&mut self, n: usize)
        requires
            0 < old(self)@.workspaces.len(),
        ensures
            final(self)@ == (WorkspacesModel {
                current: old(self)@.current.map_values(|i: usize| rotated_index_right(i, old(self)@.workspaces.len() as usize, n)),
                previous: Some(old(self)@.current),
                ..old(self)@
            }),
    {
        let len = self.len();
        let mut v: Vec<usize> = Vec::new();
        let mut j: usize = 0;
        while j < self.current_indices.len()
            invariant
                j <= self@.current.len(),
                len == self@.workspaces.len(),
                0 < len,
                v@ == self@.current.subrange(0, j as int).map_values(|i: usize| rotated_index_right(i, len, n)),
            decreases self@.current.len() - j,
        {
            let i = self.current_indices[j];
            let a = n % len;
            let b = i % len;
            let k = if a < len - b { b + a } else { b - (len - a) };
            proof {
                lemma_mod_small_sum((b + a) as int, len as int);
                assert(k == rotated_index_right(i, len, n));
            }
            v.push(k);
            proof {
                assert(v@ =~= self@.current.subrange(0, j as int + 1).map_values(|i: usize| rotated_index_right(i, len, n)));
            }
            j = j + 1;
        }
        proof {
            assert(self@.current.subrange(0, j as int) =~= self@.current);
        }
        self.select_workspaces(v);
    }
}


/// Fewer entries in each workspace leave no more selected entries.
pub proof fn lemma_selected_shrinks(a: Seq<WorkspaceModel>, b: Seq<WorkspaceModel>, current: Seq<usize>, n: int, master: bool)
    requires
        0 <= n <= a.len(),
        a.len() == b.len(),
        forall|i: int| 0 <= i < a.len() ==> (#[trigger] b[i]).master.len() <= a[i].master.len() && b[i].aux.len() <= a[i].aux.len(),
    ensures
        selected_stacks(b, current, n, master).len() <= selected_stacks(a, current, n, master).len(),
    decreases n,
{
    if n > 0 {
        lemma_selected_shrinks(a, b, current, n - 1, master);
        assert(b[n - 1].master.len() <= a[n - 1].master.len());
    }
}

/// Appending to the aux stack of a selected workspace adds at most one selected entry to
/// each kind of stack.
pub proof fn lemma_selected_pushed(w: WorkspacesModel, key: u64, i: int, n: int)
    requires
        w.is_first_selected(i),
        0 <= n <= w.workspaces.len(),
    ensures
        w.first_selected() == i,
        selected_stacks(w.pushed(key).workspaces, w.current, n, true).len() <= selected_stacks(w.workspaces, w.current, n, true).len()
            + if i < n { 1int } else { 0int },
        selected_stacks(w.pushed(key).workspaces, w.current, n, false).len() <= selected_stacks(w.workspaces, w.current, n, false).len()
            + if i < n { 1int } else { 0int },
    decreases n,
{
    lemma_first_selected_unique(w, i);
    if n > 0 {
        lemma_selected_pushed(w, key, i, n - 1);
    }
}

/// Taking a key out of every workspace leaves no more selected entries.
pub proof fn lemma_selected_without(w: WorkspacesModel, key: u64, master: bool)
    ensures
        selected_stacks(w.without_key(key).workspaces, w.current, w.workspaces.len() as int, master).len()
            <= selected_stacks(w.workspaces, w.current, w.workspaces.len() as int, master).len(),
{
    let b = w.without_key(key).workspaces;
    assert forall|i: int| 0 <= i < w.workspaces.len() implies (#[trigger] b[i]).master.len() <= w.workspaces[i].master.len()
        && b[i].aux.len() <= w.workspaces[i].aux.len() by {
        w.workspaces[i].master.lemma_filter_len(|x: u64| x != key);
        w.workspaces[i].aux.lemma_filter_len(|x: u64| x != key);
    }
    lemma_selected_shrinks(w.workspaces, b, w.current, w.workspaces.len() as int, master);
}

// ---------------------------------------------------------------------------
// The client manager.
// ---------------------------------------------------------------------------

/// Where one window goes: its id, its size and its position.
pub type Placement = (u64, (i32, i32), (i32, i32));

/// The store and the set of changed windows after `p` was applied: a stored client of
/// another geometry gets the new one and its window is marked changed; anything else is
/// left alone.
pub open spec fn place(st: (StoreModel, Set<u64>), p: Placement) -> (StoreModel, Set<u64>) {
    match st.0.entry(p.0).option() {
        Some(c) => if c.geometry() != (p.1, p.2) {
            (st.0.replaced(p.0, c.with_geometry(p.1, p.2)), st.1.insert(p.0))
        } else {
            st
        },
        None => st,
    }
}

/// The first `n` placements of `ps`, applied in order.
pub open spec fn apply_placements(st: (StoreModel, Set<u64>), ps: Seq<Placement>, n: int) -> (StoreModel, Set<u64>)
    decreases n,
{
    if n <= 0 {
        st
    } else {
        place(apply_placements(st, ps, n - 1), ps[n - 1])
    }
}

/// What a `ClientManager` holds.
pub struct ManagerModel {
    pub store: StoreModel,
    pub focused: Option<u64>,
    pub workspaces: WorkspacesModel,
    pub gap: i32,
    pub border: i32,
    /// The master stack's share, in thousandths of the usable width.
    pub master_ratio: u32,
    pub screen: (i32, i32),
    /// Windows whose geometry the manager changed.
    pub invalidated: Set<u64>,
}

impl ManagerModel {
    pub open spec fn masters(self) -> Seq<u64> {
        selected_stacks(self.workspaces.workspaces, self.workspaces.current, self.workspaces.workspaces.len() as int, true)
    }

    pub open spec fn auxs(self) -> Seq<u64> {
        selected_stacks(self.workspaces.workspaces, self.workspaces.current, self.workspaces.workspaces.len() as int, false)
    }

    pub open spec fn area_width(self) -> int {
        self.screen.0 - self.gap * 2
    }

    pub open spec fn area_height(self) -> int {
        self.screen.1 - self.gap * 2
    }

    /// All of the width without aux clients; else the width times the whole part of half
    /// the master share.
    pub open spec fn master_width(self) -> int {
        if self.auxs().len() == 0 {
            self.area_width()
        } else {
            self.area_width() * (self.master_ratio / 2000) as int
        }
    }

    pub open spec fn aux_width(self) -> int {
        self.area_width() - self.master_width()
    }

    /// The height of one of `n` cells of a stack.
    pub open spec fn cell_height(self, n: int) -> int {
        if n <= 1 {
            self.area_height()
        } else {
            tdiv(self.area_height(), n)
        }
    }

    /// Where the `i`-th window of the master stack goes.
    pub open spec fn master_placement(self, i: int) -> Placement {
        let h = self.cell_height(self.masters().len() as int);
        (
            self.masters()[i],
            ((self.master_width() - self.gap * 2 - self.border * 2) as i32, (h - self.gap * 2 - self.border * 2) as i32),
            ((self.gap * 2) as i32, (h * i + self.gap * 2) as i32),
        )
    }

    /// Where the `i`-th window of the aux stack goes.
    pub open spec fn aux_placement(self, i: int) -> Placement {
        let h = self.cell_height(self.auxs().len() as int);
        (
            self.auxs()[i],
            ((self.aux_width() - self.gap * 2 - self.border * 2) as i32, (h - self.gap * 2 - self.border * 2) as i32),
            ((self.master_width() + self.gap * 2) as i32, (h * i + self.gap * 2) as i32),
        )
    }

    /// The master stack's placements, then the aux stack's.
    pub open spec fn placements(self) -> Seq<Placement> {
        Seq::new(self.masters().len(), |i: int| self.master_placement(i)) + Seq::new(
            self.auxs().len(),
            |i: int| self.aux_placement(i),
        )
    }

    /// The manager after every selected window was given its place.
    pub open spec fn tiled(self) -> ManagerModel {
        let st = apply_placements((self.store, self.invalidated), self.placements(), self.placements().len() as int);
        ManagerModel { store: st.0, invalidated: st.1, ..self }
    }

    /// The manager after `c` was stored as tiled and its window appended to the aux stack
    /// of the lowest-numbered selected workspace (see `pushed`), before any layout.
    pub open spec fn with_client(self, c: Client) -> ManagerModel {
        ManagerModel { store: self.store.inserted(Entry::Tiled(c)), workspaces: self.workspaces.pushed(c.id()), ..self }
    }

    /// The manager after `key` was forgotten: no longer focused, out of the store, and, if
    /// it was tiled, out of every workspace, the rest laid out again.
    pub open spec fn without_client(self, key: u64) -> ManagerModel {
        let focused = if self.focused == Some(key) { None } else { self.focused };
        let m = ManagerModel { focused, store: self.store.removed(key), ..self };
        if self.store.entry(key) is Tiled {
            ManagerModel { workspaces: self.workspaces.without_key(key), ..m }.tiled()
        } else {
            m
        }
    }

    pub open spec fn config_wf(self) -> bool {
        &&& -COORD_LIMIT <= self.gap <= COORD_LIMIT
        &&& -COORD_LIMIT <= self.border <= COORD_LIMIT
        &&& -COORD_LIMIT <= self.screen.0 <= COORD_LIMIT
        &&& -COORD_LIMIT <= self.screen.1 <= COORD_LIMIT
        &&& self.master_ratio <= 2000
    }

    pub open spec fn wf(self) -> bool {
        &&& self.store.wf()
        &&& self.config_wf()
    }

    /// The selected stacks are short enough to be counted in the layout's arithmetic.
    pub open spec fn countable(self) -> bool {
        &&& self.masters().len() <= MAX_CLIENTS
        &&& self.auxs().len() <= MAX_CLIENTS
    }
}

/// Clients in a store, laid out over workspaces.
pub struct ClientManager {
    store: ClientStore,
    focused: Option<u64>,
    workspaces: WorkspaceStore,
    gap: i32,
    border_size: i32,
    master_ratio: u32,
    screen_size: Size<i32>,
    invalidated: std::collections::HashSet<u64>,
}

impl View for ClientManager {
    type V = ManagerModel;

    closed spec fn view(&self) -> ManagerModel {
        ManagerModel {
            store: self.store@,
            focused: self.focused,
            workspaces: self.workspaces@,
            gap: self.gap,
            border: self.border_size,
            master_ratio: self.master_ratio,
            screen: (self.screen_size.w(), self.screen_size.h()),
            invalidated: self.invalidated@,
        }
    }
}

impl Default for ClientManager {
    fn default() -> (r: Self)
        ensures
            r@.wf(),
            r@.store.tiled.len() == 0,
            r@.store.floating.len() == 0,
            r@.store.transient.len() == 0,
            r@.store.fullscreen.len() == 0,
            r@.focused is None,
            r@.workspaces.workspaces.len() == 1,
            r@.workspaces.workspaces[0].master.len() == 0,
            r@.workspaces.workspaces[0].aux.len() == 0,
            r@.workspaces.current == seq![0usize],
            r@.workspaces.previous is None,
            r@.gap == 0,
            r@.border == 0,
            r@.master_ratio == 1000,
            r@.screen == (1i32, 1i32),
            r@.invalidated.is_empty(),
    {
        ClientManager {
            store: ClientStore::new(),
            focused: None,
            workspaces: WorkspaceStore::default(),
            gap: 0,
            border_size: 0,
            master_ratio: 1000,
            screen_size: Size::new(1, 1),
            invalidated: std::collections::HashSet::new(),
        }
    }
}

impl ClientManager {
    pub fn new() -> (r: Self)
        ensures
            r@.wf(),
            r@.store.tiled.len() == 0,
            r@.store.floating.len() == 0,
            r@.store.transient.len() == 0,
            r@.store.fullscreen.len() == 0,
            r@.focused is None,
            r@.workspaces.workspaces.len() == 1,
            r@.workspaces.workspaces[0].master.len() == 0,
            r@.workspaces.workspaces[0].aux.len() == 0,
            r@.workspaces.current == seq![0usize],
            r@.workspaces.previous is None,
            r@.gap == 0,
            r@.border == 0,
            r@.master_ratio == 1000,
            r@.screen == (1i32, 1i32),
            r@.invalidated.is_empty(),
    {
        Self::default()
    }

    pub fn with_gap(self, gap: i32) -> (r: Self)
        requires
            self@.wf(),
            -COORD_LIMIT <= gap <= COORD_LIMIT,
        ensures
            r@ == (ManagerModel { gap, ..self@ }),
            r@.wf(),
    {
        Self { gap, ..self }
    }

    pub fn with_border(self, border_size: i32) -> (r: Self)
        requires
            self@.wf(),
            -COORD_LIMIT <= border_size <= COORD_LIMIT,
        ensures
            r@ == (ManagerModel { border: border_size, ..self@ }),
            r@.wf(),
    {
        Self { border_size, ..self }
    }

    pub fn with_screen_size(self, screen_size: Size<i32>) -> (r: Self)
        requires
            self@.wf(),
            -COORD_LIMIT <= screen_size.w() <= COORD_LIMIT,
            -COORD_LIMIT <= screen_size.h() <= COORD_LIMIT,
        ensures
            r@ == (ManagerModel { screen: (screen_size.w(), screen_size.h()), ..self@ }),
            r@.wf(),
    {
        Self { screen_size, ..self }
    }

    /// `num` empty workspaces in place of the current ones, the first one selected.
    pub fn with_workspaces(self, num: usize) -> (r: Self)
        requires
            self@.wf(),
        ensures
            r@.wf(),
            r@.workspaces.workspaces.len() == num,
            forall|i: int| 0 <= i < num ==> (#[trigger] r@.workspaces.workspaces[i]).master.len() == 0
                && r@.workspaces.workspaces[i].aux.len() == 0,
            r@.workspaces.current == seq![0usize],
            r@.workspaces.previous is None,
            r@ == (ManagerModel { workspaces: r@.workspaces, ..self@ }),
    {
        Self { workspaces: WorkspaceStore::new(num), ..self }
    }

    /// The store's entry for `key`.
    pub fn get(&self, key: &u64) -> (r: Entry<&Client>)
        requires
            self@.wf(),
        ensures
            r.value() == self@.store.entry(*key),
    {
        self.store.get(key)
    }

    /// The manager changed the geometry of `key`'s window.
    pub fn is_invalidated(&self, key: &u64) -> (r: bool)
        ensures
            r == self@.invalidated.contains(*key),
    {
        broadcast use vstd::std_specs::hash::group_hash_axioms;
        self.invalidated.contains(key)
    }

    /// Gives `id`'s client, if it is stored, the geometry `size` and `position`, and marks
    /// it changed where that changes it.
    fn apply_placement(&mut self, id: u64, size: (i32, i32), position: (i32, i32))
        requires
            old(self)@.wf(),
        ensures
            final(self)@.wf(),
            (final(self)@.store, final(self)@.invalidated) == place((old(self)@.store, old(self)@.invalidated), (id, size, position)),
            final(self)@ == (ManagerModel { store: final(self)@.store, invalidated: final(self)@.invalidated, ..old(self)@ }),
    {
        broadcast use vstd::std_specs::hash::group_hash_axioms;
        let found = self.store.get(&id).into_option();
        match found {
            Some(client) => {
                let c: Client = *client;
                if c.position().0 != position.0 || c.position().1 != position.1 || c.size().0 != size.0
                    || c.size().1 != size.1 {
                    let mut moved = c;
                    moved.set_size(size);
                    moved.set_position(position);
                    proof {
                        c.lemma_with_geometry(size, position);
                        moved.lemma_same_parts(c.with_geometry(size, position));
                    }
                    self.store.replace(&id, moved);
                    self.invalidated.insert(id);
                }
            },
            None => {},
        }
    }

    /// Stores `client` as tiled, appends its window to the aux stack of the lowest-numbered
    /// selected workspace (whose master stack takes the first aux window if it was empty),
    /// and lays the clients out again.
    pub fn new_client(&mut self, client: Client)
        requires
            old(self)@.wf(),
            old(self)@.countable(),
            old(self)@.masters().len() < MAX_CLIENTS,
            old(self)@.auxs().len() < MAX_CLIENTS,
            has_selected(old(self)@.workspaces),
        ensures
            final(self)@ == old(self)@.with_client(client).tiled(),
            final(self)@.wf(),
    {
        let ghost m = self@;
        let id = client.window_id();
        proof {
            crate::clients2::lemma_insert_then_get(self@.store, client);
        }
        let entry = self.store.insert(Entry::Tiled(client));
        if entry.is_tiled() {
            let first = self.workspaces.first_current_index();
            proof {
                match first {
                    Some(i) => {
                        lemma_selected_pushed(m.workspaces, id, i as int, m.workspaces.workspaces.len() as int);
                    },
                    None => {
                        let k = choose|k: int| 0 <= k < m.workspaces.workspaces.len() && #[trigger] m.workspaces.current.contains(k as usize);
                        assert(!m.workspaces.current.contains(k as usize));
                    },
                }
            }
            self.workspaces.push_current(id);
            proof {
                assert(self@ == m.with_client(client));
            }
            self.tile_clients();
        }
    }

    /// Forgets `key`: it is no longer focused, it leaves the store, and if it was tiled it
    /// leaves every workspace and the rest is laid out again.
    pub fn remove_client(&mut self, key: &u64)
        requires
            old(self)@.wf(),
            old(self)@.countable(),
        ensures
            final(self)@ == old(self)@.without_client(*key),
            final(self)@.wf(),
    {
        let ghost m = self@;
        if let Some(id) = self.focused {
            if id == *key {
                self.focused = None;
            }
        }
        match self.store.remove(key) {
            Entry::Tiled(_) => {
                self.workspaces.remove(key);
                proof {
                    assert(self@.workspaces.workspaces =~= m.workspaces.without_key(*key).workspaces);
                    lemma_selected_without(m.workspaces, *key, true);
                    lemma_selected_without(m.workspaces, *key, false);
                }
                self.tile_clients();
            },
            _ => {},
        }
    }

    /// Lays out the clients of the selected workspaces: the master stack on the left (all
    /// of the width when the aux stack is empty), the aux stack on the right, each stack
    /// cut into equal cells from top to bottom, gaps and borders taken off. Each stored
    /// client whose geometry changes is marked invalidated.
    pub fn tile_clients(&mut self)
        requires
            old(self)@.wf(),
            old(self)@.countable(),
        ensures
            final(self)@ == old(self)@.tiled(),
            final(self)@.wf(),
    {
        let ghost m = self@;
        let gap = self.gap as i64;
        let border = self.border_size as i64;
        let width = *self.screen_size.width() as i64 - gap * 2;
        let height = *self.screen_size.height() as i64 - gap * 2;
        let masters = self.workspaces.iter_current_master();
        let auxs = self.workspaces.iter_current_aux();
        let len_master = masters.len();
        let len_aux = auxs.len();
        let share = (self.master_ratio / 2000) as i64;
        proof {
            assert(0 <= share <= 1);
            assert(width * share == if share == 0 { 0 } else { width as int }) by (nonlinear_arith)
                requires
                    0 <= share <= 1,
            ;
        }
        let width_master: i64 = if len_aux == 0 { width } else { width * share };
        let width_aux: i64 = width - width_master;
        let height_master: i64 = if len_master <= 1 { height } else { height / (len_master as i64) };
        let height_aux: i64 = if len_aux <= 1 { height } else { height / (len_aux as i64) };
        proof {
            if len_master > 1 {
                lemma_tdiv_bound(height as int, len_master as int);
            }
            if len_aux > 1 {
                lemma_tdiv_bound(height as int, len_aux as int);
            }
            assert(masters@ == m.masters());
            assert(auxs@ == m.auxs());
            assert(width_master == m.master_width());
            assert(height_master == m.cell_height(len_master as int));
            assert(height_aux == m.cell_height(len_aux as int));
        }
        let ghost ps = m.placements();
        let mut i: usize = 0;
        while i < len_master
            invariant
                m.wf(),
                m.countable(),
                i <= len_master,
                len_master == m.masters().len(),
                len_aux == m.auxs().len(),
                masters@ == m.masters(),
                ps == m.placements(),
                gap == m.gap,
                border == m.border,
                width_master == m.master_width(),
                height_master == m.cell_height(len_master as int),
                magnitude(width_master as int) <= 3 * COORD_LIMIT,
                magnitude(height as int) <= 3 * COORD_LIMIT,
                magnitude(height_master as int) <= 3 * COORD_LIMIT,
                height == m.area_height(),
                self@.wf(),
                self@ == (ManagerModel { store: self@.store, invalidated: self@.invalidated, ..m }),
                (self@.store, self@.invalidated) == apply_placements((m.store, m.invalidated), ps, i as int),
            decreases len_master - i,
        {
            proof {
                if len_master > 1 {
                    lemma_cell_offset_bound(height as int, len_master as int, i as int);
                } else {
                    assert(height_master * (i as int) == 0) by (nonlinear_arith)
                        requires
                            i == 0,
                    ;
                }
                assert(magnitude(height_master * (i as int)) <= 3 * COORD_LIMIT);
            }
            let size = ((width_master - gap * 2 - border * 2) as i32, (height_master - gap * 2 - border * 2) as i32);
            let position = ((gap * 2) as i32, (height_master * (i as i64) + gap * 2) as i32);
            proof {
                assert(ps[i as int] == m.master_placement(i as int));
                assert((masters@[i as int], size, position) == ps[i as int]);
            }
            self.apply_placement(masters[i], size, position);
            i = i + 1;
        }
        let mut j: usize = 0;
        while j < len_aux
            invariant
                m.wf(),
                m.countable(),
                j <= len_aux,
                len_master == m.masters().len(),
                len_aux == m.auxs().len(),
                auxs@ == m.auxs(),
                ps == m.placements(),
                gap == m.gap,
                border == m.border,
                width_master == m.master_width(),
                width_aux == m.aux_width(),
                height_aux == m.cell_height(len_aux as int),
                magnitude(width_master as int) <= 3 * COORD_LIMIT,
                magnitude(width_aux as int) <= 6 * COORD_LIMIT,
                magnitude(height as int) <= 3 * COORD_LIMIT,
                magnitude(height_aux as int) <= 3 * COORD_LIMIT,
                height == m.area_height(),
                self@.wf(),
                self@ == (ManagerModel { store: self@.store, invalidated: self@.invalidated, ..m }),
                (self@.store, self@.invalidated) == apply_placements((m.store, m.invalidated), ps, len_master + j),
            decreases len_aux - j,
        {
            proof {
                if len_aux > 1 {
                    lemma_cell_offset_bound(height as int, len_aux as int, j as int);
                } else {
                    assert(height_aux * (j as int) == 0) by (nonlinear_arith)
                        requires
                            j == 0,
                    ;
                }
                assert(magnitude(height_aux * (j as int)) <= 3 * COORD_LIMIT);
            }
            let size = ((width_aux - gap * 2 - border * 2) as i32, (height_aux - gap * 2 - border * 2) as i32);
            let position = ((width_master + gap * 2) as i32, (height_aux * (j as i64) + gap * 2) as i32);
            proof {
                assert(ps[len_master + j] == m.aux_placement(j as int));
                assert((auxs@[j as int], size, position) == ps[len_master + j]);
            }
            self.apply_placement(auxs[j], size, position);
            j = j + 1;
        }
    }
}

// ---------------------------------------------------------------------------
// Laws.
// ---------------------------------------------------------------------------

/// Selecting workspaces and going back restores the selection, and going back again
/// returns to the new one.
pub proof fn lemma_select_then_back(w: WorkspacesModel, indices: Seq<usize>)
    ensures
        w.selected(indices).back() == (WorkspacesModel { previous: Some(indices), ..w }),
        w.selected(indices).back().back() == w.selected(indices),
{
}

/// A workspace holds a key pushed onto it, and holds no key removed from it.
pub proof fn lemma_push_remove(w: WorkspaceModel, k: u64, x: u64)
    ensures
        (WorkspaceModel { aux: w.aux.push(k), ..w }).aux.contains(k),
        !without(w.master, x).contains(x) && !without(w.aux, x).contains(x),
{
    assert(w.aux.push(k)[w.aux.len() as int] == k);
    lemma_without(w.master, x);
    lemma_without(w.aux, x);
}

/// Giving a place keeps which table holds each key, and keeps the store sound.
proof fn lemma_place_keeps_keys(st: (StoreModel, Set<u64>), p: Placement)
    requires
        st.0.wf(),
    ensures
        place(st, p).0.wf(),
        forall|x: u64| #[trigger] has_key(place(st, p).0.tiled, x) == has_key(st.0.tiled, x),
        forall|x: u64| #[trigger] has_key(place(st, p).0.floating, x) == has_key(st.0.floating, x),
        forall|x: u64| #[trigger] has_key(place(st, p).0.transient, x) == has_key(st.0.transient, x),
        forall|x: u64| #[trigger] has_key(place(st, p).0.fullscreen, x) == has_key(st.0.fullscreen, x),
{
    let s = st.0;
    match s.entry(p.0).option() {
        Some(c) => {
            let c2 = c.with_geometry(p.1, p.2);
            lemma_upsert(s.tiled, p.0, c2);
            lemma_upsert(s.floating, p.0, c2);
            lemma_upsert(s.transient, p.0, c2);
            lemma_upsert(s.fullscreen, p.0, c2);
        },
        None => {},
    }
}

/// Applying placements keeps which table holds each key, and keeps the store sound.
pub proof fn lemma_placements_keep_keys(st: (StoreModel, Set<u64>), ps: Seq<Placement>, n: int)
    requires
        st.0.wf(),
    ensures
        apply_placements(st, ps, n).0.wf(),
        forall|x: u64| #[trigger] has_key(apply_placements(st, ps, n).0.tiled, x) == has_key(st.0.tiled, x),
        forall|x: u64| #[trigger] has_key(apply_placements(st, ps, n).0.floating, x) == has_key(st.0.floating, x),
        forall|x: u64| #[trigger] has_key(apply_placements(st, ps, n).0.transient, x) == has_key(st.0.transient, x),
        forall|x: u64| #[trigger] has_key(apply_placements(st, ps, n).0.fullscreen, x) == has_key(st.0.fullscreen, x),
    decreases n,
{
    if n > 0 {
        lemma_placements_keep_keys(st, ps, n - 1);
        lemma_place_keeps_keys(apply_placements(st, ps, n - 1), ps[n - 1]);
    }
}

/// A new client is stored as tiled after it is added and the clients are laid out.
pub proof fn lemma_new_client_tiled(m: ManagerModel, c: Client)
    requires
        m.wf(),
    ensures
        m.with_client(c).tiled().store.entry(c.id()) is Tiled,
{
    crate::clients2::lemma_insert_then_get(m.store, c);
    lemma_upsert(m.store.tiled, c.id(), c);
    let m1 = m.with_client(c);
    lemma_placements_keep_keys((m1.store, m1.invalidated), m1.placements(), m1.placements().len() as int);
}

/// A removed client leaves the store (when no other table also held its key) and, if
/// it was tiled, every workspace.
pub proof fn lemma_remove_client_forgets(m: ManagerModel, k: u64)
    requires
        m.wf(),
        (has_key(m.store.tiled, k) as int) + (has_key(m.store.floating, k) as int) + (has_key(m.store.transient, k) as int)
            + (has_key(m.store.fullscreen, k) as int) <= 1,
    ensures
        !m.without_client(k).store.contains(k),
        m.store.entry(k) is Tiled ==> forall|i: int|
            0 <= i < m.workspaces.workspaces.len() ==> !(#[trigger] m.without_client(k).workspaces.workspaces[i]).master.contains(k)
                && !m.without_client(k).workspaces.workspaces[i].aux.contains(k),
{
    lemma_swap_remove(m.store.tiled, k);
    lemma_swap_remove(m.store.floating, k);
    lemma_swap_remove(m.store.transient, k);
    lemma_swap_remove(m.store.fullscreen, k);
    let r = m.store.removed(k);
    assert(!r.contains(k));
    if m.store.entry(k) is Tiled {
        let m1 = ManagerModel {
            focused: if m.focused == Some(k) { None } else { m.focused },
            store: r,
            workspaces: m.workspaces.without_key(k),
            ..m
        };
        lemma_placements_keep_keys((m1.store, m1.invalidated), m1.placements(), m1.placements().len() as int);
        assert forall|i: int| 0 <= i < m.workspaces.workspaces.len() implies !(
        #[trigger] m.without_client(k).workspaces.workspaces[i]).master.contains(k)
            && !m.without_client(k).workspaces.workspaces[i].aux.contains(k) by {
            lemma_without(m.workspaces.workspaces[i].master, k);
            lemma_without(m.workspaces.workspaces[i].aux, k);
        }
    }
}

// ---------------------------------------------------------------------------
// Laying out twice.
// ---------------------------------------------------------------------------

/// The last of the first `n` placements that names window `x`.
pub open spec fn last_placement(ps: Seq<Placement>, n: int, x: u64) -> Option<Placement>
    decreases n,
{
    if n <= 0 {
        None
    } else if ps[n - 1].0 == x {
        Some(ps[n - 1])
    } else {
        last_placement(ps, n - 1, x)
    }
}

/// `c` with the geometry of placement `lp`, if there is one.
pub open spec fn placed_client(c: Client, lp: Option<Placement>) -> Client {
    match lp {
        Some(p) => c.with_geometry(p.1, p.2),
        None => c,
    }
}

/// Table `i` of a store, in the order in which `entry` reads them.
pub open spec fn table(s: StoreModel, i: int) -> Seq<(u64, Client)> {
    if i == 0 {
        s.tiled
    } else if i == 1 {
        s.floating
    } else if i == 2 {
        s.transient
    } else {
        s.fullscreen
    }
}

/// The first table that holds `x`, or 4 when none does.
pub open spec fn table_of(s: StoreModel, x: u64) -> int {
    if has_key(s.tiled, x) {
        0
    } else if has_key(s.floating, x) {
        1
    } else if has_key(s.transient, x) {
        2
    } else if has_key(s.fullscreen, x) {
        3
    } else {
        4
    }
}

/// The geometry the store gives window `x` (meaningful when it holds `x`).
pub open spec fn stored_geometry(s: StoreModel, x: u64) -> ((i32, i32), (i32, i32)) {
    value_of(table(s, table_of(s, x)), x).geometry()
}

/// Every one of the first `n` placements that names a stored window `x` gives it the
/// geometry it already has in `s`.
pub open spec fn keeps_geometry(s: StoreModel, ps: Seq<Placement>, n: int, x: u64) -> bool {
    s.contains(x) ==> forall|j: int|
        0 <= j < n && (#[trigger] ps[j]).0 == x ==> (ps[j].1, ps[j].2) == stored_geometry(s, x)
}

/// Table `i` is the table of that place.
proof fn lemma_tables(s: StoreModel)
    ensures
        table(s, 0) == s.tiled,
        table(s, 1) == s.floating,
        table(s, 2) == s.transient,
        table(s, 3) == s.fullscreen,
{
}

/// The last placement of `x`, when there is one, names `x` and is one of the first `n`.
proof fn lemma_last_placement(ps: Seq<Placement>, n: int, x: u64)
    ensures
        last_placement(ps, n, x) is Some ==> last_placement(ps, n, x).unwrap().0 == x && exists|j: int|
            0 <= j < n && #[trigger] ps[j] == last_placement(ps, n, x).unwrap(),
    decreases n,
{
    if n > 0 && ps[n - 1].0 != x {
        lemma_last_placement(ps, n - 1, x);
    }
}

/// A second geometry overrides the first.
proof fn lemma_regeometry(c: Client, a: (i32, i32), b: (i32, i32), a2: (i32, i32), b2: (i32, i32))
    ensures
        c.with_geometry(a, b).with_geometry(a2, b2) == c.with_geometry(a2, b2),
{
    c.lemma_with_geometry(a, b);
    c.with_geometry(a, b).lemma_with_geometry(a2, b2);
    c.lemma_with_geometry(a2, b2);
    c.with_geometry(a, b).with_geometry(a2, b2).lemma_same_parts(c.with_geometry(a2, b2));
}

/// Giving a client the geometry it has changes nothing.
proof fn lemma_same_geometry(c: Client, a: (i32, i32), b: (i32, i32))
    requires
        c.geometry() == (a, b),
    ensures
        c.with_geometry(a, b) == c,
{
    c.lemma_with_geometry(a, b);
    c.with_geometry(a, b).lemma_same_parts(c);
}

/// Placing a placed client again at the same placement changes nothing; placing it at
/// `p` is placing the original at `p`.
proof fn lemma_placed(c: Client, lp: Option<Placement>, p: Placement)
    ensures
        placed_client(placed_client(c, lp), lp) == placed_client(c, lp),
        placed_client(c, lp).with_geometry(p.1, p.2) == c.with_geometry(p.1, p.2),
        lp matches Some(q) ==> placed_client(c, lp).geometry() == (q.1, q.2),
        lp is None ==> placed_client(c, lp) == c,
{
    match lp {
        Some(q) => {
            lemma_regeometry(c, q.1, q.2, q.1, q.2);
            lemma_regeometry(c, q.1, q.2, p.1, p.2);
            c.lemma_with_geometry(q.1, q.2);
        },
        None => {},
    }
}

/// What applying the first `n` placements does: the tables keep their keys in order, the
/// first table that holds a placed window gives it the geometry of its last placement,
/// and a window is left unmarked exactly when it was unmarked and every placement of it
/// gave it the geometry it had.
proof fn lemma_apply_placements(st: (StoreModel, Set<u64>), ps: Seq<Placement>, n: int)
    requires
        st.0.wf(),
    ensures
        ({
            let s = apply_placements(st, ps, n);
            &&& forall|i: int| 0 <= i < 4 ==> #[trigger] keys_of(table(s.0, i)) == keys_of(table(st.0, i))
            &&& forall|i: int, x: u64|
                0 <= i < 4 && has_key(table(st.0, i), x) ==> #[trigger] value_of(table(s.0, i), x) == if table_of(
                    st.0,
                    x,
                ) == i {
                    placed_client(value_of(table(st.0, i), x), last_placement(ps, n, x))
                } else {
                    value_of(table(st.0, i), x)
                }
            &&& forall|x: u64|
                !(#[trigger] s.1.contains(x)) <==> (!st.1.contains(x) && keeps_geometry(st.0, ps, n, x))
        }),
    decreases n,
{
    lemma_placements_keep_keys(st, ps, n);
    let s = apply_placements(st, ps, n);
    lemma_tables(st.0);
    lemma_tables(s.0);
    if n > 0 {
        let s0 = apply_placements(st, ps, n - 1);
        lemma_apply_placements(st, ps, n - 1);
        lemma_placements_keep_keys(st, ps, n - 1);
        lemma_tables(s0.0);
        let p = ps[n - 1];
        let x0 = p.0;
        assert(table_of(s0.0, x0) == table_of(st.0, x0));
        assert(s0.0.contains(x0) == st.0.contains(x0));
        assert forall|x: u64| x != x0 implies last_placement(ps, n, x) == last_placement(ps, n - 1, x) by {}
        match s0.0.entry(x0).option() {
            Some(c) => {
                let t = table_of(s0.0, x0);
                assert(0 <= t < 4);
                assert(c == value_of(table(s0.0, t), x0));
                let orig = value_of(table(st.0, t), x0);
                assert(c == placed_client(orig, last_placement(ps, n - 1, x0)));
                lemma_placed(orig, last_placement(ps, n - 1, x0), p);
                lemma_last_placement(ps, n - 1, x0);
                assert(stored_geometry(st.0, x0) == orig.geometry());
                if c.geometry() != (p.1, p.2) {
                    let c2 = c.with_geometry(p.1, p.2);
                    lemma_upsert(table(s0.0, t), x0, c2);
                    assert(table(s.0, t) == upsert(table(s0.0, t), x0, c2));
                    assert forall|i: int| 0 <= i < 4 && i != t implies table(s.0, i) == table(s0.0, i) by {}
                    assert(c2 == placed_client(orig, last_placement(ps, n, x0)));
                    assert forall|i: int, x: u64|
                        0 <= i < 4 && has_key(table(st.0, i), x) implies #[trigger] value_of(table(s.0, i), x)
                        == if table_of(st.0, x) == i {
                        placed_client(value_of(table(st.0, i), x), last_placement(ps, n, x))
                    } else {
                        value_of(table(st.0, i), x)
                    } by {
                        assert(has_key(table(s0.0, i), x));
                        if i != t {
                            assert(table(s.0, i) == table(s0.0, i));
                            assert(table_of(st.0, x) == i ==> x != x0);
                        } else if x != x0 {
                            assert(value_of(table(s.0, i), x) == value_of(table(s0.0, i), x));
                        }
                    }
                } else {
                    assert(s == s0);
                    lemma_same_geometry(c, p.1, p.2);
                    assert(c == placed_client(orig, last_placement(ps, n, x0)));
                    assert forall|i: int, x: u64|
                        0 <= i < 4 && has_key(table(st.0, i), x) implies #[trigger] value_of(table(s.0, i), x)
                        == if table_of(st.0, x) == i {
                        placed_client(value_of(table(st.0, i), x), last_placement(ps, n, x))
                    } else {
                        value_of(table(st.0, i), x)
                    } by {
                        assert(has_key(table(s0.0, i), x));
                        if x != x0 {
                            assert(last_placement(ps, n, x) == last_placement(ps, n - 1, x));
                        }
                    }
                }
                if !s0.1.contains(x0) {
                    assert(keeps_geometry(st.0, ps, n - 1, x0));
                    assert(c.geometry() == orig.geometry()) by {
                        if last_placement(ps, n - 1, x0) is Some {
                            let q = last_placement(ps, n - 1, x0).unwrap();
                            let j = choose|j: int| 0 <= j < n - 1 && #[trigger] ps[j] == q;
                            assert(ps[j].0 == x0);
                        }
                    }
                }
                assert(keeps_geometry(st.0, ps, n, x0) == (keeps_geometry(st.0, ps, n - 1, x0) && (p.1, p.2)
                    == orig.geometry())) by {
                    if keeps_geometry(st.0, ps, n - 1, x0) && (p.1, p.2) == orig.geometry() {
                        assert forall|j: int| 0 <= j < n && (#[trigger] ps[j]).0 == x0 implies (ps[j].1, ps[j].2)
                            == stored_geometry(st.0, x0) by {
                            if j < n - 1 {
                                assert(ps[j].0 == x0);
                            }
                        }
                    }
                }
                assert forall|x: u64| x != x0 implies keeps_geometry(st.0, ps, n, x) == keeps_geometry(
                    st.0,
                    ps,
                    n - 1,
                    x,
                ) by {
                    if keeps_geometry(st.0, ps, n - 1, x) && st.0.contains(x) {
                        assert forall|j: int| 0 <= j < n && (#[trigger] ps[j]).0 == x implies (ps[j].1, ps[j].2)
                            == stored_geometry(st.0, x) by {
                            if j < n - 1 {
                                assert(ps[j].0 == x);
                            }
                        }
                    }
                }
            },
            None => {
                assert(s == s0);
                assert(!st.0.contains(x0));
                assert forall|i: int, x: u64|
                    0 <= i < 4 && has_key(table(st.0, i), x) implies #[trigger] value_of(table(s.0, i), x) == if table_of(
                    st.0,
                    x,
                ) == i {
                    placed_client(value_of(table(st.0, i), x), last_placement(ps, n, x))
                } else {
                    value_of(table(st.0, i), x)
                } by {
                    assert(has_key(table(s0.0, i), x));
                    assert(x != x0);
                    assert(last_placement(ps, n, x) == last_placement(ps, n - 1, x));
                }
                assert forall|x: u64| true implies keeps_geometry(st.0, ps, n, x) == keeps_geometry(
                    st.0,
                    ps,
                    n - 1,
                    x,
                ) by {
                    if keeps_geometry(st.0, ps, n - 1, x) && st.0.contains(x) {
                        assert forall|j: int| 0 <= j < n && (#[trigger] ps[j]).0 == x implies (ps[j].1, ps[j].2)
                            == stored_geometry(st.0, x) by {
                            if j < n - 1 {
                                assert(ps[j].0 == x);
                            }
                        }
                    }
                }
            },
        }
    }
}

/// Two tables with the same keys in the same order and the same value under each key are
/// the same table.
proof fn lemma_table_eq(s: Seq<(u64, Client)>, t: Seq<(u64, Client)>)
    requires
        keys_unique(s),
        keys_unique(t),
        keys_of(s) == keys_of(t),
        forall|x: u64| has_key(s, x) ==> value_of(s, x) == value_of(t, x),
    ensures
        s == t,
{
    assert(s.len() == keys_of(s).len());
    assert(t.len() == keys_of(t).len());
    assert forall|j: int| 0 <= j < s.len() implies s[j] == t[j] by {
        assert(keys_of(s)[j] == s[j].0);
        assert(keys_of(t)[j] == t[j].0);
        lemma_key_index(s, j);
        lemma_key_index(t, j);
    }
    assert(s =~= t);
}

/// Laying the clients out twice is laying them out once: the second layout puts every
/// window where the first one put it and marks no further window as changed.
pub proof fn lemma_tiled_idempotent(m: ManagerModel)
    requires
        m.wf(),
    ensures
        m.tiled().tiled() == m.tiled(),
{
    let t = m.tiled();
    let ps = m.placements();
    let n = ps.len() as int;
    assert(t.placements() =~= ps);
    let st0 = (m.store, m.invalidated);
    let st1 = apply_placements(st0, ps, n);
    lemma_apply_placements(st0, ps, n);
    lemma_placements_keep_keys(st0, ps, n);
    let st2 = apply_placements(st1, ps, n);
    lemma_apply_placements(st1, ps, n);
    lemma_placements_keep_keys(st1, ps, n);
    lemma_tables(st0.0);
    lemma_tables(st1.0);
    lemma_tables(st2.0);
    assert forall|i: int| 0 <= i < 4 implies #[trigger] table(st2.0, i) == table(st1.0, i) by {
        assert forall|x: u64| has_key(table(st2.0, i), x) implies value_of(table(st2.0, i), x) == value_of(
            table(st1.0, i),
            x,
        ) by {
            assert(has_key(table(st0.0, i), x));
            assert(table_of(st1.0, x) == table_of(st0.0, x));
            lemma_placed(value_of(table(st0.0, i), x), last_placement(ps, n, x), ps[0]);
        }
        lemma_table_eq(table(st2.0, i), table(st1.0, i));
    }
    assert(st2.0 == st1.0);
    assert forall|x: u64| !st1.1.contains(x) implies keeps_geometry(st1.0, ps, n, x) by {
        if st1.0.contains(x) {
            let i = table_of(st0.0, x);
            assert(table_of(st1.0, x) == i);
            let orig = value_of(table(st0.0, i), x);
            lemma_placed(orig, last_placement(ps, n, x), ps[0]);
            lemma_last_placement(ps, n, x);
            assert(stored_geometry(st1.0, x) == stored_geometry(st0.0, x)) by {
                if last_placement(ps, n, x) is Some {
                    let q = last_placement(ps, n, x).unwrap();
                    let j = choose|j: int| 0 <= j < n && #[trigger] ps[j] == q;
                    assert(ps[j].0 == x);
                }
            }
        }
    }
    assert(st2.1 =~= st1.1);
}

/// A selected workspace at `k` means there is a lowest-numbered selected one.
proof fn lemma_first_exists(w: WorkspacesModel, k: int)
    requires
        0 <= k < w.workspaces.len(),
        w.current.contains(k as usize),
    ensures
        w.is_first_selected(w.first_selected()),
    decreases k,
{
    if forall|j: int| 0 <= j < k ==> !(#[trigger] w.current.contains(j as usize)) {
        assert(w.is_first_selected(k));
    } else {
        let j = choose|j: int| 0 <= j < k && #[trigger] w.current.contains(j as usize);
        lemma_first_exists(w, j);
    }
}

/// After a new client, the master stack of the workspace that took it is populated.
pub proof fn lemma_new_client_populates_master(m: ManagerModel, c: Client)
    requires
        has_selected(m.workspaces),
    ensures
        ({
            let i = m.workspaces.first_selected();
            &&& 0 <= i < m.workspaces.workspaces.len()
            &&& m.with_client(c).tiled().workspaces.workspaces[i].master.len() > 0
            &&& m.with_client(c).tiled().workspaces.workspaces[i].master.contains(c.id())
                || m.with_client(c).tiled().workspaces.workspaces[i].aux.contains(c.id())
        }),
{
    let w = m.workspaces;
    let k = choose|k: int| 0 <= k < w.workspaces.len() && #[trigger] w.current.contains(k as usize);
    lemma_first_exists(w, k);
    let i = w.first_selected();
    let ws = WorkspaceModel { master: w.workspaces[i].master, aux: w.workspaces[i].aux.push(c.id()) };
    assert(ws.aux[ws.aux.len() - 1] == c.id());
    if ws.master.len() == 0 {
        let r = refreshed_workspace(ws);
        if ws.aux.len() == 1 {
            assert(r.master[0] == c.id());
        } else {
            assert(r.aux[r.aux.len() - 1] == c.id());
        }
    }
}

/// Moving a selected index right and then left by the same amount gives it back (reduced
/// modulo the number of workspaces).
pub proof fn lemma_workspace_rotate_round_trip(i: usize, len: usize, n: usize)
    requires
        0 < len,
    ensures
        rotated_index_left(rotated_index_right(i, len, n), len, n) == i % len,
{
    let b = (i % len) as int;
    let a = (n % len) as int;
    assert(0 <= b < len && 0 <= a < len) by {
        vstd::arithmetic::div_mod::lemma_mod_bound(i as int, len as int);
        vstd::arithmetic::div_mod::lemma_mod_bound(n as int, len as int);
    }
    lemma_mod_small_sum(b + a, len as int);
    let r = rotated_index_right(i, len, n);
    assert(r as int == (b + a) % (len as int));
    vstd::arithmetic::div_mod::lemma_small_mod(r as nat, len as nat);
    lemma_mod_small_sum(r + len - a, len as int);
}

} // verus!
