//! Ordered checklist of tasks.
//!
//! A task's identifier does not depend on its position: deleting or moving
//! tasks never changes the identifiers of the others.
use vstd::prelude::*;

use crate::clock::Instant;
use vstd::std_specs::cmp::PartialEqSpecImpl;

verus! {

/// Stable identifier of a task.
#[derive(Clone, Copy, Debug, Eq, Hash, Ord, PartialEq, PartialOrd, Structural)]
pub struct TaskId(u64);

impl View for TaskId {
    type V = u64;

    /// The raw number of the identifier.
    closed spec fn view(&self) -> u64 {
        self.0
    }
}

/// The identifier with raw value `raw`.
pub closed spec fn id_from_raw(raw: u64) -> TaskId {
    TaskId(raw)
}

/// `id_from_raw` and the raw value of an identifier undo each other.
pub proof fn lemma_id_from_raw(raw: u64, id: TaskId)
    ensures
        id_from_raw(raw)@ == raw,
        id_from_raw(id@) == id,
{
}

impl TaskId {
    /// An identifier from a persisted raw value.
    pub fn from_raw(raw: u64) -> (r: TaskId)
        ensures
            r == id_from_raw(raw),
            r@ == raw,
    {
        TaskId(raw)
    }

    /// The raw value of the identifier.
    pub fn raw(self) -> (r: u64)
        ensures
            r == self@,
    {
        self.0
    }
}

/// Two identifiers are equal exactly when their raw values are.
pub proof fn lemma_task_id_view(a: TaskId, b: TaskId)
    ensures
        (a == b) <==> a@ == b@,
{
}

/// One entry of the checklist.
#[derive(Clone, Debug, Eq, PartialEq)]
pub struct Task {
    /// Stable identity, independent of the current order.
    pub id: TaskId,
    /// Text shown to the user.
    pub text: String,
    /// Whether the task was marked as done.
    pub completed: bool,
    /// Consecutive position in the list, starting at zero.
    pub position: usize,
    /// Creation time in seconds since the Unix epoch.
    pub created_at: u64,
}

/// Ordered collection of tasks.
#[derive(Clone, Debug, Eq)]
pub struct TaskList {
    tasks: Vec<Task>,
    /// The last identifier this list handed out; new ones lie above it.
    last_issued: u64,
}

impl TaskList {
    /// The last identifier this list handed out (zero before the first).
    pub closed spec fn issued_id(&self) -> u64 {
        self.last_issued
    }
}

impl View for TaskList {
    type V = Seq<Task>;

    /// The tasks in presentation order.
    closed spec fn view(&self) -> Seq<Task> {
        self.tasks@
    }
}

/// `a` and `b` agree in every field, the text compared by its characters.
pub open spec fn same_task(a: Task, b: Task) -> bool {
    &&& a.id == b.id
    &&& a.text@ == b.text@
    &&& a.completed == b.completed
    &&& a.position == b.position
    &&& a.created_at == b.created_at
}

/// `a` and `b` hold the same tasks in the same order.
pub open spec fn same_tasks(a: Seq<Task>, b: Seq<Task>) -> bool {
    &&& a.len() == b.len()
    &&& forall|i: int| 0 <= i < a.len() ==> #[trigger] same_task(a[i], b[i])
}

impl PartialEq for TaskList {
    /// Two lists are equal when they hold the same tasks in the same order;
    /// which identifiers each list has handed out does not count.
    fn eq(&self, other: &Self) -> (r: bool) {
        let n = self.tasks.len();
        if n != other.tasks.len() {
            return false;
        }
        let mut i: usize = 0;
        while i < n
            invariant
                n == self.tasks@.len(),
                n == other.tasks@.len(),
                i <= n,
                forall|j: int| 0 <= j < i ==> #[trigger] same_task(self.tasks@[j], other.tasks@[j]),
            decreases n - i,
        {
            let a = &self.tasks[i];
            let b = &other.tasks[i];
            let same = a.id == b.id && a.text == b.text && a.completed == b.completed
                && a.position == b.position && a.created_at == b.created_at;
            if !same {
                assert(!same_task(self.tasks@[i as int], other.tasks@[i as int]));
                assert(!same_tasks(self@, other@));
                return false;
            }
            i += 1;
        }
        true
    }
}

impl PartialEqSpecImpl for TaskList {
    open spec fn obeys_eq_spec() -> bool {
        true
    }

    open spec fn eq_spec(&self, other: &Self) -> bool {
        same_tasks(self@, other@)
    }
}

// ---------------------------------------------------------------------------
// Specification
// ---------------------------------------------------------------------------

/// `t` moved to position `p`.
pub open spec fn at_position(t: Task, p: int) -> Task {
    Task { position: p as usize, ..t }
}

/// Every task's position is its index.
pub open spec fn positions_normalized(s: Seq<Task>) -> bool {
    forall|i: int| 0 <= i < s.len() ==> #[trigger] s[i].position == i
}

/// The tasks of `s`, each given its index as position.
pub open spec fn renumbered(s: Seq<Task>) -> Seq<Task> {
    Seq::new(s.len(), |i: int| at_position(s[i], i))
}

/// Index of the first task of `s` with identifier `id`, or -1.
pub open spec fn index_of_id(s: Seq<Task>, id: TaskId) -> int
    decreases s.len(),
{
    if s.len() == 0 {
        -1
    } else {
        let earlier = index_of_id(s.drop_last(), id);
        if earlier >= 0 {
            earlier
        } else if s.last().id == id {
            s.len() - 1
        } else {
            -1
        }
    }
}

/// Whether some task of `s` has identifier `id`.
pub open spec fn has_id(s: Seq<Task>, id: TaskId) -> bool {
    exists|i: int| 0 <= i < s.len() && #[trigger] s[i].id == id
}

/// `t` inserted into `s` after the last task whose position does not exceed
/// that of `t`, scanning from the end.
pub open spec fn insert_by_position(s: Seq<Task>, t: Task) -> Seq<Task>
    decreases s.len(),
{
    if s.len() == 0 {
        seq![t]
    } else if t.position < s.last().position {
        insert_by_position(s.drop_last(), t).push(s.last())
    } else {
        s.push(t)
    }
}

/// `s` stably sorted by position: tasks with equal positions keep their order.
pub open spec fn sorted_by_position(s: Seq<Task>) -> Seq<Task>
    decreases s.len(),
{
    if s.len() == 0 {
        s
    } else {
        insert_by_position(sorted_by_position(s.drop_last()), s.last())
    }
}

/// Largest raw identifier in `s`, or zero for an empty list.
pub open spec fn max_id(s: Seq<Task>) -> nat
    decreases s.len(),
{
    if s.len() == 0 {
        0
    } else {
        let rest = max_id(s.drop_last());
        if s.last().id@ > rest {
            s.last().id@ as nat
        } else {
            rest
        }
    }
}

/// Raw value of the identifier given to a task created at `now`
/// (nanoseconds since the Unix epoch) in list `s` whose last handed-out
/// identifier is `issued`: the clock reading capped at `u64::MAX`, raised
/// when needed above `issued` and above every identifier in the list
/// (staying at `u64::MAX`).
pub open spec fn fresh_id(s: Seq<Task>, issued: u64, now: nat) -> nat {
    let clock = if now <= u64::MAX { now } else { u64::MAX as nat };
    let highest = if max_id(s) >= issued { max_id(s) } else { issued as nat };
    let after = if highest < u64::MAX { highest + 1 } else { u64::MAX as nat };
    if clock >= after {
        clock
    } else {
        after
    }
}

/// `new` is `old` (whose last handed-out identifier is `issued`) with a task
/// of text `text` and identifier `id`, created at `now`, placed first, and
/// every task renumbered.
pub open spec fn added_first(
    old: Seq<Task>,
    issued: u64,
    new: Seq<Task>,
    text: Seq<char>,
    id: TaskId,
    now: nat,
) -> bool {
    &&& new.len() == old.len() + 1
    &&& id@ == fresh_id(old, issued, now)
    &&& new[0].id == id
    &&& new[0].text@ == text
    &&& !new[0].completed
    &&& new[0].position == 0
    &&& new[0].created_at == now / 1_000_000_000
    &&& forall|j: int| 0 <= j < old.len() ==> #[trigger] new[j + 1] == at_position(old[j], j + 1)
}

/// `new` is `old` with the text of the first task with identifier `id`
/// replaced by `text`; unchanged when there is no such task.
pub open spec fn edited(old: Seq<Task>, new: Seq<Task>, id: TaskId, text: Seq<char>) -> bool {
    let i = index_of_id(old, id);
    if i < 0 {
        new == old
    } else {
        &&& new.len() == old.len()
        &&& forall|j: int| 0 <= j < old.len() && j != i ==> #[trigger] new[j] == old[j]
        &&& new[i] == (Task { text: new[i].text, ..old[i] })
        &&& new[i].text@ == text
    }
}

/// `s` with the completion of the first task with identifier `id` flipped.
pub open spec fn toggled(s: Seq<Task>, id: TaskId) -> Seq<Task> {
    let i = index_of_id(s, id);
    if i < 0 {
        s
    } else {
        s.update(i, Task { completed: !s[i].completed, ..s[i] })
    }
}

/// `s` without the first task with identifier `id`, renumbered.
pub open spec fn deleted(s: Seq<Task>, id: TaskId) -> Seq<Task> {
    let i = index_of_id(s, id);
    if i < 0 {
        s
    } else {
        renumbered(s.remove(i))
    }
}

/// `s` with the first task with identifier `id` moved to `new_position`
/// (or to the end when that lies beyond it), renumbered.
pub open spec fn reordered(s: Seq<Task>, id: TaskId, new_position: nat) -> Seq<Task> {
    let i = index_of_id(s, id);
    if i < 0 {
        s
    } else {
        let rest = s.remove(i);
        let destination = if new_position <= rest.len() { new_position as int } else { rest.len() as int };
        renumbered(rest.insert(destination, s[i]))
    }
}

/// The tasks of `s` that are not completed, in order.
pub open spec fn pending_tasks(s: Seq<Task>) -> Seq<Task> {
    s.filter(|t: Task| !t.completed)
}

/// Renumbering sets every position to its index and keeps the length.
pub proof fn lemma_renumbered_normalized(s: Seq<Task>)
    requires
        s.len() <= usize::MAX,
    ensures
        renumbered(s).len() == s.len(),
        positions_normalized(renumbered(s)),
{
}

/// `index_of_id` finds the first task with the identifier.
pub proof fn lemma_index_of_id(s: Seq<Task>, id: TaskId)
    ensures
        -1 <= index_of_id(s, id) < s.len(),
        index_of_id(s, id) >= 0 ==> s[index_of_id(s, id)].id == id,
        forall|j: int| 0 <= j < s.len() && (index_of_id(s, id) < 0 || j < index_of_id(s, id))
            ==> #[trigger] s[j].id != id,
        index_of_id(s, id) >= 0 <==> has_id(s, id),
    decreases s.len(),
{
    if s.len() > 0 {
        lemma_index_of_id(s.drop_last(), id);
        assert forall|j: int| 0 <= j < s.len() - 1 implies #[trigger] s[j] == s.drop_last()[j] by {}
        if index_of_id(s, id) >= 0 {
            assert(s[index_of_id(s, id)].id == id);
        }
    }
}

/// Inserting by position puts the task just after the backward scan stops.
proof fn lemma_insert_at_scan(s: Seq<Task>, t: Task, j: int)
    requires
        0 <= j <= s.len(),
        forall|m: int| j <= m < s.len() ==> #[trigger] s[m].position > t.position,
        j == 0 || s[j - 1].position <= t.position,
    ensures
        insert_by_position(s, t) == s.insert(j, t),
    decreases s.len(),
{
    if s.len() == 0 {
        assert(insert_by_position(s, t) =~= s.insert(j, t));
    } else if t.position < s.last().position {
        let d = s.drop_last();
        assert(j < s.len());
        assert forall|m: int| j <= m < d.len() implies #[trigger] d[m].position > t.position by {
            assert(d[m] == s[m]);
        }
        if j > 0 {
            assert(d[j - 1] == s[j - 1]);
        }
        lemma_insert_at_scan(d, t, j);
        assert(d.insert(j, t).push(s.last()) =~= s.insert(j, t));
    } else {
        assert(j == s.len());
        assert(s.push(t) =~= s.insert(j, t));
    }
}

// ---------------------------------------------------------------------------
// Operations
// ---------------------------------------------------------------------------

impl Default for TaskList {
    fn default() -> (r: TaskList)
        ensures
            r@ == Seq::<Task>::empty(),
            r.issued_id() == 0,
    {
        TaskList { tasks: Vec::new(), last_issued: 0 }
    }
}

impl TaskList {
    /// An empty checklist.
    pub fn new() -> (r: TaskList)
        ensures
            r@ == Seq::<Task>::empty(),
            r.issued_id() == 0,
    {
        TaskList { tasks: Vec::new(), last_issued: 0 }
    }

    /// A checklist from loaded tasks: they are stably sorted by position and
    /// then renumbered from zero.
    pub fn from_tasks(tasks: Vec<Task>) -> (r: TaskList)
        ensures
            r@ == renumbered(sorted_by_position(tasks@)),
            r.issued_id() == 0,
    {
        let ghost input = tasks@;
        let mut rest = tasks;
        let mut sorted: Vec<Task> = Vec::new();
        let ghost mut k: int = 0;
        while rest.len() > 0
            invariant
                0 <= k <= input.len(),
                rest@ == input.skip(k),
                sorted@ == sorted_by_position(input.take(k)),
            decreases rest.len(),
        {
            let t = rest.remove(0);
            let mut j = sorted.len();
            while j > 0 && sorted[j - 1].position > t.position
                invariant
                    j <= sorted.len(),
                    forall|m: int| j <= m < sorted.len() ==> #[trigger] sorted@[m].position
                        > t.position,
                decreases j,
            {
                j = j - 1;
            }
            proof {
                lemma_insert_at_scan(sorted@, t, j as int);
                assert(input.take(k + 1).drop_last() =~= input.take(k));
                assert(input.take(k + 1).last() == t);
                assert(input.skip(k + 1) =~= input.skip(k).remove(0));
                k = k + 1;
            }
            sorted.insert(j, t);
        }
        proof {
            assert(input.take(k) =~= input);
        }
        let mut list = TaskList { tasks: sorted, last_issued: 0 };
        list.normalize_positions();
        list
    }

    /// Number of tasks.
    pub fn len(&self) -> (r: usize)
        ensures
            r == self@.len(),
    {
        self.tasks.len()
    }

    /// Whether there are no tasks.
    pub fn is_empty(&self) -> (r: bool)
        ensures
            r == (self@.len() == 0),
    {
        self.tasks.len() == 0
    }

    /// The tasks in presentation order.
    pub fn as_slice(&self) -> (r: &[Task])
        ensures
            r@ == self@,
    {
        self.tasks.as_slice()
    }

    /// The tasks in presentation order.
    pub fn tasks(&self) -> (r: &[Task])
        ensures
            r@ == self@,
    {
        self.as_slice()
    }

    /// Gives up the collection and returns its tasks.
    pub fn into_tasks(self) -> (r: Vec<Task>)
        ensures
            r@ == self@,
    {
        self.tasks
    }

    /// Iterates over the tasks in presentation order.
    pub fn iter(&self) -> (r: std::slice::Iter<'_, Task>)
        ensures
            vstd::std_specs::iter::IteratorSpec::remaining(&r) == self@.as_ref(),
    {
        broadcast use vstd::std_specs::slice::axiom_spec_slice_iter;

        self.tasks.as_slice().iter()
    }

    fn find_index(&self, id: TaskId) -> (r: Option<usize>)
        ensures
            match r {
                Some(i) => i == index_of_id(self@, id),
                None => index_of_id(self@, id) < 0,
            },
    {
        proof {
            lemma_index_of_id(self@, id);
        }
        let n = self.tasks.len();
        let mut i: usize = 0;
        while i < n
            invariant
                n == self@.len(),
                i <= n,
                forall|j: int| 0 <= j < i ==> #[trigger] self@[j].id != id,
                -1 <= index_of_id(self@, id) < self@.len(),
                index_of_id(self@, id) >= 0 ==> self@[index_of_id(self@, id)].id == id,
                forall|j: int|
                    0 <= j < self@.len() && (index_of_id(self@, id) < 0 || j < index_of_id(
                        self@,
                        id,
                    )) ==> #[trigger] self@[j].id != id,
            decreases n - i,
        {
            if self.tasks[i].id == id {
                return Some(i);
            }
            i = i + 1;
        }
        None
    }

    /// The first task with identifier `id`.
    pub fn get(&self, id: TaskId) -> (r: Option<&Task>)
        ensures
            match r {
                Some(t) => index_of_id(self@, id) >= 0 && *t == self@[index_of_id(self@, id)],
                None => index_of_id(self@, id) < 0,
            },
    {
        proof {
            lemma_index_of_id(self@, id);
        }
        match self.find_index(id) {
            Some(i) => Some(&self.tasks[i]),
            None => None,
        }
    }

    /// The first task with identifier `id`, for changing it in place.
    pub fn get_mut(&mut self, id: TaskId) -> (r: Option<&mut Task>)
        ensures
            final(self).issued_id() == old(self).issued_id(),
            match r {
                Some(t) => {
                    &&& index_of_id(old(self)@, id) >= 0
                    &&& *t == old(self)@[index_of_id(old(self)@, id)]
                    &&& final(self)@ == old(self)@.update(index_of_id(old(self)@, id), *final(t))
                },
                None => index_of_id(old(self)@, id) < 0 && final(self)@ == old(self)@,
            },
    {
        proof {
            lemma_index_of_id(self@, id);
        }
        match self.find_index(id) {
            Some(i) => Some(&mut self.tasks[i]),
            None => None,
        }
    }

    /// Adds a task created at `now` in first place and returns its
    /// identifier, so that a new task is visible without scrolling.
    pub fn add_at(&mut self, text: &str, now: Instant) -> (r: TaskId)
        ensures
            added_first(old(self)@, old(self).issued_id(), final(self)@, text@, r, now@),
            positions_normalized(final(self)@),
            final(self).issued_id() == r@,
    {
        let since_epoch = now.since_unix_epoch();
        let nanos = since_epoch.as_nanos();
        let clock: u64 = if nanos <= u64::MAX as u128 { nanos as u64 } else { u64::MAX };
        let highest = self.max_raw_id();
        let highest = if highest >= self.last_issued { highest } else { self.last_issued };
        let after = highest.saturating_add(1);
        let raw = if clock >= after { clock } else { after };
        let id = TaskId(raw);
        let task = Task {
            id,
            text: String::from_str(text),
            completed: false,
            position: 0,
            created_at: since_epoch.as_secs(),
        };
        let ghost before = self@;
        self.tasks.insert(0, task);
        self.normalize_positions();
        self.last_issued = raw;
        proof {
            assert(self.tasks.len() == self.tasks@.len());
            lemma_renumbered_normalized(before.insert(0, task));
            assert forall|j: int| 0 <= j < before.len() implies #[trigger] self@[j + 1]
                == at_position(before[j], j + 1) by {}
        }
        id
    }

    /// Adds a task created now in first place and returns its identifier.
    pub fn add(&mut self, text: &str) -> (r: TaskId)
        ensures
            exists|now: Instant| #[trigger] added_first(old(self)@, old(self).issued_id(), final(self)@, text@, r, now@),
            positions_normalized(final(self)@),
            final(self).issued_id() == r@,
    {
        let now = Instant::now();
        self.add_at(text, now)
    }

    /// Same as [`TaskList::add`].
    pub fn add_task(&mut self, text: &str) -> (r: TaskId)
        ensures
            exists|now: Instant| #[trigger] added_first(old(self)@, old(self).issued_id(), final(self)@, text@, r, now@),
            positions_normalized(final(self)@),
            final(self).issued_id() == r@,
    {
        self.add(text)
    }

    /// Same as [`TaskList::edit`].
    pub fn edit_task(&mut self, id: TaskId, text: &str) -> (r: bool)
        ensures
            final(self).issued_id() == old(self).issued_id(),
            r == has_id(old(self)@, id),
            edited(old(self)@, final(self)@, id, text@),
    {
        self.edit(id, text)
    }

    /// Same as [`TaskList::toggle`].
    pub fn toggle_task(&mut self, id: TaskId) -> (r: Option<bool>)
        ensures
            final(self).issued_id() == old(self).issued_id(),
            final(self)@ == toggled(old(self)@, id),
            r == if index_of_id(old(self)@, id) < 0 {
                None
            } else {
                Some(!old(self)@[index_of_id(old(self)@, id)].completed)
            },
    {
        self.toggle(id)
    }

    /// Same as [`TaskList::delete`].
    pub fn delete_task(&mut self, id: TaskId) -> (r: bool)
        ensures
            final(self).issued_id() == old(self).issued_id(),
            r == has_id(old(self)@, id),
            final(self)@ == deleted(old(self)@, id),
    {
        self.delete(id)
    }

    fn max_raw_id(&self) -> (r: u64)
        ensures
            r == max_id(self@),
    {
        let n = self.tasks.len();
        let mut best: u64 = 0;
        let mut i: usize = 0;
        while i < n
            invariant
                n == self@.len(),
                i <= n,
                best == max_id(self@.take(i as int)),
            decreases n - i,
        {
            proof {
                assert(self@.take(i + 1).drop_last() =~= self@.take(i as int));
            }
            let raw = self.tasks[i].id.0;
            if raw > best {
                best = raw;
            }
            i = i + 1;
        }
        proof {
            assert(self@.take(n as int) =~= self@);
        }
        best
    }

    /// Replaces the text of a task; `false` when the identifier is unknown.
    pub fn edit(&mut self, id: TaskId, text: &str) -> (r: bool)
        ensures
            final(self).issued_id() == old(self).issued_id(),
            r == has_id(old(self)@, id),
            edited(old(self)@, final(self)@, id, text@),
    {
        proof {
            lemma_index_of_id(self@, id);
        }
        match self.find_index(id) {
            Some(i) => {
                self.tasks[i].text = String::from_str(text);
                true
            },
            None => false,
        }
    }

    /// Flips whether a task is completed and returns the new value; `None`
    /// when the identifier is unknown.
    pub fn toggle(&mut self, id: TaskId) -> (r: Option<bool>)
        ensures
            final(self).issued_id() == old(self).issued_id(),
            final(self)@ == toggled(old(self)@, id),
            r == if index_of_id(old(self)@, id) < 0 {
                None
            } else {
                Some(!old(self)@[index_of_id(old(self)@, id)].completed)
            },
    {
        proof {
            lemma_index_of_id(self@, id);
        }
        match self.find_index(id) {
            Some(i) => {
                let completed = !self.tasks[i].completed;
                self.tasks[i].completed = completed;
                Some(completed)
            },
            None => None,
        }
    }

    /// Removes a task; `false` when the identifier is unknown.
    pub fn delete(&mut self, id: TaskId) -> (r: bool)
        ensures
            final(self).issued_id() == old(self).issued_id(),
            r == has_id(old(self)@, id),
            final(self)@ == deleted(old(self)@, id),
    {
        proof {
            lemma_index_of_id(self@, id);
        }
        match self.find_index(id) {
            Some(i) => {
                self.tasks.remove(i);
                self.normalize_positions();
                true
            },
            None => false,
        }
    }

    /// Moves a task to `new_position`, keeping the order of the others; a
    /// position beyond the end moves it to the end.  `false` when the
    /// identifier is unknown.
    pub fn reorder(&mut self, id: TaskId, new_position: usize) -> (r: bool)
        ensures
            final(self).issued_id() == old(self).issued_id(),
            r == has_id(old(self)@, id),
            final(self)@ == reordered(old(self)@, id, new_position as nat),
    {
        proof {
            lemma_index_of_id(self@, id);
        }
        match self.find_index(id) {
            Some(old_position) => {
                let task = self.tasks.remove(old_position);
                let len = self.tasks.len();
                let destination = if new_position <= len { new_position } else { len };
                self.tasks.insert(destination, task);
                self.normalize_positions();
                true
            },
            None => false,
        }
    }

    /// Removes the completed tasks and returns how many were removed.
    pub fn clear_completed(&mut self) -> (r: usize)
        ensures
            final(self).issued_id() == old(self).issued_id(),
            final(self)@ == renumbered(pending_tasks(old(self)@)),
            r == old(self)@.len() - final(self)@.len(),
    {
        let ghost orig = self.tasks@;
        let mut rest: Vec<Task> = Vec::new();
        std::mem::swap(&mut rest, &mut self.tasks);
        let before = rest.len();
        let mut kept: Vec<Task> = Vec::new();
        let ghost mut k: int = 0;
        while rest.len() > 0
            invariant
                0 <= k <= orig.len(),
                before == orig.len(),
                rest@ == orig.skip(k),
                kept@ == pending_tasks(orig.take(k)),
                kept@.len() <= k,
            decreases rest.len(),
        {
            let t = rest.remove(0);
            proof {
                reveal(Seq::filter);
                assert(orig.take(k + 1).drop_last() =~= orig.take(k));
                assert(orig.take(k + 1).last() == t);
                assert(orig.skip(k + 1) =~= orig.skip(k).remove(0));
            }
            if !t.completed {
                kept.push(t);
            }
            proof {
                k = k + 1;
            }
        }
        proof {
            assert(orig.take(k) =~= orig);
        }
        self.tasks = kept;
        self.normalize_positions();
        before - self.tasks.len()
    }

    fn normalize_positions(&mut self)
        ensures
            final(self).issued_id() == old(self).issued_id(),
            final(self)@ == renumbered(old(self)@),
    {
        let ghost orig = self.tasks@;
        let ghost issued = self.last_issued;
        let n = self.tasks.len();
        let mut i: usize = 0;
        while i < n
            invariant
                self.last_issued == issued,
                n == orig.len(),
                self.tasks@.len() == n,
                i <= n,
                forall|j: int| 0 <= j < i ==> #[trigger] self.tasks@[j] == at_position(orig[j], j),
                forall|j: int| i <= j < n ==> #[trigger] self.tasks@[j] == orig[j],
            decreases n - i,
        {
            self.tasks[i].position = i;
            i = i + 1;
        }
        proof {
            assert(self.tasks@ =~= renumbered(orig));
        }
    }
}

// ---------------------------------------------------------------------------
// Laws of the checklist
// ---------------------------------------------------------------------------

/// The tasks of `s` whose position is `key`, in order.
pub open spec fn tasks_at(s: Seq<Task>, key: usize) -> Seq<Task> {
    s.filter(|t: Task| t.position == key)
}

/// Positions never decrease along `s`.
pub open spec fn ordered_by_position(s: Seq<Task>) -> bool {
    forall|i: int, j: int| 0 <= i <= j < s.len() ==> #[trigger] s[i].position <= #[trigger] s[j].position
}

/// No two tasks of `s` share an identifier.
pub open spec fn ids_distinct(s: Seq<Task>) -> bool {
    forall|i: int, j: int| 0 <= i < s.len() && 0 <= j < s.len() && i != j ==> #[trigger] s[i].id != #[trigger] s[j].id
}

/// The first index of an identifier depends only on the identifiers.
proof fn lemma_index_of_id_by_ids(s: Seq<Task>, t: Seq<Task>, id: TaskId)
    requires
        s.len() == t.len(),
        forall|i: int| 0 <= i < s.len() ==> #[trigger] s[i].id == t[i].id,
    ensures
        index_of_id(s, id) == index_of_id(t, id),
    decreases s.len(),
{
    if s.len() > 0 {
        lemma_index_of_id_by_ids(s.drop_last(), t.drop_last(), id);
        assert(s.last().id == t[t.len() - 1].id);
    }
}

/// `max_id` bounds every identifier of the list.
proof fn lemma_max_id(s: Seq<Task>)
    ensures
        max_id(s) <= u64::MAX,
        forall|i: int| 0 <= i < s.len() ==> #[trigger] s[i].id@ <= max_id(s),
    decreases s.len(),
{
    if s.len() > 0 {
        lemma_max_id(s.drop_last());
        assert forall|i: int| 0 <= i < s.len() implies #[trigger] s[i].id@ <= max_id(s) by {
            if i < s.len() - 1 {
                assert(s[i] == s.drop_last()[i]);
            }
        }
    }
}

/// The largest position after inserting `t` into an ordered `s`.
spec fn insertion_bound(s: Seq<Task>, t: Task) -> usize {
    if s.len() == 0 || s.last().position <= t.position {
        t.position
    } else {
        s.last().position
    }
}

/// Inserting by position into an ordered list keeps it ordered and bounds
/// its positions by the larger of the new task's and the former last one's.
proof fn lemma_insert_keeps_order(s: Seq<Task>, t: Task)
    requires
        ordered_by_position(s),
    ensures
        insert_by_position(s, t).len() == s.len() + 1,
        ordered_by_position(insert_by_position(s, t)),
        forall|k: int|
            0 <= k < s.len() + 1 ==> #[trigger] insert_by_position(s, t)[k].position
                <= insertion_bound(s, t),
    decreases s.len(),
{
    if s.len() > 0 && t.position < s.last().position {
        let d = s.drop_last();
        assert(ordered_by_position(d)) by {
            assert forall|i: int, j: int| 0 <= i <= j < d.len() implies #[trigger] d[i].position
                <= #[trigger] d[j].position by {
                assert(d[i] == s[i] && d[j] == s[j]);
            }
        }
        lemma_insert_keeps_order(d, t);
        if d.len() > 0 {
            assert(d.last() == s[s.len() - 2]);
        }
    }
}

/// Adding `t` by position adds it to the tasks that share its position,
/// after them, and leaves the other positions' tasks as they were.
proof fn lemma_insert_tasks_at(s: Seq<Task>, t: Task, key: usize)
    ensures
        tasks_at(insert_by_position(s, t), key) == if t.position == key {
            tasks_at(s, key).push(t)
        } else {
            tasks_at(s, key)
        },
    decreases s.len(),
{
    reveal(Seq::filter);
    if s.len() == 0 {
        assert(insert_by_position(s, t).drop_last() =~= s);
    } else if t.position < s.last().position {
        let d = s.drop_last();
        lemma_insert_tasks_at(d, t, key);
        let r = insert_by_position(d, t);
        assert(r.push(s.last()).drop_last() =~= r);
        assert(s =~= d.push(s.last()));
        if t.position == key {
            assert(tasks_at(s, key) =~= tasks_at(d, key));
        }
    } else {
        assert(s.push(t).drop_last() =~= s);
    }
}

/// Stable sorting by position: the result has the same length, its positions
/// never decrease, and for every position it holds exactly the input's tasks
/// of that position in their input order.
pub proof fn lemma_sorted_by_position(s: Seq<Task>, key: usize)
    ensures
        sorted_by_position(s).len() == s.len(),
        ordered_by_position(sorted_by_position(s)),
        tasks_at(sorted_by_position(s), key) == tasks_at(s, key),
    decreases s.len(),
{
    if s.len() > 0 {
        let d = s.drop_last();
        lemma_sorted_by_position(d, key);
        lemma_insert_keeps_order(sorted_by_position(d), s.last());
        lemma_insert_tasks_at(sorted_by_position(d), s.last(), key);
        reveal(Seq::filter);
        assert(s.drop_last() == d);
    }
}

/// Every operation that renumbers leaves each task's position equal to its
/// index, and so does loading.
pub proof fn lemma_operations_normalize(s: Seq<Task>, id: TaskId, new_position: nat)
    requires
        s.len() <= usize::MAX,
    ensures
        positions_normalized(renumbered(sorted_by_position(s))),
        has_id(s, id) ==> positions_normalized(deleted(s, id)),
        has_id(s, id) ==> positions_normalized(reordered(s, id, new_position)),
        positions_normalized(renumbered(pending_tasks(s))),
{
    lemma_sorted_by_position(s, 0);
    lemma_renumbered_normalized(sorted_by_position(s));
    lemma_index_of_id(s, id);
    if has_id(s, id) {
        let i = index_of_id(s, id);
        lemma_renumbered_normalized(s.remove(i));
        let rest = s.remove(i);
        let destination = if new_position <= rest.len() { new_position as int } else { rest.len() as int };
        lemma_renumbered_normalized(rest.insert(destination, s[i]));
    }
    s.lemma_filter_len(|t: Task| !t.completed);
    lemma_renumbered_normalized(pending_tasks(s));
}

/// A list whose positions are its indices is already sorted, and loading it
/// (sorting and renumbering) gives it back unchanged.
pub proof fn lemma_numbered_list_loads_unchanged(s: Seq<Task>)
    requires
        positions_normalized(s),
    ensures
        sorted_by_position(s) == s,
        renumbered(sorted_by_position(s)) == s,
    decreases s.len(),
{
    if s.len() > 0 {
        let d = s.drop_last();
        assert(positions_normalized(d)) by {
            assert forall|i: int| 0 <= i < d.len() implies #[trigger] d[i].position == i by {
                assert(d[i] == s[i]);
            }
        }
        lemma_numbered_list_loads_unchanged(d);
        if d.len() > 0 {
            assert(d.last() == s[s.len() - 2]);
        }
        assert(d.push(s.last()) =~= s);
    }
    assert forall|k: int| 0 <= k < s.len() implies #[trigger] renumbered(s)[k] == s[k] by {
        assert(s[k].position == k);
    }
    assert(renumbered(s) =~= s);
}

/// Toggling a task twice gives back the list it started from.
pub proof fn lemma_toggle_twice_restores(s: Seq<Task>, id: TaskId)
    ensures
        toggled(toggled(s, id), id) == s,
{
    lemma_index_of_id(s, id);
    let t = toggled(s, id);
    assert forall|i: int| 0 <= i < s.len() implies #[trigger] s[i].id == t[i].id by {}
    lemma_index_of_id_by_ids(s, t, id);
    if index_of_id(s, id) >= 0 {
        assert(toggled(t, id) =~= s);
    }
}

/// A task that is added gets an identifier above every identifier the list
/// handed out before and that no task of the list had (unless the largest
/// possible identifier was already reached), and it is the task then found
/// first under that identifier.
pub proof fn lemma_added_task_is_found(
    old: Seq<Task>,
    issued: u64,
    new: Seq<Task>,
    text: Seq<char>,
    id: TaskId,
    now: nat,
)
    requires
        added_first(old, issued, new, text, id, now),
        max_id(old) < u64::MAX,
        issued < u64::MAX,
    ensures
        id@ > issued,
        !has_id(old, id),
        index_of_id(new, id) == 0,
{
    lemma_max_id(old);
    lemma_index_of_id(new, id);
    assert forall|i: int| 0 <= i < old.len() implies #[trigger] old[i].id != id by {
        lemma_task_id_view(old[i].id, id);
    }
}

/// Deleting removes the task with that identifier when identifiers are
/// distinct, and keeps the identifiers of all other tasks in order.
pub proof fn lemma_delete_removes(s: Seq<Task>, id: TaskId)
    requires
        has_id(s, id),
        ids_distinct(s),
    ensures
        deleted(s, id).len() == s.len() - 1,
        !has_id(deleted(s, id), id),
        forall|j: int| 0 <= j < s.len() - 1 ==> #[trigger] deleted(s, id)[j].id == s.remove(index_of_id(s, id))[j].id,
{
    lemma_index_of_id(s, id);
    let i = index_of_id(s, id);
    let d = deleted(s, id);
    assert forall|j: int| 0 <= j < d.len() implies #[trigger] d[j].id != id by {
        if j < i {
            assert(d[j].id == s[j].id);
        } else {
            assert(d[j].id == s[j + 1].id);
        }
    }
}

/// Moving a task to the place it already holds changes nothing in a
/// numbered list.
pub proof fn lemma_reorder_in_place(s: Seq<Task>, id: TaskId)
    requires
        positions_normalized(s),
        has_id(s, id),
    ensures
        reordered(s, id, index_of_id(s, id) as nat) == s,
{
    lemma_index_of_id(s, id);
    let i = index_of_id(s, id);
    assert(s.remove(i).insert(i, s[i]) =~= s);
    assert forall|k: int| 0 <= k < s.len() implies #[trigger] renumbered(s)[k] == s[k] by {
        assert(s[k].position == k);
    }
    assert(renumbered(s) =~= s);
}

/// Moving a task places it at the requested position (or last), and the
/// tasks it passes keep their relative order.
pub proof fn lemma_reorder_places_task(s: Seq<Task>, id: TaskId, new_position: nat)
    requires
        has_id(s, id),
    ensures
        ({
            let i = index_of_id(s, id);
            let d = if new_position < s.len() { new_position as int } else { s.len() - 1 };
            let r = reordered(s, id, new_position);
            &&& r.len() == s.len()
            &&& r[d] == at_position(s[i], d)
            &&& forall|j: int|
                0 <= j < s.len() - 1 ==> #[trigger] r.remove(d)[j].id == s.remove(i)[j].id
        }),
{
    lemma_index_of_id(s, id);
}

/// `i` is the index of the first task of `s` with identifier `id`.
proof fn lemma_first_index(s: Seq<Task>, id: TaskId, i: int)
    requires
        0 <= i < s.len(),
        s[i].id == id,
        forall|k: int| 0 <= k < i ==> #[trigger] s[k].id != id,
    ensures
        index_of_id(s, id) == i,
{
    lemma_index_of_id(s, id);
    assert(has_id(s, id));
    let f = index_of_id(s, id);
    if f < i {
        assert(s[f].id != id);
    } else if f > i {
        assert(s[i].id != id);
    }
}

/// Toggling a task flips its completion mark and nothing else: the first
/// task with the identifier keeps its identifier, text, position and
/// creation time, and every other task of the list is left as it was.
pub proof fn lemma_toggle_changes_only_that_task(s: Seq<Task>, id: TaskId, i: int)
    requires
        0 <= i < s.len(),
        s[i].id == id,
        forall|k: int| 0 <= k < i ==> #[trigger] s[k].id != id,
    ensures
        toggled(s, id).len() == s.len(),
        toggled(s, id)[i].completed == !s[i].completed,
        toggled(s, id)[i].id == s[i].id,
        toggled(s, id)[i].text == s[i].text,
        toggled(s, id)[i].position == s[i].position,
        toggled(s, id)[i].created_at == s[i].created_at,
        forall|j: int| 0 <= j < s.len() && j != i ==> #[trigger] toggled(s, id)[j] == s[j],
{
    lemma_first_index(s, id, i);
}

/// Editing a task replaces its text and nothing else: the first task with
/// the identifier gets the new text and keeps its identifier, completion
/// mark, position and creation time, and every other task of the list is
/// left as it was.
pub proof fn lemma_edit_replaces_only_the_text(
    old: Seq<Task>,
    new: Seq<Task>,
    id: TaskId,
    text: Seq<char>,
    i: int,
)
    requires
        edited(old, new, id, text),
        0 <= i < old.len(),
        old[i].id == id,
        forall|k: int| 0 <= k < i ==> #[trigger] old[k].id != id,
    ensures
        new.len() == old.len(),
        new[i].text@ == text,
        new[i].id == old[i].id,
        new[i].completed == old[i].completed,
        new[i].position == old[i].position,
        new[i].created_at == old[i].created_at,
        forall|j: int| 0 <= j < old.len() && j != i ==> #[trigger] new[j] == old[j],
{
    lemma_first_index(old, id, i);
}

/// Deleting a task removes exactly that task: the tasks before it stay
/// where they were, the tasks after it move up by one, and each remaining
/// task keeps its identifier, text, completion mark and creation time, its
/// position becoming its new index.
pub proof fn lemma_delete_removes_exactly_that_task(s: Seq<Task>, id: TaskId, i: int)
    requires
        s.len() <= usize::MAX,
        0 <= i < s.len(),
        s[i].id == id,
        forall|k: int| 0 <= k < i ==> #[trigger] s[k].id != id,
    ensures
        deleted(s, id).len() == s.len() - 1,
        forall|j: int| 0 <= j < s.len() - 1 ==> {
            let t = #[trigger] deleted(s, id)[j];
            let o = if j < i { s[j] } else { s[j + 1] };
            &&& t.id == o.id
            &&& t.text == o.text
            &&& t.completed == o.completed
            &&& t.created_at == o.created_at
            &&& t.position == j
        },
{
    lemma_first_index(s, id, i);
}

/// A list without the identifier is left unchanged by toggling, editing
/// and deleting.
pub proof fn lemma_absent_id_changes_nothing(s: Seq<Task>, id: TaskId)
    requires
        forall|k: int| 0 <= k < s.len() ==> #[trigger] s[k].id != id,
    ensures
        toggled(s, id) == s,
        deleted(s, id) == s,
        forall|new: Seq<Task>, text: Seq<char>| #[trigger] edited(s, new, id, text) ==> new == s,
{
    lemma_index_of_id(s, id);
    if index_of_id(s, id) >= 0 {
        assert(s[index_of_id(s, id)].id == id);
    }
}

/// Clearing completed tasks keeps exactly the pending ones: every task left
/// is a pending task of the list, unchanged but for its position, which is
/// its index, and every pending task of the list is still there.
pub proof fn lemma_clear_completed_keeps_the_pending_tasks(s: Seq<Task>)
    requires
        s.len() <= usize::MAX,
    ensures
        ({
            let r = renumbered(pending_tasks(s));
            &&& r.len() <= s.len()
            &&& forall|j: int| 0 <= j < r.len() ==> {
                &&& (#[trigger] r[j]).position == j
                &&& !r[j].completed
                &&& exists|k: int| 0 <= k < s.len() && #[trigger] s[k] == (Task { position: s[k].position, ..r[j] })
            }
            &&& forall|k: int| 0 <= k < s.len() && !(#[trigger] s[k]).completed ==> exists|j: int|
                0 <= j < r.len() && #[trigger] r[j] == (Task { position: j as usize, ..s[k] })
        }),
{
    let pred = |t: Task| !t.completed;
    let p = s.filter(pred);
    let r = renumbered(p);
    s.lemma_filter_len(pred);
    assert forall|j: int| 0 <= j < r.len() implies {
        &&& (#[trigger] r[j]).position == j
        &&& !r[j].completed
        &&& exists|k: int| 0 <= k < s.len() && #[trigger] s[k] == (Task { position: s[k].position, ..r[j] })
    } by {
        s.lemma_filter_pred(pred, j);
        assert(p.contains(p[j]));
        s.lemma_filter_contains_rev(pred, p[j]);
        let k = choose|k: int| 0 <= k < s.len() && s[k] == p[j];
        assert(s[k] == (Task { position: s[k].position, ..r[j] }));
    }
    assert forall|k: int| 0 <= k < s.len() && !(#[trigger] s[k]).completed implies exists|j: int|
        0 <= j < r.len() && #[trigger] r[j] == (Task { position: j as usize, ..s[k] }) by {
        s.lemma_filter_contains(pred, k);
        let j = choose|j: int| 0 <= j < p.len() && p[j] == s[k];
        assert(r[j] == (Task { position: j as usize, ..s[k] }));
    }
}

/// After clearing completed tasks none is left, and clearing again removes
/// nothing.
pub proof fn lemma_clear_completed(s: Seq<Task>)
    ensures
        forall|j: int| 0 <= j < renumbered(pending_tasks(s)).len() ==> !(#[trigger] renumbered(pending_tasks(s))[j]).completed,
        pending_tasks(renumbered(pending_tasks(s))).len() == pending_tasks(s).len(),
{
    let p = pending_tasks(s);
    assert forall|j: int| 0 <= j < p.len() implies !(#[trigger] p[j]).completed by {
        s.lemma_filter_pred(|t: Task| !t.completed, j);
    }
    lemma_all_pending(renumbered(p));
}

/// Filtering a list of pending tasks keeps all of them.
proof fn lemma_all_pending(s: Seq<Task>)
    requires
        forall|j: int| 0 <= j < s.len() ==> !(#[trigger] s[j]).completed,
    ensures
        pending_tasks(s) == s,
    decreases s.len(),
{
    reveal(Seq::filter);
    if s.len() > 0 {
        let d = s.drop_last();
        assert forall|j: int| 0 <= j < d.len() implies !(#[trigger] d[j]).completed by {
            assert(d[j] == s[j]);
        }
        lemma_all_pending(d);
        assert(d.push(s.last()) =~= s);
    }
}

/// Removing a task keeps identifiers distinct.
proof fn lemma_remove_keeps_distinct(s: Seq<Task>, i: int)
    requires
        ids_distinct(s),
        0 <= i < s.len(),
    ensures
        ids_distinct(s.remove(i)),
        !has_id(s.remove(i), s[i].id),
{
    let r = s.remove(i);
    assert forall|a: int, b: int| 0 <= a < r.len() && 0 <= b < r.len() && a != b implies #[trigger] r[a].id
        != #[trigger] r[b].id by {
        let oa = if a < i { a } else { a + 1 };
        let ob = if b < i { b } else { b + 1 };
        assert(r[a] == s[oa] && r[b] == s[ob]);
    }
    assert forall|a: int| 0 <= a < r.len() implies #[trigger] r[a].id != s[i].id by {
        let oa = if a < i { a } else { a + 1 };
        assert(r[a] == s[oa]);
    }
}

/// Inserting a task with a new identifier keeps identifiers distinct.
proof fn lemma_insert_keeps_distinct(s: Seq<Task>, d: int, t: Task)
    requires
        ids_distinct(s),
        !has_id(s, t.id),
        0 <= d <= s.len(),
    ensures
        ids_distinct(s.insert(d, t)),
{
    let r = s.insert(d, t);
    assert forall|a: int, b: int| 0 <= a < r.len() && 0 <= b < r.len() && a != b implies #[trigger] r[a].id
        != #[trigger] r[b].id by {
        if a != d && b != d {
            let oa = if a < d { a } else { a - 1 };
            let ob = if b < d { b } else { b - 1 };
            assert(r[a] == s[oa] && r[b] == s[ob]);
        } else if a == d {
            let ob = if b < d { b } else { b - 1 };
            assert(r[b] == s[ob]);
        } else {
            let oa = if a < d { a } else { a - 1 };
            assert(r[a] == s[oa]);
        }
    }
}

/// Renumbering does not touch identifiers.
proof fn lemma_renumbered_ids(s: Seq<Task>)
    ensures
        renumbered(s).len() == s.len(),
        forall|k: int| 0 <= k < s.len() ==> #[trigger] renumbered(s)[k].id == s[k].id,
        ids_distinct(s) ==> ids_distinct(renumbered(s)),
{
    let r = renumbered(s);
    assert forall|a: int, b: int| ids_distinct(s) && 0 <= a < r.len() && 0 <= b < r.len() && a != b
        implies #[trigger] r[a].id != #[trigger] r[b].id by {
        assert(r[a].id == s[a].id && r[b].id == s[b].id);
    }
}

/// The pending tasks of a list with distinct identifiers have distinct
/// identifiers, all of them taken from the list.
proof fn lemma_pending_keeps_distinct(s: Seq<Task>)
    requires
        ids_distinct(s),
    ensures
        ids_distinct(pending_tasks(s)),
        forall|k: int| 0 <= k < pending_tasks(s).len() ==> has_id(s, #[trigger] pending_tasks(s)[k].id),
    decreases s.len(),
{
    reveal(Seq::filter);
    if s.len() > 0 {
        let d = s.drop_last();
        assert(ids_distinct(d)) by {
            assert forall|a: int, b: int| 0 <= a < d.len() && 0 <= b < d.len() && a != b implies #[trigger] d[a].id
                != #[trigger] d[b].id by {
                assert(d[a] == s[a] && d[b] == s[b]);
            }
        }
        lemma_pending_keeps_distinct(d);
        let pd = pending_tasks(d);
        let p = pending_tasks(s);
        assert forall|k: int| 0 <= k < pd.len() implies has_id(s, #[trigger] pd[k].id) by {
            let j = choose|j: int| 0 <= j < d.len() && #[trigger] d[j].id == pd[k].id;
            assert(s[j] == d[j]);
        }
        assert forall|k: int| 0 <= k < pd.len() implies #[trigger] pd[k].id != s.last().id by {
            let j = choose|j: int| 0 <= j < d.len() && #[trigger] d[j].id == pd[k].id;
            assert(s[j] == d[j]);
            assert(s[j].id != s[s.len() - 1].id);
        }
        if !s.last().completed {
            assert(p == pd.push(s.last()));
            assert forall|k: int| 0 <= k < p.len() implies has_id(s, #[trigger] p[k].id) by {
                if k < pd.len() {
                    assert(p[k] == pd[k]);
                } else {
                    assert(p[k] == s[s.len() - 1]);
                }
            }
            assert forall|a: int, b: int| 0 <= a < p.len() && 0 <= b < p.len() && a != b implies #[trigger] p[a].id
                != #[trigger] p[b].id by {
                if a < pd.len() && b < pd.len() {
                    assert(p[a] == pd[a] && p[b] == pd[b]);
                } else if a < pd.len() {
                    assert(p[a] == pd[a]);
                } else {
                    assert(p[b] == pd[b]);
                }
            }
        } else {
            assert(p == pd);
        }
    }
}

/// Every operation keeps the identifiers of the list distinct; adding does
/// so as long as the largest identifier was not reached.
pub proof fn lemma_operations_keep_ids_distinct(
    s: Seq<Task>,
    id: TaskId,
    new_position: nat,
    added: Seq<Task>,
    issued: u64,
    text: Seq<char>,
    new_id: TaskId,
    now: nat,
)
    requires
        ids_distinct(s),
    ensures
        ids_distinct(toggled(s, id)),
        ids_distinct(deleted(s, id)),
        ids_distinct(reordered(s, id, new_position)),
        ids_distinct(renumbered(pending_tasks(s))),
        added_first(s, issued, added, text, new_id, now) && max_id(s) < u64::MAX && issued < u64::MAX
            ==> ids_distinct(added),
{
    lemma_index_of_id(s, id);
    let i = index_of_id(s, id);
    if i >= 0 {
        let t = toggled(s, id);
        assert forall|a: int, b: int| 0 <= a < t.len() && 0 <= b < t.len() && a != b implies #[trigger] t[a].id
            != #[trigger] t[b].id by {
            assert(t[a].id == s[a].id && t[b].id == s[b].id);
        }
        lemma_remove_keeps_distinct(s, i);
        lemma_renumbered_ids(s.remove(i));
        let rest = s.remove(i);
        let destination = if new_position <= rest.len() { new_position as int } else { rest.len() as int };
        lemma_insert_keeps_distinct(rest, destination, s[i]);
        lemma_renumbered_ids(rest.insert(destination, s[i]));
    }
    lemma_pending_keeps_distinct(s);
    lemma_renumbered_ids(pending_tasks(s));
    if added_first(s, issued, added, text, new_id, now) && max_id(s) < u64::MAX && issued < u64::MAX {
        lemma_added_task_is_found(s, issued, added, text, new_id, now);
        assert forall|a: int, b: int| 0 <= a < added.len() && 0 <= b < added.len() && a != b implies #[trigger] added[a].id
            != #[trigger] added[b].id by {
            let ja = a - 1;
            let jb = b - 1;
            if a > 0 && b > 0 {
                assert(added[ja + 1] == at_position(s[ja], ja + 1));
                assert(added[jb + 1] == at_position(s[jb], jb + 1));
            } else if a == 0 {
                assert(added[jb + 1] == at_position(s[jb], jb + 1));
            } else {
                assert(added[ja + 1] == at_position(s[ja], ja + 1));
            }
        }
    }
}

} // verus!
