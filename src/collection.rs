use vstd::prelude::*;
use vstd::set_lib::{lemma_int_range, lemma_len_subset, set_int_range};
use crate::status::Status;
use crate::task::Task;
use crate::timestamp::{now, Timestamp};

verus! {

/// No task of `s` carries `id`.
pub open spec fn id_free(s: Seq<Task>, id: int) -> bool {
    forall|k: int| 0 <= k < s.len() ==> s[k].id != id
}

/// `n` is the smallest positive integer that no task of `s` carries.
pub open spec fn is_least_free_id(s: Seq<Task>, n: int) -> bool {
    &&& n >= 1
    &&& id_free(s, n)
    &&& forall|k: int| 1 <= k < n ==> !id_free(s, k)
}

/// The tasks of `s` whose name is not `name`, in order.
pub open spec fn without_name(s: Seq<Task>, name: Seq<char>) -> Seq<Task> {
    s.filter(|t: Task| t.name@ != name)
}

/// The tasks of `s` whose name is `name`, in order.
pub open spec fn with_name(s: Seq<Task>, name: Seq<char>) -> Seq<Task> {
    s.filter(|t: Task| t.name@ == name)
}

/// The tasks of `s` whose id is not `id`, in order.
pub open spec fn without_id(s: Seq<Task>, id: usize) -> Seq<Task> {
    s.filter(|t: Task| t.id != id)
}

/// Some task of `s` is named `name`.
pub open spec fn any_named(s: Seq<Task>, name: Seq<char>) -> bool {
    exists|i: int| 0 <= i < s.len() && s[i].name@ == name
}

/// Some task of `s` carries `id`.
pub open spec fn any_with_id(s: Seq<Task>, id: usize) -> bool {
    exists|i: int| 0 <= i < s.len() && s[i].id == id
}

/// `i` is the lowest index of a task of `s` named `name`.
pub open spec fn is_first_named(s: Seq<Task>, name: Seq<char>, i: int) -> bool {
    &&& 0 <= i < s.len()
    &&& s[i].name@ == name
    &&& forall|j: int| 0 <= j < i ==> s[j].name@ != name
}

/// `i` is the lowest index of a task of `s` that carries `id`.
pub open spec fn is_first_with_id(s: Seq<Task>, id: usize, i: int) -> bool {
    &&& 0 <= i < s.len()
    &&& s[i].id == id
    &&& forall|j: int| 0 <= j < i ==> s[j].id != id
}

/// The lowest index of a task named `name` (meaningful where `any_named` holds).
pub open spec fn first_named(s: Seq<Task>, name: Seq<char>) -> int {
    choose|i: int| is_first_named(s, name, i)
}

/// The lowest index of a task with `id` (meaningful where `any_with_id` holds).
pub open spec fn first_with_id(s: Seq<Task>, id: usize) -> int {
    choose|i: int| is_first_with_id(s, id, i)
}

/// `s` without its first task named `name`; `s` itself where none is.
pub open spec fn without_first_named(s: Seq<Task>, name: Seq<char>) -> Seq<Task> {
    if any_named(s, name) {
        s.remove(first_named(s, name))
    } else {
        s
    }
}

/// The task with a new status, changed at `at`.
pub open spec fn restamped(t: Task, status: Status, at: Timestamp) -> Task {
    Task { status: status, updated_at: at, ..t }
}

/// The task renamed at `at`.
pub open spec fn renamed(t: Task, name: String, at: Timestamp) -> Task {
    Task { name: name, updated_at: at, ..t }
}

/// The task with a new description, set at `at`.
pub open spec fn redescribed(t: Task, description: String, at: Timestamp) -> Task {
    Task { description: description, updated_at: at, ..t }
}

/// Every task named `name` gets `status` at `at`; the others stay as they are.
pub open spec fn status_set_named(s: Seq<Task>, name: Seq<char>, status: Status, at: Timestamp) -> Seq<
    Task,
> {
    s.map_values(|t: Task| if t.name@ == name { restamped(t, status, at) } else { t })
}

/// Every task with `id` gets `status` at `at`; the others stay as they are.
pub open spec fn status_set_id(s: Seq<Task>, id: usize, status: Status, at: Timestamp) -> Seq<Task> {
    s.map_values(|t: Task| if t.id == id { restamped(t, status, at) } else { t })
}

/// The first task named `name` gets `status` at `at`; `s` itself where none is.
pub open spec fn status_set_first_named(
    s: Seq<Task>,
    name: Seq<char>,
    status: Status,
    at: Timestamp,
) -> Seq<Task> {
    if any_named(s, name) {
        let i = first_named(s, name);
        s.update(i, restamped(s[i], status, at))
    } else {
        s
    }
}

/// The first task with `id` is renamed at `at`; `s` itself where none is.
pub open spec fn name_set_id(s: Seq<Task>, id: usize, name: String, at: Timestamp) -> Seq<Task> {
    if any_with_id(s, id) {
        let i = first_with_id(s, id);
        s.update(i, renamed(s[i], name, at))
    } else {
        s
    }
}

/// The first task with `id` gets a new description at `at`; `s` itself where none is.
pub open spec fn description_set_id(s: Seq<Task>, id: usize, description: String, at: Timestamp) -> Seq<
    Task,
> {
    if any_with_id(s, id) {
        let i = first_with_id(s, id);
        s.update(i, redescribed(s[i], description, at))
    } else {
        s
    }
}

/// Whether no task of the collection carries `id`, so that a new task may take it.
pub fn is_valid_id(tasks: &[Task], id: usize) -> (r: bool)
    ensures
        r == id_free(tasks@, id as int),
{
    let mut i: usize = 0;
    while i < tasks.len()
        invariant
            i <= tasks@.len(),
            forall|k: int| 0 <= k < i ==> tasks@[k].id != id,
        decreases tasks@.len() - i,
    {
        if tasks[i].id == id {
            return false;
        }
        i += 1;
    }
    true
}

/// The smallest positive id that no task of the collection carries.
pub fn determine_id(tasks: &[Task]) -> (r: usize)
    requires
        tasks@.len() < usize::MAX,
    ensures
        is_least_free_id(tasks@, r as int),
{
    let mut candidate: usize = 1;
    loop
        invariant
            1 <= candidate,
            tasks@.len() < usize::MAX,
            forall|k: int| 1 <= k < candidate ==> !id_free(tasks@, k),
        decreases usize::MAX - candidate,
    {
        if is_valid_id(tasks, candidate) {
            return candidate;
        }
        proof {
            lemma_taken_ids_fit(tasks@, candidate as int + 1);
        }
        candidate += 1;
    }
}

/// Where every id in `1 .. n` is taken, the collection holds at least `n - 1` tasks.
proof fn lemma_taken_ids_fit(s: Seq<Task>, n: int)
    requires
        n >= 1,
        forall|k: int| 1 <= k < n ==> !id_free(s, k),
    ensures
        n - 1 <= s.len(),
{
    let ids = s.map_values(|t: Task| t.id as int);
    let taken = set_int_range(1, n);
    assert forall|k: int| taken.contains(k) implies ids.to_set().contains(k) by {
        assert(1 <= k < n);
        assert(!id_free(s, k));
        let j = choose|j: int| !(0 <= j < s.len() ==> s[j].id != k);
        assert(ids[j] == k);
        assert(ids.contains(k));
    }
    ids.lemma_cardinality_of_set();
    lemma_int_range(1, n);
    lemma_len_subset(taken, ids.to_set());
}

/// Appends `task` where its id is free, and reports whether it did.
pub fn add_task(tasks: &mut Vec<Task>, task: Task) -> (r: bool)
    ensures
        r == id_free(old(tasks)@, task.id as int),
        r ==> final(tasks)@ == old(tasks)@.push(task),
        !r ==> final(tasks)@ == old(tasks)@,
{
    if is_valid_id(tasks.as_slice(), task.id) {
        tasks.push(task);
        true
    } else {
        false
    }
}

/// Removes every task named exactly `target`.
pub fn delete_task_name(tasks: &mut Vec<Task>, target: &str)
    ensures
        final(tasks)@ == without_name(old(tasks)@, target@),
{
    let t = target.to_owned();
    let mut kept: Vec<Task> = Vec::new();
    let mut i: usize = 0;
    while i < tasks.len()
        invariant
            i <= tasks@.len(),
            t@ == target@,
            kept@ == without_name(tasks@.subrange(0, i as int), target@),
        decreases tasks@.len() - i,
    {
        proof {
            reveal(Seq::filter);
            assert(tasks@.subrange(0, i + 1).drop_last() =~= tasks@.subrange(0, i as int));
        }
        if !(tasks[i].name == t) {
            kept.push(tasks[i].duplicate());
        }
        i += 1;
    }
    proof {
        assert(tasks@.subrange(0, tasks@.len() as int) =~= tasks@);
    }
    *tasks = kept;
}

/// Removes every task that carries `target`.
pub fn delete_task_id(tasks: &mut Vec<Task>, target: usize)
    ensures
        final(tasks)@ == without_id(old(tasks)@, target),
{
    let mut kept: Vec<Task> = Vec::new();
    let mut i: usize = 0;
    while i < tasks.len()
        invariant
            i <= tasks@.len(),
            kept@ == without_id(tasks@.subrange(0, i as int), target),
        decreases tasks@.len() - i,
    {
        proof {
            reveal(Seq::filter);
            assert(tasks@.subrange(0, i + 1).drop_last() =~= tasks@.subrange(0, i as int));
        }
        if tasks[i].id != target {
            kept.push(tasks[i].duplicate());
        }
        i += 1;
    }
    proof {
        assert(tasks@.subrange(0, tasks@.len() as int) =~= tasks@);
    }
    *tasks = kept;
}

/// Copies of the tasks named exactly `target`, in collection order.
pub fn search_task_name(tasks: &Vec<Task>, target: &str) -> (r: Vec<Task>)
    ensures
        r@ == with_name(tasks@, target@),
{
    let t = target.to_owned();
    let mut found: Vec<Task> = Vec::new();
    let mut i: usize = 0;
    while i < tasks.len()
        invariant
            i <= tasks@.len(),
            t@ == target@,
            found@ == with_name(tasks@.subrange(0, i as int), target@),
        decreases tasks@.len() - i,
    {
        proof {
            reveal(Seq::filter);
            assert(tasks@.subrange(0, i + 1).drop_last() =~= tasks@.subrange(0, i as int));
        }
        if tasks[i].name == t {
            found.push(tasks[i].duplicate());
        }
        i += 1;
    }
    proof {
        assert(tasks@.subrange(0, tasks@.len() as int) =~= tasks@);
    }
    found
}

/// A copy of the whole collection, task for task.
pub fn copy_all(tasks: &Vec<Task>) -> (r: Vec<Task>)
    ensures
        r@ == tasks@,
{
    let mut out: Vec<Task> = Vec::new();
    let mut i: usize = 0;
    while i < tasks.len()
        invariant
            i <= tasks@.len(),
            out@ == tasks@.subrange(0, i as int),
        decreases tasks@.len() - i,
    {
        out.push(tasks[i].duplicate());
        proof {
            assert(out@ =~= tasks@.subrange(0, i + 1));
        }
        i += 1;
    }
    proof {
        assert(tasks@.subrange(0, tasks@.len() as int) =~= tasks@);
    }
    out
}

/// The index of the first task named `target`, if any.
fn position_named(tasks: &Vec<Task>, target: &String) -> (r: Option<usize>)
    ensures
        r is Some <==> any_named(tasks@, target@),
        r matches Some(i) ==> is_first_named(tasks@, target@, i as int) && i as int == first_named(
            tasks@,
            target@,
        ),
{
    let mut i: usize = 0;
    while i < tasks.len()
        invariant
            i <= tasks@.len(),
            forall|j: int| 0 <= j < i ==> tasks@[j].name@ != target@,
        decreases tasks@.len() - i,
    {
        if tasks[i].name == *target {
            proof {
                assert(is_first_named(tasks@, target@, i as int));
                let c = first_named(tasks@, target@);
                assert(c == i as int);
            }
            return Some(i);
        }
        i += 1;
    }
    None
}

/// The index of the first task that carries `target`, if any.
fn position_id(tasks: &Vec<Task>, target: usize) -> (r: Option<usize>)
    ensures
        r is Some <==> any_with_id(tasks@, target),
        r matches Some(i) ==> is_first_with_id(tasks@, target, i as int) && i as int
            == first_with_id(tasks@, target),
{
    let mut i: usize = 0;
    while i < tasks.len()
        invariant
            i <= tasks@.len(),
            forall|j: int| 0 <= j < i ==> tasks@[j].id != target,
        decreases tasks@.len() - i,
    {
        if tasks[i].id == target {
            proof {
                assert(is_first_with_id(tasks@, target, i as int));
                let c = first_with_id(tasks@, target);
                assert(c == i as int);
            }
            return Some(i);
        }
        i += 1;
    }
    None
}

/// Removes only the first task named exactly `target`, if there is one.
pub fn delete_first_task_name(tasks: &mut Vec<Task>, target: &str)
    ensures
        final(tasks)@ == without_first_named(old(tasks)@, target@),
{
    let t = target.to_owned();
    if let Some(index) = position_named(tasks, &t) {
        tasks.remove(index);
    }
}

/// A copy of the first task named exactly `target`, if there is one.
pub fn search_first_task_name(tasks: &Vec<Task>, target: &str) -> (r: Option<Task>)
    ensures
        r is Some <==> any_named(tasks@, target@),
        r matches Some(t) ==> t == tasks@[first_named(tasks@, target@)],
{
    let t = target.to_owned();
    match position_named(tasks, &t) {
        Some(i) => Some(tasks[i].duplicate()),
        None => None,
    }
}

/// A copy of the first task that carries `target`, if there is one.
pub fn search_id(tasks: &Vec<Task>, target: usize) -> (r: Option<Task>)
    ensures
        r is Some <==> any_with_id(tasks@, target),
        r matches Some(t) ==> t == tasks@[first_with_id(tasks@, target)],
{
    match position_id(tasks, target) {
        Some(i) => Some(tasks[i].duplicate()),
        None => None,
    }
}

/// Sets `new_status` on every task named exactly `target`, stamping each
/// change with `at`; the other tasks stay as they are.
pub fn update_task_name_at(tasks: &mut Vec<Task>, target: &str, new_status: &Status, at: Timestamp)
    ensures
        final(tasks)@ == status_set_named(old(tasks)@, target@, *new_status, at),
{
    let t = target.to_owned();
    let ghost orig = tasks@;
    let mut i: usize = 0;
    while i < tasks.len()
        invariant
            t@ == target@,
            tasks@.len() == orig.len(),
            i <= tasks@.len(),
            forall|j: int|
                0 <= j < i ==> tasks@[j] == (if orig[j].name@ == target@ {
                    restamped(orig[j], *new_status, at)
                } else {
                    orig[j]
                }),
            forall|j: int| i <= j < tasks@.len() ==> tasks@[j] == orig[j],
        decreases tasks@.len() - i,
    {
        if tasks[i].name == t {
            let mut task = tasks[i].duplicate();
            task.status = *new_status;
            task.updated_at = at;
            tasks[i] = task;
        }
        i += 1;
    }
    proof {
        assert(tasks@ =~= status_set_named(orig, target@, *new_status, at));
    }
}

/// Sets `new_status` on every task named exactly `target`, stamped with the current time.
pub fn update_task_name(tasks: &mut Vec<Task>, target: &str, new_status: &Status)
    ensures
        exists|at: Timestamp|
            at.wf() && final(tasks)@ == status_set_named(old(tasks)@, target@, *new_status, at),
{
    let at = now();
    update_task_name_at(tasks, target, new_status, at);
}

/// Sets `new_status` on every task that carries `target`, stamping each
/// change with `at`; the other tasks stay as they are.
pub fn update_id_at(tasks: &mut Vec<Task>, target: usize, new_status: &Status, at: Timestamp)
    ensures
        final(tasks)@ == status_set_id(old(tasks)@, target, *new_status, at),
{
    let ghost orig = tasks@;
    let mut i: usize = 0;
    while i < tasks.len()
        invariant
            tasks@.len() == orig.len(),
            i <= tasks@.len(),
            forall|j: int|
                0 <= j < i ==> tasks@[j] == (if orig[j].id == target {
                    restamped(orig[j], *new_status, at)
                } else {
                    orig[j]
                }),
            forall|j: int| i <= j < tasks@.len() ==> tasks@[j] == orig[j],
        decreases tasks@.len() - i,
    {
        if tasks[i].id == target {
            let mut task = tasks[i].duplicate();
            task.status = *new_status;
            task.updated_at = at;
            tasks[i] = task;
        }
        i += 1;
    }
    proof {
        assert(tasks@ =~= status_set_id(orig, target, *new_status, at));
    }
}

/// Sets `new_status` on every task that carries `target`, stamped with the current time.
pub fn update_id(tasks: &mut Vec<Task>, target: usize, new_status: &Status)
    ensures
        exists|at: Timestamp|
            at.wf() && final(tasks)@ == status_set_id(old(tasks)@, target, *new_status, at),
{
    let at = now();
    update_id_at(tasks, target, new_status, at);
}

/// Sets `new_status` on the first task named exactly `target`, stamped with `at`.
pub fn update_first_task_name_at(
    tasks: &mut Vec<Task>,
    target: &str,
    new_status: &Status,
    at: Timestamp,
)
    ensures
        final(tasks)@ == status_set_first_named(old(tasks)@, target@, *new_status, at),
{
    let t = target.to_owned();
    if let Some(i) = position_named(tasks, &t) {
        let mut task = tasks[i].duplicate();
        task.status = *new_status;
        task.updated_at = at;
        tasks[i] = task;
    }
}

/// Sets `new_status` on the first task named exactly `target`, stamped with the current time.
pub fn update_first_task_name(tasks: &mut Vec<Task>, target: &str, new_status: &Status)
    ensures
        exists|at: Timestamp|
            at.wf() && final(tasks)@ == status_set_first_named(
                old(tasks)@,
                target@,
                *new_status,
                at,
            ),
{
    let at = now();
    update_first_task_name_at(tasks, target, new_status, at);
}

/// Gives the first task that carries `target` the name `name`, stamped with `at`.
pub fn rename_first_id(tasks: &mut Vec<Task>, target: usize, name: String, at: Timestamp)
    ensures
        final(tasks)@ == name_set_id(old(tasks)@, target, name, at),
{
    if let Some(i) = position_id(tasks, target) {
        let mut task = tasks[i].duplicate();
        task.name = name;
        task.updated_at = at;
        tasks[i] = task;
    }
}

/// Renames the first task that carries `target`, stamped with `at`.
pub fn edit_task_name_at(tasks: &mut Vec<Task>, target: usize, new_name: &str, at: Timestamp)
    ensures
        exists|n: String|
            n@ == new_name@ && final(tasks)@ == name_set_id(old(tasks)@, target, n, at),
{
    let n = new_name.to_owned();
    let ghost g = n;
    rename_first_id(tasks, target, n, at);
    assert(final(tasks)@ == name_set_id(old(tasks)@, target, g, at));
}

/// Renames the first task that carries `target`, stamped with the current time.
pub fn edit_task_name(tasks: &mut Vec<Task>, target: usize, new_name: &str)
    ensures
        exists|n: String, at: Timestamp|
            n@ == new_name@ && at.wf() && final(tasks)@ == name_set_id(old(tasks)@, target, n, at),
{
    let at = now();
    edit_task_name_at(tasks, target, new_name, at);
}

/// Gives the first task that carries `target` the description `description`,
/// stamped with `at`.
pub fn redescribe_first_id(tasks: &mut Vec<Task>, target: usize, description: String, at: Timestamp)
    ensures
        final(tasks)@ == description_set_id(old(tasks)@, target, description, at),
{
    if let Some(i) = position_id(tasks, target) {
        let mut task = tasks[i].duplicate();
        task.description = description;
        task.updated_at = at;
        tasks[i] = task;
    }
}

/// Replaces the description of the first task that carries `target`, stamped with `at`.
pub fn edit_task_description_at(
    tasks: &mut Vec<Task>,
    target: usize,
    new_description: &str,
    at: Timestamp,
)
    ensures
        exists|d: String|
            d@ == new_description@ && final(tasks)@ == description_set_id(
                old(tasks)@,
                target,
                d,
                at,
            ),
{
    let d = new_description.to_owned();
    let ghost g = d;
    redescribe_first_id(tasks, target, d, at);
    assert(final(tasks)@ == description_set_id(old(tasks)@, target, g, at));
}

/// Replaces the description of the first task that carries `target`, stamped
/// with the current time.
pub fn edit_task_description(tasks: &mut Vec<Task>, target: usize, new_description: &str)
    ensures
        exists|d: String, at: Timestamp|
            d@ == new_description@ && at.wf() && final(tasks)@ == description_set_id(
                old(tasks)@,
                target,
                d,
                at,
            ),
{
    let at = now();
    edit_task_description_at(tasks, target, new_description, at);
}

/// An id that no task carries is valid for a new task, and the id of any task
/// in the collection is not.
pub proof fn lemma_valid_ids(s: Seq<Task>, id: usize)
    ensures
        (forall|k: int| 0 <= k < s.len() ==> s[k].id != id) ==> id_free(s, id as int),
        forall|k: int| 0 <= k < s.len() ==> !id_free(s, #[trigger] s[k].id as int),
{
    assert forall|k: int| 0 <= k < s.len() implies !id_free(s, #[trigger] s[k].id as int) by {
        assert(s[k].id == s[k].id);
    }
}

/// Deleting by id a second time changes nothing: the result equals that of
/// deleting once.
pub proof fn lemma_delete_id_idempotent(s: Seq<Task>, id: usize)
    ensures
        without_id(without_id(s, id), id) == without_id(s, id),
    decreases s.len(),
{
    reveal(Seq::filter);
    if s.len() > 0 {
        lemma_delete_id_idempotent(s.drop_last(), id);
        let once = without_id(s, id);
        if s.last().id != id {
            assert(once.drop_last() == without_id(s.drop_last(), id));
        }
    }
}

} // verus!
