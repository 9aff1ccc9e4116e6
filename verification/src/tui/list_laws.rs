//! What the list, the cursor and the selection of the dashboard amount to, in plain terms.

use vstd::prelude::*;

use crate::domain::{ProjectModel, SnapshotModel, SortMode};
use crate::name_set::names_of;
use crate::text::{lowercase, occurs_in, what_occurs_stands_in_the_text};
use crate::text::what_stands_in_a_text_occurs;
use crate::tui::dashboard::{is_listed, passes_filter, DashboardModel, DashboardState};

verus! {

/// Whether the filter stands somewhere in the name, at the start, in the middle or at the end,
/// once both are in lower case.
pub open spec fn stands_in_name(filter: Seq<char>, name: Seq<char>) -> bool {
    exists|a: Seq<char>, c: Seq<char>|
        lowercase(name) == #[trigger] (a + lowercase(filter) + c)
}

/// Whether a project is wanted in the list: it has an active container or needs none, and the
/// filter stands in its name.
pub open spec fn wanted(m: DashboardModel, p: ProjectModel) -> bool {
    (m.running_only ==> p.active > 0) && stands_in_name(m.filter, p.name)
}

/// Whether a project of this name is in the list.
pub open spec fn some_is_named(projects: Seq<ProjectModel>, name: Seq<char>) -> bool {
    exists|i: int| 0 <= i < projects.len() && (#[trigger] projects[i]).name == name
}

/// Whether `at` picks places of a sequence of this length from front to back, and just those
/// that `keep` holds of.
pub open spec fn picks(at: Seq<int>, length: int, keep: spec_fn(int) -> bool) -> bool {
    &&& forall|k: int| 0 <= k < at.len() ==> 0 <= #[trigger] at[k] < length && keep(at[k])
    &&& forall|k: int, l: int| 0 <= k < l < at.len() ==> #[trigger] at[k] < #[trigger] at[l]
    &&& forall|j: int| 0 <= j < length && #[trigger] keep(j) ==> at.contains(j)
}

proof fn filtering_picks<A>(s: Seq<A>, keep: spec_fn(A) -> bool) -> (at: Seq<int>)
    ensures
        picks(at, s.len() as int, |j: int| keep(s[j])),
        at.len() == s.filter(keep).len(),
        forall|k: int| 0 <= k < at.len() ==> s.filter(keep)[k] == s[#[trigger] at[k]],
    decreases s.len(),
{
    reveal(Seq::filter);
    let holds = |j: int| keep(s[j]);
    if s.len() == 0 {
        Seq::empty()
    } else {
        let front = s.drop_last();
        let before = filtering_picks(front, keep);
        let held = |j: int| keep(front[j]);
        let last = s.len() - 1;
        let at = if keep(s.last()) {
            before.push(last)
        } else {
            before
        };
        assert forall|k: int| 0 <= k < at.len() implies 0 <= #[trigger] at[k] < s.len() && holds(
            at[k],
        ) && s.filter(keep)[k] == s[at[k]] by {
            if k < before.len() {
                assert(at[k] == before[k]);
                assert(held(before[k]));
                assert(front[before[k]] == s[before[k]]);
            }
        }
        assert forall|k: int, l: int| 0 <= k < l < at.len() implies #[trigger] at[k]
            < #[trigger] at[l] by {
            assert(at[k] == before[k]);
            if l < before.len() {
                assert(at[l] == before[l]);
            }
        }
        assert forall|j: int| 0 <= j < s.len() && #[trigger] holds(j) implies at.contains(j) by {
            if j < last {
                assert(front[j] == s[j]);
                assert(held(j));
                let k = choose|k: int| 0 <= k < before.len() && before[k] == j;
                assert(at[k] == j);
            } else {
                assert(at[before.len() as int] == j);
            }
        }
        at
    }
}

proof fn passing_is_standing_in_the_name(filter: Seq<char>, name: Seq<char>)
    ensures
        passes_filter(filter, name) == stands_in_name(filter, name),
{
    let (f, n) = (lowercase(filter), lowercase(name));
    let none = Seq::<char>::empty();
    if f.len() == 0 {
        assert(n == none + f + n);
    }
    if occurs_in(f, n) {
        what_occurs_stands_in_the_text(f, n);
    }
    if stands_in_name(filter, name) {
        let (a, c) = choose|a: Seq<char>, c: Seq<char>| n == #[trigger] (a + f + c);
        what_stands_in_a_text_occurs(a, f, c);
    }
}

proof fn name_is_there(projects: Seq<ProjectModel>, name: Seq<char>)
    ensures
        names_of(projects).contains(name) == some_is_named(projects, name),
{
    let names = projects.map_values(|p: ProjectModel| p.name);
    if names_of(projects).contains(name) {
        let i = choose|i: int| 0 <= i < names.len() && names[i] == name;
        assert(projects[i].name == name);
    }
    if some_is_named(projects, name) {
        let i = choose|i: int| 0 <= i < projects.len() && (#[trigger] projects[i]).name == name;
        assert(names[i] == name);
    }
}

/// A project of the snapshot is listed wherever in its name the filter stands, without regard
/// to case; while only active projects are shown, it also needs an active container.
pub proof fn filter_finds_names_anywhere(
    m: DashboardModel,
    p: ProjectModel,
    a: Seq<char>,
    c: Seq<char>,
)
    requires
        m.snapshot.well_formed(),
        m.snapshot.projects.contains(p),
        lowercase(p.name) == a + lowercase(m.filter) + c,
        m.running_only ==> p.active > 0,
    ensures
        m.rebuilt().filtered.contains(p),
{
    assert(stands_in_name(m.filter, p.name));
    passing_is_standing_in_the_name(m.filter, p.name);
    crate::tui::laws::listing_holds_what_passes(m, p);
}

/// Whatever is listed is a project of the snapshot with the filter in its name, and while only
/// active projects are shown, one with an active container.
pub proof fn filter_leaves_the_others_out(m: DashboardModel, p: ProjectModel)
    requires
        m.snapshot.well_formed(),
        m.rebuilt().filtered.contains(p),
    ensures
        m.snapshot.projects.contains(p),
        m.running_only ==> p.active > 0,
        exists|a: Seq<char>, c: Seq<char>|
            lowercase(p.name) == #[trigger] (a + lowercase(m.filter) + c),
{
    crate::tui::laws::listing_holds_what_passes(m, p);
    passing_is_standing_in_the_name(m.filter, p.name);
}

/// The list is the order of the sort mode with the projects that are not wanted left out: it
/// goes through the places of that order from front to back, and stops at each project that is
/// wanted.
pub proof fn list_follows_the_sort_mode(m: DashboardModel) -> (at: Seq<int>)
    requires
        m.snapshot.well_formed(),
    ensures
        ({
            let (s, list) = (m.snapshot, m.rebuilt().filtered);
            let order = match m.sort_mode {
                SortMode::Severity => s.severity,
                SortMode::NameAsc => s.name_asc,
                SortMode::ActiveDesc => s.active_desc,
            };
            &&& picks(at, order.len() as int, |j: int| wanted(m, s.projects[order[j] as int]))
            &&& at.len() == list.len()
            &&& forall|k: int|
                0 <= k < list.len() ==> #[trigger] list[k] == s.projects[order[at[k]] as int]
        }),
{
    let s = m.snapshot;
    let order = s.order(m.sort_mode);
    let sorted = s.sorted(m.sort_mode);
    let keep = |p: ProjectModel| is_listed(m.running_only, m.filter, p);
    let at = filtering_picks(sorted, keep);
    let kept = |j: int| keep(sorted[j]);
    let right = |j: int| wanted(m, s.projects[order[j] as int]);
    assert forall|j: int| 0 <= j < order.len() implies #[trigger] right(j) == kept(j) by {
        passing_is_standing_in_the_name(m.filter, sorted[j].name);
    }
    assert forall|k: int| 0 <= k < at.len() implies 0 <= #[trigger] at[k] < order.len() && right(
        at[k],
    ) by {
        assert(kept(at[k]));
        assert(right(at[k]) == kept(at[k]));
    }
    assert forall|j: int| 0 <= j < order.len() && #[trigger] right(j) implies at.contains(j) by {
        assert(kept(j));
    }
    at
}

/// Making the list anew keeps the cursor on its row where there is such a row, else puts it on
/// the last one; on a list that had no cursor it goes to the first row, and on an empty list
/// there is none. Without a cursor the table is scrolled to the top.
pub proof fn cursor_follows_the_list(m: DashboardModel)
    requires
        m.rebuilt().filtered.len() <= usize::MAX,
    ensures
        ({
            let (before, after) = (m.table_state, m.rebuilt().table_state);
            let rows = m.rebuilt().filtered.len();
            &&& rows == 0 ==> after.selected is None && after.offset == 0
            &&& rows > 0 && before.selected is None ==> after.selected == Some(0usize)
            &&& rows > 0 ==> after.offset == before.offset
            &&& forall|i: usize| before.selected == Some(i) && i < rows ==> after.selected == Some(i)
            &&& forall|i: usize|
                before.selected == Some(i) && 0 < rows <= i ==> (after.selected matches Some(k) && k
                    + 1 == rows)
        }),
{
}

/// Making the list anew keeps the selected projects that are still listed, and selects no
/// other; beyond list, selection and cursor it changes nothing.
pub proof fn selection_follows_the_list(m: DashboardModel, name: Seq<char>)
    ensures
        m.rebuilt().selected.contains(name) <==> m.selected.contains(name) && some_is_named(
            m.rebuilt().filtered,
            name,
        ),
        m.rebuilt().snapshot == m.snapshot,
        m.rebuilt().filter == m.filter,
        m.rebuilt().running_only == m.running_only,
        m.rebuilt().sort_mode == m.sort_mode,
        m.rebuilt().panel == m.panel,
        m.rebuilt().status == m.status,
        m.rebuilt().context_menu == m.context_menu,
        m.rebuilt().execution_prompt == m.execution_prompt,
{
    name_is_there(m.rebuilt().filtered, name);
}

/// A new dashboard lists every project in the order asked for, with the cursor on the first
/// one, nothing selected, no filter, the details shown, and neither status, menu nor prompt.
pub proof fn new_dashboard_shows_everything(
    snapshot: SnapshotModel,
    mode: SortMode,
    state: DashboardModel,
)
    requires
        snapshot.well_formed(),
        state == DashboardModel::initial(snapshot, mode).rebuilt(),
        state.filtered == snapshot.sorted(mode),
        snapshot.projects.len() <= usize::MAX,
    ensures
        state.snapshot == snapshot && state.sort_mode == mode,
        state.filtered.len() == snapshot.projects.len(),
        forall|p: ProjectModel| snapshot.projects.contains(p) <==> state.filtered.contains(p),
        state.filtered.len() > 0 ==> state.table_state.selected == Some(0usize),
        state.filtered.len() == 0 ==> state.table_state.selected is None,
        state.table_state.offset == 0,
        state.selected == Set::<Seq<char>>::empty(),
        state.filter.len() == 0 && !state.running_only,
        state.panel is Detail,
        state.status.len() == 0,
        state.context_menu is None && state.execution_prompt is None,
{
    crate::domain::sorted_lists_the_same_projects(snapshot, mode);
    assert(state.selected == Set::<Seq<char>>::empty());
}

/// A new snapshot replaces the old one and nothing else: the list is made of it by the same
/// filters and order, and what is still listed stays selected.
pub proof fn refreshing_replaces_the_snapshot(
    m: DashboardModel,
    snapshot: SnapshotModel,
    name: Seq<char>,
)
    ensures
        m.refreshed(snapshot).snapshot == snapshot,
        m.refreshed(snapshot).filtered == (DashboardModel { snapshot, ..m }).rebuilt().filtered,
        m.refreshed(snapshot).filter == m.filter,
        m.refreshed(snapshot).running_only == m.running_only,
        m.refreshed(snapshot).sort_mode == m.sort_mode,
        m.refreshed(snapshot).panel == m.panel,
        m.refreshed(snapshot).status == m.status,
        m.refreshed(snapshot).context_menu == m.context_menu,
        m.refreshed(snapshot).execution_prompt == m.execution_prompt,
        m.refreshed(snapshot).selected.contains(name) <==> m.selected.contains(name)
            && some_is_named(m.refreshed(snapshot).filtered, name),
{
    selection_follows_the_list(DashboardModel { snapshot, ..m }, name);
}

/// The project under the cursor is the one on the cursor's row, and there is none where the
/// cursor is on no row of the list.
pub proof fn cursor_points_at_its_row(m: DashboardModel)
    ensures
        forall|i: usize|
            m.table_state.selected == Some(i) && i < m.filtered.len() ==> m.current() == Some(
                m.filtered[i as int],
            ),
        m.current() is Some ==> (m.table_state.selected matches Some(i) && i < m.filtered.len()),
{
}

/// Where nothing is selected, an operation is for the project on the cursor's row and for no
/// other, whichever row that is; without a row under the cursor it is for none.
pub proof fn targets_follow_the_cursor(m: DashboardModel)
    requires
        m.selected == Set::<Seq<char>>::empty(),
    ensures
        forall|i: usize|
            m.table_state.selected == Some(i) && i < m.filtered.len() ==> m.targets() == seq![
                m.filtered[i as int].name,
            ],
        m.table_state.selected is None ==> m.targets().len() == 0,
        forall|i: usize|
            m.table_state.selected == Some(i) && i >= m.filtered.len() ==> m.targets().len() == 0,
{
}

/// Where projects are selected, an operation is for these, in the order of the list and
/// wherever the cursor is: the targets go through the list from front to back and stop at each
/// selected project.
pub proof fn targets_follow_the_selection(m: DashboardModel) -> (at: Seq<int>)
    requires
        m.selected != Set::<Seq<char>>::empty(),
    ensures
        picks(at, m.filtered.len() as int, |j: int| m.selected.contains(m.filtered[j].name)),
        at.len() == m.targets().len(),
        forall|k: int|
            0 <= k < at.len() ==> #[trigger] m.targets()[k] == m.filtered[at[k]].name,
        forall|row: Option<usize>|
            (DashboardModel {
                table_state: #[trigger] m.table_state.with_selected(row),
                ..m
            }).targets() == m.targets(),
{
    let keep = |p: ProjectModel| m.selected.contains(p.name);
    let at = filtering_picks(m.filtered, keep);
    let kept = m.filtered.filter(keep);
    assert(m.targets() == kept.map_values(|p: ProjectModel| p.name));
    let right = |j: int| m.selected.contains(m.filtered[j].name);
    let held = |j: int| keep(m.filtered[j]);
    assert forall|k: int| 0 <= k < at.len() implies 0 <= #[trigger] at[k] < m.filtered.len()
        && right(at[k]) && m.targets()[k] == m.filtered[at[k]].name by {
        assert(held(at[k]));
        assert(kept[k] == m.filtered[at[k]]);
    }
    assert forall|j: int| 0 <= j < m.filtered.len() && #[trigger] right(j) implies at.contains(
        j,
    ) by {
        assert(held(j));
    }
    assert forall|row: Option<usize>|
        (DashboardModel {
            table_state: #[trigger] m.table_state.with_selected(row),
            ..m
        }).targets() == m.targets() by {
        let other = DashboardModel { table_state: m.table_state.with_selected(row), ..m };
        assert(other.filtered.filter(|p: ProjectModel| other.selected.contains(p.name)) == kept);
    }
    at
}

/// Moving down leads to the following row and stops on the last one; moving up leads to the
/// preceding row and stops on the first one. Nothing but the cursor changes.
pub proof fn cursor_moves_row_by_row(m: DashboardModel, i: usize)
    requires
        m.filtered.len() <= usize::MAX,
        m.table_state.selected == Some(i),
    ensures
        i + 1 < m.filtered.len() ==> m.moved_down().table_state.selected == Some((i + 1) as usize),
        i + 1 == m.filtered.len() ==> m.moved_down() == m,
        i + 1 > m.filtered.len() > 0 ==> m.moved_down().table_state.selected == Some(
            (m.filtered.len() - 1) as usize,
        ),
        m.filtered.len() == 0 ==> m.moved_down() == m,
        i > 0 ==> m.moved_up().table_state.selected == Some((i - 1) as usize),
        i == 0 ==> m.moved_up() == m,
        (DashboardModel { table_state: m.table_state, ..m.moved_down() }) == m,
        (DashboardModel { table_state: m.table_state, ..m.moved_up() }) == m,
        m.moved_down().table_state.offset == m.table_state.offset,
        m.moved_up().table_state.offset == m.table_state.offset,
{
}

/// Without a cursor, moving in either direction leads to the first row; moving down an empty
/// list leads nowhere.
pub proof fn cursor_starts_on_the_first_row(m: DashboardModel)
    requires
        m.table_state.selected is None,
    ensures
        m.filtered.len() > 0 ==> m.moved_down().table_state.selected == Some(0usize),
        m.filtered.len() == 0 ==> m.moved_down() == m,
        m.moved_up().table_state.selected == Some(0usize),
        (DashboardModel { table_state: m.table_state, ..m.moved_down() }) == m,
        (DashboardModel { table_state: m.table_state, ..m.moved_up() }) == m,
{
}

/// Turning the selection over under the cursor selects that project where it was not selected,
/// and the other way round; it touches no other project and nothing else.
pub proof fn toggling_is_for_the_cursor_alone(m: DashboardModel, i: usize, name: Seq<char>)
    requires
        m.table_state.selected == Some(i),
    ensures
        i < m.filtered.len() ==> (m.toggled_current().selected.contains(name) <==> (
        m.selected.contains(name) != (name == m.filtered[i as int].name))),
        i >= m.filtered.len() ==> m.toggled_current() == m,
        (DashboardModel { selected: m.selected, ..m.toggled_current() }) == m,
{
}

/// Where a listed project is not selected yet, selecting all selects just the listed projects;
/// where all are, it selects none. On an empty list nothing is selected afterwards.
pub proof fn selecting_all_is_for_the_list(m: DashboardModel, name: Seq<char>)
    ensures
        (exists|i: int|
            0 <= i < m.filtered.len() && !m.selected.contains((#[trigger] m.filtered[i]).name))
            ==> (m.toggled_all().selected.contains(name) <==> some_is_named(m.filtered, name)),
        (forall|i: int|
            0 <= i < m.filtered.len() ==> m.selected.contains((#[trigger] m.filtered[i]).name))
            ==> !m.toggled_all().selected.contains(name),
        (DashboardModel { selected: m.selected, ..m.toggled_all() }) == m,
{
    name_is_there(m.filtered, name);
    let names = names_of(m.filtered);
    if exists|i: int|
        0 <= i < m.filtered.len() && !m.selected.contains((#[trigger] m.filtered[i]).name) {
        let i = choose|i: int|
            0 <= i < m.filtered.len() && !m.selected.contains((#[trigger] m.filtered[i]).name);
        name_is_there(m.filtered, m.filtered[i].name);
        assert(names.contains(m.filtered[i].name));
        assert(!names.subset_of(m.selected));
    } else {
        assert forall|x: Seq<char>| names.contains(x) implies m.selected.contains(x) by {
            name_is_there(m.filtered, x);
            let i = choose|i: int| 0 <= i < m.filtered.len() && (#[trigger] m.filtered[i]).name == x;
            assert(m.selected.contains(m.filtered[i].name));
        }
        assert(names.subset_of(m.selected));
    }
}

/// The model of the dashboard holds what its state holds, part by part.
pub proof fn dashboard_model_holds_the_parts(state: DashboardState, i: int)
    ensures
        state@.snapshot == state.snapshot@,
        state@.filtered.len() == state.filtered@.len(),
        0 <= i < state.filtered@.len() ==> state@.filtered[i] == state.filtered@[i]@,
        state@.selected == state.selected@,
        state@.table_state == state.table_state,
        state@.filter == state.filter@ && state@.status == state.status@,
        state@.running_only == state.running_only && state@.sort_mode == state.sort_mode,
        state@.panel == state.panel,
        state.context_menu is None ==> state@.context_menu is None,
        state.context_menu matches Some(menu) ==> (state@.context_menu matches Some(shown)
            && shown.project == menu.project@ && shown.row == menu.row && shown.x == menu.x
            && shown.y == menu.y && shown.selected_index == menu.selected_index),
        state.execution_prompt is None ==> state@.execution_prompt is None,
        state.execution_prompt matches Some(prompt) ==> (state@.execution_prompt matches Some(
            shown,
        ) && shown.action == prompt.action && shown.token_input == prompt.token_input@),
{
}

} // verus!
