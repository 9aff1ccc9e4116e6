//! The state of the dashboard: what is listed, what is selected and what is shown.

use vstd::prelude::*;

use crate::domain::{
    AppResult, DockerSnapshot, OperationAction, OperationPlan, Project, ProjectModel,
    SnapshotModel, SortMode,
};
use crate::domain::project_models;
use crate::name_set::{names_of, NameSet};
use crate::text::{contains_text, lowercase, occurs_in, texts, to_lowercase};
use crate::tui::menu::{ContextMenuState, MenuModel, TuiPanel};

verus! {

/// Which row of the project table the cursor is on, and the first row that is in sight.
#[derive(Debug, Clone, Copy, PartialEq, Eq, Structural)]
pub struct TableState {
    pub offset: usize,
    pub selected: Option<usize>,
}

impl TableState {
    /// The table with the cursor on `row`; without a cursor it is scrolled to the top.
    pub open spec fn with_selected(self, row: Option<usize>) -> TableState {
        TableState { offset: if row is None { 0 } else { self.offset }, selected: row }
    }

    /// A table scrolled to the top, without a cursor.
    pub fn new() -> (table: TableState)
        ensures
            table == (TableState { offset: 0, selected: None }),
    {
        TableState { offset: 0, selected: None }
    }

    /// The row that the cursor is on.
    pub fn selected(&self) -> (row: Option<usize>)
        ensures
            row == self.selected,
    {
        self.selected
    }

    /// Puts the cursor on `row`, or takes it away.
    pub fn select(&mut self, row: Option<usize>)
        ensures
            *final(self) == old(self).with_selected(row),
    {
        self.selected = row;
        if row.is_none() {
            self.offset = 0;
        }
    }
}

/// The question whether an operation should be carried out, with what was typed so far.
#[derive(Debug, PartialEq, Eq)]
pub struct ExecutionPrompt {
    pub action: OperationAction,
    pub token_input: String,
}

/// A prompt as text.
#[verifier::ext_equal]
pub struct PromptModel {
    pub action: OperationAction,
    pub token_input: Seq<char>,
}

impl View for ExecutionPrompt {
    type V = PromptModel;

    open spec fn view(&self) -> PromptModel {
        PromptModel { action: self.action, token_input: self.token_input@ }
    }
}

impl Clone for ExecutionPrompt {
    fn clone(&self) -> (copy: Self)
        ensures
            copy@ == self@,
    {
        ExecutionPrompt { action: self.action, token_input: self.token_input.clone() }
    }
}

/// The state of the dashboard.
#[derive(Debug)]
pub struct DashboardState {
    pub snapshot: DockerSnapshot,
    pub filtered: Vec<Project>,
    pub selected: NameSet,
    pub table_state: TableState,
    pub filter: String,
    pub running_only: bool,
    pub sort_mode: SortMode,
    pub panel: TuiPanel,
    pub status: String,
    pub context_menu: Option<ContextMenuState>,
    pub execution_prompt: Option<ExecutionPrompt>,
}

/// The state of the dashboard as text, numbers and sets.
#[verifier::ext_equal]
pub struct DashboardModel {
    pub snapshot: SnapshotModel,
    pub filtered: Seq<ProjectModel>,
    pub selected: Set<Seq<char>>,
    pub table_state: TableState,
    pub filter: Seq<char>,
    pub running_only: bool,
    pub sort_mode: SortMode,
    pub panel: TuiPanel,
    pub status: Seq<char>,
    pub context_menu: Option<MenuModel>,
    pub execution_prompt: Option<PromptModel>,
}

/// The menu that is open, where one is.
pub open spec fn menu_model(menu: Option<ContextMenuState>) -> Option<MenuModel> {
    match menu {
        Some(m) => Some(m@),
        None => None,
    }
}

/// The prompt that is open, where one is.
pub open spec fn prompt_model(prompt: Option<ExecutionPrompt>) -> Option<PromptModel> {
    match prompt {
        Some(p) => Some(p@),
        None => None,
    }
}

impl View for DashboardState {
    type V = DashboardModel;

    open spec fn view(&self) -> DashboardModel {
        DashboardModel {
            snapshot: self.snapshot@,
            filtered: project_models(self.filtered@),
            selected: self.selected@,
            table_state: self.table_state,
            filter: self.filter@,
            running_only: self.running_only,
            sort_mode: self.sort_mode,
            panel: self.panel,
            status: self.status@,
            context_menu: menu_model(self.context_menu),
            execution_prompt: prompt_model(self.execution_prompt),
        }
    }
}

/// Whether a name passes the filter: without regard to case, the filter occurs in it.
pub open spec fn passes_filter(filter: Seq<char>, name: Seq<char>) -> bool {
    lowercase(filter).len() == 0 || occurs_in(lowercase(filter), lowercase(name))
}

/// Whether a project is listed.
pub open spec fn is_listed(running_only: bool, filter: Seq<char>, p: ProjectModel) -> bool {
    (!running_only || p.active > 0) && passes_filter(filter, p.name)
}

/// The projects of a snapshot that are listed, in the order of `mode`.
pub open spec fn listed_projects(
    snapshot: SnapshotModel,
    mode: SortMode,
    running_only: bool,
    filter: Seq<char>,
) -> Seq<ProjectModel> {
    snapshot.sorted(mode).filter(|p: ProjectModel| is_listed(running_only, filter, p))
}

impl DashboardModel {
    /// The projects that are to be listed, in their order.
    pub open spec fn listing(self) -> Seq<ProjectModel> {
        listed_projects(self.snapshot, self.sort_mode, self.running_only, self.filter)
    }

    /// The cursor after the list has got `length` rows: none on an empty list, else where it
    /// was, but not past the last row, and on the first row where there was none.
    pub open spec fn cursor_for(self, length: nat) -> Option<usize> {
        if length == 0 {
            None
        } else {
            match self.table_state.selected {
                None => Some(0),
                Some(i) => if i < length {
                    Some(i)
                } else {
                    Some((length - 1) as usize)
                },
            }
        }
    }

    /// The state with its list made anew: projects that are no longer listed are no longer
    /// selected either.
    pub open spec fn rebuilt(self) -> DashboardModel {
        DashboardModel {
            filtered: self.listing(),
            selected: self.selected.intersect(names_of(self.listing())),
            table_state: self.table_state.with_selected(self.cursor_for(self.listing().len())),
            ..self
        }
    }

    /// The state before anything was done to it.
    pub open spec fn initial(snapshot: SnapshotModel, sort_mode: SortMode) -> DashboardModel {
        DashboardModel {
            snapshot,
            filtered: Seq::empty(),
            selected: Set::empty(),
            table_state: TableState { offset: 0, selected: None },
            filter: Seq::empty(),
            running_only: false,
            sort_mode,
            panel: TuiPanel::Detail,
            status: Seq::empty(),
            context_menu: None,
            execution_prompt: None,
        }
    }

    /// The project that the cursor is on.
    pub open spec fn current(self) -> Option<ProjectModel> {
        match self.table_state.selected {
            Some(i) => if i < self.filtered.len() {
                Some(self.filtered[i as int])
            } else {
                None
            },
            None => None,
        }
    }

    /// Whether the cursor can move down without leaving the numbers of rows.
    pub open spec fn can_move_down(self) -> bool {
        self.filtered.len() > 0 ==> self.table_state.selected != Some(usize::MAX)
    }

    /// The state with the cursor one row down, at most on the last row.
    pub open spec fn moved_down(self) -> DashboardModel {
        if self.filtered.len() == 0 {
            self
        } else {
            let row = match self.table_state.selected {
                None => 0,
                Some(i) => if i + 1 < self.filtered.len() {
                    i + 1
                } else {
                    self.filtered.len() - 1
                },
            };
            DashboardModel {
                table_state: self.table_state.with_selected(Some(row as usize)),
                ..self
            }
        }
    }

    /// The state with the cursor one row up, at least on the first row.
    pub open spec fn moved_up(self) -> DashboardModel {
        let row = match self.table_state.selected {
            Some(i) if i > 0 => i - 1,
            _ => 0,
        };
        DashboardModel { table_state: self.table_state.with_selected(Some(row as usize)), ..self }
    }

    /// The names of the projects that an operation is for: those that are selected, in the
    /// order of the list, or the one under the cursor where none is.
    pub open spec fn targets(self) -> Seq<Seq<char>> {
        if self.selected == Set::<Seq<char>>::empty() {
            match self.current() {
                Some(p) => seq![p.name],
                None => seq![],
            }
        } else {
            self.filtered.filter(|p: ProjectModel| self.selected.contains(p.name)).map_values(
                |p: ProjectModel| p.name,
            )
        }
    }
}

/// Whether the planner can be asked for any plan.
pub open spec fn answers_always<P: Fn(
    &DockerSnapshot,
    OperationAction,
    &Vec<String>,
) -> AppResult<OperationPlan>>(planner: P) -> bool {
    forall|snapshot: &DockerSnapshot, action: OperationAction, targets: &Vec<String>|
        #[trigger] call_requires(planner, (snapshot, action, targets))
}

/// Whether `reply` is an answer of the planner to the question for a plan of `action` on the
/// targets of `state`.
pub open spec fn is_reply<P: Fn(
    &DockerSnapshot,
    OperationAction,
    &Vec<String>,
) -> AppResult<OperationPlan>>(
    planner: P,
    state: DashboardState,
    action: OperationAction,
    reply: AppResult<OperationPlan>,
) -> bool {
    exists|targets: Vec<String>|
        texts(targets@) == state@.targets() && #[trigger] call_ensures(
            planner,
            (&state.snapshot, action, &targets),
            reply,
        )
}

proof fn filter_push<A>(s: Seq<A>, x: A, keep: spec_fn(A) -> bool)
    ensures
        s.push(x).filter(keep) == if keep(x) {
            s.filter(keep).push(x)
        } else {
            s.filter(keep)
        },
{
    reveal(Seq::filter);
    assert(s.push(x).drop_last() == s);
}

proof fn all_pass<A>(s: Seq<A>, keep: spec_fn(A) -> bool)
    requires
        forall|i: int| 0 <= i < s.len() ==> keep(#[trigger] s[i]),
    ensures
        s.filter(keep) == s,
    decreases s.len(),
{
    reveal(Seq::filter);
    if s.len() > 0 {
        assert forall|i: int| 0 <= i < s.drop_last().len() implies keep(
            #[trigger] s.drop_last()[i],
        ) by {
            assert(keep(s[i]));
        }
        all_pass(s.drop_last(), keep);
        assert(s == s.drop_last().push(s.last()));
    }
}

impl DashboardState {
    /// The dashboard of a snapshot: all projects in the order of `sort_mode`, nothing
    /// selected, and the details of the first one.
    pub fn from_snapshot(snapshot: DockerSnapshot, sort_mode: SortMode) -> (state: Self)
        ensures
            state@ == DashboardModel::initial(snapshot@, sort_mode).rebuilt(),
            state@.filtered == snapshot@.sorted(sort_mode),
            snapshot@.well_formed(),
    {
        let mut state = DashboardState {
            snapshot,
            filtered: Vec::new(),
            selected: NameSet::new(),
            table_state: TableState::new(),
            filter: String::new(),
            running_only: false,
            sort_mode,
            panel: TuiPanel::Detail,
            status: String::new(),
            context_menu: None,
            execution_prompt: None,
        };
        assert(state@ == DashboardModel::initial(snapshot@, sort_mode));
        state.rebuild_filtered();
        state
    }

    /// Makes the list anew from the snapshot, the sort mode and the filters.
    pub fn rebuild_filtered(&mut self)
        ensures
            final(self)@ == old(self)@.rebuilt(),
            !old(self)@.running_only && old(self)@.filter.len() == 0 ==> final(self)@.filtered
                == old(self)@.snapshot.sorted(old(self)@.sort_mode),
            old(self)@.snapshot.well_formed(),
    {
        let ghost start = self@;
        let needle = to_lowercase(self.filter.as_str());
        let sorted = self.snapshot.projects_sorted(self.sort_mode);
        let ghost all = project_models(sorted@);
        let ghost keep = |p: ProjectModel| is_listed(start.running_only, start.filter, p);
        let mut filtered: Vec<Project> = Vec::new();
        let mut i: usize = 0;
        proof {
            reveal(Seq::filter);
            assert(all.take(0).filter(keep) == Seq::<ProjectModel>::empty());
        }
        while i < sorted.len()
            invariant
                i <= sorted@.len(),
                all == project_models(sorted@),
                needle@ == lowercase(start.filter),
                start == self@,
                keep == (|p: ProjectModel| is_listed(start.running_only, start.filter, p)),
                project_models(filtered@) == all.take(i as int).filter(keep),
            decreases sorted@.len() - i,
        {
            let project = &sorted[i];
            let ghost done = filtered@;
            let listed = (!self.running_only || project.active() > 0) && (needle.as_str().is_empty()
                || contains_text(to_lowercase(project.name.as_str()).as_str(), needle.as_str()));
            if listed {
                filtered.push(project.clone());
                assert(project_models(filtered@) == project_models(done).push(project@));
            }
            proof {
                assert(listed == keep(project@));
                assert(all.take(i + 1) == all.take(i as int).push(project@));
                filter_push(all.take(i as int), project@, keep);
            }
            i = i + 1;
        }
        assert(all.take(all.len() as int) == all);
        assert(project_models(filtered@) == start.listing());
        self.filtered = filtered;
        self.selected.retain_projects(&self.filtered);
        if self.filtered.is_empty() {
            self.table_state.select(None);
        } else {
            let last: usize = self.filtered.len() - 1;
            match self.table_state.selected() {
                None => self.table_state.select(Some(0)),
                Some(index) => {
                    let row: usize = if index < last { index } else { last };
                    self.table_state.select(Some(row));
                },
            }
        }
        assert(self@ == start.rebuilt());
        proof {
            if !start.running_only && start.filter.len() == 0 {
                all_pass(all, keep);
            }
        }
    }

    /// The project that the cursor is on.
    pub fn current_project(&self) -> (project: Option<&Project>)
        ensures
            match project {
                Some(p) => self@.current() == Some(p@),
                None => self@.current() is None,
            },
    {
        match self.table_state.selected() {
            Some(index) => {
                if index < self.filtered.len() {
                    Some(&self.filtered[index])
                } else {
                    None
                }
            },
            None => None,
        }
    }

    /// Moves the cursor one row down.
    pub fn next(&mut self)
        requires
            old(self)@.can_move_down(),
        ensures
            final(self)@ == old(self)@.moved_down(),
    {
        if self.filtered.is_empty() {
            return;
        }
        let last: usize = self.filtered.len() - 1;
        let row: usize = match self.table_state.selected() {
            Some(index) => if index + 1 < last {
                index + 1
            } else {
                last
            },
            None => 0,
        };
        self.table_state.select(Some(row));
        assert(self@ == old(self)@.moved_down());
    }

    /// Moves the cursor one row up.
    pub fn previous(&mut self)
        ensures
            final(self)@ == old(self)@.moved_up(),
    {
        let row: usize = match self.table_state.selected() {
            Some(index) => if index > 0 {
                index - 1
            } else {
                0
            },
            None => 0,
        };
        self.table_state.select(Some(row));
        assert(self@ == old(self)@.moved_up());
    }

    /// The names of the projects that an operation is for.
    pub fn action_targets(&self) -> (names: Vec<String>)
        ensures
            texts(names@) == self@.targets(),
    {
        let mut names: Vec<String> = Vec::new();
        if self.selected.is_empty() {
            if let Some(project) = self.current_project() {
                names.push(project.name.clone());
            }
            assert(texts(names@) == self@.targets());
            return names;
        }
        let ghost all = project_models(self.filtered@);
        let ghost keep = |p: ProjectModel| self@.selected.contains(p.name);
        let ghost name = |p: ProjectModel| p.name;
        let mut i: usize = 0;
        proof {
            reveal(Seq::filter);
            assert(all.take(0).filter(keep).map_values(name) == Seq::<Seq<char>>::empty());
        }
        while i < self.filtered.len()
            invariant
                i <= self.filtered@.len(),
                all == project_models(self.filtered@),
                keep == (|p: ProjectModel| self@.selected.contains(p.name)),
                name == (|p: ProjectModel| p.name),
                texts(names@) == all.take(i as int).filter(keep).map_values(name),
            decreases self.filtered@.len() - i,
        {
            let project = &self.filtered[i];
            let ghost done = names@;
            let ghost kept = all.take(i as int).filter(keep);
            if self.selected.contains(project.name.as_str()) {
                names.push(project.name.clone());
                assert(texts(names@) == texts(done).push(project@.name));
                assert(kept.push(project@).map_values(name) == kept.map_values(name).push(
                    project@.name,
                ));
            }
            proof {
                assert(all.take(i + 1) == all.take(i as int).push(project@));
                filter_push(all.take(i as int), project@, keep);
            }
            i = i + 1;
        }
        assert(all.take(all.len() as int) == all);
        assert(texts(names@) == self@.targets());
        names
    }

    /// Asks the planner for a plan of `action` on the targets.
    pub fn plan_for<P: Fn(
        &DockerSnapshot,
        OperationAction,
        &Vec<String>,
    ) -> AppResult<OperationPlan>>(&self, planner: &P, action: OperationAction) -> (reply:
        AppResult<OperationPlan>)
        requires
            answers_always(*planner),
        ensures
            is_reply(*planner, *self, action, reply),
    {
        let targets = self.action_targets();
        assert(call_requires(*planner, (&self.snapshot, action, &targets)));
        planner(&self.snapshot, action, &targets)
    }
}

} // verus!
