//! What the dashboard knows of the Docker host: projects, their health, plans and errors.

use vstd::prelude::*;

use crate::text::texts;

verus! {

/// What can be done to a project.
#[derive(Debug, Clone, Copy, PartialEq, Eq, Structural)]
pub enum OperationAction {
    Start,
    Stop,
    Restart,
    Remove,
    Purge,
    Prune,
    Rescue,
}

/// How the projects are listed.
#[derive(Debug, Clone, Copy, PartialEq, Eq, Structural)]
pub enum SortMode {
    Severity,
    NameAsc,
    ActiveDesc,
}

/// One container of a project.
#[derive(Debug, PartialEq, Eq)]
pub struct Container {
    pub name: String,
    pub image: String,
    /// Short code of the container's state.
    pub state_code: String,
    pub status: String,
}

/// A container as text.
#[verifier::ext_equal]
pub struct ContainerModel {
    pub name: Seq<char>,
    pub image: Seq<char>,
    pub state_code: Seq<char>,
    pub status: Seq<char>,
}

impl View for Container {
    type V = ContainerModel;

    open spec fn view(&self) -> ContainerModel {
        ContainerModel {
            name: self.name@,
            image: self.image@,
            state_code: self.state_code@,
            status: self.status@,
        }
    }
}

impl Clone for Container {
    fn clone(&self) -> (copy: Self)
        ensures
            copy@ == self@,
    {
        Container {
            name: self.name.clone(),
            image: self.image.clone(),
            state_code: self.state_code.clone(),
            status: self.status.clone(),
        }
    }
}

/// A project: containers that belong together, with the counts that the host reports.
#[derive(Debug, PartialEq, Eq)]
pub struct Project {
    pub name: String,
    /// Name of the kind of project.
    pub kind: String,
    /// Short code of the project's state.
    pub state_code: String,
    /// Containers that count as active.
    pub active: usize,
    pub stopped: usize,
    pub unhealthy: usize,
    pub restarting: usize,
    pub paused: usize,
    pub containers: Vec<Container>,
    pub networks: Vec<String>,
    pub volumes: Vec<String>,
    pub images: Vec<String>,
    pub ports: Vec<String>,
}

/// A project as text and numbers.
#[verifier::ext_equal]
pub struct ProjectModel {
    pub name: Seq<char>,
    pub kind: Seq<char>,
    pub state_code: Seq<char>,
    pub active: nat,
    pub stopped: nat,
    pub unhealthy: nat,
    pub restarting: nat,
    pub paused: nat,
    pub containers: Seq<ContainerModel>,
    pub networks: Seq<Seq<char>>,
    pub volumes: Seq<Seq<char>>,
    pub images: Seq<Seq<char>>,
    pub ports: Seq<Seq<char>>,
}

/// The containers of a list.
pub open spec fn container_models(list: Seq<Container>) -> Seq<ContainerModel> {
    list.map_values(|c: Container| c@)
}

/// The projects of a list.
pub open spec fn project_models(list: Seq<Project>) -> Seq<ProjectModel> {
    list.map_values(|p: Project| p@)
}

impl View for Project {
    type V = ProjectModel;

    open spec fn view(&self) -> ProjectModel {
        ProjectModel {
            name: self.name@,
            kind: self.kind@,
            state_code: self.state_code@,
            active: self.active as nat,
            stopped: self.stopped as nat,
            unhealthy: self.unhealthy as nat,
            restarting: self.restarting as nat,
            paused: self.paused as nat,
            containers: container_models(self.containers@),
            networks: texts(self.networks@),
            volumes: texts(self.volumes@),
            images: texts(self.images@),
            ports: texts(self.ports@),
        }
    }
}

/// A copy of a list of strings.
pub fn clone_strings(list: &Vec<String>) -> (copy: Vec<String>)
    ensures
        texts(copy@) == texts(list@),
{
    let mut copy: Vec<String> = Vec::new();
    let mut i: usize = 0;
    while i < list.len()
        invariant
            i <= list@.len(),
            texts(copy@) == texts(list@).take(i as int),
        decreases list@.len() - i,
    {
        let ghost done = copy@;
        copy.push(list[i].clone());
        proof {
            assert(texts(copy@) == texts(done).push(list@[i as int]@));
            assert(texts(list@).take(i + 1) == texts(list@).take(i as int).push(list@[i as int]@));
        }
        i = i + 1;
    }
    copy
}

impl Project {
    /// The number of active containers.
    pub fn active(&self) -> (count: usize)
        ensures
            count == self@.active,
    {
        self.active
    }

    /// The short code of the project's state.
    pub fn state_code(&self) -> (code: &str)
        ensures
            code@ == self@.state_code,
    {
        self.state_code.as_str()
    }
}

impl Clone for Project {
    fn clone(&self) -> (copy: Self)
        ensures
            copy@ == self@,
    {
        let mut containers: Vec<Container> = Vec::new();
        let mut i: usize = 0;
        while i < self.containers.len()
            invariant
                i <= self.containers@.len(),
                container_models(containers@) == self@.containers.take(i as int),
            decreases self.containers@.len() - i,
        {
            let ghost done = containers@;
            let container = self.containers[i].clone();
            containers.push(container);
            proof {
                assert(container_models(containers@) == container_models(done).push(container@));
                assert(self@.containers.take(i + 1) == self@.containers.take(i as int).push(
                    container@,
                ));
            }
            i = i + 1;
        }
        Project {
            name: self.name.clone(),
            kind: self.kind.clone(),
            state_code: self.state_code.clone(),
            active: self.active,
            stopped: self.stopped,
            unhealthy: self.unhealthy,
            restarting: self.restarting,
            paused: self.paused,
            containers,
            networks: clone_strings(&self.networks),
            volumes: clone_strings(&self.volumes),
            images: clone_strings(&self.images),
            ports: clone_strings(&self.ports),
        }
    }
}

/// What a health check found in one project.
#[derive(Debug, PartialEq, Eq)]
pub struct ProjectHealth {
    /// Name of the status.
    pub status: String,
    pub project: String,
    pub findings: Vec<String>,
}

/// A health check's result as text.
#[verifier::ext_equal]
pub struct HealthModel {
    pub status: Seq<char>,
    pub project: Seq<char>,
    pub findings: Seq<Seq<char>>,
}

impl View for ProjectHealth {
    type V = HealthModel;

    open spec fn view(&self) -> HealthModel {
        HealthModel {
            status: self.status@,
            project: self.project@,
            findings: texts(self.findings@),
        }
    }
}

/// The health results of a list.
pub open spec fn health_models(list: Seq<ProjectHealth>) -> Seq<HealthModel> {
    list.map_values(|h: ProjectHealth| h@)
}

/// For each way of listing, the positions of the projects in that order.
#[derive(Debug, PartialEq, Eq)]
pub struct ProjectOrders {
    pub severity: Vec<usize>,
    pub name_asc: Vec<usize>,
    pub active_desc: Vec<usize>,
}

/// Whether `order` lists each of the positions below `n` exactly once.
pub open spec fn is_order(order: Seq<usize>, n: nat) -> bool {
    &&& order.len() == n
    &&& forall|i: int| 0 <= i < n ==> #[trigger] order[i] < n
    &&& forall|i: int, j: int| 0 <= i < j < n ==> #[trigger] order[i] != #[trigger] order[j]
}

/// The state of the host at one moment, with its projects, their orders and what the health
/// checks found.
#[derive(Debug, PartialEq, Eq)]
pub struct DockerSnapshot {
    projects: Vec<Project>,
    orders: ProjectOrders,
    health: Vec<ProjectHealth>,
    global_findings: Vec<String>,
}

/// A snapshot as text and numbers.
#[verifier::ext_equal]
pub struct SnapshotModel {
    pub projects: Seq<ProjectModel>,
    pub severity: Seq<usize>,
    pub name_asc: Seq<usize>,
    pub active_desc: Seq<usize>,
    pub health: Seq<HealthModel>,
    pub global_findings: Seq<Seq<char>>,
}

impl SnapshotModel {
    /// The positions of the projects in the order of `mode`.
    pub open spec fn order(self, mode: SortMode) -> Seq<usize> {
        match mode {
            SortMode::Severity => self.severity,
            SortMode::NameAsc => self.name_asc,
            SortMode::ActiveDesc => self.active_desc,
        }
    }

    /// Whether every order lists each project exactly once.
    pub open spec fn well_formed(self) -> bool {
        forall|mode: SortMode| is_order(#[trigger] self.order(mode), self.projects.len())
    }

    /// The projects in the order of `mode`.
    pub open spec fn sorted(self, mode: SortMode) -> Seq<ProjectModel> {
        self.order(mode).map_values(|i: usize| self.projects[i as int])
    }
}

impl View for DockerSnapshot {
    type V = SnapshotModel;

    closed spec fn view(&self) -> SnapshotModel {
        SnapshotModel {
            projects: project_models(self.projects@),
            severity: self.orders.severity@,
            name_asc: self.orders.name_asc@,
            active_desc: self.orders.active_desc@,
            health: health_models(self.health@),
            global_findings: texts(self.global_findings@),
        }
    }
}

/// Whether `order` lists each of the positions below `n` exactly once.
fn check_order(order: &Vec<usize>, n: usize) -> (yes: bool)
    ensures
        yes == is_order(order@, n as nat),
{
    if order.len() != n {
        return false;
    }
    let mut i: usize = 0;
    while i < n
        invariant
            order@.len() == n,
            i <= n,
            forall|a: int| 0 <= a < i ==> #[trigger] order@[a] < n,
            forall|a: int, b: int|
                0 <= a < b < i ==> #[trigger] order@[a] != #[trigger] order@[b],
        decreases n - i,
    {
        if order[i] >= n {
            return false;
        }
        let mut j: usize = 0;
        while j < i
            invariant
                order@.len() == n,
                j <= i < n,
                forall|a: int| 0 <= a < j ==> #[trigger] order@[a] != order@[i as int],
            decreases i - j,
        {
            if order[j] == order[i] {
                return false;
            }
            j = j + 1;
        }
        i = i + 1;
    }
    true
}

impl DockerSnapshot {
    #[verifier::type_invariant]
    closed spec fn orders_list_every_project(self) -> bool {
        &&& is_order(self.orders.severity@, self.projects@.len())
        &&& is_order(self.orders.name_asc@, self.projects@.len())
        &&& is_order(self.orders.active_desc@, self.projects@.len())
    }

    /// A snapshot of `projects`; `None` where an order does not list each of them exactly
    /// once.
    pub fn from_listing(
        projects: Vec<Project>,
        orders: ProjectOrders,
        health: Vec<ProjectHealth>,
        global_findings: Vec<String>,
    ) -> (snapshot: Option<DockerSnapshot>)
        ensures
            snapshot is Some <==> is_order(orders.severity@, projects@.len()) && is_order(
                orders.name_asc@,
                projects@.len(),
            ) && is_order(orders.active_desc@, projects@.len()),
            snapshot matches Some(s) ==> s@ == (SnapshotModel {
                projects: project_models(projects@),
                severity: orders.severity@,
                name_asc: orders.name_asc@,
                active_desc: orders.active_desc@,
                health: health_models(health@),
                global_findings: texts(global_findings@),
            }),
    {
        let n: usize = projects.len();
        if check_order(&orders.severity, n) && check_order(&orders.name_asc, n) && check_order(
            &orders.active_desc,
            n,
        ) {
            Some(DockerSnapshot { projects, orders, health, global_findings })
        } else {
            None
        }
    }

    /// The projects, in the order in which the host lists them.
    pub fn projects(&self) -> (projects: &Vec<Project>)
        ensures
            project_models(projects@) == self@.projects,
            self@.well_formed(),
    {
        proof {
            use_type_invariant(self);
        }
        &self.projects
    }

    /// What the health checks found, project by project.
    pub fn health(&self) -> (health: &Vec<ProjectHealth>)
        ensures
            health_models(health@) == self@.health,
    {
        &self.health
    }

    /// What the health checks found of the host as a whole.
    pub fn global_findings(&self) -> (findings: &Vec<String>)
        ensures
            texts(findings@) == self@.global_findings,
    {
        &self.global_findings
    }

    /// Copies of the projects in the order of `mode`.
    pub fn projects_sorted(&self, mode: SortMode) -> (sorted: Vec<Project>)
        ensures
            project_models(sorted@) == self@.sorted(mode),
            self@.well_formed(),
    {
        proof {
            use_type_invariant(self);
        }
        let order: &Vec<usize> = match mode {
            SortMode::Severity => &self.orders.severity,
            SortMode::NameAsc => &self.orders.name_asc,
            SortMode::ActiveDesc => &self.orders.active_desc,
        };
        let mut sorted: Vec<Project> = Vec::new();
        let mut i: usize = 0;
        while i < order.len()
            invariant
                i <= order@.len(),
                order@ == self@.order(mode),
                is_order(order@, self.projects@.len()),
                self@.projects == project_models(self.projects@),
                project_models(sorted@) == self@.sorted(mode).take(i as int),
            decreases order@.len() - i,
        {
            let at: usize = order[i];
            let ghost done = sorted@;
            let project = self.projects[at].clone();
            sorted.push(project);
            proof {
                assert(project_models(sorted@) == project_models(done).push(project@));
                assert(self@.sorted(mode).take(i + 1) == self@.sorted(mode).take(i as int).push(
                    project@,
                ));
            }
            i = i + 1;
        }
        sorted
    }
}

/// Each order of a well-formed snapshot lists the same projects: none is lost and none is
/// made up.
pub proof fn sorted_lists_the_same_projects(s: SnapshotModel, mode: SortMode)
    requires
        s.well_formed(),
    ensures
        s.sorted(mode).len() == s.projects.len(),
        forall|p: ProjectModel| s.sorted(mode).contains(p) <==> s.projects.contains(p),
{
    let order = s.order(mode);
    let n = s.projects.len();
    assert(is_order(order, n));
    assert forall|p: ProjectModel| s.projects.contains(p) implies s.sorted(mode).contains(p) by {
        let k = choose|k: int| 0 <= k < n && s.projects[k] == p;
        order_reaches(order, n, k);
        let i = choose|i: int| 0 <= i < n && order[i] == k;
        assert(s.sorted(mode)[i] == p);
    }
    assert forall|p: ProjectModel| s.sorted(mode).contains(p) implies s.projects.contains(p) by {
        let i = choose|i: int| 0 <= i < n && s.sorted(mode)[i] == p;
        assert(s.projects[order[i] as int] == p);
    }
}

proof fn order_reaches(order: Seq<usize>, n: nat, k: int)
    requires
        is_order(order, n),
        0 <= k < n,
    ensures
        exists|i: int| 0 <= i < n && order[i] == k,
{
    let hit = order.map_values(|i: usize| i as int).to_set();
    let all = vstd::set_lib::set_int_range(0, n as int);
    vstd::set_lib::lemma_int_range(0, n as int);
    let ints = order.map_values(|i: usize| i as int);
    assert(ints.no_duplicates());
    ints.unique_seq_to_set();
    assert(hit.subset_of(all)) by {
        assert forall|x: int| hit.contains(x) implies all.contains(x) by {
            let i = choose|i: int| 0 <= i < n && ints[i] == x;
            assert(order[i] < n);
        }
    }
    vstd::set_lib::lemma_subset_equality(hit, all);
    assert(hit.contains(k));
    let i = choose|i: int| 0 <= i < n && ints[i] == k;
    assert(order[i] == k);
}

/// What an operation would touch, and what has to be typed to confirm it.
#[derive(Debug, PartialEq, Eq)]
pub struct OperationPlan {
    pub action: OperationAction,
    pub summary: String,
    pub projects: Vec<String>,
    pub containers: Vec<String>,
    pub networks: Vec<String>,
    pub volumes: Vec<String>,
    pub images: Vec<String>,
    pub warnings: Vec<String>,
    pub confirmation_token: Option<String>,
}

/// A plan as text.
#[verifier::ext_equal]
pub struct PlanModel {
    pub action: OperationAction,
    pub summary: Seq<char>,
    pub projects: Seq<Seq<char>>,
    pub containers: Seq<Seq<char>>,
    pub networks: Seq<Seq<char>>,
    pub volumes: Seq<Seq<char>>,
    pub images: Seq<Seq<char>>,
    pub warnings: Seq<Seq<char>>,
    pub confirmation_token: Option<Seq<char>>,
}

/// The text of an optional string.
pub open spec fn text_of(s: Option<String>) -> Option<Seq<char>> {
    match s {
        Some(s) => Some(s@),
        None => None,
    }
}

impl View for OperationPlan {
    type V = PlanModel;

    open spec fn view(&self) -> PlanModel {
        PlanModel {
            action: self.action,
            summary: self.summary@,
            projects: texts(self.projects@),
            containers: texts(self.containers@),
            networks: texts(self.networks@),
            volumes: texts(self.volumes@),
            images: texts(self.images@),
            warnings: texts(self.warnings@),
            confirmation_token: text_of(self.confirmation_token),
        }
    }
}

/// Why something could not be done.
#[derive(Debug, PartialEq, Eq)]
pub struct AppError {
    pub message: String,
}

impl View for AppError {
    type V = Seq<char>;

    open spec fn view(&self) -> Seq<char> {
        self.message@
    }
}

/// A result, or why there is none.
pub type AppResult<T> = Result<T, AppError>;

/// The failure with the message `text`.
pub fn msg<T>(text: &str) -> (failure: AppResult<T>)
    ensures
        failure matches Err(e) && e@ == text@,
{
    Err(AppError { message: text.to_owned() })
}

/// Any list of as many positions as there are projects that reaches every project is taken as an
/// order.
pub proof fn reaching_every_project_is_an_order(order: Seq<usize>, n: nat)
    requires
        order.len() == n,
        n <= usize::MAX,
        forall|k: usize| k < n ==> #[trigger] order.contains(k),
        forall|i: int| 0 <= i < n ==> #[trigger] order[i] < n,
    ensures
        is_order(order, n),
{
    let ints = order.map_values(|i: usize| i as int);
    let all = vstd::set_lib::set_int_range(0, n as int);
    vstd::set_lib::lemma_int_range(0, n as int);
    assert forall|x: int| ints.to_set().contains(x) <==> all.contains(x) by {
        if all.contains(x) {
            assert(order.contains(x as usize));
            let i = choose|i: int| 0 <= i < n && order[i] == x as usize;
            assert(ints[i] == x);
        }
        if ints.to_set().contains(x) {
            let i = choose|i: int| 0 <= i < n && ints[i] == x;
            assert(order[i] < n);
        }
    }
    assert(ints.to_set() =~= all);
    ints.lemma_no_dup_set_cardinality();
    assert forall|i: int, j: int| 0 <= i < j < n implies #[trigger] order[i]
        != #[trigger] order[j] by {
        assert(ints[i] != ints[j]);
    }
}

/// The sort modes go by their own orders: each place of the sorted projects holds the project at
/// the position that the order of the mode gives.
pub proof fn sorting_goes_by_the_mode(s: SnapshotModel, i: int)
    ensures
        s.sorted(SortMode::Severity).len() == s.severity.len(),
        s.sorted(SortMode::NameAsc).len() == s.name_asc.len(),
        s.sorted(SortMode::ActiveDesc).len() == s.active_desc.len(),
        0 <= i < s.severity.len() ==> s.sorted(SortMode::Severity)[i]
            == s.projects[s.severity[i] as int],
        0 <= i < s.name_asc.len() ==> s.sorted(SortMode::NameAsc)[i]
            == s.projects[s.name_asc[i] as int],
        0 <= i < s.active_desc.len() ==> s.sorted(SortMode::ActiveDesc)[i]
            == s.projects[s.active_desc[i] as int],
{
}

/// The model of a project holds what the project holds, part by part.
pub proof fn project_model_holds_the_parts(p: Project, i: int)
    ensures
        p@.name == p.name@ && p@.kind == p.kind@ && p@.state_code == p.state_code@,
        p@.active == p.active && p@.stopped == p.stopped && p@.unhealthy == p.unhealthy,
        p@.restarting == p.restarting && p@.paused == p.paused,
        p@.containers.len() == p.containers@.len(),
        p@.networks.len() == p.networks@.len(),
        p@.volumes.len() == p.volumes@.len(),
        p@.images.len() == p.images@.len(),
        p@.ports.len() == p.ports@.len(),
        0 <= i < p.containers@.len() ==> p@.containers[i] == p.containers@[i]@,
        0 <= i < p.networks@.len() ==> p@.networks[i] == p.networks@[i]@,
        0 <= i < p.volumes@.len() ==> p@.volumes[i] == p.volumes@[i]@,
        0 <= i < p.images@.len() ==> p@.images[i] == p.images@[i]@,
        0 <= i < p.ports@.len() ==> p@.ports[i] == p.ports@[i]@,
{
}

/// The models of a container, a health result and a plan hold what these hold, part by part.
pub proof fn models_hold_the_parts(c: Container, h: ProjectHealth, plan: OperationPlan, i: int)
    ensures
        c@.name == c.name@ && c@.image == c.image@,
        c@.state_code == c.state_code@ && c@.status == c.status@,
        h@.status == h.status@ && h@.project == h.project@,
        h@.findings.len() == h.findings@.len(),
        0 <= i < h.findings@.len() ==> h@.findings[i] == h.findings@[i]@,
        plan@.action == plan.action && plan@.summary == plan.summary@,
        plan@.projects.len() == plan.projects@.len(),
        plan@.containers.len() == plan.containers@.len(),
        plan@.networks.len() == plan.networks@.len(),
        plan@.volumes.len() == plan.volumes@.len(),
        plan@.images.len() == plan.images@.len(),
        plan@.warnings.len() == plan.warnings@.len(),
        0 <= i < plan.projects@.len() ==> plan@.projects[i] == plan.projects@[i]@,
        0 <= i < plan.containers@.len() ==> plan@.containers[i] == plan.containers@[i]@,
        0 <= i < plan.networks@.len() ==> plan@.networks[i] == plan.networks@[i]@,
        0 <= i < plan.volumes@.len() ==> plan@.volumes[i] == plan.volumes@[i]@,
        0 <= i < plan.images@.len() ==> plan@.images[i] == plan.images@[i]@,
        0 <= i < plan.warnings@.len() ==> plan@.warnings[i] == plan.warnings@[i]@,
        plan.confirmation_token is None ==> plan@.confirmation_token is None,
        plan.confirmation_token matches Some(token) ==> plan@.confirmation_token == Some(token@),
{
}

} // verus!
