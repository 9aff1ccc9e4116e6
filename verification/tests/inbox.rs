use dockerctl::domain::{DockerSnapshot, Project, ProjectOrders};
use dockerctl::inbox::{
    build_ops_inbox, category_rank, project_risk_item, severity_rank, sort_inbox_items, InboxItem,
    InboxSeverity,
};
use dockerctl::resources::{Percent, ResourcePanelData, ResourceRow};

fn project(name: &str) -> Project {
    Project {
        name: name.into(),
        kind: "Compose".into(),
        state_code: "OK".into(),
        active: 0,
        stopped: 0,
        unhealthy: 0,
        restarting: 0,
        paused: 0,
        containers: vec![],
        networks: vec![],
        volumes: vec![],
        images: vec![],
        ports: vec![],
    }
}

fn snapshot(projects: Vec<Project>) -> DockerSnapshot {
    let order: Vec<usize> = (0..projects.len()).collect();
    DockerSnapshot::from_listing(
        projects,
        ProjectOrders {
            severity: order.clone(),
            name_asc: order.clone(),
            active_desc: order,
        },
        vec![],
        vec![],
    )
    .expect("orders")
}

fn percent(value: f64) -> Percent {
    Percent {
        whole: value.floor() as i64,
        text: format!("{value:.1}"),
    }
}

fn row(name: &str, cpu: f64, memory: f64, error: Option<&str>) -> ResourceRow {
    ResourceRow {
        container_id: format!("{name}-id"),
        container_name: name.into(),
        cpu_percent: percent(cpu),
        memory_percent: percent(memory),
        error: error.map(|text| text.to_string()),
    }
}

fn data(loading: bool, rows: Vec<ResourceRow>) -> ResourcePanelData {
    ResourcePanelData {
        project: "shop".into(),
        loading,
        rows,
    }
}

fn item(severity: InboxSeverity, category: &str, project: Option<&str>, title: &str) -> InboxItem {
    InboxItem {
        severity,
        category: category.into(),
        project: project.map(|name| name.to_string()),
        title: title.into(),
        detail: String::new(),
        command: String::new(),
    }
}

#[test]
fn empty_host_has_one_idle_item() {
    let inbox = build_ops_inbox(&snapshot(vec![]), None);
    assert_eq!(inbox.items.len(), 1);
    assert_eq!(
        inbox.items[0],
        InboxItem {
            severity: InboxSeverity::Info,
            category: "Next Action".into(),
            project: None,
            title: "No urgent action".into(),
            detail: "No projects or resource pressure found in the current snapshot.".into(),
            command: "dockerctl list".into(),
        }
    );
}

#[test]
fn project_without_active_containers_is_idle() {
    let inbox = build_ops_inbox(&snapshot(vec![project("shop")]), None);
    assert_eq!(inbox.items.len(), 1);
    assert_eq!(inbox.items[0].title, "No urgent action");
}

#[test]
fn critical_project_comes_first_and_suggests_rescue() {
    let mut calm = project("calm");
    calm.active = 2;
    calm.stopped = 3;
    let mut sick = project("sick");
    sick.active = 3;
    sick.unhealthy = 1;
    sick.restarting = 2;
    sick.paused = 4;
    let inbox = build_ops_inbox(&snapshot(vec![calm, sick]), None);
    let titles: Vec<&str> = inbox.items.iter().map(|i| i.title.as_str()).collect();
    assert_eq!(
        titles,
        vec![
            "sick needs attention",
            "3 stopped containers can be reviewed",
            "Run rescue preflight for sick",
        ]
    );
    assert_eq!(inbox.items[0].severity, InboxSeverity::Critical);
    assert_eq!(inbox.items[0].detail, "1 unhealthy, 2 restarting, 4 paused");
    assert_eq!(
        inbox.items[0].command,
        "dockerctl doctor --json | jq '.projects[] | select(.project==\"sick\")'"
    );
    assert_eq!(inbox.items[1].command, "dockerctl safe-prune --dry-run");
    assert_eq!(inbox.items[2].command, "dockerctl rescue sick --dry-run");
}

#[test]
fn paused_project_is_a_warning_and_active_one_is_inspected() {
    let mut paused = project("paused");
    paused.paused = 1;
    let mut active = project("active");
    active.active = 1;
    let inbox = build_ops_inbox(&snapshot(vec![paused, active]), None);
    assert_eq!(inbox.items.len(), 2);
    assert_eq!(inbox.items[0].severity, InboxSeverity::Warning);
    assert_eq!(inbox.items[0].category, "Critical");
    assert_eq!(inbox.items[0].detail, "1 paused");
    assert_eq!(inbox.items[1].title, "Inspect active");
    assert_eq!(inbox.items[1].command, "dockerctl inspect active");
}

#[test]
fn pressure_starts_at_the_limits() {
    let rows = vec![
        row("below", 79.96, 84.99, None),
        row("cpu", 80.0, 10.0, None),
        row("memory", 1.0, 85.04, None),
        row("broken", 99.0, 99.0, Some("no stats")),
    ];
    let inbox = build_ops_inbox(&snapshot(vec![]), Some(&data(false, rows)));
    let titles: Vec<&str> = inbox.items.iter().map(|i| i.title.as_str()).collect();
    assert_eq!(
        titles,
        vec!["High CPU: cpu", "High memory: memory", "Stats error: broken"]
    );
    assert_eq!(inbox.items[0].detail, "80.0% CPU in shop");
    assert_eq!(inbox.items[0].command, "dockerctl stats cpu-id --json");
    assert_eq!(inbox.items[1].detail, "85.0% memory in shop");
    assert_eq!(inbox.items[2].detail, "no stats");
    assert_eq!(inbox.items[2].command, "dockerctl stats broken-id");
    assert_eq!(inbox.items[2].project, Some("shop".to_string()));
}

#[test]
fn loading_resources_are_left_out() {
    let rows = vec![row("cpu", 100.0, 100.0, None)];
    let inbox = build_ops_inbox(&snapshot(vec![]), Some(&data(true, rows)));
    assert_eq!(inbox.items.len(), 1);
    assert_eq!(inbox.items[0].title, "No urgent action");
}

#[test]
fn sort_is_by_severity_category_project_and_title() {
    let mut items = vec![
        item(InboxSeverity::Info, "Cleanup", None, "b"),
        item(InboxSeverity::Warning, "Other", Some("a"), "x"),
        item(InboxSeverity::Warning, "Resource Pressure", Some("b"), "x"),
        item(InboxSeverity::Warning, "Resource Pressure", Some("a"), "y"),
        item(InboxSeverity::Warning, "Resource Pressure", Some("a"), "x"),
        item(InboxSeverity::Warning, "Resource Pressure", None, "z"),
        item(InboxSeverity::Critical, "Next Action", Some("zz"), "z"),
        item(InboxSeverity::Info, "Cleanup", None, "a"),
    ];
    sort_inbox_items(&mut items);
    let keys: Vec<(InboxSeverity, &str, Option<&str>, &str)> = items
        .iter()
        .map(|i| {
            (
                i.severity,
                i.category.as_str(),
                i.project.as_deref(),
                i.title.as_str(),
            )
        })
        .collect();
    assert_eq!(
        keys,
        vec![
            (InboxSeverity::Critical, "Next Action", Some("zz"), "z"),
            (InboxSeverity::Warning, "Resource Pressure", None, "z"),
            (InboxSeverity::Warning, "Resource Pressure", Some("a"), "x"),
            (InboxSeverity::Warning, "Resource Pressure", Some("a"), "y"),
            (InboxSeverity::Warning, "Resource Pressure", Some("b"), "x"),
            (InboxSeverity::Warning, "Other", Some("a"), "x"),
            (InboxSeverity::Info, "Cleanup", None, "a"),
            (InboxSeverity::Info, "Cleanup", None, "b"),
        ]
    );
}

#[test]
fn items_with_equal_keys_keep_their_order() {
    let mut first = item(InboxSeverity::Info, "Cleanup", None, "same");
    first.detail = "first".into();
    let mut second = first.clone();
    second.detail = "second".into();
    let urgent = item(InboxSeverity::Critical, "Critical", None, "now");
    let mut items = vec![first.clone(), second.clone(), urgent.clone()];
    sort_inbox_items(&mut items);
    assert_eq!(items, vec![urgent, first, second]);
}

#[test]
fn sort_agrees_with_the_order_of_std() {
    let titles = ["b", "", "ä", "a", "aa", "B", "中", "z"];
    let mut items: Vec<InboxItem> = titles
        .iter()
        .map(|t| item(InboxSeverity::Info, "Cleanup", Some(*t), "t"))
        .collect();
    let mut expected: Vec<String> = titles.iter().map(|t| t.to_string()).collect();
    expected.sort();
    sort_inbox_items(&mut items);
    let sorted: Vec<String> = items.into_iter().map(|i| i.project.expect("name")).collect();
    assert_eq!(sorted, expected);
}

#[test]
fn ranks_are_fixed() {
    assert_eq!(severity_rank(InboxSeverity::Critical), 0);
    assert_eq!(severity_rank(InboxSeverity::Warning), 1);
    assert_eq!(severity_rank(InboxSeverity::Info), 2);
    assert_eq!(category_rank("Critical"), 0);
    assert_eq!(category_rank("Resource Pressure"), 1);
    assert_eq!(category_rank("Cleanup"), 2);
    assert_eq!(category_rank("Next Action"), 3);
    assert_eq!(category_rank("critical"), 4);
}

#[test]
fn risk_item_without_signals_has_no_detail() {
    let item = project_risk_item(&project("shop"), InboxSeverity::Warning);
    assert_eq!(item.detail, "");
    assert_eq!(item.title, "shop needs attention");
}

#[test]
fn an_inbox_can_be_copied() {
    let inbox = build_ops_inbox(&snapshot(vec![]), None);
    assert_eq!(inbox.clone(), inbox);
}

#[test]
fn listing_order_changes_only_the_suggestion() {
    let mut sick = project("sick");
    sick.unhealthy = 1;
    sick.stopped = 2;
    let mut loops = project("loops");
    loops.restarting = 3;
    let mut paused = project("paused");
    paused.paused = 1;
    paused.stopped = 1;
    let inbox = |projects: Vec<Project>| {
        let rows = vec![row("cpu", 91.0, 10.0, None)];
        build_ops_inbox(&snapshot(projects), Some(&data(false, rows))).items
    };
    let one = inbox(vec![sick.clone(), loops.clone(), paused.clone()]);
    let other = inbox(vec![paused, loops, sick]);
    let titles = |items: &[InboxItem], suggested: bool| {
        items
            .iter()
            .filter(|i| (i.category == "Next Action") == suggested)
            .map(|i| i.title.clone())
            .collect::<Vec<String>>()
    };
    assert_eq!(titles(&one, true), vec!["Run rescue preflight for sick"]);
    assert_eq!(titles(&other, true), vec!["Run rescue preflight for loops"]);
    assert_eq!(titles(&one, false), titles(&other, false));
    assert_eq!(
        titles(&one, false),
        vec![
            "loops needs attention",
            "sick needs attention",
            "paused needs attention",
            "High CPU: cpu",
            "3 stopped containers can be reviewed",
        ]
    );
}
