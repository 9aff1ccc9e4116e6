//! What stands in the inbox, and in which order, in plain terms.

use vstd::prelude::*;

use crate::domain::ProjectModel;
use crate::inbox::{
    cleanup_items, critical, failure_items, failure_items_of, findings, first_project, idle_item,
    is_inbox_of, is_stable_sort, key, key_before, next_items, pressure_items, pressure_items_of,
    project_before, rank_of_category, rank_of_severity, resource_items, risk_item, risk_items,
    risk_items_of, risk_signals, signal, stable_sort_keeps_every_item, total_stopped,
    InboxItem, InboxSeverity, ItemModel,
};
use crate::resources::{ResourceModel, ResourcePanelData, ResourceRow, RowModel};
use crate::text::{before, decimal, joined, joining_separates_neighbours};

verus! {

/// Whether a container of the project is unhealthy or keeps restarting.
pub open spec fn in_trouble(p: ProjectModel) -> bool {
    p.unhealthy > 0 || p.restarting > 0
}

/// Whether an item of this category and title stands in the list.
pub open spec fn has_item(items: Seq<ItemModel>, category: Seq<char>, title: Seq<char>) -> bool {
    exists|k: int|
        0 <= k < items.len() && (#[trigger] items[k]).category == category && items[k].title
            == title
}

proof fn categories_differ()
    ensures
        "Critical"@ != "Resource Pressure"@,
        "Critical"@ != "Cleanup"@,
        "Critical"@ != "Next Action"@,
        "Resource Pressure"@ != "Cleanup"@,
        "Resource Pressure"@ != "Next Action"@,
        "Cleanup"@ != "Next Action"@,
{
    reveal_strlit("Critical");
    reveal_strlit("Resource Pressure");
    reveal_strlit("Cleanup");
    reveal_strlit("Next Action");
    assert("Critical"@.len() == 8);
    assert("Resource Pressure"@.len() == 17);
    assert("Cleanup"@.len() == 7);
    assert("Next Action"@.len() == 11);
}

proof fn pressure_titles_differ(a: Seq<char>, b: Seq<char>)
    ensures
        "High CPU: "@ + a != "High memory: "@ + b,
        "High CPU: "@ + a != "Stats error: "@ + b,
        "High memory: "@ + a != "Stats error: "@ + b,
{
    reveal_strlit("High CPU: ");
    reveal_strlit("High memory: ");
    reveal_strlit("Stats error: ");
    let (c, m, e) = ("High CPU: "@, "High memory: "@, "Stats error: "@);
    assert((c + a)[5] == 'C' && (m + b)[5] == 'm' && (m + a)[5] == 'm');
    assert((c + a)[0] == 'H' && (m + a)[0] == 'H' && (e + b)[0] == 'S');
}

proof fn same_start_same_rest(start: Seq<char>, a: Seq<char>, b: Seq<char>)
    requires
        start + a == start + b,
    ensures
        a == b,
{
    assert((start + a).skip(start.len() as int) == a);
    assert((start + b).skip(start.len() as int) == b);
}

proof fn risk_items_by_project(projects: Seq<ProjectModel>, x: ItemModel)
    ensures
        risk_items(projects).contains(x) <==> exists|i: int|
            0 <= i < projects.len() && risk_items_of(#[trigger] projects[i]).contains(x),
    decreases projects.len(),
{
    if projects.len() > 0 {
        let (front, last) = (projects.drop_last(), projects.last());
        risk_items_by_project(front, x);
        let (a, b) = (risk_items(front), risk_items_of(last));
        in_one_of_both(a, b, x);
        if b.contains(x) {
            assert(projects[projects.len() - 1] == last);
        }
        if a.contains(x) {
            let i = choose|i: int|
                0 <= i < front.len() && risk_items_of(#[trigger] front[i]).contains(x);
            assert(projects[i] == front[i]);
        }
        if exists|i: int|
            0 <= i < projects.len() && risk_items_of(#[trigger] projects[i]).contains(x) {
            let i = choose|i: int|
                0 <= i < projects.len() && risk_items_of(#[trigger] projects[i]).contains(x);
            if i < front.len() {
                assert(front[i] == projects[i]);
            }
        }
    }
}

proof fn in_one_of_both(a: Seq<ItemModel>, b: Seq<ItemModel>, x: ItemModel)
    ensures
        (a + b).contains(x) <==> a.contains(x) || b.contains(x),
{
    if a.contains(x) {
        let k = choose|k: int| 0 <= k < a.len() && a[k] == x;
        assert((a + b)[k] == x);
    }
    if b.contains(x) {
        let k = choose|k: int| 0 <= k < b.len() && b[k] == x;
        assert((a + b)[a.len() + k] == x);
    }
    if (a + b).contains(x) {
        let k = choose|k: int| 0 <= k < (a + b).len() && (a + b)[k] == x;
        if k < a.len() {
            assert(a[k] == x);
        } else {
            assert(b[k - a.len()] == x);
        }
    }
}

proof fn resource_items_by_row(project: Seq<char>, rows: Seq<RowModel>, x: ItemModel)
    ensures
        pressure_items(project, rows).contains(x) <==> exists|i: int|
            0 <= i < rows.len() && pressure_items_of(project, #[trigger] rows[i]).contains(x),
        failure_items(project, rows).contains(x) <==> exists|i: int|
            0 <= i < rows.len() && failure_items_of(project, #[trigger] rows[i]).contains(x),
    decreases rows.len(),
{
    if rows.len() > 0 {
        let (front, last) = (rows.drop_last(), rows.last());
        resource_items_by_row(project, front, x);
        in_one_of_both(pressure_items(project, front), pressure_items_of(project, last), x);
        in_one_of_both(failure_items(project, front), failure_items_of(project, last), x);
        assert(rows[rows.len() - 1] == last);
        assert forall|i: int| 0 <= i < front.len() implies #[trigger] front[i] == rows[i] by {}
        if pressure_items(project, front).contains(x) {
            let i = choose|i: int|
                0 <= i < front.len() && pressure_items_of(project, #[trigger] front[i]).contains(x);
            assert(rows[i] == front[i]);
        }
        if failure_items(project, front).contains(x) {
            let i = choose|i: int|
                0 <= i < front.len() && failure_items_of(project, #[trigger] front[i]).contains(x);
            assert(rows[i] == front[i]);
        }
        if exists|i: int|
            0 <= i < rows.len() && pressure_items_of(project, #[trigger] rows[i]).contains(x) {
            let i = choose|i: int|
                0 <= i < rows.len() && pressure_items_of(project, #[trigger] rows[i]).contains(x);
            if i < front.len() {
                assert(front[i] == rows[i]);
            }
        }
        if exists|i: int|
            0 <= i < rows.len() && failure_items_of(project, #[trigger] rows[i]).contains(x) {
            let i = choose|i: int|
                0 <= i < rows.len() && failure_items_of(project, #[trigger] rows[i]).contains(x);
            if i < front.len() {
                assert(front[i] == rows[i]);
            }
        }
    }
}

/// What was found stands in the inbox, and what stands in it was found, but for the item of an
/// inbox in which nothing was found.
proof fn inbox_holds_what_was_found(
    projects: Seq<ProjectModel>,
    data: Option<ResourceModel>,
    inbox: Seq<ItemModel>,
    x: ItemModel,
)
    requires
        is_inbox_of(findings(projects, data), inbox),
    ensures
        findings(projects, data).contains(x) <==> risk_items(projects).contains(x)
            || resource_items(data).contains(x) || cleanup_items(projects).contains(x)
            || next_items(projects).contains(x),
        findings(projects, data).contains(x) ==> inbox.contains(x),
        inbox.contains(x) ==> findings(projects, data).contains(x) || (x == idle_item()
            && findings(projects, data).len() == 0),
{
    broadcast use vstd::seq_lib::group_to_multiset_ensures;

    let found = findings(projects, data);
    let (a, b, c, d) = (
        risk_items(projects),
        resource_items(data),
        cleanup_items(projects),
        next_items(projects),
    );
    in_one_of_both(a, b, x);
    in_one_of_both(a + b, c, x);
    in_one_of_both(a + b + c, d, x);
    if found.len() > 0 {
        stable_sort_keeps_every_item(found, inbox);
        assert(found.contains(x) <==> found.to_multiset().count(x) > 0);
        assert(inbox.contains(x) <==> inbox.to_multiset().count(x) > 0);
    }
}

/// What there is to know of one item by its kind.
proof fn kinds_of_items(
    projects: Seq<ProjectModel>,
    data: Option<ResourceModel>,
    inbox: Seq<ItemModel>,
    x: ItemModel,
)
    requires
        is_inbox_of(findings(projects, data), inbox),
        inbox.contains(x),
    ensures
        x.category == "Critical"@ ==> risk_items(projects).contains(x),
        x.category == "Resource Pressure"@ ==> resource_items(data).contains(x),
        x.category == "Cleanup"@ ==> cleanup_items(projects).contains(x),
        x.category == "Critical"@ || x.category == "Resource Pressure"@ || x.category
            == "Cleanup"@ || x.category == "Next Action"@,
        x.category == "Next Action"@ ==> next_items(projects).contains(x) || (x == idle_item()
            && findings(projects, data).len() == 0),
{
    categories_differ();
    inbox_holds_what_was_found(projects, data, inbox, x);
    if risk_items(projects).contains(x) {
        risk_items_by_project(projects, x);
        assert(x.category == "Critical"@);
    }
    if resource_items(data).contains(x) {
        let d = data->0;
        in_one_of_both(pressure_items(d.project, d.rows), failure_items(d.project, d.rows), x);
        resource_items_by_row(d.project, d.rows, x);
        assert(x.category == "Resource Pressure"@);
    }
    if cleanup_items(projects).contains(x) {
        assert(x.category == "Cleanup"@);
    }
    if next_items(projects).contains(x) {
        assert(x.category == "Next Action"@);
    }
}

proof fn row_items_are_in_the_inbox(
    projects: Seq<ProjectModel>,
    data: ResourceModel,
    inbox: Seq<ItemModel>,
    i: int,
    x: ItemModel,
)
    requires
        is_inbox_of(findings(projects, Some(data)), inbox),
        !data.loading,
        0 <= i < data.rows.len(),
        pressure_items_of(data.project, data.rows[i]).contains(x) || failure_items_of(
            data.project,
            data.rows[i],
        ).contains(x),
    ensures
        inbox.contains(x),
{
    resource_items_by_row(data.project, data.rows, x);
    in_one_of_both(
        pressure_items(data.project, data.rows),
        failure_items(data.project, data.rows),
        x,
    );
    inbox_holds_what_was_found(projects, Some(data), inbox, x);
}

proof fn pressure_is_of_a_row(
    projects: Seq<ProjectModel>,
    data: ResourceModel,
    inbox: Seq<ItemModel>,
    x: ItemModel,
) -> (i: int)
    requires
        is_inbox_of(findings(projects, Some(data)), inbox),
        !data.loading,
        inbox.contains(x),
        x.category == "Resource Pressure"@,
    ensures
        0 <= i < data.rows.len(),
        pressure_items_of(data.project, data.rows[i]).contains(x) || failure_items_of(
            data.project,
            data.rows[i],
        ).contains(x),
{
    kinds_of_items(projects, Some(data), inbox, x);
    in_one_of_both(
        pressure_items(data.project, data.rows),
        failure_items(data.project, data.rows),
        x,
    );
    resource_items_by_row(data.project, data.rows, x);
    choose|i: int|
        0 <= i < data.rows.len() && (pressure_items_of(
            data.project,
            #[trigger] data.rows[i],
        ).contains(x) || failure_items_of(data.project, data.rows[i]).contains(x))
}

/// A measured container at or above 85 percent of memory has its warning in the inbox, whatever
/// its share of processor time is; without such a container of that name there is no such
/// warning.
pub proof fn high_memory_is_reported(
    projects: Seq<ProjectModel>,
    data: ResourceModel,
    inbox: Seq<ItemModel>,
    name: Seq<char>,
)
    requires
        is_inbox_of(findings(projects, Some(data)), inbox),
        !data.loading,
    ensures
        has_item(inbox, "Resource Pressure"@, "High memory: "@ + name) <==> exists|i: int|
            0 <= i < data.rows.len() && (#[trigger] data.rows[i]).container_name == name
                && data.rows[i].error is None && data.rows[i].memory_percent.whole >= 85,
        forall|i: int|
            0 <= i < data.rows.len() && (#[trigger] data.rows[i]).error is None
                && data.rows[i].memory_percent.whole >= 85 ==> inbox.contains(
                ItemModel {
                    severity: InboxSeverity::Warning,
                    category: "Resource Pressure"@,
                    project: Some(data.project),
                    title: "High memory: "@ + data.rows[i].container_name,
                    detail: data.rows[i].memory_percent.text + "% memory in "@ + data.project,
                    command: "dockerctl stats "@ + data.rows[i].container_id + " --json"@,
                },
            ),
{
    let title = "High memory: "@ + name;
    assert forall|i: int|
        0 <= i < data.rows.len() && (#[trigger] data.rows[i]).error is None
            && data.rows[i].memory_percent.whole >= 85 implies inbox.contains(
        (ItemModel {
            severity: InboxSeverity::Warning,
            category: "Resource Pressure"@,
            project: Some(data.project),
            title: "High memory: "@ + data.rows[i].container_name,
            detail: data.rows[i].memory_percent.text + "% memory in "@ + data.project,
            command: "dockerctl stats "@ + data.rows[i].container_id + " --json"@,
        }),
    ) by {
        let row = data.rows[i];
        let x = ItemModel {
            severity: InboxSeverity::Warning,
            category: "Resource Pressure"@,
            project: Some(data.project),
            title: "High memory: "@ + row.container_name,
            detail: row.memory_percent.text + "% memory in "@ + data.project,
            command: "dockerctl stats "@ + row.container_id + " --json"@,
        };
        let items = pressure_items_of(data.project, row);
        assert(items[items.len() - 1] == x);
        row_items_are_in_the_inbox(projects, data, inbox, i, x);
    }
    if has_item(inbox, "Resource Pressure"@, title) {
        let k = choose|k: int|
            0 <= k < inbox.len() && (#[trigger] inbox[k]).category == "Resource Pressure"@
                && inbox[k].title == title;
        let i = pressure_is_of_a_row(projects, data, inbox, inbox[k]);
        pressure_titles_differ(data.rows[i].container_name, name);
        pressure_titles_differ(name, data.rows[i].container_name);
        same_start_same_rest("High memory: "@, data.rows[i].container_name, name);
    }
    if exists|i: int|
        0 <= i < data.rows.len() && (#[trigger] data.rows[i]).container_name == name
            && data.rows[i].error is None && data.rows[i].memory_percent.whole >= 85 {
        let i = choose|i: int|
            0 <= i < data.rows.len() && (#[trigger] data.rows[i]).container_name == name
                && data.rows[i].error is None && data.rows[i].memory_percent.whole >= 85;
        let x = ItemModel {
            severity: InboxSeverity::Warning,
            category: "Resource Pressure"@,
            project: Some(data.project),
            title: "High memory: "@ + data.rows[i].container_name,
            detail: data.rows[i].memory_percent.text + "% memory in "@ + data.project,
            command: "dockerctl stats "@ + data.rows[i].container_id + " --json"@,
        };
        assert(inbox.contains(x));
        let k = choose|k: int| 0 <= k < inbox.len() && inbox[k] == x;
        assert(inbox[k].category == "Resource Pressure"@);
    }
}

/// A measured container at or above 80 percent of processor time has its warning in the inbox,
/// whatever its share of memory is; without such a container of that name there is no such
/// warning.
pub proof fn high_cpu_is_reported(
    projects: Seq<ProjectModel>,
    data: ResourceModel,
    inbox: Seq<ItemModel>,
    name: Seq<char>,
)
    requires
        is_inbox_of(findings(projects, Some(data)), inbox),
        !data.loading,
    ensures
        has_item(inbox, "Resource Pressure"@, "High CPU: "@ + name) <==> exists|i: int|
            0 <= i < data.rows.len() && (#[trigger] data.rows[i]).container_name == name
                && data.rows[i].error is None && data.rows[i].cpu_percent.whole >= 80,
        forall|i: int|
            0 <= i < data.rows.len() && (#[trigger] data.rows[i]).error is None
                && data.rows[i].cpu_percent.whole >= 80 ==> inbox.contains(
                ItemModel {
                    severity: InboxSeverity::Warning,
                    category: "Resource Pressure"@,
                    project: Some(data.project),
                    title: "High CPU: "@ + data.rows[i].container_name,
                    detail: data.rows[i].cpu_percent.text + "% CPU in "@ + data.project,
                    command: "dockerctl stats "@ + data.rows[i].container_id + " --json"@,
                },
            ),
{
    let title = "High CPU: "@ + name;
    assert forall|i: int|
        0 <= i < data.rows.len() && (#[trigger] data.rows[i]).error is None
            && data.rows[i].cpu_percent.whole >= 80 implies inbox.contains(
        (ItemModel {
            severity: InboxSeverity::Warning,
            category: "Resource Pressure"@,
            project: Some(data.project),
            title: "High CPU: "@ + data.rows[i].container_name,
            detail: data.rows[i].cpu_percent.text + "% CPU in "@ + data.project,
            command: "dockerctl stats "@ + data.rows[i].container_id + " --json"@,
        }),
    ) by {
        let row = data.rows[i];
        let x = ItemModel {
            severity: InboxSeverity::Warning,
            category: "Resource Pressure"@,
            project: Some(data.project),
            title: "High CPU: "@ + row.container_name,
            detail: row.cpu_percent.text + "% CPU in "@ + data.project,
            command: "dockerctl stats "@ + row.container_id + " --json"@,
        };
        let items = pressure_items_of(data.project, row);
        assert(items[0] == x);
        row_items_are_in_the_inbox(projects, data, inbox, i, x);
    }
    if has_item(inbox, "Resource Pressure"@, title) {
        let k = choose|k: int|
            0 <= k < inbox.len() && (#[trigger] inbox[k]).category == "Resource Pressure"@
                && inbox[k].title == title;
        let i = pressure_is_of_a_row(projects, data, inbox, inbox[k]);
        pressure_titles_differ(data.rows[i].container_name, name);
        pressure_titles_differ(name, data.rows[i].container_name);
        same_start_same_rest("High CPU: "@, data.rows[i].container_name, name);
    }
    if exists|i: int|
        0 <= i < data.rows.len() && (#[trigger] data.rows[i]).container_name == name
            && data.rows[i].error is None && data.rows[i].cpu_percent.whole >= 80 {
        let i = choose|i: int|
            0 <= i < data.rows.len() && (#[trigger] data.rows[i]).container_name == name
                && data.rows[i].error is None && data.rows[i].cpu_percent.whole >= 80;
        let x = ItemModel {
            severity: InboxSeverity::Warning,
            category: "Resource Pressure"@,
            project: Some(data.project),
            title: "High CPU: "@ + data.rows[i].container_name,
            detail: data.rows[i].cpu_percent.text + "% CPU in "@ + data.project,
            command: "dockerctl stats "@ + data.rows[i].container_id + " --json"@,
        };
        assert(inbox.contains(x));
        let k = choose|k: int| 0 <= k < inbox.len() && inbox[k] == x;
        assert(inbox[k].category == "Resource Pressure"@);
    }
}

/// A container that could not be measured has its warning in the inbox, with the reason;
/// without such a container of that name there is no such warning.
pub proof fn failed_measurements_are_reported(
    projects: Seq<ProjectModel>,
    data: ResourceModel,
    inbox: Seq<ItemModel>,
    name: Seq<char>,
)
    requires
        is_inbox_of(findings(projects, Some(data)), inbox),
        !data.loading,
    ensures
        has_item(inbox, "Resource Pressure"@, "Stats error: "@ + name) <==> exists|i: int|
            0 <= i < data.rows.len() && (#[trigger] data.rows[i]).container_name == name
                && data.rows[i].error is Some,
        forall|i: int|
            0 <= i < data.rows.len() && (#[trigger] data.rows[i]).error is Some ==> inbox.contains(
                ItemModel {
                    severity: InboxSeverity::Warning,
                    category: "Resource Pressure"@,
                    project: Some(data.project),
                    title: "Stats error: "@ + data.rows[i].container_name,
                    detail: data.rows[i].error->0,
                    command: "dockerctl stats "@ + data.rows[i].container_id,
                },
            ),
{
    let title = "Stats error: "@ + name;
    assert forall|i: int|
        0 <= i < data.rows.len() && (#[trigger] data.rows[i]).error is Some implies inbox.contains(
        (ItemModel {
            severity: InboxSeverity::Warning,
            category: "Resource Pressure"@,
            project: Some(data.project),
            title: "Stats error: "@ + data.rows[i].container_name,
            detail: data.rows[i].error->0,
            command: "dockerctl stats "@ + data.rows[i].container_id,
        }),
    ) by {
        let row = data.rows[i];
        let x = ItemModel {
            severity: InboxSeverity::Warning,
            category: "Resource Pressure"@,
            project: Some(data.project),
            title: "Stats error: "@ + row.container_name,
            detail: row.error->0,
            command: "dockerctl stats "@ + row.container_id,
        };
        assert(failure_items_of(data.project, row)[0] == x);
        row_items_are_in_the_inbox(projects, data, inbox, i, x);
    }
    if has_item(inbox, "Resource Pressure"@, title) {
        let k = choose|k: int|
            0 <= k < inbox.len() && (#[trigger] inbox[k]).category == "Resource Pressure"@
                && inbox[k].title == title;
        let i = pressure_is_of_a_row(projects, data, inbox, inbox[k]);
        pressure_titles_differ(data.rows[i].container_name, name);
        same_start_same_rest("Stats error: "@, data.rows[i].container_name, name);
    }
    if exists|i: int|
        0 <= i < data.rows.len() && (#[trigger] data.rows[i]).container_name == name
            && data.rows[i].error is Some {
        let i = choose|i: int|
            0 <= i < data.rows.len() && (#[trigger] data.rows[i]).container_name == name
                && data.rows[i].error is Some;
        let x = ItemModel {
            severity: InboxSeverity::Warning,
            category: "Resource Pressure"@,
            project: Some(data.project),
            title: "Stats error: "@ + data.rows[i].container_name,
            detail: data.rows[i].error->0,
            command: "dockerctl stats "@ + data.rows[i].container_id,
        };
        assert(inbox.contains(x));
        let k = choose|k: int| 0 <= k < inbox.len() && inbox[k] == x;
        assert(inbox[k].category == "Resource Pressure"@);
    }
}

/// Without resource use, or while it is still loading, there is no warning of resource
/// pressure.
pub proof fn no_pressure_without_measurements(
    projects: Seq<ProjectModel>,
    data: Option<ResourceModel>,
    inbox: Seq<ItemModel>,
    k: int,
)
    requires
        is_inbox_of(findings(projects, data), inbox),
        data matches Some(d) ==> d.loading,
        0 <= k < inbox.len(),
    ensures
        inbox[k].category != "Resource Pressure"@,
{
    kinds_of_items(projects, data, inbox, inbox[k]);
}

/// Every project with an unhealthy or restarting container has a critical item, and every other
/// one with a paused container has a warning, with the name, the command that shows more, and
/// no other severity.
pub proof fn projects_in_trouble_are_reported(
    projects: Seq<ProjectModel>,
    data: Option<ResourceModel>,
    inbox: Seq<ItemModel>,
    i: int,
)
    requires
        is_inbox_of(findings(projects, data), inbox),
        0 <= i < projects.len(),
        in_trouble(projects[i]) || projects[i].paused > 0,
    ensures
        exists|k: int|
            0 <= k < inbox.len() && (#[trigger] inbox[k]).project == Some(projects[i].name)
                && inbox[k].category == "Critical"@ && inbox[k].severity == (if in_trouble(
                projects[i],
            ) {
                InboxSeverity::Critical
            } else {
                InboxSeverity::Warning
            }) && inbox[k].title == projects[i].name + " needs attention"@ && inbox[k].command
                == "dockerctl doctor --json | jq '.projects[] | select(.project==\""@
                + projects[i].name + "\")'"@ && inbox[k].detail == risk_item(
                projects[i],
                InboxSeverity::Critical,
            ).detail,
{
    let p = projects[i];
    let x = risk_items_of(p)[0];
    assert(risk_items_of(p).contains(x));
    risk_items_by_project(projects, x);
    inbox_holds_what_was_found(projects, data, inbox, x);
    let k = choose|k: int| 0 <= k < inbox.len() && inbox[k] == x;
    assert(inbox[k].project == Some(p.name));
}

/// An item on the state of a project is of a project that is in trouble or paused; it is
/// critical only for one in trouble, and nothing else in the inbox is critical.
pub proof fn only_projects_in_trouble_are_reported(
    projects: Seq<ProjectModel>,
    data: Option<ResourceModel>,
    inbox: Seq<ItemModel>,
    k: int,
)
    requires
        is_inbox_of(findings(projects, data), inbox),
        0 <= k < inbox.len(),
        inbox[k].category == "Critical"@ || inbox[k].severity is Critical,
    ensures
        inbox[k].category == "Critical"@,
        exists|i: int|
            0 <= i < projects.len() && inbox[k].project == Some((#[trigger] projects[i]).name) && (
            in_trouble(projects[i]) || projects[i].paused > 0) && (inbox[k].severity is Critical
                <==> in_trouble(projects[i])),
{
    let x = inbox[k];
    kinds_of_items(projects, data, inbox, x);
    inbox_holds_what_was_found(projects, data, inbox, x);
    if resource_items(data).contains(x) {
        let d = data->0;
        in_one_of_both(pressure_items(d.project, d.rows), failure_items(d.project, d.rows), x);
        resource_items_by_row(d.project, d.rows, x);
    }
    categories_differ();
    risk_items_by_project(projects, x);
    let i = choose|i: int|
        0 <= i < projects.len() && risk_items_of(#[trigger] projects[i]).contains(x);
    assert(x.project == Some(projects[i].name));
}

/// The detail on a project in trouble counts the unhealthy, the restarting and the paused
/// containers, in this order, and leaves out what there is none of.
pub proof fn trouble_is_counted(p: ProjectModel, severity: InboxSeverity)
    ensures
        ({
            let text = risk_item(p, severity).detail;
            let (u, r, s) = (
                decimal(p.unhealthy) + " unhealthy"@,
                decimal(p.restarting) + " restarting"@,
                decimal(p.paused) + " paused"@,
            );
            let sep = ", "@;
            let (has_u, has_r, has_s) = (p.unhealthy > 0, p.restarting > 0, p.paused > 0);
            &&& has_u && has_r && has_s ==> text == u + sep + r + sep + s
            &&& has_u && has_r && !has_s ==> text == u + sep + r
            &&& has_u && !has_r && has_s ==> text == u + sep + s
            &&& !has_u && has_r && has_s ==> text == r + sep + s
            &&& has_u && !has_r && !has_s ==> text == u
            &&& !has_u && has_r && !has_s ==> text == r
            &&& !has_u && !has_r && has_s ==> text == s
            &&& !has_u && !has_r && !has_s ==> text.len() == 0
        }),
{
    let sep = ", "@;
    let (u, r, s) = (
        signal(p.unhealthy, " unhealthy"@),
        signal(p.restarting, " restarting"@),
        signal(p.paused, " paused"@),
    );
    assert(risk_signals(p) == u + r + s);
    let none = Seq::<Seq<char>>::empty();
    assert(u.len() == 0 ==> u + r + s == r + s);
    assert(r.len() == 0 ==> u + r + s == u + s);
    assert(s.len() == 0 ==> u + r + s == u + r);
    assert(u.len() == 0 && r.len() == 0 ==> u + r + s == s);
    assert(u.len() == 0 && s.len() == 0 ==> u + r + s == r);
    assert(r.len() == 0 && s.len() == 0 ==> u + r + s == u);
    if u.len() > 0 && r.len() > 0 {
        joining_separates_neighbours(u, r, u[0], sep);
        if s.len() > 0 {
            joining_separates_neighbours(u + r, s, u[0], sep);
        }
    }
    if u.len() > 0 && s.len() > 0 {
        joining_separates_neighbours(u, s, u[0], sep);
    }
    if r.len() > 0 && s.len() > 0 {
        joining_separates_neighbours(r, s, r[0], sep);
    }
    let empty = Seq::<char>::empty();
    if u.len() == 0 && r.len() == 0 && s.len() == 0 {
        assert(u + r + s == none);
        assert(joined(none, sep) == empty);
    }
}

/// The numbers of stopped containers of two lists of projects add up.
pub proof fn stopped_containers_add_up(
    a: Seq<ProjectModel>,
    b: Seq<ProjectModel>,
    p: ProjectModel,
)
    ensures
        total_stopped(Seq::empty()) == 0,
        total_stopped(seq![p]) == p.stopped,
        total_stopped(a + b) == total_stopped(a) + total_stopped(b),
    decreases b.len(),
{
    let one = seq![p];
    assert(one.drop_last() == Seq::<ProjectModel>::empty());
    assert(total_stopped(one.drop_last()) == 0);
    if b.len() == 0 {
        assert(a + b == a);
    } else {
        stopped_containers_add_up(a, b.drop_last(), p);
        assert((a + b).drop_last() == a + b.drop_last());
        assert((a + b).last() == b.last());
    }
}

proof fn some_are_stopped(projects: Seq<ProjectModel>)
    ensures
        total_stopped(projects) > 0 <==> exists|i: int|
            0 <= i < projects.len() && (#[trigger] projects[i]).stopped > 0,
    decreases projects.len(),
{
    if projects.len() > 0 {
        let front = projects.drop_last();
        some_are_stopped(front);
        assert(projects[projects.len() - 1] == projects.last());
        if total_stopped(front) > 0 {
            let i = choose|i: int| 0 <= i < front.len() && (#[trigger] front[i]).stopped > 0;
            assert(projects[i] == front[i]);
        }
        if exists|i: int| 0 <= i < projects.len() && (#[trigger] projects[i]).stopped > 0 {
            let i = choose|i: int| 0 <= i < projects.len() && (#[trigger] projects[i]).stopped > 0;
            if i < front.len() {
                assert(front[i] == projects[i]);
            }
        }
    }
}

/// There is one hint at stopped containers where a project has any, with their number over all
/// projects; else there is none.
pub proof fn stopped_containers_are_reported(
    projects: Seq<ProjectModel>,
    data: Option<ResourceModel>,
    inbox: Seq<ItemModel>,
)
    requires
        is_inbox_of(findings(projects, data), inbox),
    ensures
        (exists|i: int| 0 <= i < projects.len() && (#[trigger] projects[i]).stopped > 0)
            ==> inbox.contains(
            ItemModel {
                severity: InboxSeverity::Info,
                category: "Cleanup"@,
                project: None,
                title: decimal(total_stopped(projects)) + " stopped containers can be reviewed"@,
                detail: "Safe prune excludes volumes by default."@,
                command: "dockerctl safe-prune --dry-run"@,
            },
        ),
        (forall|i: int| 0 <= i < projects.len() ==> (#[trigger] projects[i]).stopped == 0)
            ==> forall|k: int|
            0 <= k < inbox.len() ==> (#[trigger] inbox[k]).category != "Cleanup"@,
{
    some_are_stopped(projects);
    let x = ItemModel {
        severity: InboxSeverity::Info,
        category: "Cleanup"@,
        project: None,
        title: decimal(total_stopped(projects)) + " stopped containers can be reviewed"@,
        detail: "Safe prune excludes volumes by default."@,
        command: "dockerctl safe-prune --dry-run"@,
    };
    if total_stopped(projects) > 0 {
        assert(cleanup_items(projects)[0] == x);
        assert(cleanup_items(projects).contains(x));
        inbox_holds_what_was_found(projects, data, inbox, x);
    } else {
        assert forall|k: int| 0 <= k < inbox.len() implies (#[trigger] inbox[k]).category
            != "Cleanup"@ by {
            kinds_of_items(projects, data, inbox, inbox[k]);
        }
    }
}

proof fn first_is_the_first(
    projects: Seq<ProjectModel>,
    wanted: spec_fn(ProjectModel) -> bool,
    i: int,
)
    requires
        0 <= i < projects.len(),
        wanted(projects[i]),
        forall|j: int| 0 <= j < i ==> !wanted(#[trigger] projects[j]),
    ensures
        first_project(projects, wanted) == Some(projects[i]),
    decreases i,
{
    if i > 0 {
        assert(!wanted(projects[0]));
        let rest = projects.drop_first();
        assert forall|j: int| 0 <= j < i - 1 implies !wanted(#[trigger] rest[j]) by {
            assert(rest[j] == projects[j + 1]);
        }
        assert(rest[i - 1] == projects[i]);
        first_is_the_first(rest, wanted, i - 1);
    }
}

proof fn none_is_first(projects: Seq<ProjectModel>, wanted: spec_fn(ProjectModel) -> bool)
    requires
        forall|j: int| 0 <= j < projects.len() ==> !wanted(#[trigger] projects[j]),
    ensures
        first_project(projects, wanted) is None,
    decreases projects.len(),
{
    if projects.len() > 0 {
        assert(!wanted(projects[0]));
        let rest = projects.drop_first();
        assert forall|j: int| 0 <= j < rest.len() implies !wanted(#[trigger] rest[j]) by {
            assert(rest[j] == projects[j + 1]);
        }
        none_is_first(rest, wanted);
    }
}

/// Where a project is in trouble, the inbox suggests to rescue the first one of these, and
/// suggests nothing else.
pub proof fn rescue_is_suggested_first(
    projects: Seq<ProjectModel>,
    data: Option<ResourceModel>,
    inbox: Seq<ItemModel>,
    i: int,
    k: int,
)
    requires
        is_inbox_of(findings(projects, data), inbox),
        0 <= i < projects.len(),
        in_trouble(projects[i]),
        forall|j: int| 0 <= j < i ==> !in_trouble(#[trigger] projects[j]),
        0 <= k < inbox.len(),
    ensures
        ({
            let x = ItemModel {
                severity: InboxSeverity::Info,
                category: "Next Action"@,
                project: Some(projects[i].name),
                title: "Run rescue preflight for "@ + projects[i].name,
                detail: "Review restart impact before touching containers."@,
                command: "dockerctl rescue "@ + projects[i].name + " --dry-run"@,
            };
            inbox.contains(x) && (inbox[k].category == "Next Action"@ ==> inbox[k] == x)
        }),
{
    let wanted = |p: ProjectModel| critical(p);
    assert forall|j: int| 0 <= j < i implies !wanted(#[trigger] projects[j]) by {
        assert(!in_trouble(projects[j]));
    }
    first_is_the_first(projects, wanted, i);
    let x = next_items(projects)[0];
    assert(next_items(projects).contains(x));
    inbox_holds_what_was_found(projects, data, inbox, x);
    kinds_of_items(projects, data, inbox, inbox[k]);
}

/// Where no project is in trouble, the inbox suggests to look at the first one with an active
/// container, and suggests nothing else.
pub proof fn inspection_is_suggested_next(
    projects: Seq<ProjectModel>,
    data: Option<ResourceModel>,
    inbox: Seq<ItemModel>,
    i: int,
    k: int,
)
    requires
        is_inbox_of(findings(projects, data), inbox),
        forall|j: int| 0 <= j < projects.len() ==> !in_trouble(#[trigger] projects[j]),
        0 <= i < projects.len(),
        projects[i].active > 0,
        forall|j: int| 0 <= j < i ==> (#[trigger] projects[j]).active == 0,
        0 <= k < inbox.len(),
    ensures
        ({
            let x = ItemModel {
                severity: InboxSeverity::Info,
                category: "Next Action"@,
                project: Some(projects[i].name),
                title: "Inspect "@ + projects[i].name,
                detail: "No critical project found; inspect active workload if needed."@,
                command: "dockerctl inspect "@ + projects[i].name,
            };
            inbox.contains(x) && (inbox[k].category == "Next Action"@ ==> inbox[k] == x)
        }),
{
    let wanted = |p: ProjectModel| critical(p);
    assert forall|j: int| 0 <= j < projects.len() implies !wanted(#[trigger] projects[j]) by {
        assert(!in_trouble(projects[j]));
    }
    none_is_first(projects, wanted);
    let active = |p: ProjectModel| p.active > 0;
    assert forall|j: int| 0 <= j < i implies !active(#[trigger] projects[j]) by {
        assert(projects[j].active == 0);
    }
    first_is_the_first(projects, active, i);
    let x = next_items(projects)[0];
    assert(next_items(projects).contains(x));
    inbox_holds_what_was_found(projects, data, inbox, x);
    kinds_of_items(projects, data, inbox, inbox[k]);
}

/// Where no project is in trouble or active, the inbox suggests nothing, unless it holds
/// nothing else: then its one item says that there is nothing urgent.
pub proof fn nothing_is_suggested_for_idle_projects(
    projects: Seq<ProjectModel>,
    data: Option<ResourceModel>,
    inbox: Seq<ItemModel>,
    k: int,
)
    requires
        is_inbox_of(findings(projects, data), inbox),
        forall|j: int|
            0 <= j < projects.len() ==> !in_trouble(#[trigger] projects[j]) && projects[j].active
                == 0,
        0 <= k < inbox.len(),
        inbox[k].category == "Next Action"@,
    ensures
        inbox.len() == 1,
        inbox[k] == (ItemModel {
            severity: InboxSeverity::Info,
            category: "Next Action"@,
            project: None,
            title: "No urgent action"@,
            detail: "No projects or resource pressure found in the current snapshot."@,
            command: "dockerctl list"@,
        }),
{
    let wanted = |p: ProjectModel| critical(p);
    assert forall|j: int| 0 <= j < projects.len() implies !wanted(#[trigger] projects[j]) by {
        assert(!in_trouble(projects[j]));
    }
    none_is_first(projects, wanted);
    let active = |p: ProjectModel| p.active > 0;
    assert forall|j: int| 0 <= j < projects.len() implies !active(#[trigger] projects[j]) by {
        assert(!in_trouble(projects[j]) && projects[j].active == 0);
    }
    none_is_first(projects, active);
    kinds_of_items(projects, data, inbox, inbox[k]);
}

proof fn risk_items_are_counted(projects: Seq<ProjectModel>)
    ensures
        risk_items(projects).len() == projects.filter(
            |p: ProjectModel| in_trouble(p) || p.paused > 0,
        ).len(),
    decreases projects.len(),
{
    reveal(Seq::filter);
    if projects.len() > 0 {
        risk_items_are_counted(projects.drop_last());
    }
}

proof fn resource_items_are_counted(project: Seq<char>, rows: Seq<RowModel>)
    ensures
        pressure_items(project, rows).len() == rows.filter(
            |r: RowModel| r.error is None && r.cpu_percent.whole >= 80,
        ).len() + rows.filter(
            |r: RowModel| r.error is None && r.memory_percent.whole >= 85,
        ).len(),
        failure_items(project, rows).len() == rows.filter(|r: RowModel| r.error is Some).len(),
    decreases rows.len(),
{
    reveal(Seq::filter);
    if rows.len() > 0 {
        resource_items_are_counted(project, rows.drop_last());
    }
}

/// The inbox holds one item for each project in trouble or paused, for each share of processor
/// time and each share of memory that is too high, and for each failed measurement, one on
/// stopped containers where there are any, and one suggestion where a project is in trouble or
/// active; nothing is lost, nothing stands in it twice. Where that is nothing, it holds one item.
pub proof fn inbox_has_one_item_for_each_finding(
    projects: Seq<ProjectModel>,
    data: Option<ResourceModel>,
    inbox: Seq<ItemModel>,
)
    requires
        is_inbox_of(findings(projects, data), inbox),
    ensures
        ({
            let rows = match data {
                Some(d) if !d.loading => d.rows,
                _ => Seq::empty(),
            };
            let count = projects.filter(|p: ProjectModel| in_trouble(p) || p.paused > 0).len()
                + rows.filter(|r: RowModel| r.error is None && r.cpu_percent.whole >= 80).len()
                + rows.filter(|r: RowModel| r.error is None && r.memory_percent.whole >= 85).len()
                + rows.filter(|r: RowModel| r.error is Some).len() + (if exists|i: int|
                0 <= i < projects.len() && (#[trigger] projects[i]).stopped > 0 {
                1int
            } else {
                0
            }) + (if exists|i: int|
                0 <= i < projects.len() && (in_trouble(#[trigger] projects[i])
                    || projects[i].active > 0) {
                1int
            } else {
                0
            });
            inbox.len() == if count == 0 {
                1
            } else {
                count
            }
        }),
{
    risk_items_are_counted(projects);
    if let Some(d) = data {
        resource_items_are_counted(d.project, d.rows);
    }
    resource_items_are_counted(Seq::empty(), Seq::empty());
    some_are_stopped(projects);
    suggestions_are_counted(projects);
    let found = findings(projects, data);
    if found.len() > 0 {
        stable_sort_keeps_every_item(found, inbox);
    }
}

proof fn suggestions_are_counted(projects: Seq<ProjectModel>)
    ensures
        next_items(projects).len() == if exists|i: int|
            0 <= i < projects.len() && (in_trouble(#[trigger] projects[i]) || projects[i].active
                > 0) {
            1nat
        } else {
            0
        },
{
    let wanted = |p: ProjectModel| critical(p);
    let active = |p: ProjectModel| p.active > 0;
    found_if_there(projects, wanted);
    found_if_there(projects, active);
    if exists|i: int|
        0 <= i < projects.len() && (in_trouble(#[trigger] projects[i]) || projects[i].active > 0) {
        let i = choose|i: int|
            0 <= i < projects.len() && (in_trouble(#[trigger] projects[i]) || projects[i].active
                > 0);
        assert(wanted(projects[i]) || active(projects[i]));
    }
}

proof fn found_if_there(projects: Seq<ProjectModel>, wanted: spec_fn(ProjectModel) -> bool)
    ensures
        first_project(projects, wanted) is Some <==> exists|i: int|
            0 <= i < projects.len() && wanted(#[trigger] projects[i]),
    decreases projects.len(),
{
    if projects.len() > 0 {
        let rest = projects.drop_first();
        found_if_there(rest, wanted);
        assert(wanted(projects[0]) || !wanted(projects[0]));
        if exists|i: int| 0 <= i < rest.len() && wanted(#[trigger] rest[i]) {
            let i = choose|i: int| 0 <= i < rest.len() && wanted(#[trigger] rest[i]);
            assert(rest[i] == projects[i + 1]);
        }
        if exists|i: int| 0 <= i < projects.len() && wanted(#[trigger] projects[i]) {
            let i = choose|i: int| 0 <= i < projects.len() && wanted(#[trigger] projects[i]);
            if i > 0 {
                assert(rest[i - 1] == projects[i]);
            }
        }
    }
}

/// Whether the category is one that the inbox knows.
pub open spec fn known(category: Seq<char>) -> bool {
    category == "Critical"@ || category == "Resource Pressure"@ || category == "Cleanup"@
        || category == "Next Action"@
}

/// Of two items of a sorted list, the earlier one is the more urgent. Where both are equally
/// urgent, troubled projects come before resource pressure, that before cleaning up, that
/// before the next action, and that before anything else. Where that is the same, items without
/// a project come first, then the projects by name, and under the same name the titles are in
/// order.
pub proof fn sorted_items_are_in_order(
    items: Seq<ItemModel>,
    sorted: Seq<ItemModel>,
    i: int,
    j: int,
)
    requires
        is_stable_sort(items, sorted),
        0 <= i < j < sorted.len(),
    ensures
        ({
            let (x, y) = (sorted[i], sorted[j]);
            let same = x.severity == y.severity;
            let alike = same && (x.category == y.category || !known(x.category) && !known(
                y.category,
            ));
            &&& y.severity is Critical ==> x.severity is Critical
            &&& x.severity is Info ==> y.severity is Info
            &&& same && y.category == "Critical"@ ==> x.category == "Critical"@
            &&& same && y.category == "Resource Pressure"@ ==> x.category == "Critical"@
                || x.category == "Resource Pressure"@
            &&& same && y.category == "Cleanup"@ ==> known(x.category) && x.category
                != "Next Action"@
            &&& same && y.category == "Next Action"@ ==> known(x.category)
            &&& alike && y.project is None ==> x.project is None
            &&& alike && x.project is Some && y.project is Some && x.project != y.project
                ==> before(x.project->0, y.project->0)
            &&& alike && x.project == y.project && x.title != y.title ==> before(x.title, y.title)
        }),
{
    categories_differ();
    let (x, y) = (sorted[i], sorted[j]);
    assert(!key_before(key(y), key(x)));
    crate::text::before_is_strict(x.title, y.title);
    if x.project is Some && y.project is Some {
        crate::text::before_is_strict(x.project->0, y.project->0);
    }
}

/// The ranks put the more urgent severity and the weightier category first.
pub proof fn ranks_rise_with_patience(other: Seq<char>)
    requires
        !known(other),
    ensures
        rank_of_severity(InboxSeverity::Critical) == 0,
        rank_of_severity(InboxSeverity::Warning) == 1,
        rank_of_severity(InboxSeverity::Info) == 2,
        rank_of_category("Critical"@) == 0,
        rank_of_category("Resource Pressure"@) == 1,
        rank_of_category("Cleanup"@) == 2,
        rank_of_category("Next Action"@) == 3,
        rank_of_category(other) == 4,
        project_before(None, Some(other)),
        !project_before(Some(other), None),
{
    categories_differ();
}

/// Items that agree in severity, category, project and title stand in a sorted list just as they
/// stood before, and all of them.
pub proof fn alike_items_keep_their_order(
    items: Seq<ItemModel>,
    sorted: Seq<ItemModel>,
    like: ItemModel,
)
    requires
        is_stable_sort(items, sorted),
    ensures
        ({
            let alike = |x: ItemModel|
                x.severity == like.severity && x.category == like.category && x.project
                    == like.project && x.title == like.title;
            sorted.filter(alike) == items.filter(alike)
        }),
{
    let alike = |x: ItemModel|
        x.severity == like.severity && x.category == like.category && x.project == like.project
            && x.title == like.title;
    let k = key(like);
    let same = |x: ItemModel| key(x) == k;
    assert(crate::inbox::with_key(sorted, k) == crate::inbox::with_key(items, k));
    assert(sorted.filter(same) == items.filter(same));
    narrower_filter_decides(sorted, same, alike);
    narrower_filter_decides(items, same, alike);
}

proof fn narrower_filter_decides(
    items: Seq<ItemModel>,
    wide: spec_fn(ItemModel) -> bool,
    narrow: spec_fn(ItemModel) -> bool,
)
    requires
        forall|x: ItemModel| #[trigger] narrow(x) ==> wide(x),
    ensures
        items.filter(wide).filter(narrow) == items.filter(narrow),
    decreases items.len(),
{
    reveal(Seq::filter);
    if items.len() > 0 {
        let (front, last) = (items.drop_last(), items.last());
        narrower_filter_decides(front, wide, narrow);
        if wide(last) {
            assert(front.filter(wide).push(last).drop_last() == front.filter(wide));
        } else {
            assert(!narrow(last));
        }
    }
}

/// The models of measured resources and of items hold what these hold, part by part.
pub proof fn resource_models_hold_the_parts(
    data: ResourcePanelData,
    row: ResourceRow,
    item: InboxItem,
    i: int,
)
    ensures
        data@.project == data.project@ && data@.loading == data.loading,
        data@.rows.len() == data.rows@.len(),
        0 <= i < data.rows@.len() ==> data@.rows[i] == data.rows@[i]@,
        row@.container_id == row.container_id@ && row@.container_name == row.container_name@,
        row@.cpu_percent.whole == row.cpu_percent.whole,
        row@.cpu_percent.text == row.cpu_percent.text@,
        row@.memory_percent.whole == row.memory_percent.whole,
        row@.memory_percent.text == row.memory_percent.text@,
        row.error is None ==> row@.error is None,
        row.error matches Some(error) ==> row@.error == Some(error@),
        item@.severity == item.severity && item@.category == item.category@,
        item@.title == item.title@ && item@.detail == item.detail@,
        item@.command == item.command@,
        item.project is None ==> item@.project is None,
        item.project matches Some(name) ==> item@.project == Some(name@),
{
}

/// The item for a project in trouble has the severity asked for, names the project and the
/// command that shows more of it, and belongs to the troubled projects whatever its severity.
pub proof fn risk_item_names_the_project(p: ProjectModel, severity: InboxSeverity)
    ensures
        ({
            let item = risk_item(p, severity);
            &&& item.severity == severity
            &&& item.category == "Critical"@
            &&& item.project == Some(p.name)
            &&& item.title == p.name + " needs attention"@
            &&& item.command == "dockerctl doctor --json | jq '.projects[] | select(.project==\""@
                + p.name + "\")'"@
        }),
{
}

} // verus!
