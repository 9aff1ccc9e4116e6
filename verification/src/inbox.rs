//! The operations inbox: what needs attention, most urgent first.

use vstd::prelude::*;
use vstd::string::*;

use crate::domain::{project_models, text_of, DockerSnapshot, Project, ProjectModel};
use crate::resources::{ResourceModel, ResourcePanelData, ResourceRow, RowModel};
use crate::text::{before, decimal, joined, texts};
use crate::text::{decimal_text, is_before, join_strings, same_text};

verus! {

/// How urgent an item is.
#[derive(Debug, Clone, Copy, PartialEq, Eq, PartialOrd, Ord, Structural)]
pub enum InboxSeverity {
    Critical,
    Warning,
    Info,
}

/// Something to look at, with the command that shows more of it.
#[derive(Debug, PartialEq, Eq)]
pub struct InboxItem {
    pub severity: InboxSeverity,
    pub category: String,
    pub project: Option<String>,
    pub title: String,
    pub detail: String,
    pub command: String,
}

/// An item as text.
#[verifier::ext_equal]
pub struct ItemModel {
    pub severity: InboxSeverity,
    pub category: Seq<char>,
    pub project: Option<Seq<char>>,
    pub title: Seq<char>,
    pub detail: Seq<char>,
    pub command: Seq<char>,
}

impl View for InboxItem {
    type V = ItemModel;

    open spec fn view(&self) -> ItemModel {
        ItemModel {
            severity: self.severity,
            category: self.category@,
            project: text_of(self.project),
            title: self.title@,
            detail: self.detail@,
            command: self.command@,
        }
    }
}

impl Clone for InboxItem {
    fn clone(&self) -> (copy: Self)
        ensures
            copy@ == self@,
    {
        InboxItem {
            severity: self.severity,
            category: self.category.clone(),
            project: match &self.project {
                Some(name) => Some(name.clone()),
                None => None,
            },
            title: self.title.clone(),
            detail: self.detail.clone(),
            command: self.command.clone(),
        }
    }
}

/// The items of a list.
pub open spec fn item_models(list: Seq<InboxItem>) -> Seq<ItemModel> {
    list.map_values(|i: InboxItem| i@)
}

/// The inbox.
#[derive(Debug, PartialEq, Eq)]
pub struct OpsInbox {
    pub items: Vec<InboxItem>,
}

impl View for OpsInbox {
    type V = Seq<ItemModel>;

    open spec fn view(&self) -> Seq<ItemModel> {
        item_models(self.items@)
    }
}

impl Clone for OpsInbox {
    fn clone(&self) -> (copy: Self)
        ensures
            copy@ == self@,
    {
        let mut items: Vec<InboxItem> = Vec::new();
        let mut i: usize = 0;
        while i < self.items.len()
            invariant
                i <= self.items@.len(),
                item_models(items@) == self@.take(i as int),
            decreases self.items@.len() - i,
        {
            let ghost done = items@;
            let item = self.items[i].clone();
            items.push(item);
            proof {
                assert(item_models(items@) == item_models(done).push(item@));
                assert(self@.take(i + 1) == self@.take(i as int).push(item@));
            }
            i = i + 1;
        }
        OpsInbox { items }
    }
}

/// The rank of a severity: the lower, the more urgent.
pub open spec fn rank_of_severity(severity: InboxSeverity) -> nat {
    match severity {
        InboxSeverity::Critical => 0,
        InboxSeverity::Warning => 1,
        InboxSeverity::Info => 2,
    }
}

/// The rank of a category among items of the same severity.
pub open spec fn rank_of_category(category: Seq<char>) -> nat {
    if category == "Critical"@ {
        0
    } else if category == "Resource Pressure"@ {
        1
    } else if category == "Cleanup"@ {
        2
    } else if category == "Next Action"@ {
        3
    } else {
        4
    }
}

/// What decides an item's place in the inbox.
#[verifier::ext_equal]
pub struct PlaceKey {
    pub severity: nat,
    pub category: nat,
    pub project: Option<Seq<char>>,
    pub title: Seq<char>,
}

/// The key of an item.
pub open spec fn key(item: ItemModel) -> PlaceKey {
    PlaceKey {
        severity: rank_of_severity(item.severity),
        category: rank_of_category(item.category),
        project: item.project,
        title: item.title,
    }
}

/// Whether the project `a` is listed strictly before `b`: no project first, then by name.
pub open spec fn project_before(a: Option<Seq<char>>, b: Option<Seq<char>>) -> bool {
    match (a, b) {
        (None, None) => false,
        (None, Some(_)) => true,
        (Some(_), None) => false,
        (Some(x), Some(y)) => before(x, y),
    }
}

/// Whether the key `a` comes strictly before `b`: by severity, then by category, then by
/// project, then by title.
pub open spec fn key_before(a: PlaceKey, b: PlaceKey) -> bool {
    if a.severity != b.severity {
        a.severity < b.severity
    } else if a.category != b.category {
        a.category < b.category
    } else if a.project != b.project {
        project_before(a.project, b.project)
    } else {
        before(a.title, b.title)
    }
}

/// Whether no item comes after one that it should come before.
pub open spec fn in_order(items: Seq<ItemModel>) -> bool {
    forall|i: int, j: int|
        0 <= i < j < items.len() ==> !key_before(
            key(#[trigger] items[j]),
            key(#[trigger] items[i]),
        )
}

/// The items with the key `k`, in their order.
pub open spec fn with_key(items: Seq<ItemModel>, k: PlaceKey) -> Seq<ItemModel> {
    items.filter(|item: ItemModel| key(item) == k)
}

/// Whether `sorted` holds the items of `items` in order, and items with equal keys as they
/// stood in `items`.
pub open spec fn is_stable_sort(items: Seq<ItemModel>, sorted: Seq<ItemModel>) -> bool {
    &&& in_order(sorted)
    &&& forall|k: PlaceKey| #[trigger] with_key(sorted, k) == with_key(items, k)
}

proof fn project_before_is_strict(a: Option<Seq<char>>, b: Option<Seq<char>>)
    ensures
        !(project_before(a, b) && project_before(b, a)),
        a != b ==> project_before(a, b) || project_before(b, a),
{
    if a is Some && b is Some {
        crate::text::before_is_strict(a->0, b->0);
    }
}

/// The order of the keys puts no key before itself, never two keys each before the other,
/// and of two different keys one before the other.
pub proof fn key_before_is_strict(a: PlaceKey, b: PlaceKey)
    ensures
        !key_before(a, a),
        !(key_before(a, b) && key_before(b, a)),
        a != b ==> key_before(a, b) || key_before(b, a),
{
    crate::text::before_is_strict(a.title, b.title);
    project_before_is_strict(a.project, b.project);
}

/// The order of the keys is transitive.
pub proof fn key_before_is_transitive(a: PlaceKey, b: PlaceKey, c: PlaceKey)
    requires
        key_before(a, b),
        key_before(b, c),
    ensures
        key_before(a, c),
{
    if a.severity == b.severity && b.severity == c.severity && a.category == b.category
        && b.category == c.category {
        if a.project == b.project && b.project == c.project {
            crate::text::before_is_transitive(a.title, b.title, c.title);
        } else if a.project != b.project && b.project != c.project {
            if a.project is Some && b.project is Some && c.project is Some {
                crate::text::before_is_transitive(a.project->0, b.project->0, c.project->0);
                crate::text::before_is_strict(a.project->0, b.project->0);
            }
            project_before_is_strict(a.project, b.project);
        }
    }
}

/// A stable sort stays one when a further item is put in front of the first item that it comes
/// before.
proof fn insertion_keeps_stable_sort(
    items: Seq<ItemModel>,
    sorted: Seq<ItemModel>,
    x: ItemModel,
    p: int,
)
    requires
        is_stable_sort(items, sorted),
        0 <= p <= sorted.len(),
        forall|i: int| 0 <= i < p ==> !key_before(key(x), key(#[trigger] sorted[i])),
        p < sorted.len() ==> key_before(key(x), key(sorted[p])),
    ensures
        is_stable_sort(items.push(x), sorted.insert(p, x)),
{
    let out = sorted.insert(p, x);
    assert forall|j: int| p <= j < sorted.len() implies key_before(
        key(x),
        key(#[trigger] sorted[j]),
    ) by {
        let (a, b) = (key(sorted[p]), key(sorted[j]));
        key_before_is_strict(a, b);
        if a != b {
            assert(!key_before(key(sorted[j]), key(sorted[p])));
            key_before_is_transitive(key(x), a, b);
        }
    }
    assert forall|i: int, j: int| 0 <= i < j < out.len() implies !key_before(
        key(#[trigger] out[j]),
        key(#[trigger] out[i]),
    ) by {
        if i == p {
            assert(out[j] == sorted[j - 1]);
            key_before_is_strict(key(x), key(sorted[j - 1]));
        } else if j == p {
            assert(out[i] == sorted[i]);
        } else {
            let oi = if i < p { i } else { i - 1 };
            let oj = if j < p { j } else { j - 1 };
            assert(out[i] == sorted[oi] && out[j] == sorted[oj]);
        }
    }
    assert forall|k: PlaceKey| #[trigger] with_key(out, k) == with_key(items.push(x), k) by {
        let same = |item: ItemModel| key(item) == k;
        let (front, back) = (sorted.take(p), sorted.skip(p));
        assert(sorted == front + back);
        assert(out == front + seq![x] + back);
        Seq::filter_distributes_over_add(front, back, same);
        Seq::filter_distributes_over_add(front + seq![x], back, same);
        Seq::filter_distributes_over_add(front, seq![x], same);
        Seq::filter_distributes_over_add(items, seq![x], same);
        assert(items.push(x) == items + seq![x]);
        assert(with_key(sorted, k) == with_key(items, k));
        assert(with_key(sorted, k) == sorted.filter(same));
        assert(with_key(items, k) == items.filter(same));
        if key(x) == k {
            assert forall|i: int| 0 <= i < back.len() implies !same(#[trigger] back[i]) by {
                assert(back[i] == sorted[p + i]);
                key_before_is_strict(key(x), key(sorted[p + i]));
            }
            back.lemma_all_neg_filter_empty(same);
            assert(back.filter(same) == Seq::<ItemModel>::empty());
        } else {
            seq![x].lemma_all_neg_filter_empty(same);
            assert(seq![x].filter(same) == Seq::<ItemModel>::empty());
        }
        assert(out.filter(same) == items.push(x).filter(same));
    }
}

/// Two stable sorts of the same items start with the same item.
proof fn stable_sort_first(items: Seq<ItemModel>, a: Seq<ItemModel>, b: Seq<ItemModel>)
    requires
        is_stable_sort(items, a),
        is_stable_sort(items, b),
        a.len() > 0,
    ensures
        b.len() > 0,
        a[0] == b[0],
{
    let k = key(a[0]);
    with_key_starts(a, k);
    assert(with_key(a, k) == with_key(b, k));
    if b.len() == 0 {
        reveal(Seq::filter);
        assert(with_key(b, k).len() == 0);
    }
    let l = key(b[0]);
    with_key_starts(b, l);
    assert(with_key(b, l) == with_key(items, l) && with_key(a, l) == with_key(items, l));
    // Each first key occurs in the other sequence, so neither is before the other.
    let i = key_occurs(a, l);
    let j = key_occurs(b, k);
    key_before_is_strict(k, l);
    assert(i > 0 ==> !key_before(key(a[i]), key(a[0])));
    assert(j > 0 ==> !key_before(key(b[j]), key(b[0])));
    assert(k == l);
}

proof fn with_key_starts(items: Seq<ItemModel>, k: PlaceKey)
    requires
        items.len() > 0,
        key(items[0]) == k,
    ensures
        with_key(items, k).len() > 0,
        with_key(items, k)[0] == items[0],
{
    let same = |item: ItemModel| key(item) == k;
    let (first, rest) = (seq![items[0]], items.drop_first());
    assert(items == first + rest);
    Seq::filter_distributes_over_add(first, rest, same);
    reveal(Seq::filter);
    assert(first.drop_last() == Seq::<ItemModel>::empty());
    assert(first.filter(same) == first);
}

proof fn key_occurs(items: Seq<ItemModel>, k: PlaceKey) -> (at: int)
    requires
        with_key(items, k).len() > 0,
    ensures
        0 <= at < items.len(),
        key(items[at]) == k,
{
    let same = |item: ItemModel| key(item) == k;
    let found = with_key(items, k)[0];
    assert(items.filter(same).contains(found));
    items.lemma_filter_contains_rev(same, found);
    items.lemma_filter_pred(same, 0);
    choose|at: int| 0 <= at < items.len() && items[at] == found
}

/// There is one way to sort a list stably: what is sorted is determined by the items.
pub proof fn stable_sort_is_unique(items: Seq<ItemModel>, a: Seq<ItemModel>, b: Seq<ItemModel>)
    requires
        is_stable_sort(items, a),
        is_stable_sort(items, b),
    ensures
        a == b,
    decreases a.len(),
{
    if a.len() == 0 {
        if b.len() > 0 {
            stable_sort_first(items, b, a);
        }
        assert(a == b);
    } else {
        stable_sort_first(items, a, b);
        let (ra, rb) = (a.drop_first(), b.drop_first());
        rest_is_in_order(a);
        rest_is_in_order(b);
        assert forall|k: PlaceKey| #[trigger] with_key(rb, k) == with_key(ra, k) by {
            assert(with_key(a, k) == with_key(items, k));
            assert(with_key(b, k) == with_key(items, k));
            with_key_of_rest(a, k);
            with_key_of_rest(b, k);
        }
        stable_sort_is_unique(ra, ra, rb);
        assert(a == seq![a[0]] + ra);
        assert(b == seq![b[0]] + rb);
    }
}

proof fn rest_is_in_order(items: Seq<ItemModel>)
    requires
        in_order(items),
        items.len() > 0,
    ensures
        in_order(items.drop_first()),
{
    let rest = items.drop_first();
    assert forall|i: int, j: int| 0 <= i < j < rest.len() implies !key_before(
        key(#[trigger] rest[j]),
        key(#[trigger] rest[i]),
    ) by {
        assert(rest[i] == items[i + 1] && rest[j] == items[j + 1]);
    }
}

proof fn with_key_of_rest(items: Seq<ItemModel>, k: PlaceKey)
    requires
        items.len() > 0,
    ensures
        with_key(items.drop_first(), k) == if key(items[0]) == k {
            with_key(items, k).drop_first()
        } else {
            with_key(items, k)
        },
{
    let same = |item: ItemModel| key(item) == k;
    let (first, rest) = (seq![items[0]], items.drop_first());
    assert(items == first + rest);
    Seq::filter_distributes_over_add(first, rest, same);
    reveal(Seq::filter);
    assert(first.drop_last() == Seq::<ItemModel>::empty());
    if key(items[0]) == k {
        assert(first.filter(same) == first);
        assert((first + rest.filter(same)).drop_first() == rest.filter(same));
    } else {
        first.lemma_all_neg_filter_empty(same);
        assert(first.filter(same) == Seq::<ItemModel>::empty());
        assert(Seq::<ItemModel>::empty() + rest.filter(same) == rest.filter(same));
    }
}

proof fn count_among_equal_keys(items: Seq<ItemModel>, v: ItemModel)
    ensures
        items.to_multiset().count(v) == with_key(items, key(v)).to_multiset().count(v),
    decreases items.len(),
{
    broadcast use vstd::seq_lib::group_to_multiset_ensures;

    reveal(Seq::filter);
    if items.len() > 0 {
        let (front, last) = (items.drop_last(), items.last());
        count_among_equal_keys(front, v);
        assert(items == front.push(last));
    }
}

/// A stable sort neither loses an item nor makes one up.
pub proof fn stable_sort_keeps_every_item(items: Seq<ItemModel>, sorted: Seq<ItemModel>)
    requires
        is_stable_sort(items, sorted),
    ensures
        sorted.len() == items.len(),
        sorted.to_multiset() == items.to_multiset(),
{
    broadcast use vstd::seq_lib::group_to_multiset_ensures;

    assert forall|v: ItemModel| #[trigger]
        sorted.to_multiset().count(v) == items.to_multiset().count(v) by {
        count_among_equal_keys(items, v);
        count_among_equal_keys(sorted, v);
        assert(with_key(sorted, key(v)) == with_key(items, key(v)));
    }
    assert(sorted.to_multiset() =~= items.to_multiset());
    assert(sorted.to_multiset().len() == sorted.len());
    assert(items.to_multiset().len() == items.len());
}

/// The rank of a severity.
pub fn severity_rank(severity: InboxSeverity) -> (rank: usize)
    ensures
        rank == rank_of_severity(severity),
{
    match severity {
        InboxSeverity::Critical => 0,
        InboxSeverity::Warning => 1,
        InboxSeverity::Info => 2,
    }
}

/// The rank of a category.
pub fn category_rank(category: &str) -> (rank: usize)
    ensures
        rank == rank_of_category(category@),
{
    if same_text(category, "Critical") {
        0
    } else if same_text(category, "Resource Pressure") {
        1
    } else if same_text(category, "Cleanup") {
        2
    } else if same_text(category, "Next Action") {
        3
    } else {
        4
    }
}

/// Whether `a` belongs strictly before `b`.
fn belongs_before(a: &InboxItem, b: &InboxItem) -> (yes: bool)
    ensures
        yes == key_before(key(a@), key(b@)),
{
    let (sa, sb): (usize, usize) = (severity_rank(a.severity), severity_rank(b.severity));
    if sa != sb {
        return sa < sb;
    }
    let (ca, cb): (usize, usize) = (
        category_rank(a.category.as_str()),
        category_rank(b.category.as_str()),
    );
    if ca != cb {
        return ca < cb;
    }
    match (&a.project, &b.project) {
        (Some(x), Some(y)) => {
            if *x == *y {
                is_before(a.title.as_str(), b.title.as_str())
            } else {
                is_before(x.as_str(), y.as_str())
            }
        },
        (None, Some(_)) => true,
        (Some(_), None) => false,
        (None, None) => is_before(a.title.as_str(), b.title.as_str()),
    }
}

/// Sorts the items by their keys; items with equal keys keep their order.
pub fn sort_inbox_items(items: &mut Vec<InboxItem>)
    ensures
        is_stable_sort(item_models(old(items)@), item_models(final(items)@)),
{
    let ghost start = item_models(items@);
    let n: usize = items.len();
    let mut i: usize = 0;
    proof {
        assert(start.take(0) == Seq::<ItemModel>::empty());
    }
    while i < n
        invariant
            n == items@.len(),
            i <= n,
            start.len() == n,
            is_stable_sort(start.take(i as int), item_models(items@).take(i as int)),
            item_models(items@).skip(i as int) == start.skip(i as int),
        decreases n - i,
    {
        let ghost now = item_models(items@);
        let ghost sorted = now.take(i as int);
        let mut p: usize = 0;
        while p < i && !belongs_before(&items[i], &items[p])
            invariant
                p <= i < items@.len(),
                now == item_models(items@),
                forall|k: int|
                    0 <= k < p ==> !key_before(key(now[i as int]), key(#[trigger] now[k])),
            decreases i - p,
        {
            p = p + 1;
        }
        let ghost x = now[i as int];
        let item = items.remove(i);
        items.insert(p, item);
        proof {
            assert(start.skip(i as int)[0] == now.skip(i as int)[0]);
            assert(start[i as int] == x);
            insertion_keeps_stable_sort(start.take(i as int), sorted, x, p as int);
            assert(start.take(i + 1) == start.take(i as int).push(x));
            let later = item_models(items@);
            assert(later.take(i + 1) == sorted.insert(p as int, x));
            assert(later.skip(i + 1) == now.skip(i as int).drop_first());
            assert(start.skip(i + 1) == start.skip(i as int).drop_first());
        }
        i = i + 1;
    }
    proof {
        assert(start.take(n as int) == start);
        assert(item_models(items@).take(n as int) == item_models(items@));
    }
}

/// A project is critical while a container is unhealthy or keeps restarting.
pub open spec fn critical(p: ProjectModel) -> bool {
    p.unhealthy > 0 || p.restarting > 0
}

/// `count` and `word`, where the count is above zero.
pub open spec fn signal(count: nat, word: Seq<char>) -> Seq<Seq<char>> {
    if count > 0 {
        seq![decimal(count) + word]
    } else {
        seq![]
    }
}

/// The signals of trouble in a project.
pub open spec fn risk_signals(p: ProjectModel) -> Seq<Seq<char>> {
    signal(p.unhealthy, " unhealthy"@) + signal(p.restarting, " restarting"@) + signal(
        p.paused,
        " paused"@,
    )
}

/// The item for a project in trouble.
pub open spec fn risk_item(p: ProjectModel, severity: InboxSeverity) -> ItemModel {
    ItemModel {
        severity,
        category: "Critical"@,
        project: Some(p.name),
        title: p.name + " needs attention"@,
        detail: joined(risk_signals(p), ", "@),
        command: "dockerctl doctor --json | jq '.projects[] | select(.project==\""@ + p.name
            + "\")'"@,
    }
}

/// The items for one project: critical, or a warning while it is paused.
pub open spec fn risk_items_of(p: ProjectModel) -> Seq<ItemModel> {
    if critical(p) {
        seq![risk_item(p, InboxSeverity::Critical)]
    } else if p.paused > 0 {
        seq![risk_item(p, InboxSeverity::Warning)]
    } else {
        seq![]
    }
}

/// The items for all projects, in their order.
pub open spec fn risk_items(projects: Seq<ProjectModel>) -> Seq<ItemModel>
    decreases projects.len(),
{
    if projects.len() == 0 {
        seq![]
    } else {
        risk_items(projects.drop_last()) + risk_items_of(projects.last())
    }
}

/// A warning of resource pressure in `project`.
pub open spec fn pressure_item(
    project: Seq<char>,
    title: Seq<char>,
    detail: Seq<char>,
    command: Seq<char>,
) -> ItemModel {
    ItemModel {
        severity: InboxSeverity::Warning,
        category: "Resource Pressure"@,
        project: Some(project),
        title,
        detail,
        command,
    }
}

/// The percentage of processor time from which on a container is under pressure.
pub const CPU_LIMIT: i64 = 80;

/// The percentage of memory from which on a container is under pressure.
pub const MEMORY_LIMIT: i64 = 85;

/// The items for one measured container.
pub open spec fn pressure_items_of(project: Seq<char>, row: RowModel) -> Seq<ItemModel> {
    if row.error is Some {
        seq![]
    } else {
        let command = "dockerctl stats "@ + row.container_id + " --json"@;
        let cpu = if row.cpu_percent.whole >= CPU_LIMIT {
            seq![
                pressure_item(
                    project,
                    "High CPU: "@ + row.container_name,
                    row.cpu_percent.text + "% CPU in "@ + project,
                    command,
                ),
            ]
        } else {
            seq![]
        };
        let memory = if row.memory_percent.whole >= MEMORY_LIMIT {
            seq![
                pressure_item(
                    project,
                    "High memory: "@ + row.container_name,
                    row.memory_percent.text + "% memory in "@ + project,
                    command,
                ),
            ]
        } else {
            seq![]
        };
        cpu + memory
    }
}

/// The items for the measured containers, in their order.
pub open spec fn pressure_items(project: Seq<char>, rows: Seq<RowModel>) -> Seq<ItemModel>
    decreases rows.len(),
{
    if rows.len() == 0 {
        seq![]
    } else {
        pressure_items(project, rows.drop_last()) + pressure_items_of(project, rows.last())
    }
}

/// The items for one container that could not be measured.
pub open spec fn failure_items_of(project: Seq<char>, row: RowModel) -> Seq<ItemModel> {
    match row.error {
        Some(error) => seq![
            pressure_item(
                project,
                "Stats error: "@ + row.container_name,
                error,
                "dockerctl stats "@ + row.container_id,
            ),
        ],
        None => seq![],
    }
}

/// The items for the containers that could not be measured, in their order.
pub open spec fn failure_items(project: Seq<char>, rows: Seq<RowModel>) -> Seq<ItemModel>
    decreases rows.len(),
{
    if rows.len() == 0 {
        seq![]
    } else {
        failure_items(project, rows.drop_last()) + failure_items_of(project, rows.last())
    }
}

/// The items on resource use; none while the rows are not current.
pub open spec fn resource_items(data: Option<ResourceModel>) -> Seq<ItemModel> {
    match data {
        Some(d) if !d.loading => pressure_items(d.project, d.rows) + failure_items(
            d.project,
            d.rows,
        ),
        _ => seq![],
    }
}

/// The number of stopped containers in all projects.
pub open spec fn total_stopped(projects: Seq<ProjectModel>) -> nat
    decreases projects.len(),
{
    if projects.len() == 0 {
        0
    } else {
        total_stopped(projects.drop_last()) + projects.last().stopped
    }
}

/// The item on stopped containers, where there are any.
pub open spec fn cleanup_items(projects: Seq<ProjectModel>) -> Seq<ItemModel> {
    let stopped = total_stopped(projects);
    if stopped > 0 {
        seq![
            ItemModel {
                severity: InboxSeverity::Info,
                category: "Cleanup"@,
                project: None,
                title: decimal(stopped) + " stopped containers can be reviewed"@,
                detail: "Safe prune excludes volumes by default."@,
                command: "dockerctl safe-prune --dry-run"@,
            },
        ]
    } else {
        seq![]
    }
}

/// The first project of the list that `wanted` holds of.
pub open spec fn first_project(
    projects: Seq<ProjectModel>,
    wanted: spec_fn(ProjectModel) -> bool,
) -> Option<ProjectModel>
    decreases projects.len(),
{
    if projects.len() == 0 {
        None
    } else if wanted(projects[0]) {
        Some(projects[0])
    } else {
        first_project(projects.drop_first(), wanted)
    }
}

/// A suggestion for the project `name`.
pub open spec fn suggestion(
    name: Seq<char>,
    title: Seq<char>,
    detail: Seq<char>,
    command: Seq<char>,
) -> ItemModel {
    ItemModel {
        severity: InboxSeverity::Info,
        category: "Next Action"@,
        project: Some(name),
        title,
        detail,
        command,
    }
}

/// The item that suggests what to do next: rescue the first critical project, else look at
/// the first active one.
pub open spec fn next_items(projects: Seq<ProjectModel>) -> Seq<ItemModel> {
    match first_project(projects, |p: ProjectModel| critical(p)) {
        Some(p) => seq![
            suggestion(
                p.name,
                "Run rescue preflight for "@ + p.name,
                "Review restart impact before touching containers."@,
                "dockerctl rescue "@ + p.name + " --dry-run"@,
            ),
        ],
        None => match first_project(projects, |p: ProjectModel| p.active > 0) {
            Some(p) => seq![
                suggestion(
                    p.name,
                    "Inspect "@ + p.name,
                    "No critical project found; inspect active workload if needed."@,
                    "dockerctl inspect "@ + p.name,
                ),
            ],
            None => seq![],
        },
    }
}

/// The item of an inbox that would hold no other.
pub open spec fn idle_item() -> ItemModel {
    ItemModel {
        severity: InboxSeverity::Info,
        category: "Next Action"@,
        project: None,
        title: "No urgent action"@,
        detail: "No projects or resource pressure found in the current snapshot."@,
        command: "dockerctl list"@,
    }
}

/// Everything that needs attention, before it is sorted.
pub open spec fn findings(
    projects: Seq<ProjectModel>,
    data: Option<ResourceModel>,
) -> Seq<ItemModel> {
    risk_items(projects) + resource_items(data) + cleanup_items(projects) + next_items(projects)
}

/// Whether `inbox` holds what was found, in stable order of urgency, or the idle item where
/// nothing was found.
pub open spec fn is_inbox_of(found: Seq<ItemModel>, inbox: Seq<ItemModel>) -> bool {
    if found.len() == 0 {
        inbox == seq![idle_item()]
    } else {
        is_stable_sort(found, inbox)
    }
}

/// The resource use handed to the inbox, where there is any.
pub open spec fn resource_model(data: Option<&ResourcePanelData>) -> Option<ResourceModel> {
    match data {
        Some(d) => Some(d@),
        None => None,
    }
}

/// An item made of its parts.
fn new_item(
    severity: InboxSeverity,
    category: &str,
    project: Option<String>,
    title: String,
    detail: String,
    command: String,
) -> (item: InboxItem)
    ensures
        item@ == (ItemModel {
            severity,
            category: category@,
            project: text_of(project),
            title: title@,
            detail: detail@,
            command: command@,
        }),
{
    InboxItem { severity, category: category.to_owned(), project, title, detail, command }
}

/// Adds `item` at the end of the list.
fn add_item(items: &mut Vec<InboxItem>, item: InboxItem)
    ensures
        item_models(final(items)@) == item_models(old(items)@) + seq![item@],
{
    items.push(item);
    assert(item_models(items@) == item_models(old(items)@) + seq![item@]);
}

/// Adds `count` and `word` at the end of the list where the count is above zero.
fn add_signal(signals: &mut Vec<String>, count: usize, word: &str)
    ensures
        texts(final(signals)@) == texts(old(signals)@) + signal(count as nat, word@),
{
    if count > 0 {
        let text = decimal_text(count).concat(word);
        signals.push(text);
        assert(texts(signals@) == texts(old(signals)@) + seq![text@]);
    } else {
        assert(texts(signals@) == texts(old(signals)@) + seq![]);
    }
}

/// The item for a project in trouble.
pub fn project_risk_item(project: &Project, severity: InboxSeverity) -> (item: InboxItem)
    ensures
        item@ == risk_item(project@, severity),
{
    let mut signals: Vec<String> = Vec::new();
    add_signal(&mut signals, project.unhealthy, " unhealthy");
    add_signal(&mut signals, project.restarting, " restarting");
    add_signal(&mut signals, project.paused, " paused");
    assert(texts(signals@) == risk_signals(project@));
    new_item(
        severity,
        "Critical",
        Some(project.name.clone()),
        project.name.clone().concat(" needs attention"),
        join_strings(&signals, ", "),
        "dockerctl doctor --json | jq '.projects[] | select(.project==\"".to_owned().concat(
            project.name.as_str(),
        ).concat("\")'"),
    )
}

/// Whether a container of the project is unhealthy or keeps restarting.
fn is_critical(project: &Project) -> (yes: bool)
    ensures
        yes == critical(project@),
{
    project.unhealthy > 0 || project.restarting > 0
}

/// Adds the items for the projects in trouble.
fn add_risk_items(items: &mut Vec<InboxItem>, projects: &Vec<Project>)
    ensures
        item_models(final(items)@) == item_models(old(items)@) + risk_items(
            project_models(projects@),
        ),
{
    let ghost start = item_models(items@);
    let ghost all = project_models(projects@);
    let mut i: usize = 0;
    assert(all.take(0) == Seq::<ProjectModel>::empty());
    while i < projects.len()
        invariant
            i <= projects@.len(),
            all == project_models(projects@),
            item_models(items@) == start + risk_items(all.take(i as int)),
        decreases projects@.len() - i,
    {
        let project = &projects[i];
        proof {
            assert(all.take(i + 1).drop_last() == all.take(i as int));
            assert(all.take(i + 1).last() == project@);
        }
        if is_critical(project) {
            add_item(items, project_risk_item(project, InboxSeverity::Critical));
        } else if project.paused > 0 {
            add_item(items, project_risk_item(project, InboxSeverity::Warning));
        }
        assert(item_models(items@) == start + risk_items(all.take(i + 1)));
        i = i + 1;
    }
    assert(all.take(projects@.len() as int) == all);
}

/// A warning of resource pressure.
fn new_pressure_item(project: &str, title: String, detail: String, command: String) -> (item:
    InboxItem)
    ensures
        item@ == pressure_item(project@, title@, detail@, command@),
{
    new_item(
        InboxSeverity::Warning,
        "Resource Pressure",
        Some(project.to_owned()),
        title,
        detail,
        command,
    )
}

/// Adds the items for one measured container.
fn add_pressure_items_of(items: &mut Vec<InboxItem>, project: &str, row: &ResourceRow)
    ensures
        item_models(final(items)@) == item_models(old(items)@) + pressure_items_of(project@, row@),
{
    let ghost start = item_models(items@);
    if row.error.is_none() {
        if row.cpu_percent.whole >= CPU_LIMIT {
            let item = new_pressure_item(
                project,
                "High CPU: ".to_owned().concat(row.container_name.as_str()),
                row.cpu_percent.text.clone().concat("% CPU in ").concat(project),
                "dockerctl stats ".to_owned().concat(row.container_id.as_str()).concat(" --json"),
            );
            add_item(items, item);
        }
        if row.memory_percent.whole >= MEMORY_LIMIT {
            let item = new_pressure_item(
                project,
                "High memory: ".to_owned().concat(row.container_name.as_str()),
                row.memory_percent.text.clone().concat("% memory in ").concat(project),
                "dockerctl stats ".to_owned().concat(row.container_id.as_str()).concat(" --json"),
            );
            add_item(items, item);
        }
    }
    assert(item_models(items@) == start + pressure_items_of(project@, row@));
}

/// Adds the items on resource use.
fn add_resource_items(items: &mut Vec<InboxItem>, data: &ResourcePanelData)
    ensures
        item_models(final(items)@) == item_models(old(items)@) + resource_items(Some(data@)),
{
    let ghost start = item_models(items@);
    if data.loading {
        assert(item_models(items@) == start + resource_items(Some(data@)));
        return;
    }
    let ghost all = data@.rows;
    let ghost project = data@.project;
    let mut i: usize = 0;
    assert(all.take(0) == Seq::<RowModel>::empty());
    while i < data.rows.len()
        invariant
            i <= data.rows@.len(),
            all == data@.rows,
            project == data@.project,
            item_models(items@) == start + pressure_items(project, all.take(i as int)),
        decreases data.rows@.len() - i,
    {
        let row = &data.rows[i];
        proof {
            assert(all.take(i + 1).drop_last() == all.take(i as int));
            assert(all.take(i + 1).last() == row@);
        }
        add_pressure_items_of(items, data.project.as_str(), row);
        assert(item_models(items@) == start + pressure_items(project, all.take(i + 1)));
        i = i + 1;
    }
    assert(all.take(all.len() as int) == all);
    let ghost middle = item_models(items@);
    let mut j: usize = 0;
    while j < data.rows.len()
        invariant
            j <= data.rows@.len(),
            all == data@.rows,
            project == data@.project,
            item_models(items@) == middle + failure_items(project, all.take(j as int)),
        decreases data.rows@.len() - j,
    {
        let row = &data.rows[j];
        proof {
            assert(all.take(j + 1).drop_last() == all.take(j as int));
            assert(all.take(j + 1).last() == row@);
        }
        if let Some(error) = &row.error {
            let item = new_pressure_item(
                data.project.as_str(),
                "Stats error: ".to_owned().concat(row.container_name.as_str()),
                error.clone(),
                "dockerctl stats ".to_owned().concat(row.container_id.as_str()),
            );
            add_item(items, item);
        }
        assert(item_models(items@) == middle + failure_items(project, all.take(j + 1)));
        j = j + 1;
    }
    assert(item_models(items@) == start + resource_items(Some(data@)));
}

proof fn total_stopped_grows(projects: Seq<ProjectModel>, n: int)
    requires
        0 <= n <= projects.len(),
    ensures
        total_stopped(projects.take(n)) <= total_stopped(projects),
    decreases projects.len() - n,
{
    if n < projects.len() {
        total_stopped_grows(projects, n + 1);
        assert(projects.take(n + 1).drop_last() == projects.take(n));
    } else {
        assert(projects.take(n) == projects);
    }
}

/// The number of stopped containers in all projects.
fn count_stopped(projects: &Vec<Project>) -> (count: usize)
    requires
        total_stopped(project_models(projects@)) <= usize::MAX,
    ensures
        count == total_stopped(project_models(projects@)),
{
    let ghost all = project_models(projects@);
    let mut count: usize = 0;
    let mut i: usize = 0;
    while i < projects.len()
        invariant
            i <= projects@.len(),
            all == project_models(projects@),
            total_stopped(all) <= usize::MAX,
            count == total_stopped(all.take(i as int)),
        decreases projects@.len() - i,
    {
        proof {
            assert(all.take(i + 1).drop_last() == all.take(i as int));
            total_stopped_grows(all, i + 1);
        }
        count = count + projects[i].stopped;
        i = i + 1;
    }
    assert(all.take(projects@.len() as int) == all);
    count
}

/// The first critical project.
fn find_critical(projects: &Vec<Project>) -> (found: Option<&Project>)
    ensures
        match found {
            Some(p) => first_project(
                project_models(projects@),
                |p: ProjectModel| critical(p),
            ) == Some(p@),
            None => first_project(project_models(projects@), |p: ProjectModel| critical(p)) is None,
        },
{
    let ghost all = project_models(projects@);
    let ghost wanted = |p: ProjectModel| critical(p);
    let mut i: usize = 0;
    assert(all.skip(0) == all);
    while i < projects.len()
        invariant
            i <= projects@.len(),
            all == project_models(projects@),
            wanted == (|p: ProjectModel| critical(p)),
            first_project(all, wanted) == first_project(all.skip(i as int), wanted),
        decreases projects@.len() - i,
    {
        assert(all.skip(i as int)[0] == projects@[i as int]@);
        assert(all.skip(i as int).drop_first() == all.skip(i + 1));
        if is_critical(&projects[i]) {
            return Some(&projects[i]);
        }
        i = i + 1;
    }
    None
}

/// The first active project.
fn find_active(projects: &Vec<Project>) -> (found: Option<&Project>)
    ensures
        match found {
            Some(p) => first_project(
                project_models(projects@),
                |p: ProjectModel| p.active > 0,
            ) == Some(p@),
            None => first_project(project_models(projects@), |p: ProjectModel| p.active > 0) is None,
        },
{
    let ghost all = project_models(projects@);
    let ghost wanted = |p: ProjectModel| p.active > 0;
    let mut i: usize = 0;
    assert(all.skip(0) == all);
    while i < projects.len()
        invariant
            i <= projects@.len(),
            all == project_models(projects@),
            wanted == (|p: ProjectModel| p.active > 0),
            first_project(all, wanted) == first_project(all.skip(i as int), wanted),
        decreases projects@.len() - i,
    {
        assert(all.skip(i as int)[0] == projects@[i as int]@);
        assert(all.skip(i as int).drop_first() == all.skip(i + 1));
        if projects[i].active() > 0 {
            return Some(&projects[i]);
        }
        i = i + 1;
    }
    None
}

/// Adds the item on stopped containers, where there are any.
fn add_cleanup_items(items: &mut Vec<InboxItem>, projects: &Vec<Project>)
    requires
        total_stopped(project_models(projects@)) <= usize::MAX,
    ensures
        item_models(final(items)@) == item_models(old(items)@) + cleanup_items(
            project_models(projects@),
        ),
{
    let stopped: usize = count_stopped(projects);
    if stopped > 0 {
        let item = new_item(
            InboxSeverity::Info,
            "Cleanup",
            None,
            decimal_text(stopped).concat(" stopped containers can be reviewed"),
            "Safe prune excludes volumes by default.".to_owned(),
            "dockerctl safe-prune --dry-run".to_owned(),
        );
        add_item(items, item);
    }
    assert(item_models(items@) == item_models(old(items)@) + cleanup_items(
        project_models(projects@),
    ));
}

/// Adds the item that suggests what to do next.
fn add_next_items(items: &mut Vec<InboxItem>, projects: &Vec<Project>)
    ensures
        item_models(final(items)@) == item_models(old(items)@) + next_items(
            project_models(projects@),
        ),
{
    if let Some(project) = find_critical(projects) {
        let item = new_item(
            InboxSeverity::Info,
            "Next Action",
            Some(project.name.clone()),
            "Run rescue preflight for ".to_owned().concat(project.name.as_str()),
            "Review restart impact before touching containers.".to_owned(),
            "dockerctl rescue ".to_owned().concat(project.name.as_str()).concat(" --dry-run"),
        );
        add_item(items, item);
    } else if let Some(project) = find_active(projects) {
        let item = new_item(
            InboxSeverity::Info,
            "Next Action",
            Some(project.name.clone()),
            "Inspect ".to_owned().concat(project.name.as_str()),
            "No critical project found; inspect active workload if needed.".to_owned(),
            "dockerctl inspect ".to_owned().concat(project.name.as_str()),
        );
        add_item(items, item);
    }
    assert(item_models(items@) == item_models(old(items)@) + next_items(project_models(projects@)));
}

/// The inbox of a snapshot and, where it is known, the resource use of a project.
///
/// It holds what needs attention in stable order of urgency, and one item that says so where
/// nothing does. The stopped containers must be countable in a `usize`.
pub fn build_ops_inbox(
    snapshot: &DockerSnapshot,
    resource_data: Option<&ResourcePanelData>,
) -> (inbox: OpsInbox)
    requires
        total_stopped(snapshot@.projects) <= usize::MAX,
    ensures
        is_inbox_of(findings(snapshot@.projects, resource_model(resource_data)), inbox@),
{
    let projects = snapshot.projects();
    let mut items: Vec<InboxItem> = Vec::new();
    assert(item_models(items@) == Seq::<ItemModel>::empty());
    add_risk_items(&mut items, projects);
    if let Some(data) = resource_data {
        add_resource_items(&mut items, data);
    }
    add_cleanup_items(&mut items, projects);
    add_next_items(&mut items, projects);
    let ghost found = findings(snapshot@.projects, resource_model(resource_data));
    assert(item_models(items@) == found);
    sort_inbox_items(&mut items);
    proof {
        stable_sort_keeps_every_item(found, item_models(items@));
    }
    if items.len() == 0 {
        let item = new_item(
            InboxSeverity::Info,
            "Next Action",
            None,
            "No urgent action".to_owned(),
            "No projects or resource pressure found in the current snapshot.".to_owned(),
            "dockerctl list".to_owned(),
        );
        add_item(&mut items, item);
        assert(item_models(items@) == seq![idle_item()]);
    }
    OpsInbox { items }
}

/// An inbox is never empty.
pub proof fn inbox_is_never_empty(found: Seq<ItemModel>, inbox: Seq<ItemModel>)
    requires
        is_inbox_of(found, inbox),
    ensures
        inbox.len() > 0,
{
    if found.len() > 0 {
        stable_sort_keeps_every_item(found, inbox);
    }
}

/// An inbox lists the more urgent severity first.
pub proof fn inbox_lists_urgent_first(found: Seq<ItemModel>, inbox: Seq<ItemModel>)
    requires
        is_inbox_of(found, inbox),
    ensures
        forall|i: int, j: int|
            0 <= i < j < inbox.len() ==> rank_of_severity((#[trigger] inbox[i]).severity)
                <= rank_of_severity((#[trigger] inbox[j]).severity),
{
    if found.len() > 0 {
        assert forall|i: int, j: int| 0 <= i < j < inbox.len() implies rank_of_severity(
            (#[trigger] inbox[i]).severity,
        ) <= rank_of_severity((#[trigger] inbox[j]).severity) by {
            assert(!key_before(key(inbox[j]), key(inbox[i])));
        }
    }
}

/// An inbox is determined by what was found.
pub proof fn inbox_is_determined(found: Seq<ItemModel>, a: Seq<ItemModel>, b: Seq<ItemModel>)
    requires
        is_inbox_of(found, a),
        is_inbox_of(found, b),
    ensures
        a == b,
{
    if found.len() > 0 {
        stable_sort_is_unique(found, a, b);
    }
}

proof fn risk_items_hold(projects: Seq<ProjectModel>, i: int)
    requires
        0 <= i < projects.len(),
        critical(projects[i]),
    ensures
        risk_items(projects).contains(risk_item(projects[i], InboxSeverity::Critical)),
    decreases projects.len(),
{
    let item = risk_item(projects[i], InboxSeverity::Critical);
    let (front, back) = (risk_items(projects.drop_last()), risk_items_of(projects.last()));
    if i == projects.len() - 1 {
        assert((front + back)[front.len() as int] == item);
    } else {
        risk_items_hold(projects.drop_last(), i);
        let k = choose|k: int| 0 <= k < front.len() && front[k] == item;
        assert((front + back)[k] == item);
    }
}

/// Every critical project has its critical item in the inbox.
pub proof fn inbox_holds_every_critical_project(
    projects: Seq<ProjectModel>,
    data: Option<ResourceModel>,
    inbox: Seq<ItemModel>,
    i: int,
)
    requires
        is_inbox_of(findings(projects, data), inbox),
        0 <= i < projects.len(),
        critical(projects[i]),
    ensures
        inbox.contains(risk_item(projects[i], InboxSeverity::Critical)),
{
    broadcast use vstd::seq_lib::group_to_multiset_ensures;

    let item = risk_item(projects[i], InboxSeverity::Critical);
    let found = findings(projects, data);
    risk_items_hold(projects, i);
    let k = choose|k: int| 0 <= k < risk_items(projects).len() && risk_items(projects)[k] == item;
    assert(found[k] == item);
    stable_sort_keeps_every_item(found, inbox);
    assert(found.to_multiset().count(item) > 0);
    assert(inbox.to_multiset().contains(item));
}

/// Resource use that is still loading finds nothing.
pub proof fn loading_resources_find_nothing(projects: Seq<ProjectModel>, data: ResourceModel)
    requires
        data.loading,
    ensures
        findings(projects, Some(data)) == findings(projects, None),
{
}

/// Whether an item suggests what to do next.
pub open spec fn suggests(item: ItemModel) -> bool {
    item.category == "Next Action"@
}

/// The items that do not suggest what to do next.
pub open spec fn without_suggestions(items: Seq<ItemModel>) -> Seq<ItemModel> {
    items.filter(|item: ItemModel| !suggests(item))
}

proof fn filters_commute(
    items: Seq<ItemModel>,
    p: spec_fn(ItemModel) -> bool,
    q: spec_fn(ItemModel) -> bool,
)
    ensures
        items.filter(p).filter(q) == items.filter(q).filter(p),
    decreases items.len(),
{
    reveal(Seq::filter);
    if items.len() > 0 {
        let (front, last) = (items.drop_last(), items.last());
        filters_commute(front, p, q);
        if p(last) {
            assert(front.filter(p).push(last).drop_last() == front.filter(p));
        }
        if q(last) {
            assert(front.filter(q).push(last).drop_last() == front.filter(q));
        }
    }
}

proof fn filter_keeps_order(items: Seq<ItemModel>, keep: spec_fn(ItemModel) -> bool)
    requires
        in_order(items),
    ensures
        in_order(items.filter(keep)),
    decreases items.len(),
{
    reveal(Seq::filter);
    if items.len() > 0 {
        let (front, last) = (items.drop_last(), items.last());
        filter_keeps_order(front, keep);
        let (kept, out) = (front.filter(keep), items.filter(keep));
        assert forall|i: int, j: int| 0 <= i < j < out.len() implies !key_before(
            key(#[trigger] out[j]),
            key(#[trigger] out[i]),
        ) by {
            assert(out[i] == kept[i]);
            if j < kept.len() {
                assert(out[j] == kept[j]);
            } else {
                assert(kept.contains(kept[i]));
                front.lemma_filter_contains_rev(keep, kept[i]);
                let k = choose|k: int| 0 <= k < front.len() && front[k] == kept[i];
                assert(items[k] == out[i] && items[items.len() - 1] == out[j]);
            }
        }
    }
}

/// What is left of a stable sort is a stable sort of what is left.
proof fn filter_keeps_stable_sort(
    items: Seq<ItemModel>,
    sorted: Seq<ItemModel>,
    keep: spec_fn(ItemModel) -> bool,
)
    requires
        is_stable_sort(items, sorted),
    ensures
        is_stable_sort(items.filter(keep), sorted.filter(keep)),
{
    filter_keeps_order(sorted, keep);
    assert forall|k: PlaceKey| #[trigger]
        with_key(sorted.filter(keep), k) == with_key(items.filter(keep), k) by {
        let same = |item: ItemModel| key(item) == k;
        filters_commute(sorted, keep, same);
        filters_commute(items, keep, same);
        assert(with_key(sorted, k) == with_key(items, k));
    }
}

proof fn risk_items_of_both(a: Seq<ProjectModel>, b: Seq<ProjectModel>)
    ensures
        risk_items(a + b) == risk_items(a) + risk_items(b),
        total_stopped(a + b) == total_stopped(a) + total_stopped(b),
    decreases b.len(),
{
    if b.len() == 0 {
        assert(a + b == a);
        assert(risk_items(a) + risk_items(b) == risk_items(a));
    } else {
        risk_items_of_both(a, b.drop_last());
        assert((a + b).drop_last() == a + b.drop_last());
        assert(risk_items(a + b) == risk_items(a) + risk_items(b));
    }
}

proof fn risk_items_are_named(projects: Seq<ProjectModel>, i: int)
    requires
        0 <= i < risk_items(projects).len(),
    ensures
        exists|j: int|
            0 <= j < projects.len() && risk_items(projects)[i].project == Some(
                (#[trigger] projects[j]).name,
            ),
    decreases projects.len(),
{
    let (front, back) = (risk_items(projects.drop_last()), risk_items_of(projects.last()));
    if i < front.len() {
        risk_items_are_named(projects.drop_last(), i);
        let j = choose|j: int|
            0 <= j < projects.drop_last().len() && front[i].project == Some(
                (#[trigger] projects.drop_last()[j]).name,
            );
        assert(projects[j].name == projects.drop_last()[j].name);
    } else {
        assert(risk_items(projects)[i] == back[i - front.len()]);
        assert(projects[projects.len() - 1] == projects.last());
    }
}

proof fn no_risk_items_of_others(projects: Seq<ProjectModel>, k: PlaceKey)
    requires
        forall|j: int|
            0 <= j < projects.len() ==> k.project != Some((#[trigger] projects[j]).name),
    ensures
        with_key(risk_items(projects), k) == Seq::<ItemModel>::empty(),
{
    let items = risk_items(projects);
    let same = |item: ItemModel| key(item) == k;
    assert forall|i: int| 0 <= i < items.len() implies !same(#[trigger] items[i]) by {
        risk_items_are_named(projects, i);
    }
    items.lemma_all_neg_filter_empty(same);
    assert(items.filter(same) == Seq::<ItemModel>::empty());
}

proof fn risk_items_of_one(p: ProjectModel)
    ensures
        risk_items(seq![p]) == risk_items_of(p),
        total_stopped(seq![p]) == p.stopped,
{
    reveal_with_fuel(risk_items, 2);
    reveal_with_fuel(total_stopped, 2);
    let one = seq![p];
    assert(one.drop_last() == Seq::<ProjectModel>::empty());
    assert(one.last() == p);
    assert(Seq::<ItemModel>::empty() + risk_items_of(p) == risk_items_of(p));
}

/// Takes one project out of the list: under its name stands only its own item, and under any
/// other name it has none.
proof fn risk_items_without_one(projects: Seq<ProjectModel>, j: int, k: PlaceKey)
    requires
        0 <= j < projects.len(),
        forall|i: int|
            0 <= i < projects.remove(j).len() ==> (#[trigger] projects.remove(j)[i]).name
                != projects[j].name,
    ensures
        with_key(risk_items(projects), k) == if k.project == Some(projects[j].name) {
            with_key(risk_items_of(projects[j]), k)
        } else {
            with_key(risk_items(projects.remove(j)), k)
        },
        total_stopped(projects) == total_stopped(projects.remove(j)) + projects[j].stopped,
{
    let p = projects[j];
    let (left, right, one) = (projects.take(j), projects.skip(j + 1), seq![p]);
    let others = projects.remove(j);
    assert(others == left + right);
    assert(projects == left + one + right);
    risk_items_of_both(left, right);
    risk_items_of_both(left + one, right);
    risk_items_of_both(left, one);
    risk_items_of_one(p);
    let same = |item: ItemModel| key(item) == k;
    let (l, r, m) = (risk_items(left), risk_items(right), risk_items_of(p));
    Seq::filter_distributes_over_add(l, r, same);
    Seq::filter_distributes_over_add(l + m, r, same);
    Seq::filter_distributes_over_add(l, m, same);
    let none = Seq::<ItemModel>::empty();
    if k.project == Some(p.name) {
        assert forall|i: int| 0 <= i < left.len() implies k.project != Some(
            (#[trigger] left[i]).name,
        ) by {
            assert(left[i] == others[i]);
        }
        assert forall|i: int| 0 <= i < right.len() implies k.project != Some(
            (#[trigger] right[i]).name,
        ) by {
            assert(right[i] == others[j + i]);
        }
        no_risk_items_of_others(left, k);
        no_risk_items_of_others(right, k);
        assert(l.filter(same) == none && r.filter(same) == none);
        assert(none + m.filter(same) + none == m.filter(same));
    } else {
        m.lemma_all_neg_filter_empty(same);
        assert(m.filter(same) == none);
        assert(l.filter(same) + none + r.filter(same) == l.filter(same) + r.filter(same));
    }
}

/// Where no two projects have the same name, neither the items with a key nor the number of
/// stopped containers depend on the order of the projects.
proof fn reordering_keeps_risk_items(a: Seq<ProjectModel>, b: Seq<ProjectModel>, k: PlaceKey)
    requires
        a.to_multiset() == b.to_multiset(),
        forall|i: int, j: int|
            0 <= i < j < a.len() ==> (#[trigger] a[i]).name != (#[trigger] a[j]).name,
    ensures
        with_key(risk_items(a), k) == with_key(risk_items(b), k),
        total_stopped(a) == total_stopped(b),
    decreases a.len(),
{
    broadcast use vstd::seq_lib::group_to_multiset_ensures;

    assert(a.len() == a.to_multiset().len() && b.len() == b.to_multiset().len());
    if a.len() == 0 {
        assert(a == b);
    } else {
        let last = a.len() - 1;
        let p = a[last];
        assert(a.contains(p));
        assert(b.to_multiset().count(p) > 0);
        let j = choose|j: int| 0 <= j < b.len() && b[j] == p;
        let (front, others) = (a.remove(last), b.remove(j));
        assert(front.to_multiset() =~= others.to_multiset());
        assert forall|i: int| 0 <= i < front.len() implies (#[trigger] front[i]).name
            != p.name by {
            assert(front[i] == a[i]);
        }
        assert forall|i: int| 0 <= i < others.len() implies (#[trigger] others[i]).name
            != p.name by {
            assert(others.contains(others[i]));
            assert(front.to_multiset().count(others[i]) > 0);
            let h = choose|h: int| 0 <= h < front.len() && front[h] == others[i];
            assert(front[h].name != p.name);
        }
        assert forall|i: int, h: int| 0 <= i < h < front.len() implies (#[trigger] front[i]).name
            != (#[trigger] front[h]).name by {
            assert(front[i] == a[i] && front[h] == a[h]);
        }
        reordering_keeps_risk_items(front, others, k);
        risk_items_without_one(a, last, k);
        risk_items_without_one(b, j, k);
    }
}

proof fn suggestions_are_left_out(projects: Seq<ProjectModel>, data: Option<ResourceModel>)
    ensures
        without_suggestions(findings(projects, data)) == without_suggestions(
            risk_items(projects) + resource_items(data) + cleanup_items(projects),
        ),
{
    let lasting = |item: ItemModel| !suggests(item);
    let (rest, next) = (
        risk_items(projects) + resource_items(data) + cleanup_items(projects),
        next_items(projects),
    );
    Seq::filter_distributes_over_add(rest, next, lasting);
    next.lemma_all_neg_filter_empty(lasting);
    assert(next.filter(lasting) == Seq::<ItemModel>::empty());
}

proof fn inbox_sorts_what_lasts(found: Seq<ItemModel>, inbox: Seq<ItemModel>)
    requires
        is_inbox_of(found, inbox),
    ensures
        is_stable_sort(without_suggestions(found), without_suggestions(inbox)),
{
    let lasting = |item: ItemModel| !suggests(item);
    if found.len() == 0 {
        inbox.lemma_all_neg_filter_empty(lasting);
        found.lemma_all_neg_filter_empty(lasting);
        assert(found.filter(lasting) == inbox.filter(lasting));
    } else {
        filter_keeps_stable_sort(found, inbox, lasting);
    }
}

/// Where no two projects have the same name, the order in which the host lists them decides
/// only what is suggested next: all other items of the inbox, and their order, stay the same.
pub proof fn listing_order_decides_only_the_suggestion(
    a: Seq<ProjectModel>,
    b: Seq<ProjectModel>,
    data: Option<ResourceModel>,
    x: Seq<ItemModel>,
    y: Seq<ItemModel>,
)
    requires
        a.to_multiset() == b.to_multiset(),
        forall|i: int, j: int|
            0 <= i < j < a.len() ==> (#[trigger] a[i]).name != (#[trigger] a[j]).name,
        is_inbox_of(findings(a, data), x),
        is_inbox_of(findings(b, data), y),
    ensures
        without_suggestions(x) == without_suggestions(y),
{
    let lasting = |item: ItemModel| !suggests(item);
    let (r, ca, cb) = (resource_items(data), cleanup_items(a), cleanup_items(b));
    let (fa, fb) = (risk_items(a) + r + ca, risk_items(b) + r + cb);
    inbox_sorts_what_lasts(findings(a, data), x);
    inbox_sorts_what_lasts(findings(b, data), y);
    suggestions_are_left_out(a, data);
    suggestions_are_left_out(b, data);
    assert forall|k: PlaceKey| #[trigger]
        with_key(without_suggestions(y), k) == with_key(without_suggestions(fa), k) by {
        let same = |item: ItemModel| key(item) == k;
        reordering_keeps_risk_items(a, b, k);
        Seq::filter_distributes_over_add(risk_items(a) + r, ca, same);
        Seq::filter_distributes_over_add(risk_items(a), r, same);
        Seq::filter_distributes_over_add(risk_items(b) + r, cb, same);
        Seq::filter_distributes_over_add(risk_items(b), r, same);
        assert(with_key(fa, k) == with_key(fb, k));
        filters_commute(fa, lasting, same);
        filters_commute(fb, lasting, same);
        assert(with_key(without_suggestions(y), k) == with_key(without_suggestions(fb), k));
    }
    stable_sort_is_unique(without_suggestions(fa), without_suggestions(x), without_suggestions(y));
}

} // verus!
