//! A set of project names.

use vstd::prelude::*;

use crate::domain::{project_models, Project, ProjectModel};
use crate::text::{same_text, texts};

verus! {

/// The names of a list of projects.
pub open spec fn names_of(projects: Seq<ProjectModel>) -> Set<Seq<char>> {
    projects.map_values(|p: ProjectModel| p.name).to_set()
}

/// Project names, each at most once.
#[derive(Debug)]
pub struct NameSet {
    names: Vec<String>,
}

impl View for NameSet {
    type V = Set<Seq<char>>;

    closed spec fn view(&self) -> Set<Seq<char>> {
        texts(self.names@).to_set()
    }
}

/// The position of `name` in the list, where it is in it.
fn position(names: &Vec<String>, name: &str) -> (at: Option<usize>)
    ensures
        match at {
            Some(i) => i < names@.len() && names@[i as int]@ == name@,
            None => !texts(names@).contains(name@),
        },
{
    let mut i: usize = 0;
    while i < names.len()
        invariant
            i <= names@.len(),
            forall|k: int| 0 <= k < i ==> #[trigger] texts(names@)[k] != name@,
        decreases names@.len() - i,
    {
        if same_text(names[i].as_str(), name) {
            return Some(i);
        }
        i = i + 1;
    }
    None
}

/// Whether a project of the list is called `name`.
pub fn has_project(projects: &Vec<Project>, name: &str) -> (yes: bool)
    ensures
        yes == names_of(project_models(projects@)).contains(name@),
{
    let ghost all = project_models(projects@).map_values(|p: ProjectModel| p.name);
    let mut i: usize = 0;
    while i < projects.len()
        invariant
            i <= projects@.len(),
            all == project_models(projects@).map_values(|p: ProjectModel| p.name),
            forall|k: int| 0 <= k < i ==> #[trigger] all[k] != name@,
        decreases projects@.len() - i,
    {
        if same_text(projects[i].name.as_str(), name) {
            assert(all[i as int] == name@);
            return true;
        }
        i = i + 1;
    }
    false
}

proof fn push_adds(list: Seq<Seq<char>>, name: Seq<char>)
    ensures
        list.push(name).to_set() == list.to_set().insert(name),
        list.no_duplicates() && !list.contains(name) ==> list.push(name).no_duplicates(),
{
    let more = list.push(name);
    assert forall|x: Seq<char>| more.to_set().contains(x) == list.to_set().insert(name).contains(
        x,
    ) by {
        if list.contains(x) {
            let k = choose|k: int| 0 <= k < list.len() && list[k] == x;
            assert(more[k] == x);
        }
        if x == name {
            assert(more[list.len() as int] == x);
        }
    }
    assert(more.to_set() =~= list.to_set().insert(name));
}

proof fn remove_takes(list: Seq<Seq<char>>, i: int)
    requires
        list.no_duplicates(),
        0 <= i < list.len(),
    ensures
        list.remove(i).to_set() == list.to_set().remove(list[i]),
        list.remove(i).no_duplicates(),
{
    let fewer = list.remove(i);
    assert forall|x: Seq<char>| fewer.to_set().contains(x) == list.to_set().remove(
        list[i],
    ).contains(x) by {
        if fewer.contains(x) {
            let k = choose|k: int| 0 <= k < fewer.len() && fewer[k] == x;
            let from = if k < i { k } else { k + 1 };
            assert(list[from] == x);
        }
        if list.contains(x) && x != list[i] {
            let k = choose|k: int| 0 <= k < list.len() && list[k] == x;
            let to = if k < i { k } else { k - 1 };
            assert(fewer[to] == x);
        }
    }
    assert(fewer.to_set() =~= list.to_set().remove(list[i]));
}

impl NameSet {
    #[verifier::type_invariant]
    closed spec fn no_name_twice(self) -> bool {
        texts(self.names@).no_duplicates()
    }

    /// The set without names.
    pub fn new() -> (set: NameSet)
        ensures
            set@ == Set::<Seq<char>>::empty(),
    {
        let set = NameSet { names: Vec::new() };
        assert(set@ =~= Set::<Seq<char>>::empty());
        set
    }

    /// The names of the projects of a list.
    pub fn from_projects(projects: &Vec<Project>) -> (set: NameSet)
        ensures
            set@ == names_of(project_models(projects@)),
    {
        let mut set = NameSet::new();
        let ghost all = project_models(projects@).map_values(|p: ProjectModel| p.name);
        let mut i: usize = 0;
        assert(all.take(0).to_set() =~= Set::<Seq<char>>::empty());
        while i < projects.len()
            invariant
                i <= projects@.len(),
                all == project_models(projects@).map_values(|p: ProjectModel| p.name),
                set@ == all.take(i as int).to_set(),
            decreases projects@.len() - i,
        {
            set.insert(projects[i].name.clone());
            proof {
                assert(all.take(i + 1) == all.take(i as int).push(all[i as int]));
                push_adds(all.take(i as int), all[i as int]);
            }
            i = i + 1;
        }
        assert(all.take(all.len() as int) == all);
        set
    }

    /// Whether `name` is in the set.
    pub fn contains(&self, name: &str) -> (yes: bool)
        ensures
            yes == self@.contains(name@),
    {
        match position(&self.names, name) {
            Some(i) => {
                assert(texts(self.names@)[i as int] == name@);
                true
            },
            None => false,
        }
    }

    /// Adds `name`; whether it is new to the set.
    pub fn insert(&mut self, name: String) -> (new: bool)
        ensures
            final(self)@ == old(self)@.insert(name@),
            new == !old(self)@.contains(name@),
    {
        if self.contains(name.as_str()) {
            assert(self@ =~= self@.insert(name@));
            return false;
        }
        proof {
            use_type_invariant(&*self);
            push_adds(texts(self.names@), name@);
        }
        let mut names: Vec<String> = Vec::new();
        std::mem::swap(&mut names, &mut self.names);
        let ghost before = names@;
        names.push(name);
        assert(texts(names@) == texts(before).push(name@));
        self.names = names;
        true
    }

    /// Takes `name` out; whether it was in the set.
    pub fn remove(&mut self, name: &str) -> (found: bool)
        ensures
            final(self)@ == old(self)@.remove(name@),
            found == old(self)@.contains(name@),
    {
        proof {
            use_type_invariant(&*self);
        }
        match position(&self.names, name) {
            Some(i) => {
                proof {
                    assert(texts(self.names@)[i as int] == name@);
                    remove_takes(texts(self.names@), i as int);
                }
                let mut names: Vec<String> = Vec::new();
                std::mem::swap(&mut names, &mut self.names);
                let ghost before = names@;
                names.remove(i);
                assert(texts(names@) == texts(before).remove(i as int));
                self.names = names;
                true
            },
            None => {
                assert(self@ =~= self@.remove(name@));
                false
            },
        }
    }

    /// Takes all names out.
    pub fn clear(&mut self)
        ensures
            final(self)@ == Set::<Seq<char>>::empty(),
    {
        let names: Vec<String> = Vec::new();
        self.names = names;
        assert(self@ =~= Set::<Seq<char>>::empty());
    }

    /// The number of names.
    pub fn len(&self) -> (count: usize)
        ensures
            count == self@.len(),
    {
        proof {
            use_type_invariant(self);
            texts(self.names@).unique_seq_to_set();
        }
        self.names.len()
    }

    /// Whether there are no names.
    pub fn is_empty(&self) -> (yes: bool)
        ensures
            yes == (self@ == Set::<Seq<char>>::empty()),
    {
        proof {
            if self.names@.len() > 0 {
                assert(self@.contains(texts(self.names@)[0]));
            } else {
                assert(self@ =~= Set::<Seq<char>>::empty());
            }
        }
        self.names.len() == 0
    }

    /// Keeps the names of the projects of a list, and no others.
    pub fn retain_projects(&mut self, projects: &Vec<Project>)
        ensures
            final(self)@ == old(self)@.intersect(names_of(project_models(projects@))),
    {
        let ghost shown = names_of(project_models(projects@));
        let ghost all = texts(self.names@);
        let mut kept = NameSet::new();
        let mut i: usize = 0;
        assert(kept@ =~= all.take(0).to_set().intersect(shown));
        while i < self.names.len()
            invariant
                i <= self.names@.len(),
                all == texts(self.names@),
                shown == names_of(project_models(projects@)),
                kept@ == all.take(i as int).to_set().intersect(shown),
            decreases self.names@.len() - i,
        {
            let ghost before = kept@;
            let name = self.names[i].clone();
            if has_project(projects, name.as_str()) {
                kept.insert(name);
            }
            proof {
                assert(all.take(i + 1) == all.take(i as int).push(all[i as int]));
                push_adds(all.take(i as int), all[i as int]);
                assert(kept@ =~= all.take(i + 1).to_set().intersect(shown));
            }
            i = i + 1;
        }
        assert(all.take(all.len() as int) == all);
        *self = kept;
    }
}

} // verus!
