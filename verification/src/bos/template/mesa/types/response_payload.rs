//! A template as the service answers it.

use vstd::prelude::*;
use crate::common::text::{extend_with_clones, texts};

verus! {

#[derive(Debug, Clone)]
pub struct Link {
    pub rel: Option<String>,
    pub href: Option<String>,
}

#[derive(Debug, Clone)]
pub struct Cfs {
    pub clone_url: Option<String>,
    pub branch: Option<String>,
    pub commit: Option<String>,
    pub playbook: Option<String>,
    pub configuration: Option<String>,
}

#[derive(Debug, Clone)]
pub struct BootSet {
    pub name: Option<String>,
    pub boot_ordinal: Option<u64>,
    pub shutdown_ordinal: Option<u64>,
    pub path: Option<String>,
    pub set_type: Option<String>,
    pub etag: Option<String>,
    pub kernel_parameters: Option<String>,
    pub network: Option<String>,
    pub node_list: Option<Vec<String>>,
    pub node_roles_groups: Option<Vec<String>>,
    pub node_groups: Option<Vec<String>>,
    pub rootfs_provider: Option<String>,
    pub rootfs_provider_passthrough: Option<String>,
}

#[derive(Debug, Clone)]
pub struct BosSessionTemplate {
    pub template_url: Option<String>,
    pub name: Option<String>,
    pub description: Option<String>,
    pub cfs_url: Option<String>,
    pub cfs_branch: Option<String>,
    pub enable_cfs: Option<bool>,
    pub cfs: Option<Cfs>,
    pub partition: Option<String>,
    /// The boot sets, each under its name; no name occurs twice
    /// (`boot_set_names_distinct`).
    pub boot_sets: Option<Vec<(String, BootSet)>>,
    pub link: Option<Vec<Link>>,
}

/// The texts in an optional list, none for a missing list.
pub open spec fn texts_or_none(list: Option<Vec<String>>) -> Seq<Seq<char>> {
    match list {
        Some(items) => texts(items@),
        None => Seq::empty(),
    }
}

/// The node groups of all boot sets, in the order of the sets.
pub open spec fn all_node_groups(sets: Seq<(String, BootSet)>) -> Seq<Seq<char>>
    decreases sets.len(),
{
    if sets.len() == 0 {
        Seq::empty()
    } else {
        all_node_groups(sets.drop_last()) + texts_or_none(sets.last().1.node_groups)
    }
}

/// The node lists of all boot sets, in the order of the sets.
pub open spec fn all_node_lists(sets: Seq<(String, BootSet)>) -> Seq<Seq<char>>
    decreases sets.len(),
{
    if sets.len() == 0 {
        Seq::empty()
    } else {
        all_node_lists(sets.drop_last()) + texts_or_none(sets.last().1.node_list)
    }
}

/// The path of each boot set, the empty text for a set without one.
pub open spec fn all_paths(sets: Seq<(String, BootSet)>) -> Seq<Seq<char>> {
    Seq::new(
        sets.len(),
        |i: int|
            match sets[i].1.path {
                Some(path) => path@,
                None => Seq::empty(),
            },
    )
}

/// No two boot sets have the same name.
pub open spec fn boot_set_names_distinct(sets: Seq<(String, BootSet)>) -> bool {
    forall|i: int, j: int| 0 <= i < j < sets.len() ==> sets[i].0@ != sets[j].0@
}

impl BosSessionTemplate {
    /// Returns the names of the groups that the template boots. The
    /// template must have boot sets.
    pub fn get_target_hsm(&self) -> (names: Vec<String>)
        requires
            self.boot_sets is Some,
        ensures
            texts(names@) == all_node_groups(self.boot_sets->0@),
    {
        let sets = match &self.boot_sets {
            Some(sets) => sets,
            None => {
                return Vec::new();
            },
        };
        let mut names: Vec<String> = Vec::new();
        let mut i: usize = 0;
        assert(sets@.subrange(0, 0) =~= Seq::empty());
        assert(texts(names@) =~= Seq::<Seq<char>>::empty());
        while i < sets.len()
            invariant
                i <= sets.len(),
                texts(names@) == all_node_groups(sets@.subrange(0, i as int)),
            decreases sets.len() - i,
        {
            assert(sets@.subrange(0, i + 1).drop_last() =~= sets@.subrange(0, i as int));
            match &sets[i].1.node_groups {
                Some(groups) => {
                    extend_with_clones(&mut names, groups);
                },
                None => {
                    assert(texts(names@) + Seq::<Seq<char>>::empty() =~= texts(names@));
                },
            }
            i = i + 1;
        }
        assert(sets@.subrange(0, i as int) =~= sets@);
        names
    }

    /// Returns the nodes that the template boots. The template must have
    /// boot sets.
    pub fn get_target_xname(&self) -> (names: Vec<String>)
        requires
            self.boot_sets is Some,
        ensures
            texts(names@) == all_node_lists(self.boot_sets->0@),
    {
        let sets = match &self.boot_sets {
            Some(sets) => sets,
            None => {
                return Vec::new();
            },
        };
        let mut names: Vec<String> = Vec::new();
        let mut i: usize = 0;
        assert(sets@.subrange(0, 0) =~= Seq::empty());
        assert(texts(names@) =~= Seq::<Seq<char>>::empty());
        while i < sets.len()
            invariant
                i <= sets.len(),
                texts(names@) == all_node_lists(sets@.subrange(0, i as int)),
            decreases sets.len() - i,
        {
            assert(sets@.subrange(0, i + 1).drop_last() =~= sets@.subrange(0, i as int));
            match &sets[i].1.node_list {
                Some(list) => {
                    extend_with_clones(&mut names, list);
                },
                None => {
                    assert(texts(names@) + Seq::<Seq<char>>::empty() =~= texts(names@));
                },
            }
            i = i + 1;
        }
        assert(sets@.subrange(0, i as int) =~= sets@);
        names
    }

    /// Returns the configuration that the template applies. The template
    /// must have a configuration section.
    pub fn get_confguration(&self) -> (configuration: Option<String>)
        requires
            self.cfs is Some,
        ensures
            configuration == self.cfs->0.configuration,
    {
        match &self.cfs {
            Some(cfs) => cfs.configuration.clone(),
            None => None,
        }
    }

    /// Returns the path of each boot set, the empty text for a set without
    /// one. The template must have boot sets.
    pub fn get_path(&self) -> (paths: Vec<String>)
        requires
            self.boot_sets is Some,
        ensures
            texts(paths@) == all_paths(self.boot_sets->0@),
    {
        let sets = match &self.boot_sets {
            Some(sets) => sets,
            None => {
                return Vec::new();
            },
        };
        let mut paths: Vec<String> = Vec::new();
        let mut i: usize = 0;
        while i < sets.len()
            invariant
                i <= sets.len(),
                texts(paths@) =~= all_paths(sets@).subrange(0, i as int),
            decreases sets.len() - i,
        {
            let ghost before = texts(paths@);
            let path = match &sets[i].1.path {
                Some(path) => path.clone(),
                None => String::new(),
            };
            let ghost text = path@;
            paths.push(path);
            assert(texts(paths@) =~= before.push(text));
            assert(all_paths(sets@).subrange(0, i + 1) =~= all_paths(sets@).subrange(
                0,
                i as int,
            ).push(text));
            i = i + 1;
        }
        assert(all_paths(sets@).subrange(0, i as int) =~= all_paths(sets@));
        paths
    }
}

} // verus!
