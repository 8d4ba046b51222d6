//! Cleaning the build output while keeping, when asked, the keypair files.
use vstd::prelude::*;
use crate::keys::{is_keypair_file, KEYPAIR_SUFFIX};
use crate::text::{ends_with, views};

verus! {

/// The file names among `names` that are keypair files, in order.
pub open spec fn keypair_names(names: Seq<Seq<char>>) -> Seq<Seq<char>>
    decreases names.len(),
{
    if names.len() == 0 {
        Seq::empty()
    } else {
        let init = keypair_names(names.drop_last());
        if ends_with(names.last(), KEYPAIR_SUFFIX@) {
            init.push(names.last())
        } else {
            init
        }
    }
}

/// What a clean does, in order: capture the named deploy files, remove the
/// build-output root, recreate the deploy directory, write the captured
/// files back under their names.
#[derive(Debug)]
pub struct CleanPlan {
    /// Whether the build-output root is to be removed.
    pub remove_target: bool,
    /// The deploy files to read before the removal and write back after it.
    pub preserve: Vec<String>,
    /// Whether the deploy directory is to be recreated after the removal.
    pub recreate_deploy: bool,
}

/// The keypair files among the deploy directory's entries, in order.
pub fn keypair_entries(deploy_entries: &Vec<String>) -> (r: Vec<String>)
    ensures
        views(r@) == keypair_names(views(deploy_entries@)),
{
    let ghost ns = views(deploy_entries@);
    let mut r: Vec<String> = Vec::new();
    let mut i: usize = 0;
    assert(ns.take(0) =~= Seq::<Seq<char>>::empty());
    while i < deploy_entries.len()
        invariant
            ns == views(deploy_entries@),
            i <= deploy_entries.len(),
            views(r@) == keypair_names(ns.take(i as int)),
        decreases deploy_entries.len() - i,
    {
        assert(ns.take(i + 1).drop_last() =~= ns.take(i as int));
        assert(ns.take(i + 1).last() == deploy_entries@[i as int]@);
        let ghost before = views(r@);
        if is_keypair_file(deploy_entries[i].as_str()) {
            r.push(deploy_entries[i].clone());
            assert(views(r@) =~= before.push(deploy_entries@[i as int]@));
        }
        i = i + 1;
    }
    assert(ns.take(deploy_entries.len() as int) =~= ns);
    r
}

/// Plans a clean. Without a build-output root there is nothing to do.
/// Otherwise the root goes; when keypairs are preserved the deploy directory
/// comes back, holding the keypair files that were in it.
pub fn plan_clean(
    target_exists: bool,
    deploy_exists: bool,
    preserve_keypairs: bool,
    deploy_entries: &Vec<String>,
) -> (r: CleanPlan)
    ensures
        r.remove_target == target_exists,
        r.recreate_deploy == (target_exists && preserve_keypairs),
        views(r.preserve@) == if target_exists && preserve_keypairs && deploy_exists {
            keypair_names(views(deploy_entries@))
        } else {
            Seq::<Seq<char>>::empty()
        },
{
    if target_exists && preserve_keypairs && deploy_exists {
        CleanPlan { remove_target: true, preserve: keypair_entries(deploy_entries), recreate_deploy: true }
    } else {
        let none: Vec<String> = Vec::new();
        assert(views(none@) =~= Seq::<Seq<char>>::empty());
        CleanPlan {
            remove_target: target_exists,
            preserve: none,
            recreate_deploy: target_exists && preserve_keypairs,
        }
    }
}

/// A name is among the keypair names exactly when it is among the names and
/// ends with the keypair suffix.
proof fn lemma_keypair_names_member(names: Seq<Seq<char>>, n: Seq<char>)
    ensures
        keypair_names(names).contains(n) <==> (names.contains(n) && ends_with(n, KEYPAIR_SUFFIX@)),
    decreases names.len(),
{
    if names.len() > 0 {
        let init = names.drop_last();
        lemma_keypair_names_member(init, n);
        assert(names =~= init.push(names.last()));
        if names.contains(n) && !init.contains(n) {
            let k = choose|k: int| 0 <= k < names.len() && names[k] == n;
            if k < init.len() {
                assert(init[k] == n);
            }
        }
        if init.contains(n) {
            let k = choose|k: int| 0 <= k < init.len() && init[k] == n;
            assert(names[k] == n);
        }
        let kn = keypair_names(names);
        if ends_with(names.last(), KEYPAIR_SUFFIX@) {
            assert(kn[kn.len() - 1] == names.last());
            if keypair_names(init).contains(n) {
                let k = choose|k: int| 0 <= k < keypair_names(init).len() && keypair_names(init)[k] == n;
                assert(kn[k] == n);
            }
            if kn.contains(n) && n != names.last() {
                let k = choose|k: int| 0 <= k < kn.len() && kn[k] == n;
                assert(keypair_names(init)[k] == n);
            }
        }
    }
}

/// A clean of an existing build-output root keeps a deploy file exactly
/// when keypairs are preserved and the file is a keypair file; without
/// preservation nothing is kept.
pub proof fn lemma_clean_keeps_exactly_keypairs(
    deploy_entries: Seq<Seq<char>>,
    preserve_keypairs: bool,
    file_name: Seq<char>,
)
    requires
        deploy_entries.contains(file_name),
    ensures
        ({
            let kept = if preserve_keypairs {
                keypair_names(deploy_entries)
            } else {
                Seq::<Seq<char>>::empty()
            };
            kept.contains(file_name) <==> (preserve_keypairs && ends_with(
                file_name,
                KEYPAIR_SUFFIX@,
            ))
        }),
{
    lemma_keypair_names_member(deploy_entries, file_name);
}

} // verus!
