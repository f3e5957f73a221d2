use vstd::prelude::*;

verus! {

/// What the tool reads out of a deserialized manifest: the names of the
/// packages each of the three dependency groups records, for a group that
/// is present in the file.  Everything else the file holds is not part of
/// this view and is left to the document editor.
pub struct Manifest {
    pub dependencies: Option<Vec<String>>,
    pub dev_dependencies: Option<Vec<String>>,
    pub build_dependencies: Option<Vec<String>>,
}

/// The names a dependency group records; an absent group records none.
pub open spec fn group_names(group: Option<Vec<String>>) -> Seq<String> {
    match group {
        Some(names) => names@,
        None => Seq::empty(),
    }
}

/// A present group records each package name at most once, as it does in
/// a manifest file, where the names are the keys of a table.
pub open spec fn group_wf(group: Option<Vec<String>>) -> bool {
    match group {
        Some(names) => forall|i: int, j: int|
            0 <= i < j < names@.len() ==> names@[i]@ != names@[j]@,
        None => true,
    }
}

impl Manifest {
    /// Well-formedness of the manifest view: within each dependency
    /// group the recorded names are distinct.
    pub open spec fn wf(self) -> bool {
        group_wf(self.dependencies) && group_wf(self.dev_dependencies) && group_wf(
            self.build_dependencies,
        )
    }

    /// Every dependency name the manifest records, in group order: the
    /// normal dependencies first, then the development-time ones, then
    /// the build-time ones.
    pub fn all_dependency_names(&self) -> (r: Vec<String>)
        ensures
            r@ == group_names(self.dependencies) + group_names(self.dev_dependencies)
                + group_names(self.build_dependencies),
    {
        let mut deps: Vec<String> = Vec::new();
        if let Some(names) = &self.dependencies {
            append_names(&mut deps, names);
        }
        if let Some(names) = &self.dev_dependencies {
            append_names(&mut deps, names);
        }
        if let Some(names) = &self.build_dependencies {
            append_names(&mut deps, names);
        }
        proof {
            assert(deps@ =~= group_names(self.dependencies) + group_names(self.dev_dependencies)
                + group_names(self.build_dependencies));
        }
        deps
    }
}

fn append_names(dst: &mut Vec<String>, src: &Vec<String>)
    ensures
        final(dst)@ == old(dst)@ + src@,
{
    let n = src.len();
    let mut i: usize = 0;
    proof {
        assert(dst@ =~= old(dst)@ + src@.take(0));
    }
    while i < n
        invariant
            n == src@.len(),
            i <= n,
            dst@ == old(dst)@ + src@.take(i as int),
        decreases n - i,
    {
        dst.push(src[i].clone());
        proof {
            assert(dst@ =~= old(dst)@ + src@.take(i as int + 1));
        }
        i += 1;
    }
    proof {
        assert(old(dst)@ + src@.take(n as int) =~= old(dst)@ + src@);
    }
}

} // verus!
