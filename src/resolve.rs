//! Resolving an environment and a platform of a lockfile into the records
//! that the installation engine consumes.
use vstd::prelude::*;

use crate::lockfile::{
    converted, installable, rejection, to_installable, InstallableRecord, LockFile,
    LockedEnvironment, LockedPackage, PlatformPackages, ResolveError,
};

verus! {

/// `i` is the first environment of `envs` with this name.
pub open spec fn is_first_environment<R>(envs: Seq<LockedEnvironment<R>>, name: Seq<char>, i: int) -> bool {
    &&& 0 <= i < envs.len()
    &&& envs[i].name@ == name
    &&& forall|k: int| 0 <= k < i ==> envs[k].name@ != name
}

/// `j` is the first package set of `plats` for this platform.
pub open spec fn is_first_platform<R>(plats: Seq<PlatformPackages<R>>, platform: Seq<char>, j: int) -> bool {
    &&& 0 <= j < plats.len()
    &&& plats[j].platform@ == platform
    &&& forall|k: int| 0 <= k < j ==> plats[k].platform@ != platform
}

/// `k` is the first package of `pkgs` that cannot be installed.
pub open spec fn is_first_rejected<R>(pkgs: Seq<LockedPackage<R>>, k: int) -> bool {
    &&& 0 <= k < pkgs.len()
    &&& !installable(pkgs[k])
    &&& forall|m: int| 0 <= m < k ==> installable(pkgs[m])
}

pub open spec fn has_environment<R>(lf: LockFile<R>, name: Seq<char>) -> bool {
    exists|i: int| 0 <= i < lf.environments@.len() && lf.environments@[i].name@ == name
}

/// The environment that a lookup of `name` finds: the first of that name.
pub open spec fn environment_of<R>(lf: LockFile<R>, name: Seq<char>) -> LockedEnvironment<R> {
    lf.environments@[choose|i: int| is_first_environment(lf.environments@, name, i)]
}

pub open spec fn has_platform<R>(env: LockedEnvironment<R>, platform: Seq<char>) -> bool {
    exists|j: int| 0 <= j < env.platforms@.len() && env.platforms@[j].platform@ == platform
}

/// The packages that a lookup of `platform` in `env` finds.
pub open spec fn packages_of<R>(env: LockedEnvironment<R>, platform: Seq<char>) -> Seq<LockedPackage<R>> {
    env.platforms@[choose|j: int| is_first_platform(env.platforms@, platform, j)].packages@
}

/// The environment has a non-empty package set for the platform.
pub open spec fn platform_installable<R>(env: LockedEnvironment<R>, platform: Seq<char>) -> bool {
    has_platform(env, platform) && packages_of(env, platform).len() > 0
}

pub open spec fn all_installable<R>(pkgs: Seq<LockedPackage<R>>) -> bool {
    forall|k: int| 0 <= k < pkgs.len() ==> installable(pkgs[k])
}

/// What resolving `environment` and `platform` in `lf` gives: the records of
/// the platform's packages in lockfile order, or the first reason it fails.
pub open spec fn resolution<R>(lf: LockFile<R>, environment: String, platform: String) -> Result<Seq<InstallableRecord<R>>, ResolveError> {
    if !has_environment(lf, environment@) {
        Err(ResolveError::UnknownEnvironment(environment))
    } else if !platform_installable(environment_of(lf, environment@), platform@) {
        Err(ResolveError::UnsupportedPlatform(environment, platform))
    } else {
        let pkgs = packages_of(environment_of(lf, environment@), platform@);
        if all_installable(pkgs) {
            Ok(pkgs.map_values(|p: LockedPackage<R>| converted(p)))
        } else {
            Err(rejection(pkgs[choose|k: int| is_first_rejected(pkgs, k)]))
        }
    }
}

/// A result of `resolve` seen through the view of its list.
pub open spec fn outcome<R>(r: Result<Vec<InstallableRecord<R>>, ResolveError>) -> Result<Seq<InstallableRecord<R>>, ResolveError> {
    match r {
        Ok(v) => Ok(v@),
        Err(e) => Err(e),
    }
}

fn find_environment<R>(envs: &Vec<LockedEnvironment<R>>, name: &String) -> (r: Option<usize>)
    ensures
        match r {
            Some(i) => is_first_environment(envs@, name@, i as int),
            None => forall|i: int| 0 <= i < envs@.len() ==> envs@[i].name@ != name@,
        },
{
    let mut i: usize = 0;
    while i < envs.len()
        invariant
            i <= envs@.len(),
            forall|k: int| 0 <= k < i ==> envs@[k].name@ != name@,
        decreases envs@.len() - i,
    {
        if envs[i].name == *name {
            return Some(i);
        }
        i = i + 1;
    }
    None
}

fn find_platform<R>(plats: &Vec<PlatformPackages<R>>, platform: &String) -> (r: Option<usize>)
    ensures
        match r {
            Some(j) => is_first_platform(plats@, platform@, j as int),
            None => forall|j: int| 0 <= j < plats@.len() ==> plats@[j].platform@ != platform@,
        },
{
    let mut j: usize = 0;
    while j < plats.len()
        invariant
            j <= plats@.len(),
            forall|k: int| 0 <= k < j ==> plats@[k].platform@ != platform@,
        decreases plats@.len() - j,
    {
        if plats[j].platform == *platform {
            return Some(j);
        }
        j = j + 1;
    }
    None
}

/// Converts every package, in order; the first one that cannot be installed
/// aborts the whole conversion.
pub fn convert_all<R>(pkgs: Vec<LockedPackage<R>>) -> (r: Result<Vec<InstallableRecord<R>>, ResolveError>)
    ensures
        all_installable(pkgs@) <==> r is Ok,
        r matches Ok(v) ==> v@ == pkgs@.map_values(|p: LockedPackage<R>| converted(p)),
        r matches Err(e) ==> e == rejection(pkgs@[choose|k: int| is_first_rejected(pkgs@, k)]),
{
    let ghost orig = pkgs@;
    let mut rest = pkgs;
    let mut out: Vec<InstallableRecord<R>> = Vec::new();
    while rest.len() > 0
        invariant
            orig == pkgs@,
            out@.len() + rest@.len() == orig.len(),
            rest@ == orig.subrange(out@.len() as int, orig.len() as int),
            forall|m: int| 0 <= m < out@.len() ==> installable(orig[m]) && out@[m] == converted(orig[m]),
        decreases rest@.len(),
    {
        let p = rest.remove(0);
        match to_installable(p) {
            Ok(rec) => {
                out.push(rec);
            },
            Err(e) => {
                proof {
                    let k = out@.len() as int;
                    assert(orig[k] == p);
                    assert(!installable(orig[k]));
                    assert forall|m: int| 0 <= m < k implies installable(orig[m]) by {
                        assert(installable(orig[m]) && out@[m] == converted(orig[m]));
                    }
                    assert(is_first_rejected(orig, k));
                    assert(!all_installable(orig));
                    let c = choose|c: int| is_first_rejected(orig, c);
                    assert(c == k) by {
                        if c < k {
                            assert(installable(orig[c]));
                        } else if k < c {
                            assert(installable(orig[k]));
                        }
                    }
                    assert(e == rejection(orig[c]));
                }
                return Err(e);
            },
        }
    }
    assert forall|m: int| 0 <= m < orig.len() implies installable(orig[m]) by {
        assert(installable(orig[m]) && out@[m] == converted(orig[m]));
    }
    assert(out@ =~= orig.map_values(|p: LockedPackage<R>| converted(p)));
    Ok(out)
}

/// Resolves `environment` and `platform` of `lockfile` into installable
/// records, all or nothing.
pub fn resolve<R>(lockfile: LockFile<R>, environment: &String, platform: &String) -> (r: Result<Vec<InstallableRecord<R>>, ResolveError>)
    ensures
        outcome(r) == resolution(lockfile, *environment, *platform),
        !has_environment(lockfile, environment@)
            ==> r == Err::<Vec<InstallableRecord<R>>, ResolveError>(ResolveError::UnknownEnvironment(*environment)),
        has_environment(lockfile, environment@) && !platform_installable(environment_of(lockfile, environment@), platform@)
            ==> r == Err::<Vec<InstallableRecord<R>>, ResolveError>(ResolveError::UnsupportedPlatform(*environment, *platform)),
        r is Ok ==> has_environment(lockfile, environment@)
            && all_installable(packages_of(environment_of(lockfile, environment@), platform@))
            && r->Ok_0@.len() > 0,
{
    let ghost lf = lockfile;
    let mut envs = lockfile.environments;
    let i = match find_environment(&envs, environment) {
        Some(i) => i,
        None => {
            return Err(ResolveError::UnknownEnvironment(environment.clone()));
        },
    };
    proof {
        let c = choose|c: int| is_first_environment(lf.environments@, environment@, c);
        assert(c == i as int) by {
            if c < i {
                assert(envs@[c].name@ == environment@);
            } else if (i as int) < c {
                assert(envs@[i as int].name@ == environment@);
            }
        }
    }
    let env = envs.remove(i);
    assert(env == environment_of(lf, environment@));
    let mut plats = env.platforms;
    let j = match find_platform(&plats, platform) {
        Some(j) => j,
        None => {
            return Err(ResolveError::UnsupportedPlatform(environment.clone(), platform.clone()));
        },
    };
    proof {
        let c = choose|c: int| is_first_platform(env.platforms@, platform@, c);
        assert(c == j as int) by {
            if c < j {
                assert(plats@[c].platform@ == platform@);
            } else if (j as int) < c {
                assert(plats@[j as int].platform@ == platform@);
            }
        }
    }
    let set = plats.remove(j);
    let pkgs = set.packages;
    if pkgs.len() == 0 {
        return Err(ResolveError::UnsupportedPlatform(environment.clone(), platform.clone()));
    }
    convert_all(pkgs)
}

/// Resolution is deterministic: two results that meet the contract of
/// `resolve` for the same lockfile, environment and platform are equal,
/// down to the order of the records.
pub proof fn lemma_resolution_deterministic<R>(
    lf: LockFile<R>,
    environment: String,
    platform: String,
    r1: Result<Vec<InstallableRecord<R>>, ResolveError>,
    r2: Result<Vec<InstallableRecord<R>>, ResolveError>,
)
    requires
        outcome(r1) == resolution(lf, environment, platform),
        outcome(r2) == resolution(lf, environment, platform),
    ensures
        r1 is Ok <==> r2 is Ok,
        r1 is Ok ==> r1->Ok_0@ == r2->Ok_0@,
        r1 is Err ==> r1->Err_0 == r2->Err_0,
{
}

/// A package set that holds one package which cannot be installed fails as a
/// whole, with the kind and location of the first such package; no list of
/// records is returned.
pub proof fn lemma_unsupported_package_fails<R>(lf: LockFile<R>, environment: String, platform: String, k: int)
    requires
        has_environment(lf, environment@),
        platform_installable(environment_of(lf, environment@), platform@),
        0 <= k < packages_of(environment_of(lf, environment@), platform@).len(),
        !installable(packages_of(environment_of(lf, environment@), platform@)[k]),
    ensures
        resolution(lf, environment, platform) matches Err(ResolveError::UnsupportedPackageKind(_, _)),
{
    let pkgs = packages_of(environment_of(lf, environment@), platform@);
    assert(!all_installable(pkgs));
    let first = choose|c: int| is_first_rejected(pkgs, c);
    assert(exists|c: int| is_first_rejected(pkgs, c)) by {
        lemma_first_rejected_exists(pkgs, k);
    }
    assert(is_first_rejected(pkgs, first));
}

proof fn lemma_first_rejected_exists<R>(pkgs: Seq<LockedPackage<R>>, k: int)
    requires
        0 <= k < pkgs.len(),
        !installable(pkgs[k]),
    ensures
        exists|c: int| is_first_rejected(pkgs, c),
    decreases k,
{
    if forall|m: int| 0 <= m < k ==> installable(pkgs[m]) {
        assert(is_first_rejected(pkgs, k));
    } else {
        let m = choose|m: int| 0 <= m < k && !installable(pkgs[m]);
        lemma_first_rejected_exists(pkgs, m);
    }
}

} // verus!
