//! Registry resolution: finding the download URL of a `(name, version)`
//! key in the fetched registry listing.
use vstd::prelude::*;
use crate::config::Dependency;
use crate::errors::InstallError;

verus! {

/// Where the default registry listing lives.
pub const REMOTE_REPOSITORY: &'static str =
    "https://raw.githubusercontent.com/mario-eth/soldeer-versions/main/all_dependencies.toml";

/// The download URL of the first listing entry with the key, if any.
pub open spec fn registry_lookup(
    entries: Seq<Dependency>,
    name: Seq<char>,
    version: Seq<char>,
) -> Option<Seq<char>>
    decreases entries.len(),
{
    if entries.len() == 0 {
        None
    } else if entries[0].name@ == name && entries[0].version@ == version {
        Some(entries[0].url@)
    } else {
        registry_lookup(entries.drop_first(), name, version)
    }
}

/// Looks `(name, version)` up in the registry listing and returns the
/// first matching entry's download URL; a key the listing lacks is
/// `NotFoundInRegistry`.
pub fn resolve_dependency_url(entries: &Vec<Dependency>, name: &String, version: &String) -> (r:
    Result<String, InstallError>)
    ensures
        match r {
            Ok(url) => registry_lookup(entries@, name@, version@) == Some(url@),
            Err(e) => registry_lookup(entries@, name@, version@) is None
                && e is NotFoundInRegistry,
        },
{
    let n = entries.len();
    let mut i: usize = 0;
    proof {
        assert(entries@.subrange(0, n as int) =~= entries@);
    }
    while i < n
        invariant
            i <= n,
            n == entries@.len(),
            registry_lookup(entries@, name@, version@) == registry_lookup(
                entries@.subrange(i as int, n as int),
                name@,
                version@,
            ),
        decreases n - i,
    {
        if entries[i].name == *name && entries[i].version == *version {
            proof {
                assert(entries@.subrange(i as int, n as int)[0] == entries@[i as int]);
            }
            return Ok(entries[i].url.clone());
        }
        proof {
            assert(entries@.subrange(i as int, n as int).drop_first() =~= entries@.subrange(
                i + 1,
                n as int,
            ));
        }
        i += 1;
    }
    proof {
        assert(entries@.subrange(n as int, n as int) =~= Seq::<Dependency>::empty());
    }
    Err(InstallError::NotFoundInRegistry)
}

} // verus!
