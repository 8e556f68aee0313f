//! Resolution of a hostname list against the maps of the configuration.
//!
//! The hostnames come in the order in which their URLs stand on the command
//! line. A lookup walks that list and stops at the first hostname that the
//! map has an entry for: the order of the command line decides, never the
//! order of the map, and entries of different hosts are never merged.

use vstd::hash_map::StringHashMap;
use vstd::prelude::*;

verus! {

/// The value that `map` holds for the first of `hostnames` that is one of its
/// keys, or `None` when no hostname is a key.
pub open spec fn resolve_first<V>(hostnames: Seq<Seq<char>>, map: Map<Seq<char>, V>) -> Option<V>
    decreases hostnames.len(),
{
    if hostnames.len() == 0 {
        None
    } else if map.contains_key(hostnames[0]) {
        Some(map[hostnames[0]])
    } else {
        resolve_first(hostnames.drop_first(), map)
    }
}

/// The secret that an auth key stands for: the target of its alias where the
/// key has one, and otherwise the key itself.
pub open spec fn resolve_secret(key: Seq<char>, aliases: Map<Seq<char>, Seq<char>>) -> Seq<char> {
    if aliases.contains_key(key) {
        aliases[key]
    } else {
        key
    }
}

/// The secret for the first of `hostnames` that `auth_hosts` names a key for.
pub open spec fn resolve_auth_secret(
    hostnames: Seq<Seq<char>>,
    auth_hosts: Map<Seq<char>, Seq<char>>,
    aliases: Map<Seq<char>, Seq<char>>,
) -> Option<Seq<char>> {
    match resolve_first(hostnames, auth_hosts) {
        Some(key) => Some(resolve_secret(key, aliases)),
        None => None,
    }
}

/// A map of strings, seen as a map of character sequences.
pub open spec fn text_values(map: Map<Seq<char>, String>) -> Map<Seq<char>, Seq<char>> {
    map.map_values(|value: String| value@)
}

/// A map of string lists, seen as a map of lists of character sequences.
pub open spec fn list_values(map: Map<Seq<char>, Vec<String>>) -> Map<Seq<char>, Seq<Seq<char>>> {
    map.map_values(|value: Vec<String>| value.deep_view())
}

/// With no entries in the map, no hostname list resolves to anything.
pub proof fn lemma_empty_map_resolves_nothing<V>(hostnames: Seq<Seq<char>>)
    ensures
        resolve_first(hostnames, Map::<Seq<char>, V>::empty()) is None,
    decreases hostnames.len(),
{
    if hostnames.len() > 0 {
        lemma_empty_map_resolves_nothing::<V>(hostnames.drop_first());
    }
}

/// Nothing is found exactly when none of the hostnames is a key of the map.
pub proof fn lemma_unresolved_iff_no_key<V>(hostnames: Seq<Seq<char>>, map: Map<Seq<char>, V>)
    ensures
        resolve_first(hostnames, map) is None <==> forall|i: int|
            0 <= i < hostnames.len() ==> !map.contains_key(#[trigger] hostnames[i]),
    decreases hostnames.len(),
{
    if hostnames.len() > 0 {
        let rest = hostnames.drop_first();
        lemma_unresolved_iff_no_key(rest, map);
        if !map.contains_key(hostnames[0]) {
            if resolve_first(rest, map) is None {
                assert forall|i: int| 0 <= i < hostnames.len() implies !map.contains_key(
                    #[trigger] hostnames[i],
                ) by {
                    if i > 0 {
                        assert(hostnames[i] == rest[i - 1]);
                    }
                }
            } else {
                let i = choose|i: int| 0 <= i < rest.len() && map.contains_key(#[trigger] rest[i]);
                assert(hostnames[i + 1] == rest[i]);
            }
        }
    }
}

/// The earliest hostname with an entry decides: when `hostnames[i]` is a key
/// and no hostname before it is one, the result is the value of
/// `hostnames[i]`, whatever follows it in the list.
pub proof fn lemma_first_match_wins<V>(hostnames: Seq<Seq<char>>, map: Map<Seq<char>, V>, i: int)
    requires
        0 <= i < hostnames.len(),
        map.contains_key(hostnames[i]),
        forall|j: int| 0 <= j < i ==> !map.contains_key(#[trigger] hostnames[j]),
    ensures
        resolve_first(hostnames, map) == Some(map[hostnames[i]]),
    decreases i,
{
    if i > 0 {
        let rest = hostnames.drop_first();
        assert(!map.contains_key(hostnames[0]));
        assert forall|j: int| 0 <= j < i - 1 implies !map.contains_key(#[trigger] rest[j]) by {
            assert(rest[j] == hostnames[j + 1]);
        }
        assert(rest[i - 1] == hostnames[i]);
        lemma_first_match_wins(rest, map, i - 1);
    }
}

/// Whatever is found is the value of one of the hostnames, and no hostname
/// before that one has an entry.
pub proof fn lemma_resolved_at_first_key<V>(hostnames: Seq<Seq<char>>, map: Map<Seq<char>, V>)
    requires
        resolve_first(hostnames, map) is Some,
    ensures
        exists|i: int|
            {
                &&& 0 <= i < hostnames.len()
                &&& map.contains_key(#[trigger] hostnames[i])
                &&& resolve_first(hostnames, map) == Some(map[hostnames[i]])
                &&& forall|j: int| 0 <= j < i ==> !map.contains_key(#[trigger] hostnames[j])
            },
    decreases hostnames.len(),
{
    if map.contains_key(hostnames[0]) {
        assert(map.contains_key(hostnames[0]) && resolve_first(hostnames, map) == Some(
            map[hostnames[0]],
        ));
    } else {
        let rest = hostnames.drop_first();
        lemma_resolved_at_first_key(rest, map);
        let i = choose|i: int|
            {
                &&& 0 <= i < rest.len()
                &&& map.contains_key(#[trigger] rest[i])
                &&& resolve_first(rest, map) == Some(map[rest[i]])
                &&& forall|j: int| 0 <= j < i ==> !map.contains_key(#[trigger] rest[j])
            };
        assert(hostnames[i + 1] == rest[i]);
        assert forall|j: int| 0 <= j < i + 1 implies !map.contains_key(
            #[trigger] hostnames[j],
        ) by {
            if j > 0 {
                assert(hostnames[j] == rest[j - 1]);
            }
        }
    }
}

/// Resolution looks at the keys only: mapping the values of the map maps the
/// result.
pub proof fn lemma_resolve_first_map_values<V, W>(
    hostnames: Seq<Seq<char>>,
    map: Map<Seq<char>, V>,
    f: spec_fn(V) -> W,
)
    ensures
        resolve_first(hostnames, map.map_values(f)) == match resolve_first(hostnames, map) {
            Some(value) => Some(f(value)),
            None => None,
        },
    decreases hostnames.len(),
{
    if hostnames.len() > 0 {
        lemma_resolve_first_map_values(hostnames.drop_first(), map, f);
    }
}

/// Finds the value of the first of `hostnames` that `map` has an entry for.
pub fn find_for_hostname<'a, V>(hostnames: &[String], map: &'a StringHashMap<V>) -> (found: Option<
    &'a V,
>)
    ensures
        match found {
            Some(value) => resolve_first(hostnames.deep_view(), map@) == Some(*value),
            None => resolve_first(hostnames.deep_view(), map@) is None,
        },
{
    let ghost names = hostnames.deep_view();
    assert(names.skip(0) == names);
    let mut i: usize = 0;
    while i < hostnames.len()
        invariant
            i <= hostnames.len(),
            names == hostnames.deep_view(),
            resolve_first(names, map@) == resolve_first(names.skip(i as int), map@),
        decreases hostnames.len() - i,
    {
        let found = map.get(hostnames[i].as_str());
        proof {
            let rest = names.skip(i as int);
            assert(rest[0] == hostnames@[i as int]@);
            assert(rest.drop_first() == names.skip(i + 1));
        }
        if found.is_some() {
            return found;
        }
        i += 1;
    }
    None
}

/// The secret that `key` stands for: the target of its alias, or `key` itself
/// where it has no alias.
pub fn resolve_key<'a>(key: &'a String, aliases: &'a StringHashMap<String>) -> (secret: &'a String)
    ensures
        secret@ == resolve_secret(key@, text_values(aliases@)),
{
    match aliases.get(key.as_str()) {
        Some(target) => target,
        None => key,
    }
}

/// Finds the secret for the first of `hostnames` that `auth_hosts` names an
/// auth key for. Where no hostname has an auth key there is no secret; a key
/// without an alias is never an error.
pub fn resolve_auth<'a>(
    hostnames: &[String],
    auth_hosts: &'a StringHashMap<String>,
    aliases: &'a StringHashMap<String>,
) -> (secret: Option<&'a String>)
    ensures
        resolve_auth_secret(hostnames.deep_view(), text_values(auth_hosts@), text_values(aliases@))
            == match secret {
            Some(value) => Some(value@),
            None => None,
        },
{
    proof {
        lemma_resolve_first_map_values(
            hostnames.deep_view(),
            auth_hosts@,
            |value: String| value@,
        );
    }
    match find_for_hostname(hostnames, auth_hosts) {
        Some(key) => Some(resolve_key(key, aliases)),
        None => None,
    }
}

} // verus!
