//! The compile cache: artifacts are found again by the digest of the
//! source they were made from, and a table of held keys lets at most one
//! compilation of a digest run at a time.
//!
//! The table is the bookkeeping only. A caller that finds a key held
//! waits, however it likes to wait, and asks again.

use crate::compiler::CompileResult;
use crate::paths::path_join;
use crate::strmap::StringMap;
use crate::text::{chars_of, string_of};
use vstd::prelude::*;

verus! {

/// The SHA-256 digest of the UTF-8 bytes of `content`, written as lower
/// case hexadecimal digits.
pub uninterp spec fn sha256_hex(content: Seq<char>) -> Seq<char>;

/// `sha256::digest` of a string: the hexadecimal form of the SHA-256
/// digest of its bytes, which is 32 bytes and so 64 digits long.
#[verifier::external_body]
fn digest(content: &str) -> (hash: String)
    ensures
        hash@ == sha256_hex(content@),
        hash@.len() == 64,
{
    sha256::digest(content)
}

/// The key under which the artifact of `content` is cached.
pub fn cache_key(content: &str) -> (hash: String)
    ensures
        hash@ == sha256_hex(content@),
        hash@.len() == 64,
{
    digest(content)
}

/// The name of the directory in which the source with the key `hash` is
/// compiled, where the caller suggests none: `prov` and the first sixteen
/// characters of the key.
pub open spec fn work_dir_name(hash: Seq<char>) -> Seq<char> {
    "prov"@ + hash.subrange(0, 16)
}

/// Computes `work_dir_name`.
pub fn work_dir_name_of(hash: &str) -> (name: String)
    requires
        hash@.len() >= 16,
    ensures
        name@ == work_dir_name(hash@),
{
    let v = chars_of(hash);
    let head = string_of(&v, 0, 16);
    let mut name = String::from_str("prov");
    name.append(head.as_str());
    name
}

/// The directory in which the source with the key `hash` is compiled:
/// the one that the caller suggests, or else the directory named
/// `work_dir_name` inside `temp_dir`, joined as the standard library joins
/// paths.
pub fn work_dir(suggest_output_path: Option<String>, temp_dir: &str, hash: &str) -> (dir: String)
    requires
        hash@.len() >= 16,
    ensures
        suggest_output_path matches Some(p) ==> dir == p,
{
    match suggest_output_path {
        Some(p) => p,
        None => {
            let name = work_dir_name_of(hash);
            path_join(temp_dir, name.as_str())
        },
    }
}

/// Whether a request for `key` gets the key at once, given the keys that
/// are held.
pub open spec fn grants(held: Set<Seq<char>>, key: Seq<char>) -> bool {
    !held.contains(key)
}

/// A set of keys, each held by at most one holder at a time.
#[derive(Debug)]
pub struct KeyLock {
    held: StringMap,
}

impl KeyLock {
    /// The keys that are held.
    pub closed spec fn view(&self) -> Set<Seq<char>> {
        self.held@.dom()
    }

    /// A table in which no key is held.
    pub fn new() -> (table: KeyLock)
        ensures
            table@ == Set::<Seq<char>>::empty(),
    {
        let table = KeyLock { held: StringMap::new() };
        assert(table@ =~= Set::<Seq<char>>::empty());
        table
    }

    /// Whether `key` is held.
    pub fn is_locked(&self, key: &str) -> (b: bool)
        ensures
            b == self@.contains(key@),
    {
        self.held.contains_key(key)
    }

    /// Takes `key` if nobody holds it, and says whether it did. Other keys
    /// are not touched.
    pub fn try_lock(&mut self, key: &str) -> (acquired: bool)
        ensures
            acquired == grants(old(self)@, key@),
            final(self)@ == old(self)@.insert(key@),
    {
        if self.held.contains_key(key) {
            assert(self@ =~= old(self)@.insert(key@));
            false
        } else {
            self.held.insert(String::from_str(key), String::new());
            assert(self@ =~= old(self)@.insert(key@));
            true
        }
    }

    /// Gives `key` back. Other keys are not touched.
    pub fn unlock(&mut self, key: &str)
        ensures
            final(self)@ == old(self)@.remove(key@),
    {
        self.held.remove(key);
        assert(self@ =~= old(self)@.remove(key@));
    }
}

/// What the cache holds after the compilation of the source with the key
/// `hash` ended in `result`: the artifact of a success is kept, a failure
/// leaves the cache as it was, so that the next request compiles again.
pub open spec fn recorded(
    cache: Map<Seq<char>, Seq<char>>,
    hash: Seq<char>,
    result: CompileResult,
) -> Map<Seq<char>, Seq<char>> {
    match result {
        CompileResult::Success { data } => cache.insert(hash, data@),
        CompileResult::Error { .. } => cache,
    }
}

/// The artifact to hand out without compiling: the one that the cache
/// holds for `hash`, if it holds one and the file is still there.
pub open spec fn reusable(
    cache: Map<Seq<char>, Seq<char>>,
    hash: Seq<char>,
    artifact_exists: bool,
) -> Option<Seq<char>> {
    if cache.contains_key(hash) && artifact_exists {
        Some(cache[hash])
    } else {
        None
    }
}

/// What to do for a request, once its key is held.
#[derive(Debug, Clone)]
pub enum CachePlan {
    /// Hand out this artifact; the compiler does not run.
    Reuse { artifact: String },
    /// Run the compiler.
    Compile,
}

/// The compile cache with its table of held keys.
#[derive(Debug)]
pub struct CompilerState {
    lock: KeyLock,
    cache: StringMap,
}

impl CompilerState {
    /// The keys whose compilation is under way.
    pub closed spec fn held(&self) -> Set<Seq<char>> {
        self.lock@
    }

    /// The artifact that is kept for each key.
    pub closed spec fn cached(&self) -> Map<Seq<char>, Seq<char>> {
        self.cache@
    }

    /// An empty cache, with no key held.
    pub fn new() -> (state: CompilerState)
        ensures
            state.held() == Set::<Seq<char>>::empty(),
            state.cached() == Map::<Seq<char>, Seq<char>>::empty(),
    {
        CompilerState { lock: KeyLock::new(), cache: StringMap::new() }
    }

    /// Takes the key `hash` for one compilation, and says whether it did:
    /// it does exactly when no compilation of `hash` is under way.
    pub fn acquire(&mut self, hash: &str) -> (acquired: bool)
        ensures
            acquired == grants(old(self).held(), hash@),
            final(self).held() == old(self).held().insert(hash@),
            final(self).cached() == old(self).cached(),
    {
        self.lock.try_lock(hash)
    }

    /// Gives the key `hash` back.
    pub fn release(&mut self, hash: &str)
        ensures
            final(self).held() == old(self).held().remove(hash@),
            final(self).cached() == old(self).cached(),
    {
        self.lock.unlock(hash);
    }

    /// The path of the artifact that the cache holds for `hash`.
    pub fn lookup(&self, hash: &str) -> (found: Option<&String>)
        ensures
            found is Some <==> self.cached().contains_key(hash@),
            found matches Some(path) ==> path@ == self.cached()[hash@],
    {
        self.cache.get(hash)
    }

    /// Decides between handing out the cached artifact and compiling.
    /// `artifact_exists` says whether the file that `lookup` named is
    /// still there.
    pub fn plan(&self, hash: &str, artifact_exists: bool) -> (plan: CachePlan)
        ensures
            match plan {
                CachePlan::Reuse { artifact } => reusable(self.cached(), hash@, artifact_exists)
                    == Some(artifact@),
                CachePlan::Compile => reusable(self.cached(), hash@, artifact_exists) is None,
            },
    {
        match self.cache.get(hash) {
            Some(path) => {
                if artifact_exists {
                    CachePlan::Reuse { artifact: path.clone() }
                } else {
                    CachePlan::Compile
                }
            },
            None => CachePlan::Compile,
        }
    }

    /// Ends the compilation of `hash`: keeps the artifact of a success,
    /// and gives the key back whatever the result.
    pub fn complete(&mut self, hash: &str, result: &CompileResult)
        ensures
            final(self).cached() == recorded(old(self).cached(), hash@, *result),
            final(self).held() == old(self).held().remove(hash@),
    {
        match result {
            CompileResult::Success { data } => {
                self.cache.insert(String::from_str(hash), data.clone());
            },
            CompileResult::Error { .. } => {},
        }
        self.lock.unlock(hash);
    }
}

/// Compiling the same content twice: once the first compilation has
/// succeeded and its artifact is still on disk, the second request is
/// handed the same path without the compiler running.
pub proof fn lemma_compile_idempotent(
    cache: Map<Seq<char>, Seq<char>>,
    content: Seq<char>,
    first: CompileResult,
)
    requires
        first is Success,
    ensures
        reusable(recorded(cache, sha256_hex(content), first), sha256_hex(content), true) == Some(
            first->Success_data@,
        ),
{
}

/// A failed compilation is not cached: the next request for the same
/// content finds what was there before.
pub proof fn lemma_failure_not_cached(
    cache: Map<Seq<char>, Seq<char>>,
    hash: Seq<char>,
    failed: CompileResult,
    artifact_exists: bool,
)
    requires
        failed is Error,
    ensures
        reusable(recorded(cache, hash, failed), hash, artifact_exists) == reusable(
            cache,
            hash,
            artifact_exists,
        ),
{
}

/// While a key is held no other request gets it, and once it is given
/// back the next request does.
pub proof fn lemma_key_held_once(held: Set<Seq<char>>, key: Seq<char>)
    ensures
        !grants(held.insert(key), key),
        grants(held.insert(key).remove(key), key),
{
}

/// What a row of requests for one key is handed, and how often the
/// compiler runs for them, when they are served one after the other, as
/// the held key makes them. `offers[i]` is the artifact that the compiler
/// would make for the request `i` if it ran, and every artifact stays on
/// disk.
pub open spec fn served(cache: Map<Seq<char>, Seq<char>>, key: Seq<char>, offers: Seq<Seq<char>>) -> (
    Seq<Seq<char>>,
    nat,
)
    decreases offers.len(),
{
    if offers.len() == 0 {
        (Seq::empty(), 0)
    } else {
        match reusable(cache, key, true) {
            Some(artifact) => {
                let rest = served(cache, key, offers.drop_first());
                (seq![artifact] + rest.0, rest.1)
            },
            None => {
                let rest = served(cache.insert(key, offers[0]), key, offers.drop_first());
                (seq![offers[0]] + rest.0, rest.1 + 1)
            },
        }
    }
}

/// With the artifact in the cache, every request is handed it and the
/// compiler never runs.
pub proof fn lemma_served_from_cache(
    cache: Map<Seq<char>, Seq<char>>,
    key: Seq<char>,
    offers: Seq<Seq<char>>,
)
    requires
        cache.contains_key(key),
    ensures
        served(cache, key, offers).0 == Seq::new(offers.len(), |i: int| cache[key]),
        served(cache, key, offers).1 == 0,
    decreases offers.len(),
{
    if offers.len() > 0 {
        lemma_served_from_cache(cache, key, offers.drop_first());
        assert(served(cache, key, offers).0 =~= Seq::new(offers.len(), |i: int| cache[key]));
    } else {
        assert(served(cache, key, offers).0 =~= Seq::new(offers.len(), |i: int| cache[key]));
    }
}

/// Any number of requests for a key that is not cached yet: the compiler
/// runs exactly once, for the first of them, and every request is handed
/// the artifact of that one run.
pub proof fn lemma_same_key_compiles_once(
    cache: Map<Seq<char>, Seq<char>>,
    key: Seq<char>,
    offers: Seq<Seq<char>>,
)
    requires
        !cache.contains_key(key),
        offers.len() > 0,
    ensures
        served(cache, key, offers).0 == Seq::new(offers.len(), |i: int| offers[0]),
        served(cache, key, offers).1 == 1,
{
    let after = cache.insert(key, offers[0]);
    lemma_served_from_cache(after, key, offers.drop_first());
    assert(served(cache, key, offers).0 =~= Seq::new(offers.len(), |i: int| offers[0]));
}

/// Requests for different keys do not wait for each other: whether `b` is
/// granted does not depend on `a` being held or given back.
pub proof fn lemma_keys_do_not_interfere(held: Set<Seq<char>>, a: Seq<char>, b: Seq<char>)
    requires
        a != b,
    ensures
        grants(held.insert(a), b) == grants(held, b),
        grants(held.remove(a), b) == grants(held, b),
{
}

} // verus!
