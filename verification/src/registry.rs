//! The proxy registry: a table mapping opaque proxy paths to original URLs.
//!
//! A caller registers a URL and receives a fully-qualified local address
//! whose path component is freshly minted; presenting that path component
//! later resolves it back to the original URL. The table grows monotonically:
//! nothing is ever removed.

use crate::errors::ProxyError;
use vstd::prelude::*;
use vstd::string::StringExecFns;

verus! {

/// One entry of the registry: an opaque proxy path mapped to the original
/// URL, immutable once inserted.
pub struct ProxyMapping {
    pub path: String,
    pub target_url: String,
}

/// The scheme, host and port of the local server that serves proxied content.
pub open spec fn local_base() -> Seq<char> {
    "http://localhost:1420"@
}

/// The prefix common to every minted proxy path.
pub open spec fn proxy_prefix() -> Seq<char> {
    "/proxy/"@
}

/// The opaque path minted for one identifier.
pub open spec fn proxy_path_of(id: Seq<char>) -> Seq<char> {
    proxy_prefix() + id
}

/// The path component of a fully-qualified proxy URL: what remains after the
/// local base address.
pub open spec fn path_component(proxy_url: Seq<char>) -> Seq<char> {
    proxy_url.skip(local_base().len() as int)
}

/// The table that a sequence of entries stands for; a later entry for the
/// same path overrides an earlier one.
spec fn table_of(entries: Seq<ProxyMapping>) -> Map<Seq<char>, Seq<char>>
    decreases entries.len(),
{
    if entries.len() == 0 {
        Map::empty()
    } else {
        table_of(entries.drop_last()).insert(
            entries.last().path@,
            entries.last().target_url@,
        )
    }
}

proof fn lemma_table_of_push(entries: Seq<ProxyMapping>, e: ProxyMapping)
    ensures
        table_of(entries.push(e)) == table_of(entries).insert(e.path@, e.target_url@),
{
    assert(entries.push(e).drop_last() =~= entries);
}

proof fn lemma_table_of_last(entries: Seq<ProxyMapping>, p: Seq<char>)
    requires
        entries.len() > 0,
    ensures
        entries.last().path@ == p ==> table_of(entries).dom().contains(p)
            && table_of(entries)[p] == entries.last().target_url@,
        entries.last().path@ != p ==> table_of(entries).dom().contains(p)
            == table_of(entries.drop_last()).dom().contains(p),
        entries.last().path@ != p && table_of(entries).dom().contains(p)
            ==> table_of(entries)[p] == table_of(entries.drop_last())[p],
{
}

/// Law: a registered URL resolves back exactly. Registering `url` turns the
/// table `pre` into `pre.insert(p, url)`, where `p` is the path component of
/// the returned proxy URL; in that table `p` is present and mapped to `url`,
/// which is what `resolve` then returns for it.
pub proof fn lemma_register_then_resolve(
    pre: Map<Seq<char>, Seq<char>>,
    p: Seq<char>,
    url: Seq<char>,
)
    ensures
        pre.insert(p, url).dom().contains(p),
        pre.insert(p, url)[p] == url,
{
}

/// Law: registrations with distinct identifiers mint distinct paths, also
/// when they register the same URL: nothing is deduplicated. (Identifiers
/// are drawn at random, so their distinctness itself is not tracked here.)
pub proof fn lemma_distinct_identifiers_distinct_paths(id1: Seq<char>, id2: Seq<char>)
    requires
        id1 != id2,
    ensures
        proxy_path_of(id1) != proxy_path_of(id2),
{
    if proxy_path_of(id1) == proxy_path_of(id2) {
        assert(proxy_path_of(id1).skip(proxy_prefix().len() as int) =~= id1);
        assert(proxy_path_of(id2).skip(proxy_prefix().len() as int) =~= id2);
    }
}

/// Law: registering loses and overwrites nothing else. Every path other than
/// the freshly minted one resolves after the insertion exactly as it did
/// before, so the table only ever grows.
pub proof fn lemma_register_preserves_others(
    pre: Map<Seq<char>, Seq<char>>,
    p: Seq<char>,
    url: Seq<char>,
    q: Seq<char>,
)
    requires
        q != p,
    ensures
        pre.insert(p, url).dom().contains(q) == pre.dom().contains(q),
        pre.dom().contains(q) ==> pre.insert(p, url)[q] == pre[q],
{
}

/// Relies on uuid::Uuid::new_v4 and Uuid's default (hyphenated) rendering:
/// a freshly generated random 128-bit identifier, written as 36 characters.
/// The result is random, so nothing relates two calls.
#[verifier::external_body]
fn fresh_identifier() -> (r: String)
    ensures
        r@.len() == 36,
{
    uuid::Uuid::new_v4().to_string()
}

/// The path-to-URL table. Created empty at process start; insert-only, so a
/// registered path stays resolvable for the life of the process.
pub struct Registry {
    entries: Vec<ProxyMapping>,
}

impl View for Registry {
    type V = Map<Seq<char>, Seq<char>>;

    closed spec fn view(&self) -> Map<Seq<char>, Seq<char>> {
        table_of(self.entries@)
    }
}

impl Registry {
    /// An empty registry: no path resolves yet.
    pub fn new() -> (r: Registry)
        ensures
            r@ == Map::<Seq<char>, Seq<char>>::empty(),
    {
        Registry { entries: Vec::new() }
    }

    /// Mints a fresh opaque path for `original_url`, inserts the mapping,
    /// and returns the fully-qualified local address for it. Always succeeds
    /// and performs exactly one insertion.
    pub fn register(&mut self, original_url: String) -> (proxy_url: String)
        ensures
            proxy_url@ == local_base() + path_component(proxy_url@),
            exists|id: Seq<char>|
                #[trigger] proxy_path_of(id) == path_component(proxy_url@) && id.len() == 36,
            final(self)@ == old(self)@.insert(path_component(proxy_url@), original_url@),
    {
        let id = fresh_identifier();
        let path = String::from_str("/proxy/").concat(id.as_str());
        let proxy_url = String::from_str("http://localhost:1420").concat(path.as_str());
        proof {
            assert(path_component(proxy_url@) =~= path@);
            assert(proxy_path_of(id@) == path@);
        }
        let ghost pre = self.entries@;
        let entry = ProxyMapping { path, target_url: original_url };
        let ghost fresh_entry = entry;
        self.entries.push(entry);
        proof {
            lemma_table_of_push(pre, fresh_entry);
        }
        proxy_url
    }

    /// Looks `proxy_path` up in the table: the registered URL when the path
    /// is present, and `NotFound` exactly when it is absent.
    pub fn resolve(&self, proxy_path: &String) -> (r: Result<String, ProxyError>)
        ensures
            self@.dom().contains(proxy_path@) <==> r is Ok,
            r is Ok ==> r->Ok_0@ == self@[proxy_path@],
            r is Err ==> r->Err_0 == ProxyError::NotFound,
    {
        let n = self.entries.len();
        let mut i: usize = n;
        proof {
            assert(self.entries@.take(n as int) =~= self.entries@);
        }
        while i > 0
            invariant
                i <= n,
                n == self.entries.len(),
                table_of(self.entries@).dom().contains(proxy_path@)
                    == table_of(self.entries@.take(i as int)).dom().contains(proxy_path@),
                table_of(self.entries@).dom().contains(proxy_path@)
                    ==> table_of(self.entries@)[proxy_path@]
                        == table_of(self.entries@.take(i as int))[proxy_path@],
            decreases i,
        {
            i = i - 1;
            proof {
                assert(self.entries@.take(i + 1).drop_last() =~= self.entries@.take(i as int));
                assert(self.entries@.take(i + 1).last() == self.entries@[i as int]);
                lemma_table_of_last(self.entries@.take(i + 1), proxy_path@);
            }
            let e = &self.entries[i];
            if e.path == *proxy_path {
                return Ok(e.target_url.clone());
            }
        }
        proof {
            assert(self.entries@.take(0) =~= Seq::<ProxyMapping>::empty());
        }
        Err(ProxyError::NotFound)
    }
}

} // verus!
