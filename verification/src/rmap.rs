//! The map of the resources of an application.
//!
//! The resources form a tree. Its inner nodes are the scopes, each with the
//! prefix that it matches; its leaves are the resources. A path belongs to
//! the first leaf that is reached by matching prefixes from the root down,
//! where at each node the first child whose own pattern matches decides and
//! the children after it are not tried.
//!
//! What a pattern matches is `actix_router`'s to say: the map asks it at
//! every node. The contracts therefore tell what holds whatever it answers.

use actix_router::ResourceDef;
use ahash::AHashMap;
use url::Url;
use vstd::prelude::*;
use vstd::string::{StrSliceExecFns, StringExecFns, StringSliceAdditionalSpecFns};

verus! {

#[verifier::external_type_specification]
#[verifier::external_body]
pub struct ExResourceDef(ResourceDef);

/// `ResourceDef::pattern`: the pattern as it was written.
#[verifier::external_body]
fn pattern_text(def: &ResourceDef) -> String {
    def.pattern().to_owned()
}

/// `ResourceDef::name`: the name of the resource; empty if it has none.
#[verifier::external_body]
fn pattern_name(def: &ResourceDef) -> String {
    def.name().to_owned()
}

/// `ResourceDef::set_id`.
#[verifier::external_body]
fn set_id(def: &mut ResourceDef, id: u16) {
    def.set_id(id)
}

/// `ResourceDef::clone`.
#[verifier::external_body]
fn clone_def(def: &ResourceDef) -> ResourceDef {
    def.clone()
}

/// `ResourceDef::is_prefix_match`: how much of `path` the pattern matches
/// at its beginning, in bytes, if it matches.
#[verifier::external_body]
fn is_prefix_match(def: &ResourceDef, path: &str) -> Option<usize> {
    def.is_prefix_match(path)
}

/// `ResourceDef::resource_path`: appends to `path` what the pattern makes
/// of the next `elements`, one for each of its variable parts, and takes
/// these from `elements`; `false` if there are too few, and for a resource
/// that was defined by a set of patterns.
#[verifier::external_body]
fn resource_path(
    def: &ResourceDef,
    path: &mut String,
    elements: &mut std::slice::Iter<'_, String>,
) -> bool {
    def.resource_path(path, elements)
}

#[verifier::external_type_specification]
#[verifier::external_body]
pub struct ExUrl(Url);

/// `Url::parse`: the URL that `input` denotes, if it denotes one.
#[verifier::external_body]
fn parse_url(input: &str) -> Option<Url> {
    Url::parse(input).ok()
}

#[verifier::external_type_specification]
#[verifier::external_body]
#[verifier::reject_recursive_types(K)]
#[verifier::reject_recursive_types(V)]
#[verifier::reject_recursive_types(S)]
pub struct ExAHashMap<K, V, S>(AHashMap<K, V, S>);

#[verifier::external_type_specification]
#[verifier::external_body]
pub struct ExRandomState(ahash::RandomState);

/// How a named resource is reached: the patterns from below the root down
/// to it. An external resource is kept beside the tree, and is reached
/// without the root.
#[derive(Debug)]
pub struct Route {
    external: bool,
    chain: Vec<ResourceDef>,
}

/// A route, as the contracts see it.
pub ghost struct RouteView {
    /// Whether the resource is kept beside the tree.
    pub external: bool,
    /// How many patterns lead to it from below the root.
    pub len: nat,
}

impl View for Route {
    type V = RouteView;

    closed spec fn view(&self) -> RouteView {
        RouteView { external: self.external, len: self.chain@.len() }
    }
}

/// The named resources of a map.
pub type NamedMap = AHashMap<String, Route>;

/// The routes that a map of named resources holds, by name.
pub uninterp spec fn named_routes(named: NamedMap) -> Map<Seq<char>, RouteView>;

/// `AHashMap::default`: a map that holds nothing.
#[verifier::external_body]
fn named_new() -> (named: NamedMap)
    ensures
        named_routes(named).dom().finite(),
        named_routes(named).dom().len() == 0,
{
    AHashMap::default()
}

/// `AHashMap::get`: the route under `name`, if there is one.
#[verifier::external_body]
fn named_get<'a>(named: &'a NamedMap, name: &str) -> (route: Option<&'a Route>)
    ensures
        match route {
            Some(route) => named_routes(*named).dom().contains(name@) && named_routes(
                *named,
            )[name@] == route@,
            None => !named_routes(*named).dom().contains(name@),
        },
{
    named.get(name)
}

/// `AHashMap::insert`: puts `route` under `name`, in place of what was
/// there.
#[verifier::external_body]
fn named_insert(named: &mut NamedMap, name: String, route: Route)
    ensures
        named_routes(*final(named)) == named_routes(*old(named)).insert(name@, route@),
{
    named.insert(name, route);
}

/// `AHashMap::into_iter`: every entry of the map, once, in no order that
/// could be told.
#[verifier::external_body]
fn named_into_entries(named: NamedMap) -> (entries: Vec<(String, Route)>)
    ensures
        forall|i: int, j: int|
            0 <= i < j < entries@.len() ==> entries@[i].0@ != entries@[j].0@,
        forall|i: int|
            0 <= i < entries@.len() ==> named_routes(named).dom().contains(
                (#[trigger] entries@[i]).0@,
            ) && named_routes(named)[entries@[i].0@] == entries@[i].1@,
        forall|name: Seq<char>| #[trigger]
            named_routes(named).dom().contains(name) ==> exists|i: int|
                0 <= i < entries@.len() && (#[trigger] entries@[i]).0@ == name,
{
    named.into_iter().collect()
}

/// Why no URL could be made for a resource.
#[derive(Copy, Clone, Debug, PartialEq, Eq, Structural)]
pub enum UrlGenerationError {
    /// No resource has the name.
    ResourceNotFound,
    /// The patterns have more variable parts than elements were given.
    NotEnoughElements,
    /// What the patterns and the elements make is no URL.
    ParseError,
}

/// A node of the tree.
#[derive(Debug)]
pub struct Node {
    pattern: ResourceDef,
    text: String,
    name: String,
    /// Whether the node is a resource; then nothing is below it.
    leaf: bool,
    nodes: Vec<Node>,
}

/// The map of the resources of an application: the tree of its scopes and
/// resources, and its named resources.
#[derive(Debug)]
pub struct ResourceMap {
    root: Node,
    named: NamedMap,
}

/// What a search below a node has found.
enum Found {
    /// The node's own pattern does not match: the next node may.
    Unmatched,
    /// The node's pattern matches and nothing below it does: the search is
    /// over.
    Nothing,
    /// This resource: its name, and the patterns from the root down to it,
    /// one after the other.
    Resource { name: String, pattern: String },
}

/// What a search has found, once a node's pattern has matched.
pub ghost enum Place {
    /// Nothing below the node.
    Nothing,
    /// The resource with this name, and with this as the patterns from the
    /// node down to it, one after the other.
    Resource { name: Seq<char>, pattern: Seq<char> },
}

impl Found {
    /// What was found, if the node's pattern has matched.
    spec fn place(&self) -> Option<Place> {
        match *self {
            Found::Unmatched => None,
            Found::Nothing => Some(Place::Nothing),
            Found::Resource { name, pattern } => Some(
                Place::Resource { name: name@, pattern: pattern@ },
            ),
        }
    }
}

impl Node {
    /// The pattern of the node, as it was written.
    pub closed spec fn text(&self) -> Seq<char> {
        self.text@
    }

    /// The name of the node; empty if it has none.
    pub closed spec fn name(&self) -> Seq<char> {
        self.name@
    }

    /// Whether the node is a resource, and not a scope.
    pub closed spec fn is_leaf(&self) -> bool {
        self.leaf
    }

    /// The nodes below a scope, in the order in which they were added.
    pub closed spec fn children(&self) -> Seq<Node> {
        self.nodes@
    }

    /// Whether `pattern` is that of a resource of the tree.
    pub open spec fn has_pattern(&self, pattern: Seq<char>) -> bool {
        exists|name: Seq<char>| #[trigger] self.has_leaf(pattern, name)
    }

    /// Whether `name` is that of a resource of the tree.
    pub open spec fn has_name(&self, name: Seq<char>) -> bool {
        exists|pattern: Seq<char>| #[trigger] self.has_leaf(pattern, name)
    }

    /// Whether `pattern` and `name` are those of a resource of the tree:
    /// `pattern` is what the patterns from this node down to the resource
    /// make, one after the other.
    pub open spec fn has_leaf(&self, pattern: Seq<char>, name: Seq<char>) -> bool
        decreases self,
    {
        if self.is_leaf() {
            pattern == self.text() && name == self.name()
        } else {
            &&& self.text().is_prefix_of(pattern)
            &&& exists|i: int|
                0 <= i < self.children().len() && (#[trigger] self.children()[i]).has_leaf(
                    pattern.skip(self.text().len() as int),
                    name,
                )
        }
    }

    /// What a search for the empty path finds from this node down, where
    /// the patterns on the way are empty and so match without being asked;
    /// `None` where a pattern must be asked.
    ///
    /// An empty pattern matches the empty path. A resource with the empty
    /// pattern is then the one that is found. A scope with the empty pattern
    /// finds what its first child finds, with its own pattern before it, and
    /// nothing if it has no child.
    pub open spec fn finds_empty(&self) -> Option<Place>
        decreases self,
    {
        if self.text().len() != 0 {
            None
        } else if self.is_leaf() {
            Some(Place::Resource { name: self.name(), pattern: self.text() })
        } else if self.children().len() == 0 {
            Some(Place::Nothing)
        } else {
            match self.children()[0].finds_empty() {
                None => None,
                Some(Place::Nothing) => Some(Place::Nothing),
                Some(Place::Resource { name, pattern }) => Some(
                    Place::Resource { name, pattern: self.text() + pattern },
                ),
            }
        }
    }

    /// Looks for the resource that `path` belongs to, from this node down.
    ///
    /// The node's pattern must match the beginning of `path`; an empty
    /// pattern matches an empty path. What remains of `path` is then looked
    /// for below the first child whose pattern matches it; where the node is
    /// a resource itself, it is the one.
    ///
    /// Whatever the patterns match, a resource that is found is one of the
    /// tree. Where no pattern needs to be asked, what is found is told by
    /// [`Node::finds_empty`].
    fn find(&self, path: &str) -> (found: Found)
        ensures
            found matches Found::Resource { name, pattern } ==> self.has_leaf(pattern@, name@),
            path@.len() == 0 && self.text().len() == 0 ==> !(found is Unmatched),
            path@.len() == 0 && self.finds_empty() is Some ==> found.place() == self.finds_empty(),
            self.is_leaf() ==> (found matches Found::Resource { name, pattern } && name@
                == self.name() && pattern@ == self.text()) || found is Unmatched,
            !self.is_leaf() && self.children().len() == 0 ==> !(found is Resource),
        decreases self,
    {
        let rest = if path.is_empty() && self.text.as_str().is_empty() {
            path
        } else {
            match rest_after(path, is_prefix_match(&self.pattern, path)) {
                Some(rest) => rest,
                None => {
                    return Found::Unmatched;
                },
            }
        };
        if self.leaf {
            return Found::Resource { name: self.name.clone(), pattern: self.text.clone() };
        }
        let mut i: usize = 0;
        while i < self.nodes.len()
            invariant
                i <= self.nodes.len(),
                !self.leaf,
                path@.len() == 0 && self.text().len() == 0 ==> rest@.len() == 0,
                path@.len() == 0 && self.finds_empty() is Some ==> i == 0,
            decreases self.nodes.len() - i,
        {
            proof {
                vstd::std_specs::vec::axiom_vec_index_decreases(self.nodes, i as int);
            }
            match self.nodes[i].find(rest) {
                Found::Unmatched => {},
                Found::Nothing => {
                    return Found::Nothing;
                },
                Found::Resource { name, pattern } => {
                    let mut full = self.text.clone();
                    full.append(pattern.as_str());
                    assert(self.children()[i as int].has_leaf(pattern@, name@));
                    assert(full@.skip(self.text().len() as int) =~= pattern@);
                    return Found::Resource { name, pattern: full };
                },
            }
            proof {
                // a child that was not matched had to be asked
                if path@.len() == 0 && self.finds_empty() is Some {
                    assert(self.children()[0].finds_empty() is Some);
                    assert(self.children()[0].text().len() == 0);
                }
            }
            i = i + 1;
        }
        Found::Nothing
    }
}

/// What remains of `path` after a match of `matched` bytes at its
/// beginning: nothing if there was no match, or if the match does not end
/// inside `path` and between two characters.
pub open spec fn spec_rest_after(path: Seq<u8>, matched: Option<usize>) -> Option<Seq<u8>> {
    match matched {
        Some(n) => if n <= path.len() && vstd::utf8::is_char_boundary(path, n as int) {
            Some(path.subrange(n as int, path.len() as int))
        } else {
            None
        },
        None => None,
    }
}

/// What remains of `path` after a match of `matched` bytes at its beginning.
pub fn rest_after<'a>(path: &'a str, matched: Option<usize>) -> (rest: Option<&'a str>)
    ensures
        match spec_rest_after(path.spec_bytes(), matched) {
            Some(bytes) => rest matches Some(r) && r.spec_bytes() == bytes,
            None => rest is None,
        },
{
    match matched {
        Some(n) => {
            if n <= path.as_bytes().len() && path.is_char_boundary(n) {
                let (_, rest) = path.split_at(n);
                Some(rest)
            } else {
                None
            }
        },
        None => None,
    }
}

/// What stands at the beginning of a URL between the scheme and the host.
pub open spec fn scheme_separator() -> Seq<char> {
    seq![':', '/', '/']
}

/// The text of the URL of a resource whose patterns make `path`: `path`
/// itself, or, if it begins with `/`, the scheme, `://`, the host and `path`.
pub open spec fn spec_url_text(path: Seq<char>, scheme: Seq<char>, host: Seq<char>) -> Seq<char> {
    if path.len() > 0 && path[0] == '/' {
        scheme + scheme_separator() + host + path
    } else {
        path
    }
}

/// The text of the URL of a resource whose patterns make `path`.
pub fn url_text(path: String, scheme: &str, host: &str) -> (text: String)
    ensures
        text@ == spec_url_text(path@, scheme@, host@),
{
    if !path.as_str().is_empty() && path.as_str().get_char(0) == '/' {
        let mut text = String::new();
        text.append(scheme);
        text.append("://");
        text.append(host);
        text.append(path.as_str());
        proof {
            reveal_strlit("://");
            assert("://"@ =~= scheme_separator());
            assert(text@ =~= scheme@ + scheme_separator() + host@ + path@);
        }
        text
    } else {
        path
    }
}

/// What the names in `added` take over in `base`: each is kept under its
/// name, in place of what was there, with `grow` more patterns leading to
/// it unless it is external.
pub open spec fn merged(
    base: Map<Seq<char>, RouteView>,
    added: Map<Seq<char>, RouteView>,
) -> Map<Seq<char>, RouteView> {
    Map::new(
        |name: Seq<char>| base.dom().contains(name) || added.dom().contains(name),
        |name: Seq<char>|
            if added.dom().contains(name) {
                nested_route(added[name])
            } else {
                base[name]
            },
    )
}

/// Whether one of `entries[from..]` has the name `name`.
pub open spec fn named_from(entries: Seq<(String, Route)>, from: int, name: Seq<char>) -> bool {
    exists|i: int| from <= i < entries.len() && (#[trigger] entries[i]).0@ == name
}

/// The route to a resource of a nested map, seen from the map around it:
/// one more pattern leads to it, unless it is external.
pub open spec fn nested_route(route: RouteView) -> RouteView {
    if route.external {
        route
    } else {
        RouteView { external: false, len: route.len + 1 }
    }
}

impl ResourceMap {
    /// The root of the tree.
    pub closed spec fn tree(&self) -> Node {
        self.root
    }

    /// The routes to the named resources, by name.
    pub closed spec fn routes(&self) -> Map<Seq<char>, RouteView> {
        named_routes(self.named)
    }

    /// A map with the root pattern `root`, and no resources yet.
    pub fn new(root: ResourceDef) -> (map: ResourceMap)
        ensures
            !map.tree().is_leaf(),
            map.tree().children().len() == 0,
            map.routes().dom().finite(),
            map.routes().dom().len() == 0,
    {
        let text = pattern_text(&root);
        let name = pattern_name(&root);
        ResourceMap {
            root: Node { pattern: root, text, name, leaf: false, nodes: Vec::new() },
            named: named_new(),
        }
    }

    /// Whether a resource with the pattern `text` belongs to the tree, and
    /// is not kept beside it: the pattern is empty or begins with `/`.
    pub fn is_internal(text: &str) -> (internal: bool)
        ensures
            internal == (text@.len() == 0 || text@[0] == '/'),
    {
        text.is_empty() || text.get_char(0) == '/'
    }

    /// Adds a resource, or with `nested` a whole map of resources, under
    /// `pattern`, and gives `pattern` its place among the children as its id.
    ///
    /// A resource becomes the last child of the root, unless its pattern is
    /// neither empty nor begins with `/`: then it is external, and kept only
    /// by its name. A resource with a name is kept under it, in place of
    /// what was there; one without a name leaves the named resources as
    /// they are.
    ///
    /// A nested map must have `pattern` as its root pattern. If it has not,
    /// nothing is added and the answer is `false`. Else its tree becomes the
    /// last child of the root, and its named resources are taken over.
    ///
    /// What `pattern` reports as its text and its name is `actix_router`'s
    /// to say; [`ResourceMap::add_as`], which does the work, tells what is
    /// added for every text and name.
    pub fn add(&mut self, pattern: &mut ResourceDef, nested: Option<ResourceMap>) -> (added: bool)
        requires
            !old(self).tree().is_leaf(),
        ensures
            !final(self).tree().is_leaf(),
            final(self).tree().text() == old(self).tree().text(),
            final(self).tree().name() == old(self).tree().name(),
            match nested {
                Some(map) => if added {
                    &&& final(self).tree().children() == old(self).tree().children().push(
                        map.tree(),
                    )
                    &&& final(self).routes() == merged(old(self).routes(), map.routes())
                } else {
                    &&& final(self).tree().children() == old(self).tree().children()
                    &&& final(self).routes() == old(self).routes()
                },
                None => {
                    let before = old(self).tree().children();
                    let after = final(self).tree().children();
                    &&& added
                    &&& if after.len() == before.len() + 1 {
                        let leaf = after.last();
                        &&& after.drop_last() == before
                        &&& leaf.is_leaf()
                        &&& leaf.children().len() == 0
                        &&& leaf.text().len() == 0 || leaf.text()[0] == '/'
                        &&& final(self).routes() == if leaf.name().len() == 0 {
                            old(self).routes()
                        } else {
                            old(self).routes().insert(
                                leaf.name(),
                                RouteView { external: false, len: 1 },
                            )
                        }
                    } else {
                        &&& after == before
                        &&& final(self).routes() == old(self).routes() || exists|name: Seq<char>|
                            name.len() > 0 && final(self).routes() == old(self).routes().insert(
                                name,
                                RouteView { external: true, len: 1 },
                            )
                    }
                },
            },
    {
        let id = #[verifier::truncate] (self.root.nodes.len() as u16);
        set_id(pattern, id);
        let text = pattern_text(pattern);
        let name = pattern_name(pattern);
        self.add_as(pattern, text, name, nested)
    }

    /// Adds a resource, or with `nested` a whole map of resources, under
    /// `pattern`, of which `text` is the pattern as it was written and `name`
    /// the name, empty if it has none.
    ///
    /// A nested map is added if and only if its root pattern is `text`: its
    /// tree becomes the last child of the root, and its named resources are
    /// taken over. A resource is always added: it becomes the last child of
    /// the root if `text` is empty or begins with `/`, and is external
    /// otherwise; and if `name` is not empty it is kept under it, in place of
    /// what was there.
    pub fn add_as(
        &mut self,
        pattern: &ResourceDef,
        text: String,
        name: String,
        nested: Option<ResourceMap>,
    ) -> (added: bool)
        requires
            !old(self).tree().is_leaf(),
        ensures
            !final(self).tree().is_leaf(),
            final(self).tree().text() == old(self).tree().text(),
            final(self).tree().name() == old(self).tree().name(),
            added == match nested {
                Some(map) => map.tree().text() == text@,
                None => true,
            },
            match nested {
                Some(map) => if added {
                    &&& final(self).tree().children() == old(self).tree().children().push(
                        map.tree(),
                    )
                    &&& final(self).routes() == merged(old(self).routes(), map.routes())
                } else {
                    &&& final(self).tree().children() == old(self).tree().children()
                    &&& final(self).routes() == old(self).routes()
                },
                None => {
                    let before = old(self).tree().children();
                    let after = final(self).tree().children();
                    let internal = text@.len() == 0 || text@[0] == '/';
                    &&& if internal {
                        &&& after.len() == before.len() + 1
                        &&& after.drop_last() == before
                        &&& after.last().is_leaf()
                        &&& after.last().children().len() == 0
                        &&& after.last().text() == text@
                        &&& after.last().name() == name@
                    } else {
                        after == before
                    }
                    &&& final(self).routes() == if name@.len() == 0 {
                        old(self).routes()
                    } else {
                        old(self).routes().insert(
                            name@,
                            RouteView { external: !internal, len: 1 },
                        )
                    }
                },
            },
    {
        match nested {
            Some(map) => {
                if map.root.text != text {
                    return false;
                }
                let ResourceMap { root, named } = map;
                self.take_over(named, &root.pattern);
                self.root.nodes.push(root);
                true
            },
            None => {
                let internal = ResourceMap::is_internal(text.as_str());
                if !name.as_str().is_empty() {
                    let mut chain: Vec<ResourceDef> = Vec::new();
                    chain.push(clone_def(pattern));
                    let route = Route { external: !internal, chain };
                    named_insert(&mut self.named, name.clone(), route);
                }
                if internal {
                    let leaf = Node {
                        pattern: clone_def(pattern),
                        text,
                        name,
                        leaf: true,
                        nodes: Vec::new(),
                    };
                    let ghost before = self.root.nodes@;
                    self.root.nodes.push(leaf);
                    assert(self.root.nodes@.drop_last() =~= before);
                }
                true
            },
        }
    }

    /// Takes over the named resources of a nested map with the root
    /// pattern `prefix`.
    fn take_over(&mut self, named: NamedMap, prefix: &ResourceDef)
        ensures
            final(self).root == old(self).root,
            final(self).routes() == merged(old(self).routes(), named_routes(named)),
    {
        let ghost base = named_routes(self.named);
        let ghost added = named_routes(named);
        let mut entries = named_into_entries(named);
        let ghost all = entries@;
        while entries.len() > 0
            invariant
                self.root == old(self).root,
                entries@.len() <= all.len(),
                entries@ == all.take(entries@.len() as int),
                forall|i: int, j: int| 0 <= i < j < all.len() ==> all[i].0@ != all[j].0@,
                forall|i: int|
                    0 <= i < all.len() ==> added.dom().contains((#[trigger] all[i]).0@) && added[all[i].0@]
                        == all[i].1@,
                forall|name: Seq<char>| #[trigger]
                    named_routes(self.named).dom().contains(name) ==> base.dom().contains(name)
                        || named_from(all, entries@.len() as int, name),
                forall|name: Seq<char>| #[trigger]
                    base.dom().contains(name) ==> named_routes(self.named).dom().contains(name),
                forall|i: int|
                    entries@.len() <= i < all.len() ==> named_routes(self.named).dom().contains(
                        (#[trigger] all[i]).0@,
                    ) && named_routes(self.named)[all[i].0@] == nested_route(all[i].1@),
                forall|name: Seq<char>| #[trigger]
                    base.dom().contains(name) && !named_from(all, entries@.len() as int, name)
                        ==> named_routes(self.named)[name] == base[name],
            decreases entries.len(),
        {
            let ghost k = entries@.len() - 1;
            let ghost before = named_routes(self.named);
            let (name, mut route) = match entries.pop() {
                Some(entry) => entry,
                None => {
                    return ;
                },
            };
            assert(name@ == all[k].0@ && route@ == all[k].1@);
            if !route.external {
                route.chain.insert(0, clone_def(prefix));
            }
            assert(route@ == nested_route(all[k].1@));
            named_insert(&mut self.named, name, route);
            assert(entries@ =~= all.take(k));
            assert forall|i: int| k <= i < all.len() implies named_routes(self.named).dom().contains(
                (#[trigger] all[i]).0@,
            ) && named_routes(self.named)[all[i].0@] == nested_route(all[i].1@) by {
                if i > k {
                    assert(all[i].0@ != all[k].0@);
                }
            }
            assert forall|name: Seq<char>| #[trigger]
                named_routes(self.named).dom().contains(name) implies base.dom().contains(name)
                || named_from(all, k, name) by {
                if name == all[k].0@ {
                    assert(named_from(all, k, name));
                } else if before.dom().contains(name) && !base.dom().contains(name) {
                    let i = choose|i: int| k + 1 <= i < all.len() && (#[trigger] all[i]).0@ == name;
                    assert(k <= i < all.len() && all[i].0@ == name);
                }
            }
            assert forall|name: Seq<char>| #[trigger]
                base.dom().contains(name) && !named_from(all, k, name) implies named_routes(
                self.named,
            )[name] == base[name] by {
                assert(name != all[k].0@);
                if named_from(all, k + 1, name) {
                    let i = choose|i: int| k + 1 <= i < all.len() && (#[trigger] all[i]).0@ == name;
                    assert(k <= i < all.len() && all[i].0@ == name);
                }
            }
        }
        let ghost result = named_routes(self.named);
        assert forall|name: Seq<char>| #[trigger]
            merged(base, added).dom().contains(name) implies result.dom().contains(name)
            && result[name] == merged(base, added)[name] by {
            if added.dom().contains(name) {
                let i = choose|i: int| 0 <= i < all.len() && (#[trigger] all[i]).0@ == name;
                assert(result.dom().contains(all[i].0@));
            } else {
                assert(!named_from(all, 0, name)) by {
                    if named_from(all, 0, name) {
                        let i = choose|i: int| 0 <= i < all.len() && (#[trigger] all[i]).0@ == name;
                        assert(added.dom().contains(all[i].0@));
                    }
                }
            }
        }
        assert forall|name: Seq<char>| #[trigger] result.dom().contains(name) implies merged(
            base,
            added,
        ).dom().contains(name) by {
            if !base.dom().contains(name) {
                assert(named_from(all, 0, name));
                let i = choose|i: int| 0 <= i < all.len() && (#[trigger] all[i]).0@ == name;
                assert(added.dom().contains(all[i].0@));
            }
        }
        assert(result =~= merged(base, added));
    }

    /// Whether `path` belongs to a resource of the tree.
    ///
    /// Whatever the patterns match, a path belongs to none where the tree
    /// has no resource. Where no pattern needs to be asked, the answer is
    /// whether [`Node::finds_empty`] tells of a resource.
    pub fn has_resource(&self, path: &str) -> (found: bool)
        ensures
            found ==> exists|pattern: Seq<char>| #[trigger] self.tree().has_pattern(pattern),
            path@.len() == 0 ==> match self.tree().finds_empty() {
                Some(Place::Resource { .. }) => found,
                Some(Place::Nothing) => !found,
                None => true,
            },
    {
        match self.root.find(path) {
            Found::Resource { name, pattern } => {
                assert(self.root.has_leaf(pattern@, name@));
                assert(self.tree().has_pattern(pattern@));
                true
            },
            _ => false,
        }
    }

    /// The name of the resource that `path` belongs to, if it belongs to
    /// one and that one has a name.
    ///
    /// Whatever the patterns match, a name that is given is not empty and is
    /// that of a resource of the tree. Where no pattern needs to be asked,
    /// it is the name of the resource that [`Node::finds_empty`] tells of,
    /// if that has one.
    pub fn match_name(&self, path: &str) -> (matched: Option<String>)
        ensures
            matched matches Some(name) ==> name@.len() > 0 && self.tree().has_name(name@),
            path@.len() == 0 ==> match self.tree().finds_empty() {
                Some(Place::Resource { name, .. }) => if name.len() > 0 {
                    matched matches Some(given) && given@ == name
                } else {
                    matched is None
                },
                Some(Place::Nothing) => matched is None,
                None => true,
            },
    {
        match self.root.find(path) {
            Found::Resource { name, pattern } => {
                if name.as_str().is_empty() {
                    None
                } else {
                    assert(self.root.has_leaf(pattern@, name@));
                    Some(name)
                }
            },
            _ => None,
        }
    }

    /// The patterns, from the root down and one after the other, of the
    /// resource that `path` belongs to, if it belongs to one.
    ///
    /// Whatever the patterns match, what is given is the pattern of a
    /// resource of the tree. Where no pattern needs to be asked, it is the
    /// pattern of the resource that [`Node::finds_empty`] tells of.
    pub fn match_pattern(&self, path: &str) -> (matched: Option<String>)
        ensures
            matched matches Some(pattern) ==> self.tree().has_pattern(pattern@),
            path@.len() == 0 ==> match self.tree().finds_empty() {
                Some(Place::Resource { pattern, .. }) => matched matches Some(given) && given@
                    == pattern,
                Some(Place::Nothing) => matched is None,
                None => true,
            },
    {
        match self.root.find(path) {
            Found::Resource { name, pattern } => {
                assert(self.root.has_leaf(pattern@, name@));
                Some(pattern)
            },
            _ => None,
        }
    }

    /// The URL of the resource `name`, with `elements` for the variable
    /// parts of its patterns, on the host `host` and with the scheme
    /// `scheme`.
    ///
    /// The patterns are those of the root, unless the resource is external,
    /// and then those that lead to the resource, each filled in with the
    /// next elements. A resource that is not known is `ResourceNotFound`;
    /// too few elements are `NotEnoughElements`; and a text that is no URL
    /// is `ParseError`.
    pub fn url_for(&self, scheme: &str, host: &str, name: &str, elements: &Vec<String>) -> (url:
        Result<Url, UrlGenerationError>)
        ensures
            !self.routes().dom().contains(name@) <==> url matches Err(
                UrlGenerationError::ResourceNotFound,
            ),
    {
        let route = match named_get(&self.named, name) {
            Some(route) => route,
            None => {
                return Err(UrlGenerationError::ResourceNotFound);
            },
        };
        let mut rest = elements.iter();
        let mut path = String::new();
        if !route.external {
            if !resource_path(&self.root.pattern, &mut path, &mut rest) {
                return Err(UrlGenerationError::NotEnoughElements);
            }
        }
        let mut i: usize = 0;
        while i < route.chain.len()
            invariant
                i <= route.chain.len(),
                self.routes().dom().contains(name@),
            decreases route.chain.len() - i,
        {
            if !resource_path(&route.chain[i], &mut path, &mut rest) {
                return Err(UrlGenerationError::NotEnoughElements);
            }
            i = i + 1;
        }
        match parse_url(url_text(path, scheme, host).as_str()) {
            Some(url) => Ok(url),
            None => Err(UrlGenerationError::ParseError),
        }
    }
}

} // verus!
