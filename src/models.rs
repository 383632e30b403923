//! The records exchanged with the wiki service: what reads return and what
//! writes send.

use vstd::prelude::*;
use vstd::string::*;
use crate::text::{decimal, to_decimal};

verus! {

/// A space as the service lists it.
#[derive(Clone, Debug)]
pub struct Space {
    pub id: u64,
    pub key: String,
    pub name: String,
    pub expandable: SpaceExpandable,
}

/// The parts of a space that the service can expand on request.
#[derive(Clone, Debug)]
pub struct SpaceExpandable {
    pub homepage: Option<String>,
}

/// The child pages of a page, one batch of them.
#[derive(Debug)]
pub struct PageChildren {
    pub page: PaginatedResponse<Page>,
    pub links: Links,
}

/// A page as the service returns it.
#[derive(Debug)]
pub struct Page {
    pub id: String,
    pub title: String,
    pub status: String,
    pub space: Option<Space>,
    pub body: Option<Body>,
    pub links: Links,
    pub children: Option<PageChildren>,
}

/// The rendered forms of a page's content.
#[derive(Clone, Debug)]
pub struct Body {
    pub view: Option<BodyView>,
}

/// The content of a page rendered for viewing.
#[derive(Clone, Debug)]
pub struct BodyView {
    pub value: String,
}

/// The envelope of the space listing.
#[derive(Clone, Debug)]
pub struct SpacesResult {
    pub results: Vec<Space>,
}

/// The links bundle of a record or of a batch; `next` points at the
/// following batch of a collection.
#[derive(Clone, Debug)]
pub struct Links {
    pub next: Option<String>,
    pub prev: Option<String>,
    pub base: Option<String>,
    pub webui: Option<String>,
    pub _self: String,
}

/// One batch of a paginated collection.
#[derive(Debug)]
pub struct PaginatedResponse<T> {
    pub size: u64,
    pub limit: u64,
    pub start: u64,
    pub links: Links,
    pub results: Vec<T>,
}

/// The envelope of one batch of a space's pages.
#[derive(Debug)]
pub struct SpaceContentResult {
    pub page: PaginatedResponse<Page>,
}

/// The body of a request that creates or updates a page.
#[derive(Clone, Debug)]
pub struct PostPage {
    pub id: Option<String>,
    pub t: String,
    pub title: String,
    pub ancestors: Option<Vec<PostAncestor>>,
    pub space: PostSpace,
    pub body: Option<PostBody>,
    pub version: Option<PostVersion>,
}

/// A parent of a page to be created, by identifier.
#[derive(Clone, Debug)]
pub struct PostAncestor {
    pub id: String,
}

/// The space that a written page belongs to, by key.
#[derive(Clone, Debug)]
pub struct PostSpace {
    pub key: String,
}

/// The content of a written page.
#[derive(Clone, Debug)]
pub struct PostBody {
    pub storage: PostStorage,
}

/// Content in a named representation.
#[derive(Clone, Debug)]
pub struct PostStorage {
    pub value: String,
    pub representation: String,
}

/// The version number that an update claims.
#[derive(Clone, Debug)]
pub struct PostVersion {
    pub number: u64,
}

/// The content type that page writes carry.
pub open spec fn page_type() -> Seq<char> {
    seq!['p', 'a', 'g', 'e']
}

/// The representation tag of written content.
pub open spec fn storage_representation() -> Seq<char> {
    seq!['s', 't', 'o', 'r', 'a', 'g', 'e']
}

/// `b` carries `value` in the storage representation.
pub open spec fn is_storage_body(b: PostBody, value: Seq<char>) -> bool {
    &&& b.storage.value@ == value
    &&& b.storage.representation@ == storage_representation()
}

/// `b` is the written form of the optional content `body`.
pub open spec fn encodes_body(b: Option<PostBody>, body: Option<String>) -> bool {
    match body {
        None => b is None,
        Some(v) => b is Some && is_storage_body(b->0, v@),
    }
}

/// `a` is the ancestor list for the optional parent `ancestor`: absent
/// without one, else a single entry holding its identifier in decimal.
pub open spec fn encodes_ancestor(a: Option<Vec<PostAncestor>>, ancestor: Option<u64>) -> bool {
    match ancestor {
        None => a is None,
        Some(id) => a is Some && a->0@.len() == 1 && a->0@[0].id@ == decimal(id as nat),
    }
}

impl PostBody {
    /// Content `value` in the storage representation.
    pub fn new(value: String) -> (r: PostBody)
        ensures
            is_storage_body(r, value@),
    {
        proof {
            reveal_strlit("storage");
            assert("storage"@ =~= storage_representation());
        }
        let representation = String::from_str("storage");
        PostBody { storage: PostStorage { value, representation } }
    }
}

fn post_body_of(body: Option<String>) -> (r: Option<PostBody>)
    ensures
        encodes_body(r, body),
{
    match body {
        None => None,
        Some(v) => Some(PostBody::new(v)),
    }
}

fn page_type_string() -> (r: String)
    ensures
        r@ == page_type(),
{
    proof {
        reveal_strlit("page");
    }
    String::from_str("page")
}

impl PostPage {
    /// The body of a request that creates page `title` in space `space_key`,
    /// under `ancestor` when given, with content `body` when given.
    pub fn new_new_page(
        title: String,
        ancestor: Option<u64>,
        space_key: String,
        body: Option<String>,
    ) -> (r: PostPage)
        ensures
            r.id is None,
            r.t@ == page_type(),
            r.title@ == title@,
            encodes_ancestor(r.ancestors, ancestor),
            r.space.key@ == space_key@,
            encodes_body(r.body, body),
            r.version is None,
    {
        let ancestors = match ancestor {
            None => None,
            Some(ancestor_id) => {
                let mut v: Vec<PostAncestor> = Vec::new();
                v.push(PostAncestor { id: to_decimal(ancestor_id) });
                Some(v)
            },
        };
        PostPage {
            id: None,
            t: page_type_string(),
            title,
            ancestors,
            space: PostSpace { key: space_key },
            body: post_body_of(body),
            version: None,
        }
    }

    /// The body of a request that replaces page `id` with title `title` and
    /// content `body`, claiming version `new_version`.
    pub fn new_update_page(
        id: u64,
        title: String,
        space_key: String,
        body: Option<String>,
        new_version: u64,
    ) -> (r: PostPage)
        ensures
            r.id is Some && r.id->0@ == decimal(id as nat),
            r.t@ == page_type(),
            r.title@ == title@,
            r.ancestors is None,
            r.space.key@ == space_key@,
            encodes_body(r.body, body),
            r.version is Some && r.version->0.number == new_version,
    {
        PostPage {
            id: Some(to_decimal(id)),
            t: page_type_string(),
            title,
            ancestors: None,
            space: PostSpace { key: space_key },
            body: post_body_of(body),
            version: Some(PostVersion { number: new_version }),
        }
    }
}

} // verus!
