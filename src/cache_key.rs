use vstd::prelude::*;
use vstd::string::*;

verus! {

/// The entity types that share one cache; each owns its own key space.
#[derive(Clone, Copy, Debug, PartialEq, Eq, Structural)]
pub enum Namespace {
    Customer,
    Seller,
}

/// The text form of an entity identifier, as `uuid` prints it.
pub uninterp spec fn uuid_text(id: u128) -> Seq<char>;

/// The name under which a namespace prefixes its keys.
pub open spec fn namespace_text(ns: Namespace) -> Seq<char> {
    match ns {
        Namespace::Customer => seq!['c', 'u', 's', 't', 'o', 'm', 'e', 'r'],
        Namespace::Seller => seq!['s', 'e', 'l', 'l', 'e', 'r'],
    }
}

/// The cache key of entity `id` of namespace `ns`: `namespace + ":" + id`.
pub open spec fn key_of(ns: Namespace, id: u128) -> Seq<char> {
    namespace_text(ns) + seq![':'] + uuid_text(id)
}

/// Relies on `uuid::Uuid::from_u128` and the hyphenated `Display` of `uuid::Uuid`:
/// the text depends on the value alone and has `Hyphenated::LENGTH` (36) characters.
#[verifier::external_body]
fn hyphenated_id(id: u128) -> (r: String)
    ensures
        r@ == uuid_text(id),
        r@.len() == 36,
{
    uuid::Uuid::from_u128(id).hyphenated().to_string()
}

impl Namespace {
    /// The prefix text of this namespace.
    pub fn name(&self) -> (r: &'static str)
        ensures
            r@ == namespace_text(*self),
    {
        match self {
            Namespace::Customer => {
                proof {
                    reveal_strlit("customer");
                }
                "customer"
            },
            Namespace::Seller => {
                proof {
                    reveal_strlit("seller");
                }
                "seller"
            },
        }
    }
}

/// Joins a namespace and the text of an identifier into a cache key.
pub fn compose_key(ns: Namespace, id_text: &str) -> (r: String)
    ensures
        r@ == namespace_text(ns) + seq![':'] + id_text@,
{
    let mut key = String::from_str(ns.name());
    proof {
        reveal_strlit(":");
    }
    key.append(":");
    key.append(id_text);
    key
}

/// Builds the cache key of entity `id` in namespace `ns`.
pub fn cache_key(ns: Namespace, id: u128) -> (r: String)
    ensures
        r@ == key_of(ns, id),
{
    let id_text = hyphenated_id(id);
    compose_key(ns, id_text.as_str())
}

/// Keys of different namespaces never collide, whatever the identifiers.
pub proof fn lemma_namespaces_disjoint(a: Namespace, id_a: u128, b: Namespace, id_b: u128)
    requires
        a != b,
    ensures
        key_of(a, id_a) != key_of(b, id_b),
{
    assert(key_of(a, id_a)[0] != key_of(b, id_b)[0]);
}

} // verus!
