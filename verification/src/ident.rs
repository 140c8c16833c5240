//! The identity model of the cache: a namespace-tagged compound reference.
//!
//! Two identifiers are equal exactly when namespace and value match; no
//! cross-namespace canonicalization is performed, so keys for the "same"
//! molecule under different namespaces are distinct cache entries.
use vstd::prelude::*;
use vstd::string::*;

use crate::CacheError;
use crate::num::dec_digits;
use crate::num::parse_u32_str;
use crate::num::spec_parse_u32;
use crate::num::u64_to_string;

verus! {

/// The mathematical value of an identifier: its namespace tag and value.
#[verifier::ext_equal]
pub struct KeyM {
    pub ns: Seq<char>,
    pub id: Seq<char>,
}

/// A normalized reference to a compound, used as the cache key.
#[derive(Debug, Hash)]
pub struct SerCompound {
    pub namespace: String,
    pub identifier: String,
}

impl Clone for SerCompound {
    fn clone(&self) -> (r: Self)
        ensures
            r@ == self@,
    {
        SerCompound {
            namespace: self.namespace.clone(),
            identifier: self.identifier.clone(),
        }
    }
}

impl View for SerCompound {
    type V = KeyM;

    open spec fn view(&self) -> KeyM {
        KeyM { ns: self.namespace@, id: self.identifier@ }
    }
}

impl PartialEq for SerCompound {
    fn eq(&self, other: &SerCompound) -> (r: bool) {
        self.namespace == other.namespace && self.identifier == other.identifier
    }
}

impl Eq for SerCompound {

}

impl vstd::std_specs::cmp::PartialEqSpecImpl for SerCompound {
    open spec fn obeys_eq_spec() -> bool {
        true
    }

    open spec fn eq_spec(&self, other: &SerCompound) -> bool {
        self@ == other@
    }
}

/// The resolver's native query form for an identifier, as plain values:
/// which endpoint to ask, and with what argument.
#[derive(Debug, PartialEq, Eq)]
pub enum CompoundQuery {
    Cid(u32),
    Name(String),
    Smiles(String),
    Inchi(String),
    InchiKey(String),
}

/// The mathematical value of a query.
pub enum QueryM {
    Cid(u32),
    Name(Seq<char>),
    Smiles(Seq<char>),
    Inchi(Seq<char>),
    InchiKey(Seq<char>),
}

impl View for CompoundQuery {
    type V = QueryM;

    open spec fn view(&self) -> QueryM {
        match self {
            CompoundQuery::Cid(n) => QueryM::Cid(*n),
            CompoundQuery::Name(s) => QueryM::Name(s@),
            CompoundQuery::Smiles(s) => QueryM::Smiles(s@),
            CompoundQuery::Inchi(s) => QueryM::Inchi(s@),
            CompoundQuery::InchiKey(s) => QueryM::InchiKey(s@),
        }
    }
}

/// How an identifier maps to the resolver's query form: a numeric-id value
/// must read as an unsigned integer, an unrecognized namespace tag is
/// rejected, and every other recognized namespace passes its value through.
pub open spec fn spec_to_query(ns: Seq<char>, id: Seq<char>) -> Result<QueryM, CacheError> {
    if ns == "cid"@ {
        match spec_parse_u32(id) {
            Some(n) => Ok(QueryM::Cid(n)),
            None => Err(CacheError::MalformedValue),
        }
    } else if ns == "name"@ {
        Ok(QueryM::Name(id))
    } else if ns == "smiles"@ {
        Ok(QueryM::Smiles(id))
    } else if ns == "inchi"@ {
        Ok(QueryM::Inchi(id))
    } else if ns == "inchikey"@ {
        Ok(QueryM::InchiKey(id))
    } else {
        Err(CacheError::InvalidIdentifier)
    }
}

/// Character-by-character string comparison.
pub fn str_eq(a: &str, b: &str) -> (r: bool)
    ensures
        r == (a@ == b@),
{
    let la = a.unicode_len();
    let lb = b.unicode_len();
    if la != lb {
        return false;
    }
    let mut i: usize = 0;
    while i < la
        invariant
            i <= la,
            la == a@.len(),
            la == b@.len(),
            forall|k: int| 0 <= k < i ==> a@[k] == b@[k],
        decreases la - i,
    {
        if a.get_char(i) != b.get_char(i) {
            return false;
        }
        i = i + 1;
    }
    proof {
        assert(a@ =~= b@);
    }
    true
}

impl SerCompound {
    /// A numeric-id key: the value is the decimal form of the integer.
    pub fn new(id: u32) -> (r: Self)
        ensures
            r@.ns == "cid"@,
            r@.id == dec_digits(id as nat),
    {
        SerCompound { namespace: "cid".to_owned(), identifier: u64_to_string(id as u64) }
    }

    pub fn with_name(name: &str) -> (r: Self)
        ensures
            r@.ns == "name"@,
            r@.id == name@,
    {
        SerCompound { namespace: "name".to_owned(), identifier: name.to_owned() }
    }

    pub fn with_smiles(smiles: &str) -> (r: Self)
        ensures
            r@.ns == "smiles"@,
            r@.id == smiles@,
    {
        SerCompound { namespace: "smiles".to_owned(), identifier: smiles.to_owned() }
    }

    pub fn with_inchi(inchi: &str) -> (r: Self)
        ensures
            r@.ns == "inchi"@,
            r@.id == inchi@,
    {
        SerCompound { namespace: "inchi".to_owned(), identifier: inchi.to_owned() }
    }

    pub fn with_inchikey(inchikey: &str) -> (r: Self)
        ensures
            r@.ns == "inchikey"@,
            r@.id == inchikey@,
    {
        SerCompound { namespace: "inchikey".to_owned(), identifier: inchikey.to_owned() }
    }

    /// Maps this identifier to the resolver's query form.  Fails with
    /// `InvalidIdentifier` on an unrecognized namespace tag (reachable only
    /// through deserialized or hand-built keys) and with `MalformedValue`
    /// when a numeric-id value does not read as an unsigned integer.
    pub fn to_compound(&self) -> (r: Result<CompoundQuery, CacheError>)
        ensures
            (match r {
                Ok(q) => Ok::<QueryM, CacheError>(q@),
                Err(e) => Err(e),
            }) == spec_to_query(self@.ns, self@.id),
    {
        if str_eq(self.namespace.as_str(), "cid") {
            match parse_u32_str(self.identifier.as_str()) {
                Some(n) => Ok(CompoundQuery::Cid(n)),
                None => Err(CacheError::MalformedValue),
            }
        } else if str_eq(self.namespace.as_str(), "name") {
            Ok(CompoundQuery::Name(self.identifier.clone()))
        } else if str_eq(self.namespace.as_str(), "smiles") {
            Ok(CompoundQuery::Smiles(self.identifier.clone()))
        } else if str_eq(self.namespace.as_str(), "inchi") {
            Ok(CompoundQuery::Inchi(self.identifier.clone()))
        } else if str_eq(self.namespace.as_str(), "inchikey") {
            Ok(CompoundQuery::InchiKey(self.identifier.clone()))
        } else {
            Err(CacheError::InvalidIdentifier)
        }
    }
}

/// Every constructor produces an identifier that the resolver mapping
/// accepts: the defensive failure paths of `to_compound` are unreachable
/// through the public constructors.
pub proof fn lemma_constructors_resolve(id: u32, s: Seq<char>)
    ensures
        spec_to_query("cid"@, dec_digits(id as nat)) == Ok::<QueryM, CacheError>(QueryM::Cid(id)),
        spec_to_query("name"@, s) == Ok::<QueryM, CacheError>(QueryM::Name(s)),
        spec_to_query("smiles"@, s) == Ok::<QueryM, CacheError>(QueryM::Smiles(s)),
        spec_to_query("inchi"@, s) == Ok::<QueryM, CacheError>(QueryM::Inchi(s)),
        spec_to_query("inchikey"@, s) == Ok::<QueryM, CacheError>(QueryM::InchiKey(s)),
{
    broadcast use vstd::string::group_string_axioms;

    reveal_strlit("cid");
    reveal_strlit("name");
    reveal_strlit("smiles");
    reveal_strlit("inchi");
    reveal_strlit("inchikey");
    assert("cid"@.len() == 3);
    assert("name"@.len() == 4);
    assert("smiles"@.len() == 6);
    assert("inchi"@.len() == 5);
    assert("inchikey"@.len() == 8);
    assert("inchi"@ != "name"@ && "inchikey"@ != "inchi"@);
    crate::num::lemma_u32_round_trip(id);
}

} // verus!
