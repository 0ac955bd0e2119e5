//! Public verification keys and the registry that holds them.

use crate::base64url;
use crate::base64url::base64url_text;
use crate::text::same_text;
use vstd::prelude::*;
use vstd::string::*;

verus! {

/// A signature algorithm that a key or a token can declare.
#[derive(Clone, Copy, Debug, PartialEq, Eq, Structural)]
pub enum Algorithm {
    /// RSA with PKCS#1 v1.5 padding over SHA-256.
    RS256,
    /// RSA with PKCS#1 v1.5 padding over SHA-384.
    RS384,
    /// RSA with PKCS#1 v1.5 padding over SHA-512.
    RS512,
}

impl Algorithm {
    /// The name under which a token header declares the algorithm.
    pub open spec fn spec_name(self) -> Seq<char> {
        match self {
            Algorithm::RS256 => "RS256"@,
            Algorithm::RS384 => "RS384"@,
            Algorithm::RS512 => "RS512"@,
        }
    }

    /// The algorithm that `name` declares, if it is one of the known names.
    pub open spec fn spec_from_name(name: Seq<char>) -> Option<Algorithm> {
        if name == "RS256"@ {
            Some(Algorithm::RS256)
        } else if name == "RS384"@ {
            Some(Algorithm::RS384)
        } else if name == "RS512"@ {
            Some(Algorithm::RS512)
        } else {
            None
        }
    }

    /// The name under which a token header declares the algorithm.
    pub fn name(self) -> (name: &'static str)
        ensures
            name@ == self.spec_name(),
    {
        match self {
            Algorithm::RS256 => "RS256",
            Algorithm::RS384 => "RS384",
            Algorithm::RS512 => "RS512",
        }
    }

    /// Reads an algorithm name. The match is exact and case-sensitive.
    pub fn from_name(name: &str) -> (algorithm: Option<Algorithm>)
        ensures
            algorithm == Algorithm::spec_from_name(name@),
    {
        if same_text(name, "RS256") {
            Some(Algorithm::RS256)
        } else if same_text(name, "RS384") {
            Some(Algorithm::RS384)
        } else if same_text(name, "RS512") {
            Some(Algorithm::RS512)
        } else {
            None
        }
    }
}

/// The three algorithm names differ, so a name read back gives the algorithm it was
/// written for.
pub proof fn lemma_algorithm_name_round_trip(algorithm: Algorithm)
    ensures
        Algorithm::spec_from_name(algorithm.spec_name()) == Some(algorithm),
{
    reveal_strlit("RS256");
    reveal_strlit("RS384");
    reveal_strlit("RS512");
    assert("RS256"@[2] == '2');
    assert("RS384"@[2] == '3');
    assert("RS512"@[2] == '5');
}

/// A public verification key as it is published: an RSA key tagged with the identifier
/// under which tokens refer to it.
#[derive(Debug)]
pub struct Jwk {
    /// The identifier that a token header names to select this key.
    pub key_id: String,
    /// The algorithm the key is meant for.
    pub algorithm: Algorithm,
    /// The key family; `"RSA"` for every key this crate makes.
    pub key_type: String,
    /// What the key may be used for; `"sig"` for every key this crate makes.
    pub usage: String,
    /// The modulus as an unsigned big-endian integer in unpadded URL-safe base64.
    pub modulus: String,
    /// The public exponent as an unsigned big-endian integer in unpadded URL-safe base64.
    pub exponent: String,
}

/// What a `Jwk` holds, as mathematical values.
pub ghost struct JwkModel {
    pub key_id: Seq<char>,
    pub algorithm: Algorithm,
    pub key_type: Seq<char>,
    pub usage: Seq<char>,
    pub modulus: Seq<char>,
    pub exponent: Seq<char>,
}

impl View for Jwk {
    type V = JwkModel;

    open spec fn view(&self) -> JwkModel {
        JwkModel {
            key_id: self.key_id@,
            algorithm: self.algorithm,
            key_type: self.key_type@,
            usage: self.usage@,
            modulus: self.modulus@,
            exponent: self.exponent@,
        }
    }
}

/// The published form of the RSA signature key with the given identifier and
/// big-endian components.
pub open spec fn rsa_signature_jwk(key_id: Seq<char>, modulus: Seq<u8>, exponent: Seq<u8>) -> JwkModel {
    JwkModel {
        key_id,
        algorithm: Algorithm::RS256,
        key_type: "RSA"@,
        usage: "sig"@,
        modulus: base64url_text(modulus),
        exponent: base64url_text(exponent),
    }
}

impl Clone for Jwk {
    fn clone(&self) -> (copy: Jwk)
        ensures
            copy@ == self@,
    {
        Jwk {
            key_id: self.key_id.clone(),
            algorithm: self.algorithm,
            key_type: self.key_type.clone(),
            usage: self.usage.clone(),
            modulus: self.modulus.clone(),
            exponent: self.exponent.clone(),
        }
    }
}

impl Jwk {
    /// Publishes an RSA signature key: the components are written in unpadded URL-safe
    /// base64, the key type is `"RSA"`, the usage `"sig"` and the algorithm RS256.
    pub fn rsa_signature(key_id: &str, modulus: &[u8], exponent: &[u8]) -> (jwk: Jwk)
        ensures
            jwk@ == rsa_signature_jwk(key_id@, modulus@, exponent@),
    {
        Jwk {
            key_id: String::from_str(key_id),
            algorithm: Algorithm::RS256,
            key_type: String::from_str("RSA"),
            usage: String::from_str("sig"),
            modulus: base64url::encode(modulus),
            exponent: base64url::encode(exponent),
        }
    }
}

/// The position of the first key in `keys` with identifier `key_id`, or the length of
/// `keys` where there is none.
pub open spec fn key_position(keys: Seq<JwkModel>, key_id: Seq<char>) -> int
    decreases keys.len(),
{
    if keys.len() == 0 {
        0
    } else if keys[0].key_id == key_id {
        0
    } else {
        1 + key_position(keys.drop_first(), key_id)
    }
}

/// The key in `keys` with identifier `key_id`, if there is one. The match is exact.
pub open spec fn key_with_id(keys: Seq<JwkModel>, key_id: Seq<char>) -> Option<JwkModel> {
    if key_position(keys, key_id) < keys.len() {
        Some(keys[key_position(keys, key_id)])
    } else {
        None
    }
}

/// Whether no two keys in `keys` share an identifier.
pub open spec fn distinct_key_ids(keys: Seq<JwkModel>) -> bool {
    forall|i: int, j: int|
        0 <= i < j < keys.len() ==> (#[trigger] keys[i]).key_id != (#[trigger] keys[j]).key_id
}

/// `key_position` is the least position whose key has the identifier, and the length
/// exactly when no key has it.
pub proof fn lemma_key_position(keys: Seq<JwkModel>, key_id: Seq<char>)
    ensures
        0 <= key_position(keys, key_id) <= keys.len(),
        key_position(keys, key_id) < keys.len() ==> keys[key_position(keys, key_id)].key_id
            == key_id,
        forall|k: int| 0 <= k < key_position(keys, key_id) ==> (#[trigger] keys[k]).key_id != key_id,
    decreases keys.len(),
{
    if keys.len() != 0 && keys[0].key_id != key_id {
        let rest = keys.drop_first();
        lemma_key_position(rest, key_id);
        assert forall|k: int| 0 <= k < key_position(keys, key_id) implies (#[trigger] keys[k]).key_id
            != key_id by {
            if k > 0 {
                assert(keys[k] == rest[k - 1]);
            }
        }
    }
}

/// A key that sits at `at` is found under its own identifier when no earlier key
/// shares that identifier.
pub proof fn lemma_key_position_is(keys: Seq<JwkModel>, key_id: Seq<char>, at: int)
    requires
        0 <= at <= keys.len(),
        at < keys.len() ==> keys[at].key_id == key_id,
        forall|k: int| 0 <= k < at ==> (#[trigger] keys[k]).key_id != key_id,
    ensures
        key_position(keys, key_id) == at,
{
    lemma_key_position(keys, key_id);
    let found = key_position(keys, key_id);
    if found < at {
        assert(keys[found].key_id != key_id);
    }
}

/// An ordered set of public verification keys, no two with the same identifier.
pub struct JwkRegistry {
    keys: Vec<Jwk>,
}

impl View for JwkRegistry {
    type V = Seq<JwkModel>;

    closed spec fn view(&self) -> Seq<JwkModel> {
        Seq::new(self.keys@.len(), |i: int| self.keys@[i]@)
    }
}

impl JwkRegistry {
    #[verifier::type_invariant]
    spec fn well_formed(self) -> bool {
        distinct_key_ids(self@)
    }

    /// A registry without keys.
    pub fn new() -> (registry: JwkRegistry)
        ensures
            registry@ == Seq::<JwkModel>::empty(),
    {
        let registry = JwkRegistry { keys: Vec::new() };
        assert(registry@ =~= Seq::<JwkModel>::empty());
        registry
    }

    /// The number of keys held.
    pub fn len(&self) -> (count: usize)
        ensures
            count == self@.len(),
    {
        self.keys.len()
    }

    /// Looks a key up by its identifier. Only an exact, case-sensitive match counts;
    /// where no key matches, nothing is returned.
    pub fn lookup(&self, key_id: &str) -> (found: Option<&Jwk>)
        ensures
            match found {
                Some(jwk) => key_with_id(self@, key_id@) == Some(jwk@),
                None => key_with_id(self@, key_id@).is_none(),
            },
    {
        let mut i: usize = 0;
        while i < self.keys.len()
            invariant
                i <= self.keys@.len(),
                forall|k: int| 0 <= k < i ==> (#[trigger] self@[k]).key_id != key_id@,
            decreases self.keys@.len() - i,
        {
            if same_text(self.keys[i].key_id.as_str(), key_id) {
                proof {
                    lemma_key_position_is(self@, key_id@, i as int);
                }
                return Some(&self.keys[i]);
            }
            i = i + 1;
        }
        proof {
            lemma_key_position_is(self@, key_id@, i as int);
        }
        None
    }

    /// Adds `jwk` behind the keys already held, unless a key with the same identifier
    /// is held already: then the registry stays as it is and `jwk` comes back.
    pub fn insert(&mut self, jwk: Jwk) -> (refused: Option<Jwk>)
        ensures
            match refused {
                None => key_with_id(old(self)@, jwk@.key_id).is_none() && final(self)@ == old(
                    self,
                )@.push(jwk@),
                Some(back) => key_with_id(old(self)@, jwk@.key_id).is_some() && final(self)@
                    == old(self)@ && back@ == jwk@,
            },
    {
        proof {
            use_type_invariant(&*self);
        }
        if self.lookup(jwk.key_id.as_str()).is_some() {
            return Some(jwk);
        }
        let ghost before = self@;
        let ghost added = jwk@;
        let mut keys: Vec<Jwk> = Vec::new();
        core::mem::swap(&mut keys, &mut self.keys);
        keys.push(jwk);
        proof {
            let grown = Seq::new(keys@.len(), |i: int| keys@[i]@);
            assert(grown =~= before.push(added));
            lemma_push_keeps_distinct(before, added);
        }
        self.keys = keys;
        assert(self@ =~= before.push(added));
        None
    }

    /// A registry that holds exactly `jwk`.
    pub fn single(jwk: Jwk) -> (registry: JwkRegistry)
        ensures
            registry@ == seq![jwk@],
    {
        let ghost added = jwk@;
        let mut keys: Vec<Jwk> = Vec::new();
        keys.push(jwk);
        let registry = JwkRegistry { keys };
        assert(registry@ =~= seq![added]);
        registry
    }

    /// All keys held, in the order in which they were added.
    pub fn export_all(&self) -> (exported: Vec<Jwk>)
        ensures
            exported@.len() == self@.len(),
            forall|i: int| 0 <= i < exported@.len() ==> (#[trigger] exported@[i])@ == self@[i],
            distinct_key_ids(self@),
    {
        proof {
            use_type_invariant(self);
        }
        let mut exported: Vec<Jwk> = Vec::new();
        let mut i: usize = 0;
        while i < self.keys.len()
            invariant
                i <= self.keys@.len(),
                exported@.len() == i,
                forall|k: int| 0 <= k < i ==> (#[trigger] exported@[k])@ == self@[k],
            decreases self.keys@.len() - i,
        {
            exported.push(self.keys[i].clone());
            i = i + 1;
        }
        exported
    }
}

/// Adding a key whose identifier is not yet held keeps the identifiers distinct.
pub proof fn lemma_push_keeps_distinct(keys: Seq<JwkModel>, jwk: JwkModel)
    requires
        distinct_key_ids(keys),
        key_with_id(keys, jwk.key_id).is_none(),
    ensures
        distinct_key_ids(keys.push(jwk)),
        key_with_id(keys.push(jwk), jwk.key_id) == Some(jwk),
{
    lemma_key_position(keys, jwk.key_id);
    let grown = keys.push(jwk);
    assert forall|i: int, j: int| 0 <= i < j < grown.len() implies (#[trigger] grown[i]).key_id
        != (#[trigger] grown[j]).key_id by {
        if j < keys.len() {
            assert(keys[i].key_id != keys[j].key_id);
        } else {
            assert(keys[i].key_id != jwk.key_id);
        }
    }
    assert forall|k: int| 0 <= k < keys.len() implies (#[trigger] grown[k]).key_id
        != jwk.key_id by {
        assert(grown[k] == keys[k]);
    }
    lemma_key_position_is(grown, jwk.key_id, keys.len() as int);
}

/// A lookup never answers with a key other than one held under exactly the identifier
/// asked for, and answers whenever such a key is held.
pub proof fn lemma_lookup_exact(keys: Seq<JwkModel>, key_id: Seq<char>)
    ensures
        match key_with_id(keys, key_id) {
            Some(jwk) => jwk.key_id == key_id && keys.contains(jwk),
            None => forall|i: int| 0 <= i < keys.len() ==> (#[trigger] keys[i]).key_id != key_id,
        },
{
    lemma_key_position(keys, key_id);
}

} // verus!
