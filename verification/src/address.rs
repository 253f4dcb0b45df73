//! Deterministic derivation of storage addresses. Every record-defining
//! tuple (namespace tag, author identity, optional content digest, parent
//! identity) maps to one storage address and a derivation nonce ("bump");
//! every mutating operation recomputes the expected address from record
//! fields and rejects a caller-supplied address that does not match.
use vstd::prelude::*;

verus! {

/// A ledger address: the identity of a participant or the storage key of a
/// record, held as plain bytes. Addresses produced by derivation are 32
/// bytes long.
pub struct Address {
    pub bytes: Vec<u8>,
}

impl View for Address {
    type V = Seq<u8>;

    open spec fn view(&self) -> Seq<u8> {
        self.bytes@
    }
}

impl Address {
    pub fn from_bytes(bytes: Vec<u8>) -> (r: Address)
        ensures
            r@ == bytes@,
    {
        Address { bytes }
    }

    /// An explicit deep copy; the contracts speak of the byte view, so the
    /// copy is interchangeable with the original.
    pub fn dup(&self) -> (r: Address)
        ensures
            r@ == self@,
    {
        Address { bytes: copy_bytes(&self.bytes) }
    }

    pub fn equals(&self, other: &Address) -> (r: bool)
        ensures
            r == (self@ == other@),
    {
        bytes_eq(&self.bytes, &other.bytes)
    }

}

fn copy_bytes(v: &Vec<u8>) -> (r: Vec<u8>)
    ensures
        r@ == v@,
{
    let mut out: Vec<u8> = Vec::new();
    let mut i: usize = 0;
    while i < v.len()
        invariant
            i <= v@.len(),
            out@ == v@.subrange(0, i as int),
        decreases v@.len() - i,
    {
        out.push(v[i]);
        i += 1;
    }
    proof {
        assert(out@ =~= v@);
    }
    out
}

fn bytes_eq(a: &Vec<u8>, b: &Vec<u8>) -> (r: bool)
    ensures
        r == (a@ == b@),
{
    if a.len() != b.len() {
        return false;
    }
    let mut i: usize = 0;
    while i < a.len()
        invariant
            i <= a@.len(),
            a@.len() == b@.len(),
            forall|j: int| 0 <= j < i ==> a@[j] == b@[j],
        decreases a@.len() - i,
    {
        if a[i] != b[i] {
            return false;
        }
        i += 1;
    }
    proof {
        assert(a@ =~= b@);
    }
    true
}

/// The namespace tag of comment records: the bytes of "comment".
pub open spec fn comment_tag() -> Seq<u8> {
    seq![99u8, 111u8, 109u8, 109u8, 101u8, 110u8, 116u8]
}

/// The namespace tag of reaction records: the bytes of "reaction".
pub open spec fn reaction_tag() -> Seq<u8> {
    seq![114u8, 101u8, 97u8, 99u8, 116u8, 105u8, 111u8, 110u8]
}

fn comment_tag_bytes() -> (r: Vec<u8>)
    ensures
        r@ == comment_tag(),
{
    let mut v: Vec<u8> = Vec::new();
    v.push(99u8);
    v.push(111u8);
    v.push(109u8);
    v.push(109u8);
    v.push(101u8);
    v.push(110u8);
    v.push(116u8);
    proof {
        assert(v@ =~= comment_tag());
    }
    v
}

fn reaction_tag_bytes() -> (r: Vec<u8>)
    ensures
        r@ == reaction_tag(),
{
    let mut v: Vec<u8> = Vec::new();
    v.push(114u8);
    v.push(101u8);
    v.push(97u8);
    v.push(99u8);
    v.push(116u8);
    v.push(105u8);
    v.push(111u8);
    v.push(110u8);
    proof {
        assert(v@ =~= reaction_tag());
    }
    v
}

/// The seed tuple that defines a comment record's address: namespace tag,
/// author identity, content digest, parent identity.
pub open spec fn comment_seeds(author: Seq<u8>, digest: Seq<u8>, parent: Seq<u8>) -> Seq<Seq<u8>> {
    seq![comment_tag(), author, digest, parent]
}

/// The seed tuple that defines a reaction record's address: namespace tag,
/// author identity, parent identity. It is content-independent, so at most
/// one reaction record can exist per (author, parent) pair.
pub open spec fn reaction_seeds(author: Seq<u8>, parent: Seq<u8>) -> Seq<Seq<u8>> {
    seq![reaction_tag(), author, parent]
}

/// The SHA-256 digest of a byte string, named but not written out: it is a
/// function of the input bytes alone, computed by an outside crate.
pub uninterp spec fn digest_of(bytes: Seq<u8>) -> Seq<u8>;

/// The address and nonce derived from a seed tuple and a program identity,
/// or nothing in the statistically improbable event that no nonce yields a
/// valid address. A function of its arguments alone, recomputable
/// identically by any party holding the same inputs.
pub uninterp spec fn derived_address_of(seeds: Seq<Seq<u8>>, program_id: Seq<u8>) -> Option<(Seq<u8>, u8)>;

/// Relies on `solana_sha256_hasher::hash`: a SHA-256 digest, a function of
/// the input bytes alone.
#[verifier::external_body]
fn sha256(bytes: &Vec<u8>) -> (r: Vec<u8>)
    ensures
        r@ == digest_of(bytes@),
{
    solana_sha256_hasher::hash(bytes.as_slice()).to_bytes().to_vec()
}

/// Relies on `Pubkey::try_find_program_address` (solana_pubkey, re-exported
/// by anchor_lang): the derived address and nonce, or the absence of any,
/// are a function of the seed bytes and the program identity alone.
#[verifier::external_body]
fn find_derived_address(seeds: &Vec<Vec<u8>>, program_id: &Address) -> (r: Option<(Address, u8)>)
    requires
        program_id@.len() == 32,
    ensures
        (match r {
            Some(p) => Some((p.0@, p.1)),
            None => None,
        }) == derived_address_of(seeds.deep_view(), program_id@),
{
    let mut refs: Vec<&[u8]> = Vec::new();
    for s in seeds.iter() {
        refs.push(s.as_slice());
    }
    let mut pid_bytes = [0u8; 32];
    pid_bytes.copy_from_slice(program_id.bytes.as_slice());
    let pid = anchor_lang::solana_program::pubkey::Pubkey::new_from_array(pid_bytes);
    match anchor_lang::solana_program::pubkey::Pubkey::try_find_program_address(refs.as_slice(), &pid) {
        Some((pk, bump)) => Some((Address { bytes: pk.to_bytes().to_vec() }, bump)),
        None => None,
    }
}

/// Derives the expected address and nonce of the comment record defined by
/// (author, content, parent) under the given program identity.
pub fn derive_comment_address(
    author: &Address,
    content: &Vec<u8>,
    parent: &Address,
    program_id: &Address,
) -> (r: Option<(Address, u8)>)
    requires
        program_id@.len() == 32,
    ensures
        (match r {
            Some(p) => Some((p.0@, p.1)),
            None => None,
        }) == derived_address_of(
            comment_seeds(author@, digest_of(content@), parent@),
            program_id@,
        ),
{
    let digest = sha256(content);
    let mut seeds: Vec<Vec<u8>> = Vec::new();
    seeds.push(comment_tag_bytes());
    seeds.push(copy_bytes(&author.bytes));
    seeds.push(digest);
    seeds.push(copy_bytes(&parent.bytes));
    proof {
        assert(seeds.deep_view() =~~= comment_seeds(author@, digest_of(content@), parent@));
    }
    find_derived_address(&seeds, program_id)
}

/// Derives the expected address and nonce of the reaction record defined by
/// (author, parent) under the given program identity.
pub fn derive_reaction_address(author: &Address, parent: &Address, program_id: &Address) -> (r:
    Option<(Address, u8)>)
    requires
        program_id@.len() == 32,
    ensures
        (match r {
            Some(p) => Some((p.0@, p.1)),
            None => None,
        }) == derived_address_of(reaction_seeds(author@, parent@), program_id@),
{
    let mut seeds: Vec<Vec<u8>> = Vec::new();
    seeds.push(reaction_tag_bytes());
    seeds.push(copy_bytes(&author.bytes));
    seeds.push(copy_bytes(&parent.bytes));
    proof {
        assert(seeds.deep_view() =~~= reaction_seeds(author@, parent@));
    }
    find_derived_address(&seeds, program_id)
}

} // verus!
